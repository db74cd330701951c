use pmx_util::text::decimal_string;
use pmx_util::binary_reader::BinaryReader;
use pmx_util::pmx_types::Encode;

fn text_utf8(s: &str) -> Vec<u8> {
    let mut v = (s.len() as i32).to_le_bytes().to_vec();
    v.extend_from_slice(s.as_bytes());
    v
}

fn text_utf16(s: &str) -> Vec<u8> {
    let units: Vec<u16> = s.encode_utf16().collect();
    let mut v = ((units.len() * 2) as i32).to_le_bytes().to_vec();
    for u in units {
        v.extend_from_slice(&u.to_le_bytes());
    }
    v
}

#[test]
fn reads_little_endian_numbers() {
    let mut data = vec![0x12u8, 0xfe];
    data.extend_from_slice(&0xbeefu16.to_le_bytes());
    data.extend_from_slice(&(-2i16).to_le_bytes());
    data.extend_from_slice(&0xdead_beefu32.to_le_bytes());
    data.extend_from_slice(&(-123456i32).to_le_bytes());
    data.extend_from_slice(&1.5f32.to_bits().to_le_bytes());
    let mut r = BinaryReader::from_bytes(data);
    assert_eq!(r.read_u8(), 0x12);
    assert_eq!(r.read_i8(), -2);
    assert_eq!(r.read_u16(), 0xbeef);
    assert_eq!(r.read_i16(), -2);
    assert_eq!(r.read_u32(), 0xdead_beef);
    assert_eq!(r.read_i32(), -123456);
    assert_eq!(f32::from_bits(r.read_f32_bits()), 1.5);
    assert_eq!(r.remaining(), 0);
}

#[test]
fn reads_vectors_and_raw_bytes() {
    let mut data = Vec::new();
    for x in [1.0f32, 2.0, 3.0, 4.0, 5.0, 6.0, 7.0, 8.0, 9.0] {
        data.extend_from_slice(&x.to_bits().to_le_bytes());
    }
    data.extend_from_slice(&[9, 8, 7]);
    let mut r = BinaryReader::from_bytes(data);
    assert_eq!(r.read_vec2(), [1.0f32.to_bits(), 2.0f32.to_bits()]);
    assert_eq!(r.read_vec3(), [3.0f32.to_bits(), 4.0f32.to_bits(), 5.0f32.to_bits()]);
    assert_eq!(
        r.read_vec4(),
        [6.0f32.to_bits(), 7.0f32.to_bits(), 8.0f32.to_bits(), 9.0f32.to_bits()]
    );
    assert_eq!(r.read_vec(3), vec![9, 8, 7]);
    assert_eq!(r.remaining(), 0);
}

#[test]
fn reads_raw_header() {
    let mut data = b"PMX ".to_vec();
    data.extend_from_slice(&2.0f32.to_bits().to_le_bytes());
    data.push(8);
    data.extend_from_slice(&[1, 0, 4, 1, 2, 2, 1, 1]);
    let mut r = BinaryReader::from_bytes(data);
    let h = r.read_PMXHeader_raw();
    assert_eq!(h.magic, *b"PMX ");
    assert_eq!(f32::from_bits(h.version), 2.0);
    assert_eq!(h.length, 8);
    assert_eq!(h.config, [1, 0, 4, 1, 2, 2, 1, 1]);
    assert_eq!(r.remaining(), 0);
}

#[test]
fn sized_index_sentinels() {
    let mut data = vec![0xff, 0x05, 0xff, 0xff, 0x34, 0x12];
    data.extend_from_slice(&(-7i32).to_le_bytes());
    let mut r = BinaryReader::from_bytes(data);
    assert_eq!(r.read_sized(1), Some(-1));
    assert_eq!(r.read_sized(1), Some(5));
    assert_eq!(r.read_sized(2), Some(-1));
    assert_eq!(r.read_sized(2), Some(0x1234));
    assert_eq!(r.read_sized(3), None);
    assert_eq!(r.read_sized(4), Some(-7));
    assert_eq!(r.remaining(), 0);
}

#[test]
fn vertex_indices_are_unsigned() {
    let mut data = vec![0xff, 0xff, 0xff];
    data.extend_from_slice(&0xffff_fff0u32.to_le_bytes());
    let mut r = BinaryReader::from_bytes(data);
    assert_eq!(r.read_vertex_index(1), Some(255));
    assert_eq!(r.read_vertex_index(2), Some(0xffff));
    assert_eq!(r.read_vertex_index(0), None);
    assert_eq!(r.read_vertex_index(4), Some(0xffff_fff0));
    assert_eq!(r.remaining(), 0);
}

#[test]
fn reads_utf8_text() {
    let mut data = text_utf8("初音ミク");
    data.extend_from_slice(&text_utf8(""));
    let mut r = BinaryReader::from_bytes(data);
    assert_eq!(r.read_text_buf(Encode::UTF8), Some("初音ミク".to_string()));
    assert_eq!(r.read_text_buf(Encode::UTF8), Some(String::new()));
    assert_eq!(r.remaining(), 0);
}

#[test]
fn reads_utf16_text() {
    let mut data = text_utf16("初音ミク");
    data.extend_from_slice(&text_utf16("a😀b"));
    let mut r = BinaryReader::from_bytes(data);
    assert_eq!(r.read_text_buf(Encode::Utf16Le), Some("初音ミク".to_string()));
    assert_eq!(r.read_text_buf(Encode::Utf16Le), Some("a😀b".to_string()));
    assert_eq!(r.remaining(), 0);
}

#[test]
fn refuses_bad_text_and_stays() {
    // invalid UTF-8
    let mut data = 2i32.to_le_bytes().to_vec();
    data.extend_from_slice(&[0xc3, 0x28]);
    let mut r = BinaryReader::from_bytes(data.clone());
    assert_eq!(r.read_text_buf(Encode::UTF8), None);
    assert_eq!(r.remaining(), 6);
    // odd UTF-16 length
    let mut odd = 3i32.to_le_bytes().to_vec();
    odd.extend_from_slice(&[0x41, 0x00, 0x42]);
    let mut r = BinaryReader::from_bytes(odd);
    assert_eq!(r.read_text_buf(Encode::Utf16Le), None);
    assert_eq!(r.remaining(), 7);
    // lone surrogate
    let mut lone = 2i32.to_le_bytes().to_vec();
    lone.extend_from_slice(&0xd800u16.to_le_bytes());
    let mut r = BinaryReader::from_bytes(lone);
    assert_eq!(r.read_text_buf(Encode::Utf16Le), None);
    // negative length
    let mut r = BinaryReader::from_bytes((-1i32).to_le_bytes().to_vec());
    assert_eq!(r.read_text_buf(Encode::UTF8), None);
    assert_eq!(r.remaining(), 4);
    // longer than the data
    let mut short = 10i32.to_le_bytes().to_vec();
    short.extend_from_slice(b"abc");
    let mut r = BinaryReader::from_bytes(short);
    assert_eq!(r.read_text_buf(Encode::UTF8), None);
    assert_eq!(r.remaining(), 7);
}

#[test]
fn wide_indices_share_bits() {
    let bytes = 0xffff_fffeu32.to_le_bytes().to_vec();
    let mut signed = BinaryReader::from_bytes(bytes.clone());
    let mut unsigned = BinaryReader::from_bytes(bytes);
    let s = signed.read_sized(4).unwrap();
    let u = unsigned.read_vertex_index(4).unwrap();
    assert_eq!(s, -2);
    assert_eq!(u, 0xffff_fffe);
    assert_eq!(s as u32, u);
}

#[test]
fn utf16_text_of_two_units() {
    let data = vec![4, 0, 0, 0, 0x41, 0x00, 0x42, 0x00, 0x09];
    let mut r = BinaryReader::from_bytes(data);
    assert_eq!(r.read_text_buf(Encode::Utf16Le), Some("AB".to_string()));
    assert_eq!(r.read_u8(), 0x09);
}

#[test]
fn decimal_numerals() {
    assert_eq!(decimal_string(0), "0");
    assert_eq!(decimal_string(7), "7");
    assert_eq!(decimal_string(10), "10");
    assert_eq!(decimal_string(9876543210), "9876543210");
    assert_eq!(decimal_string(u64::MAX), "18446744073709551615");
}
