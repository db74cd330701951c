//! A cursor over the bytes of a PMX file.
use vstd::prelude::*;
use crate::bytes::{fits, i16_at, i32_at, i8_at, le_u16, le_u32, u16_at, u16_to_i16, u32_at, u32_to_i32, u8_to_i8, vec2_is, vec3_is, vec4_is};
use crate::pmx_types::{Encode, PMXHeaderC, Vec2, Vec3, Vec4};
use crate::text::{decode, decode_text};

verus! {

/// A valid index width in bytes: 1, 2 or 4.
pub open spec fn valid_index_size(n: u8) -> bool {
    n == 1 || n == 2 || n == 4
}

/// The signed index of width `n` at `p`; for widths 1 and 2 the all-ones
/// pattern stands for -1, the other values are read unsigned.
pub open spec fn sized_at(d: Seq<u8>, p: int, n: u8) -> int {
    if n == 1 {
        if d[p] == 0xff {
            -1
        } else {
            d[p] as int
        }
    } else if n == 2 {
        if u16_at(d, p) == 0xffff {
            -1
        } else {
            u16_at(d, p)
        }
    } else {
        i32_at(d, p)
    }
}

/// The unsigned vertex index of width `n` at `p`.
pub open spec fn vertex_index_at(d: Seq<u8>, p: int, n: u8) -> int {
    if n == 1 {
        d[p] as int
    } else if n == 2 {
        u16_at(d, p)
    } else {
        u32_at(d, p)
    }
}

/// A text at `p`: a signed 32-bit byte count, then that many bytes holding
/// text in `enc`.
pub open spec fn text_ok(d: Seq<u8>, p: int, enc: Encode) -> bool {
    &&& fits(d, p, 4)
    &&& i32_at(d, p) >= 0
    &&& fits(d, p + 4, i32_at(d, p))
    &&& decode_text(d.subrange(p + 4, p + 4 + i32_at(d, p)), enc) is Some
}

/// The characters of the text at `p`.
pub open spec fn text_at(d: Seq<u8>, p: int, enc: Encode) -> Seq<char> {
    decode_text(d.subrange(p + 4, p + 4 + i32_at(d, p)), enc)->0
}

/// Where the text at `p` ends.
pub open spec fn text_end(d: Seq<u8>, p: int) -> int {
    p + 4 + i32_at(d, p)
}

pub struct BinaryReader {
    data: Vec<u8>,
    pos: usize,
}

impl BinaryReader {
    /// The bytes the reader reads from.
    pub closed spec fn bytes(&self) -> Seq<u8> {
        self.data@
    }

    /// The offset of the next byte to read.
    pub closed spec fn cursor(&self) -> int {
        self.pos as int
    }

    /// The cursor lies within the bytes.
    pub open spec fn wf(&self) -> bool {
        0 <= self.cursor() <= self.bytes().len() <= usize::MAX
    }

    /// Nothing but the cursor moved, and it moved `n` bytes on.
    pub open spec fn advanced(&self, old: &Self, n: int) -> bool {
        &&& self.bytes() == old.bytes()
        &&& self.cursor() == old.cursor() + n
    }

    /// `n` more bytes can be read.
    pub open spec fn can_read(&self, n: int) -> bool {
        self.wf() && fits(self.bytes(), self.cursor(), n)
    }

    /// A reader at the first of `data`.
    pub fn from_bytes(data: Vec<u8>) -> (r: Self)
        ensures
            r.bytes() == data@,
            r.cursor() == 0,
            r.wf(),
    {
        let _len = data.len();
        BinaryReader { data, pos: 0 }
    }

    /// How many bytes are left to read.
    pub fn remaining(&self) -> (n: usize)
        requires
            self.wf(),
        ensures
            n == self.bytes().len() - self.cursor(),
    {
        self.data.len() - self.pos
    }

    /// The offset of the next byte to read.
    pub(crate) fn tell(&self) -> (p: usize)
        ensures
            p == self.cursor(),
    {
        self.pos
    }

    /// Moves the cursor back to `p`.
    pub(crate) fn seek(&mut self, p: usize)
        requires
            old(self).wf(),
            p <= old(self).bytes().len(),
        ensures
            final(self).bytes() == old(self).bytes(),
            final(self).cursor() == p,
            final(self).wf(),
    {
        self.pos = p;
    }

    /// The next `n` bytes.
    pub fn read_vec(&mut self, n: usize) -> (v: Vec<u8>)
        requires
            old(self).can_read(n as int),
        ensures
            final(self).advanced(old(self), n as int),
            final(self).wf(),
            v@ == old(self).bytes().subrange(old(self).cursor(), old(self).cursor() + n),
    {
        let mut v: Vec<u8> = Vec::with_capacity(n);
        let start = self.pos;
        let mut i: usize = 0;
        while i < n
            invariant
                self.bytes() == old(self).bytes(),
                self.pos == start,
                start == old(self).cursor(),
                start + n <= self.data.len(),
                i <= n,
                v@ == self.data@.subrange(start as int, start + i),
            decreases n - i,
        {
            v.push(self.data[start + i]);
            i = i + 1;
            assert(v@ =~= self.data@.subrange(start as int, start + i));
        }
        self.pos = start + n;
        v
    }

    /// The next byte.
    pub fn read_u8(&mut self) -> (v: u8)
        requires
            old(self).can_read(1),
        ensures
            final(self).advanced(old(self), 1),
            final(self).wf(),
            v == old(self).bytes()[old(self).cursor()],
    {
        let v = self.data[self.pos];
        self.pos = self.pos + 1;
        v
    }

    /// The next byte, signed.
    pub fn read_i8(&mut self) -> (v: i8)
        requires
            old(self).can_read(1),
        ensures
            final(self).advanced(old(self), 1),
            final(self).wf(),
            v == i8_at(old(self).bytes(), old(self).cursor()),
    {
        let u = self.read_u8();
        u8_to_i8(u)
    }

    /// The next two bytes, little-endian.
    pub fn read_u16(&mut self) -> (v: u16)
        requires
            old(self).can_read(2),
        ensures
            final(self).advanced(old(self), 2),
            final(self).wf(),
            v == u16_at(old(self).bytes(), old(self).cursor()),
    {
        let p = self.pos;
        let v = le_u16(self.data[p], self.data[p + 1]);
        self.pos = p + 2;
        v
    }

    /// The next two bytes, little-endian, signed.
    pub fn read_i16(&mut self) -> (v: i16)
        requires
            old(self).can_read(2),
        ensures
            final(self).advanced(old(self), 2),
            final(self).wf(),
            v == i16_at(old(self).bytes(), old(self).cursor()),
    {
        let u = self.read_u16();
        u16_to_i16(u)
    }

    /// The next four bytes, little-endian.
    pub fn read_u32(&mut self) -> (v: u32)
        requires
            old(self).can_read(4),
        ensures
            final(self).advanced(old(self), 4),
            final(self).wf(),
            v == u32_at(old(self).bytes(), old(self).cursor()),
    {
        let p = self.pos;
        let v = le_u32(self.data[p], self.data[p + 1], self.data[p + 2], self.data[p + 3]);
        self.pos = p + 4;
        v
    }

    /// The next four bytes, little-endian, signed.
    pub fn read_i32(&mut self) -> (v: i32)
        requires
            old(self).can_read(4),
        ensures
            final(self).advanced(old(self), 4),
            final(self).wf(),
            v == i32_at(old(self).bytes(), old(self).cursor()),
    {
        let u = self.read_u32();
        u32_to_i32(u)
    }

    /// The bit pattern of the next single-precision number.
    pub fn read_f32_bits(&mut self) -> (v: u32)
        requires
            old(self).can_read(4),
        ensures
            final(self).advanced(old(self), 4),
            final(self).wf(),
            v == u32_at(old(self).bytes(), old(self).cursor()),
    {
        self.read_u32()
    }

    /// The next two single-precision numbers.
    pub fn read_vec2(&mut self) -> (v: Vec2)
        requires
            old(self).can_read(8),
        ensures
            final(self).advanced(old(self), 8),
            final(self).wf(),
            vec2_is(v, old(self).bytes(), old(self).cursor()),
    {
        let x = self.read_u32();
        let y = self.read_u32();
        [x, y]
    }

    /// The next three single-precision numbers.
    pub fn read_vec3(&mut self) -> (v: Vec3)
        requires
            old(self).can_read(12),
        ensures
            final(self).advanced(old(self), 12),
            final(self).wf(),
            vec3_is(v, old(self).bytes(), old(self).cursor()),
    {
        let x = self.read_u32();
        let y = self.read_u32();
        let z = self.read_u32();
        [x, y, z]
    }

    /// The next four single-precision numbers.
    pub fn read_vec4(&mut self) -> (v: Vec4)
        requires
            old(self).can_read(16),
        ensures
            final(self).advanced(old(self), 16),
            final(self).wf(),
            vec4_is(v, old(self).bytes(), old(self).cursor()),
    {
        let x = self.read_u32();
        let y = self.read_u32();
        let z = self.read_u32();
        let w = self.read_u32();
        [x, y, z, w]
    }

    /// The 17-byte file header: magic, version, header length and the eight
    /// configuration bytes.
    #[allow(non_snake_case)]
    pub fn read_PMXHeader_raw(&mut self) -> (h: PMXHeaderC)
        requires
            old(self).can_read(17),
        ensures
            final(self).advanced(old(self), 17),
            final(self).wf(),
            h.magic@ == old(self).bytes().subrange(old(self).cursor(), old(self).cursor() + 4),
            h.version == u32_at(old(self).bytes(), old(self).cursor() + 4),
            h.length == old(self).bytes()[old(self).cursor() + 8],
            h.config@ == old(self).bytes().subrange(old(self).cursor() + 9, old(self).cursor() + 17),
    {
        let m0 = self.read_u8();
        let m1 = self.read_u8();
        let m2 = self.read_u8();
        let m3 = self.read_u8();
        let version = self.read_u32();
        let length = self.read_u8();
        let c0 = self.read_u8();
        let c1 = self.read_u8();
        let c2 = self.read_u8();
        let c3 = self.read_u8();
        let c4 = self.read_u8();
        let c5 = self.read_u8();
        let c6 = self.read_u8();
        let c7 = self.read_u8();
        let h = PMXHeaderC {
            magic: [m0, m1, m2, m3],
            version,
            length,
            config: [c0, c1, c2, c3, c4, c5, c6, c7],
        };
        proof {
            let d = old(self).bytes();
            let p = old(self).cursor();
            assert(h.magic@ =~= d.subrange(p, p + 4));
            assert(h.config@ =~= d.subrange(p + 9, p + 17));
        }
        h
    }

    /// A text: a signed 32-bit byte count, then the bytes, decoded in `encode`.
    /// `None`, with the reader unchanged, where the count is negative, the
    /// bytes run past the end, or they hold no text in `encode`.
    pub fn read_text_buf(&mut self, encode: Encode) -> (r: Option<String>)
        requires
            old(self).wf(),
        ensures
            final(self).wf(),
            r is Some <==> text_ok(old(self).bytes(), old(self).cursor(), encode),
            r is Some ==> r->0@ == text_at(old(self).bytes(), old(self).cursor(), encode)
                && final(self).advanced(old(self), 4 + i32_at(old(self).bytes(), old(self).cursor())),
            r is None ==> final(self).advanced(old(self), 0),
    {
        let start = self.pos;
        if self.data.len() - start < 4 {
            return None;
        }
        let length = self.read_i32();
        if length < 0 || self.data.len() - self.pos < length as usize {
            self.pos = start;
            return None;
        }
        let v = self.read_vec(length as usize);
        match decode(v, encode) {
            Some(s) => Some(s),
            None => {
                self.pos = start;
                None
            },
        }
    }

    /// A vertex index of width `n`, read unsigned; `None` for a width other
    /// than 1, 2 or 4, with the reader unchanged.
    pub fn read_vertex_index(&mut self, n: u8) -> (r: Option<u32>)
        requires
            old(self).wf(),
            valid_index_size(n) ==> old(self).can_read(n as int),
        ensures
            final(self).wf(),
            r is Some <==> valid_index_size(n),
            r is Some ==> r->0 == vertex_index_at(old(self).bytes(), old(self).cursor(), n)
                && final(self).advanced(old(self), n as int),
            r is None ==> final(self).advanced(old(self), 0),
    {
        match n {
            1 => Some(self.read_u8() as u32),
            2 => Some(self.read_u16() as u32),
            4 => Some(self.read_u32()),
            _ => None,
        }
    }

    /// A signed index of width `n`: for widths 1 and 2 the all-ones pattern
    /// gives -1; `None` for a width other than 1, 2 or 4, with the reader unchanged.
    pub fn read_sized(&mut self, n: u8) -> (r: Option<i32>)
        requires
            old(self).wf(),
            valid_index_size(n) ==> old(self).can_read(n as int),
        ensures
            final(self).wf(),
            r is Some <==> valid_index_size(n),
            r is Some ==> r->0 == sized_at(old(self).bytes(), old(self).cursor(), n)
                && final(self).advanced(old(self), n as int),
            r is None ==> final(self).advanced(old(self), 0),
    {
        match n {
            1 => {
                let tmp = self.read_u8();
                if tmp != 0xff {
                    Some(tmp as i32)
                } else {
                    Some(-1)
                }
            },
            2 => {
                let tmp = self.read_u16();
                if tmp != 0xffff {
                    Some(tmp as i32)
                } else {
                    Some(-1)
                }
            },
            4 => Some(self.read_i32()),
            _ => None,
        }
    }
}

} // verus!
