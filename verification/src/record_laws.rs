//! What each record a loader reads holds, stated field by field against the
//! bytes of the file: every number is the little-endian value of the bytes
//! at the offset the format gives it.
use vstd::prelude::*;
use vstd::arithmetic::div_mod::lemma_fundamental_div_mod_converse;
use crate::binary_reader::{sized_at, text_at, text_end, text_ok, vertex_index_at};
use crate::bytes::{fits, i16_at, i32_at, i8_at, u16_at, u32_at};
use crate::format::{
    count_of, each_matches, header_at, header_decoded, model_info_matches, text_matches_fn,
    text_step, texture_list_matches, bone_matches, bone_matches_fn, bone_step, bones_match, face_matches, face_matches_fn, face_step,
    faces_match, link_matches, link_matches_fn, link_step, material_matches, material_matches_fn,
    material_step, materials_match, morph_matches, morph_matches_fn, morph_offset_matches,
    morph_offset_matches_fn, morph_offset_step, morph_step, morphs_match, nth_start,
    vertex_matches, vertex_matches_fn, vertex_step, vertices_match,
};
use crate::text::{bmp_chars, bmp_units_only, lemma_utf16le_bmp};
use crate::pmx_types::{
    Encode, PMXHeaderC, PMXModelInfo, MorphTypes, PMXBone, PMXFace, PMXHeaderRust, PMXMaterial, PMXMorph, PMXSphereMode, PMXToonMode,
    PMXVertex, PMXVertexWeight,
};

verus! {

/// The four bytes of a number below 2^32, least significant first.
proof fn lemma_le4(b0: int, b1: int, b2: int, b3: int)
    requires
        0 <= b0 < 256,
        0 <= b1 < 256,
        0 <= b2 < 256,
        0 <= b3 < 256,
    ensures
        ({
            let x = b0 + 256 * b1 + 65536 * b2 + 16777216 * b3;
            &&& 0 <= x < 0x1_0000_0000
            &&& x % 256 == b0
            &&& (x / 256) % 256 == b1
            &&& (x / 65536) % 256 == b2
            &&& x / 16777216 == b3
        }),
{
    let x = b0 + 256 * b1 + 65536 * b2 + 16777216 * b3;
    lemma_fundamental_div_mod_converse(x, 256, b1 + 256 * b2 + 65536 * b3, b0);
    lemma_fundamental_div_mod_converse(x / 256, 256, b2 + 256 * b3, b1);
    lemma_fundamental_div_mod_converse(x, 65536, b2 + 256 * b3, b0 + 256 * b1);
    lemma_fundamental_div_mod_converse(x / 65536, 256, b3, b2);
    lemma_fundamental_div_mod_converse(x, 16777216, b3, b0 + 256 * b1 + 65536 * b2);
}

/// Byte `i` (0 to 3) of a number, least significant first.
pub open spec fn byte_of(x: int, i: int) -> int {
    if i == 0 {
        x % 256
    } else if i == 1 {
        (x / 256) % 256
    } else if i == 2 {
        (x / 65536) % 256
    } else {
        (x / 16777216) % 256
    }
}

/// A number read from four bytes gives those bytes back, least significant
/// first: the unsigned readings (`read_u32`, `read_f32_bits`, a 4-byte
/// `read_vertex_index`) are the number itself, the signed ones (`read_i32`,
/// a 4-byte `read_sized`) are the number of the same 32 bits; and a number
/// read from two bytes (`read_u16`, a 2-byte `read_vertex_index`) gives those
/// two back.
pub proof fn lemma_numbers_give_back_their_bytes(d: Seq<u8>, p: int)
    requires
        fits(d, p, 4),
    ensures
        forall|i: int| 0 <= i < 4 ==> #[trigger] byte_of(u32_at(d, p), i) == d[p + i],
        forall|i: int| 0 <= i < 4 ==> #[trigger] byte_of(vertex_index_at(d, p, 4), i) == d[p + i],
        forall|i: int|
            0 <= i < 4 ==> #[trigger] byte_of(i32_at(d, p) % 0x1_0000_0000, i) == d[p + i],
        forall|i: int|
            0 <= i < 4 ==> #[trigger] byte_of(sized_at(d, p, 4) % 0x1_0000_0000, i) == d[p + i],
        0 <= u32_at(d, p) < 0x1_0000_0000,
        0 <= vertex_index_at(d, p, 4) < 0x1_0000_0000,
        -0x8000_0000 <= i32_at(d, p) < 0x8000_0000,
        -0x8000_0000 <= sized_at(d, p, 4) < 0x8000_0000,
        byte_of(u16_at(d, p), 0) == d[p] && byte_of(u16_at(d, p), 1) == d[p + 1],
        byte_of(vertex_index_at(d, p, 2), 0) == d[p] && byte_of(vertex_index_at(d, p, 2), 1) == d[
            p + 1
        ],
        0 <= vertex_index_at(d, p, 2) < 0x1_0000,
{
    lemma_le4(d[p] as int, d[p + 1] as int, d[p + 2] as int, d[p + 3] as int);
    lemma_le4(d[p] as int, d[p + 1] as int, 0, 0);
    let u = u32_at(d, p);
    if u >= 0x8000_0000 {
        lemma_fundamental_div_mod_converse(u - 0x1_0000_0000, 0x1_0000_0000, -1, u);
    } else {
        lemma_fundamental_div_mod_converse(u, 0x1_0000_0000, 0, u);
    }
    assert(byte_of(u, 3) == d[p + 3]) by {
        lemma_fundamental_div_mod_converse(u / 16777216, 256, 0, u / 16777216);
    }
}

/// The vertex `i` of a vertex list read at `p` starts at `nth_start(..)`;
/// its weight type is the byte `32 + 16 * additional_uv` into it, and the
/// bone data that follows holds, for each weight type, exactly the bone
/// indices (each `s_bone_index` bytes, one after the other) and weights it
/// names; the edge scale is the last four bytes of the vertex.
pub proof fn lemma_vertex_bones(d: Seq<u8>, p: int, h: PMXHeaderRust, vs: Seq<PMXVertex>, i: nat)
    requires
        vertices_match(d, p, h, vs),
        i < vs.len(),
    ensures
        ({
            let q = nth_start(vertex_step(d, h), p + 4, i);
            let w = q + 32 + 16 * h.additional_uv;
            let s = h.s_bone_index;
            let sz = s as int;
            let v = vs[i as int];
            &&& d[w] == 0 ==> {
                &&& v.weight_type == PMXVertexWeight::BDEF1
                &&& v.bone_indices[0] == sized_at(d, w + 1, s)
                &&& v.bone_indices[1] == -1 && v.bone_indices[2] == -1 && v.bone_indices[3] == -1
                &&& v.bone_weights[0] == 0 && v.bone_weights[1] == 0 && v.bone_weights[2] == 0
                    && v.bone_weights[3] == 0
            }
            &&& d[w] == 1 ==> {
                &&& v.weight_type == PMXVertexWeight::BDEF2
                &&& v.bone_indices[0] == sized_at(d, w + 1, s)
                &&& v.bone_indices[1] == sized_at(d, w + 1 + sz, s)
                &&& v.bone_indices[2] == -1 && v.bone_indices[3] == -1
                &&& v.bone_weights[0] == u32_at(d, w + 1 + 2 * sz)
                &&& v.bone_weights[1] == 0 && v.bone_weights[2] == 0 && v.bone_weights[3] == 0
            }
            &&& (d[w] == 2 || d[w] == 4) ==> {
                &&& v.weight_type == (if d[w] == 2 {
                    PMXVertexWeight::BDEF4
                } else {
                    PMXVertexWeight::QDEF
                })
                &&& v.bone_indices[0] == sized_at(d, w + 1, s)
                &&& v.bone_indices[1] == sized_at(d, w + 1 + sz, s)
                &&& v.bone_indices[2] == sized_at(d, w + 1 + 2 * sz, s)
                &&& v.bone_indices[3] == sized_at(d, w + 1 + 3 * sz, s)
                &&& v.bone_weights[0] == u32_at(d, w + 1 + 4 * sz)
                &&& v.bone_weights[1] == u32_at(d, w + 5 + 4 * sz)
                &&& v.bone_weights[2] == u32_at(d, w + 9 + 4 * sz)
                &&& v.bone_weights[3] == u32_at(d, w + 13 + 4 * sz)
            }
            &&& d[w] == 3 ==> {
                &&& v.weight_type == PMXVertexWeight::SDEF
                &&& v.bone_indices[0] == sized_at(d, w + 1, s)
                &&& v.bone_indices[1] == sized_at(d, w + 1 + sz, s)
                &&& v.bone_indices[2] == -1 && v.bone_indices[3] == -1
                &&& v.bone_weights[0] == u32_at(d, w + 1 + 2 * sz)
                &&& v.sdef_c[0] == u32_at(d, w + 5 + 2 * sz)
                &&& v.sdef_c[1] == u32_at(d, w + 9 + 2 * sz)
                &&& v.sdef_c[2] == u32_at(d, w + 13 + 2 * sz)
                &&& v.sdef_r0[0] == u32_at(d, w + 17 + 2 * sz)
                &&& v.sdef_r0[1] == u32_at(d, w + 21 + 2 * sz)
                &&& v.sdef_r0[2] == u32_at(d, w + 25 + 2 * sz)
                &&& v.sdef_r1[0] == u32_at(d, w + 29 + 2 * sz)
                &&& v.sdef_r1[1] == u32_at(d, w + 33 + 2 * sz)
                &&& v.sdef_r1[2] == u32_at(d, w + 37 + 2 * sz)
            }
            &&& v.position[0] == u32_at(d, q) && v.position[1] == u32_at(d, q + 4)
                && v.position[2] == u32_at(d, q + 8)
            &&& v.norm[0] == u32_at(d, q + 12) && v.norm[1] == u32_at(d, q + 16)
                && v.norm[2] == u32_at(d, q + 20)
            &&& v.uv[0] == u32_at(d, q + 24) && v.uv[1] == u32_at(d, q + 28)
            &&& v.edge_mag == u32_at(d, nth_start(vertex_step(d, h), p + 4, i + 1) - 4)
        }),
{
    let step = vertex_step(d, h);
    let q = nth_start(step, p + 4, i);
    assert(vertex_matches_fn(d, h)(q, vs[i as int]));
    assert(vertex_matches(d, q, h, vs[i as int]));
    assert(nth_start(step, p + 4, i + 1) == step(q));
}

/// Records of a fixed size `len` laid one after the other: record `n`
/// starts `n * len` bytes after the first.
proof fn lemma_stride(step: spec_fn(int) -> int, p: int, n: nat, len: int)
    requires
        forall|q: int| #[trigger] step(q) == q + len,
    ensures
        nth_start(step, p, n) == p + n * len,
    decreases n,
{
    if n > 0 {
        lemma_stride(step, p, (n - 1) as nat, len);
        assert(step(nth_start(step, p, (n - 1) as nat)) == nth_start(step, p, (n - 1) as nat) + len);
        assert((n as int) * len == ((n - 1) as int) * len + len) by (nonlinear_arith);
    }
}

/// Triangle `i` of a face list read at `p` is the three vertex indices
/// (each `s_vertex_index` bytes) that start `3 * s_vertex_index * i` bytes
/// after the count, in file order.
pub proof fn lemma_face_vertices(d: Seq<u8>, p: int, h: PMXHeaderRust, fs: Seq<PMXFace>, i: nat)
    requires
        faces_match(d, p, h, fs),
        i < fs.len(),
    ensures
        ({
            let s = h.s_vertex_index;
            let q = p + 4 + 3 * (s as int) * i;
            &&& fs[i as int].vertices[0] == vertex_index_at(d, q, s)
            &&& fs[i as int].vertices[1] == vertex_index_at(d, q + s, s)
            &&& fs[i as int].vertices[2] == vertex_index_at(d, q + 2 * s, s)
        }),
{
    let step = face_step(h);
    let len = 3 * (h.s_vertex_index as int);
    lemma_stride(step, p + 4, i, len);
    assert((i as int) * len == 3 * (h.s_vertex_index as int) * i) by (nonlinear_arith)
        requires
            len == 3 * (h.s_vertex_index as int),
    ;
    let q = nth_start(step, p + 4, i);
    assert(face_matches_fn(d, h)(q, fs[i as int]));
    assert(face_matches(d, q, h, fs[i as int]));
}

/// Material `i` of a material list read at `p`: after its two names come
/// the colours at fixed offsets (diffuse, specular, specular factor,
/// ambient, draw mode, edge colour, edge size), two texture indices, the
/// sphere and toon mode bytes, the toon (an index for a toon of its own, one
/// byte for a shared one), the memo and the face-vertex count.
pub proof fn lemma_material_fields(d: Seq<u8>, p: int, h: PMXHeaderRust, xs: Seq<PMXMaterial>, i: nat)
    requires
        materials_match(d, p, h, xs),
        i < xs.len(),
    ensures
        ({
            let q = nth_start(material_step(d, h), p + 4, i);
            let x = xs[i as int];
            let b = text_end(d, text_end(d, q));
            let s = h.s_texture_index;
            let sz = s as int;
            let m = b + 65 + 2 * sz;
            &&& x.name@ == text_at(d, q, h.encode)
            &&& x.english_name@ == text_at(d, text_end(d, q), h.encode)
            &&& x.diffuse[0] == u32_at(d, b) && x.diffuse[1] == u32_at(d, b + 4)
            &&& x.diffuse[2] == u32_at(d, b + 8) && x.diffuse[3] == u32_at(d, b + 12)
            &&& x.specular[0] == u32_at(d, b + 16) && x.specular[1] == u32_at(d, b + 20)
            &&& x.specular[2] == u32_at(d, b + 24)
            &&& x.specular_factor == u32_at(d, b + 28)
            &&& x.ambient[0] == u32_at(d, b + 32) && x.ambient[1] == u32_at(d, b + 36)
            &&& x.ambient[2] == u32_at(d, b + 40)
            &&& x.drawmode == d[b + 44]
            &&& x.edge_color[0] == u32_at(d, b + 45) && x.edge_color[1] == u32_at(d, b + 49)
            &&& x.edge_color[2] == u32_at(d, b + 53) && x.edge_color[3] == u32_at(d, b + 57)
            &&& x.edge_size == u32_at(d, b + 61)
            &&& x.texture_index == sized_at(d, b + 65, s)
            &&& x.sphere_mode_texture_index == sized_at(d, b + 65 + sz, s)
            &&& (d[m] == 0 ==> x.spheremode == PMXSphereMode::Disabled)
            &&& (d[m] == 1 ==> x.spheremode == PMXSphereMode::Mul)
            &&& (d[m] == 2 ==> x.spheremode == PMXSphereMode::Add)
            &&& (d[m] == 3 ==> x.spheremode == PMXSphereMode::SubTexture)
            &&& d[m + 1] == 0 ==> {
                &&& x.toon_mode == PMXToonMode::Separate
                &&& x.toon_texture_index == sized_at(d, m + 2, s)
                &&& x.memo@ == text_at(d, m + 2 + sz, h.encode)
                &&& x.num_face_vertices == i32_at(d, text_end(d, m + 2 + sz))
            }
            &&& d[m + 1] == 1 ==> {
                &&& x.toon_mode == PMXToonMode::Common
                &&& x.toon_texture_index == d[m + 2]
                &&& x.memo@ == text_at(d, m + 3, h.encode)
                &&& x.num_face_vertices == i32_at(d, text_end(d, m + 3))
            }
        }),
{
    let q = nth_start(material_step(d, h), p + 4, i);
    assert(material_matches_fn(d, h)(q, xs[i as int]));
    assert(material_matches(d, q, h, xs[i as int]));
}

/// Bone `i` of a bone list read at `p`: after its two names come position,
/// parent, deform depth and flags, then, as the flags ask, the child index
/// (flag 0x0001) or the offset, the append parent and weight (0x0100 or
/// 0x0200), the fixed axis (0x0400), the local axes (0x0800), the
/// outer-parent key (0x2000) and the IK part (0x0020): target, iteration
/// count, angle limit, the count of links and the links right after it (see
/// `lemma_ik_link_fields`).  What the flags leave out is zero.
pub proof fn lemma_bone_fields(d: Seq<u8>, p: int, h: PMXHeaderRust, bs: Seq<PMXBone>, i: nat)
    requires
        bones_match(d, p, h, bs),
        i < bs.len(),
    ensures
        ({
            let q = nth_start(bone_step(d, h), p + 4, i);
            let b = bs[i as int];
            let s = h.s_bone_index;
            let sz = s as int;
            let head = text_end(d, text_end(d, q));
            let f = b.boneflag;
            let l = head + 18 + sz;
            let show = f & 0x0001u16 == 0x0001u16;
            let append = f & 0x0300u16 > 0;
            let fixed = f & 0x0400u16 == 0x0400u16;
            let local = f & 0x0800u16 == 0x0800u16;
            let outer = f & 0x2000u16 > 0;
            let ik = f & 0x0020u16 == 0x0020u16;
            let a = l + if show { sz } else { 12 };
            let x = a + if append { sz + 4 } else { 0 };
            let y = x + if fixed { 12int } else { 0 };
            let o = y + if local { 24int } else { 0 };
            let k = o + if outer { 4int } else { 0 };
            &&& b.name@ == text_at(d, q, h.encode)
            &&& b.english_name@ == text_at(d, text_end(d, q), h.encode)
            &&& b.position[0] == u32_at(d, head) && b.position[1] == u32_at(d, head + 4)
            &&& b.position[2] == u32_at(d, head + 8)
            &&& b.parent == sized_at(d, head + 12, s)
            &&& b.deform_depth == i32_at(d, head + 12 + sz)
            &&& f == u16_at(d, head + 16 + sz)
            &&& show ==> b.child == sized_at(d, l, s) && b.offset[0] == 0 && b.offset[1] == 0
                && b.offset[2] == 0
            &&& !show ==> b.child == 0 && b.offset[0] == u32_at(d, l) && b.offset[1] == u32_at(d, l + 4)
                && b.offset[2] == u32_at(d, l + 8)
            &&& append ==> b.append_bone_index == sized_at(d, a, s) && b.append_weight == u32_at(d, a + sz)
            &&& !append ==> b.append_bone_index == 0 && b.append_weight == 0
            &&& fixed ==> b.fixed_axis[0] == u32_at(d, x) && b.fixed_axis[1] == u32_at(d, x + 4)
                && b.fixed_axis[2] == u32_at(d, x + 8)
            &&& !fixed ==> b.fixed_axis[0] == 0 && b.fixed_axis[1] == 0 && b.fixed_axis[2] == 0
            &&& local ==> b.local_axis_x[0] == u32_at(d, y) && b.local_axis_x[1] == u32_at(d, y + 4)
                && b.local_axis_x[2] == u32_at(d, y + 8) && b.local_axis_z[0] == u32_at(d, y + 12)
                && b.local_axis_z[1] == u32_at(d, y + 16) && b.local_axis_z[2] == u32_at(d, y + 20)
            &&& !local ==> b.local_axis_x[0] == 0 && b.local_axis_x[1] == 0 && b.local_axis_x[2] == 0
                && b.local_axis_z[0] == 0 && b.local_axis_z[1] == 0 && b.local_axis_z[2] == 0
            &&& b.key_value == (if outer {
                i32_at(d, o)
            } else {
                0
            })
            &&& ik ==> b.ik_target_index == sized_at(d, k, s) && b.ik_iter_count == i32_at(d, k + sz)
                && b.ik_limit == u32_at(d, k + sz + 4) && b.ik_links@.len() == i32_at(d, k + sz + 8)
                && each_matches(link_matches_fn(d, h), link_step(d, h), k + sz + 12, b.ik_links@)
            &&& !ik ==> b.ik_target_index == 0 && b.ik_iter_count == 0 && b.ik_limit == 0
                && b.ik_links@.len() == 0
        }),
{
    let q = nth_start(bone_step(d, h), p + 4, i);
    assert(bone_matches_fn(d, h)(q, bs[i as int]));
    assert(bone_matches(d, q, h, bs[i as int]));
    assert(0x0100u16 | 0x0200u16 == 0x0300u16) by (bit_vector);
    let head = text_end(d, text_end(d, q));
    assert(0 <= d[head + 16 + h.s_bone_index] && 0 <= d[head + 17 + h.s_bone_index]);
}

/// IK link `j` of an IK bone whose links start at `k`: its bone index, its
/// limit flag, and the two limit vectors when the flag is 1 (zero otherwise).
pub proof fn lemma_ik_link_fields(d: Seq<u8>, h: PMXHeaderRust, k: int, b: PMXBone, j: nat)
    requires
        each_matches(link_matches_fn(d, h), link_step(d, h), k, b.ik_links@),
        j < b.ik_links@.len(),
    ensures
        ({
            let q = nth_start(link_step(d, h), k, j);
            let s = h.s_bone_index;
            let l = b.ik_links@[j as int];
            &&& l.ik_bone_index == sized_at(d, q, s)
            &&& l.enable_limit == d[q + s]
            &&& d[q + s] == 1 ==> l.limit_min[0] == u32_at(d, q + s + 1) && l.limit_min[1] == u32_at(
                d,
                q + s + 5,
            ) && l.limit_min[2] == u32_at(d, q + s + 9) && l.limit_max[0] == u32_at(d, q + s + 13)
                && l.limit_max[1] == u32_at(d, q + s + 17) && l.limit_max[2] == u32_at(d, q + s + 21)
            &&& d[q + s] != 1 ==> l.limit_min[0] == 0 && l.limit_min[1] == 0 && l.limit_min[2] == 0
                && l.limit_max[0] == 0 && l.limit_max[1] == 0 && l.limit_max[2] == 0
        }),
{
    let q = nth_start(link_step(d, h), k, j);
    assert(link_matches_fn(d, h)(q, b.ik_links@[j as int]));
    assert(link_matches(d, q, h, b.ik_links@[j as int]));
}

/// Offset `j` of morph `i` of a morph list read at `p`: offsets of one morph
/// have one size, so offset `j` starts `j` sizes after the first; by the type
/// byte it is a group morph (a morph index and a factor), a vertex morph (a
/// vertex index and three numbers), a bone morph (a bone index, a
/// translation of three numbers and a rotation of four), a uv morph (a vertex
/// index and four numbers) or a material morph (a material index, a formula
/// byte and its numbers).
pub proof fn lemma_morph_offset_fields(
    d: Seq<u8>,
    p: int,
    h: PMXHeaderRust,
    xs: Seq<PMXMorph>,
    i: nat,
    j: nat,
)
    requires
        morphs_match(d, p, h, xs),
        i < xs.len(),
        j < xs[i as int].morph_data@.len(),
    ensures
        ({
            let q = nth_start(morph_step(d, h), p + 4, i);
            let x = xs[i as int];
            let m = text_end(d, text_end(d, q));
            let t = d[m + 1];
            let sv = h.s_vertex_index as int;
            let sb = h.s_bone_index as int;
            let sm = h.s_morph_index as int;
            let st = h.s_material_index as int;
            let size = if t == 0 {
                sm + 4
            } else if t == 1 {
                sv + 12
            } else if t == 2 {
                sb + 28
            } else if t <= 7 {
                sv + 16
            } else {
                st + 113
            };
            let o = m + 6 + j * size;
            let e = x.morph_data@[j as int];
            &&& x.name@ == text_at(d, q, h.encode)
            &&& x.english_name@ == text_at(d, text_end(d, q), h.encode)
            &&& x.category == d[m]
            &&& x.morph_type == t
            &&& x.offset == i32_at(d, m + 2)
            &&& x.morph_data@.len() == i32_at(d, m + 2)
            &&& t == 0 ==> (e matches MorphTypes::Group(g) && g.index == sized_at(d, o, h.s_morph_index)
                && g.morph_factor == u32_at(d, o + sm))
            &&& t == 1 ==> (e matches MorphTypes::Vertex(v) && (v.index as int) % 0x1_0000_0000
                == vertex_index_at(d, o, h.s_vertex_index) && v.offset[0] == u32_at(d, o + sv)
                && v.offset[1] == u32_at(d, o + sv + 4) && v.offset[2] == u32_at(d, o + sv + 8))
            &&& t == 2 ==> (e matches MorphTypes::Bone(b) && b.index == sized_at(d, o, h.s_bone_index)
                && b.translates[0] == u32_at(d, o + sb) && b.translates[1] == u32_at(d, o + sb + 4)
                && b.translates[2] == u32_at(d, o + sb + 8) && b.rotates[0] == u32_at(d, o + sb + 12)
                && b.rotates[1] == u32_at(d, o + sb + 16) && b.rotates[2] == u32_at(d, o + sb + 20)
                && b.rotates[3] == u32_at(d, o + sb + 24))
            &&& 3 <= t <= 7 ==> {
                let u = match e {
                    MorphTypes::UV(u) => u,
                    MorphTypes::UV1(u) => u,
                    MorphTypes::UV2(u) => u,
                    MorphTypes::UV3(u) => u,
                    MorphTypes::UV4(u) => u,
                    _ => arbitrary(),
                };
                &&& (t == 3 <==> e is UV) && (t == 4 <==> e is UV1) && (t == 5 <==> e is UV2)
                &&& (t == 6 <==> e is UV3) && (t == 7 <==> e is UV4)
                &&& (u.index as int) % 0x1_0000_0000 == vertex_index_at(d, o, h.s_vertex_index)
                &&& u.offset[0] == u32_at(d, o + sv) && u.offset[1] == u32_at(d, o + sv + 4)
                &&& u.offset[2] == u32_at(d, o + sv + 8) && u.offset[3] == u32_at(d, o + sv + 12)
            }
            &&& t == 8 ==> (e matches MorphTypes::Material(mm) && mm.index == sized_at(
                d,
                o,
                h.s_material_index,
            ) && mm.formula == d[o + st] && mm.diffuse[0] == u32_at(d, o + st + 1)
                && mm.specular[0] == u32_at(d, o + st + 17) && mm.specular_factor == u32_at(
                d,
                o + st + 29,
            ) && mm.ambient[0] == u32_at(d, o + st + 33) && mm.edge_color[0] == u32_at(d, o + st + 45)
                && mm.edge_size == u32_at(d, o + st + 61) && mm.texture_factor[0] == u32_at(
                d,
                o + st + 65,
            ) && mm.sphere_texture_factor[0] == u32_at(d, o + st + 81) && mm.toon_texture_factor[0]
                == u32_at(d, o + st + 97))
        }),
{
    let q = nth_start(morph_step(d, h), p + 4, i);
    let x = xs[i as int];
    assert(morph_matches_fn(d, h)(q, x));
    assert(morph_matches(d, q, h, x));
    let m = text_end(d, text_end(d, q));
    let t = d[m + 1];
    let step = morph_offset_step(h, t);
    let len = crate::format::morph_offset_len(t, h);
    assert forall|r: int| #[trigger] step(r) == r + len by {}
    lemma_stride(step, m + 6, j, len);
    let o = nth_start(step, m + 6, j);
    let e = x.morph_data@[j as int];
    assert(morph_offset_matches_fn(d, h, t)(o, e));
    assert(morph_offset_matches(d, o, h, t, e));
    let u = vertex_index_at(d, o, crate::format::morph_index_size(t, h));
    if (t == 1 || (3 <= t <= 7)) {
        if u < 0x8000_0000 {
            lemma_fundamental_div_mod_converse(u, 0x1_0000_0000, 0, u);
        } else {
            lemma_fundamental_div_mod_converse(u - 0x1_0000_0000, 0x1_0000_0000, -1, u);
        }
    }
}

/// The small signed numbers give back their bytes too: a signed byte is its
/// byte, a signed 16-bit number its two bytes, least significant first.
pub proof fn lemma_small_numbers_give_back_their_bytes(d: Seq<u8>, p: int)
    requires
        fits(d, p, 2),
    ensures
        i8_at(d, p) % 256 == d[p],
        -128 <= i8_at(d, p) < 128,
        byte_of(i16_at(d, p) % 0x1_0000, 0) == d[p] && byte_of(i16_at(d, p) % 0x1_0000, 1) == d[p + 1],
        -0x8000 <= i16_at(d, p) < 0x8000,
{
    lemma_le4(d[p] as int, d[p + 1] as int, 0, 0);
    let u = u16_at(d, p);
    if u >= 0x8000 {
        lemma_fundamental_div_mod_converse(u - 0x1_0000, 0x1_0000, -1, u);
    } else {
        lemma_fundamental_div_mod_converse(u, 0x1_0000, 0, u);
    }
    if d[p] >= 128 {
        lemma_fundamental_div_mod_converse(d[p] - 256, 256, -1, d[p] as int);
    } else {
        lemma_fundamental_div_mod_converse(d[p] as int, 256, 0, d[p] as int);
    }
}

/// The decoded header keeps the raw header's fields: the version and length
/// as they are, configuration byte 0 as the encoding (1 is UTF-8, any other
/// UTF-16LE), bytes 1 to 7 as the extra uv count and the index widths of
/// vertices, textures, materials, bones, morphs and rigid bodies, in this
/// order; and a loader's header holds the same fields from bytes 4 to 16 of
/// the file.
pub proof fn lemma_header_fields(raw: PMXHeaderC, h: PMXHeaderRust, d: Seq<u8>, g: PMXHeaderRust)
    requires
        header_decoded(raw, h),
        header_at(d, g),
        d.len() >= 17,
    ensures
        h.version == raw.version && h.length == raw.length,
        (raw.config[0] == 1) == (h.encode == Encode::UTF8),
        h.additional_uv == raw.config[1] && h.s_vertex_index == raw.config[2],
        h.s_texture_index == raw.config[3] && h.s_material_index == raw.config[4],
        h.s_bone_index == raw.config[5] && h.s_morph_index == raw.config[6],
        h.s_rigid_body_index == raw.config[7],
        g.version == d[4] + 256 * d[5] + 65536 * d[6] + 16777216 * d[7],
        g.length == d[8],
        (d[9] == 1) == (g.encode == Encode::UTF8),
        g.additional_uv == d[10] && g.s_vertex_index == d[11] && g.s_texture_index == d[12],
        g.s_material_index == d[13] && g.s_bone_index == d[14] && g.s_morph_index == d[15],
        g.s_rigid_body_index == d[16],
{
}

/// The model information read at `p` is four texts one after the other:
/// name, English name, comment, English comment.
pub proof fn lemma_model_info_texts(d: Seq<u8>, p: int, enc: Encode, m: PMXModelInfo)
    requires
        model_info_matches(d, p, enc, m),
    ensures
        m.name@ == text_at(d, p, enc),
        m.name_en@ == text_at(d, text_end(d, p), enc),
        m.comment@ == text_at(d, text_end(d, text_end(d, p)), enc),
        m.comment_en@ == text_at(d, text_end(d, text_end(d, text_end(d, p))), enc),
{
    let step = text_step(d);
    assert(nth_start(step, p, 1) == text_end(d, p));
    assert(nth_start(step, p, 2) == text_end(d, text_end(d, p)));
    assert(nth_start(step, p, 3) == text_end(d, text_end(d, text_end(d, p))));
}

/// A text is a 32-bit count and that many bytes: it ends `4 + count` bytes
/// after it starts, UTF-8 text encodes back to exactly those bytes, and
/// UTF-16LE bytes without surrogates give one character per two bytes,
/// least significant first.
pub proof fn lemma_text_bytes(d: Seq<u8>, p: int, enc: Encode)
    requires
        text_ok(d, p, enc),
    ensures
        text_end(d, p) == p + 4 + i32_at(d, p),
        enc == Encode::UTF8 ==> vstd::utf8::encode_utf8(text_at(d, p, enc)) == d.subrange(
            p + 4,
            text_end(d, p),
        ),
        enc == Encode::Utf16Le && bmp_units_only(d.subrange(p + 4, text_end(d, p))) ==> {
            let b = d.subrange(p + 4, text_end(d, p));
            &&& text_at(d, p, enc).len() == i32_at(d, p) / 2
            &&& forall|j: int|
                0 <= j < i32_at(d, p) / 2 ==> #[trigger] text_at(d, p, enc)[j] == (d[p + 4 + 2 * j]
                    + 256 * d[p + 5 + 2 * j]) as char
        },
{
    let b = d.subrange(p + 4, text_end(d, p));
    if enc == Encode::UTF8 {
        vstd::utf8::decode_utf8_encode_utf8(b);
    } else if bmp_units_only(b) {
        lemma_utf16le_bmp(b);
        assert forall|j: int| 0 <= j < i32_at(d, p) / 2 implies #[trigger] text_at(d, p, enc)[j] == (d[p
            + 4 + 2 * j] + 256 * d[p + 5 + 2 * j]) as char by {
            assert(bmp_chars(b)[j] == (b[2 * j] + 256 * b[2 * j + 1]) as char);
        }
    }
}

/// The texture list read at `p`: as many names as the count says (none for a
/// negative count), the first starting right after the count and each next
/// one where the one before ends.
pub proof fn lemma_texture_names(d: Seq<u8>, p: int, enc: Encode, ts: Seq<String>, j: nat)
    requires
        texture_list_matches(d, p, enc, ts),
        j < ts.len(),
    ensures
        ts.len() == (if i32_at(d, p) > 0 {
            i32_at(d, p)
        } else {
            0
        }),
        ts[j as int]@ == text_at(d, nth_start(text_step(d), p + 4, j), enc),
        nth_start(text_step(d), p + 4, 0) == p + 4,
        nth_start(text_step(d), p + 4, j + 1) == text_end(d, nth_start(text_step(d), p + 4, j)),
{
    let q = nth_start(text_step(d), p + 4, j);
    assert(text_matches_fn(d, enc)(q, ts[j as int]));
    assert(nth_start(text_step(d), p + 4, j + 1) == text_step(d)(q));
}

/// Every list holds as many records as its count says: vertices, bones and
/// morphs exactly the count, triangles the count of indices divided by
/// three, rounded down, textures and materials the count or none when it is
/// negative.
pub proof fn lemma_list_lengths(
    d: Seq<u8>,
    p: int,
    h: PMXHeaderRust,
    vs: Seq<PMXVertex>,
    fs: Seq<PMXFace>,
    xs: Seq<PMXMaterial>,
    bs: Seq<PMXBone>,
    ms: Seq<PMXMorph>,
)
    ensures
        vertices_match(d, p, h, vs) ==> vs.len() == i32_at(d, p),
        faces_match(d, p, h, fs) && i32_at(d, p) >= 0 ==> 3 * fs.len() <= i32_at(d, p) < 3 * fs.len() + 3,
        faces_match(d, p, h, fs) && i32_at(d, p) < 0 ==> fs.len() == 0,
        materials_match(d, p, h, xs) ==> xs.len() == (if i32_at(d, p) > 0 {
            i32_at(d, p)
        } else {
            0
        }),
        bones_match(d, p, h, bs) ==> bs.len() == i32_at(d, p),
        morphs_match(d, p, h, ms) ==> ms.len() == i32_at(d, p),
{
}

/// The extra uvs of vertex `i`: as many as the header says, one after the
/// other from 32 bytes into the vertex; the rest are zero.
pub proof fn lemma_vertex_extra_uvs(d: Seq<u8>, p: int, h: PMXHeaderRust, vs: Seq<PMXVertex>, i: nat, j: int)
    requires
        vertices_match(d, p, h, vs),
        i < vs.len(),
        0 <= j < 4,
    ensures
        ({
            let q = nth_start(vertex_step(d, h), p + 4, i);
            let a = vs[i as int].add_uv[j];
            let r = q + 32 + 16 * j;
            &&& j < h.additional_uv ==> a[0] == u32_at(d, r) && a[1] == u32_at(d, r + 4) && a[2]
                == u32_at(d, r + 8) && a[3] == u32_at(d, r + 12)
            &&& j >= h.additional_uv ==> a[0] == 0 && a[1] == 0 && a[2] == 0 && a[3] == 0
        }),
{
    let q = nth_start(vertex_step(d, h), p + 4, i);
    assert(vertex_matches_fn(d, h)(q, vs[i as int]));
    assert(vertex_matches(d, q, h, vs[i as int]));
}

} // verus!
