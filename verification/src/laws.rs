//! Properties that hold across the readers of a model.
use vstd::prelude::*;
use crate::bytes::{fits, i32_at, u32_at};
use crate::binary_reader::{sized_at, text_end, text_ok, vertex_index_at};
use crate::format::{
    bone_end, bone_flags, bone_ik_pos, bone_ok, bone_ok_fn, bone_step, bones_end, bones_ok, count_of, each_ok,
    face_ok_fn, face_step, faces_end, faces_ok, has_flag, ik_end, ik_ok, link_end, link_ok,
    link_ok_fn, link_step, material_end, material_ok, material_ok_fn, material_step,
    materials_end, materials_ok, nth_start, stage_rank, successor, text_ok_fn, text_step,
    texture_list_end, texture_list_ok, triangle_count, vertex_end, vertex_ok, vertex_ok_fn,
    vertex_step, vertices_end, vertices_ok, morph_end, morph_head, morph_offset_ok_fn,
    morph_offset_step, morph_ok, morph_ok_fn, morph_step, morphs_end, morphs_ok,
};
use crate::pmx_types::{PMXHeaderRust, ReaderStage, BONE_FLAG_IK_MASK};

verus! {

/// Sections are read in the order of the file, each at most once: every
/// reader of `PMXLoader` that succeeds moves the loader from a stage `s` to
/// `t` with `successor(s) == Some(t)` (its `ensures` says so), and such a
/// step goes exactly one stage further on, so no stage is entered twice.
pub proof fn lemma_stage_order(s: ReaderStage, t: ReaderStage)
    requires
        successor(s) == Some(t),
    ensures
        stage_rank(t) == stage_rank(s) + 1,
        s != t,
{
}

/// Two stages that both lead somewhere lead to the same stage only when
/// they are the same stage: each section follows exactly one other.
pub proof fn lemma_successor_injective(s: ReaderStage, t: ReaderStage)
    requires
        successor(s) is Some,
        successor(s) == successor(t),
    ensures
        s == t,
{
}

/// For indices of one and two bytes, -1 is read exactly from the all-ones
/// pattern; every other pattern gives its unsigned value.
pub proof fn lemma_sized_sentinel(d: Seq<u8>, p: int, n: u8)
    requires
        n == 1 || n == 2,
        fits(d, p, n as int),
    ensures
        sized_at(d, p, n) == -1 <==> (if n == 1 {
            d[p] == 0xff
        } else {
            d[p] == 0xff && d[p + 1] == 0xff
        }),
        sized_at(d, p, n) != -1 ==> sized_at(d, p, n) == vertex_index_at(d, p, n),
{
}

/// A four-byte index and a four-byte vertex index at the same place are
/// the same bits, read signed and unsigned.
pub proof fn lemma_wide_index_bits(d: Seq<u8>, p: int)
    requires
        fits(d, p, 4),
    ensures
        sized_at(d, p, 4) == vertex_index_at(d, p, 4) || sized_at(d, p, 4)
            == vertex_index_at(d, p, 4) - 0x1_0000_0000,
        0 <= sized_at(d, p, 4) ==> sized_at(d, p, 4) == vertex_index_at(d, p, 4),
{
}

/// Triangle `i` of a face list starts `3 * i` indices after the count.
pub proof fn lemma_face_start(h: PMXHeaderRust, p: int, i: nat)
    ensures
        nth_start(face_step(h), p, i) == p + 3 * (h.s_vertex_index as int) * i,
    decreases i,
{
    if i > 0 {
        lemma_face_start(h, p, (i - 1) as nat);
        assert(3 * (h.s_vertex_index as int) * i == 3 * (h.s_vertex_index as int) * (i - 1) + 3
            * (h.s_vertex_index as int)) by (nonlinear_arith);
    }
}

/// A face list takes its count, then three indices for each of the
/// `count / 3` triangles; what is left of a count that is no multiple of
/// three is not read.
pub proof fn lemma_faces_end(d: Seq<u8>, p: int, h: PMXHeaderRust)
    ensures
        faces_end(d, p, h) == p + 4 + 3 * (h.s_vertex_index as int) * triangle_count(i32_at(d, p)),
        i32_at(d, p) >= 0 ==> 3 * triangle_count(i32_at(d, p)) <= i32_at(d, p) < 3
            * triangle_count(i32_at(d, p)) + 3,
{
    lemma_face_start(h, p + 4, triangle_count(i32_at(d, p)) as nat);
}

/// The triangles a material takes and those it leaves make up the list it
/// took them from, in order.
pub proof fn lemma_material_faces_partition<T>(faces: Seq<T>, n: int)
    requires
        0 <= n <= faces.len(),
    ensures
        faces.take(n) + faces.skip(n) == faces,
{
    assert(faces.take(n) + faces.skip(n) =~= faces);
}

/// A little-endian word is read the same whatever its sign: the signed and
/// the unsigned reading differ by 2^32 exactly when the top bit is set.
pub proof fn lemma_signed_unsigned_words(d: Seq<u8>, p: int)
    requires
        fits(d, p, 4),
    ensures
        i32_at(d, p) == u32_at(d, p) <==> d[p + 3] < 0x80,
        i32_at(d, p) == u32_at(d, p) || i32_at(d, p) == u32_at(d, p) - 0x1_0000_0000,
{
}

/// A list whose records each end no earlier than they start and no later
/// than `len` ends between its start and `len`.
proof fn lemma_list_within(
    ok: spec_fn(int) -> bool,
    step: spec_fn(int) -> int,
    p: int,
    n: nat,
    len: int,
)
    requires
        each_ok(ok, step, p, n),
        forall|q: int| ok(q) ==> q <= #[trigger] step(q) <= len,
        p <= len,
    ensures
        p <= nth_start(step, p, n) <= len,
    decreases n,
{
    if n > 0 {
        let m = (n - 1) as nat;
        assert(each_ok(ok, step, p, m)) by {
            assert forall|i: nat| #![trigger nth_start(step, p, i)] i < m implies ok(nth_start(step, p, i)) by {
                assert(i < n);
            }
        }
        lemma_list_within(ok, step, p, m, len);
        assert(ok(nth_start(step, p, m)));
    }
}

/// The links of an IK part that is read lie within the bytes.
proof fn lemma_ik_within(d: Seq<u8>, q: int, h: PMXHeaderRust)
    requires
        ik_ok(d, q, h),
        h.s_bone_index <= 4,
    ensures
        q <= ik_end(d, q, h) <= d.len(),
{
    let sz = h.s_bone_index as int;
    assert forall|x: int| link_ok_fn(d, h)(x) implies x <= #[trigger] link_step(d, h)(x) <= d.len() by {
        assert(link_ok(d, x, h));
        assert(link_step(d, h)(x) == link_end(d, x, h));
    }
    lemma_list_within(link_ok_fn(d, h), link_step(d, h), q + sz + 12, i32_at(d, q + sz + 8) as nat, d.len() as int);
}

/// The offsets of a morph that is read lie within the bytes.
proof fn lemma_morph_within(d: Seq<u8>, p: int, h: PMXHeaderRust)
    requires
        morph_ok(d, p, h),
    ensures
        p <= morph_end(d, p, h) <= d.len(),
{
    let m = morph_head(d, p);
    let t = d[m + 1];
    assert forall|x: int| morph_offset_ok_fn(d, h, t)(x) implies x <= #[trigger] morph_offset_step(h, t)(x) <= d.len() by {}
    lemma_list_within(morph_offset_ok_fn(d, h, t), morph_offset_step(h, t), m + 6, i32_at(d, m + 2) as nat, d.len() as int);
}

/// Every section that the loader reads lies within the file: it ends no
/// earlier than it starts, and no later than the last byte.
pub proof fn lemma_sections_within_file(d: Seq<u8>, p: int, h: PMXHeaderRust)
    requires
        0 <= p,
    ensures
        vertices_ok(d, p, h) ==> p + 4 <= vertices_end(d, p, h) <= d.len(),
        faces_ok(d, p, h) ==> p + 4 <= faces_end(d, p, h) <= d.len(),
        texture_list_ok(d, p, h.encode) ==> p + 4 <= texture_list_end(d, p) <= d.len(),
        materials_ok(d, p, h) ==> p + 4 <= materials_end(d, p, h) <= d.len(),
        bones_ok(d, p, h) ==> p + 4 <= bones_end(d, p, h) <= d.len(),
        morphs_ok(d, p, h) ==> p + 4 <= morphs_end(d, p, h) <= d.len(),
{
    let len = d.len() as int;
    if vertices_ok(d, p, h) {
        assert forall|q: int| vertex_ok_fn(d, h)(q) implies q <= #[trigger] vertex_step(d, h)(q) <= len by {
            assert(vertex_ok(d, q, h));
            assert(vertex_step(d, h)(q) == vertex_end(d, q, h));
        }
        lemma_list_within(vertex_ok_fn(d, h), vertex_step(d, h), p + 4, i32_at(d, p) as nat, len);
    }
    if faces_ok(d, p, h) {
        let n = triangle_count(i32_at(d, p)) as nat;
        if n > 0 {
            assert(face_ok_fn(d, h)(nth_start(face_step(h), p + 4, 0)));
        }
        assert forall|q: int| face_ok_fn(d, h)(q) implies q <= #[trigger] face_step(h)(q) <= len by {}
        lemma_list_within(face_ok_fn(d, h), face_step(h), p + 4, n, len);
    }
    if texture_list_ok(d, p, h.encode) {
        assert forall|q: int| text_ok_fn(d, h.encode)(q) implies q <= #[trigger] text_step(d)(q) <= len by {
            assert(text_ok(d, q, h.encode));
            assert(text_step(d)(q) == text_end(d, q));
        }
        lemma_list_within(text_ok_fn(d, h.encode), text_step(d), p + 4, count_of(i32_at(d, p)) as nat, len);
    }
    if materials_ok(d, p, h) {
        assert forall|q: int| material_ok_fn(d, h)(q) implies q <= #[trigger] material_step(d, h)(q) <= len by {
            assert(material_ok(d, q, h));
            assert(material_step(d, h)(q) == material_end(d, q, h));
        }
        lemma_list_within(material_ok_fn(d, h), material_step(d, h), p + 4, count_of(i32_at(d, p)) as nat, len);
    }
    if bones_ok(d, p, h) {
        assert forall|q: int| bone_ok_fn(d, h)(q) implies q <= #[trigger] bone_step(d, h)(q) <= len by {
            assert(bone_ok(d, q, h));
            assert(bone_step(d, h)(q) == bone_end(d, q, h));
            if has_flag(bone_flags(d, q, h), BONE_FLAG_IK_MASK) {
                lemma_ik_within(d, bone_ik_pos(d, q, h), h);
            }
        }
        lemma_list_within(bone_ok_fn(d, h), bone_step(d, h), p + 4, i32_at(d, p) as nat, len);
    }
    if morphs_ok(d, p, h) {
        assert forall|q: int| morph_ok_fn(d, h)(q) implies q <= #[trigger] morph_step(d, h)(q) <= len by {
            assert(morph_ok(d, q, h));
            assert(morph_step(d, h)(q) == morph_end(d, q, h));
            lemma_morph_within(d, q, h);
        }
        lemma_list_within(morph_ok_fn(d, h), morph_step(d, h), p + 4, i32_at(d, p) as nat, len);
    }
}

} // verus!
