//! The layout of a PMX file, as predicates over its bytes.
//!
//! For each record kind there is `*_ok` (the bytes at `p` hold one, and the
//! loader accepts it), `*_end` (where it ends) and `*_matches` (a value holds
//! exactly what the bytes say).  Lists are a count followed by records laid
//! one after the other; `nth_start` gives where record `i` starts.
use vstd::prelude::*;
use crate::binary_reader::{sized_at, text_at, text_end, text_ok, valid_index_size, vertex_index_at};
use crate::bytes::{fits, i32_at, u16_at, u32_at, vec2_is, vec3_is, vec3_zero, vec4_is, vec4_zero};
use crate::pmx_types::{
    MaterialMorph, MorphTypes, PMXMorph,
    BONE_FLAG_APPEND_ROTATE_MASK, BONE_FLAG_APPEND_TRANSLATE_MASK,
    BONE_FLAG_DEFORM_OUTER_PARENT_MASK, BONE_FLAG_FIXED_AXIS_MASK, BONE_FLAG_IK_MASK,
    BONE_FLAG_LOCAL_AXIS_MASK, BONE_FLAG_TARGET_SHOW_MODE_MASK, Encode, PMXBone, PMXFace,
    PMXHeaderC, PMXHeaderRust, PMXIKLink, PMXMaterial, PMXModelInfo, PMXSphereMode, PMXToonMode,
    PMXVertex, PMXVertexWeight, ReaderStage, Vec3, Vec4,
};
use crate::text::lossy_text;

verus! {

// ---------------------------------------------------------------- lists

/// Where record `i` of a list starts, when the first starts at `p` and the
/// record starting at `q` ends at `step(q)`.
pub open spec fn nth_start(step: spec_fn(int) -> int, p: int, i: nat) -> int
    decreases i,
{
    if i == 0 {
        p
    } else {
        step(nth_start(step, p, (i - 1) as nat))
    }
}

/// The first `n` records of the list all satisfy `ok`.
pub open spec fn each_ok(ok: spec_fn(int) -> bool, step: spec_fn(int) -> int, p: int, n: nat) -> bool {
    forall|i: nat| #![trigger nth_start(step, p, i)] i < n ==> ok(nth_start(step, p, i))
}

/// Value `i` of `vs` is what record `i` of the list holds, for each `i`.
pub open spec fn each_matches<T>(
    m: spec_fn(int, T) -> bool,
    step: spec_fn(int) -> int,
    p: int,
    vs: Seq<T>,
) -> bool {
    forall|i: nat| #![trigger nth_start(step, p, i)] i < vs.len() ==> m(nth_start(step, p, i), vs[i as int])
}

/// Record `n + 1` starts where record `n` ends.
pub proof fn lemma_nth_start_next(step: spec_fn(int) -> int, p: int, n: nat)
    ensures
        nth_start(step, p, n + 1) == step(nth_start(step, p, n)),
{
}

/// One more record that satisfies `ok` extends a list that does.
pub proof fn lemma_each_ok_extend(ok: spec_fn(int) -> bool, step: spec_fn(int) -> int, p: int, n: nat)
    requires
        each_ok(ok, step, p, n),
        ok(nth_start(step, p, n)),
    ensures
        each_ok(ok, step, p, n + 1),
{
    assert forall|i: nat| #![trigger nth_start(step, p, i)] i < n + 1 implies ok(nth_start(step, p, i)) by {
        if i < n {
        }
    }
}

/// One more value that holds the next record extends a list of values that do.
pub proof fn lemma_each_matches_extend<T>(
    m: spec_fn(int, T) -> bool,
    step: spec_fn(int) -> int,
    p: int,
    vs: Seq<T>,
    v: T,
)
    requires
        each_matches(m, step, p, vs),
        m(nth_start(step, p, vs.len()), v),
    ensures
        each_matches(m, step, p, vs.push(v)),
{
    assert forall|i: nat| #![trigger nth_start(step, p, i)] i < vs.push(v).len() implies m(
        nth_start(step, p, i),
        vs.push(v)[i as int],
    ) by {
        if i < vs.len() {
        }
    }
}

/// The number of records of a list whose count is `c`, where a negative count means none.
pub open spec fn count_of(c: int) -> int {
    if c > 0 {
        c
    } else {
        0
    }
}

// ---------------------------------------------------------------- header

/// The text encoding of configuration byte 0 (1 is UTF-8; 0 is UTF-16LE).
pub open spec fn encode_of(b: u8) -> Encode {
    if b == 1 {
        Encode::UTF8
    } else {
        Encode::Utf16Le
    }
}

/// `h` is the decoding of the raw header `raw`.
pub open spec fn header_decoded(raw: PMXHeaderC, h: PMXHeaderRust) -> bool {
    &&& h.magic@ == lossy_text(raw.magic@)
    &&& h.version == raw.version
    &&& h.length == raw.length
    &&& h.encode == encode_of(raw.config[0])
    &&& h.additional_uv == raw.config[1]
    &&& h.s_vertex_index == raw.config[2]
    &&& h.s_texture_index == raw.config[3]
    &&& h.s_material_index == raw.config[4]
    &&& h.s_bone_index == raw.config[5]
    &&& h.s_morph_index == raw.config[6]
    &&& h.s_rigid_body_index == raw.config[7]
}

/// `h` is the header that the first 17 bytes of `d` hold.
pub open spec fn header_at(d: Seq<u8>, h: PMXHeaderRust) -> bool {
    &&& h.magic@ == lossy_text(d.subrange(0, 4))
    &&& h.version == u32_at(d, 4)
    &&& h.length == d[8]
    &&& h.encode == encode_of(d[9])
    &&& h.additional_uv == d[10]
    &&& h.s_vertex_index == d[11]
    &&& h.s_texture_index == d[12]
    &&& h.s_material_index == d[13]
    &&& h.s_bone_index == d[14]
    &&& h.s_morph_index == d[15]
    &&& h.s_rigid_body_index == d[16]
}

/// The loader accepts the bytes `d` as a start of a model: a whole header whose encoding byte is 0 or 1.
pub open spec fn header_ok(d: Seq<u8>) -> bool {
    d.len() >= 17 && d[9] <= 1
}

// ---------------------------------------------------------------- stages

/// The stage a loader is in after reading the section that follows `s`.
pub open spec fn successor(s: ReaderStage) -> Option<ReaderStage> {
    match s {
        ReaderStage::Header => Some(ReaderStage::ModelInfo),
        ReaderStage::ModelInfo => Some(ReaderStage::VertexList),
        ReaderStage::VertexList => Some(ReaderStage::SurfaceList),
        ReaderStage::SurfaceList => Some(ReaderStage::TextureList),
        ReaderStage::TextureList => Some(ReaderStage::MaterialList),
        ReaderStage::MaterialList => Some(ReaderStage::BoneList),
        ReaderStage::BoneList => Some(ReaderStage::MorphList),
        _ => None,
    }
}

/// How many sections have been read in stage `s`.
pub open spec fn stage_rank(s: ReaderStage) -> nat {
    match s {
        ReaderStage::Header => 0,
        ReaderStage::ModelInfo => 1,
        ReaderStage::VertexList => 2,
        ReaderStage::SurfaceList => 3,
        ReaderStage::TextureList => 4,
        ReaderStage::MaterialList => 5,
        ReaderStage::BoneList => 6,
        ReaderStage::MorphList => 7,
        ReaderStage::FrameList => 8,
        ReaderStage::RigidList => 9,
        ReaderStage::JointList => 10,
    }
}

// ---------------------------------------------------------------- texts

/// Where each text of a list of texts ends.
pub open spec fn text_step(d: Seq<u8>) -> spec_fn(int) -> int {
    |q: int| text_end(d, q)
}

/// A text in `enc` starts at each record start.
pub open spec fn text_ok_fn(d: Seq<u8>, enc: Encode) -> spec_fn(int) -> bool {
    |q: int| text_ok(d, q, enc)
}

/// A string holds the text at its record start.
pub open spec fn text_matches_fn(d: Seq<u8>, enc: Encode) -> spec_fn(int, String) -> bool {
    |q: int, s: String| s@ == text_at(d, q, enc)
}

/// The four texts of the model information at `p`.
pub open spec fn model_info_ok(d: Seq<u8>, p: int, enc: Encode) -> bool {
    each_ok(text_ok_fn(d, enc), text_step(d), p, 4)
}

/// Where the model information at `p` ends.
pub open spec fn model_info_end(d: Seq<u8>, p: int) -> int {
    nth_start(text_step(d), p, 4)
}

/// `m` holds the model information at `p`.
pub open spec fn model_info_matches(d: Seq<u8>, p: int, enc: Encode, m: PMXModelInfo) -> bool {
    &&& m.name@ == text_at(d, nth_start(text_step(d), p, 0), enc)
    &&& m.name_en@ == text_at(d, nth_start(text_step(d), p, 1), enc)
    &&& m.comment@ == text_at(d, nth_start(text_step(d), p, 2), enc)
    &&& m.comment_en@ == text_at(d, nth_start(text_step(d), p, 3), enc)
}

/// A texture list at `p`: a count, then that many texts (none for a negative count).
pub open spec fn texture_list_ok(d: Seq<u8>, p: int, enc: Encode) -> bool {
    &&& fits(d, p, 4)
    &&& each_ok(text_ok_fn(d, enc), text_step(d), p + 4, count_of(i32_at(d, p)) as nat)
}

/// Where the texture list at `p` ends.
pub open spec fn texture_list_end(d: Seq<u8>, p: int) -> int {
    nth_start(text_step(d), p + 4, count_of(i32_at(d, p)) as nat)
}

/// `ts` holds the names of the texture list at `p`.
pub open spec fn texture_list_matches(d: Seq<u8>, p: int, enc: Encode, ts: Seq<String>) -> bool {
    &&& ts.len() == count_of(i32_at(d, p))
    &&& each_matches(text_matches_fn(d, enc), text_step(d), p + 4, ts)
}

// ---------------------------------------------------------------- vertices

/// The weight type of file value `b` (at most 4).
pub open spec fn weight_type_of(b: u8) -> PMXVertexWeight {
    if b == 0 {
        PMXVertexWeight::BDEF1
    } else if b == 1 {
        PMXVertexWeight::BDEF2
    } else if b == 2 {
        PMXVertexWeight::BDEF4
    } else if b == 3 {
        PMXVertexWeight::SDEF
    } else {
        PMXVertexWeight::QDEF
    }
}

/// Where the weight type byte of the vertex at `p` lies.
pub open spec fn vertex_weight_pos(p: int, h: PMXHeaderRust) -> int {
    p + 32 + 16 * h.additional_uv
}

/// The number of bytes of bone data that follow weight type `w`, for bone indices of `sz` bytes.
pub open spec fn weight_data_len(w: PMXVertexWeight, sz: int) -> int {
    match w {
        PMXVertexWeight::BDEF1 => sz,
        PMXVertexWeight::BDEF2 => 2 * sz + 4,
        PMXVertexWeight::BDEF4 => 4 * sz + 16,
        PMXVertexWeight::SDEF => 2 * sz + 40,
        PMXVertexWeight::QDEF => 4 * sz + 16,
    }
}

/// Where the vertex at `p` ends.
pub open spec fn vertex_end(d: Seq<u8>, p: int, h: PMXHeaderRust) -> int {
    let w = vertex_weight_pos(p, h);
    w + 1 + weight_data_len(weight_type_of(d[w]), h.s_bone_index as int) + 4
}

/// The vertex at `p`: position, normal, uv, the header's number (at most 4) of
/// extra uvs, a weight type of at most 4, its bone data, the edge scale.
pub open spec fn vertex_ok(d: Seq<u8>, p: int, h: PMXHeaderRust) -> bool {
    &&& h.additional_uv <= 4
    &&& valid_index_size(h.s_bone_index)
    &&& fits(d, p, 33 + 16 * h.additional_uv)
    &&& d[vertex_weight_pos(p, h)] <= 4
    &&& vertex_end(d, p, h) <= d.len()
}

/// An extra uv: read at `q` when present, else zero.
pub open spec fn add_uv_is(a: Vec4, d: Seq<u8>, q: int, present: bool) -> bool {
    if present {
        vec4_is(a, d, q)
    } else {
        vec4_zero(a)
    }
}

/// The four bone indices are `a`, `b`, `c`, `e`.
pub open spec fn indices_are(idx: [i32; 4], a: int, b: int, c: int, e: int) -> bool {
    idx[0] == a && idx[1] == b && idx[2] == c && idx[3] == e
}

/// The first weight is `w0`, the other three are zero.
pub open spec fn first_weight_is(wts: Vec4, w0: int) -> bool {
    wts[0] == w0 && wts[1] == 0 && wts[2] == 0 && wts[3] == 0
}

/// The bone data of weight type `w` at `r`, with indices of width `s`, is
/// `idx` (unused ones -1), `wts` (unused ones zero) and the SDEF parameters
/// `c`, `r0`, `r1` (zero but for SDEF).
pub open spec fn weights_match(
    d: Seq<u8>,
    r: int,
    s: u8,
    w: PMXVertexWeight,
    idx: [i32; 4],
    wts: Vec4,
    c: Vec3,
    r0: Vec3,
    r1: Vec3,
) -> bool {
    let sz = s as int;
    match w {
        PMXVertexWeight::BDEF1 => {
            &&& indices_are(idx, sized_at(d, r, s), -1, -1, -1)
            &&& vec4_zero(wts)
            &&& vec3_zero(c) && vec3_zero(r0) && vec3_zero(r1)
        },
        PMXVertexWeight::BDEF2 => {
            &&& indices_are(idx, sized_at(d, r, s), sized_at(d, r + sz, s), -1, -1)
            &&& first_weight_is(wts, u32_at(d, r + 2 * sz))
            &&& vec3_zero(c) && vec3_zero(r0) && vec3_zero(r1)
        },
        PMXVertexWeight::SDEF => {
            &&& indices_are(idx, sized_at(d, r, s), sized_at(d, r + sz, s), -1, -1)
            &&& first_weight_is(wts, u32_at(d, r + 2 * sz))
            &&& vec3_is(c, d, r + 2 * sz + 4)
            &&& vec3_is(r0, d, r + 2 * sz + 16)
            &&& vec3_is(r1, d, r + 2 * sz + 28)
        },
        _ => {
            &&& indices_are(
                idx,
                sized_at(d, r, s),
                sized_at(d, r + sz, s),
                sized_at(d, r + 2 * sz, s),
                sized_at(d, r + 3 * sz, s),
            )
            &&& vec4_is(wts, d, r + 4 * sz)
            &&& vec3_zero(c) && vec3_zero(r0) && vec3_zero(r1)
        },
    }
}

/// `v` holds the vertex at `p`.
pub open spec fn vertex_matches(d: Seq<u8>, p: int, h: PMXHeaderRust, v: PMXVertex) -> bool {
    let k = h.additional_uv as int;
    let w = vertex_weight_pos(p, h);
    &&& vec3_is(v.position, d, p)
    &&& vec3_is(v.norm, d, p + 12)
    &&& vec2_is(v.uv, d, p + 24)
    &&& add_uv_is(v.add_uv[0], d, p + 32, 0 < k)
    &&& add_uv_is(v.add_uv[1], d, p + 48, 1 < k)
    &&& add_uv_is(v.add_uv[2], d, p + 64, 2 < k)
    &&& add_uv_is(v.add_uv[3], d, p + 80, 3 < k)
    &&& v.weight_type == weight_type_of(d[w])
    &&& weights_match(
        d,
        w + 1,
        h.s_bone_index,
        v.weight_type,
        v.bone_indices,
        v.bone_weights,
        v.sdef_c,
        v.sdef_r0,
        v.sdef_r1,
    )
    &&& v.edge_mag == u32_at(d, vertex_end(d, p, h) - 4)
}

pub open spec fn vertex_step(d: Seq<u8>, h: PMXHeaderRust) -> spec_fn(int) -> int {
    |q: int| vertex_end(d, q, h)
}

pub open spec fn vertex_ok_fn(d: Seq<u8>, h: PMXHeaderRust) -> spec_fn(int) -> bool {
    |q: int| vertex_ok(d, q, h)
}

pub open spec fn vertex_matches_fn(d: Seq<u8>, h: PMXHeaderRust) -> spec_fn(int, PMXVertex) -> bool {
    |q: int, v: PMXVertex| vertex_matches(d, q, h, v)
}

/// The vertex list at `p`: a count that is not negative, then that many vertices.
pub open spec fn vertices_ok(d: Seq<u8>, p: int, h: PMXHeaderRust) -> bool {
    &&& fits(d, p, 4)
    &&& i32_at(d, p) >= 0
    &&& each_ok(vertex_ok_fn(d, h), vertex_step(d, h), p + 4, i32_at(d, p) as nat)
}

pub open spec fn vertices_end(d: Seq<u8>, p: int, h: PMXHeaderRust) -> int {
    nth_start(vertex_step(d, h), p + 4, i32_at(d, p) as nat)
}

pub open spec fn vertices_match(d: Seq<u8>, p: int, h: PMXHeaderRust, vs: Seq<PMXVertex>) -> bool {
    &&& vs.len() == i32_at(d, p)
    &&& each_matches(vertex_matches_fn(d, h), vertex_step(d, h), p + 4, vs)
}

// ---------------------------------------------------------------- faces

/// The number of triangles of a face list whose count of indices is `c`:
/// `c / 3` rounded toward zero, none for a negative count.
pub open spec fn triangle_count(c: int) -> int {
    if c > 0 {
        c / 3
    } else {
        0
    }
}

pub open spec fn face_step(h: PMXHeaderRust) -> spec_fn(int) -> int {
    |q: int| q + 3 * (h.s_vertex_index as int)
}

pub open spec fn face_ok_fn(d: Seq<u8>, h: PMXHeaderRust) -> spec_fn(int) -> bool {
    |q: int| valid_index_size(h.s_vertex_index) && fits(d, q, 3 * (h.s_vertex_index as int))
}

/// `f` holds the triangle at `q`.
pub open spec fn face_matches(d: Seq<u8>, q: int, h: PMXHeaderRust, f: PMXFace) -> bool {
    let s = h.s_vertex_index;
    &&& f.vertices[0] == vertex_index_at(d, q, s)
    &&& f.vertices[1] == vertex_index_at(d, q + s, s)
    &&& f.vertices[2] == vertex_index_at(d, q + 2 * s, s)
}

pub open spec fn face_matches_fn(d: Seq<u8>, h: PMXHeaderRust) -> spec_fn(int, PMXFace) -> bool {
    |q: int, f: PMXFace| face_matches(d, q, h, f)
}

/// The face list at `p`: a count of indices of at least -2 (a count whose
/// third, rounded toward zero, is negative is refused), then
/// `triangle_count` triangles of three vertex indices each.
pub open spec fn faces_ok(d: Seq<u8>, p: int, h: PMXHeaderRust) -> bool {
    &&& fits(d, p, 4)
    &&& i32_at(d, p) >= -2
    &&& each_ok(face_ok_fn(d, h), face_step(h), p + 4, triangle_count(i32_at(d, p)) as nat)
}

pub open spec fn faces_end(d: Seq<u8>, p: int, h: PMXHeaderRust) -> int {
    nth_start(face_step(h), p + 4, triangle_count(i32_at(d, p)) as nat)
}

pub open spec fn faces_match(d: Seq<u8>, p: int, h: PMXHeaderRust, fs: Seq<PMXFace>) -> bool {
    &&& fs.len() == triangle_count(i32_at(d, p))
    &&& each_matches(face_matches_fn(d, h), face_step(h), p + 4, fs)
}

// ---------------------------------------------------------------- materials

/// The sphere mode of file value `b` (at most 3).
pub open spec fn sphere_mode_of(b: u8) -> PMXSphereMode {
    if b == 0 {
        PMXSphereMode::Disabled
    } else if b == 1 {
        PMXSphereMode::Mul
    } else if b == 2 {
        PMXSphereMode::Add
    } else {
        PMXSphereMode::SubTexture
    }
}

/// The toon mode of file value `b` (at most 1).
pub open spec fn toon_mode_of(b: u8) -> PMXToonMode {
    if b == 0 {
        PMXToonMode::Separate
    } else {
        PMXToonMode::Common
    }
}

/// Where the colours of the material at `p` start, after its two names.
pub open spec fn material_body(d: Seq<u8>, p: int) -> int {
    text_end(d, text_end(d, p))
}

/// Where the sphere-mode byte of the material at `p` lies (the toon-mode byte follows it).
pub open spec fn material_modes_pos(d: Seq<u8>, p: int, h: PMXHeaderRust) -> int {
    material_body(d, p) + 65 + 2 * h.s_texture_index
}

/// Where the memo of the material at `p` starts: after a texture index for
/// a toon of its own, after one byte for a shared toon.
pub open spec fn material_memo_pos(d: Seq<u8>, p: int, h: PMXHeaderRust) -> int {
    let m = material_modes_pos(d, p, h);
    if d[m + 1] == 0 {
        m + 2 + h.s_texture_index
    } else {
        m + 3
    }
}

/// Where the material at `p` ends.
pub open spec fn material_end(d: Seq<u8>, p: int, h: PMXHeaderRust) -> int {
    text_end(d, material_memo_pos(d, p, h)) + 4
}

/// The material at `p`: two names, colours, two texture indices, a sphere
/// mode of at most 3, a toon mode of at most 1, the toon, a memo and the
/// number of face vertices.
pub open spec fn material_ok(d: Seq<u8>, p: int, h: PMXHeaderRust) -> bool {
    let m = material_modes_pos(d, p, h);
    &&& text_ok(d, p, h.encode)
    &&& text_ok(d, text_end(d, p), h.encode)
    &&& valid_index_size(h.s_texture_index)
    &&& fits(d, material_body(d, p), 67 + 2 * h.s_texture_index)
    &&& d[m] <= 3
    &&& d[m + 1] <= 1
    &&& fits(d, m + 2, material_memo_pos(d, p, h) - (m + 2))
    &&& text_ok(d, material_memo_pos(d, p, h), h.encode)
    &&& fits(d, text_end(d, material_memo_pos(d, p, h)), 4)
}

/// The 65 bytes of colours at `b`: diffuse, specular, specular factor,
/// ambient, draw mode, edge colour, edge size.
pub open spec fn colours_match(
    d: Seq<u8>,
    b: int,
    diffuse: Vec4,
    specular: Vec3,
    specular_factor: int,
    ambient: Vec3,
    drawmode: int,
    edge_color: Vec4,
    edge_size: int,
) -> bool {
    &&& vec4_is(diffuse, d, b)
    &&& vec3_is(specular, d, b + 16)
    &&& specular_factor == u32_at(d, b + 28)
    &&& vec3_is(ambient, d, b + 32)
    &&& drawmode == d[b + 44]
    &&& vec4_is(edge_color, d, b + 45)
    &&& edge_size == u32_at(d, b + 61)
}

/// `x` holds the material at `p`.
pub open spec fn material_matches(d: Seq<u8>, p: int, h: PMXHeaderRust, x: PMXMaterial) -> bool {
    let b = material_body(d, p);
    let s = h.s_texture_index;
    let t = b + 65;
    let m = material_modes_pos(d, p, h);
    let q = material_memo_pos(d, p, h);
    &&& x.name@ == text_at(d, p, h.encode)
    &&& x.english_name@ == text_at(d, text_end(d, p), h.encode)
    &&& colours_match(
        d,
        b,
        x.diffuse,
        x.specular,
        x.specular_factor as int,
        x.ambient,
        x.drawmode as int,
        x.edge_color,
        x.edge_size as int,
    )
    &&& x.texture_index == sized_at(d, t, s)
    &&& x.sphere_mode_texture_index == sized_at(d, t + s, s)
    &&& x.spheremode == sphere_mode_of(d[m])
    &&& x.toon_mode == toon_mode_of(d[m + 1])
    &&& x.toon_texture_index == (if d[m + 1] == 0 {
        sized_at(d, m + 2, s)
    } else {
        d[m + 2] as int
    })
    &&& x.memo@ == text_at(d, q, h.encode)
    &&& x.num_face_vertices == i32_at(d, text_end(d, q))
}

pub open spec fn material_step(d: Seq<u8>, h: PMXHeaderRust) -> spec_fn(int) -> int {
    |q: int| material_end(d, q, h)
}

pub open spec fn material_ok_fn(d: Seq<u8>, h: PMXHeaderRust) -> spec_fn(int) -> bool {
    |q: int| material_ok(d, q, h)
}

pub open spec fn material_matches_fn(d: Seq<u8>, h: PMXHeaderRust) -> spec_fn(int, PMXMaterial) -> bool {
    |q: int, x: PMXMaterial| material_matches(d, q, h, x)
}

/// The material list at `p`: a count, then that many materials (none for a negative count).
pub open spec fn materials_ok(d: Seq<u8>, p: int, h: PMXHeaderRust) -> bool {
    &&& fits(d, p, 4)
    &&& each_ok(material_ok_fn(d, h), material_step(d, h), p + 4, count_of(i32_at(d, p)) as nat)
}

pub open spec fn materials_end(d: Seq<u8>, p: int, h: PMXHeaderRust) -> int {
    nth_start(material_step(d, h), p + 4, count_of(i32_at(d, p)) as nat)
}

pub open spec fn materials_match(d: Seq<u8>, p: int, h: PMXHeaderRust, xs: Seq<PMXMaterial>) -> bool {
    &&& xs.len() == count_of(i32_at(d, p))
    &&& each_matches(material_matches_fn(d, h), material_step(d, h), p + 4, xs)
}

// ---------------------------------------------------------------- bones

/// Every bit of `mask` is set in `f`.
pub open spec fn has_flag(f: u16, mask: u16) -> bool {
    f & mask == mask
}

/// Some bit of `mask` is set in `f`.
pub open spec fn any_flag(f: u16, mask: u16) -> bool {
    f & mask > 0
}

/// Where an IK link at `q` ends: its bone index, its limit flag, and the
/// two limit vectors when the flag is 1.
pub open spec fn link_end(d: Seq<u8>, q: int, h: PMXHeaderRust) -> int {
    let sz = h.s_bone_index as int;
    if d[q + sz] == 1 {
        q + sz + 25
    } else {
        q + sz + 1
    }
}

pub open spec fn link_ok(d: Seq<u8>, q: int, h: PMXHeaderRust) -> bool {
    fits(d, q, h.s_bone_index + 1) && link_end(d, q, h) <= d.len()
}

/// `l` holds the IK link at `q`.
pub open spec fn link_matches(d: Seq<u8>, q: int, h: PMXHeaderRust, l: PMXIKLink) -> bool {
    let s = h.s_bone_index;
    &&& l.ik_bone_index == sized_at(d, q, s)
    &&& l.enable_limit == d[q + s]
    &&& if d[q + s] == 1 {
        vec3_is(l.limit_min, d, q + s + 1) && vec3_is(l.limit_max, d, q + s + 13)
    } else {
        vec3_zero(l.limit_min) && vec3_zero(l.limit_max)
    }
}

pub open spec fn link_step(d: Seq<u8>, h: PMXHeaderRust) -> spec_fn(int) -> int {
    |q: int| link_end(d, q, h)
}

pub open spec fn link_ok_fn(d: Seq<u8>, h: PMXHeaderRust) -> spec_fn(int) -> bool {
    |q: int| link_ok(d, q, h)
}

pub open spec fn link_matches_fn(d: Seq<u8>, h: PMXHeaderRust) -> spec_fn(int, PMXIKLink) -> bool {
    |q: int, l: PMXIKLink| link_matches(d, q, h, l)
}

/// The IK part of a bone at `q`: target, iteration count, angle limit, then
/// a count that is not negative and that many links.
pub open spec fn ik_ok(d: Seq<u8>, q: int, h: PMXHeaderRust) -> bool {
    let sz = h.s_bone_index as int;
    &&& fits(d, q, sz + 12)
    &&& i32_at(d, q + sz + 8) >= 0
    &&& each_ok(link_ok_fn(d, h), link_step(d, h), q + sz + 12, i32_at(d, q + sz + 8) as nat)
}

pub open spec fn ik_end(d: Seq<u8>, q: int, h: PMXHeaderRust) -> int {
    let sz = h.s_bone_index as int;
    nth_start(link_step(d, h), q + sz + 12, i32_at(d, q + sz + 8) as nat)
}

/// The IK part at `q` is `target`, `iter`, `limit`, `links`.
pub open spec fn ik_matches(
    d: Seq<u8>,
    q: int,
    h: PMXHeaderRust,
    target: int,
    iter: int,
    limit: int,
    links: Seq<PMXIKLink>,
) -> bool {
    let s = h.s_bone_index;
    &&& target == sized_at(d, q, s)
    &&& iter == i32_at(d, q + s)
    &&& limit == u32_at(d, q + s + 4)
    &&& links.len() == i32_at(d, q + s + 8)
    &&& each_matches(link_matches_fn(d, h), link_step(d, h), q + s + 12, links)
}

/// Where the position of the bone at `p` starts, after its two names.
pub open spec fn bone_head(d: Seq<u8>, p: int) -> int {
    text_end(d, text_end(d, p))
}

/// Where the flags of the bone at `p` lie.
pub open spec fn bone_flag_pos(d: Seq<u8>, p: int, h: PMXHeaderRust) -> int {
    bone_head(d, p) + 16 + h.s_bone_index
}

/// The flags of the bone at `p`.
pub open spec fn bone_flags(d: Seq<u8>, p: int, h: PMXHeaderRust) -> u16 {
    u16_at(d, bone_flag_pos(d, p, h)) as u16
}

/// Where the child index (or the offset) of the bone at `p` starts.
pub open spec fn bone_link_pos(d: Seq<u8>, p: int, h: PMXHeaderRust) -> int {
    bone_flag_pos(d, p, h) + 2
}

/// Where the append data (if any) starts, for a bone whose flags `f` follow
/// the child index (or offset) at `l`, with bone indices of `sz` bytes.
pub open spec fn append_pos_from(l: int, f: u16, sz: int) -> int {
    l + if has_flag(f, BONE_FLAG_TARGET_SHOW_MODE_MASK) {
        sz
    } else {
        12
    }
}

/// Where the fixed axis (if any) starts.
pub open spec fn fixed_pos_from(l: int, f: u16, sz: int) -> int {
    append_pos_from(l, f, sz) + if any_flag(
        f,
        BONE_FLAG_APPEND_ROTATE_MASK | BONE_FLAG_APPEND_TRANSLATE_MASK,
    ) {
        sz + 4
    } else {
        0
    }
}

/// Where the local axes (if any) start.
pub open spec fn local_pos_from(l: int, f: u16, sz: int) -> int {
    fixed_pos_from(l, f, sz) + if has_flag(f, BONE_FLAG_FIXED_AXIS_MASK) {
        12int
    } else {
        0
    }
}

/// Where the outer-parent key (if any) starts.
pub open spec fn outer_pos_from(l: int, f: u16, sz: int) -> int {
    local_pos_from(l, f, sz) + if has_flag(f, BONE_FLAG_LOCAL_AXIS_MASK) {
        24int
    } else {
        0
    }
}

/// Where the IK part (if any) starts.
pub open spec fn ik_pos_from(l: int, f: u16, sz: int) -> int {
    outer_pos_from(l, f, sz) + if any_flag(f, BONE_FLAG_DEFORM_OUTER_PARENT_MASK) {
        4int
    } else {
        0
    }
}

/// The flag-driven parts of a bone, from `l` to the IK part, are `child`,
/// `offset`, the append index and weight, the fixed axis, the local axes and
/// the key; a part the flags leave out is zero.
pub open spec fn bone_parts_match(
    d: Seq<u8>,
    l: int,
    f: u16,
    s: u8,
    child: int,
    offset: Vec3,
    append_index: int,
    append_weight: int,
    fixed: Vec3,
    local_x: Vec3,
    local_z: Vec3,
    key: int,
) -> bool {
    let a = append_pos_from(l, f, s as int);
    let x = fixed_pos_from(l, f, s as int);
    let y = local_pos_from(l, f, s as int);
    let o = outer_pos_from(l, f, s as int);
    &&& if has_flag(f, BONE_FLAG_TARGET_SHOW_MODE_MASK) {
        child == sized_at(d, l, s) && vec3_zero(offset)
    } else {
        child == 0 && vec3_is(offset, d, l)
    }
    &&& if any_flag(f, BONE_FLAG_APPEND_ROTATE_MASK | BONE_FLAG_APPEND_TRANSLATE_MASK) {
        append_index == sized_at(d, a, s) && append_weight == u32_at(d, a + s)
    } else {
        append_index == 0 && append_weight == 0
    }
    &&& if has_flag(f, BONE_FLAG_FIXED_AXIS_MASK) {
        vec3_is(fixed, d, x)
    } else {
        vec3_zero(fixed)
    }
    &&& if has_flag(f, BONE_FLAG_LOCAL_AXIS_MASK) {
        vec3_is(local_x, d, y) && vec3_is(local_z, d, y + 12)
    } else {
        vec3_zero(local_x) && vec3_zero(local_z)
    }
    &&& key == (if any_flag(f, BONE_FLAG_DEFORM_OUTER_PARENT_MASK) {
        i32_at(d, o)
    } else {
        0
    })
}

/// Where the IK part (if any) of the bone at `p` starts.
pub open spec fn bone_ik_pos(d: Seq<u8>, p: int, h: PMXHeaderRust) -> int {
    ik_pos_from(bone_link_pos(d, p, h), bone_flags(d, p, h), h.s_bone_index as int)
}

/// Where the bone at `p` ends.
pub open spec fn bone_end(d: Seq<u8>, p: int, h: PMXHeaderRust) -> int {
    if has_flag(bone_flags(d, p, h), BONE_FLAG_IK_MASK) {
        ik_end(d, bone_ik_pos(d, p, h), h)
    } else {
        bone_ik_pos(d, p, h)
    }
}

/// The bone at `p`: two names, position, parent, deform depth, flags, then
/// the parts that the flags ask for.
pub open spec fn bone_ok(d: Seq<u8>, p: int, h: PMXHeaderRust) -> bool {
    &&& text_ok(d, p, h.encode)
    &&& text_ok(d, text_end(d, p), h.encode)
    &&& valid_index_size(h.s_bone_index)
    &&& fits(d, bone_head(d, p), 18 + h.s_bone_index)
    &&& bone_ik_pos(d, p, h) <= d.len()
    &&& has_flag(bone_flags(d, p, h), BONE_FLAG_IK_MASK) ==> ik_ok(d, bone_ik_pos(d, p, h), h)
}

/// `b` holds the bone at `p`; the parts that the flags leave out are zero
/// (and no IK links).
pub open spec fn bone_matches(d: Seq<u8>, p: int, h: PMXHeaderRust, b: PMXBone) -> bool {
    let s = h.s_bone_index;
    let head = bone_head(d, p);
    let f = bone_flags(d, p, h);
    &&& b.name@ == text_at(d, p, h.encode)
    &&& b.english_name@ == text_at(d, text_end(d, p), h.encode)
    &&& vec3_is(b.position, d, head)
    &&& b.parent == sized_at(d, head + 12, s)
    &&& b.deform_depth == i32_at(d, head + 12 + s)
    &&& b.boneflag == f
    &&& bone_parts_match(
        d,
        bone_link_pos(d, p, h),
        f,
        s,
        b.child as int,
        b.offset,
        b.append_bone_index as int,
        b.append_weight as int,
        b.fixed_axis,
        b.local_axis_x,
        b.local_axis_z,
        b.key_value as int,
    )
    &&& if has_flag(f, BONE_FLAG_IK_MASK) {
        ik_matches(
            d,
            bone_ik_pos(d, p, h),
            h,
            b.ik_target_index as int,
            b.ik_iter_count as int,
            b.ik_limit as int,
            b.ik_links@,
        )
    } else {
        b.ik_target_index == 0 && b.ik_iter_count == 0 && b.ik_limit == 0 && b.ik_links@.len() == 0
    }
}

pub open spec fn bone_step(d: Seq<u8>, h: PMXHeaderRust) -> spec_fn(int) -> int {
    |q: int| bone_end(d, q, h)
}

pub open spec fn bone_ok_fn(d: Seq<u8>, h: PMXHeaderRust) -> spec_fn(int) -> bool {
    |q: int| bone_ok(d, q, h)
}

pub open spec fn bone_matches_fn(d: Seq<u8>, h: PMXHeaderRust) -> spec_fn(int, PMXBone) -> bool {
    |q: int, b: PMXBone| bone_matches(d, q, h, b)
}

/// The bone list at `p`: a count that is not negative, then that many bones.
pub open spec fn bones_ok(d: Seq<u8>, p: int, h: PMXHeaderRust) -> bool {
    &&& fits(d, p, 4)
    &&& i32_at(d, p) >= 0
    &&& each_ok(bone_ok_fn(d, h), bone_step(d, h), p + 4, i32_at(d, p) as nat)
}

pub open spec fn bones_end(d: Seq<u8>, p: int, h: PMXHeaderRust) -> int {
    nth_start(bone_step(d, h), p + 4, i32_at(d, p) as nat)
}

pub open spec fn bones_match(d: Seq<u8>, p: int, h: PMXHeaderRust, bs: Seq<PMXBone>) -> bool {
    &&& bs.len() == i32_at(d, p)
    &&& each_matches(bone_matches_fn(d, h), bone_step(d, h), p + 4, bs)
}

// ---------------------------------------------------------------- morphs

/// The width of the index that each offset of a morph of type `t` starts
/// with: a morph index for a group morph (0), a bone index for a bone morph
/// (2), a material index for a material morph (8), else a vertex index.
pub open spec fn morph_index_size(t: u8, h: PMXHeaderRust) -> u8 {
    if t == 0 {
        h.s_morph_index
    } else if t == 2 {
        h.s_bone_index
    } else if t == 8 {
        h.s_material_index
    } else {
        h.s_vertex_index
    }
}

/// The number of bytes of one offset of a morph of type `t`: group (0) an
/// index and a factor; vertex (1) an index and a vector of three; bone (2)
/// an index, a translation and a rotation; uv (3 to 7) an index and a vector
/// of four; material (8) an index, a formula byte and 28 numbers.
pub open spec fn morph_offset_len(t: u8, h: PMXHeaderRust) -> int {
    morph_index_size(t, h) + if t == 0 {
        4int
    } else if t == 1 {
        12
    } else if t == 2 {
        28
    } else if t <= 7 {
        16
    } else {
        113
    }
}

/// The vertex index of width `s` at `q`, as a signed 32-bit number of the same bits.
pub open spec fn vertex_index_signed(d: Seq<u8>, q: int, s: u8) -> int {
    if vertex_index_at(d, q, s) < 0x8000_0000 {
        vertex_index_at(d, q, s)
    } else {
        vertex_index_at(d, q, s) - 0x1_0000_0000
    }
}

/// `m` holds the material offset at `q` (index of width `s`).
pub open spec fn material_morph_matches(d: Seq<u8>, q: int, s: u8, m: MaterialMorph) -> bool {
    let b = q + s + 1;
    &&& m.index == sized_at(d, q, s)
    &&& m.formula == d[q + s]
    &&& vec4_is(m.diffuse, d, b)
    &&& vec3_is(m.specular, d, b + 16)
    &&& m.specular_factor == u32_at(d, b + 28)
    &&& vec3_is(m.ambient, d, b + 32)
    &&& vec4_is(m.edge_color, d, b + 44)
    &&& m.edge_size == u32_at(d, b + 60)
    &&& vec4_is(m.texture_factor, d, b + 64)
    &&& vec4_is(m.sphere_texture_factor, d, b + 80)
    &&& vec4_is(m.toon_texture_factor, d, b + 96)
}

/// `x` holds the offset at `q` of a morph of type `t`: a group morph for 0,
/// a vertex morph for 1, a bone morph for 2, a uv morph for 3 and the extra
/// uv morphs 1 to 4 for 4 to 7, a material morph for 8.
pub open spec fn morph_offset_matches(d: Seq<u8>, q: int, h: PMXHeaderRust, t: u8, x: MorphTypes) -> bool {
    let s = morph_index_size(t, h);
    match x {
        MorphTypes::Group(g) => t == 0 && g.index == sized_at(d, q, s) && g.morph_factor == u32_at(
            d,
            q + s,
        ),
        MorphTypes::Vertex(v) => t == 1 && v.index == vertex_index_signed(d, q, s) && vec3_is(
            v.offset,
            d,
            q + s,
        ),
        MorphTypes::Bone(b) => t == 2 && b.index == sized_at(d, q, s) && vec3_is(b.translates, d, q + s)
            && vec4_is(b.rotates, d, q + s + 12),
        MorphTypes::UV(u) => t == 3 && u.index == vertex_index_signed(d, q, s) && vec4_is(u.offset, d, q + s),
        MorphTypes::UV1(u) => t == 4 && u.index == vertex_index_signed(d, q, s) && vec4_is(u.offset, d, q + s),
        MorphTypes::UV2(u) => t == 5 && u.index == vertex_index_signed(d, q, s) && vec4_is(u.offset, d, q + s),
        MorphTypes::UV3(u) => t == 6 && u.index == vertex_index_signed(d, q, s) && vec4_is(u.offset, d, q + s),
        MorphTypes::UV4(u) => t == 7 && u.index == vertex_index_signed(d, q, s) && vec4_is(u.offset, d, q + s),
        MorphTypes::Material(m) => t == 8 && material_morph_matches(d, q, s, m),
    }
}

pub open spec fn morph_offset_step(h: PMXHeaderRust, t: u8) -> spec_fn(int) -> int {
    |q: int| q + morph_offset_len(t, h)
}

pub open spec fn morph_offset_ok_fn(d: Seq<u8>, h: PMXHeaderRust, t: u8) -> spec_fn(int) -> bool {
    |q: int| valid_index_size(morph_index_size(t, h)) && fits(d, q, morph_offset_len(t, h))
}

pub open spec fn morph_offset_matches_fn(d: Seq<u8>, h: PMXHeaderRust, t: u8) -> spec_fn(int, MorphTypes) -> bool {
    |q: int, x: MorphTypes| morph_offset_matches(d, q, h, t, x)
}

/// Where the panel byte of the morph at `p` lies, after its two names (the
/// type byte and the offset count follow).
pub open spec fn morph_head(d: Seq<u8>, p: int) -> int {
    text_end(d, text_end(d, p))
}

/// The type byte of the morph at `p`.
pub open spec fn morph_type_at(d: Seq<u8>, p: int) -> u8 {
    d[morph_head(d, p) + 1]
}

/// The morph at `p`: two names, a panel byte, a type of at most 8, a count
/// that is not negative, and that many offsets of the type.
pub open spec fn morph_ok(d: Seq<u8>, p: int, h: PMXHeaderRust) -> bool {
    let m = morph_head(d, p);
    &&& text_ok(d, p, h.encode)
    &&& text_ok(d, text_end(d, p), h.encode)
    &&& fits(d, m, 6)
    &&& d[m + 1] <= 8
    &&& i32_at(d, m + 2) >= 0
    &&& each_ok(
        morph_offset_ok_fn(d, h, d[m + 1]),
        morph_offset_step(h, d[m + 1]),
        m + 6,
        i32_at(d, m + 2) as nat,
    )
}

pub open spec fn morph_end(d: Seq<u8>, p: int, h: PMXHeaderRust) -> int {
    let m = morph_head(d, p);
    nth_start(morph_offset_step(h, d[m + 1]), m + 6, i32_at(d, m + 2) as nat)
}

/// `x` holds the morph at `p`; `offset` is its count of offsets.
pub open spec fn morph_matches(d: Seq<u8>, p: int, h: PMXHeaderRust, x: PMXMorph) -> bool {
    let m = morph_head(d, p);
    &&& x.name@ == text_at(d, p, h.encode)
    &&& x.english_name@ == text_at(d, text_end(d, p), h.encode)
    &&& x.category == d[m]
    &&& x.morph_type == d[m + 1]
    &&& x.offset == i32_at(d, m + 2)
    &&& x.morph_data@.len() == i32_at(d, m + 2)
    &&& each_matches(
        morph_offset_matches_fn(d, h, d[m + 1]),
        morph_offset_step(h, d[m + 1]),
        m + 6,
        x.morph_data@,
    )
}

pub open spec fn morph_step(d: Seq<u8>, h: PMXHeaderRust) -> spec_fn(int) -> int {
    |q: int| morph_end(d, q, h)
}

pub open spec fn morph_ok_fn(d: Seq<u8>, h: PMXHeaderRust) -> spec_fn(int) -> bool {
    |q: int| morph_ok(d, q, h)
}

pub open spec fn morph_matches_fn(d: Seq<u8>, h: PMXHeaderRust) -> spec_fn(int, PMXMorph) -> bool {
    |q: int, x: PMXMorph| morph_matches(d, q, h, x)
}

/// The morph list at `p`: a count that is not negative, then that many morphs.
pub open spec fn morphs_ok(d: Seq<u8>, p: int, h: PMXHeaderRust) -> bool {
    &&& fits(d, p, 4)
    &&& i32_at(d, p) >= 0
    &&& each_ok(morph_ok_fn(d, h), morph_step(d, h), p + 4, i32_at(d, p) as nat)
}

pub open spec fn morphs_end(d: Seq<u8>, p: int, h: PMXHeaderRust) -> int {
    nth_start(morph_step(d, h), p + 4, i32_at(d, p) as nat)
}

pub open spec fn morphs_match(d: Seq<u8>, p: int, h: PMXHeaderRust, xs: Seq<PMXMorph>) -> bool {
    &&& xs.len() == i32_at(d, p)
    &&& each_matches(morph_matches_fn(d, h), morph_step(d, h), p + 4, xs)
}

} // verus!
