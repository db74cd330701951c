//! Reading a PMX model section by section.
use vstd::prelude::*;
use crate::binary_reader::{
    BinaryReader, sized_at, text_at, text_end, text_ok, valid_index_size, vertex_index_at,
};
use crate::bytes::{u32_to_i32, fits, i32_at, u16_at, u32_at, vec2_is, vec3_is, vec4_is};
use crate::format::{
    count_of, each_matches, each_ok, face_matches_fn, face_ok_fn, face_step,
    faces_end, faces_match, faces_ok, header_at, header_decoded, header_ok,
    lemma_each_matches_extend, lemma_each_ok_extend, lemma_nth_start_next, model_info_end,
    model_info_matches, model_info_ok, nth_start, successor, text_matches_fn, text_ok_fn, text_step,
    texture_list_end, texture_list_matches, texture_list_ok, triangle_count, vertex_end,
    vertex_matches, vertex_matches_fn, vertex_ok, vertex_ok_fn, vertex_step, vertices_end,
    vertices_match, vertices_ok, weight_data_len, weights_match, material_end, material_matches,
    material_matches_fn, material_ok, material_ok_fn, material_step, materials_end,
    materials_match, materials_ok, bone_end, bone_matches, bone_matches_fn, bone_ok,
    bone_ok_fn, bone_step, bones_end, bones_match, bones_ok, ik_end, ik_matches, ik_ok,
    link_end, link_matches, link_matches_fn, link_ok, link_ok_fn, link_step, bone_parts_match,
    ik_pos_from, colours_match, material_morph_matches, morph_end, morph_head, morph_index_size,
    morph_matches, morph_matches_fn, morph_offset_len, morph_offset_matches,
    morph_offset_matches_fn, morph_offset_ok_fn, morph_offset_step, morph_ok, morph_ok_fn,
    morph_step, morphs_end, morphs_match, morphs_ok,
};
use crate::pmx_types::{
    BoneMorph, GroupMorph, MaterialMorph, MorphTypes, PMXMorph, PMXMorphs, UVMorph, VertexMorph,
    Encode, PMXFace, PMXFaces, PMXHeaderC, PMXHeaderRust, PMXModelInfo, PMXTextureList,
    PMXVertex, PMXVertexWeight, PMXVertices, ReaderStage, Vec2, Vec3, Vec4, PMXMaterial,
    PMXMaterials, PMXSphereMode, PMXToonMode, PMXBone, PMXBones, PMXIKLink,
    BONE_FLAG_APPEND_ROTATE_MASK, BONE_FLAG_APPEND_TRANSLATE_MASK,
    BONE_FLAG_DEFORM_OUTER_PARENT_MASK, BONE_FLAG_FIXED_AXIS_MASK, BONE_FLAG_IK_MASK,
    BONE_FLAG_LOCAL_AXIS_MASK, BONE_FLAG_TARGET_SHOW_MODE_MASK,
};
use crate::text::string_from_utf8_lossy;

verus! {

/// Decodes the raw header: the magic as (lossy) UTF-8, the encoding from
/// configuration byte 0 (1 is UTF-8, 0 is UTF-16LE), the other configuration
/// bytes as they are.
pub fn transform_header_c2r(header: PMXHeaderC) -> (r: PMXHeaderRust)
    requires
        header.config[0] <= 1,
    ensures
        header_decoded(header, r),
{
    let magic = string_from_utf8_lossy(header.magic.as_slice());
    let encode = if header.config[0] == 1 {
        Encode::UTF8
    } else {
        Encode::Utf16Le
    };
    PMXHeaderRust {
        magic,
        version: header.version,
        length: header.length,
        encode,
        additional_uv: header.config[1],
        s_vertex_index: header.config[2],
        s_texture_index: header.config[3],
        s_material_index: header.config[4],
        s_bone_index: header.config[5],
        s_morph_index: header.config[6],
        s_rigid_body_index: header.config[7],
    }
}

/// Reads the sections of a model in the order of the file, each one once.
pub struct PMXLoader {
    header: PMXHeaderRust,
    inner: BinaryReader,
    stage: ReaderStage,
}

impl PMXLoader {
    /// The bytes of the model.
    pub closed spec fn bytes(&self) -> Seq<u8> {
        self.inner.bytes()
    }

    /// Where the next section starts.
    pub closed spec fn cursor(&self) -> int {
        self.inner.cursor()
    }

    /// The section read last.
    pub closed spec fn stage(&self) -> ReaderStage {
        self.stage
    }

    /// The decoded header.
    pub closed spec fn header(&self) -> PMXHeaderRust {
        self.header
    }

    pub closed spec fn wf(&self) -> bool {
        self.inner.wf()
    }

    /// Only the cursor moved, to `c`, and the stage became `s`.
    pub open spec fn moved_to(&self, old: &Self, c: int, s: ReaderStage) -> bool {
        &&& self.wf()
        &&& self.bytes() == old.bytes()
        &&& self.header() == old.header()
        &&& self.cursor() == c
        &&& self.stage() == s
    }

    /// The model and the stage are as in `old`; the cursor may have moved.
    pub open spec fn same_model(&self, old: &Self) -> bool {
        &&& self.wf()
        &&& self.bytes() == old.bytes()
        &&& self.header() == old.header()
        &&& self.stage() == old.stage()
    }

    /// Nothing changed.
    pub open spec fn unchanged(&self, old: &Self) -> bool {
        self.moved_to(old, old.cursor(), old.stage())
    }

    /// A loader over the bytes of a model, after its header.
    pub fn from_bytes(data: Vec<u8>) -> (r: Self)
        requires
            header_ok(data@),
        ensures
            r.wf(),
            r.bytes() == data@,
            r.cursor() == 17,
            r.stage() == ReaderStage::Header,
            header_at(data@, r.header()),
    {
        let mut inner = BinaryReader::from_bytes(data);
        let header = inner.read_PMXHeader_raw();
        let header_rs = transform_header_c2r(header);
        PMXLoader { header: header_rs, inner, stage: ReaderStage::Header }
    }

    /// The header, with the magic spelled `"PMX "`.
    pub fn get_header(&self) -> (r: PMXHeaderRust)
        ensures
            r.magic@ == "PMX "@,
            r.version == self.header().version,
            r.length == self.header().length,
            r.encode == self.header().encode,
            r.additional_uv == self.header().additional_uv,
            r.s_vertex_index == self.header().s_vertex_index,
            r.s_texture_index == self.header().s_texture_index,
            r.s_material_index == self.header().s_material_index,
            r.s_bone_index == self.header().s_bone_index,
            r.s_morph_index == self.header().s_morph_index,
            r.s_rigid_body_index == self.header().s_rigid_body_index,
    {
        PMXHeaderRust {
            magic: String::from_str("PMX "),
            version: self.header.version,
            length: self.header.length,
            encode: self.header.encode,
            additional_uv: self.header.additional_uv,
            s_vertex_index: self.header.s_vertex_index,
            s_texture_index: self.header.s_texture_index,
            s_material_index: self.header.s_material_index,
            s_bone_index: self.header.s_bone_index,
            s_morph_index: self.header.s_morph_index,
            s_rigid_body_index: self.header.s_rigid_body_index,
        }
    }

    // ------------------------------------------------------------ fields

    fn take_u8(&mut self) -> (r: Option<u8>)
        requires
            old(self).wf(),
        ensures
            r is Some <==> fits(old(self).bytes(), old(self).cursor(), 1),
            r is Some ==> r->0 == old(self).bytes()[old(self).cursor()]
                && final(self).moved_to(old(self), old(self).cursor() + 1, old(self).stage()),
            r is None ==> final(self).unchanged(old(self)),
    {
        if self.inner.remaining() < 1 {
            None
        } else {
            Some(self.inner.read_u8())
        }
    }

    fn take_u16(&mut self) -> (r: Option<u16>)
        requires
            old(self).wf(),
        ensures
            r is Some <==> fits(old(self).bytes(), old(self).cursor(), 2),
            r is Some ==> r->0 == u16_at(old(self).bytes(), old(self).cursor())
                && final(self).moved_to(old(self), old(self).cursor() + 2, old(self).stage()),
            r is None ==> final(self).unchanged(old(self)),
    {
        if self.inner.remaining() < 2 {
            None
        } else {
            Some(self.inner.read_u16())
        }
    }

    fn take_u32(&mut self) -> (r: Option<u32>)
        requires
            old(self).wf(),
        ensures
            r is Some <==> fits(old(self).bytes(), old(self).cursor(), 4),
            r is Some ==> r->0 == u32_at(old(self).bytes(), old(self).cursor())
                && final(self).moved_to(old(self), old(self).cursor() + 4, old(self).stage()),
            r is None ==> final(self).unchanged(old(self)),
    {
        if self.inner.remaining() < 4 {
            None
        } else {
            Some(self.inner.read_f32_bits())
        }
    }

    fn take_i32(&mut self) -> (r: Option<i32>)
        requires
            old(self).wf(),
        ensures
            r is Some <==> fits(old(self).bytes(), old(self).cursor(), 4),
            r is Some ==> r->0 == i32_at(old(self).bytes(), old(self).cursor())
                && final(self).moved_to(old(self), old(self).cursor() + 4, old(self).stage()),
            r is None ==> final(self).unchanged(old(self)),
    {
        if self.inner.remaining() < 4 {
            None
        } else {
            Some(self.inner.read_i32())
        }
    }

    fn take_vec2(&mut self) -> (r: Option<Vec2>)
        requires
            old(self).wf(),
        ensures
            r is Some <==> fits(old(self).bytes(), old(self).cursor(), 8),
            r is Some ==> vec2_is(r->0, old(self).bytes(), old(self).cursor())
                && final(self).moved_to(old(self), old(self).cursor() + 8, old(self).stage()),
            r is None ==> final(self).unchanged(old(self)),
    {
        if self.inner.remaining() < 8 {
            None
        } else {
            Some(self.inner.read_vec2())
        }
    }

    fn take_vec3(&mut self) -> (r: Option<Vec3>)
        requires
            old(self).wf(),
        ensures
            r is Some <==> fits(old(self).bytes(), old(self).cursor(), 12),
            r is Some ==> vec3_is(r->0, old(self).bytes(), old(self).cursor())
                && final(self).moved_to(old(self), old(self).cursor() + 12, old(self).stage()),
            r is None ==> final(self).unchanged(old(self)),
    {
        if self.inner.remaining() < 12 {
            None
        } else {
            Some(self.inner.read_vec3())
        }
    }

    fn take_vec4(&mut self) -> (r: Option<Vec4>)
        requires
            old(self).wf(),
        ensures
            r is Some <==> fits(old(self).bytes(), old(self).cursor(), 16),
            r is Some ==> vec4_is(r->0, old(self).bytes(), old(self).cursor())
                && final(self).moved_to(old(self), old(self).cursor() + 16, old(self).stage()),
            r is None ==> final(self).unchanged(old(self)),
    {
        if self.inner.remaining() < 16 {
            None
        } else {
            Some(self.inner.read_vec4())
        }
    }

    fn take_sized(&mut self, n: u8) -> (r: Option<i32>)
        requires
            old(self).wf(),
            valid_index_size(n),
        ensures
            r is Some <==> fits(old(self).bytes(), old(self).cursor(), n as int),
            r is Some ==> r->0 == sized_at(old(self).bytes(), old(self).cursor(), n)
                && final(self).moved_to(old(self), old(self).cursor() + n, old(self).stage()),
            r is None ==> final(self).unchanged(old(self)),
    {
        if self.inner.remaining() < n as usize {
            None
        } else {
            self.inner.read_sized(n)
        }
    }

    fn take_vertex_index(&mut self, n: u8) -> (r: Option<u32>)
        requires
            old(self).wf(),
            valid_index_size(n),
        ensures
            r is Some <==> fits(old(self).bytes(), old(self).cursor(), n as int),
            r is Some ==> r->0 == vertex_index_at(old(self).bytes(), old(self).cursor(), n)
                && final(self).moved_to(old(self), old(self).cursor() + n, old(self).stage()),
            r is None ==> final(self).unchanged(old(self)),
    {
        if self.inner.remaining() < n as usize {
            None
        } else {
            self.inner.read_vertex_index(n)
        }
    }

    fn take_text(&mut self) -> (r: Option<String>)
        requires
            old(self).wf(),
        ensures
            r is Some <==> text_ok(old(self).bytes(), old(self).cursor(), old(self).header().encode),
            r is Some ==> r->0@ == text_at(old(self).bytes(), old(self).cursor(), old(self).header().encode)
                && final(self).moved_to(old(self), text_end(old(self).bytes(), old(self).cursor()), old(self).stage()),
            r is None ==> final(self).unchanged(old(self)),
    {
        self.inner.read_text_buf(self.header.encode)
    }

    /// Puts the cursor back to `p` after a section that could not be read.
    fn rewind(&mut self, p: usize)
        requires
            old(self).wf(),
            p <= old(self).bytes().len(),
        ensures
            final(self).moved_to(old(self), p as int, old(self).stage()),
    {
        self.inner.seek(p);
    }

    // ------------------------------------------------------------ sections

    /// The model's name, English name, comment and English comment; only
    /// right after the header.  On `Err` nothing changes.
    pub fn read_pmx_model_info(&mut self) -> (r: Result<PMXModelInfo, ()>)
        requires
            old(self).wf(),
        ensures
            r is Ok <==> old(self).stage() == ReaderStage::Header
                && model_info_ok(old(self).bytes(), old(self).cursor(), old(self).header().encode),
            r is Ok ==> model_info_matches(old(self).bytes(), old(self).cursor(), old(self).header().encode, r->Ok_0)
                && final(self).moved_to(old(self), model_info_end(old(self).bytes(), old(self).cursor()), ReaderStage::ModelInfo),
            r is Ok ==> successor(old(self).stage()) == Some(final(self).stage()),
            r is Err ==> final(self).unchanged(old(self)),
    {
        match self.stage {
            ReaderStage::Header => {},
            _ => {
                return Err(());
            },
        }
        let ghost d = self.bytes();
        let ghost enc = self.header().encode;
        let start = self.inner.tell();
        let ghost p = start as int;
        let ghost step = text_step(d);
        assert(nth_start(step, p, 0) == p);
        let name = match self.take_text() {
            Some(s) => s,
            None => {
                assert(!text_ok_fn(d, enc)(nth_start(step, p, 0)));
                return Err(());
            },
        };
        assert(nth_start(step, p, 1) == self.cursor());
        let name_en = match self.take_text() {
            Some(s) => s,
            None => {
                assert(!text_ok_fn(d, enc)(nth_start(step, p, 1)));
                self.rewind(start);
                return Err(());
            },
        };
        assert(nth_start(step, p, 2) == self.cursor());
        let comment = match self.take_text() {
            Some(s) => s,
            None => {
                assert(!text_ok_fn(d, enc)(nth_start(step, p, 2)));
                self.rewind(start);
                return Err(());
            },
        };
        assert(nth_start(step, p, 3) == self.cursor());
        let comment_en = match self.take_text() {
            Some(s) => s,
            None => {
                assert(!text_ok_fn(d, enc)(nth_start(step, p, 3)));
                self.rewind(start);
                return Err(());
            },
        };
        assert(nth_start(step, p, 4) == self.cursor());
        assert(model_info_ok(d, p, enc)) by {
            assert forall|i: nat| i < 4 implies #[trigger] text_ok_fn(d, enc)(nth_start(step, p, i)) by {
                if i == 0 {} else if i == 1 {} else if i == 2 {} else {}
            }
        }
        self.stage = ReaderStage::ModelInfo;
        Ok(PMXModelInfo { name, name_en, comment, comment_en })
    }

    /// The list of texture paths; only right after the faces.  A negative
    /// count reads no texture.  On `Err` nothing changes.
    pub fn read_texture_list(&mut self) -> (r: Result<PMXTextureList, ()>)
        requires
            old(self).wf(),
        ensures
            r is Ok <==> old(self).stage() == ReaderStage::SurfaceList
                && texture_list_ok(old(self).bytes(), old(self).cursor(), old(self).header().encode),
            r is Ok ==> texture_list_matches(old(self).bytes(), old(self).cursor(), old(self).header().encode, r->Ok_0.textures@)
                && final(self).moved_to(old(self), texture_list_end(old(self).bytes(), old(self).cursor()), ReaderStage::TextureList),
            r is Ok ==> successor(old(self).stage()) == Some(final(self).stage()),
            r is Err ==> final(self).unchanged(old(self)),
    {
        match self.stage {
            ReaderStage::SurfaceList => {},
            _ => {
                return Err(());
            },
        }
        let ghost d = self.bytes();
        let ghost enc = self.header().encode;
        let start = self.inner.tell();
        let ghost p = start as int;
        let ghost step = text_step(d);
        let ghost okf = text_ok_fn(d, enc);
        let ghost mf = text_matches_fn(d, enc);
        let textures = match self.take_i32() {
            Some(n) => n,
            None => {
                return Err(());
            },
        };
        let mut v: Vec<String> = Vec::new();
        let mut i: i32 = 0;
        while i < textures
            invariant
                self.same_model(old(self)),
                d == old(self).bytes(),
                enc == old(self).header().encode,
                old(self).stage() == ReaderStage::SurfaceList,
                p == old(self).cursor(),
                p == start,
                step == text_step(d),
                okf == text_ok_fn(d, enc),
                mf == text_matches_fn(d, enc),
                fits(d, p, 4),
                textures == i32_at(d, p),
                0 <= i <= count_of(textures as int),
                v.len() == i,
                self.cursor() == nth_start(step, p + 4, i as nat),
                each_ok(okf, step, p + 4, i as nat),
                each_matches(mf, step, p + 4, v@),
            decreases textures - i,
        {
            match self.take_text() {
                Some(t) => {
                    proof {
                        lemma_each_ok_extend(okf, step, p + 4, i as nat);
                        lemma_each_matches_extend(mf, step, p + 4, v@, t);
                        lemma_nth_start_next(step, p + 4, i as nat);
                    }
                    v.push(t);
                },
                None => {
                    assert(!okf(nth_start(step, p + 4, i as nat)));
                    self.rewind(start);
                    return Err(());
                },
            }
            i = i + 1;
        }
        self.stage = ReaderStage::TextureList;
        Ok(PMXTextureList { textures: v })
    }

    /// The vertex list; only right after the model information.  On `Err`
    /// nothing changes.
    pub fn read_pmx_vertices(&mut self) -> (r: Result<PMXVertices, ()>)
        requires
            old(self).wf(),
        ensures
            r is Ok <==> old(self).stage() == ReaderStage::ModelInfo
                && vertices_ok(old(self).bytes(), old(self).cursor(), old(self).header()),
            r is Ok ==> vertices_match(old(self).bytes(), old(self).cursor(), old(self).header(), r->Ok_0.vertices@)
                && final(self).moved_to(old(self), vertices_end(old(self).bytes(), old(self).cursor(), old(self).header()), ReaderStage::VertexList),
            r is Ok ==> successor(old(self).stage()) == Some(final(self).stage()),
            r is Err ==> final(self).unchanged(old(self)),
    {
        match self.stage {
            ReaderStage::ModelInfo => {},
            _ => {
                return Err(());
            },
        }
        let ghost d = self.bytes();
        let ghost h = self.header();
        let start = self.inner.tell();
        let ghost p = start as int;
        let ghost step = vertex_step(d, h);
        let ghost okf = vertex_ok_fn(d, h);
        let ghost mf = vertex_matches_fn(d, h);
        let verts = match self.take_i32() {
            Some(n) => n,
            None => {
                return Err(());
            },
        };
        if verts < 0 {
            self.rewind(start);
            return Err(());
        }
        let mut v: Vec<PMXVertex> = Vec::new();
        let mut i: i32 = 0;
        while i < verts
            invariant
                self.same_model(old(self)),
                d == old(self).bytes(),
                h == old(self).header(),
                old(self).stage() == ReaderStage::ModelInfo,
                p == old(self).cursor(),
                p == start,
                step == vertex_step(d, h),
                okf == vertex_ok_fn(d, h),
                mf == vertex_matches_fn(d, h),
                fits(d, p, 4),
                verts == i32_at(d, p),
                0 <= i <= verts,
                v.len() == i,
                self.cursor() == nth_start(step, p + 4, i as nat),
                each_ok(okf, step, p + 4, i as nat),
                each_matches(mf, step, p + 4, v@),
            decreases verts - i,
        {
            match self.read_pmx_vertex() {
                Some(x) => {
                    proof {
                        lemma_each_ok_extend(okf, step, p + 4, i as nat);
                        lemma_each_matches_extend(mf, step, p + 4, v@, x);
                        lemma_nth_start_next(step, p + 4, i as nat);
                    }
                    v.push(x);
                },
                None => {
                    assert(!okf(nth_start(step, p + 4, i as nat)));
                    self.rewind(start);
                    return Err(());
                },
            }
            i = i + 1;
        }
        self.stage = ReaderStage::VertexList;
        Ok(PMXVertices { vertices: v })
    }

    /// One vertex; `None` where the bytes hold none.
    fn read_pmx_vertex(&mut self) -> (r: Option<PMXVertex>)
        requires
            old(self).wf(),
        ensures
            final(self).same_model(old(self)),
            r is Some <==> vertex_ok(old(self).bytes(), old(self).cursor(), old(self).header()),
            r is Some ==> vertex_matches(old(self).bytes(), old(self).cursor(), old(self).header(), r->0)
                && final(self).cursor() == vertex_end(old(self).bytes(), old(self).cursor(), old(self).header()),
    {
        let k = self.header.additional_uv;
        let s = self.header.s_bone_index;
        if k > 4 || !(s == 1 || s == 2 || s == 4) {
            return None;
        }
        let position = self.take_vec3()?;
        let norm = self.take_vec3()?;
        let uv = self.take_vec2()?;
        let z4: Vec4 = [0, 0, 0, 0];
        let a0 = if k > 0 {
            self.take_vec4()?
        } else {
            z4
        };
        let a1 = if k > 1 {
            self.take_vec4()?
        } else {
            z4
        };
        let a2 = if k > 2 {
            self.take_vec4()?
        } else {
            z4
        };
        let a3 = if k > 3 {
            self.take_vec4()?
        } else {
            z4
        };
        let wt = self.take_u8()?;
        let weight_type = match wt {
            0 => PMXVertexWeight::BDEF1,
            1 => PMXVertexWeight::BDEF2,
            2 => PMXVertexWeight::BDEF4,
            3 => PMXVertexWeight::SDEF,
            4 => PMXVertexWeight::QDEF,
            _ => {
                return None;
            },
        };
        let (bone_indices, bone_weights, sdef_c, sdef_r0, sdef_r1) = self.read_bone_weights(
            weight_type,
            s,
        )?;
        let edge_mag = self.take_u32()?;
        Some(
            PMXVertex {
                position,
                norm,
                uv,
                add_uv: [a0, a1, a2, a3],
                weight_type,
                bone_indices,
                bone_weights,
                sdef_c,
                sdef_r0,
                sdef_r1,
                edge_mag,
            },
        )
    }

    /// The bone data of a vertex of weight type `w`, with bone indices of `s` bytes.
    fn read_bone_weights(&mut self, w: PMXVertexWeight, s: u8) -> (r: Option<
        ([i32; 4], Vec4, Vec3, Vec3, Vec3),
    >)
        requires
            old(self).wf(),
            valid_index_size(s),
        ensures
            final(self).same_model(old(self)),
            r is Some <==> fits(old(self).bytes(), old(self).cursor(), weight_data_len(w, s as int)),
            r matches Some(t) ==> weights_match(old(self).bytes(), old(self).cursor(), s, w, t.0, t.1, t.2, t.3, t.4)
                && final(self).cursor() == old(self).cursor() + weight_data_len(w, s as int),
    {
        let z4: Vec4 = [0, 0, 0, 0];
        let z3: Vec3 = [0, 0, 0];
        match w {
            PMXVertexWeight::BDEF1 => {
                let i0 = self.take_sized(s)?;
                Some(([i0, -1, -1, -1], z4, z3, z3, z3))
            },
            PMXVertexWeight::BDEF2 => {
                let i0 = self.take_sized(s)?;
                let i1 = self.take_sized(s)?;
                let w0 = self.take_u32()?;
                Some(([i0, i1, -1, -1], [w0, 0, 0, 0], z3, z3, z3))
            },
            PMXVertexWeight::SDEF => {
                let i0 = self.take_sized(s)?;
                let i1 = self.take_sized(s)?;
                let w0 = self.take_u32()?;
                let c = self.take_vec3()?;
                let r0 = self.take_vec3()?;
                let r1 = self.take_vec3()?;
                Some(([i0, i1, -1, -1], [w0, 0, 0, 0], c, r0, r1))
            },
            _ => {
                let i0 = self.take_sized(s)?;
                let i1 = self.take_sized(s)?;
                let i2 = self.take_sized(s)?;
                let i3 = self.take_sized(s)?;
                let wts = self.take_vec4()?;
                Some(([i0, i1, i2, i3], wts, z3, z3, z3))
            },
        }
    }

    /// The triangles; only right after the vertices.  The count is of
    /// vertex indices, so `count / 3` triangles (rounded toward zero) are
    /// read; a count below -2 is refused.  On `Err` nothing changes.
    pub fn read_pmx_faces(&mut self) -> (r: Result<PMXFaces, ()>)
        requires
            old(self).wf(),
        ensures
            r is Ok <==> old(self).stage() == ReaderStage::VertexList
                && faces_ok(old(self).bytes(), old(self).cursor(), old(self).header()),
            r is Ok ==> faces_match(old(self).bytes(), old(self).cursor(), old(self).header(), r->Ok_0.faces@)
                && final(self).moved_to(old(self), faces_end(old(self).bytes(), old(self).cursor(), old(self).header()), ReaderStage::SurfaceList),
            r is Ok ==> successor(old(self).stage()) == Some(final(self).stage()),
            r is Err ==> final(self).unchanged(old(self)),
    {
        match self.stage {
            ReaderStage::VertexList => {},
            _ => {
                return Err(());
            },
        }
        let ghost d = self.bytes();
        let ghost h = self.header();
        let start = self.inner.tell();
        let ghost p = start as int;
        let ghost step = face_step(h);
        let ghost okf = face_ok_fn(d, h);
        let ghost mf = face_matches_fn(d, h);
        let faces = match self.take_i32() {
            Some(n) => n,
            None => {
                return Err(());
            },
        };
        if faces < -2 {
            self.rewind(start);
            return Err(());
        }
        let s_vertex_index = self.header.s_vertex_index;
        let faces = if faces > 0 {
            faces / 3
        } else {
            0
        };
        if faces > 0 && !(s_vertex_index == 1 || s_vertex_index == 2 || s_vertex_index == 4) {
            assert(!okf(nth_start(step, p + 4, 0)));
            self.rewind(start);
            return Err(());
        }
        let mut v: Vec<PMXFace> = Vec::new();
        let mut i: i32 = 0;
        while i < faces
            invariant
                self.same_model(old(self)),
                d == old(self).bytes(),
                h == old(self).header(),
                s_vertex_index == h.s_vertex_index,
                faces > 0 ==> valid_index_size(s_vertex_index),
                old(self).stage() == ReaderStage::VertexList,
                p == old(self).cursor(),
                p == start,
                step == face_step(h),
                okf == face_ok_fn(d, h),
                mf == face_matches_fn(d, h),
                fits(d, p, 4),
                faces == triangle_count(i32_at(d, p)),
                0 <= i <= faces,
                v.len() == i,
                self.cursor() == nth_start(step, p + 4, i as nat),
                each_ok(okf, step, p + 4, i as nat),
                each_matches(mf, step, p + 4, v@),
            decreases faces - i,
        {
            let ghost cur = self.cursor();
            let v0 = self.take_vertex_index(s_vertex_index);
            let v1 = match v0 {
                Some(_) => self.take_vertex_index(s_vertex_index),
                None => None,
            };
            let v2 = match v1 {
                Some(_) => self.take_vertex_index(s_vertex_index),
                None => None,
            };
            match (v0, v1, v2) {
                (Some(a), Some(b), Some(c)) => {
                    let f = PMXFace { vertices: [a, b, c] };
                    proof {
                        assert(okf(cur));
                        assert(mf(cur, f));
                        lemma_each_ok_extend(okf, step, p + 4, i as nat);
                        lemma_each_matches_extend(mf, step, p + 4, v@, f);
                        lemma_nth_start_next(step, p + 4, i as nat);
                    }
                    v.push(f);
                },
                _ => {
                    assert(!okf(nth_start(step, p + 4, i as nat)));
                    self.rewind(start);
                    return Err(());
                },
            }
            i = i + 1;
        }
        self.stage = ReaderStage::SurfaceList;
        Ok(PMXFaces { faces: v })
    }

    /// The materials; only right after the texture list.  A negative count
    /// reads no material.  On `Err` nothing changes.
    pub fn read_pmx_materials(&mut self) -> (r: Result<PMXMaterials, ()>)
        requires
            old(self).wf(),
        ensures
            r is Ok <==> old(self).stage() == ReaderStage::TextureList
                && materials_ok(old(self).bytes(), old(self).cursor(), old(self).header()),
            r is Ok ==> materials_match(old(self).bytes(), old(self).cursor(), old(self).header(), r->Ok_0.materials@)
                && final(self).moved_to(old(self), materials_end(old(self).bytes(), old(self).cursor(), old(self).header()), ReaderStage::MaterialList),
            r is Ok ==> successor(old(self).stage()) == Some(final(self).stage()),
            r is Err ==> final(self).unchanged(old(self)),
    {
        match self.stage {
            ReaderStage::TextureList => {},
            _ => {
                return Err(());
            },
        }
        let ghost d = self.bytes();
        let ghost h = self.header();
        let start = self.inner.tell();
        let ghost p = start as int;
        let ghost step = material_step(d, h);
        let ghost okf = material_ok_fn(d, h);
        let ghost mf = material_matches_fn(d, h);
        let counts = match self.take_i32() {
            Some(n) => n,
            None => {
                return Err(());
            },
        };
        let mut v: Vec<PMXMaterial> = Vec::new();
        let mut i: i32 = 0;
        while i < counts
            invariant
                self.same_model(old(self)),
                d == old(self).bytes(),
                h == old(self).header(),
                old(self).stage() == ReaderStage::TextureList,
                p == old(self).cursor(),
                p == start,
                step == material_step(d, h),
                okf == material_ok_fn(d, h),
                mf == material_matches_fn(d, h),
                fits(d, p, 4),
                counts == i32_at(d, p),
                0 <= i <= count_of(counts as int),
                v.len() == i,
                self.cursor() == nth_start(step, p + 4, i as nat),
                each_ok(okf, step, p + 4, i as nat),
                each_matches(mf, step, p + 4, v@),
            decreases counts - i,
        {
            match self.read_pmx_material() {
                Some(x) => {
                    proof {
                        lemma_each_ok_extend(okf, step, p + 4, i as nat);
                        lemma_each_matches_extend(mf, step, p + 4, v@, x);
                        lemma_nth_start_next(step, p + 4, i as nat);
                    }
                    v.push(x);
                },
                None => {
                    assert(!okf(nth_start(step, p + 4, i as nat)));
                    self.rewind(start);
                    return Err(());
                },
            }
            i = i + 1;
        }
        self.stage = ReaderStage::MaterialList;
        Ok(PMXMaterials { materials: v })
    }

    /// The colours of a material, 65 bytes.
    fn read_colours(&mut self) -> (r: Option<(Vec4, Vec3, u32, Vec3, u8, Vec4, u32)>)
        requires
            old(self).wf(),
        ensures
            final(self).same_model(old(self)),
            r is Some <==> fits(old(self).bytes(), old(self).cursor(), 65),
            r matches Some(t) ==> colours_match(old(self).bytes(), old(self).cursor(), t.0, t.1, t.2 as int, t.3, t.4 as int, t.5, t.6 as int)
                && final(self).cursor() == old(self).cursor() + 65,
    {
        if self.inner.remaining() < 65 {
            return None;
        }
        let diffuse = self.inner.read_vec4();
        let specular = self.inner.read_vec3();
        let specular_factor = self.inner.read_f32_bits();
        let ambient = self.inner.read_vec3();
        let drawmode = self.inner.read_u8();
        let edge_color = self.inner.read_vec4();
        let edge_size = self.inner.read_f32_bits();
        Some((diffuse, specular, specular_factor, ambient, drawmode, edge_color, edge_size))
    }

    /// One material; `None` where the bytes hold none.
    fn read_pmx_material(&mut self) -> (r: Option<PMXMaterial>)
        requires
            old(self).wf(),
        ensures
            final(self).same_model(old(self)),
            r is Some <==> material_ok(old(self).bytes(), old(self).cursor(), old(self).header()),
            r is Some ==> material_matches(old(self).bytes(), old(self).cursor(), old(self).header(), r->0)
                && final(self).cursor() == material_end(old(self).bytes(), old(self).cursor(), old(self).header()),
    {
        let s_texture_index = self.header.s_texture_index;
        let name = self.take_text()?;
        let english_name = self.take_text()?;
        if !(s_texture_index == 1 || s_texture_index == 2 || s_texture_index == 4) {
            return None;
        }
        let (diffuse, specular, specular_factor, ambient, drawmode, edge_color, edge_size) =
            self.read_colours()?;
        let texture_index = self.take_sized(s_texture_index)?;
        let sphere_mode_texture_index = self.take_sized(s_texture_index)?;
        let spmode = self.take_u8()?;
        let spheremode = match spmode {
            0 => PMXSphereMode::Disabled,
            1 => PMXSphereMode::Mul,
            2 => PMXSphereMode::Add,
            3 => PMXSphereMode::SubTexture,
            _ => {
                return None;
            },
        };
        let toonmode = self.take_u8()?;
        let toon_mode = match toonmode {
            0 => PMXToonMode::Separate,
            1 => PMXToonMode::Common,
            _ => {
                return None;
            },
        };
        let toon_texture_index = match toon_mode {
            PMXToonMode::Separate => self.take_sized(s_texture_index)?,
            PMXToonMode::Common => self.take_u8()? as i32,
        };
        let memo = self.take_text()?;
        let num_face_vertices = self.take_i32()?;
        Some(
            PMXMaterial {
                name,
                english_name,
                diffuse,
                specular,
                specular_factor,
                ambient,
                drawmode,
                edge_color,
                edge_size,
                texture_index,
                sphere_mode_texture_index,
                spheremode,
                toon_mode,
                toon_texture_index,
                memo,
                num_face_vertices,
            },
        )
    }

    /// The bones; only right after the materials.  On `Err` nothing changes.
    pub fn read_pmx_bones(&mut self) -> (r: Result<PMXBones, ()>)
        requires
            old(self).wf(),
        ensures
            r is Ok <==> old(self).stage() == ReaderStage::MaterialList
                && bones_ok(old(self).bytes(), old(self).cursor(), old(self).header()),
            r is Ok ==> bones_match(old(self).bytes(), old(self).cursor(), old(self).header(), r->Ok_0.bones@)
                && final(self).moved_to(old(self), bones_end(old(self).bytes(), old(self).cursor(), old(self).header()), ReaderStage::BoneList),
            r is Ok ==> successor(old(self).stage()) == Some(final(self).stage()),
            r is Err ==> final(self).unchanged(old(self)),
    {
        match self.stage {
            ReaderStage::MaterialList => {},
            _ => {
                return Err(());
            },
        }
        let ghost d = self.bytes();
        let ghost h = self.header();
        let start = self.inner.tell();
        let ghost p = start as int;
        let ghost step = bone_step(d, h);
        let ghost okf = bone_ok_fn(d, h);
        let ghost mf = bone_matches_fn(d, h);
        let count = match self.take_i32() {
            Some(n) => n,
            None => {
                return Err(());
            },
        };
        if count < 0 {
            self.rewind(start);
            return Err(());
        }
        let mut v: Vec<PMXBone> = Vec::new();
        let mut i: i32 = 0;
        while i < count
            invariant
                self.same_model(old(self)),
                d == old(self).bytes(),
                h == old(self).header(),
                old(self).stage() == ReaderStage::MaterialList,
                p == old(self).cursor(),
                p == start,
                step == bone_step(d, h),
                okf == bone_ok_fn(d, h),
                mf == bone_matches_fn(d, h),
                fits(d, p, 4),
                count == i32_at(d, p),
                0 <= i <= count,
                v.len() == i,
                self.cursor() == nth_start(step, p + 4, i as nat),
                each_ok(okf, step, p + 4, i as nat),
                each_matches(mf, step, p + 4, v@),
            decreases count - i,
        {
            match self.read_pmx_bone() {
                Some(x) => {
                    proof {
                        lemma_each_ok_extend(okf, step, p + 4, i as nat);
                        lemma_each_matches_extend(mf, step, p + 4, v@, x);
                        lemma_nth_start_next(step, p + 4, i as nat);
                    }
                    v.push(x);
                },
                None => {
                    assert(!okf(nth_start(step, p + 4, i as nat)));
                    self.rewind(start);
                    return Err(());
                },
            }
            i = i + 1;
        }
        self.stage = ReaderStage::BoneList;
        Ok(PMXBones { bones: v })
    }

    /// One bone; `None` where the bytes hold none.
    fn read_pmx_bone(&mut self) -> (r: Option<PMXBone>)
        requires
            old(self).wf(),
        ensures
            final(self).same_model(old(self)),
            r is Some <==> bone_ok(old(self).bytes(), old(self).cursor(), old(self).header()),
            r is Some ==> bone_matches(old(self).bytes(), old(self).cursor(), old(self).header(), r->0)
                && final(self).cursor() == bone_end(old(self).bytes(), old(self).cursor(), old(self).header()),
    {
        let s_bone_index = self.header.s_bone_index;
        let name = self.take_text()?;
        let english_name = self.take_text()?;
        if !(s_bone_index == 1 || s_bone_index == 2 || s_bone_index == 4) {
            return None;
        }
        let position = self.take_vec3()?;
        let parent = self.take_sized(s_bone_index)?;
        let deform_depth = self.take_i32()?;
        let boneflag = self.take_u16()?;
        let (child, offset, append_bone_index, append_weight, fixed_axis, local_axis_x, local_axis_z, key_value) =
            self.read_bone_parts(boneflag, s_bone_index)?;
        let (ik_target_index, ik_iter_count, ik_limit, ik_links) = if (boneflag
            & BONE_FLAG_IK_MASK) == BONE_FLAG_IK_MASK {
            self.read_ik(s_bone_index)?
        } else {
            (0, 0, 0, Vec::new())
        };
        Some(
            PMXBone {
                name,
                english_name,
                position,
                parent,
                deform_depth,
                boneflag,
                offset,
                child,
                append_bone_index,
                append_weight,
                fixed_axis,
                local_axis_x,
                local_axis_z,
                key_value,
                ik_target_index,
                ik_iter_count,
                ik_limit,
                ik_links,
            },
        )
    }

    /// The parts of a bone that its flags `f` ask for, from the child index
    /// (or offset) to the outer-parent key.
    fn read_bone_parts(&mut self, f: u16, s: u8) -> (r: Option<(i32, Vec3, i32, u32, Vec3, Vec3, Vec3, i32)>)
        requires
            old(self).wf(),
            valid_index_size(s),
        ensures
            final(self).same_model(old(self)),
            r is Some <==> fits(old(self).bytes(), old(self).cursor(), ik_pos_from(old(self).cursor(), f, s as int) - old(self).cursor()),
            r matches Some(t) ==> bone_parts_match(old(self).bytes(), old(self).cursor(), f, s, t.0 as int, t.1, t.2 as int, t.3 as int, t.4, t.5, t.6, t.7 as int)
                && final(self).cursor() == ik_pos_from(old(self).cursor(), f, s as int),
    {
        let z3: Vec3 = [0, 0, 0];
        let (child, offset) = if (f & BONE_FLAG_TARGET_SHOW_MODE_MASK)
            == BONE_FLAG_TARGET_SHOW_MODE_MASK {
            (self.take_sized(s)?, z3)
        } else {
            (0, self.take_vec3()?)
        };
        let (append_bone_index, append_weight) = if f & (BONE_FLAG_APPEND_ROTATE_MASK
            | BONE_FLAG_APPEND_TRANSLATE_MASK) > 0 {
            let index = self.take_sized(s)?;
            let weight = self.take_u32()?;
            (index, weight)
        } else {
            (0, 0)
        };
        let fixed_axis = if (f & BONE_FLAG_FIXED_AXIS_MASK) == BONE_FLAG_FIXED_AXIS_MASK {
            self.take_vec3()?
        } else {
            z3
        };
        let (local_axis_x, local_axis_z) = if (f & BONE_FLAG_LOCAL_AXIS_MASK)
            == BONE_FLAG_LOCAL_AXIS_MASK {
            let x = self.take_vec3()?;
            let z = self.take_vec3()?;
            (x, z)
        } else {
            (z3, z3)
        };
        let key_value = if (f & BONE_FLAG_DEFORM_OUTER_PARENT_MASK) > 0 {
            self.take_i32()?
        } else {
            0
        };
        Some((child, offset, append_bone_index, append_weight, fixed_axis, local_axis_x, local_axis_z, key_value))
    }

    /// The IK part of a bone: target, iteration count, angle limit and links.
    fn read_ik(&mut self, s: u8) -> (r: Option<(i32, i32, u32, Vec<PMXIKLink>)>)
        requires
            old(self).wf(),
            s == old(self).header().s_bone_index,
            valid_index_size(s),
        ensures
            final(self).same_model(old(self)),
            r is Some <==> ik_ok(old(self).bytes(), old(self).cursor(), old(self).header()),
            r matches Some(t) ==> ik_matches(old(self).bytes(), old(self).cursor(), old(self).header(), t.0 as int, t.1 as int, t.2 as int, t.3@)
                && final(self).cursor() == ik_end(old(self).bytes(), old(self).cursor(), old(self).header()),
    {
        let ghost d = self.bytes();
        let ghost h = self.header();
        let ghost q = self.cursor();
        let ik_target_index = self.take_sized(s)?;
        let ik_iter_count = self.take_i32()?;
        let ik_limit = self.take_u32()?;
        let ik_link_count = self.take_i32()?;
        if ik_link_count < 0 {
            return None;
        }
        let ghost p = q + s + 12;
        let ghost step = link_step(d, h);
        let ghost okf = link_ok_fn(d, h);
        let ghost mf = link_matches_fn(d, h);
        let mut v: Vec<PMXIKLink> = Vec::new();
        let mut i: i32 = 0;
        while i < ik_link_count
            invariant
                self.same_model(old(self)),
                d == old(self).bytes(),
                h == old(self).header(),
                valid_index_size(h.s_bone_index),
                q == old(self).cursor(),
                p == q + s + 12,
                s == h.s_bone_index,
                step == link_step(d, h),
                okf == link_ok_fn(d, h),
                mf == link_matches_fn(d, h),
                fits(d, q, s + 12),
                ik_link_count == i32_at(d, q + s + 8),
                0 <= i <= ik_link_count,
                v.len() == i,
                self.cursor() == nth_start(step, p, i as nat),
                each_ok(okf, step, p, i as nat),
                each_matches(mf, step, p, v@),
            decreases ik_link_count - i,
        {
            match self.read_iklink() {
                Some(x) => {
                    proof {
                        lemma_each_ok_extend(okf, step, p, i as nat);
                        lemma_each_matches_extend(mf, step, p, v@, x);
                        lemma_nth_start_next(step, p, i as nat);
                    }
                    v.push(x);
                },
                None => {
                    assert(!okf(nth_start(step, p, i as nat)));
                    return None;
                },
            }
            i = i + 1;
        }
        Some((ik_target_index, ik_iter_count, ik_limit, v))
    }

    /// One IK link; the two limit vectors are read when the limit flag is 1.
    fn read_iklink(&mut self) -> (r: Option<PMXIKLink>)
        requires
            old(self).wf(),
            valid_index_size(old(self).header().s_bone_index),
        ensures
            final(self).same_model(old(self)),
            r is Some <==> link_ok(old(self).bytes(), old(self).cursor(), old(self).header()),
            r is Some ==> link_matches(old(self).bytes(), old(self).cursor(), old(self).header(), r->0)
                && final(self).cursor() == link_end(old(self).bytes(), old(self).cursor(), old(self).header()),
    {
        let z3: Vec3 = [0, 0, 0];
        let ik_bone_index = self.take_sized(self.header.s_bone_index)?;
        let enable_limit = self.take_u8()?;
        let (limit_min, limit_max) = if enable_limit == 1 {
            let lo = self.take_vec3()?;
            let hi = self.take_vec3()?;
            (lo, hi)
        } else {
            (z3, z3)
        };
        Some(PMXIKLink { ik_bone_index, enable_limit, limit_min, limit_max })
    }

    /// The morphs; only right after the bones.  On `Err` nothing changes.
    pub fn read_pmx_morphs(&mut self) -> (r: Result<PMXMorphs, ()>)
        requires
            old(self).wf(),
        ensures
            r is Ok <==> old(self).stage() == ReaderStage::BoneList
                && morphs_ok(old(self).bytes(), old(self).cursor(), old(self).header()),
            r is Ok ==> morphs_match(old(self).bytes(), old(self).cursor(), old(self).header(), r->Ok_0.morphs@)
                && final(self).moved_to(old(self), morphs_end(old(self).bytes(), old(self).cursor(), old(self).header()), ReaderStage::MorphList),
            r is Ok ==> successor(old(self).stage()) == Some(final(self).stage()),
            r is Err ==> final(self).unchanged(old(self)),
    {
        match self.stage {
            ReaderStage::BoneList => {},
            _ => {
                return Err(());
            },
        }
        let ghost d = self.bytes();
        let ghost h = self.header();
        let start = self.inner.tell();
        let ghost p = start as int;
        let ghost step = morph_step(d, h);
        let ghost okf = morph_ok_fn(d, h);
        let ghost mf = morph_matches_fn(d, h);
        let count = match self.take_i32() {
            Some(n) => n,
            None => {
                return Err(());
            },
        };
        if count < 0 {
            self.rewind(start);
            return Err(());
        }
        let mut v: Vec<PMXMorph> = Vec::new();
        let mut i: i32 = 0;
        while i < count
            invariant
                self.same_model(old(self)),
                d == old(self).bytes(),
                h == old(self).header(),
                old(self).stage() == ReaderStage::BoneList,
                p == old(self).cursor(),
                p == start,
                step == morph_step(d, h),
                okf == morph_ok_fn(d, h),
                mf == morph_matches_fn(d, h),
                fits(d, p, 4),
                count == i32_at(d, p),
                0 <= i <= count,
                v.len() == i,
                self.cursor() == nth_start(step, p + 4, i as nat),
                each_ok(okf, step, p + 4, i as nat),
                each_matches(mf, step, p + 4, v@),
            decreases count - i,
        {
            match self.read_pmx_morph() {
                Some(x) => {
                    proof {
                        lemma_each_ok_extend(okf, step, p + 4, i as nat);
                        lemma_each_matches_extend(mf, step, p + 4, v@, x);
                        lemma_nth_start_next(step, p + 4, i as nat);
                    }
                    v.push(x);
                },
                None => {
                    assert(!okf(nth_start(step, p + 4, i as nat)));
                    self.rewind(start);
                    return Err(());
                },
            }
            i = i + 1;
        }
        self.stage = ReaderStage::MorphList;
        Ok(PMXMorphs { morphs: v })
    }

    /// One morph: names, panel, type, then its offsets.
    fn read_pmx_morph(&mut self) -> (r: Option<PMXMorph>)
        requires
            old(self).wf(),
        ensures
            final(self).same_model(old(self)),
            r is Some <==> morph_ok(old(self).bytes(), old(self).cursor(), old(self).header()),
            r is Some ==> morph_matches(old(self).bytes(), old(self).cursor(), old(self).header(), r->0)
                && final(self).cursor() == morph_end(old(self).bytes(), old(self).cursor(), old(self).header()),
    {
        let ghost d = self.bytes();
        let ghost h = self.header();
        let name = self.take_text()?;
        let english_name = self.take_text()?;
        let category = self.take_u8()?;
        let morph_type = self.take_u8()?;
        if morph_type > 8 {
            return None;
        }
        let offset = self.take_i32()?;
        if offset < 0 {
            return None;
        }
        let s = if morph_type == 0 {
            self.header.s_morph_index
        } else if morph_type == 2 {
            self.header.s_bone_index
        } else if morph_type == 8 {
            self.header.s_material_index
        } else {
            self.header.s_vertex_index
        };
        let ghost q = self.cursor();
        let ghost m = morph_head(d, old(self).cursor());
        assert(q == m + 6 && morph_type == d[m + 1] && offset == i32_at(d, m + 2));
        let ghost step = morph_offset_step(h, morph_type);
        let ghost okf = morph_offset_ok_fn(d, h, morph_type);
        let ghost mf = morph_offset_matches_fn(d, h, morph_type);
        if offset > 0 && !(s == 1 || s == 2 || s == 4) {
            assert(!okf(nth_start(step, q, 0)));
            return None;
        }
        let mut v: Vec<MorphTypes> = Vec::new();
        let mut i: i32 = 0;
        while i < offset
            invariant
                self.same_model(old(self)),
                d == old(self).bytes(),
                h == old(self).header(),
                morph_type <= 8,
                q == m + 6,
                m == morph_head(d, old(self).cursor()),
                morph_type == d[m + 1],
                offset == i32_at(d, m + 2),
                s == morph_index_size(morph_type, h),
                offset > 0 ==> valid_index_size(s),
                step == morph_offset_step(h, morph_type),
                okf == morph_offset_ok_fn(d, h, morph_type),
                mf == morph_offset_matches_fn(d, h, morph_type),
                0 <= i <= offset,
                v.len() == i,
                self.cursor() == nth_start(step, q, i as nat),
                each_ok(okf, step, q, i as nat),
                each_matches(mf, step, q, v@),
            decreases offset - i,
        {
            match self.read_morph_offset(morph_type, s) {
                Some(x) => {
                    proof {
                        lemma_each_ok_extend(okf, step, q, i as nat);
                        lemma_each_matches_extend(mf, step, q, v@, x);
                        lemma_nth_start_next(step, q, i as nat);
                    }
                    v.push(x);
                },
                None => {
                    assert(!okf(nth_start(step, q, i as nat)));
                    assert(!each_ok(okf, step, q, offset as nat));
                    return None;
                },
            }
            i = i + 1;
        }
        Some(PMXMorph { name, english_name, category, morph_type, offset, morph_data: v })
    }

    /// One offset of a morph of type `t`, whose index is `s` bytes wide.
    fn read_morph_offset(&mut self, t: u8, s: u8) -> (r: Option<MorphTypes>)
        requires
            old(self).wf(),
            t <= 8,
            valid_index_size(s),
            s == morph_index_size(t, old(self).header()),
        ensures
            final(self).same_model(old(self)),
            r is Some <==> fits(old(self).bytes(), old(self).cursor(), morph_offset_len(t, old(self).header())),
            r is Some ==> morph_offset_matches(old(self).bytes(), old(self).cursor(), old(self).header(), t, r->0)
                && final(self).cursor() == old(self).cursor() + morph_offset_len(t, old(self).header()),
    {
        if t == 0 {
            let index = self.take_sized(s)?;
            let morph_factor = self.take_u32()?;
            Some(MorphTypes::Group(GroupMorph { index, morph_factor }))
        } else if t == 2 {
            let index = self.take_sized(s)?;
            let translates = self.take_vec3()?;
            let rotates = self.take_vec4()?;
            Some(MorphTypes::Bone(BoneMorph { index, translates, rotates }))
        } else if t == 8 {
            let m = self.read_material_morph(s)?;
            Some(MorphTypes::Material(m))
        } else {
            let u = self.take_vertex_index(s)?;
            let index = u32_to_i32(u);
            if t == 1 {
                let offset = self.take_vec3()?;
                Some(MorphTypes::Vertex(VertexMorph { index, offset }))
            } else {
                let offset = self.take_vec4()?;
                let uv = UVMorph { index, offset };
                if t == 3 {
                    Some(MorphTypes::UV(uv))
                } else if t == 4 {
                    Some(MorphTypes::UV1(uv))
                } else if t == 5 {
                    Some(MorphTypes::UV2(uv))
                } else if t == 6 {
                    Some(MorphTypes::UV3(uv))
                } else {
                    Some(MorphTypes::UV4(uv))
                }
            }
        }
    }

    /// One offset of a material morph, whose index is `s` bytes wide.
    fn read_material_morph(&mut self, s: u8) -> (r: Option<MaterialMorph>)
        requires
            old(self).wf(),
            valid_index_size(s),
        ensures
            final(self).same_model(old(self)),
            r is Some <==> fits(old(self).bytes(), old(self).cursor(), s + 113),
            r is Some ==> material_morph_matches(old(self).bytes(), old(self).cursor(), s, r->0)
                && final(self).cursor() == old(self).cursor() + s + 113,
    {
        let index = self.take_sized(s)?;
        let formula = self.take_u8()?;
        let diffuse = self.take_vec4()?;
        let specular = self.take_vec3()?;
        let specular_factor = self.take_u32()?;
        let ambient = self.take_vec3()?;
        let edge_color = self.take_vec4()?;
        let edge_size = self.take_u32()?;
        let texture_factor = self.take_vec4()?;
        let sphere_texture_factor = self.take_vec4()?;
        let toon_texture_factor = self.take_vec4()?;
        Some(
            MaterialMorph {
                index,
                formula,
                diffuse,
                specular,
                specular_factor,
                ambient,
                edge_color,
                edge_size,
                texture_factor,
                sphere_texture_factor,
                toon_texture_factor,
            },
        )
    }
}

} // verus!
