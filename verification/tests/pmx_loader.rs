use pmx_util::pmx_types::PMXDrawModeFlags;
use pmx_util::pmx_loader::{transform_header_c2r, PMXLoader};
use pmx_util::pmx_types::{
    MorphTypes, Encode, PMXHeaderC, PMXSphereMode, PMXToonMode, PMXVertexWeight, BONE_FLAG_APPEND_ROTATE_MASK,
    BONE_FLAG_DEFORM_OUTER_PARENT_MASK, BONE_FLAG_FIXED_AXIS_MASK, BONE_FLAG_IK_MASK,
    BONE_FLAG_LOCAL_AXIS_MASK, BONE_FLAG_TARGET_SHOW_MODE_MASK,
};

struct Model {
    v: Vec<u8>,
    utf16: bool,
}

impl Model {
    fn new(config: [u8; 8]) -> Model {
        let mut v = b"PMX ".to_vec();
        v.extend_from_slice(&2.0f32.to_bits().to_le_bytes());
        v.push(8);
        v.extend_from_slice(&config);
        Model { v, utf16: config[0] == 0 }
    }
    fn u8(&mut self, x: u8) -> &mut Self {
        self.v.push(x);
        self
    }
    fn u16(&mut self, x: u16) -> &mut Self {
        self.v.extend_from_slice(&x.to_le_bytes());
        self
    }
    fn i32(&mut self, x: i32) -> &mut Self {
        self.v.extend_from_slice(&x.to_le_bytes());
        self
    }
    fn f(&mut self, x: f32) -> &mut Self {
        self.v.extend_from_slice(&x.to_bits().to_le_bytes());
        self
    }
    fn fs(&mut self, xs: &[f32]) -> &mut Self {
        for x in xs {
            self.f(*x);
        }
        self
    }
    fn text(&mut self, s: &str) -> &mut Self {
        if self.utf16 {
            let units: Vec<u16> = s.encode_utf16().collect();
            self.i32((units.len() * 2) as i32);
            for u in units {
                self.u16(u);
            }
        } else {
            self.i32(s.len() as i32);
            self.v.extend_from_slice(s.as_bytes());
        }
        self
    }
    fn bytes(&self) -> Vec<u8> {
        self.v.clone()
    }
}

fn bits(xs: &[f32]) -> Vec<u32> {
    xs.iter().map(|x| x.to_bits()).collect()
}

/// Header: UTF-16LE, one extra uv, vertex indices of 2 bytes, texture
/// indices of 1 byte, bone indices of 2 bytes.
fn full_model() -> Model {
    let mut m = Model::new([0, 1, 2, 1, 1, 2, 1, 1]);
    m.text("ミク").text("Miku").text("コメント").text("comment");
    // vertices
    m.i32(5);
    // BDEF1
    m.fs(&[1.0, 2.0, 3.0]).fs(&[0.0, 1.0, 0.0]).fs(&[0.5, 0.25]).fs(&[1.0, 1.0, 1.0, 1.0]);
    m.u8(0).u16(7).f(1.0);
    // BDEF2
    m.fs(&[4.0, 5.0, 6.0]).fs(&[0.0, 0.0, 1.0]).fs(&[0.0, 1.0]).fs(&[2.0, 2.0, 2.0, 2.0]);
    m.u8(1).u16(1).u16(0xffff).f(0.75).f(1.0);
    // BDEF4
    m.fs(&[0.0; 3]).fs(&[0.0; 3]).fs(&[0.0; 2]).fs(&[0.0; 4]);
    m.u8(2).u16(1).u16(2).u16(3).u16(4).fs(&[0.1, 0.2, 0.3, 0.4]).f(0.5);
    // SDEF
    m.fs(&[0.0; 3]).fs(&[0.0; 3]).fs(&[0.0; 2]).fs(&[0.0; 4]);
    m.u8(3).u16(5).u16(6).f(0.6).fs(&[1.0, 2.0, 3.0]).fs(&[4.0, 5.0, 6.0]).fs(&[7.0, 8.0, 9.0]).f(1.0);
    // QDEF
    m.fs(&[0.0; 3]).fs(&[0.0; 3]).fs(&[0.0; 2]).fs(&[0.0; 4]);
    m.u8(4).u16(9).u16(8).u16(7).u16(6).fs(&[0.4, 0.3, 0.2, 0.1]).f(2.0);
    // faces: seven indices declared, two triangles read
    m.i32(7).u16(0).u16(1).u16(2).u16(2).u16(3).u16(4);
    // textures
    m.i32(2).text("tex\\body.png").text("face.bmp");
    // materials
    m.i32(2);
    m.text("肌").text("skin").fs(&[1.0, 0.9, 0.8, 1.0]).fs(&[0.1, 0.1, 0.1]).f(5.0).fs(&[0.5, 0.5, 0.5]);
    m.u8(0x11).fs(&[0.0, 0.0, 0.0, 1.0]).f(1.0).u8(0).u8(0xff).u8(1).u8(0).u8(1).text("memo").i32(3);
    m.text("髪").text("hair").fs(&[0.0; 4]).fs(&[0.0; 3]).f(0.0).fs(&[0.0; 3]);
    m.u8(0).fs(&[0.0; 4]).f(0.0).u8(1).u8(0xff).u8(3).u8(1).u8(4).text("").i32(3);
    // bones
    m.i32(2);
    m.text("センター").text("center").fs(&[0.0, 8.0, 0.0]).u16(0xffff).i32(0).u16(0).fs(&[0.0, 1.0, 0.0]);
    let flags = BONE_FLAG_TARGET_SHOW_MODE_MASK
        | BONE_FLAG_APPEND_ROTATE_MASK
        | BONE_FLAG_FIXED_AXIS_MASK
        | BONE_FLAG_LOCAL_AXIS_MASK
        | BONE_FLAG_DEFORM_OUTER_PARENT_MASK
        | BONE_FLAG_IK_MASK;
    m.text("足IK").text("leg IK").fs(&[1.0, 1.0, 0.0]).u16(0).i32(1).u16(flags);
    m.u16(0); // child
    m.u16(0).f(0.5); // append
    m.fs(&[1.0, 0.0, 0.0]); // fixed axis
    m.fs(&[1.0, 0.0, 0.0]).fs(&[0.0, 0.0, 1.0]); // local axes
    m.i32(42); // key
    m.u16(0).i32(40).f(2.0).i32(2); // ik target, iterations, limit, links
    m.u16(0).u8(1).fs(&[-3.0, 0.0, 0.0]).fs(&[-0.5, 0.0, 0.0]);
    m.u16(0).u8(0);
    m
}

#[test]
fn reads_header_through_loader() {
    let loader = PMXLoader::from_bytes(full_model().bytes());
    let h = loader.get_header();
    assert_eq!(h.magic, "PMX ");
    assert_eq!(f32::from_bits(h.version), 2.0);
    assert_eq!(h.length, 8);
    assert_eq!(h.encode, Encode::Utf16Le);
    assert_eq!(h.additional_uv, 1);
    assert_eq!(h.s_vertex_index, 2);
    assert_eq!(h.s_texture_index, 1);
    assert_eq!(h.s_material_index, 1);
    assert_eq!(h.s_bone_index, 2);
    assert_eq!(h.s_morph_index, 1);
    assert_eq!(h.s_rigid_body_index, 1);
}

#[test]
fn transforms_raw_header() {
    let raw = PMXHeaderC { magic: [b'P', b'M', b'X', 0xff], version: 0, length: 8, config: [1, 4, 4, 4, 4, 4, 4, 4] };
    let h = transform_header_c2r(raw);
    assert_eq!(h.magic, "PMX\u{fffd}");
    assert_eq!(h.encode, Encode::UTF8);
    assert_eq!(h.additional_uv, 4);
    assert_eq!(h.s_rigid_body_index, 4);
    let raw = PMXHeaderC { magic: *b"PMX ", version: 2.1f32.to_bits(), length: 8, config: [0, 0, 1, 2, 4, 1, 2, 4] };
    let h = transform_header_c2r(raw);
    assert_eq!(h.magic, "PMX ");
    assert_eq!(f32::from_bits(h.version), 2.1);
    assert_eq!(h.encode, Encode::Utf16Le);
    assert_eq!((h.s_vertex_index, h.s_texture_index, h.s_material_index), (1, 2, 4));
    assert_eq!((h.s_bone_index, h.s_morph_index, h.s_rigid_body_index), (1, 2, 4));
}

#[test]
fn reads_whole_model_in_order() {
    let mut loader = PMXLoader::from_bytes(full_model().bytes());

    let info = loader.read_pmx_model_info().unwrap();
    assert_eq!(info.name, "ミク");
    assert_eq!(info.name_en, "Miku");
    assert_eq!(info.comment, "コメント");
    assert_eq!(info.comment_en, "comment");

    let vs = loader.read_pmx_vertices().unwrap().vertices;
    assert_eq!(vs.len(), 5);
    assert_eq!(vs[0].position.to_vec(), bits(&[1.0, 2.0, 3.0]));
    assert_eq!(vs[0].norm.to_vec(), bits(&[0.0, 1.0, 0.0]));
    assert_eq!(vs[0].uv.to_vec(), bits(&[0.5, 0.25]));
    assert_eq!(vs[0].add_uv[0].to_vec(), bits(&[1.0, 1.0, 1.0, 1.0]));
    assert_eq!(vs[0].add_uv[1], [0; 4]);
    assert_eq!(vs[0].weight_type, PMXVertexWeight::BDEF1);
    assert_eq!(vs[0].bone_indices, [7, -1, -1, -1]);
    assert_eq!(vs[0].bone_weights, [0; 4]);
    assert_eq!(f32::from_bits(vs[0].edge_mag), 1.0);
    assert_eq!(vs[1].weight_type, PMXVertexWeight::BDEF2);
    assert_eq!(vs[1].bone_indices, [1, -1, -1, -1]);
    assert_eq!(vs[1].bone_weights.to_vec(), bits(&[0.75, 0.0, 0.0, 0.0]));
    assert_eq!(vs[2].weight_type, PMXVertexWeight::BDEF4);
    assert_eq!(vs[2].bone_indices, [1, 2, 3, 4]);
    assert_eq!(vs[2].bone_weights.to_vec(), bits(&[0.1, 0.2, 0.3, 0.4]));
    assert_eq!(f32::from_bits(vs[2].edge_mag), 0.5);
    assert_eq!(vs[3].weight_type, PMXVertexWeight::SDEF);
    assert_eq!(vs[3].bone_indices, [5, 6, -1, -1]);
    assert_eq!(vs[3].sdef_c.to_vec(), bits(&[1.0, 2.0, 3.0]));
    assert_eq!(vs[3].sdef_r0.to_vec(), bits(&[4.0, 5.0, 6.0]));
    assert_eq!(vs[3].sdef_r1.to_vec(), bits(&[7.0, 8.0, 9.0]));
    assert_eq!(vs[4].weight_type, PMXVertexWeight::QDEF);
    assert_eq!(vs[4].bone_indices, [9, 8, 7, 6]);
    assert_eq!(vs[4].sdef_c, [0; 3]);
    assert_eq!(f32::from_bits(vs[4].edge_mag), 2.0);

    let faces = loader.read_pmx_faces().unwrap().faces;
    assert_eq!(faces.len(), 2);
    assert_eq!(faces[0].vertices, [0, 1, 2]);
    assert_eq!(faces[1].vertices, [2, 3, 4]);

    let textures = loader.read_texture_list().unwrap().textures;
    assert_eq!(textures, vec!["tex\\body.png".to_string(), "face.bmp".to_string()]);

    let materials = loader.read_pmx_materials().unwrap().materials;
    assert_eq!(materials.len(), 2);
    let skin = &materials[0];
    assert_eq!(skin.name, "肌");
    assert_eq!(skin.english_name, "skin");
    assert_eq!(skin.diffuse.to_vec(), bits(&[1.0, 0.9, 0.8, 1.0]));
    assert_eq!(f32::from_bits(skin.specular_factor), 5.0);
    assert_eq!(skin.drawmode, 0x11);
    assert_eq!(skin.texture_index, 0);
    assert_eq!(skin.sphere_mode_texture_index, -1);
    assert_eq!(skin.spheremode, PMXSphereMode::Mul);
    assert_eq!(skin.toon_mode, PMXToonMode::Separate);
    assert_eq!(skin.toon_texture_index, 1);
    assert_eq!(skin.memo, "memo");
    assert_eq!(skin.num_face_vertices, 3);
    let hair = &materials[1];
    assert_eq!(hair.name, "髪");
    assert_eq!(hair.texture_index, 1);
    assert_eq!(hair.spheremode, PMXSphereMode::SubTexture);
    assert_eq!(hair.toon_mode, PMXToonMode::Common);
    assert_eq!(hair.toon_texture_index, 4);
    assert_eq!(hair.memo, "");

    let bones = loader.read_pmx_bones().unwrap().bones;
    assert_eq!(bones.len(), 2);
    let center = &bones[0];
    assert_eq!(center.name, "センター");
    assert_eq!(center.parent, -1);
    assert_eq!(center.boneflag, 0);
    assert_eq!(center.offset.to_vec(), bits(&[0.0, 1.0, 0.0]));
    assert_eq!(center.child, 0);
    assert!(center.ik_links.is_empty());
    let leg = &bones[1];
    assert_eq!(leg.english_name, "leg IK");
    assert_eq!(leg.parent, 0);
    assert_eq!(leg.deform_depth, 1);
    assert_eq!(leg.child, 0);
    assert_eq!(leg.offset, [0; 3]);
    assert_eq!(leg.append_bone_index, 0);
    assert_eq!(f32::from_bits(leg.append_weight), 0.5);
    assert_eq!(leg.fixed_axis.to_vec(), bits(&[1.0, 0.0, 0.0]));
    assert_eq!(leg.local_axis_z.to_vec(), bits(&[0.0, 0.0, 1.0]));
    assert_eq!(leg.key_value, 42);
    assert_eq!(leg.ik_target_index, 0);
    assert_eq!(leg.ik_iter_count, 40);
    assert_eq!(f32::from_bits(leg.ik_limit), 2.0);
    assert_eq!(leg.ik_links.len(), 2);
    assert_eq!(leg.ik_links[0].enable_limit, 1);
    assert_eq!(leg.ik_links[0].limit_min.to_vec(), bits(&[-3.0, 0.0, 0.0]));
    assert_eq!(leg.ik_links[0].limit_max.to_vec(), bits(&[-0.5, 0.0, 0.0]));
    assert_eq!(leg.ik_links[1].enable_limit, 0);
    assert_eq!(leg.ik_links[1].limit_min, [0; 3]);
}

#[test]
fn refuses_sections_out_of_order() {
    let mut loader = PMXLoader::from_bytes(full_model().bytes());
    assert!(loader.read_pmx_vertices().is_err());
    assert!(loader.read_pmx_faces().is_err());
    assert!(loader.read_texture_list().is_err());
    assert!(loader.read_pmx_materials().is_err());
    assert!(loader.read_pmx_bones().is_err());
    // nothing was consumed
    assert_eq!(loader.read_pmx_model_info().unwrap().name, "ミク");
    // a section is read once
    assert!(loader.read_pmx_model_info().is_err());
    assert_eq!(loader.read_pmx_vertices().unwrap().vertices.len(), 5);
    assert!(loader.read_pmx_vertices().is_err());
    assert_eq!(loader.read_pmx_faces().unwrap().faces.len(), 2);
}

#[test]
fn utf8_model_info() {
    let mut m = Model::new([1, 0, 1, 1, 1, 1, 1, 1]);
    m.text("名前").text("name").text("").text("x");
    let mut loader = PMXLoader::from_bytes(m.bytes());
    assert_eq!(loader.get_header().encode, Encode::UTF8);
    let info = loader.read_pmx_model_info().unwrap();
    assert_eq!(info.name, "名前");
    assert_eq!(info.comment, "");
    assert_eq!(info.comment_en, "x");
}

#[test]
fn refused_section_leaves_loader_as_it_was() {
    // model information that runs past the end
    let mut m = Model::new([1, 0, 1, 1, 1, 1, 1, 1]);
    m.text("a").text("b").text("c").i32(100);
    let mut loader = PMXLoader::from_bytes(m.bytes());
    assert!(loader.read_pmx_model_info().is_err());
    assert!(loader.read_pmx_model_info().is_err());
    assert!(loader.read_pmx_vertices().is_err());

    // an unknown weight type: the vertex list is refused and can be read again
    let mut m = Model::new([1, 0, 1, 1, 1, 1, 1, 1]);
    m.text("").text("").text("").text("");
    m.i32(1).fs(&[0.0; 8]).u8(9).u8(0).f(1.0);
    let mut loader = PMXLoader::from_bytes(m.bytes());
    loader.read_pmx_model_info().unwrap();
    assert!(loader.read_pmx_vertices().is_err());
    assert!(loader.read_pmx_vertices().is_err());
    assert!(loader.read_pmx_faces().is_err());
}

#[test]
fn vertex_list_edge_cases() {
    // a negative vertex count is refused
    let mut m = Model::new([1, 0, 1, 1, 1, 1, 1, 1]);
    m.text("").text("").text("").text("").i32(-1);
    let mut loader = PMXLoader::from_bytes(m.bytes());
    loader.read_pmx_model_info().unwrap();
    assert!(loader.read_pmx_vertices().is_err());

    // more than four extra uvs is refused
    let mut m = Model::new([1, 5, 1, 1, 1, 1, 1, 1]);
    m.text("").text("").text("").text("").i32(1);
    m.fs(&[0.0; 8]).fs(&[0.0; 20]).u8(0).u8(0).f(1.0);
    let mut loader = PMXLoader::from_bytes(m.bytes());
    loader.read_pmx_model_info().unwrap();
    assert!(loader.read_pmx_vertices().is_err());

    // a bone index width of 3 is refused
    let mut m = Model::new([1, 0, 1, 1, 1, 3, 1, 1]);
    m.text("").text("").text("").text("").i32(1);
    m.fs(&[0.0; 8]).u8(0).u8(0).u8(0).u8(0).f(1.0);
    let mut loader = PMXLoader::from_bytes(m.bytes());
    loader.read_pmx_model_info().unwrap();
    assert!(loader.read_pmx_vertices().is_err());

    // an empty vertex list is fine
    let mut m = Model::new([1, 0, 1, 1, 1, 3, 1, 1]);
    m.text("").text("").text("").text("").i32(0);
    let mut loader = PMXLoader::from_bytes(m.bytes());
    loader.read_pmx_model_info().unwrap();
    assert_eq!(loader.read_pmx_vertices().unwrap().vertices.len(), 0);
}

fn up_to_faces(face_count: i32, s_vertex: u8) -> PMXLoader {
    let mut m = Model::new([1, 0, s_vertex, 1, 1, 1, 1, 1]);
    m.text("").text("").text("").text("").i32(0).i32(face_count);
    for i in 0..6u8 {
        m.u8(i);
    }
    let mut loader = PMXLoader::from_bytes(m.bytes());
    loader.read_pmx_model_info().unwrap();
    loader.read_pmx_vertices().unwrap();
    loader
}

#[test]
fn face_counts() {
    assert_eq!(up_to_faces(6, 1).read_pmx_faces().unwrap().faces.len(), 2);
    assert_eq!(up_to_faces(5, 1).read_pmx_faces().unwrap().faces.len(), 1);
    assert_eq!(up_to_faces(2, 1).read_pmx_faces().unwrap().faces.len(), 0);
    assert_eq!(up_to_faces(-2, 1).read_pmx_faces().unwrap().faces.len(), 0);
    assert!(up_to_faces(-3, 1).read_pmx_faces().is_err());
    assert!(up_to_faces(9, 1).read_pmx_faces().is_err());
    assert!(up_to_faces(3, 3).read_pmx_faces().is_err());
    // no triangle: the index width is never used
    assert_eq!(up_to_faces(1, 3).read_pmx_faces().unwrap().faces.len(), 0);
    let faces = up_to_faces(3, 2).read_pmx_faces().unwrap().faces;
    assert_eq!(faces.len(), 1);
    assert_eq!(faces[0].vertices, [0x0100, 0x0302, 0x0504]);
}

fn up_to_textures(m: &mut Model) {
    m.text("").text("").text("").text("").i32(0).i32(0);
}

#[test]
fn negative_list_counts() {
    let mut m = Model::new([1, 0, 1, 1, 1, 1, 1, 1]);
    up_to_textures(&mut m);
    m.i32(-5).i32(-1).i32(-1);
    let mut loader = PMXLoader::from_bytes(m.bytes());
    loader.read_pmx_model_info().unwrap();
    loader.read_pmx_vertices().unwrap();
    loader.read_pmx_faces().unwrap();
    assert_eq!(loader.read_texture_list().unwrap().textures.len(), 0);
    assert_eq!(loader.read_pmx_materials().unwrap().materials.len(), 0);
    assert!(loader.read_pmx_bones().is_err());
}

#[test]
fn bad_material_modes_are_refused() {
    for (sphere, toon) in [(4u8, 0u8), (0, 2)] {
        let mut m = Model::new([1, 0, 1, 1, 1, 1, 1, 1]);
        up_to_textures(&mut m);
        m.i32(0).i32(1);
        m.text("m").text("m").fs(&[0.0; 4]).fs(&[0.0; 3]).f(0.0).fs(&[0.0; 3]);
        m.u8(0).fs(&[0.0; 4]).f(0.0).u8(0).u8(0).u8(sphere).u8(toon).u8(0).text("").i32(0);
        let mut loader = PMXLoader::from_bytes(m.bytes());
        loader.read_pmx_model_info().unwrap();
        loader.read_pmx_vertices().unwrap();
        loader.read_pmx_faces().unwrap();
        loader.read_texture_list().unwrap();
        assert!(loader.read_pmx_materials().is_err());
        assert!(loader.read_pmx_bones().is_err());
    }
}

/// A model with no vertices, faces, textures, materials or bones, followed by `morphs`.
fn with_morphs(morphs: impl Fn(&mut Model)) -> PMXLoader {
    let mut m = Model::new([1, 0, 2, 1, 1, 2, 1, 1]);
    m.text("").text("").text("").text("");
    m.i32(0).i32(0).i32(0).i32(0).i32(0);
    morphs(&mut m);
    let mut loader = PMXLoader::from_bytes(m.bytes());
    loader.read_pmx_model_info().unwrap();
    loader.read_pmx_vertices().unwrap();
    loader.read_pmx_faces().unwrap();
    loader.read_texture_list().unwrap();
    loader.read_pmx_materials().unwrap();
    loader
}

#[test]
fn reads_morphs_after_bones() {
    let mut loader = with_morphs(|m| {
        m.i32(5);
        m.text("あ").text("a").u8(3).u8(0).i32(2).u8(0xff).f(0.5).u8(2).f(1.0);
        m.text("v").text("v").u8(1).u8(1).i32(1).u16(0xffff).fs(&[1.0, 2.0, 3.0]);
        m.text("b").text("b").u8(2).u8(2).i32(1).u16(3).fs(&[0.0, 1.0, 0.0]).fs(&[0.0, 0.0, 0.0, 1.0]);
        m.text("u").text("u").u8(4).u8(5).i32(1).u16(7).fs(&[0.5, 0.5, 0.0, 0.0]);
        m.text("m").text("m").u8(4).u8(8).i32(1).u8(0).u8(1).fs(&[0.1; 28]);
    });
    assert!(loader.read_pmx_morphs().is_err());
    let bones = loader.read_pmx_bones().unwrap().bones;
    assert!(bones.is_empty());
    let morphs = loader.read_pmx_morphs().unwrap().morphs;
    assert_eq!(morphs.len(), 5);
    assert_eq!(morphs[0].name, "あ");
    assert_eq!((morphs[0].category, morphs[0].morph_type, morphs[0].offset), (3, 0, 2));
    match &morphs[0].morph_data[..] {
        [MorphTypes::Group(g0), MorphTypes::Group(g1)] => {
            assert_eq!(g0.index, -1);
            assert_eq!(f32::from_bits(g0.morph_factor), 0.5);
            assert_eq!(g1.index, 2);
        }
        other => panic!("unexpected {:?}", other),
    }
    match &morphs[1].morph_data[..] {
        [MorphTypes::Vertex(v)] => {
            assert_eq!(v.index, 65535);
            assert_eq!(v.offset.to_vec(), bits(&[1.0, 2.0, 3.0]));
        }
        other => panic!("unexpected {:?}", other),
    }
    match &morphs[2].morph_data[..] {
        [MorphTypes::Bone(b)] => {
            assert_eq!(b.index, 3);
            assert_eq!(b.rotates.to_vec(), bits(&[0.0, 0.0, 0.0, 1.0]));
        }
        other => panic!("unexpected {:?}", other),
    }
    match &morphs[3].morph_data[..] {
        [MorphTypes::UV2(u)] => {
            assert_eq!(u.index, 7);
            assert_eq!(u.offset.to_vec(), bits(&[0.5, 0.5, 0.0, 0.0]));
        }
        other => panic!("unexpected {:?}", other),
    }
    match &morphs[4].morph_data[..] {
        [MorphTypes::Material(x)] => {
            assert_eq!(x.index, 0);
            assert_eq!(x.formula, 1);
            assert_eq!(x.toon_texture_factor.to_vec(), bits(&[0.1; 4]));
        }
        other => panic!("unexpected {:?}", other),
    }
    assert!(loader.read_pmx_morphs().is_err());
}

#[test]
fn refuses_unknown_morph_types() {
    let mut loader = with_morphs(|m| {
        m.i32(1).text("f").text("f").u8(0).u8(9).i32(1).u8(0).f(1.0);
    });
    loader.read_pmx_bones().unwrap();
    assert!(loader.read_pmx_morphs().is_err());
    let mut loader = with_morphs(|m| {
        m.i32(1).text("g").text("g").u8(0).u8(0).i32(-1);
    });
    loader.read_pmx_bones().unwrap();
    assert!(loader.read_pmx_morphs().is_err());
    let mut loader = with_morphs(|m| {
        m.i32(1).text("e").text("e").u8(0).u8(1).i32(0);
    });
    loader.read_pmx_bones().unwrap();
    assert_eq!(loader.read_pmx_morphs().unwrap().morphs[0].morph_data.len(), 0);
}

#[test]
fn enum_values() {
    assert_eq!(Encode::UTF8 as u8, 1);
    assert_eq!(Encode::Utf16Le as u8, 0);
    assert_eq!(PMXVertexWeight::QDEF as u8, 4);
    assert_eq!(PMXSphereMode::SubTexture as u8, 3);
    assert_eq!(PMXToonMode::Common as u8, 1);
    assert_eq!(PMXDrawModeFlags::BothFace.value(), 0x01);
    assert_eq!(PMXDrawModeFlags::DrawEdge.value(), 0x10);
    assert_eq!(PMXDrawModeFlags::DrawLine.value(), 0x80);
}
