//! The values a PMX model is made of.
//!
//! Every single-precision number of the format is held as its IEEE-754 bit
//! pattern (`u32`), exactly as the file stores it; `f32::from_bits` turns it
//! into the number.
use vstd::prelude::*;
use crate::text::{decimal, decimal_string};

verus! {

/// Two single-precision numbers, each held as its bit pattern.
pub type Vec2 = [u32; 2];

/// Three single-precision numbers, each held as its bit pattern.
pub type Vec3 = [u32; 3];

/// Four single-precision numbers, each held as its bit pattern.
pub type Vec4 = [u32; 4];

/// The text encoding a model declares in its header; the variants are in
/// the order of their header byte (0 is UTF-16LE, 1 is UTF-8).
#[derive(Debug, Clone, Copy, PartialEq, Eq, Structural)]
pub enum Encode {
    Utf16Le,
    UTF8,
}

/* Bone flags */
pub const BONE_FLAG_TARGET_SHOW_MODE_MASK: u16 = 0x0001;

pub const BONE_FLAG_ALLOW_ROTATE_MASK: u16 = 0x0002;

pub const BONE_FLAG_ALLOW_TRANSLATE_MASK: u16 = 0x0004;

pub const BONE_FLAG_VISIBLE_MASK: u16 = 0x0008;

pub const BONE_FLAG_ALLOW_CONTROL_MASK: u16 = 0x0010;

pub const BONE_FLAG_IK_MASK: u16 = 0x0020;

pub const BONE_FLAG_APPEND_LOCAL_MASK: u16 = 0x0080;

pub const BONE_FLAG_APPEND_ROTATE_MASK: u16 = 0x0100;

pub const BONE_FLAG_APPEND_TRANSLATE_MASK: u16 = 0x0200;

pub const BONE_FLAG_FIXED_AXIS_MASK: u16 = 0x0400;

pub const BONE_FLAG_LOCAL_AXIS_MASK: u16 = 0x0800;

pub const BONE_FLAG_DEFORM_AFTER_PHYSICS_MASK: u16 = 0x1000;

pub const BONE_FLAG_DEFORM_OUTER_PARENT_MASK: u16 = 0x2000;

/* Material flags */
#[allow(dead_code)]
const MATERIAL_DOUBLE_SIDE_MASK: u8 = 0x01;

#[allow(dead_code)]
const MATERIAL_GROUND_SHADOW_MASK: u8 = 0x02;

#[allow(dead_code)]
const MATERIAL_CAST_SELF_SHADOW_MASK: u8 = 0x04;

#[allow(dead_code)]
const MATERIAL_RECEIVE_SELF_SHADOW_MASK: u8 = 0x08;

#[allow(dead_code)]
const MATERIAL_EDGE_DRAW_MASK: u8 = 0x10;

#[allow(dead_code)]
const MATERIAL_VERTEX_COLOR_MASK: u8 = 0x20;

#[allow(dead_code)]
const MATERIAL_DRAW_POINT_MASK: u8 = 0x40;

#[allow(dead_code)]
const MATERIAL_DRAW_LINE_MASK: u8 = 0x80;

/// The first 17 bytes of a PMX file, undecoded.
#[derive(Debug, Clone, Copy)]
pub struct PMXHeaderC {
    pub magic: [u8; 4],
    /// Bit pattern of the format version (a single-precision number).
    pub version: u32,
    pub length: u8,
    pub config: [u8; 8],
}

/// The decoded header of a PMX file.
#[derive(Debug, Clone)]
pub struct PMXHeaderRust {
    pub magic: String,
    /// Bit pattern of the format version (a single-precision number).
    pub version: u32,
    pub length: u8,
    pub encode: Encode,
    pub additional_uv: u8,
    pub s_vertex_index: u8,
    pub s_texture_index: u8,
    pub s_material_index: u8,
    pub s_bone_index: u8,
    pub s_morph_index: u8,
    pub s_rigid_body_index: u8,
}

pub enum IndexSize {
    Byte,
    Short,
    Int,
}

#[derive(Debug)]
pub struct PMXModelInfo {
    pub name: String,
    pub name_en: String,
    pub comment: String,
    pub comment_en: String,
}

/// How a vertex is bound to bones (file values 0 to 4, in this order).
#[derive(Debug, Clone, Copy, PartialEq, Eq, Structural)]
pub enum PMXVertexWeight {
    BDEF1,
    BDEF2,
    BDEF4,
    SDEF,
    QDEF,
}

#[derive(Debug, Clone, Copy)]
pub struct PMXVertex {
    pub position: Vec3,
    pub norm: Vec3,
    pub uv: Vec2,
    pub add_uv: [Vec4; 4],
    pub weight_type: PMXVertexWeight,
    pub bone_indices: [i32; 4],
    pub bone_weights: Vec4,
    pub sdef_c: Vec3,
    pub sdef_r0: Vec3,
    pub sdef_r1: Vec3,
    /// Bit pattern of the edge magnification.
    pub edge_mag: u32,
}

/// A triangle, by the indices of its three vertices.
#[derive(Debug, Clone, Copy)]
pub struct PMXFace {
    pub vertices: [u32; 3],
}

pub struct PMXFaces {
    pub faces: Vec<PMXFace>,
}

pub struct PMXTextureList {
    pub textures: Vec<String>,
}

/// Draw-mode bits of a material; `value` gives each one's bit.
pub enum PMXDrawModeFlags {
    BothFace,
    GroundShadow,
    CastSelfShadow,
    RecieveSelfShadow,
    DrawEdge,
    VertexColor,
    DrawPoint,
    DrawLine,
}

impl PMXDrawModeFlags {
    /// The bit of the flag in a material's draw mode: BothFace 0x01,
    /// GroundShadow 0x02, CastSelfShadow 0x04, RecieveSelfShadow 0x08,
    /// DrawEdge 0x10, VertexColor 0x20, DrawPoint 0x40, DrawLine 0x80.
    pub fn value(&self) -> (r: u8)
        ensures
            r == match self {
                PMXDrawModeFlags::BothFace => 0x01u8,
                PMXDrawModeFlags::GroundShadow => 0x02u8,
                PMXDrawModeFlags::CastSelfShadow => 0x04u8,
                PMXDrawModeFlags::RecieveSelfShadow => 0x08u8,
                PMXDrawModeFlags::DrawEdge => 0x10u8,
                PMXDrawModeFlags::VertexColor => 0x20u8,
                PMXDrawModeFlags::DrawPoint => 0x40u8,
                PMXDrawModeFlags::DrawLine => 0x80u8,
            },
    {
        match self {
            PMXDrawModeFlags::BothFace => 0x01,
            PMXDrawModeFlags::GroundShadow => 0x02,
            PMXDrawModeFlags::CastSelfShadow => 0x04,
            PMXDrawModeFlags::RecieveSelfShadow => 0x08,
            PMXDrawModeFlags::DrawEdge => 0x10,
            PMXDrawModeFlags::VertexColor => 0x20,
            PMXDrawModeFlags::DrawPoint => 0x40,
            PMXDrawModeFlags::DrawLine => 0x80,
        }
    }
}

/// Sphere-map mode of a material (file values 0 to 3, in this order);
/// `Disabled` is the mode without a sphere map.
#[derive(Debug, Clone, Copy, PartialEq, Eq, Structural)]
pub enum PMXSphereMode {
    Disabled,
    Mul,
    Add,
    SubTexture,
}

/// Toon mode of a material: 0 is a texture of its own, 1 a shared toon (toon01 to toon10).
#[derive(Debug, Clone, Copy, PartialEq, Eq, Structural)]
pub enum PMXToonMode {
    Separate,
    Common,
}

#[derive(Debug)]
pub struct PMXMaterial {
    pub name: String,
    pub english_name: String,
    pub diffuse: Vec4,
    pub specular: Vec3,
    /// Bit pattern of the specular factor.
    pub specular_factor: u32,
    pub ambient: Vec3,
    pub drawmode: u8,
    pub edge_color: Vec4,
    /// Bit pattern of the edge size.
    pub edge_size: u32,
    pub texture_index: i32,
    pub sphere_mode_texture_index: i32,
    pub spheremode: PMXSphereMode,
    pub toon_mode: PMXToonMode,
    pub toon_texture_index: i32,
    pub memo: String,
    pub num_face_vertices: i32,
}

#[derive(Debug)]
pub struct PMXMaterials {
    pub materials: Vec<PMXMaterial>,
}

/// The section a loader has read last; sections come in this order.
#[derive(Debug, Clone, Copy, PartialEq, Eq, Structural)]
pub enum ReaderStage {
    Header,
    ModelInfo,
    VertexList,
    TextureList,
    SurfaceList,
    MaterialList,
    BoneList,
    MorphList,
    FrameList,
    RigidList,
    JointList,
}

#[derive(Debug)]
pub struct PMXBone {
    pub name: String,
    pub english_name: String,
    pub position: Vec3,
    pub parent: i32,
    pub deform_depth: i32,
    pub boneflag: u16,
    pub offset: Vec3,
    pub child: i32,
    pub append_bone_index: i32,
    /// Bit pattern of the append weight.
    pub append_weight: u32,
    pub fixed_axis: Vec3,
    pub local_axis_x: Vec3,
    pub local_axis_z: Vec3,
    pub key_value: i32,
    pub ik_target_index: i32,
    pub ik_iter_count: i32,
    /// Bit pattern of the IK angle limit.
    pub ik_limit: u32,
    pub ik_links: Vec<PMXIKLink>,
}

#[derive(Debug, Clone, Copy)]
pub struct PMXIKLink {
    pub ik_bone_index: i32,
    pub enable_limit: u8,
    pub limit_min: Vec3,
    pub limit_max: Vec3,
}

#[derive(Debug)]
pub struct PMXMorph {
    pub name: String,
    pub english_name: String,
    pub category: u8,
    pub morph_type: u8,
    pub offset: i32,
    pub morph_data: Vec<MorphTypes>,
}

#[derive(Debug)]
pub enum MorphTypes {
    Vertex(VertexMorph),
    UV(UVMorph),
    UV1(UVMorph),
    UV2(UVMorph),
    UV3(UVMorph),
    UV4(UVMorph),
    Bone(BoneMorph),
    Material(MaterialMorph),
    Group(GroupMorph),
}

#[derive(Debug)]
pub struct VertexMorph {
    pub index: i32,
    pub offset: Vec3,
}

#[derive(Debug)]
pub struct UVMorph {
    pub index: i32,
    pub offset: Vec4,
}

#[derive(Debug)]
pub struct GroupMorph {
    pub index: i32,
    /// Bit pattern of the morph factor.
    pub morph_factor: u32,
}

#[derive(Debug)]
pub struct BoneMorph {
    pub index: i32,
    pub translates: Vec3,
    pub rotates: Vec4,
}

#[derive(Debug)]
pub struct MaterialMorph {
    pub index: i32,
    pub formula: u8,
    pub diffuse: Vec4,
    pub specular: Vec3,
    /// Bit pattern of the specular factor.
    pub specular_factor: u32,
    pub ambient: Vec3,
    pub edge_color: Vec4,
    /// Bit pattern of the edge size.
    pub edge_size: u32,
    pub texture_factor: Vec4,
    pub sphere_texture_factor: Vec4,
    pub toon_texture_factor: Vec4,
}

#[derive(Debug)]
pub struct PMXMorphs {
    pub morphs: Vec<PMXMorph>,
}

pub struct PMXVertices {
    pub vertices: Vec<PMXVertex>,
}

#[derive(Debug)]
pub struct PMXBones {
    pub bones: Vec<PMXBone>,
}

/// The text of a triangle: `Triangle:[a,b,c]` and a line break.
pub open spec fn face_text(f: PMXFace) -> Seq<char> {
    "Triangle:["@ + decimal(f.vertices[0] as nat) + ","@ + decimal(f.vertices[1] as nat) + ","@
        + decimal(f.vertices[2] as nat) + "]\n"@
}

/// The texts of the triangles `fs`, one after the other.
pub open spec fn faces_text(fs: Seq<PMXFace>) -> Seq<char>
    decreases fs.len(),
{
    if fs.len() == 0 {
        Seq::empty()
    } else {
        faces_text(fs.drop_last()) + face_text(fs.last())
    }
}

/// The names `ts`, each followed by a line break.
pub open spec fn names_text(ts: Seq<String>) -> Seq<char>
    decreases ts.len(),
{
    if ts.len() == 0 {
        Seq::empty()
    } else {
        names_text(ts.drop_last()) + ts.last()@ + "\n"@
    }
}

impl PMXFace {
    /// `Triangle:[a,b,c]` and a line break, with the three vertex indices in decimal.
    pub fn to_string(&self) -> (r: String)
        ensures
            r@ == face_text(*self),
    {
        let mut s = String::from_str("Triangle:[");
        let a = decimal_string(self.vertices[0] as u64);
        let b = decimal_string(self.vertices[1] as u64);
        let c = decimal_string(self.vertices[2] as u64);
        s.append(a.as_str());
        s.append(",");
        s.append(b.as_str());
        s.append(",");
        s.append(c.as_str());
        s.append("]\n");
        s
    }
}

impl PMXFaces {
    /// `Triangles:n` and a line break, then the text of each triangle.
    pub fn to_string(&self) -> (r: String)
        ensures
            r@ == "Triangles:"@ + decimal(self.faces@.len()) + "\n"@ + faces_text(self.faces@),
    {
        let mut s = String::from_str("Triangles:");
        let n = decimal_string(self.faces.len() as u64);
        s.append(n.as_str());
        s.append("\n");
        let ghost head = s@;
        let mut i: usize = 0;
        while i < self.faces.len()
            invariant
                i <= self.faces@.len(),
                head == "Triangles:"@ + decimal(self.faces@.len()) + "\n"@,
                s@ == head + faces_text(self.faces@.take(i as int)),
            decreases self.faces@.len() - i,
        {
            let t = self.faces[i].to_string();
            s.append(t.as_str());
            proof {
                assert(self.faces@.take(i + 1).drop_last() =~= self.faces@.take(i as int));
                assert(s@ =~= head + faces_text(self.faces@.take(i + 1)));
            }
            i = i + 1;
        }
        assert(self.faces@.take(self.faces@.len() as int) =~= self.faces@);
        s
    }
}

impl PMXTextureList {
    /// `Textures:n` and a line break, then each name and a line break.
    pub fn to_string(&self) -> (r: String)
        ensures
            r@ == "Textures:"@ + decimal(self.textures@.len()) + "\n"@ + names_text(self.textures@),
    {
        let mut s = String::from_str("Textures:");
        let n = decimal_string(self.textures.len() as u64);
        s.append(n.as_str());
        s.append("\n");
        let ghost head = s@;
        let mut i: usize = 0;
        while i < self.textures.len()
            invariant
                i <= self.textures@.len(),
                head == "Textures:"@ + decimal(self.textures@.len()) + "\n"@,
                s@ == head + names_text(self.textures@.take(i as int)),
            decreases self.textures@.len() - i,
        {
            s.append(self.textures[i].as_str());
            s.append("\n");
            proof {
                assert(self.textures@.take(i + 1).drop_last() =~= self.textures@.take(i as int));
                assert(s@ =~= head + names_text(self.textures@.take(i + 1)));
            }
            i = i + 1;
        }
        assert(self.textures@.take(self.textures@.len() as int) =~= self.textures@);
        s
    }
}

} // verus!
