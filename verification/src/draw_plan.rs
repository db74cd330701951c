//! How a viewer lays a model out for drawing: which triangles and which
//! texture each material draws with.
use vstd::prelude::*;
use crate::format::triangle_count;
use crate::pmx_types::PMXFace;

verus! {

/// The texture a material draws with, among `blank_texture_id` loaded
/// textures followed by a blank one: its texture index where that
/// (taken as an unsigned machine word) names a loaded texture, else the blank one.
pub fn texture_slot(texture_index: i32, blank_texture_id: usize) -> (r: usize)
    ensures
        r == (if (texture_index as usize) < blank_texture_id {
            texture_index as usize
        } else {
            blank_texture_id
        }),
        0 <= texture_index < blank_texture_id ==> r == texture_index,
        texture_index < 0 && blank_texture_id <= i32::MAX ==> r == blank_texture_id,
        r <= blank_texture_id,
{
    let ti = texture_index as usize;
    proof {
        if texture_index < 0 {
            assert(texture_index < 0 ==> (texture_index as usize) > (i32::MAX as usize))
                by (bit_vector);
        }
    }
    if ti >= blank_texture_id {
        blank_texture_id
    } else {
        ti
    }
}

/// Takes out of `faces` the triangles of one material: the first
/// `num_face_vertices / 3` of them (rounded toward zero; none for a count
/// below zero).
pub fn take_material_faces(faces: &mut Vec<PMXFace>, num_face_vertices: i32) -> (r: Vec<PMXFace>)
    requires
        num_face_vertices >= -2,
        triangle_count(num_face_vertices as int) <= old(faces)@.len(),
    ensures
        r@ == old(faces)@.take(triangle_count(num_face_vertices as int)),
        final(faces)@ == old(faces)@.skip(triangle_count(num_face_vertices as int)),
{
    let end: usize = if num_face_vertices > 0 {
        (num_face_vertices / 3) as usize
    } else {
        0
    };
    let mut rest = faces.split_off(end);
    std::mem::swap(faces, &mut rest);
    rest
}

/// The vertex indices of the triangles, three per triangle, in order.
pub fn face_indices(faces: &Vec<PMXFace>) -> (r: Vec<u32>)
    ensures
        r@.len() == 3 * faces@.len(),
        forall|i: int, j: int|
            0 <= i < faces@.len() && 0 <= j < 3 ==> #[trigger] r@[3 * i + j] == faces@[i].vertices[j],
{
    let mut r: Vec<u32> = Vec::new();
    let mut i: usize = 0;
    while i < faces.len()
        invariant
            i <= faces@.len(),
            r@.len() == 3 * i,
            forall|k: int, j: int|
                0 <= k < i && 0 <= j < 3 ==> #[trigger] r@[3 * k + j] == faces@[k].vertices[j],
        decreases faces@.len() - i,
    {
        let f = faces[i];
        r.push(f.vertices[0]);
        r.push(f.vertices[1]);
        r.push(f.vertices[2]);
        proof {
            assert forall|k: int, j: int| 0 <= k < i + 1 && 0 <= j < 3 implies #[trigger] r@[3 * k
                + j] == faces@[k].vertices[j] by {
                if k < i {
                    assert(3 * k + j < 3 * i);
                } else {
                    assert(k == i);
                }
            }
        }
        i = i + 1;
    }
    r
}

} // verus!
