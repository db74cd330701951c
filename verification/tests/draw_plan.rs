use pmx_util::draw_plan::{face_indices, take_material_faces, texture_slot};
use pmx_util::pmx_types::{PMXFace, PMXFaces, PMXTextureList};

fn faces(n: u32) -> Vec<PMXFace> {
    (0..n).map(|i| PMXFace { vertices: [3 * i, 3 * i + 1, 3 * i + 2] }).collect()
}

#[test]
fn texture_slot_clamps_to_blank() {
    assert_eq!(texture_slot(0, 3), 0);
    assert_eq!(texture_slot(2, 3), 2);
    assert_eq!(texture_slot(3, 3), 3);
    assert_eq!(texture_slot(100, 3), 3);
    assert_eq!(texture_slot(-1, 3), 3);
    assert_eq!(texture_slot(i32::MIN, 0), 0);
}

#[test]
fn materials_take_their_faces_in_order() {
    let mut all = faces(5);
    let first = take_material_faces(&mut all, 6);
    assert_eq!(first.iter().map(|f| f.vertices).collect::<Vec<_>>(), vec![[0, 1, 2], [3, 4, 5]]);
    assert_eq!(all.len(), 3);
    let none = take_material_faces(&mut all, -2);
    assert!(none.is_empty());
    let second = take_material_faces(&mut all, 5);
    assert_eq!(second.len(), 1);
    assert_eq!(second[0].vertices, [6, 7, 8]);
    let rest = take_material_faces(&mut all, 7);
    assert_eq!(rest.len(), 2);
    assert!(all.is_empty());
}

#[test]
fn face_indices_flatten_triangles() {
    assert_eq!(face_indices(&faces(3)), (0..9).collect::<Vec<u32>>());
    assert!(face_indices(&Vec::new()).is_empty());
}

#[test]
fn face_text() {
    let f = PMXFace { vertices: [0, 12, 4294967295] };
    assert_eq!(f.to_string(), "Triangle:[0,12,4294967295]\n");
}

#[test]
fn faces_text() {
    let fs = PMXFaces { faces: faces(2) };
    assert_eq!(fs.to_string(), "Triangles:2\nTriangle:[0,1,2]\nTriangle:[3,4,5]\n");
    let empty = PMXFaces { faces: Vec::new() };
    assert_eq!(empty.to_string(), "Triangles:0\n");
}

#[test]
fn texture_list_text() {
    let list = PMXTextureList { textures: vec!["a.png".to_string(), "髪.bmp".to_string()] };
    assert_eq!(list.to_string(), "Textures:2\na.png\n髪.bmp\n");
    let empty = PMXTextureList { textures: Vec::new() };
    assert_eq!(empty.to_string(), "Textures:0\n");
}
