use fbx_scene::objects::geometry::mesh::layer_element::NoElement;
use fbx_scene::objects::geometry::mesh::polygon::split_polygons;
use fbx_scene::objects::geometry::mesh::triangulation::{
    gather, is_well_cut, triangulate_polygon_index,
};
use fbx_scene::objects::geometry::mesh::update_layer_elements;
use fbx_scene::objects::{LayerElement, MappingMode, Mesh, Objects, ReferenceMode, VertexIndex};
use fbx_scene::utils::triangulate_polygon;

fn point(x: f32, y: f32, z: f32) -> [u32; 3] {
    [x.to_bits(), y.to_bits(), z.to_bits()]
}

fn value(p: &[u32; 3]) -> [f32; 3] {
    [f32::from_bits(p[0]), f32::from_bits(p[1]), f32::from_bits(p[2])]
}

fn sub(a: [f32; 3], b: [f32; 3]) -> [f32; 3] {
    [a[0] - b[0], a[1] - b[1], a[2] - b[2]]
}

fn cross(a: [f32; 3], b: [f32; 3]) -> [f32; 3] {
    [a[1] * b[2] - a[2] * b[1], a[2] * b[0] - a[0] * b[2], a[0] * b[1] - a[1] * b[0]]
}

fn dot(a: [f32; 3], b: [f32; 3]) -> f32 {
    a[0] * b[0] + a[1] * b[1] + a[2] * b[2]
}

/// The triangulator that cuts a quadrangle by the normals at its second and fourth corner.
fn by_normals(vertices: &Vec<[u32; 3]>, corners: &Vec<u32>) -> Vec<u32> {
    let mut normals_agree = true;
    if corners.len() == 4 {
        let p0 = value(&vertices[corners[0] as usize]);
        let p1 = value(&vertices[corners[1] as usize]);
        let p2 = value(&vertices[corners[2] as usize]);
        let p3 = value(&vertices[corners[3] as usize]);
        let n1 = cross(sub(p0, p1), sub(p1, p2));
        let n3 = cross(sub(p2, p3), sub(p3, p0));
        normals_agree = dot(n1, n3) >= 0.0;
    }
    let mut target = Vec::new();
    triangulate_polygon(corners.len(), normals_agree, &mut target);
    target
}

fn normals(mapping_mode: MappingMode, reference_mode: ReferenceMode, data: Vec<[u32; 3]>) -> LayerElement<[u32; 3]> {
    LayerElement {
        channel: 0,
        name: "".to_owned(),
        mapping_mode: mapping_mode,
        reference_mode: reference_mode,
        data: Some(data),
    }
}

fn mesh(vertices: Vec<[u32; 3]>, index: Vec<i32>) -> Mesh {
    Mesh {
        id: 1,
        name: "mesh".to_owned(),
        vertices: vertices,
        polygon_vertex_index: VertexIndex::NotTriangulated(index),
        layer_element_materials: vec![],
        layer_element_normals: vec![],
        layer_element_uvs: vec![],
        layers: vec![],
    }
}

fn square() -> Vec<[u32; 3]> {
    vec![point(0.0, 0.0, 0.0), point(1.0, 0.0, 0.0), point(1.0, 1.0, 0.0), point(0.0, 1.0, 0.0)]
}

fn n(i: u32) -> [u32; 3] {
    [i, i + 100, i + 200]
}

#[test]
fn polygons_end_at_negative_entries() {
    let polygons = split_polygons(&vec![0, 1, -3, 5, 4, 3, -1, -8, 9, 9]);
    assert_eq!(polygons.len(), 3);
    assert_eq!((polygons[0].start, &polygons[0].corners), (0, &vec![0, 1, 2]));
    assert_eq!((polygons[1].start, &polygons[1].corners), (3, &vec![5, 4, 3, 0]));
    assert_eq!((polygons[2].start, &polygons[2].corners), (7, &vec![7]));
    assert!(split_polygons(&vec![]).is_empty());
    assert!(split_polygons(&vec![1, 2, 3]).is_empty());
    let last = split_polygons(&vec![i32::MIN]);
    assert_eq!(last[0].corners, vec![i32::MAX as u32]);
}

#[test]
fn reference_policy_cuts_triangles_and_quadrangles_only() {
    for (corners, agree, cut, count) in vec![
        (0, true, vec![], 0),
        (1, true, vec![], 0),
        (2, false, vec![], 0),
        (3, true, vec![0, 1, 2], 1),
        (3, false, vec![0, 1, 2], 1),
        (4, true, vec![0, 1, 2, 2, 3, 0], 2),
        (4, false, vec![0, 1, 3, 3, 1, 2], 2),
        (5, true, vec![], 0),
        (100, false, vec![], 0),
    ] {
        let mut target = vec![7];
        assert_eq!(triangulate_polygon(corners, agree, &mut target), count);
        let mut expected = vec![7];
        expected.extend(cut);
        assert_eq!(target, expected);
    }
}

#[test]
fn flat_square_is_cut_from_its_first_corner_to_its_third() {
    let mut mesh = mesh(square(), vec![0, 1, 2, -4]);
    assert!(mesh.triangulate(&by_normals).is_ok());
    assert_eq!(mesh.triangulated_index_list(), &vec![0, 1, 2, 2, 3, 0]);
    assert_eq!(mesh.vertices, square());
}

#[test]
fn quadrangle_with_a_concave_corner_is_cut_from_its_second_corner_to_its_fourth() {
    // The second corner lies inside the triangle of the other three.
    let vertices = vec![
        point(0.0, 0.0, 0.0), point(0.75, 0.75, 0.0), point(2.0, 0.0, 0.0), point(1.0, 2.0, 0.0),
    ];
    let mut mesh = mesh(vertices, vec![0, 1, 2, -4]);
    assert!(mesh.triangulate(&by_normals).is_ok());
    assert_eq!(mesh.triangulated_index_list(), &vec![0, 1, 3, 3, 1, 2]);
}

#[test]
fn normals_by_polygon_vertex_follow_the_corners() {
    let mut mesh = mesh(square(), vec![0, 1, 2, -4]);
    mesh.layer_element_normals.push(
        normals(MappingMode::ByPolygonVertex, ReferenceMode::Direct, vec![n(0), n(1), n(2), n(3)]));
    assert!(mesh.triangulate(&by_normals).is_ok());
    assert_eq!(
        mesh.layer_element_normals[0].data,
        Some(vec![n(0), n(1), n(2), n(2), n(3), n(0)]));
    assert!(!mesh.layer_element_normals[0].reference_mode.has_indices());
}

#[test]
fn triangulating_a_triangulated_mesh_changes_nothing() {
    let mut mesh = mesh(square(), vec![0, 1, 2, -4]);
    mesh.layer_element_normals.push(
        normals(MappingMode::ByPolygonVertex, ReferenceMode::Direct, vec![n(0), n(1), n(2), n(3)]));
    assert!(mesh.triangulate(&by_normals).is_ok());
    let index = mesh.triangulated_index_list().clone();
    let data = mesh.layer_element_normals[0].data.clone();
    assert!(mesh.triangulate(&by_normals).is_ok());
    assert!(mesh.triangulate(&|_: &Vec<[u32; 3]>, _: &Vec<u32>| vec![0, 0, 0]).is_ok());
    assert!(mesh.triangulate_with(&vec![vec![0, 1, 2]]).is_ok());
    assert_eq!(mesh.triangulated_index_list(), &index);
    assert_eq!(mesh.layer_element_normals[0].data, data);
    assert_eq!(mesh.vertices, square());
}

#[test]
fn several_polygons_are_cut_one_after_another() {
    // A triangle, a pentagon that is left out, a quadrangle, and entries that belong to no polygon.
    let index = vec![4, 5, -7, 0, 1, 2, 3, -5, 0, 1, 2, -4, 1, 2];
    let mut vertices = square();
    vertices.extend(vec![point(5.0, 0.0, 0.0), point(6.0, 0.0, 0.0), point(5.0, 1.0, 0.0)]);
    let polygons = split_polygons(&index);
    let cuts: Vec<Vec<u32>> = polygons.iter().map(|p| by_normals(&vertices, &p.corners)).collect();
    let info = triangulate_polygon_index(&index, &cuts).unwrap();
    assert_eq!(info.tri_vertex_index, vec![4, 5, 6, 0, 1, 2, 2, 3, 0]);
    assert_eq!(info.tri_pvi_to_src_pvi, vec![0, 1, 2, 8, 9, 10, 10, 11, 8]);
    assert_eq!(info.tri_poly_to_src_poly, vec![0, 2, 2]);

    let mut mesh = mesh(vertices, index);
    mesh.layer_element_normals.push(
        normals(MappingMode::ByPolygon, ReferenceMode::Direct, vec![n(10), n(11), n(12)]));
    mesh.layer_element_normals.push(normals(
        MappingMode::ByPolygonVertex,
        ReferenceMode::IndexToDirect(vec![0, 1, 2, 3, 4, 5, 6, 7, 0, 1, 2, 3]),
        vec![n(0), n(1), n(2), n(3), n(4), n(5), n(6), n(7)]));
    mesh.layer_element_normals.push(
        normals(MappingMode::ByControlPoint, ReferenceMode::Direct, vec![n(0), n(1)]));
    mesh.layer_element_normals.push(
        normals(MappingMode::ByPolygon, ReferenceMode::IndexToDirect(vec![2, 1, 0]), vec![n(0), n(1), n(2)]));
    mesh.layer_element_materials.push(LayerElement {
        channel: 0,
        name: "".to_owned(),
        mapping_mode: MappingMode::AllSame,
        reference_mode: ReferenceMode::IndexToDirect(vec![0]),
        data: None::<Vec<NoElement>>,
    });
    assert!(mesh.triangulate(&by_normals).is_ok());
    assert_eq!(mesh.triangulated_index_list(), &vec![4, 5, 6, 0, 1, 2, 2, 3, 0]);
    assert_eq!(mesh.layer_element_normals[0].data, Some(vec![n(10), n(12), n(12)]));
    assert!(matches!(
        &mesh.layer_element_normals[1].reference_mode,
        ReferenceMode::IndexToDirect(v) if *v == vec![0, 1, 2, 0, 1, 2, 2, 3, 0]));
    assert_eq!(mesh.layer_element_normals[1].data.as_ref().unwrap().len(), 8);
    assert_eq!(mesh.layer_element_normals[2].data, Some(vec![n(0), n(1)]));
    assert!(matches!(
        &mesh.layer_element_normals[3].reference_mode,
        ReferenceMode::IndexToDirect(v) if *v == vec![2, 0, 0]));
    assert_eq!(mesh.layer_element_normals[3].data, Some(vec![n(0), n(1), n(2)]));
    assert!(matches!(
        &mesh.layer_element_materials[0].reference_mode,
        ReferenceMode::IndexToDirect(v) if *v == vec![0]));
}

#[test]
fn answers_that_list_no_triangles_of_the_polygon_count_as_none() {
    let index = vec![0, 1, -3, 0, 1, 2, -4, 2, 3, -1];
    let cuts = vec![vec![0, 1, 3], vec![0, 1], vec![2, 1, 0, 0, 1, 2]];
    let info = triangulate_polygon_index(&index, &cuts).unwrap();
    assert_eq!(info.tri_vertex_index, vec![0, 3, 2, 2, 3, 0]);
    assert_eq!(info.tri_pvi_to_src_pvi, vec![9, 8, 7, 7, 8, 9]);
    assert_eq!(info.tri_poly_to_src_poly, vec![2, 2]);
    // Answers that are missing count as none, and answers to no polygon are not looked at.
    let info = triangulate_polygon_index(&index, &vec![vec![2, 2, 2]]).unwrap();
    assert_eq!(info.tri_vertex_index, vec![2, 2, 2]);
    let info = triangulate_polygon_index(&vec![0, 1, -3], &vec![vec![], vec![0, 0, 0]]).unwrap();
    assert!(info.tri_vertex_index.is_empty());
    assert!(is_well_cut(&vec![], 0));
    assert!(is_well_cut(&vec![2, 0, 1], 3));
    assert!(!is_well_cut(&vec![2, 0, 3], 3));
    assert!(!is_well_cut(&vec![0, 0, 0, 0], 3));
}

#[test]
fn element_that_does_not_reach_every_corner_stays() {
    let mut elements = vec![
        normals(MappingMode::ByPolygonVertex, ReferenceMode::Direct, vec![n(0), n(1), n(2)]),
        normals(MappingMode::ByPolygonVertex, ReferenceMode::Direct, vec![n(0), n(1), n(2), n(3)]),
        normals(MappingMode::ByPolygon, ReferenceMode::IndexToDirect(vec![]), vec![n(0)]),
        normals(MappingMode::Undetermined, ReferenceMode::Direct, vec![n(5)]),
        normals(MappingMode::ByEdge, ReferenceMode::Direct, vec![n(6)]),
    ];
    elements.push(LayerElement {
        channel: 1,
        name: "bare".to_owned(),
        mapping_mode: MappingMode::ByPolygonVertex,
        reference_mode: ReferenceMode::Direct,
        data: None,
    });
    update_layer_elements(&mut elements, &vec![0, 1, 2, 2, 3, 0], &vec![0, 0]);
    assert_eq!(elements[0].data, Some(vec![n(0), n(1), n(2)]));
    assert_eq!(elements[1].data, Some(vec![n(0), n(1), n(2), n(2), n(3), n(0)]));
    assert!(matches!(&elements[2].reference_mode, ReferenceMode::IndexToDirect(v) if v.is_empty()));
    assert_eq!(elements[3].data, Some(vec![n(5)]));
    assert_eq!(elements[4].data, Some(vec![n(6)]));
    assert_eq!(elements[5].data, None);
    assert_eq!(elements[5].name, "bare");
    assert_eq!(gather(&vec![10, 20, 30], &vec![2, 2, 0]), Some(vec![30, 30, 10]));
    assert_eq!(gather(&vec![10, 20, 30], &vec![0, 3]), None);
    assert_eq!(gather(&vec![10], &vec![]), Some(vec![]));
}

#[test]
fn every_mesh_of_the_objects_is_triangulated() {
    let mut objects: Objects<u8> = Objects::new();
    for id in 0..50 {
        let mut m = mesh(square(), vec![0, 1, 2, -4, 1, 2, -4]);
        m.id = id * 3;
        objects.add_geometry_mesh(m);
    }
    let mut replaced = mesh(square(), vec![0, 1, -3]);
    replaced.id = 6;
    objects.add_geometry_mesh(replaced);
    assert_eq!(objects.geometry_meshes.len(), 50);
    assert!(objects.mesh(6).is_some());
    assert!(objects.mesh(7).is_none());
    assert!(objects.triangulate(&by_normals).is_ok());
    assert_eq!(objects.geometry_meshes.len(), 50);
    for id in 0..50 {
        let m = objects.mesh(id * 3).unwrap();
        assert_eq!(m.id, id * 3);
        if id == 2 {
            assert_eq!(m.triangulated_index_list(), &vec![0, 1, 2]);
        } else {
            assert_eq!(m.triangulated_index_list(), &vec![0, 1, 2, 2, 3, 0, 1, 2, 3]);
        }
    }
    assert!(objects.unknown.is_empty());
}
