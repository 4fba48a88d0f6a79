//! Triangulating the polygons of a mesh, and moving what its layer elements
//! hold to the triangles.

use vstd::prelude::*;
use crate::error::{Error, Result};
use crate::utils::{view_of, views};
use super::layer_element::{Element, LayerElement, MappingMode, Reference, ReferenceMode};
use super::polygon::{faces_lie_within, faces_of, split_polygons, Face, Polygon};
use super::{Mesh, MeshView, PolygonIndex, VertexIndex};

verus! {

/// The triangles of a mesh, and where each of them comes from.
#[derive(Debug)]
pub struct TriangulationInfo {
    /// The corners of the triangles, as indices of vertices, three to a triangle.
    pub tri_vertex_index: Vec<u32>,
    /// For each corner of a triangle, where it stood in the polygon vertex index.
    pub tri_pvi_to_src_pvi: Vec<u32>,
    /// For each triangle, the number of the polygon that it was cut from.
    pub tri_poly_to_src_poly: Vec<u32>,
}

/// The triangles of a mesh, as a mathematical value.
pub ghost struct Triangulation {
    pub tri_vertex_index: Seq<u32>,
    pub tri_pvi_to_src_pvi: Seq<u32>,
    pub tri_poly_to_src_poly: Seq<u32>,
}

impl View for TriangulationInfo {
    type V = Triangulation;

    open spec fn view(&self) -> Triangulation {
        Triangulation {
            tri_vertex_index: self.tri_vertex_index@,
            tri_pvi_to_src_pvi: self.tri_pvi_to_src_pvi@,
            tri_poly_to_src_poly: self.tri_poly_to_src_poly@,
        }
    }
}

/// Whether `cut` lists triangles of a polygon with so many corners: three
/// entries to a triangle, each the number of a corner.
pub open spec fn well_cut(cut: Seq<u32>, corners: nat) -> bool {
    &&& cut.len() % 3 == 0
    &&& forall|i: int| 0 <= i < cut.len() ==> cut[i] < corners
}

/// The triangles that polygon `k` is cut into: what `cuts` lists for it. A
/// list that is missing, or that does not list triangles of the polygon,
/// counts as no triangles.
pub open spec fn cut_for(cuts: Seq<Seq<u32>>, k: int, corners: nat) -> Seq<u32> {
    if 0 <= k < cuts.len() && well_cut(cuts[k], corners) {
        cuts[k]
    } else {
        Seq::empty()
    }
}

/// The corners of the triangles of one polygon, as indices of vertices.
pub open spec fn cut_vertices(face: Face, cut: Seq<u32>) -> Seq<u32> {
    cut.map_values(|corner: u32| face.corners[corner as int])
}

/// Where the corners of the triangles of one polygon stood in the polygon
/// vertex index.
pub open spec fn cut_sources(face: Face, cut: Seq<u32>) -> Seq<u32> {
    cut.map_values(|corner: u32| (face.start + corner) as u32)
}

/// The number of a polygon, once for each of its triangles.
pub open spec fn cut_polygons(number: int, cut: Seq<u32>) -> Seq<u32> {
    Seq::new(cut.len() / 3, |i: int| number as u32)
}

/// The triangles of the first `n` polygons, polygon after polygon.
pub open spec fn triangles_of(faces: Seq<Face>, cuts: Seq<Seq<u32>>, n: nat) -> Triangulation
    decreases n,
{
    if n == 0 {
        Triangulation {
            tri_vertex_index: Seq::empty(),
            tri_pvi_to_src_pvi: Seq::empty(),
            tri_poly_to_src_poly: Seq::empty(),
        }
    } else {
        let before = triangles_of(faces, cuts, (n - 1) as nat);
        let face = faces[n - 1];
        let cut = cut_for(cuts, n - 1, face.corners.len());
        Triangulation {
            tri_vertex_index: before.tri_vertex_index + cut_vertices(face, cut),
            tri_pvi_to_src_pvi: before.tri_pvi_to_src_pvi + cut_sources(face, cut),
            tri_poly_to_src_poly: before.tri_poly_to_src_poly + cut_polygons(n - 1, cut),
        }
    }
}

/// The triangles of a polygon vertex index, each polygon cut as `cuts` says.
///
/// There are none, which is a critical error, where the index has more
/// entries or the triangles have more corners than 32 bits can count.
pub open spec fn triangulation_of(index: Seq<i32>, cuts: Seq<Seq<u32>>) -> Option<Triangulation> {
    let all = triangles_of(faces_of(index), cuts, faces_of(index).len());
    if index.len() > u32::MAX || all.tri_vertex_index.len() > u32::MAX {
        None
    } else {
        Some(all)
    }
}

/// More polygons have no fewer corners of triangles.
proof fn triangles_grow(faces: Seq<Face>, cuts: Seq<Seq<u32>>, n: nat, m: nat)
    requires
        n <= m,
    ensures
        triangles_of(faces, cuts, n).tri_vertex_index.len() <= triangles_of(
            faces,
            cuts,
            m,
        ).tri_vertex_index.len(),
    decreases m,
{
    if n < m {
        triangles_grow(faces, cuts, n, (m - 1) as nat);
    }
}

/// Whether a list lists triangles of a polygon with so many corners.
pub fn is_well_cut(cut: &Vec<u32>, corners: usize) -> (r: bool)
    ensures
        r == well_cut(cut@, corners as nat),
{
    if cut.len() % 3 != 0 {
        return false;
    }
    let mut i: usize = 0;
    while i < cut.len()
        invariant
            i <= cut.len(),
            forall|j: int| 0 <= j < i ==> cut@[j] < corners,
        decreases cut.len() - i,
    {
        if cut[i] as usize >= corners {
            return false;
        }
        i = i + 1;
    }
    true
}

/// Whether an error is that of a mesh that is too large to triangulate: an
/// unclassified critical error that says so.
pub open spec fn is_too_many_triangles(e: Error) -> bool {
    e matches Error::UnclassifiedCritical(msg) && msg@
        == "Too many triangles in mesh: over u32::MAX vertex indices"@
}

/// The error of a mesh that is too large to triangulate.
fn too_many_triangles() -> (e: Error)
    ensures
        is_too_many_triangles(e),
{
    Error::UnclassifiedCritical("Too many triangles in mesh: over u32::MAX vertex indices".to_owned())
}

/// Triangulates a polygon vertex index, cutting the polygons as `cuts` says.
///
/// The polygons are taken one after another. The corners of the triangles
/// of each are added to the list of triangles, and with them where each
/// corner stood in the index and which polygon each triangle was cut from.
pub fn triangulate_polygon_index(index: &Vec<i32>, cuts: &Vec<Vec<u32>>) -> (r: Result<
    TriangulationInfo,
>)
    ensures
        match triangulation_of(index@, views(cuts@)) {
            Some(all) => r is Ok && r->Ok_0@ == all,
            None => r is Err && r->Err_0 is UnclassifiedCritical,
        },
{
    if index.len() > u32::MAX as usize {
        return Err(too_many_triangles());
    }
    let polygons = split_polygons(index);
    let ghost faces = faces_of(index@);
    let ghost lists = views(cuts@);
    proof {
        faces_lie_within(index@, 0);
    }
    let mut tri_vertex_index: Vec<u32> = Vec::new();
    let mut tri_pvi_to_src_pvi: Vec<u32> = Vec::new();
    let mut tri_poly_to_src_poly: Vec<u32> = Vec::new();
    let mut k: usize = 0;
    while k < polygons.len()
        invariant
            k <= polygons.len(),
            views(polygons@) == faces,
            faces == faces_of(index@),
            lists == views(cuts@),
            index@.len() <= u32::MAX,
            faces.len() <= index@.len(),
            forall|j: int|
                0 <= j < faces.len() ==> (#[trigger] faces[j]).start >= 0 && faces[j].start
                    + faces[j].corners.len() <= index@.len(),
            tri_vertex_index@ == triangles_of(faces, lists, k as nat).tri_vertex_index,
            tri_pvi_to_src_pvi@ == triangles_of(faces, lists, k as nat).tri_pvi_to_src_pvi,
            tri_poly_to_src_poly@ == triangles_of(faces, lists, k as nat).tri_poly_to_src_poly,
            tri_vertex_index@.len() <= u32::MAX,
        decreases polygons.len() - k,
    {
        let polygon = &polygons[k];
        let ghost face = faces[k as int];
        assert(polygon@ == face);
        let ghost before = triangles_of(faces, lists, k as nat);
        if k < cuts.len() && is_well_cut(&cuts[k], polygon.corners.len()) {
            let cut = &cuts[k];
            assert(cut@ == lists[k as int]);
            assert(cut_for(lists, k as int, face.corners.len()) == cut@);
            if cut.len() > u32::MAX as usize - tri_vertex_index.len() {
                proof {
                    triangles_grow(faces, lists, (k + 1) as nat, faces.len());
                }
                return Err(too_many_triangles());
            }
            let mut j: usize = 0;
            while j < cut.len()
                invariant
                    j <= cut.len(),
                    well_cut(cut@, face.corners.len()),
                    polygon@ == face,
                    face.start >= 0,
                    face.start + face.corners.len() <= index@.len(),
                    index@.len() <= u32::MAX,
                    tri_vertex_index@ == before.tri_vertex_index + cut_vertices(face, cut@.take(j as int)),
                    tri_pvi_to_src_pvi@ == before.tri_pvi_to_src_pvi + cut_sources(
                        face,
                        cut@.take(j as int),
                    ),
                decreases cut.len() - j,
            {
                let corner = cut[j];
                tri_vertex_index.push(polygon.corners[corner as usize]);
                tri_pvi_to_src_pvi.push((polygon.start + corner as usize) as u32);
                proof {
                    let next = cut@.take(j + 1);
                    assert(next =~= cut@.take(j as int).push(corner));
                    assert(cut_vertices(face, next) =~= cut_vertices(face, cut@.take(j as int)).push(
                        face.corners[corner as int],
                    ));
                    assert(cut_sources(face, next) =~= cut_sources(face, cut@.take(j as int)).push(
                        (face.start + corner) as u32,
                    ));
                    assert(before.tri_vertex_index + cut_vertices(face, next) =~= (
                    before.tri_vertex_index + cut_vertices(face, cut@.take(j as int))).push(
                        face.corners[corner as int],
                    ));
                    assert(before.tri_pvi_to_src_pvi + cut_sources(face, next) =~= (
                    before.tri_pvi_to_src_pvi + cut_sources(face, cut@.take(j as int))).push(
                        (face.start + corner) as u32,
                    ));
                }
                j = j + 1;
            }
            proof {
                assert(cut@.take(cut.len() as int) =~= cut@);
            }
            let count = cut.len() / 3;
            let mut t: usize = 0;
            while t < count
                invariant
                    t <= count,
                    count == cut@.len() / 3,
                    k <= u32::MAX,
                    tri_poly_to_src_poly@ == before.tri_poly_to_src_poly + Seq::new(
                        t as nat,
                        |i: int| k as u32,
                    ),
                decreases count - t,
            {
                tri_poly_to_src_poly.push(k as u32);
                proof {
                    assert(before.tri_poly_to_src_poly + Seq::new((t + 1) as nat, |i: int| k as u32)
                        =~= (before.tri_poly_to_src_poly + Seq::new(t as nat, |i: int| k as u32)).push(
                        k as u32,
                    ));
                }
                t = t + 1;
            }
            proof {
                assert(Seq::new(count as nat, |i: int| k as u32) =~= cut_polygons(k as int, cut@));
            }
        } else {
            proof {
                let none = cut_for(lists, k as int, face.corners.len());
                assert(none =~= Seq::empty());
                assert(before.tri_vertex_index + cut_vertices(face, none) =~= before.tri_vertex_index);
                assert(before.tri_pvi_to_src_pvi + cut_sources(face, none)
                    =~= before.tri_pvi_to_src_pvi);
                assert(before.tri_poly_to_src_poly + cut_polygons(k as int, none)
                    =~= before.tri_poly_to_src_poly);
            }
        }
        k = k + 1;
    }
    Ok(
        TriangulationInfo {
            tri_vertex_index: tri_vertex_index,
            tri_pvi_to_src_pvi: tri_pvi_to_src_pvi,
            tri_poly_to_src_poly: tri_poly_to_src_poly,
        },
    )
}

/// The values of `source` at the places that `picks` lists, in that order.
/// There are none where a place lies outside `source`.
pub open spec fn gathered<T>(source: Seq<T>, picks: Seq<u32>) -> Option<Seq<T>> {
    if forall|i: int| 0 <= i < picks.len() ==> picks[i] < source.len() {
        Some(picks.map_values(|place: u32| source[place as int]))
    } else {
        None
    }
}

/// The values of `source` at the places that `picks` lists, in that order.
pub fn gather<T: Copy>(source: &Vec<T>, picks: &Vec<u32>) -> (r: Option<Vec<T>>)
    ensures
        view_of(r) == gathered(source@, picks@),
{
    let mut out: Vec<T> = Vec::with_capacity(picks.len());
    let mut i: usize = 0;
    while i < picks.len()
        invariant
            i <= picks.len(),
            forall|j: int| 0 <= j < i ==> picks@[j] < source@.len(),
            out@ == picks@.take(i as int).map_values(|place: u32| source@[place as int]),
        decreases picks.len() - i,
    {
        let place = picks[i] as usize;
        if place >= source.len() {
            return None;
        }
        out.push(source[place]);
        proof {
            assert(picks@.take(i + 1).map_values(|place: u32| source@[place as int]) =~= picks@.take(
                i as int,
            ).map_values(|place: u32| source@[place as int]).push(source@[place as int]));
        }
        i = i + 1;
    }
    proof {
        assert(picks@.take(picks.len() as int) =~= picks@);
    }
    Some(out)
}

/// The list that says, for each place after triangulation, which place
/// before it takes its value from: for values by polygon vertex that of the
/// corners, for values by polygon that of the triangles, for any other
/// mapping mode none, as such values do not move.
pub open spec fn picks_for(mode: MappingMode, corners: Seq<u32>, triangles: Seq<u32>) -> Option<Seq<u32>> {
    match mode {
        MappingMode::ByPolygonVertex => Some(corners),
        MappingMode::ByPolygon => Some(triangles),
        _ => None,
    }
}

/// A layer element after triangulation.
///
/// Values by control point, by edge, for the whole mesh or of undetermined
/// mapping stay. Values by polygon vertex or by polygon are gathered from
/// where the triangles come from: the data where the reference is direct,
/// the indices where it is indexed. An element whose data or indices do not
/// reach every such place stays as it is.
pub open spec fn remapped<T>(element: Element<T>, corners: Seq<u32>, triangles: Seq<u32>) -> Element<T> {
    match picks_for(element.mapping_mode, corners, triangles) {
        None => element,
        Some(picks) => match element.reference_mode {
            Reference::Direct => match element.data {
                Some(data) => match gathered(data, picks) {
                    Some(moved) => Element { data: Some(moved), ..element },
                    None => element,
                },
                None => element,
            },
            Reference::IndexToDirect(indices) => match gathered(indices, picks) {
                Some(moved) => Element { reference_mode: Reference::IndexToDirect(moved), ..element },
                None => element,
            },
        },
    }
}

/// All layer elements of a list after triangulation.
pub open spec fn all_remapped<T>(elements: Seq<Element<T>>, corners: Seq<u32>, triangles: Seq<u32>) -> Seq<
    Element<T>,
> {
    elements.map_values(|e: Element<T>| remapped(e, corners, triangles))
}

/// Moves the values of one layer element to the triangles.
fn update_layer_element<T: Copy>(
    le: &mut LayerElement<T>,
    tri_pvi_to_src_pvi: &Vec<u32>,
    tri_poly_to_src_poly: &Vec<u32>,
)
    ensures
        final(le)@ == remapped(old(le)@, tri_pvi_to_src_pvi@, tri_poly_to_src_poly@),
{
    let picks = match le.mapping_mode {
        MappingMode::ByPolygonVertex => tri_pvi_to_src_pvi,
        MappingMode::ByPolygon => tri_poly_to_src_poly,
        // Control points do not change, edges are not supported, and what
        // holds for the whole mesh, or for nobody knows what, stays.
        _ => {
            return ;
        },
    };
    match &le.reference_mode {
        ReferenceMode::Direct => {
            let moved = match &le.data {
                Some(data) => gather(data, picks),
                None => None,
            };
            match moved {
                Some(moved) => {
                    le.data = Some(moved);
                },
                None => {},
            }
        },
        ReferenceMode::IndexToDirect(indices) => {
            match gather(indices, picks) {
                Some(moved) => {
                    le.reference_mode = ReferenceMode::IndexToDirect(moved);
                },
                None => {},
            }
        },
    }
}

/// Moves the values of layer elements to the triangles, as `remapped` says.
pub fn update_layer_elements<T: Copy>(
    layer_elements: &mut Vec<LayerElement<T>>,
    tri_pvi_to_src_pvi: &Vec<u32>,
    tri_poly_to_src_poly: &Vec<u32>,
)
    ensures
        views(final(layer_elements)@) == all_remapped(
            views(old(layer_elements)@),
            tri_pvi_to_src_pvi@,
            tri_poly_to_src_poly@,
        ),
{
    let ghost before = views(layer_elements@);
    let mut i: usize = 0;
    while i < layer_elements.len()
        invariant
            i <= layer_elements.len(),
            layer_elements.len() == before.len(),
            before == views(old(layer_elements)@),
            forall|j: int|
                0 <= j < i ==> (#[trigger] layer_elements@[j])@ == remapped(
                    before[j],
                    tri_pvi_to_src_pvi@,
                    tri_poly_to_src_poly@,
                ),
            forall|j: int| i <= j < before.len() ==> (#[trigger] layer_elements@[j])@ == before[j],
        decreases layer_elements.len() - i,
    {
        update_layer_element(&mut layer_elements[i], tri_pvi_to_src_pvi, tri_poly_to_src_poly);
        i = i + 1;
    }
    proof {
        assert(views(layer_elements@) =~= all_remapped(
            before,
            tri_pvi_to_src_pvi@,
            tri_poly_to_src_poly@,
        ));
    }
}

/// A mesh after triangulation, each polygon cut as `cuts` says.
///
/// A mesh that is triangulated already stays as it is. Else the polygons
/// become the triangles of `triangulation_of` and every layer element is
/// moved to them; vertices and layers stay. There is no mesh, which is a
/// critical error, where `triangulation_of` has no triangles.
pub open spec fn triangulated(mesh: MeshView, cuts: Seq<Seq<u32>>) -> Option<MeshView> {
    match mesh.polygon_vertex_index {
        PolygonIndex::Triangulated(_) => Some(mesh),
        PolygonIndex::NotTriangulated(index) => match triangulation_of(index, cuts) {
            Some(all) => Some(
                MeshView {
                    polygon_vertex_index: PolygonIndex::Triangulated(all.tri_vertex_index),
                    layer_element_materials: all_remapped(
                        mesh.layer_element_materials,
                        all.tri_pvi_to_src_pvi,
                        all.tri_poly_to_src_poly,
                    ),
                    layer_element_normals: all_remapped(
                        mesh.layer_element_normals,
                        all.tri_pvi_to_src_pvi,
                        all.tri_poly_to_src_poly,
                    ),
                    layer_element_uvs: all_remapped(
                        mesh.layer_element_uvs,
                        all.tri_pvi_to_src_pvi,
                        all.tri_poly_to_src_poly,
                    ),
                    ..mesh
                },
            ),
            None => None,
        },
    }
}

/// Triangulating a mesh that is triangulated already changes nothing,
/// whatever the cuts.
pub proof fn triangulating_twice_is_once(mesh: MeshView, cuts: Seq<Seq<u32>>, again: Seq<Seq<u32>>)
    requires
        triangulated(mesh, cuts) is Some,
    ensures
        triangulated(triangulated(mesh, cuts)->0, again) == triangulated(mesh, cuts),
{
}

/// Whether `answers` are what the triangulator gave for the polygons, one
/// answer for each polygon.
pub open spec fn answered<F: Fn(&Vec<[u32; 3]>, &Vec<u32>) -> Vec<u32>>(
    triangulator: F,
    vertices: Vec<[u32; 3]>,
    polygons: Seq<Polygon>,
    answers: Seq<Vec<u32>>,
) -> bool {
    &&& answers.len() == polygons.len()
    &&& forall|k: int|
        0 <= k < polygons.len() ==> call_ensures(
            triangulator,
            (&vertices, &polygons[k].corners),
            #[trigger] answers[k],
        )
}

/// Whether the triangulator can be asked about any polygon.
pub open spec fn callable<F: Fn(&Vec<[u32; 3]>, &Vec<u32>) -> Vec<u32>>(triangulator: F) -> bool {
    forall|vertices: &Vec<[u32; 3]>, corners: &Vec<u32>|
        call_requires(triangulator, (vertices, corners))
}

/// Whether `answers` are what the triangulator gave for the polygons of a
/// mesh that is not triangulated, asked with the vertices of the mesh.
pub open spec fn answered_for<F: Fn(&Vec<[u32; 3]>, &Vec<u32>) -> Vec<u32>>(
    triangulator: F,
    mesh: Mesh,
    polygons: Seq<Polygon>,
    answers: Seq<Vec<u32>>,
) -> bool {
    &&& mesh.polygon_vertex_index matches VertexIndex::NotTriangulated(index) && views(polygons)
        == faces_of(index@)
    &&& answered(triangulator, mesh.vertices, polygons, answers)
}

/// Whether `after` is the mesh `before` triangulated by the triangulator: a
/// mesh that was triangulated already is the same, and any other mesh is cut
/// as the triangulator answered when asked for each of its polygons.
pub open spec fn triangulated_by<F: Fn(&Vec<[u32; 3]>, &Vec<u32>) -> Vec<u32>>(
    triangulator: F,
    before: Mesh,
    after: MeshView,
) -> bool {
    if before.polygon_vertex_index is Triangulated {
        after == before@
    } else {
        exists|polygons: Seq<Polygon>, answers: Seq<Vec<u32>>|
            answered_for(triangulator, before, polygons, answers) && triangulated(
                before@,
                views(answers),
            ) == Some(after)
    }
}

/// Whether the mesh is too large for the triangulator: it is not
/// triangulated, and cut as the triangulator answered when asked for each of
/// its polygons, its index or its triangles are more than 32 bits can count.
pub open spec fn too_large_for<F: Fn(&Vec<[u32; 3]>, &Vec<u32>) -> Vec<u32>>(
    triangulator: F,
    mesh: Mesh,
) -> bool {
    exists|polygons: Seq<Polygon>, answers: Seq<Vec<u32>>|
        answered_for(triangulator, mesh, polygons, answers) && triangulated(
            mesh@,
            views(answers),
        ) is None
}

impl Mesh {
    /// Triangulates all polygons in the mesh, cutting them as `cuts` says:
    /// for each polygon a list of triangles, three corners each, a corner
    /// being the number of a corner of the polygon.
    ///
    /// This modifies the polygons and the layer elements, but not the
    /// vertices. On a mesh that is triangulated already it does nothing. On
    /// an error the mesh stays as it is.
    pub fn triangulate_with(&mut self, cuts: &Vec<Vec<u32>>) -> (r: Result<()>)
        ensures
            old(self).polygon_vertex_index is Triangulated ==> r is Ok && *final(self) == *old(self),
            match triangulated(old(self)@, views(cuts@)) {
                Some(mesh) => r is Ok && final(self)@ == mesh,
                None => r is Err && r->Err_0 is UnclassifiedCritical && *final(self) == *old(self),
            },
    {
        let result = match &self.polygon_vertex_index {
            VertexIndex::NotTriangulated(index) => triangulate_polygon_index(index, cuts),
            VertexIndex::Triangulated(_) => {
                return Ok(());
            },
        };
        match result {
            Ok(info) => {
                self.apply_triangulation_to_layer_elements(
                    &info.tri_pvi_to_src_pvi,
                    &info.tri_poly_to_src_poly,
                );
                self.polygon_vertex_index = VertexIndex::Triangulated(info.tri_vertex_index);
                Ok(())
            },
            Err(e) => Err(e),
        }
    }

    /// Triangulates all polygons in the mesh with the given triangulation
    /// function, which is asked once for each polygon, in their order, with
    /// the vertices of the mesh and the corners of the polygon, and answers
    /// with a list of triangles as `triangulate_with` takes them.
    pub fn triangulate<F: Fn(&Vec<[u32; 3]>, &Vec<u32>) -> Vec<u32>>(&mut self, triangulator: &F) -> (r:
        Result<()>)
        requires
            callable(*triangulator),
        ensures
            old(self).polygon_vertex_index is Triangulated ==> r is Ok && *final(self) == *old(self),
            r is Ok ==> triangulated_by(*triangulator, *old(self), final(self)@),
            r is Err ==> r->Err_0 is UnclassifiedCritical && *final(self) == *old(self)
                && too_large_for(*triangulator, *old(self)),
    {
        let polygons = match &self.polygon_vertex_index {
            VertexIndex::NotTriangulated(index) => split_polygons(index),
            VertexIndex::Triangulated(_) => {
                return Ok(());
            },
        };
        let mut cuts: Vec<Vec<u32>> = Vec::new();
        let mut k: usize = 0;
        while k < polygons.len()
            invariant
                k <= polygons.len(),
                cuts@.len() == k,
                *self == *old(self),
                callable(*triangulator),
                forall|j: int|
                    0 <= j < k ==> call_ensures(
                        *triangulator,
                        (&self.vertices, &polygons@[j].corners),
                        #[trigger] cuts@[j],
                    ),
            decreases polygons.len() - k,
        {
            let answer = triangulator(&self.vertices, &polygons[k].corners);
            cuts.push(answer);
            k = k + 1;
        }
        let r = self.triangulate_with(&cuts);
        proof {
            assert(answered(*triangulator, old(self).vertices, polygons@, cuts@));
            assert(answered_for(*triangulator, *old(self), polygons@, cuts@));
        }
        r
    }

    fn apply_triangulation_to_layer_elements(
        &mut self,
        tri_pvi_to_src_pvi: &Vec<u32>,
        tri_poly_to_src_poly: &Vec<u32>,
    )
        ensures
            final(self)@ == (MeshView {
                layer_element_materials: all_remapped(
                    old(self)@.layer_element_materials,
                    tri_pvi_to_src_pvi@,
                    tri_poly_to_src_poly@,
                ),
                layer_element_normals: all_remapped(
                    old(self)@.layer_element_normals,
                    tri_pvi_to_src_pvi@,
                    tri_poly_to_src_poly@,
                ),
                layer_element_uvs: all_remapped(
                    old(self)@.layer_element_uvs,
                    tri_pvi_to_src_pvi@,
                    tri_poly_to_src_poly@,
                ),
                ..old(self)@
            }),
    {
        update_layer_elements(
            &mut self.layer_element_materials,
            tri_pvi_to_src_pvi,
            tri_poly_to_src_poly,
        );
        update_layer_elements(&mut self.layer_element_normals, tri_pvi_to_src_pvi, tri_poly_to_src_poly);
        update_layer_elements(&mut self.layer_element_uvs, tri_pvi_to_src_pvi, tri_poly_to_src_poly);
    }

    /// Returns the corners of the triangles of a triangulated mesh, as
    /// indices of vertices.
    ///
    /// This function is for a mesh that `triangulate` has been called on.
    pub fn triangulated_index_list(&self) -> (r: &Vec<u32>)
        requires
            self.polygon_vertex_index is Triangulated,
        ensures
            self@.polygon_vertex_index == PolygonIndex::Triangulated(r@),
    {
        match &self.polygon_vertex_index {
            VertexIndex::Triangulated(pvi) => pvi,
            VertexIndex::NotTriangulated(_) => vstd::pervasive::unreached(),
        }
    }
}

} // verus!
