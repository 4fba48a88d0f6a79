//! Contains `/Objects/Geometry(Mesh)` node-related stuff.

use vstd::prelude::*;
use crate::definitions::Definitions;
use crate::error::{Error, Result};
use crate::event::{first_int32s, first_vec_i32, EventReader, FbxEvent, Property};
use crate::node_loader::{
    cells_at, children, ignore_current_node, loader_ends_with_its_node, name_at, skipped, NodeLoad,
    NodeLoader, NodeLoaderCommon, RawNodeInfo,
};
use crate::objects::properties::{Identity, ObjectProperties};
use crate::text::same_text;
use crate::utils::{copy_of, view_of, views, views_of_push};

pub mod layer;
pub mod layer_element;
pub mod polygon;
pub mod triangulation;

pub use self::layer::Layer;
pub use self::layer_element::{LayerElement, MappingMode, ReferenceMode};
pub use self::triangulation::update_layer_elements;
use self::layer::{layer_start_of, LayerLoader, LayerView};
use self::layer_element::{
    element_of, element_start_of, first_points, first_points_of, Element, LayerElementLoader,
    LoadAsLayerElementElement, NoElement,
};

verus! {

/// The polygons of a mesh, as indices into its vertices.
#[derive(Debug, Clone)]
pub enum VertexIndex {
    /// Polygons of any size, one after another; the last index of each is
    /// written as its one's complement, which is negative.
    NotTriangulated(Vec<i32>),
    /// Triangles: three indices each.
    Triangulated(Vec<u32>),
}

/// The polygons of a mesh, as a mathematical value.
pub ghost enum PolygonIndex {
    NotTriangulated(Seq<i32>),
    Triangulated(Seq<u32>),
}

impl View for VertexIndex {
    type V = PolygonIndex;

    open spec fn view(&self) -> PolygonIndex {
        match self {
            VertexIndex::NotTriangulated(v) => PolygonIndex::NotTriangulated(v@),
            VertexIndex::Triangulated(v) => PolygonIndex::Triangulated(v@),
        }
    }
}

/// A mesh. Vertices, normals and texture coordinates are single precision
/// numbers by their bit patterns.
#[derive(Debug, Clone)]
pub struct Mesh {
    pub id: i64,
    pub name: String,
    pub vertices: Vec<[u32; 3]>,
    pub polygon_vertex_index: VertexIndex,
    pub layer_element_materials: Vec<LayerElement<NoElement>>,
    pub layer_element_normals: Vec<LayerElement<[u32; 3]>>,
    pub layer_element_uvs: Vec<LayerElement<[u32; 2]>>,
    pub layers: Vec<Layer>,
}

/// A mesh, as a mathematical value.
pub ghost struct MeshView {
    pub id: i64,
    pub name: Seq<char>,
    pub vertices: Seq<[u32; 3]>,
    pub polygon_vertex_index: PolygonIndex,
    pub layer_element_materials: Seq<Element<NoElement>>,
    pub layer_element_normals: Seq<Element<[u32; 3]>>,
    pub layer_element_uvs: Seq<Element<[u32; 2]>>,
    pub layers: Seq<LayerView>,
}

impl View for Mesh {
    type V = MeshView;

    open spec fn view(&self) -> MeshView {
        MeshView {
            id: self.id,
            name: self.name@,
            vertices: self.vertices@,
            polygon_vertex_index: self.polygon_vertex_index@,
            layer_element_materials: views(self.layer_element_materials@),
            layer_element_normals: views(self.layer_element_normals@),
            layer_element_uvs: views(self.layer_element_uvs@),
            layers: views(self.layers@),
        }
    }
}

#[derive(Debug)]
pub struct MeshLoader<'a> {
    obj_props: &'a ObjectProperties<'a>,
    vertices: Option<Vec<[u32; 3]>>,
    polygon_vertex_index: Option<Vec<i32>>,
    layer_element_materials: Vec<LayerElement<NoElement>>,
    layer_element_normals: Vec<LayerElement<[u32; 3]>>,
    layer_element_uvs: Vec<LayerElement<[u32; 2]>>,
    layers: Vec<Layer>,
}

/// What a mesh loader holds, as a mathematical value.
pub ghost struct MeshState {
    pub identity: Identity,
    pub vertices: Option<Seq<[u32; 3]>>,
    pub polygon_vertex_index: Option<Seq<i32>>,
    pub layer_element_materials: Seq<Element<NoElement>>,
    pub layer_element_normals: Seq<Element<[u32; 3]>>,
    pub layer_element_uvs: Seq<Element<[u32; 2]>>,
    pub layers: Seq<LayerView>,
}

/// The state that a mesh loader begins with.
pub open spec fn mesh_start(identity: Identity) -> MeshState {
    MeshState {
        identity,
        vertices: None,
        polygon_vertex_index: None,
        layer_element_materials: Seq::empty(),
        layer_element_normals: Seq::empty(),
        layer_element_uvs: Seq::empty(),
        layers: Seq::empty(),
    }
}

/// The mesh that a state makes: none without vertices or polygons. The
/// polygons are not triangulated.
pub open spec fn mesh_of(state: MeshState) -> Option<MeshView> {
    if state.vertices is Some && state.polygon_vertex_index is Some {
        Some(
            MeshView {
                id: state.identity.id,
                name: state.identity.name,
                vertices: state.vertices->0,
                polygon_vertex_index: PolygonIndex::NotTriangulated(state.polygon_vertex_index->0),
                layer_element_materials: state.layer_element_materials,
                layer_element_normals: state.layer_element_normals,
                layer_element_uvs: state.layer_element_uvs,
                layers: state.layers,
            },
        )
    } else {
        None
    }
}

/// The layer element that the node whose children begin at `pos` holds, if
/// it is complete, and where the node ends. Without a channel in the cells
/// of the node there is no element, and the node is skipped.
pub open spec fn element_at<T: LoadAsLayerElementElement>(
    events: Seq<FbxEvent>,
    pos: int,
    data_node_name: Seq<char>,
    index_node_name: Seq<char>,
) -> Option<(Option<Element<T>>, int)> {
    match element_start_of::<T>(cells_at(events, pos), data_node_name, index_node_name) {
        Some(start) => match children::<LayerElementLoader<T>>(start, events, pos) {
            Some((after, end)) => Some((element_of(after), end)),
            None => None,
        },
        None => skipped(None, events, pos),
    }
}

/// The list with one more value at its end, if there is one.
pub open spec fn with<V>(list: Seq<V>, value: Option<V>) -> Seq<V> {
    match value {
        Some(v) => list.push(v),
        None => list,
    }
}

/// The layer that the node whose children begin at `pos` holds, and where
/// the node ends. Without a channel in the cells of the node there is no
/// layer, and the node is skipped.
pub open spec fn layer_at(events: Seq<FbxEvent>, pos: int) -> Option<(Option<LayerView>, int)> {
    match layer_start_of(cells_at(events, pos)) {
        Some(start) => match children::<LayerLoader>(start, events, pos) {
            Some((after, end)) => Some((Some(after), end)),
            None => None,
        },
        None => skipped(None, events, pos),
    }
}

/// What a child of a mesh node that holds no children of interest changes:
/// `Vertices` sets the vertices to the points of its first cell,
/// `PolygonVertexIndex` the polygons to the integers of its first cell.
pub open spec fn mesh_child(state: MeshState, name: Seq<char>, cells: Seq<Property>) -> MeshState {
    if name == "Vertices"@ {
        MeshState { vertices: first_points(cells), ..state }
    } else if name == "PolygonVertexIndex"@ {
        MeshState { polygon_vertex_index: first_int32s(cells), ..state }
    } else {
        state
    }
}

impl<'a> MeshLoader<'a> {
    pub fn new(_definitions: &'a Definitions, obj_props: &'a ObjectProperties<'a>) -> (r: Self)
        ensures
            r.state() == mesh_start(obj_props@),
    {
        let loader = MeshLoader {
            obj_props: obj_props,
            vertices: None,
            polygon_vertex_index: None,
            layer_element_materials: Vec::new(),
            layer_element_normals: Vec::new(),
            layer_element_uvs: Vec::new(),
            layers: Vec::new(),
        };
        proof {
            assert(views(loader.layer_element_materials@) =~= Seq::empty());
            assert(views(loader.layer_element_normals@) =~= Seq::empty());
            assert(views(loader.layer_element_uvs@) =~= Seq::empty());
            assert(views(loader.layers@) =~= Seq::empty());
        }
        loader
    }
}

impl<'a> NodeLoaderCommon for MeshLoader<'a> {
    type Target = Option<Mesh>;

    type State = MeshState;

    type Outcome = Option<MeshView>;

    closed spec fn state(&self) -> MeshState {
        MeshState {
            identity: self.obj_props@,
            vertices: view_of(self.vertices),
            polygon_vertex_index: view_of(self.polygon_vertex_index),
            layer_element_materials: views(self.layer_element_materials@),
            layer_element_normals: views(self.layer_element_normals@),
            layer_element_uvs: views(self.layer_element_uvs@),
            layers: views(self.layers@),
        }
    }

    open spec fn outcome(target: &Option<Mesh>) -> Option<MeshView> {
        view_of(*target)
    }

    open spec fn finish(state: MeshState) -> Option<Option<MeshView>> {
        Some(mesh_of(state))
    }

    open spec fn always_loads() -> bool {
        true
    }

    open spec fn refuses_with(e: Error) -> bool {
        false
    }

    fn on_finish(self) -> (r: Result<Option<Mesh>>) {
        match (self.vertices, self.polygon_vertex_index) {
            (Some(vertices), Some(polygon_vertex_index)) => Ok(
                Some(
                    Mesh {
                        id: self.obj_props.id,
                        name: self.obj_props.name.to_owned(),
                        vertices: vertices,
                        polygon_vertex_index: VertexIndex::NotTriangulated(polygon_vertex_index),
                        layer_element_materials: self.layer_element_materials,
                        layer_element_normals: self.layer_element_normals,
                        layer_element_uvs: self.layer_element_uvs,
                        layers: self.layers,
                    },
                ),
            ),
            _ => Ok(None),
        }
    }
}

/// Loads the layer element of the node that the cursor is in, or skips the
/// node where its cells hold no channel.
fn load_element<T: LoadAsLayerElementElement>(
    reader: &mut EventReader<'_>,
    properties: &Vec<Property>,
    data_node_name: &str,
    index_node_name: &str,
) -> (r: Result<Option<LayerElement<T>>>)
    requires
        old(reader).position() >= 1,
        properties@ == cells_at(old(reader).events(), old(reader).position()),
    ensures
        final(reader).events() == old(reader).events(),
        r is Ok ==> old(reader).position() < final(reader).position() <= old(reader).events().len(),
        match element_at::<T>(
            old(reader).events(),
            old(reader).position(),
            data_node_name@,
            index_node_name@,
        ) {
            Some((element, end)) => r is Ok && view_of(r->Ok_0) == element
                && final(reader).position() == end,
            None => r is Err && r->Err_0.is_truncated(),
        },
{
    match LayerElementLoader::<T>::from_node_properties(properties, data_node_name, index_node_name) {
        Some(loader) => loader.load(reader),
        None => match ignore_current_node(reader) {
            Ok(()) => Ok(None),
            Err(e) => Err(e),
        },
    }
}

/// Loads the layer of the node that the cursor is in, or skips the node
/// where its cells hold no channel.
fn load_layer(reader: &mut EventReader<'_>, properties: &Vec<Property>) -> (r: Result<Option<Layer>>)
    requires
        old(reader).position() >= 1,
        properties@ == cells_at(old(reader).events(), old(reader).position()),
    ensures
        final(reader).events() == old(reader).events(),
        r is Ok ==> old(reader).position() < final(reader).position() <= old(reader).events().len(),
        match layer_at(old(reader).events(), old(reader).position()) {
            Some((layer, end)) => r is Ok && view_of(r->Ok_0) == layer && final(reader).position()
                == end,
            None => r is Err && r->Err_0.is_truncated(),
        },
{
    match LayerLoader::from_node_properties(properties) {
        Some(loader) => loader.load(reader),
        None => match ignore_current_node(reader) {
            Ok(()) => Ok(None),
            Err(e) => Err(e),
        },
    }
}

/// Adds a value at the end of a list, if there is one.
fn push_some<V: View>(list: &mut Vec<V>, value: Option<V>)
    ensures
        views(final(list)@) == with(views(old(list)@), view_of(value)),
{
    match value {
        Some(v) => {
            proof {
                views_of_push(list@, v);
            }
            list.push(v);
        },
        None => {},
    }
}

impl<'a> NodeLoader for MeshLoader<'a> {
    /// `LayerElementMaterial`, `LayerElementNormal` and `LayerElementUV` are
    /// loaded as layer elements and `Layer` as a layer, and each is added to
    /// its list if it is complete. Any other child changes what `mesh_child`
    /// says and is skipped.
    open spec fn child(state: MeshState, events: Seq<FbxEvent>, pos: int) -> Option<(MeshState, int)> {
        let name = name_at(events, pos);
        if name == "LayerElementMaterial"@ {
            match element_at::<NoElement>(events, pos, ""@, "Materials"@) {
                Some((element, end)) => Some(
                    (
                        MeshState {
                            layer_element_materials: with(state.layer_element_materials, element),
                            ..state
                        },
                        end,
                    ),
                ),
                None => None,
            }
        } else if name == "LayerElementNormal"@ {
            match element_at::<[u32; 3]>(events, pos, "Normals"@, "NormalsIndex"@) {
                Some((element, end)) => Some(
                    (
                        MeshState {
                            layer_element_normals: with(state.layer_element_normals, element),
                            ..state
                        },
                        end,
                    ),
                ),
                None => None,
            }
        } else if name == "LayerElementUV"@ {
            match element_at::<[u32; 2]>(events, pos, "UV"@, "UVIndex"@) {
                Some((element, end)) => Some(
                    (
                        MeshState { layer_element_uvs: with(state.layer_element_uvs, element), ..state },
                        end,
                    ),
                ),
                None => None,
            }
        } else if name == "Layer"@ {
            match layer_at(events, pos) {
                Some((layer, end)) => Some((MeshState { layers: with(state.layers, layer), ..state }, end)),
                None => None,
            }
        } else {
            skipped(mesh_child(state, name, cells_at(events, pos)), events, pos)
        }
    }

    proof fn child_ends_with_its_node(state: Self::State, events: Seq<FbxEvent>, pos: int) {
        let cells = cells_at(events, pos);
        if element_start_of::<NoElement>(cells, ""@, "Materials"@) is Some {
            loader_ends_with_its_node::<LayerElementLoader<NoElement>>(
                element_start_of::<NoElement>(cells, ""@, "Materials"@)->0,
                events,
                pos,
            );
        }
        if element_start_of::<[u32; 3]>(cells, "Normals"@, "NormalsIndex"@) is Some {
            loader_ends_with_its_node::<LayerElementLoader<[u32; 3]>>(
                element_start_of::<[u32; 3]>(cells, "Normals"@, "NormalsIndex"@)->0,
                events,
                pos,
            );
        }
        if element_start_of::<[u32; 2]>(cells, "UV"@, "UVIndex"@) is Some {
            loader_ends_with_its_node::<LayerElementLoader<[u32; 2]>>(
                element_start_of::<[u32; 2]>(cells, "UV"@, "UVIndex"@)->0,
                events,
                pos,
            );
        }
        if layer_start_of(cells) is Some {
            loader_ends_with_its_node::<LayerLoader>(layer_start_of(cells)->0, events, pos);
        }
    }

    fn on_child_node(&mut self, reader: &mut EventReader<'_>, node_info: RawNodeInfo<'_>) -> (r:
        Result<()>) {
        let RawNodeInfo { name, properties } = node_info;
        if same_text(name, "LayerElementMaterial") {
            match load_element::<NoElement>(reader, properties, "", "Materials") {
                Ok(element) => {
                    push_some(&mut self.layer_element_materials, element);
                    Ok(())
                },
                Err(e) => Err(e),
            }
        } else if same_text(name, "LayerElementNormal") {
            match load_element::<[u32; 3]>(reader, properties, "Normals", "NormalsIndex") {
                Ok(element) => {
                    push_some(&mut self.layer_element_normals, element);
                    Ok(())
                },
                Err(e) => Err(e),
            }
        } else if same_text(name, "LayerElementUV") {
            match load_element::<[u32; 2]>(reader, properties, "UV", "UVIndex") {
                Ok(element) => {
                    push_some(&mut self.layer_element_uvs, element);
                    Ok(())
                },
                Err(e) => Err(e),
            }
        } else if same_text(name, "Layer") {
            match load_layer(reader, properties) {
                Ok(layer) => {
                    push_some(&mut self.layers, layer);
                    Ok(())
                },
                Err(e) => Err(e),
            }
        } else {
            if same_text(name, "Vertices") {
                self.vertices = first_points_of(properties);
            } else if same_text(name, "PolygonVertexIndex") {
                self.polygon_vertex_index = match first_vec_i32(properties) {
                    Some(v) => Some(copy_of(v)),
                    None => None,
                };
            }
            ignore_current_node(reader)
        }
    }
}

} // verus!
