//! Contains `/Objects/Geometry(Shape)` node-related stuff.

use vstd::prelude::*;
use crate::definitions::Definitions;
use crate::error::{Error, Result};
use crate::event::{EventReader, FbxEvent, Property};
use crate::node_loader::{
    cells_at, ignore_current_node, name_at, skipped, NodeLoader, NodeLoaderCommon, RawNodeInfo,
};
use crate::objects::deformer::cluster::{first_indices, first_indices_of};
use crate::objects::geometry::mesh::layer_element::{first_points, first_points_of};
use crate::objects::properties::{Identity, ObjectProperties};
use crate::text::same_text;
use crate::utils::view_of;

verus! {

/// A shape: where some control points of a mesh go. Points are three single
/// precision numbers by their bit patterns.
#[derive(Debug, Clone)]
pub struct Shape {
    pub id: i64,
    pub name: String,
    /// Indices of control points of a target mesh.
    pub indices: Vec<u32>,
    pub vertices: Vec<[u32; 3]>,
    pub normals: Option<Vec<[u32; 3]>>,
}

/// A shape, as a mathematical value.
pub ghost struct ShapeView {
    pub id: i64,
    pub name: Seq<char>,
    pub indices: Seq<u32>,
    pub vertices: Seq<[u32; 3]>,
    pub normals: Option<Seq<[u32; 3]>>,
}

impl View for Shape {
    type V = ShapeView;

    open spec fn view(&self) -> ShapeView {
        ShapeView {
            id: self.id,
            name: self.name@,
            indices: self.indices@,
            vertices: self.vertices@,
            normals: view_of(self.normals),
        }
    }
}

#[derive(Debug)]
pub struct ShapeLoader<'a> {
    obj_props: &'a ObjectProperties<'a>,
    indices: Option<Vec<u32>>,
    vertices: Option<Vec<[u32; 3]>>,
    normals: Option<Vec<[u32; 3]>>,
}

/// What a shape loader holds, as a mathematical value.
pub ghost struct ShapeState {
    pub identity: Identity,
    pub indices: Option<Seq<u32>>,
    pub vertices: Option<Seq<[u32; 3]>>,
    pub normals: Option<Seq<[u32; 3]>>,
}

/// The state that a shape loader begins with.
pub open spec fn shape_start(identity: Identity) -> ShapeState {
    ShapeState { identity, indices: None, vertices: None, normals: None }
}

/// What a child of a shape node changes: `Indexes` sets the indices,
/// `Vertices` the vertices and `Normals` the normals, each to what its first
/// cell holds, or to nothing.
pub open spec fn shape_child(state: ShapeState, name: Seq<char>, cells: Seq<Property>) -> ShapeState {
    if name == "Indexes"@ {
        ShapeState { indices: first_indices(cells), ..state }
    } else if name == "Vertices"@ {
        ShapeState { vertices: first_points(cells), ..state }
    } else if name == "Normals"@ {
        ShapeState { normals: first_points(cells), ..state }
    } else {
        state
    }
}

/// The shape that a state makes: none without indices or vertices.
pub open spec fn shape_of(state: ShapeState) -> Option<ShapeView> {
    if state.indices is Some && state.vertices is Some {
        Some(
            ShapeView {
                id: state.identity.id,
                name: state.identity.name,
                indices: state.indices->0,
                vertices: state.vertices->0,
                normals: state.normals,
            },
        )
    } else {
        None
    }
}

impl<'a> ShapeLoader<'a> {
    pub fn new(_definitions: &'a Definitions, obj_props: &'a ObjectProperties<'a>) -> (r: Self)
        ensures
            r.state() == shape_start(obj_props@),
    {
        ShapeLoader { obj_props: obj_props, indices: None, vertices: None, normals: None }
    }
}

impl<'a> NodeLoaderCommon for ShapeLoader<'a> {
    type Target = Option<Shape>;

    type State = ShapeState;

    type Outcome = Option<ShapeView>;

    closed spec fn state(&self) -> ShapeState {
        ShapeState {
            identity: self.obj_props@,
            indices: view_of(self.indices),
            vertices: view_of(self.vertices),
            normals: view_of(self.normals),
        }
    }

    open spec fn outcome(target: &Option<Shape>) -> Option<ShapeView> {
        view_of(*target)
    }

    open spec fn finish(state: ShapeState) -> Option<Option<ShapeView>> {
        Some(shape_of(state))
    }

    open spec fn always_loads() -> bool {
        true
    }

    open spec fn refuses_with(e: Error) -> bool {
        false
    }

    fn on_finish(self) -> (r: Result<Option<Shape>>) {
        match (self.indices, self.vertices) {
            (Some(indices), Some(vertices)) => Ok(
                Some(
                    Shape {
                        id: self.obj_props.id,
                        name: self.obj_props.name.to_owned(),
                        indices: indices,
                        vertices: vertices,
                        normals: self.normals,
                    },
                ),
            ),
            _ => Ok(None),
        }
    }
}

impl<'a> NodeLoader for ShapeLoader<'a> {
    open spec fn child(state: ShapeState, events: Seq<FbxEvent>, pos: int) -> Option<(ShapeState, int)> {
        skipped(shape_child(state, name_at(events, pos), cells_at(events, pos)), events, pos)
    }

    proof fn child_ends_with_its_node(state: Self::State, events: Seq<FbxEvent>, pos: int) {
    }

    fn on_child_node(&mut self, reader: &mut EventReader<'_>, node_info: RawNodeInfo<'_>) -> (r:
        Result<()>) {
        let RawNodeInfo { name, properties } = node_info;
        if same_text(name, "Indexes") {
            self.indices = first_indices_of(properties);
        } else if same_text(name, "Vertices") {
            self.vertices = first_points_of(properties);
        } else if same_text(name, "Normals") {
            self.normals = first_points_of(properties);
        }
        ignore_current_node(reader)
    }
}

} // verus!
