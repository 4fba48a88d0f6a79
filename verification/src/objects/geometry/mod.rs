//! Contains `/Objects/Geometry` node-related stuff.

use vstd::prelude::*;
use crate::definitions::Definitions;
use crate::error::{Error, Result};
use crate::event::{EventReader, FbxEvent};
use crate::node_loader::{ignore_current_node, skipped, NodeLoader, NodeLoaderCommon, RawNodeInfo};
use crate::objects::properties::{Identity, ObjectProperties};
use crate::objects::UnknownObject;
use crate::text::same_text;

pub mod mesh;
pub mod shape;

pub use self::mesh::{LayerElement, MappingMode, Mesh, ReferenceMode, VertexIndex};
pub use self::shape::Shape;
use self::mesh::{mesh_of, mesh_start, MeshLoader, MeshState, MeshView};
use self::shape::{shape_of, shape_start, ShapeLoader, ShapeState, ShapeView};

verus! {

#[derive(Debug, Clone)]
pub enum Geometry {
    Mesh(Mesh),
    Shape(Shape),
    Unknown(UnknownObject),
}

/// A geometry, as a mathematical value.
pub ghost enum GeometryView {
    Mesh(MeshView),
    Shape(ShapeView),
    Unknown(Identity),
}

impl View for Geometry {
    type V = GeometryView;

    open spec fn view(&self) -> GeometryView {
        match self {
            Geometry::Mesh(o) => GeometryView::Mesh(o@),
            Geometry::Shape(o) => GeometryView::Shape(o@),
            Geometry::Unknown(o) => GeometryView::Unknown(o@),
        }
    }
}

#[derive(Debug)]
pub enum GeometryLoader<'a> {
    Mesh(MeshLoader<'a>),
    Shape(ShapeLoader<'a>),
    Unknown(&'a ObjectProperties<'a>),
}

/// What the loader of a geometry holds, as a mathematical value.
pub ghost enum GeometryState {
    Mesh(MeshState),
    Shape(ShapeState),
    Unknown(Identity),
}

/// The state that the loader of a geometry begins with: subclass `Mesh` or
/// `Shape`, else an unknown object.
pub open spec fn geometry_start(identity: Identity) -> GeometryState {
    if identity.subclass == "Mesh"@ {
        GeometryState::Mesh(mesh_start(identity))
    } else if identity.subclass == "Shape"@ {
        GeometryState::Shape(shape_start(identity))
    } else {
        GeometryState::Unknown(identity)
    }
}

/// The geometry that a state makes, if any.
pub open spec fn geometry_of(state: GeometryState) -> Option<GeometryView> {
    match state {
        GeometryState::Mesh(s) => match mesh_of(s) {
            Some(o) => Some(GeometryView::Mesh(o)),
            None => None,
        },
        GeometryState::Shape(s) => match shape_of(s) {
            Some(o) => Some(GeometryView::Shape(o)),
            None => None,
        },
        GeometryState::Unknown(s) => Some(GeometryView::Unknown(s)),
    }
}

impl<'a> GeometryLoader<'a> {
    pub fn new(definitions: &'a Definitions, obj_props: &'a ObjectProperties<'a>) -> (r: Self)
        ensures
            r.state() == geometry_start(obj_props@),
    {
        if same_text(obj_props.subclass, "Mesh") {
            GeometryLoader::Mesh(MeshLoader::new(definitions, obj_props))
        } else if same_text(obj_props.subclass, "Shape") {
            GeometryLoader::Shape(ShapeLoader::new(definitions, obj_props))
        } else {
            GeometryLoader::Unknown(obj_props)
        }
    }
}

impl<'a> NodeLoaderCommon for GeometryLoader<'a> {
    type Target = Option<Geometry>;

    type State = GeometryState;

    type Outcome = Option<GeometryView>;

    open spec fn state(&self) -> GeometryState {
        match self {
            GeometryLoader::Mesh(l) => GeometryState::Mesh(l.state()),
            GeometryLoader::Shape(l) => GeometryState::Shape(l.state()),
            GeometryLoader::Unknown(p) => GeometryState::Unknown(p@),
        }
    }

    open spec fn outcome(target: &Option<Geometry>) -> Option<GeometryView> {
        crate::utils::view_of(*target)
    }

    open spec fn finish(state: GeometryState) -> Option<Option<GeometryView>> {
        Some(geometry_of(state))
    }

    open spec fn always_loads() -> bool {
        true
    }

    open spec fn refuses_with(e: Error) -> bool {
        false
    }

    fn on_finish(self) -> (r: Result<Option<Geometry>>) {
        match self {
            GeometryLoader::Mesh(loader) => match loader.on_finish() {
                Ok(Some(o)) => Ok(Some(Geometry::Mesh(o))),
                Ok(None) => Ok(None),
                Err(e) => Err(e),
            },
            GeometryLoader::Shape(loader) => match loader.on_finish() {
                Ok(Some(o)) => Ok(Some(Geometry::Shape(o))),
                Ok(None) => Ok(None),
                Err(e) => Err(e),
            },
            GeometryLoader::Unknown(obj_props) => Ok(
                Some(Geometry::Unknown(UnknownObject::from_object_properties(obj_props))),
            ),
        }
    }
}

impl<'a> NodeLoader for GeometryLoader<'a> {
    /// A child is handed to the loader of the geometry's kind; an unknown
    /// object skips every child.
    open spec fn child(state: GeometryState, events: Seq<FbxEvent>, pos: int) -> Option<
        (GeometryState, int),
    > {
        match state {
            GeometryState::Mesh(s) => match MeshLoader::child(s, events, pos) {
                Some((after, end)) => Some((GeometryState::Mesh(after), end)),
                None => None,
            },
            GeometryState::Shape(s) => match ShapeLoader::child(s, events, pos) {
                Some((after, end)) => Some((GeometryState::Shape(after), end)),
                None => None,
            },
            GeometryState::Unknown(s) => skipped(state, events, pos),
        }
    }

    proof fn child_ends_with_its_node(state: Self::State, events: Seq<FbxEvent>, pos: int) {
        match state {
            GeometryState::Mesh(s) => MeshLoader::child_ends_with_its_node(s, events, pos),
            GeometryState::Shape(s) => ShapeLoader::child_ends_with_its_node(s, events, pos),
            _ => {},
        }
    }

    fn on_child_node(&mut self, reader: &mut EventReader<'_>, node_info: RawNodeInfo<'_>) -> (r:
        Result<()>) {
        match self {
            GeometryLoader::Mesh(loader) => loader.on_child_node(reader, node_info),
            GeometryLoader::Shape(loader) => loader.on_child_node(reader, node_info),
            GeometryLoader::Unknown(_) => ignore_current_node(reader),
        }
    }
}

} // verus!
