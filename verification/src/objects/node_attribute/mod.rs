//! Contains `/Objects/NodeAttribute` node-related stuff.

use vstd::prelude::*;
use crate::definitions::Definitions;
use crate::error::{Error, Result};
use crate::event::{EventReader, FbxEvent};
use crate::node_loader::{ignore_current_node, skipped, NodeLoader, NodeLoaderCommon, RawNodeInfo};
use crate::objects::properties::{Identity, ObjectProperties};
use crate::objects::UnknownObject;
use crate::text::same_text;

pub mod limb_node;
pub mod null;

pub use self::limb_node::LimbNodeAttribute;
pub use self::null::{NullNodeAttribute, NullNodeLook};
use self::limb_node::{limb_node_of, LimbNodeAttributeLoader};
use self::null::{null_node_of, NullNodeAttributeLoader};

verus! {

#[derive(Debug, Clone)]
pub enum NodeAttribute {
    LimbNode(LimbNodeAttribute),
    Null(NullNodeAttribute),
    Unknown(UnknownObject),
}

/// A node attribute, as a mathematical value.
pub ghost enum NodeAttributeView {
    LimbNode(LimbNodeAttribute),
    Null(NullNodeAttribute),
    Unknown(Identity),
}

impl View for NodeAttribute {
    type V = NodeAttributeView;

    open spec fn view(&self) -> NodeAttributeView {
        match self {
            NodeAttribute::LimbNode(o) => NodeAttributeView::LimbNode(*o),
            NodeAttribute::Null(o) => NodeAttributeView::Null(*o),
            NodeAttribute::Unknown(o) => NodeAttributeView::Unknown(o@),
        }
    }
}

#[derive(Debug)]
pub enum NodeAttributeLoader<'a> {
    LimbNode(LimbNodeAttributeLoader<'a>),
    Null(NullNodeAttributeLoader<'a>),
    Unknown(&'a ObjectProperties<'a>),
}

/// What the loader of a node attribute holds, as a mathematical value.
pub ghost enum NodeAttributeState {
    LimbNode(AttributeState),
    Null(AttributeState),
    Unknown(Identity),
}

/// What the loader of an attribute of a limb node or of a null node holds,
/// as a mathematical value.
pub ghost struct AttributeState {
    pub templates: crate::definitions::template::Templates,
    pub identity: Identity,
    pub properties: Option<crate::definitions::template::Properties>,
    pub type_flags: Option<NodeAttributeType>,
}

/// The state that the loader of an attribute begins with.
pub open spec fn attribute_start(
    templates: crate::definitions::template::Templates,
    identity: Identity,
) -> AttributeState {
    AttributeState { templates, identity, properties: None, type_flags: None }
}

/// The state that the loader of a node attribute begins with: subclass
/// `LimbNode` or `Null`, else an unknown object.
pub open spec fn node_attribute_start(
    templates: crate::definitions::template::Templates,
    identity: Identity,
) -> NodeAttributeState {
    if identity.subclass == "LimbNode"@ {
        NodeAttributeState::LimbNode(attribute_start(templates, identity))
    } else if identity.subclass == "Null"@ {
        NodeAttributeState::Null(attribute_start(templates, identity))
    } else {
        NodeAttributeState::Unknown(identity)
    }
}

/// The node attribute that a state makes, if any.
pub open spec fn node_attribute_of(state: NodeAttributeState) -> Option<NodeAttributeView> {
    match state {
        NodeAttributeState::LimbNode(s) => match limb_node_of(s) {
            Some(o) => Some(NodeAttributeView::LimbNode(o)),
            None => None,
        },
        NodeAttributeState::Null(s) => match null_node_of(s) {
            Some(o) => Some(NodeAttributeView::Null(o)),
            None => None,
        },
        NodeAttributeState::Unknown(s) => Some(NodeAttributeView::Unknown(s)),
    }
}

impl<'a> NodeAttributeLoader<'a> {
    pub fn new(definitions: &'a Definitions, obj_props: &'a ObjectProperties<'a>) -> (r: Self)
        ensures
            r.state() == node_attribute_start(definitions@, obj_props@),
    {
        if same_text(obj_props.subclass, "LimbNode") {
            NodeAttributeLoader::LimbNode(LimbNodeAttributeLoader::new(definitions, obj_props))
        } else if same_text(obj_props.subclass, "Null") {
            NodeAttributeLoader::Null(NullNodeAttributeLoader::new(definitions, obj_props))
        } else {
            NodeAttributeLoader::Unknown(obj_props)
        }
    }
}

impl<'a> NodeLoaderCommon for NodeAttributeLoader<'a> {
    type Target = Option<NodeAttribute>;

    type State = NodeAttributeState;

    type Outcome = Option<NodeAttributeView>;

    open spec fn state(&self) -> NodeAttributeState {
        match self {
            NodeAttributeLoader::LimbNode(l) => NodeAttributeState::LimbNode(l.state()),
            NodeAttributeLoader::Null(l) => NodeAttributeState::Null(l.state()),
            NodeAttributeLoader::Unknown(p) => NodeAttributeState::Unknown(p@),
        }
    }

    open spec fn outcome(target: &Option<NodeAttribute>) -> Option<NodeAttributeView> {
        crate::utils::view_of(*target)
    }

    open spec fn finish(state: NodeAttributeState) -> Option<Option<NodeAttributeView>> {
        Some(node_attribute_of(state))
    }

    open spec fn always_loads() -> bool {
        true
    }

    open spec fn refuses_with(e: Error) -> bool {
        false
    }

    fn on_finish(self) -> (r: Result<Option<NodeAttribute>>) {
        match self {
            NodeAttributeLoader::LimbNode(loader) => match loader.on_finish() {
                Ok(Some(o)) => Ok(Some(NodeAttribute::LimbNode(o))),
                Ok(None) => Ok(None),
                Err(e) => Err(e),
            },
            NodeAttributeLoader::Null(loader) => match loader.on_finish() {
                Ok(Some(o)) => Ok(Some(NodeAttribute::Null(o))),
                Ok(None) => Ok(None),
                Err(e) => Err(e),
            },
            NodeAttributeLoader::Unknown(obj_props) => Ok(
                Some(NodeAttribute::Unknown(UnknownObject::from_object_properties(obj_props))),
            ),
        }
    }
}

impl<'a> NodeLoader for NodeAttributeLoader<'a> {
    /// A child is handed to the loader of the attribute's kind; an unknown
    /// object skips every child.
    open spec fn child(state: NodeAttributeState, events: Seq<FbxEvent>, pos: int) -> Option<
        (NodeAttributeState, int),
    > {
        match state {
            NodeAttributeState::LimbNode(s) => match LimbNodeAttributeLoader::child(s, events, pos) {
                Some((after, end)) => Some((NodeAttributeState::LimbNode(after), end)),
                None => None,
            },
            NodeAttributeState::Null(s) => match NullNodeAttributeLoader::child(s, events, pos) {
                Some((after, end)) => Some((NodeAttributeState::Null(after), end)),
                None => None,
            },
            NodeAttributeState::Unknown(s) => skipped(state, events, pos),
        }
    }

    proof fn child_ends_with_its_node(state: Self::State, events: Seq<FbxEvent>, pos: int) {
        match state {
            NodeAttributeState::LimbNode(s) => LimbNodeAttributeLoader::child_ends_with_its_node(
                s,
                events,
                pos,
            ),
            NodeAttributeState::Null(s) => NullNodeAttributeLoader::child_ends_with_its_node(
                s,
                events,
                pos,
            ),
            _ => {},
        }
    }

    fn on_child_node(&mut self, reader: &mut EventReader<'_>, node_info: RawNodeInfo<'_>) -> (r:
        Result<()>) {
        match self {
            NodeAttributeLoader::LimbNode(loader) => loader.on_child_node(reader, node_info),
            NodeAttributeLoader::Null(loader) => loader.on_child_node(reader, node_info),
            NodeAttributeLoader::Unknown(_) => ignore_current_node(reader),
        }
    }
}

#[derive(Debug, Clone, Copy, PartialEq, Eq, Structural)]
pub enum NodeAttributeType {
    Unknown,
    Null,
    Marker,
    Skeleton,
    Mesh,
    Nurbs,
    Patch,
    Camera,
    CameraStereo,
    CameraSwitcher,
    Light,
    OpticalReference,
    OpticalMarker,
    NurbsCurve,
    TrimNurbsSurface,
    Boundary,
    NurbsSurface,
    Shape,
    LODGroup,
    SubDiv,
    CachedEffect,
    Line,
}

/// The type that a text names; a text that names none is `Unknown`.
pub open spec fn attribute_type_of(name: Seq<char>) -> NodeAttributeType {
    if name == "Unknown"@ {
        NodeAttributeType::Unknown
    } else if name == "Null"@ {
        NodeAttributeType::Null
    } else if name == "Marker"@ {
        NodeAttributeType::Marker
    } else if name == "Skeleton"@ {
        NodeAttributeType::Skeleton
    } else if name == "Mesh"@ {
        NodeAttributeType::Mesh
    } else if name == "Nurbs"@ {
        NodeAttributeType::Nurbs
    } else if name == "Patch"@ {
        NodeAttributeType::Patch
    } else if name == "Camera"@ {
        NodeAttributeType::Camera
    } else if name == "CameraStereo"@ {
        NodeAttributeType::CameraStereo
    } else if name == "CameraSwitcher"@ {
        NodeAttributeType::CameraSwitcher
    } else if name == "Light"@ {
        NodeAttributeType::Light
    } else if name == "OpticalReference"@ {
        NodeAttributeType::OpticalReference
    } else if name == "OpticalMarker"@ {
        NodeAttributeType::OpticalMarker
    } else if name == "NurbsCurve"@ {
        NodeAttributeType::NurbsCurve
    } else if name == "TrimNurbsSurface"@ {
        NodeAttributeType::TrimNurbsSurface
    } else if name == "Boundary"@ {
        NodeAttributeType::Boundary
    } else if name == "NurbsSurface"@ {
        NodeAttributeType::NurbsSurface
    } else if name == "Shape"@ {
        NodeAttributeType::Shape
    } else if name == "LODGroup"@ {
        NodeAttributeType::LODGroup
    } else if name == "SubDiv"@ {
        NodeAttributeType::SubDiv
    } else if name == "CachedEffect"@ {
        NodeAttributeType::CachedEffect
    } else if name == "Line"@ {
        NodeAttributeType::Line
    } else {
        NodeAttributeType::Unknown
    }
}

impl NodeAttributeType {
    pub fn from_string(name: &str) -> (r: Self)
        ensures
            r == attribute_type_of(name@),
    {
        if same_text(name, "Unknown") {
            NodeAttributeType::Unknown
        } else if same_text(name, "Null") {
            NodeAttributeType::Null
        } else if same_text(name, "Marker") {
            NodeAttributeType::Marker
        } else if same_text(name, "Skeleton") {
            NodeAttributeType::Skeleton
        } else if same_text(name, "Mesh") {
            NodeAttributeType::Mesh
        } else if same_text(name, "Nurbs") {
            NodeAttributeType::Nurbs
        } else if same_text(name, "Patch") {
            NodeAttributeType::Patch
        } else if same_text(name, "Camera") {
            NodeAttributeType::Camera
        } else if same_text(name, "CameraStereo") {
            NodeAttributeType::CameraStereo
        } else if same_text(name, "CameraSwitcher") {
            NodeAttributeType::CameraSwitcher
        } else if same_text(name, "Light") {
            NodeAttributeType::Light
        } else if same_text(name, "OpticalReference") {
            NodeAttributeType::OpticalReference
        } else if same_text(name, "OpticalMarker") {
            NodeAttributeType::OpticalMarker
        } else if same_text(name, "NurbsCurve") {
            NodeAttributeType::NurbsCurve
        } else if same_text(name, "TrimNurbsSurface") {
            NodeAttributeType::TrimNurbsSurface
        } else if same_text(name, "Boundary") {
            NodeAttributeType::Boundary
        } else if same_text(name, "NurbsSurface") {
            NodeAttributeType::NurbsSurface
        } else if same_text(name, "Shape") {
            NodeAttributeType::Shape
        } else if same_text(name, "LODGroup") {
            NodeAttributeType::LODGroup
        } else if same_text(name, "SubDiv") {
            NodeAttributeType::SubDiv
        } else if same_text(name, "CachedEffect") {
            NodeAttributeType::CachedEffect
        } else if same_text(name, "Line") {
            NodeAttributeType::Line
        } else {
            NodeAttributeType::Unknown
        }
    }
}

impl Default for NodeAttributeType {
    fn default() -> (r: Self)
        ensures
            r == NodeAttributeType::Unknown,
    {
        NodeAttributeType::Unknown
    }
}

} // verus!
