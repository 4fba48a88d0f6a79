//! Contains stuff related to `CollectionExclusive` nodes.

use vstd::prelude::*;
use crate::definitions::template::Templates;
use crate::definitions::Definitions;
use crate::error::{Error, Result};
use crate::event::{EventReader, FbxEvent};
use crate::node_loader::{ignore_current_node, skipped, NodeLoader, NodeLoaderCommon, RawNodeInfo};
use crate::objects::properties::{Identity, ObjectProperties};
use crate::objects::UnknownObject;
use crate::text::same_text;

pub mod display_layer;

pub use self::display_layer::DisplayLayer;
use self::display_layer::{display_layer_of, DisplayLayerLoader, DisplayLayerState};

verus! {

#[derive(Debug, Clone)]
pub enum CollectionExclusive {
    DisplayLayer(DisplayLayer),
    Unknown(UnknownObject),
}

/// An exclusive collection, as a mathematical value.
pub ghost enum CollectionView {
    DisplayLayer(DisplayLayer),
    Unknown(Identity),
}

impl View for CollectionExclusive {
    type V = CollectionView;

    open spec fn view(&self) -> CollectionView {
        match self {
            CollectionExclusive::DisplayLayer(o) => CollectionView::DisplayLayer(*o),
            CollectionExclusive::Unknown(o) => CollectionView::Unknown(o@),
        }
    }
}

#[derive(Debug)]
pub enum CollectionExclusiveLoader<'a> {
    DisplayLayer(DisplayLayerLoader<'a>),
    Unknown(&'a ObjectProperties<'a>),
}

/// What the loader of an exclusive collection holds, as a mathematical value.
pub ghost enum CollectionState {
    DisplayLayer(DisplayLayerState),
    Unknown(Identity),
}

/// The state that the loader of an exclusive collection begins with:
/// subclass `DisplayLayer`, else an unknown object.
pub open spec fn collection_start(templates: Templates, identity: Identity) -> CollectionState {
    if identity.subclass == "DisplayLayer"@ {
        CollectionState::DisplayLayer(DisplayLayerState { templates, identity, properties: None })
    } else {
        CollectionState::Unknown(identity)
    }
}

/// The exclusive collection that a state makes, if any.
pub open spec fn collection_of(state: CollectionState) -> Option<CollectionView> {
    match state {
        CollectionState::DisplayLayer(s) => match display_layer_of(s) {
            Some(o) => Some(CollectionView::DisplayLayer(o)),
            None => None,
        },
        CollectionState::Unknown(s) => Some(CollectionView::Unknown(s)),
    }
}

impl<'a> CollectionExclusiveLoader<'a> {
    pub fn new(definitions: &'a Definitions, obj_props: &'a ObjectProperties<'a>) -> (r: Self)
        ensures
            r.state() == collection_start(definitions@, obj_props@),
    {
        if same_text(obj_props.subclass, "DisplayLayer") {
            CollectionExclusiveLoader::DisplayLayer(DisplayLayerLoader::new(definitions, obj_props))
        } else {
            CollectionExclusiveLoader::Unknown(obj_props)
        }
    }
}

impl<'a> NodeLoaderCommon for CollectionExclusiveLoader<'a> {
    type Target = Option<CollectionExclusive>;

    type State = CollectionState;

    type Outcome = Option<CollectionView>;

    open spec fn state(&self) -> CollectionState {
        match self {
            CollectionExclusiveLoader::DisplayLayer(l) => CollectionState::DisplayLayer(l.state()),
            CollectionExclusiveLoader::Unknown(p) => CollectionState::Unknown(p@),
        }
    }

    open spec fn outcome(target: &Option<CollectionExclusive>) -> Option<CollectionView> {
        crate::utils::view_of(*target)
    }

    open spec fn finish(state: CollectionState) -> Option<Option<CollectionView>> {
        Some(collection_of(state))
    }

    open spec fn always_loads() -> bool {
        true
    }

    open spec fn refuses_with(e: Error) -> bool {
        false
    }

    fn on_finish(self) -> (r: Result<Option<CollectionExclusive>>) {
        match self {
            CollectionExclusiveLoader::DisplayLayer(loader) => match loader.on_finish() {
                Ok(Some(o)) => Ok(Some(CollectionExclusive::DisplayLayer(o))),
                Ok(None) => Ok(None),
                Err(e) => Err(e),
            },
            CollectionExclusiveLoader::Unknown(obj_props) => Ok(
                Some(CollectionExclusive::Unknown(UnknownObject::from_object_properties(obj_props))),
            ),
        }
    }
}

impl<'a> NodeLoader for CollectionExclusiveLoader<'a> {
    /// A child is handed to the loader of the display layer; an unknown
    /// object skips every child.
    open spec fn child(state: CollectionState, events: Seq<FbxEvent>, pos: int) -> Option<
        (CollectionState, int),
    > {
        match state {
            CollectionState::DisplayLayer(s) => match DisplayLayerLoader::child(s, events, pos) {
                Some((after, end)) => Some((CollectionState::DisplayLayer(after), end)),
                None => None,
            },
            CollectionState::Unknown(s) => skipped(state, events, pos),
        }
    }

    proof fn child_ends_with_its_node(state: Self::State, events: Seq<FbxEvent>, pos: int) {
        match state {
            CollectionState::DisplayLayer(s) => DisplayLayerLoader::child_ends_with_its_node(
                s,
                events,
                pos,
            ),
            _ => {},
        }
    }

    fn on_child_node(&mut self, reader: &mut EventReader<'_>, node_info: RawNodeInfo<'_>) -> (r:
        Result<()>) {
        match self {
            CollectionExclusiveLoader::DisplayLayer(loader) => loader.on_child_node(
                reader,
                node_info,
            ),
            CollectionExclusiveLoader::Unknown(_) => ignore_current_node(reader),
        }
    }
}

} // verus!
