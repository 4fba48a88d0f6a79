//! Contains `/Objects/Deformer` node-related stuff.

use vstd::prelude::*;
use crate::definitions::Definitions;
use crate::error::{Error, Result};
use crate::event::{EventReader, FbxEvent};
use crate::node_loader::{
    children, ignore_current_node, node_end, node_end_is_later, skipped, NodeLoader,
    NodeLoaderCommon, RawNodeInfo,
};
use crate::objects::properties::{Identity, ObjectProperties};
use crate::objects::UnknownObject;
use crate::text::same_text;

pub mod blend_shape;
pub mod blend_shape_channel;
pub mod cluster;
pub mod skin;

pub use self::blend_shape::BlendShape;
pub use self::blend_shape_channel::BlendShapeChannel;
pub use self::cluster::Cluster;
pub use self::skin::{Skin, SkinningType};
use self::blend_shape::{BlendShapeLoader, BlendShapeView};
use self::blend_shape_channel::{
    channel_of, channel_start, BlendShapeChannelLoader, ChannelState, ChannelView,
};
use self::cluster::{cluster_of, cluster_start, ClusterLoader, ClusterState, ClusterView};
use self::skin::{skin_of, skin_start, SkinLoader, SkinState};

verus! {

#[derive(Debug, Clone)]
pub enum Deformer {
    BlendShape(BlendShape),
    BlendShapeChannel(BlendShapeChannel),
    Cluster(Cluster),
    Skin(Skin),
    Unknown(UnknownObject),
}

/// A deformer, as a mathematical value.
pub ghost enum DeformerView {
    BlendShape(BlendShapeView),
    BlendShapeChannel(ChannelView),
    Cluster(ClusterView),
    Skin(Skin),
    Unknown(Identity),
}

impl View for Deformer {
    type V = DeformerView;

    open spec fn view(&self) -> DeformerView {
        match self {
            Deformer::BlendShape(o) => DeformerView::BlendShape(o@),
            Deformer::BlendShapeChannel(o) => DeformerView::BlendShapeChannel(o@),
            Deformer::Cluster(o) => DeformerView::Cluster(o@),
            Deformer::Skin(o) => DeformerView::Skin(*o),
            Deformer::Unknown(o) => DeformerView::Unknown(o@),
        }
    }
}

#[derive(Debug)]
pub enum DeformerLoader<'a> {
    BlendShape(BlendShapeLoader<'a>),
    BlendShapeChannel(BlendShapeChannelLoader<'a>),
    Cluster(ClusterLoader<'a>),
    Skin(SkinLoader<'a>),
    Unknown(&'a ObjectProperties<'a>),
}

/// What a deformer loader holds, as a mathematical value.
pub ghost enum DeformerState {
    BlendShape(Identity),
    BlendShapeChannel(ChannelState),
    Cluster(ClusterState),
    Skin(SkinState),
    Unknown(Identity),
}

/// The state that the loader of a deformer begins with.
///
/// Class `Deformer` has the subclasses `BlendShape` and `Skin`, class
/// `SubDeformer` the subclasses `Cluster` and `BlendShapeChannel`. Any other
/// class or subclass is an unknown object.
pub open spec fn deformer_start(identity: Identity) -> DeformerState {
    if identity.class == "Deformer"@ {
        if identity.subclass == "BlendShape"@ {
            DeformerState::BlendShape(identity)
        } else if identity.subclass == "Skin"@ {
            DeformerState::Skin(skin_start(identity))
        } else {
            DeformerState::Unknown(identity)
        }
    } else if identity.class == "SubDeformer"@ {
        if identity.subclass == "Cluster"@ {
            DeformerState::Cluster(cluster_start(identity))
        } else if identity.subclass == "BlendShapeChannel"@ {
            DeformerState::BlendShapeChannel(channel_start(identity))
        } else {
            DeformerState::Unknown(identity)
        }
    } else {
        DeformerState::Unknown(identity)
    }
}

/// The deformer that a state makes, if any.
pub open spec fn deformer_of(state: DeformerState) -> Option<DeformerView> {
    match state {
        DeformerState::BlendShape(s) => Some(
            DeformerView::BlendShape(BlendShapeView { id: s.id, name: s.name }),
        ),
        DeformerState::BlendShapeChannel(s) => match channel_of(s) {
            Some(o) => Some(DeformerView::BlendShapeChannel(o)),
            None => None,
        },
        DeformerState::Cluster(s) => match cluster_of(s) {
            Some(o) => Some(DeformerView::Cluster(o)),
            None => None,
        },
        DeformerState::Skin(s) => match skin_of(s) {
            Some(o) => Some(DeformerView::Skin(o)),
            None => None,
        },
        DeformerState::Unknown(s) => Some(DeformerView::Unknown(s)),
    }
}

impl<'a> DeformerLoader<'a> {
    pub fn new(definitions: &'a Definitions, obj_props: &'a ObjectProperties<'a>) -> (r: Self)
        ensures
            r.state() == deformer_start(obj_props@),
    {
        if same_text(obj_props.class, "Deformer") {
            if same_text(obj_props.subclass, "BlendShape") {
                DeformerLoader::BlendShape(BlendShapeLoader::new(definitions, obj_props))
            } else if same_text(obj_props.subclass, "Skin") {
                DeformerLoader::Skin(SkinLoader::new(definitions, obj_props))
            } else {
                DeformerLoader::Unknown(obj_props)
            }
        } else if same_text(obj_props.class, "SubDeformer") {
            if same_text(obj_props.subclass, "Cluster") {
                DeformerLoader::Cluster(ClusterLoader::new(definitions, obj_props))
            } else if same_text(obj_props.subclass, "BlendShapeChannel") {
                DeformerLoader::BlendShapeChannel(
                    BlendShapeChannelLoader::new(definitions, obj_props),
                )
            } else {
                DeformerLoader::Unknown(obj_props)
            }
        } else {
            DeformerLoader::Unknown(obj_props)
        }
    }
}

impl<'a> NodeLoaderCommon for DeformerLoader<'a> {
    type Target = Option<Deformer>;

    type State = DeformerState;

    type Outcome = Option<DeformerView>;

    open spec fn state(&self) -> DeformerState {
        match self {
            DeformerLoader::BlendShape(l) => DeformerState::BlendShape(l.state()),
            DeformerLoader::BlendShapeChannel(l) => DeformerState::BlendShapeChannel(l.state()),
            DeformerLoader::Cluster(l) => DeformerState::Cluster(l.state()),
            DeformerLoader::Skin(l) => DeformerState::Skin(l.state()),
            DeformerLoader::Unknown(p) => DeformerState::Unknown(p@),
        }
    }

    open spec fn outcome(target: &Option<Deformer>) -> Option<DeformerView> {
        crate::utils::view_of(*target)
    }

    open spec fn finish(state: DeformerState) -> Option<Option<DeformerView>> {
        Some(deformer_of(state))
    }

    open spec fn always_loads() -> bool {
        true
    }

    open spec fn refuses_with(e: Error) -> bool {
        false
    }

    fn on_finish(self) -> (r: Result<Option<Deformer>>) {
        match self {
            DeformerLoader::BlendShape(loader) => match loader.on_finish() {
                Ok(Some(o)) => Ok(Some(Deformer::BlendShape(o))),
                Ok(None) => Ok(None),
                Err(e) => Err(e),
            },
            DeformerLoader::BlendShapeChannel(loader) => match loader.on_finish() {
                Ok(Some(o)) => Ok(Some(Deformer::BlendShapeChannel(o))),
                Ok(None) => Ok(None),
                Err(e) => Err(e),
            },
            DeformerLoader::Cluster(loader) => match loader.on_finish() {
                Ok(Some(o)) => Ok(Some(Deformer::Cluster(o))),
                Ok(None) => Ok(None),
                Err(e) => Err(e),
            },
            DeformerLoader::Skin(loader) => match loader.on_finish() {
                Ok(Some(o)) => Ok(Some(Deformer::Skin(o))),
                Ok(None) => Ok(None),
                Err(e) => Err(e),
            },
            DeformerLoader::Unknown(obj_props) => Ok(
                Some(Deformer::Unknown(UnknownObject::from_object_properties(obj_props))),
            ),
        }
    }
}

impl<'a> NodeLoader for DeformerLoader<'a> {
    /// A child is handed to the loader of the deformer's kind; an unknown
    /// object skips every child.
    open spec fn child(state: DeformerState, events: Seq<FbxEvent>, pos: int) -> Option<
        (DeformerState, int),
    > {
        match state {
            DeformerState::BlendShape(s) => skipped(state, events, pos),
            DeformerState::BlendShapeChannel(s) => match BlendShapeChannelLoader::child(s, events, pos) {
                Some((after, end)) => Some((DeformerState::BlendShapeChannel(after), end)),
                None => None,
            },
            DeformerState::Cluster(s) => match ClusterLoader::child(s, events, pos) {
                Some((after, end)) => Some((DeformerState::Cluster(after), end)),
                None => None,
            },
            DeformerState::Skin(s) => match SkinLoader::child(s, events, pos) {
                Some((after, end)) => Some((DeformerState::Skin(after), end)),
                None => None,
            },
            DeformerState::Unknown(s) => skipped(state, events, pos),
        }
    }

    proof fn child_ends_with_its_node(state: Self::State, events: Seq<FbxEvent>, pos: int) {
        match state {
            DeformerState::BlendShapeChannel(s) => BlendShapeChannelLoader::child_ends_with_its_node(
                s,
                events,
                pos,
            ),
            DeformerState::Cluster(s) => ClusterLoader::child_ends_with_its_node(s, events, pos),
            DeformerState::Skin(s) => SkinLoader::child_ends_with_its_node(s, events, pos),
            _ => {},
        }
    }

    fn on_child_node(&mut self, reader: &mut EventReader<'_>, node_info: RawNodeInfo<'_>) -> (r:
        Result<()>) {
        match self {
            DeformerLoader::BlendShape(loader) => loader.on_child_node(reader, node_info),
            DeformerLoader::BlendShapeChannel(loader) => loader.on_child_node(reader, node_info),
            DeformerLoader::Cluster(loader) => loader.on_child_node(reader, node_info),
            DeformerLoader::Skin(loader) => loader.on_child_node(reader, node_info),
            DeformerLoader::Unknown(_) => ignore_current_node(reader),
        }
    }
}

/// The loader of an unknown object skips the whole node and keeps the identity.
pub proof fn unknown_deformer_skips_its_node(identity: Identity, events: Seq<FbxEvent>, pos: int)
    requires
        node_end(events, pos) is Some,
    ensures
        children::<DeformerLoader>(DeformerState::Unknown(identity), events, pos) == skipped(
            DeformerState::Unknown(identity),
            events,
            pos,
        ),
    decreases events.len() - pos,
{
    if 0 <= pos < events.len() {
        if events[pos] is StartNode {
            node_end_is_later(events, pos + 1);
            let next = node_end(events, pos + 1)->0;
            unknown_deformer_skips_its_node(identity, events, next);
            assert(DeformerLoader::child(DeformerState::Unknown(identity), events, pos + 1) == Some(
                (DeformerState::Unknown(identity), next),
            ));
        }
    }
}

/// A deformer of a class or subclass that is not known is made into an
/// unknown object that holds its identity, wherever its node ends.
pub proof fn unknown_deformer_is_kept(identity: Identity, events: Seq<FbxEvent>, pos: int)
    requires
        deformer_start(identity) is Unknown,
        node_end(events, pos) is Some,
    ensures
        children::<DeformerLoader>(deformer_start(identity), events, pos) matches Some((after, end))
            && end == node_end(events, pos)->0 && deformer_of(after) == Some(
            DeformerView::Unknown(identity),
        ),
{
    unknown_deformer_skips_its_node(identity, events, pos);
}

} // verus!
