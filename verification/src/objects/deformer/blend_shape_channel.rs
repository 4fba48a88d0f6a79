//! Contains `/Objects/Deformer(BlendShapeChannel)` node-related stuff.

use vstd::prelude::*;
use crate::definitions::Definitions;
use crate::error::{Error, Result};
use crate::event::{
    doubles_of, first_as_f64, first_number, first_singles, first_vec_f32, EventReader, FbxEvent,
    Property,
};
use crate::node_loader::{
    cells_at, ignore_current_node, name_at, skipped, NodeLoader, NodeLoaderCommon, RawNodeInfo,
};
use crate::objects::properties::{Identity, ObjectProperties};
use crate::text::same_text;
use crate::utils::view_of;

verus! {

/// A channel of a blend shape. The percentage is a double precision number
/// and the weights are single precision numbers, all by their bit patterns.
#[derive(Debug, Clone)]
pub struct BlendShapeChannel {
    pub id: i64,
    pub deform_percent: u64,
    pub full_weights: Vec<u32>,
}

/// A channel of a blend shape, as a mathematical value.
pub ghost struct ChannelView {
    pub id: i64,
    pub deform_percent: u64,
    pub full_weights: Seq<u32>,
}

impl View for BlendShapeChannel {
    type V = ChannelView;

    open spec fn view(&self) -> ChannelView {
        ChannelView {
            id: self.id,
            deform_percent: self.deform_percent,
            full_weights: self.full_weights@,
        }
    }
}

#[derive(Debug)]
pub struct BlendShapeChannelLoader<'a> {
    obj_props: &'a ObjectProperties<'a>,
    deform_percent: Option<u64>,
    full_weights: Option<Vec<u32>>,
}

/// What a channel loader holds, as a mathematical value.
pub ghost struct ChannelState {
    pub identity: Identity,
    pub deform_percent: Option<u64>,
    pub full_weights: Option<Seq<u32>>,
}

/// The state that a channel loader begins with.
pub open spec fn channel_start(identity: Identity) -> ChannelState {
    ChannelState { identity, deform_percent: None, full_weights: None }
}

/// What a child of a channel node changes: `DeformPercent` sets the
/// percentage to the number of its first cell, `FullWeights` sets the
/// weights to the numbers of its first cell.
pub open spec fn channel_child(state: ChannelState, name: Seq<char>, cells: Seq<Property>) -> ChannelState {
    if name == "DeformPercent"@ {
        ChannelState { deform_percent: doubles_of(first_number(cells)), ..state }
    } else if name == "FullWeights"@ {
        ChannelState { full_weights: first_singles(cells), ..state }
    } else {
        state
    }
}

/// The channel that a state makes: none without weights; a percentage that
/// is missing is zero.
pub open spec fn channel_of(state: ChannelState) -> Option<ChannelView> {
    match state.full_weights {
        Some(full_weights) => Some(
            ChannelView {
                id: state.identity.id,
                deform_percent: match state.deform_percent {
                    Some(p) => p,
                    None => 0,
                },
                full_weights,
            },
        ),
        None => None,
    }
}

impl<'a> BlendShapeChannelLoader<'a> {
    pub fn new(_definitions: &'a Definitions, obj_props: &'a ObjectProperties<'a>) -> (r: Self)
        ensures
            r.state() == channel_start(obj_props@),
    {
        BlendShapeChannelLoader { obj_props: obj_props, deform_percent: None, full_weights: None }
    }
}

impl<'a> NodeLoaderCommon for BlendShapeChannelLoader<'a> {
    type Target = Option<BlendShapeChannel>;

    type State = ChannelState;

    type Outcome = Option<ChannelView>;

    closed spec fn state(&self) -> ChannelState {
        ChannelState {
            identity: self.obj_props@,
            deform_percent: self.deform_percent,
            full_weights: view_of(self.full_weights),
        }
    }

    open spec fn outcome(target: &Option<BlendShapeChannel>) -> Option<ChannelView> {
        view_of(*target)
    }

    open spec fn finish(state: ChannelState) -> Option<Option<ChannelView>> {
        Some(channel_of(state))
    }

    open spec fn always_loads() -> bool {
        true
    }

    open spec fn refuses_with(e: Error) -> bool {
        false
    }

    fn on_finish(self) -> (r: Result<Option<BlendShapeChannel>>) {
        match self.full_weights {
            Some(full_weights) => Ok(
                Some(
                    BlendShapeChannel {
                        id: self.obj_props.id,
                        // Zero where it is missing: the bit pattern of 0.0 is 0.
                        deform_percent: match self.deform_percent {
                            Some(p) => p,
                            None => 0,
                        },
                        full_weights: full_weights,
                    },
                ),
            ),
            None => Ok(None),
        }
    }
}

impl<'a> NodeLoader for BlendShapeChannelLoader<'a> {
    open spec fn child(state: ChannelState, events: Seq<FbxEvent>, pos: int) -> Option<
        (ChannelState, int),
    > {
        skipped(channel_child(state, name_at(events, pos), cells_at(events, pos)), events, pos)
    }

    proof fn child_ends_with_its_node(state: Self::State, events: Seq<FbxEvent>, pos: int) {
    }

    fn on_child_node(&mut self, reader: &mut EventReader<'_>, node_info: RawNodeInfo<'_>) -> (r:
        Result<()>) {
        let RawNodeInfo { name, properties } = node_info;
        if same_text(name, "DeformPercent") {
            self.deform_percent = first_as_f64(properties);
        } else if same_text(name, "FullWeights") {
            self.full_weights = first_vec_f32(properties);
        }
        ignore_current_node(reader)
    }
}

} // verus!
