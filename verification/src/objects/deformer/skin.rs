//! Contains `/Objects/Deformer(Skin)` node-related stuff.

use vstd::prelude::*;
use crate::definitions::Definitions;
use crate::error::{Error, Result};
use crate::event::{
    doubles_of, first_as_f64, first_number, first_string, first_text, EventReader, FbxEvent,
    Property,
};
use crate::node_loader::{
    cells_at, ignore_current_node, name_at, skipped, NodeLoader, NodeLoaderCommon, RawNodeInfo,
};
use crate::objects::properties::{Identity, ObjectProperties};
use crate::text::same_text;

verus! {

/// A skin. The accuracy is a double precision number by its bit pattern.
#[derive(Debug, Clone, Copy)]
pub struct Skin {
    pub id: i64,
    pub link_deform_accuracy: u64,
    pub skinning_type: SkinningType,
}

#[derive(Debug)]
pub struct SkinLoader<'a> {
    obj_props: &'a ObjectProperties<'a>,
    link_deform_accuracy: Option<u64>,
    skinning_type: Option<SkinningType>,
}

/// What a skin loader holds, as a mathematical value.
pub ghost struct SkinState {
    pub identity: Identity,
    pub link_deform_accuracy: Option<u64>,
    pub skinning_type: Option<SkinningType>,
}

/// The state that a skin loader begins with.
pub open spec fn skin_start(identity: Identity) -> SkinState {
    SkinState { identity, link_deform_accuracy: None, skinning_type: None }
}

/// The skinning type that the first cell names.
pub open spec fn first_skinning(cells: Seq<Property>) -> Option<SkinningType> {
    match first_text(cells) {
        Some(text) => skinning_type_of(text),
        None => None,
    }
}

/// What a child of a skin node changes: `Link_DeformAcuracy` sets the
/// accuracy to the number of its first cell, `SkinningType` sets the
/// skinning type to what its first cell names.
pub open spec fn skin_child(state: SkinState, name: Seq<char>, cells: Seq<Property>) -> SkinState {
    if name == "Link_DeformAcuracy"@ {
        SkinState { link_deform_accuracy: doubles_of(first_number(cells)), ..state }
    } else if name == "SkinningType"@ {
        SkinState { skinning_type: first_skinning(cells), ..state }
    } else {
        state
    }
}

/// The skin that a state makes: none without accuracy or skinning type.
pub open spec fn skin_of(state: SkinState) -> Option<Skin> {
    if state.link_deform_accuracy is Some && state.skinning_type is Some {
        Some(
            Skin {
                id: state.identity.id,
                link_deform_accuracy: state.link_deform_accuracy->0,
                skinning_type: state.skinning_type->0,
            },
        )
    } else {
        None
    }
}

impl<'a> SkinLoader<'a> {
    pub fn new(_definitions: &'a Definitions, obj_props: &'a ObjectProperties<'a>) -> (r: Self)
        ensures
            r.state() == skin_start(obj_props@),
    {
        SkinLoader { obj_props: obj_props, link_deform_accuracy: None, skinning_type: None }
    }
}

impl<'a> NodeLoaderCommon for SkinLoader<'a> {
    type Target = Option<Skin>;

    type State = SkinState;

    type Outcome = Option<Skin>;

    closed spec fn state(&self) -> SkinState {
        SkinState {
            identity: self.obj_props@,
            link_deform_accuracy: self.link_deform_accuracy,
            skinning_type: self.skinning_type,
        }
    }

    open spec fn outcome(target: &Option<Skin>) -> Option<Skin> {
        *target
    }

    open spec fn finish(state: SkinState) -> Option<Option<Skin>> {
        Some(skin_of(state))
    }

    open spec fn always_loads() -> bool {
        true
    }

    open spec fn refuses_with(e: Error) -> bool {
        false
    }

    fn on_finish(self) -> (r: Result<Option<Skin>>) {
        match (self.link_deform_accuracy, self.skinning_type) {
            (Some(link_deform_accuracy), Some(skinning_type)) => Ok(
                Some(
                    Skin {
                        id: self.obj_props.id,
                        link_deform_accuracy: link_deform_accuracy,
                        skinning_type: skinning_type,
                    },
                ),
            ),
            _ => Ok(None),
        }
    }
}

impl<'a> NodeLoader for SkinLoader<'a> {
    open spec fn child(state: SkinState, events: Seq<FbxEvent>, pos: int) -> Option<(SkinState, int)> {
        skipped(skin_child(state, name_at(events, pos), cells_at(events, pos)), events, pos)
    }

    proof fn child_ends_with_its_node(state: Self::State, events: Seq<FbxEvent>, pos: int) {
    }

    fn on_child_node(&mut self, reader: &mut EventReader<'_>, node_info: RawNodeInfo<'_>) -> (r:
        Result<()>) {
        let RawNodeInfo { name, properties } = node_info;
        if same_text(name, "Link_DeformAcuracy") {
            self.link_deform_accuracy = first_as_f64(properties);
        } else if same_text(name, "SkinningType") {
            self.skinning_type = match first_string(properties) {
                Some(s) => SkinningType::from_str(s),
                None => None,
            };
        }
        ignore_current_node(reader)
    }
}

/// Skinning type.
#[derive(Debug, Clone, Copy, PartialEq, Eq, Structural)]
pub enum SkinningType {
    Rigid,
    Linear,
    DualQuaternion,
    Blend,
}

/// The skinning type that a text names.
pub open spec fn skinning_type_of(text: Seq<char>) -> Option<SkinningType> {
    if text == "Rigid"@ {
        Some(SkinningType::Rigid)
    } else if text == "Linear"@ {
        Some(SkinningType::Linear)
    } else if text == "DualQuaternion"@ {
        Some(SkinningType::DualQuaternion)
    } else if text == "Blend"@ {
        Some(SkinningType::Blend)
    } else {
        None
    }
}

impl SkinningType {
    pub fn from_str(val: &str) -> (r: Option<Self>)
        ensures
            r == skinning_type_of(val@),
    {
        if same_text(val, "Rigid") {
            Some(SkinningType::Rigid)
        } else if same_text(val, "Linear") {
            Some(SkinningType::Linear)
        } else if same_text(val, "DualQuaternion") {
            Some(SkinningType::DualQuaternion)
        } else if same_text(val, "Blend") {
            Some(SkinningType::Blend)
        } else {
            None
        }
    }
}

} // verus!
