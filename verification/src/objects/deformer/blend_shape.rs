//! Contains `/Objects/Deformer(BlendShape)` node-related stuff.

use vstd::prelude::*;
use crate::definitions::Definitions;
use crate::error::{Error, Result};
use crate::event::{EventReader, FbxEvent};
use crate::node_loader::{ignore_current_node, skipped, NodeLoader, NodeLoaderCommon, RawNodeInfo};
use crate::objects::properties::{Identity, ObjectProperties};

verus! {

#[derive(Debug, Clone)]
pub struct BlendShape {
    pub id: i64,
    pub name: String,
}

/// A blend shape, as a mathematical value.
pub ghost struct BlendShapeView {
    pub id: i64,
    pub name: Seq<char>,
}

impl View for BlendShape {
    type V = BlendShapeView;

    open spec fn view(&self) -> BlendShapeView {
        BlendShapeView { id: self.id, name: self.name@ }
    }
}

#[derive(Debug)]
pub struct BlendShapeLoader<'a> {
    obj_props: &'a ObjectProperties<'a>,
}

impl<'a> BlendShapeLoader<'a> {
    pub fn new(_definitions: &'a Definitions, obj_props: &'a ObjectProperties<'a>) -> (r: Self)
        ensures
            r.state() == obj_props@,
    {
        BlendShapeLoader { obj_props: obj_props }
    }
}

impl<'a> NodeLoaderCommon for BlendShapeLoader<'a> {
    type Target = Option<BlendShape>;

    type State = Identity;

    type Outcome = Option<BlendShapeView>;

    closed spec fn state(&self) -> Identity {
        self.obj_props@
    }

    open spec fn outcome(target: &Option<BlendShape>) -> Option<BlendShapeView> {
        crate::utils::view_of(*target)
    }

    /// A blend shape is its id and name.
    open spec fn finish(state: Identity) -> Option<Option<BlendShapeView>> {
        Some(Some(BlendShapeView { id: state.id, name: state.name }))
    }

    open spec fn always_loads() -> bool {
        true
    }

    open spec fn refuses_with(e: Error) -> bool {
        false
    }

    fn on_finish(self) -> (r: Result<Option<BlendShape>>) {
        Ok(Some(BlendShape { id: self.obj_props.id, name: self.obj_props.name.to_owned() }))
    }
}

impl<'a> NodeLoader for BlendShapeLoader<'a> {
    /// Every child is skipped.
    open spec fn child(state: Identity, events: Seq<FbxEvent>, pos: int) -> Option<(Identity, int)> {
        skipped(state, events, pos)
    }

    proof fn child_ends_with_its_node(state: Self::State, events: Seq<FbxEvent>, pos: int) {
    }

    fn on_child_node(&mut self, reader: &mut EventReader<'_>, node_info: RawNodeInfo<'_>) -> (r:
        Result<()>) {
        ignore_current_node(reader)
    }
}

} // verus!
