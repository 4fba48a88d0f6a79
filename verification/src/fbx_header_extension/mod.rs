//! Contains `/FBXHeaderExtension` node-related stuff.

use vstd::prelude::*;
use crate::error::{Error, Result};
use crate::event::{EventReader, FbxEvent};
use crate::node_loader::{ignore_current_node, skipped, NodeLoader, NodeLoaderCommon, RawNodeInfo};

verus! {

/// The header extension of a scene. Nothing of it is kept but that it was there.
#[derive(Debug, Clone, Copy, PartialEq, Eq, Structural)]
pub struct FbxHeaderExtension;

#[derive(Debug, Clone, Copy)]
pub struct FbxHeaderExtensionLoader;

impl FbxHeaderExtensionLoader {
    pub fn new() -> (r: Self)
        ensures
            r == FbxHeaderExtensionLoader,
    {
        FbxHeaderExtensionLoader
    }
}

impl NodeLoaderCommon for FbxHeaderExtensionLoader {
    type Target = FbxHeaderExtension;

    type State = ();

    type Outcome = ();

    open spec fn state(&self) -> () {
        ()
    }

    open spec fn outcome(target: &FbxHeaderExtension) -> () {
        ()
    }

    open spec fn finish(state: ()) -> Option<()> {
        Some(())
    }

    open spec fn always_loads() -> bool {
        true
    }

    open spec fn refuses_with(e: Error) -> bool {
        false
    }

    fn on_finish(self) -> (r: Result<FbxHeaderExtension>) {
        Ok(FbxHeaderExtension)
    }
}

impl NodeLoader for FbxHeaderExtensionLoader {
    /// Every child is skipped.
    open spec fn child(state: (), events: Seq<FbxEvent>, pos: int) -> Option<((), int)> {
        skipped((), events, pos)
    }

    proof fn child_ends_with_its_node(state: Self::State, events: Seq<FbxEvent>, pos: int) {
    }

    fn on_child_node(&mut self, reader: &mut EventReader<'_>, node_info: RawNodeInfo<'_>) -> (r:
        Result<()>) {
        ignore_current_node(reader)
    }
}

} // verus!
