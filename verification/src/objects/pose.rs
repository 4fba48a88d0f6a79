//! Contains `/Objects/Pose` node-related stuff.

use vstd::prelude::*;
use crate::definitions::Definitions;
use crate::error::{Error, Result};
use crate::event::{first_i32, first_i64, first_int32, first_long, EventReader, FbxEvent, Property};
use crate::node_loader::{
    cells_at, children, ignore_current_node, loader_ends_with_its_node, name_at, skipped, NodeLoad,
    NodeLoader, NodeLoaderCommon, RawNodeInfo,
};
use crate::objects::deformer::cluster::{first_matrix, first_matrix_of};
use crate::objects::properties::{Identity, ObjectProperties};
use crate::text::same_text;
use crate::utils::view_of;

verus! {

/// A pose: the places of some nodes.
#[derive(Debug, Clone)]
pub struct Pose {
    pub id: i64,
    pub name: String,
    pub pose_nodes: Vec<PoseNode>,
}

/// A pose, as a mathematical value.
pub ghost struct PoseView {
    pub id: i64,
    pub name: Seq<char>,
    pub pose_nodes: Seq<PoseNode>,
}

impl View for Pose {
    type V = PoseView;

    open spec fn view(&self) -> PoseView {
        PoseView { id: self.id, name: self.name@, pose_nodes: self.pose_nodes@ }
    }
}

#[derive(Debug)]
pub struct PoseLoader<'a> {
    obj_props: &'a ObjectProperties<'a>,
    nb_pose_nodes: Option<i32>,
    pose_nodes: Option<Vec<PoseNode>>,
}

/// What a pose loader holds, as a mathematical value.
pub ghost struct PoseState {
    pub identity: Identity,
    pub nb_pose_nodes: Option<i32>,
    pub pose_nodes: Option<Seq<PoseNode>>,
}

/// The state that a pose loader begins with.
pub open spec fn pose_start(identity: Identity) -> PoseState {
    PoseState { identity, nb_pose_nodes: None, pose_nodes: None }
}

/// What the first `NbPoseNodes` with a count that is not negative changes:
/// it sets the count and begins the list of nodes. Any other `NbPoseNodes`
/// changes nothing.
pub open spec fn pose_count(state: PoseState, cells: Seq<Property>) -> PoseState {
    if state.nb_pose_nodes is None && first_int32(cells) is Some && first_int32(cells)->0 >= 0 {
        PoseState {
            nb_pose_nodes: first_int32(cells),
            pose_nodes: Some(Seq::empty()),
            ..state
        }
    } else {
        state
    }
}

/// The pose that a state makes: none without a count and a list of nodes.
/// The count need not be the number of nodes.
pub open spec fn pose_of(state: PoseState) -> Option<PoseView> {
    if state.nb_pose_nodes is Some && state.pose_nodes is Some {
        Some(
            PoseView {
                id: state.identity.id,
                name: state.identity.name,
                pose_nodes: state.pose_nodes->0,
            },
        )
    } else {
        None
    }
}

impl<'a> PoseLoader<'a> {
    pub fn new(_definitions: &'a Definitions, obj_props: &'a ObjectProperties<'a>) -> (r: Self)
        ensures
            r.state() == pose_start(obj_props@),
    {
        PoseLoader { obj_props: obj_props, nb_pose_nodes: None, pose_nodes: None }
    }
}

impl<'a> NodeLoaderCommon for PoseLoader<'a> {
    type Target = Option<Pose>;

    type State = PoseState;

    type Outcome = Option<PoseView>;

    closed spec fn state(&self) -> PoseState {
        PoseState {
            identity: self.obj_props@,
            nb_pose_nodes: self.nb_pose_nodes,
            pose_nodes: view_of(self.pose_nodes),
        }
    }

    open spec fn outcome(target: &Option<Pose>) -> Option<PoseView> {
        view_of(*target)
    }

    open spec fn finish(state: PoseState) -> Option<Option<PoseView>> {
        Some(pose_of(state))
    }

    open spec fn always_loads() -> bool {
        true
    }

    open spec fn refuses_with(e: Error) -> bool {
        false
    }

    fn on_finish(self) -> (r: Result<Option<Pose>>) {
        if self.nb_pose_nodes.is_none() {
            return Ok(None);
        }
        match self.pose_nodes {
            // The number of nodes may differ from the count: the pose is kept.
            Some(pose_nodes) => Ok(
                Some(
                    Pose {
                        id: self.obj_props.id,
                        name: self.obj_props.name.to_owned(),
                        pose_nodes: pose_nodes,
                    },
                ),
            ),
            None => Ok(None),
        }
    }
}

impl<'a> NodeLoader for PoseLoader<'a> {
    /// `NbPoseNodes` changes what `pose_count` says and is skipped. With the
    /// list of nodes begun, `PoseNode` is loaded as a node and added if it is
    /// complete. Any other child is skipped.
    open spec fn child(state: PoseState, events: Seq<FbxEvent>, pos: int) -> Option<(PoseState, int)> {
        if name_at(events, pos) == "NbPoseNodes"@ {
            skipped(pose_count(state, cells_at(events, pos)), events, pos)
        } else if name_at(events, pos) == "PoseNode"@ && state.pose_nodes is Some {
            match children::<PoseNodeLoader>(
                PoseNodeLoader { node: None, matrix: None },
                events,
                pos,
            ) {
                Some((after, end)) => match pose_node_of(after) {
                    Some(node) => Some(
                        (PoseState { pose_nodes: Some(state.pose_nodes->0.push(node)), ..state }, end),
                    ),
                    None => Some((state, end)),
                },
                None => None,
            }
        } else {
            skipped(state, events, pos)
        }
    }

    proof fn child_ends_with_its_node(state: Self::State, events: Seq<FbxEvent>, pos: int) {
        loader_ends_with_its_node::<PoseNodeLoader>(
            PoseNodeLoader { node: None, matrix: None },
            events,
            pos,
        );
    }

    fn on_child_node(&mut self, reader: &mut EventReader<'_>, node_info: RawNodeInfo<'_>) -> (r:
        Result<()>) {
        let RawNodeInfo { name, properties } = node_info;
        if same_text(name, "NbPoseNodes") {
            if self.nb_pose_nodes.is_none() {
                match first_i32(properties) {
                    Some(val) => {
                        if val >= 0 {
                            self.nb_pose_nodes = Some(val);
                            self.pose_nodes = Some(Vec::new());
                        }
                    },
                    None => {},
                }
            }
            ignore_current_node(reader)
        } else if same_text(name, "PoseNode") && self.pose_nodes.is_some() {
            match PoseNodeLoader::new().load(reader) {
                Ok(Some(pose_node)) => {
                    match &mut self.pose_nodes {
                        Some(pose_nodes) => {
                            pose_nodes.push(pose_node);
                        },
                        None => {},
                    }
                    Ok(())
                },
                Ok(None) => Ok(()),
                Err(e) => Err(e),
            }
        } else {
            ignore_current_node(reader)
        }
    }
}

/// The place of one node in a pose. The matrix is sixteen single precision
/// numbers by their bit patterns.
#[derive(Debug, Clone, Copy)]
pub struct PoseNode {
    pub node: i64,
    pub matrix: [[u32; 4]; 4],
}

#[derive(Debug)]
pub struct PoseNodeLoader {
    pub node: Option<i64>,
    pub matrix: Option<[[u32; 4]; 4]>,
}

impl PoseNodeLoader {
    pub fn new() -> (r: Self)
        ensures
            r == (PoseNodeLoader { node: None, matrix: None }),
    {
        PoseNodeLoader { node: None, matrix: None }
    }
}

/// What a child of a pose node's node changes: `Node` sets the node to the
/// 64 bit integer of its first cell, `Matrix` sets the matrix to that of its
/// first cell.
pub open spec fn pose_node_child(state: PoseNodeLoader, name: Seq<char>, cells: Seq<Property>) -> PoseNodeLoader {
    if name == "Node"@ {
        PoseNodeLoader { node: first_long(cells), ..state }
    } else if name == "Matrix"@ {
        PoseNodeLoader { matrix: first_matrix(cells), ..state }
    } else {
        state
    }
}

/// The node of a pose that a state makes: none without node or matrix.
pub open spec fn pose_node_of(state: PoseNodeLoader) -> Option<PoseNode> {
    if state.node is Some && state.matrix is Some {
        Some(PoseNode { node: state.node->0, matrix: state.matrix->0 })
    } else {
        None
    }
}

impl NodeLoaderCommon for PoseNodeLoader {
    type Target = Option<PoseNode>;

    type State = PoseNodeLoader;

    type Outcome = Option<PoseNode>;

    open spec fn state(&self) -> PoseNodeLoader {
        *self
    }

    open spec fn outcome(target: &Option<PoseNode>) -> Option<PoseNode> {
        *target
    }

    open spec fn finish(state: PoseNodeLoader) -> Option<Option<PoseNode>> {
        Some(pose_node_of(state))
    }

    open spec fn always_loads() -> bool {
        true
    }

    open spec fn refuses_with(e: Error) -> bool {
        false
    }

    fn on_finish(self) -> (r: Result<Option<PoseNode>>) {
        match (self.node, self.matrix) {
            (Some(node), Some(matrix)) => Ok(Some(PoseNode { node: node, matrix: matrix })),
            _ => Ok(None),
        }
    }
}

impl NodeLoader for PoseNodeLoader {
    open spec fn child(state: PoseNodeLoader, events: Seq<FbxEvent>, pos: int) -> Option<
        (PoseNodeLoader, int),
    > {
        skipped(pose_node_child(state, name_at(events, pos), cells_at(events, pos)), events, pos)
    }

    proof fn child_ends_with_its_node(state: Self::State, events: Seq<FbxEvent>, pos: int) {
    }

    fn on_child_node(&mut self, reader: &mut EventReader<'_>, node_info: RawNodeInfo<'_>) -> (r:
        Result<()>) {
        let RawNodeInfo { name, properties } = node_info;
        if same_text(name, "Node") {
            self.node = first_i64(properties);
        } else if same_text(name, "Matrix") {
            self.matrix = first_matrix_of(properties);
        }
        ignore_current_node(reader)
    }
}

} // verus!
