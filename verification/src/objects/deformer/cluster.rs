//! Contains `/Objects/Deformer(Cluster)` node-related stuff.

use vstd::prelude::*;
use crate::connections::text_at;
use crate::definitions::Definitions;
use crate::error::{Error, Result};
use crate::event::{
    first_int32s, first_singles, first_vec_f32, first_vec_i32, EventReader, FbxEvent, Property,
};
use crate::node_loader::{
    cells_at, ignore_current_node, name_at, skipped, NodeLoader, NodeLoaderCommon, RawNodeInfo,
};
use crate::objects::properties::{Identity, ObjectProperties};
use crate::text::same_text;
use crate::utils::{matrix_of, to_matrix, to_unsigned, unsigned, view_of};

verus! {

/// A cluster: the control points that one limb moves, and how much. Weights
/// and matrices are single precision numbers by their bit patterns.
#[derive(Debug, Clone)]
pub struct Cluster {
    pub id: i64,
    pub user_id: String,
    pub user_data: String,
    pub indices: Vec<u32>,
    pub weights: Vec<u32>,
    pub transform: [[u32; 4]; 4],
    pub transform_link: [[u32; 4]; 4],
}

/// A cluster, as a mathematical value.
pub ghost struct ClusterView {
    pub id: i64,
    pub user_id: Seq<char>,
    pub user_data: Seq<char>,
    pub indices: Seq<u32>,
    pub weights: Seq<u32>,
    pub transform: [[u32; 4]; 4],
    pub transform_link: [[u32; 4]; 4],
}

impl View for Cluster {
    type V = ClusterView;

    open spec fn view(&self) -> ClusterView {
        ClusterView {
            id: self.id,
            user_id: self.user_id@,
            user_data: self.user_data@,
            indices: self.indices@,
            weights: self.weights@,
            transform: self.transform,
            transform_link: self.transform_link,
        }
    }
}

#[derive(Debug)]
pub struct ClusterLoader<'a> {
    obj_props: &'a ObjectProperties<'a>,
    user_data: Option<(String, String)>,
    indices: Option<Vec<u32>>,
    weights: Option<Vec<u32>>,
    transform: Option<[[u32; 4]; 4]>,
    transform_link: Option<[[u32; 4]; 4]>,
}

/// What a cluster loader holds, as a mathematical value.
pub ghost struct ClusterState {
    pub identity: Identity,
    pub user_data: Option<(Seq<char>, Seq<char>)>,
    pub indices: Option<Seq<u32>>,
    pub weights: Option<Seq<u32>>,
    pub transform: Option<[[u32; 4]; 4]>,
    pub transform_link: Option<[[u32; 4]; 4]>,
}

/// The state that a cluster loader begins with.
pub open spec fn cluster_start(identity: Identity) -> ClusterState {
    ClusterState {
        identity,
        user_data: None,
        indices: None,
        weights: None,
        transform: None,
        transform_link: None,
    }
}

/// The indices in the first cell, an array of 32 bit integers taken as unsigned.
pub open spec fn first_indices(cells: Seq<Property>) -> Option<Seq<u32>> {
    match first_int32s(cells) {
        Some(values) => Some(unsigned(values)),
        None => None,
    }
}

/// The matrix in the first cell, an array of at least sixteen numbers.
pub open spec fn first_matrix(cells: Seq<Property>) -> Option<[[u32; 4]; 4]> {
    match first_singles(cells) {
        Some(flat) => matrix_of(flat),
        None => None,
    }
}

/// What a child of a cluster node changes.
///
/// `UserData` with two text cells sets the user id and data. `Indexes` sets
/// the indices, `Weights` the weights, `Transform` and `TransformLink` the
/// matrices, each to what its first cell holds, or to nothing.
pub open spec fn cluster_child(state: ClusterState, name: Seq<char>, cells: Seq<Property>) -> ClusterState {
    if name == "UserData"@ {
        if text_at(cells, 0) is Some && text_at(cells, 1) is Some {
            ClusterState { user_data: Some((text_at(cells, 0)->0, text_at(cells, 1)->0)), ..state }
        } else {
            state
        }
    } else if name == "Indexes"@ {
        ClusterState { indices: first_indices(cells), ..state }
    } else if name == "Weights"@ {
        ClusterState { weights: first_singles(cells), ..state }
    } else if name == "Transform"@ {
        ClusterState { transform: first_matrix(cells), ..state }
    } else if name == "TransformLink"@ {
        ClusterState { transform_link: first_matrix(cells), ..state }
    } else {
        state
    }
}

/// How many there are of something that may be missing.
pub open spec fn count_of(values: Option<Seq<u32>>) -> Option<nat> {
    match values {
        Some(v) => Some(v.len()),
        None => None,
    }
}

/// The values, or none at all where they are missing.
pub open spec fn or_none(values: Option<Seq<u32>>) -> Seq<u32> {
    match values {
        Some(v) => v,
        None => Seq::empty(),
    }
}

/// The cluster that a state makes.
///
/// There is none where indices and weights differ in number, or only one of
/// them is there, and none without user data or either matrix. Indices and
/// weights may both be missing.
pub open spec fn cluster_of(state: ClusterState) -> Option<ClusterView> {
    if count_of(state.indices) != count_of(state.weights) {
        None
    } else if state.user_data is Some && state.transform is Some && state.transform_link is Some {
        let (user_id, user_data) = state.user_data->0;
        Some(
            ClusterView {
                id: state.identity.id,
                user_id,
                user_data,
                indices: or_none(state.indices),
                weights: or_none(state.weights),
                transform: state.transform->0,
                transform_link: state.transform_link->0,
            },
        )
    } else {
        None
    }
}

/// The view of a pair of texts that may be missing.
pub open spec fn pair_view(pair: Option<(String, String)>) -> Option<(Seq<char>, Seq<char>)> {
    match pair {
        Some((a, b)) => Some((a@, b@)),
        None => None,
    }
}

impl<'a> ClusterLoader<'a> {
    pub fn new(_definitions: &'a Definitions, obj_props: &'a ObjectProperties<'a>) -> (r: Self)
        ensures
            r.state() == cluster_start(obj_props@),
    {
        ClusterLoader {
            obj_props: obj_props,
            user_data: None,
            indices: None,
            weights: None,
            transform: None,
            transform_link: None,
        }
    }
}

fn same_count(a: &Option<Vec<u32>>, b: &Option<Vec<u32>>) -> (r: bool)
    ensures
        r == (count_of(view_of(*a)) == count_of(view_of(*b))),
{
    match (a, b) {
        (Some(x), Some(y)) => x.len() == y.len(),
        (None, None) => true,
        _ => false,
    }
}

fn or_new(values: Option<Vec<u32>>) -> (r: Vec<u32>)
    ensures
        r@ == or_none(view_of(values)),
{
    match values {
        Some(v) => v,
        None => Vec::new(),
    }
}

/// The matrix in the first cell, an array of at least sixteen numbers.
pub fn first_matrix_of(cells: &Vec<Property>) -> (r: Option<[[u32; 4]; 4]>)
    ensures
        r == first_matrix(cells@),
{
    match first_vec_f32(cells) {
        Some(v) => to_matrix(&v),
        None => None,
    }
}

/// The indices in the first cell, an array of 32 bit integers taken as unsigned.
pub fn first_indices_of(cells: &Vec<Property>) -> (r: Option<Vec<u32>>)
    ensures
        view_of(r) == first_indices(cells@),
{
    match first_vec_i32(cells) {
        Some(v) => Some(to_unsigned(v)),
        None => None,
    }
}

impl<'a> NodeLoaderCommon for ClusterLoader<'a> {
    type Target = Option<Cluster>;

    type State = ClusterState;

    type Outcome = Option<ClusterView>;

    closed spec fn state(&self) -> ClusterState {
        ClusterState {
            identity: self.obj_props@,
            user_data: pair_view(self.user_data),
            indices: view_of(self.indices),
            weights: view_of(self.weights),
            transform: self.transform,
            transform_link: self.transform_link,
        }
    }

    open spec fn outcome(target: &Option<Cluster>) -> Option<ClusterView> {
        view_of(*target)
    }

    open spec fn finish(state: ClusterState) -> Option<Option<ClusterView>> {
        Some(cluster_of(state))
    }

    open spec fn always_loads() -> bool {
        true
    }

    open spec fn refuses_with(e: Error) -> bool {
        false
    }

    fn on_finish(self) -> (r: Result<Option<Cluster>>) {
        if !same_count(&self.indices, &self.weights) {
            return Ok(None);
        }
        // Note that `Indexes` and `Weights` node might not exist.
        match (self.user_data, self.transform, self.transform_link) {
            (Some((user_id, user_data)), Some(transform), Some(transform_link)) => Ok(
                Some(
                    Cluster {
                        id: self.obj_props.id,
                        user_id: user_id,
                        user_data: user_data,
                        indices: or_new(self.indices),
                        weights: or_new(self.weights),
                        transform: transform,
                        transform_link: transform_link,
                    },
                ),
            ),
            _ => Ok(None),
        }
    }
}

impl<'a> NodeLoader for ClusterLoader<'a> {
    open spec fn child(state: ClusterState, events: Seq<FbxEvent>, pos: int) -> Option<
        (ClusterState, int),
    > {
        skipped(cluster_child(state, name_at(events, pos), cells_at(events, pos)), events, pos)
    }

    proof fn child_ends_with_its_node(state: Self::State, events: Seq<FbxEvent>, pos: int) {
    }

    fn on_child_node(&mut self, reader: &mut EventReader<'_>, node_info: RawNodeInfo<'_>) -> (r:
        Result<()>) {
        let RawNodeInfo { name, properties } = node_info;
        if same_text(name, "UserData") {
            let first = if properties.len() > 0 {
                properties[0].get_string()
            } else {
                None
            };
            let second = if properties.len() > 1 {
                properties[1].get_string()
            } else {
                None
            };
            match (first, second) {
                (Some(first), Some(second)) => {
                    self.user_data = Some((first.to_owned(), second.to_owned()));
                },
                _ => {},
            }
        } else if same_text(name, "Indexes") {
            self.indices = first_indices_of(properties);
        } else if same_text(name, "Weights") {
            self.weights = first_vec_f32(properties);
        } else if same_text(name, "Transform") {
            self.transform = first_matrix_of(properties);
        } else if same_text(name, "TransformLink") {
            self.transform_link = first_matrix_of(properties);
        }
        ignore_current_node(reader)
    }
}

} // verus!
