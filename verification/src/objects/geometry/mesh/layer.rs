//! Contains the layers of a mesh: which layer elements belong together.

use vstd::prelude::*;
use crate::error::{Error, Result};
use crate::event::{
    first_i32, first_int32, first_owned, first_text, EventReader, FbxEvent, Property,
};
use crate::node_loader::{
    cells_at, children, ignore_current_node, loader_ends_with_its_node, name_at, skipped, NodeLoad,
    NodeLoader, NodeLoaderCommon, RawNodeInfo,
};
use crate::text::same_text;
use crate::utils::view_of;

verus! {

/// A layer: for each kind of layer element, which of the mesh's elements of
/// that kind it uses.
#[derive(Debug, Clone)]
pub struct Layer {
    pub channel: i32,
    pub material: Vec<i32>,
    pub normal: Vec<i32>,
    pub uv: Vec<i32>,
}

/// A layer, as a mathematical value.
pub ghost struct LayerView {
    pub channel: i32,
    pub material: Seq<i32>,
    pub normal: Seq<i32>,
    pub uv: Seq<i32>,
}

impl View for Layer {
    type V = LayerView;

    open spec fn view(&self) -> LayerView {
        LayerView {
            channel: self.channel,
            material: self.material@,
            normal: self.normal@,
            uv: self.uv@,
        }
    }
}

#[derive(Debug)]
pub struct LayerLoader {
    channel: i32,
    material: Vec<i32>,
    normal: Vec<i32>,
    uv: Vec<i32>,
}

/// The layer that begins with a channel: it uses no elements yet.
pub open spec fn layer_start(channel: i32) -> LayerView {
    LayerView { channel, material: Seq::empty(), normal: Seq::empty(), uv: Seq::empty() }
}

/// The state that the cells of a layer node begin its loader with: the
/// first cell is the channel, a 32 bit integer, without which there is no
/// loader.
pub open spec fn layer_start_of(cells: Seq<Property>) -> Option<LayerView> {
    match first_int32(cells) {
        Some(channel) => Some(layer_start(channel)),
        None => None,
    }
}

/// A layer with one more element: the typed index is added to the list of
/// the element's kind, `LayerElementMaterial`, `LayerElementNormal` or
/// `LayerElementUV`. Any other kind changes nothing.
pub open spec fn with_element(state: LayerView, kind: Seq<char>, typed_index: i32) -> LayerView {
    if kind == "LayerElementMaterial"@ {
        LayerView { material: state.material.push(typed_index), ..state }
    } else if kind == "LayerElementNormal"@ {
        LayerView { normal: state.normal.push(typed_index), ..state }
    } else if kind == "LayerElementUV"@ {
        LayerView { uv: state.uv.push(typed_index), ..state }
    } else {
        state
    }
}

impl LayerLoader {
    pub fn new(channel: i32) -> (r: Self)
        ensures
            r.state() == layer_start(channel),
    {
        LayerLoader { channel: channel, material: Vec::new(), normal: Vec::new(), uv: Vec::new() }
    }

    pub fn from_node_properties(properties: &Vec<Property>) -> (r: Option<Self>)
        ensures
            match layer_start_of(properties@) {
                Some(state) => r is Some && r->0.state() == state,
                None => r is None,
            },
    {
        match first_i32(properties) {
            Some(channel) => Some(Self::new(channel)),
            None => None,
        }
    }
}

impl NodeLoaderCommon for LayerLoader {
    type Target = Option<Layer>;

    type State = LayerView;

    type Outcome = Option<LayerView>;

    closed spec fn state(&self) -> LayerView {
        LayerView {
            channel: self.channel,
            material: self.material@,
            normal: self.normal@,
            uv: self.uv@,
        }
    }

    open spec fn outcome(target: &Option<Layer>) -> Option<LayerView> {
        view_of(*target)
    }

    open spec fn finish(state: LayerView) -> Option<Option<LayerView>> {
        Some(Some(state))
    }

    open spec fn always_loads() -> bool {
        true
    }

    open spec fn refuses_with(e: Error) -> bool {
        false
    }

    fn on_finish(self) -> (r: Result<Option<Layer>>) {
        Ok(
            Some(
                Layer {
                    channel: self.channel,
                    normal: self.normal,
                    uv: self.uv,
                    material: self.material,
                },
            ),
        )
    }
}

impl NodeLoader for LayerLoader {
    /// A child `LayerElement` is loaded as the kind and typed index of an
    /// element, which is added if both are there. Any other child is skipped.
    open spec fn child(state: LayerView, events: Seq<FbxEvent>, pos: int) -> Option<(LayerView, int)> {
        if name_at(events, pos) == "LayerElement"@ {
            match children::<LayerElementLoader>(
                TypedIndex { layer_element_type: None, typed_index: None },
                events,
                pos,
            ) {
                Some((after, end)) => match typed_index_of(after) {
                    Some((kind, typed_index)) => Some((with_element(state, kind, typed_index), end)),
                    None => Some((state, end)),
                },
                None => None,
            }
        } else {
            skipped(state, events, pos)
        }
    }

    proof fn child_ends_with_its_node(state: Self::State, events: Seq<FbxEvent>, pos: int) {
        loader_ends_with_its_node::<LayerElementLoader>(
            TypedIndex { layer_element_type: None, typed_index: None },
            events,
            pos,
        );
    }

    fn on_child_node(&mut self, reader: &mut EventReader<'_>, node_info: RawNodeInfo<'_>) -> (r:
        Result<()>) {
        let RawNodeInfo { name, .. } = node_info;
        if same_text(name, "LayerElement") {
            match LayerElementLoader::new().load(reader) {
                Ok(Some((kind, typed_index))) => {
                    if same_text(kind.as_str(), "LayerElementMaterial") {
                        self.material.push(typed_index);
                    } else if same_text(kind.as_str(), "LayerElementNormal") {
                        self.normal.push(typed_index);
                    } else if same_text(kind.as_str(), "LayerElementUV") {
                        self.uv.push(typed_index);
                    }
                    Ok(())
                },
                Ok(None) => Ok(()),
                Err(e) => Err(e),
            }
        } else {
            ignore_current_node(reader)
        }
    }
}

/// The loader of the node that names one element of a layer.
#[derive(Debug)]
pub struct LayerElementLoader {
    layer_element_type: Option<String>,
    typed_index: Option<i32>,
}

/// What names one element of a layer, as a mathematical value.
pub ghost struct TypedIndex {
    pub layer_element_type: Option<Seq<char>>,
    pub typed_index: Option<i32>,
}

/// What a child of a `LayerElement` node changes: `Type` sets the kind to
/// the text of its first cell, `TypedIndex` the index to the 32 bit integer
/// of its first cell.
pub open spec fn typed_index_child(state: TypedIndex, name: Seq<char>, cells: Seq<Property>) -> TypedIndex {
    if name == "Type"@ {
        TypedIndex { layer_element_type: first_text(cells), ..state }
    } else if name == "TypedIndex"@ {
        TypedIndex { typed_index: first_int32(cells), ..state }
    } else {
        state
    }
}

/// Kind and index of an element, where both are there.
pub open spec fn typed_index_of(state: TypedIndex) -> Option<(Seq<char>, i32)> {
    if state.layer_element_type is Some && state.typed_index is Some {
        Some((state.layer_element_type->0, state.typed_index->0))
    } else {
        None
    }
}

/// The view of a kind and index that may be missing.
pub open spec fn typed_view(target: Option<(String, i32)>) -> Option<(Seq<char>, i32)> {
    match target {
        Some((kind, index)) => Some((kind@, index)),
        None => None,
    }
}

impl LayerElementLoader {
    pub fn new() -> (r: Self)
        ensures
            r.state() == (TypedIndex { layer_element_type: None, typed_index: None }),
    {
        LayerElementLoader { layer_element_type: None, typed_index: None }
    }
}

impl NodeLoaderCommon for LayerElementLoader {
    type Target = Option<(String, i32)>;

    type State = TypedIndex;

    type Outcome = Option<(Seq<char>, i32)>;

    closed spec fn state(&self) -> TypedIndex {
        TypedIndex {
            layer_element_type: view_of(self.layer_element_type),
            typed_index: self.typed_index,
        }
    }

    open spec fn outcome(target: &Option<(String, i32)>) -> Option<(Seq<char>, i32)> {
        typed_view(*target)
    }

    open spec fn finish(state: TypedIndex) -> Option<Option<(Seq<char>, i32)>> {
        Some(typed_index_of(state))
    }

    open spec fn always_loads() -> bool {
        true
    }

    open spec fn refuses_with(e: Error) -> bool {
        false
    }

    fn on_finish(self) -> (r: Result<Option<(String, i32)>>) {
        match (self.layer_element_type, self.typed_index) {
            (Some(layer_element_type), Some(typed_index)) => Ok(
                Some((layer_element_type, typed_index)),
            ),
            _ => Ok(None),
        }
    }
}

impl NodeLoader for LayerElementLoader {
    open spec fn child(state: TypedIndex, events: Seq<FbxEvent>, pos: int) -> Option<(TypedIndex, int)> {
        skipped(typed_index_child(state, name_at(events, pos), cells_at(events, pos)), events, pos)
    }

    proof fn child_ends_with_its_node(state: Self::State, events: Seq<FbxEvent>, pos: int) {
    }

    fn on_child_node(&mut self, reader: &mut EventReader<'_>, node_info: RawNodeInfo<'_>) -> (r:
        Result<()>) {
        let RawNodeInfo { name, properties } = node_info;
        if same_text(name, "Type") {
            self.layer_element_type = first_owned(properties);
        } else if same_text(name, "TypedIndex") {
            self.typed_index = first_i32(properties);
        }
        ignore_current_node(reader)
    }
}

} // verus!
