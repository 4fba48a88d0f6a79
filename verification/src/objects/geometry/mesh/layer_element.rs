//! Contains structs for layer elements.

use vstd::prelude::*;
use crate::error::{Error, Result};
use crate::event::{
    first_i32, first_int32, first_owned, first_singles, first_string, first_text, first_vec_f32,
    EventReader, FbxEvent, Property,
};
use crate::node_loader::{
    cells_at, ignore_current_node, name_at, skipped, NodeLoader, NodeLoaderCommon, RawNodeInfo,
};
use crate::objects::deformer::cluster::{first_indices, first_indices_of};
use crate::text::same_text;
use crate::utils::{pairs, to_pairs, to_triples, triples, view_of};

verus! {

/// Mapping mode of layer element.
///
/// Note that,
///
/// - "a control point" means a vertex (x, y, z),
/// - "a polygon vertex" means an index to control point (in other words, vertex index),
/// - and "a polygon" means group of polygon vertices.
#[derive(Debug, Clone, Copy, PartialEq, Eq, Structural)]
pub enum MappingMode {
    /// The mapping is undetermined.
    Undetermined,
    /// One mapping coordinate for each "control point".
    ByControlPoint,
    /// One mapping coordinate for each "polygon vertex".
    ByPolygonVertex,
    /// One mapping coordinate for each "polygon".
    ByPolygon,
    /// One mapping coordinate for each unique edge in the mesh.
    ByEdge,
    /// Only one mapping coordinate for the whole surface.
    AllSame,
}

/// The mapping mode that a text names.
pub open spec fn mapping_mode_of(name: Seq<char>) -> Option<MappingMode> {
    if name == "ByControlPoint"@ || name == "ByVertex"@ || name == "ByVertice"@ {
        Some(MappingMode::ByControlPoint)
    } else if name == "ByPolygonVertex"@ {
        Some(MappingMode::ByPolygonVertex)
    } else if name == "ByPolygon"@ {
        Some(MappingMode::ByPolygon)
    } else if name == "ByEdge"@ {
        Some(MappingMode::ByEdge)
    } else if name == "AllSame"@ {
        Some(MappingMode::AllSame)
    } else {
        None
    }
}

/// The mapping mode that the first cell names.
pub open spec fn first_mapping_mode(cells: Seq<Property>) -> Option<MappingMode> {
    match first_text(cells) {
        Some(text) => mapping_mode_of(text),
        None => None,
    }
}

impl MappingMode {
    /// Get a mapping mode value from the property value of a `MappingInformationType` node.
    pub fn from_string(name: &str) -> (r: Option<MappingMode>)
        ensures
            r == mapping_mode_of(name@),
    {
        if same_text(name, "ByControlPoint") || same_text(name, "ByVertex") || same_text(
            name,
            "ByVertice",
        ) {
            Some(MappingMode::ByControlPoint)
        } else if same_text(name, "ByPolygonVertex") {
            Some(MappingMode::ByPolygonVertex)
        } else if same_text(name, "ByPolygon") {
            Some(MappingMode::ByPolygon)
        } else if same_text(name, "ByEdge") {
            Some(MappingMode::ByEdge)
        } else if same_text(name, "AllSame") {
            Some(MappingMode::AllSame)
        } else {
            None
        }
    }

    pub fn from_node_properties(properties: &Vec<Property>) -> (r: Option<MappingMode>)
        ensures
            r == first_mapping_mode(properties@),
    {
        match first_string(properties) {
            Some(name) => Self::from_string(name),
            None => None,
        }
    }
}

/// Reference mode of layer elements.
#[derive(Debug, Clone)]
pub enum ReferenceMode {
    /// No indices is required to use vertices.
    Direct,
    /// The layer element has indices.
    IndexToDirect(Vec<u32>),
}

/// A reference mode, as a mathematical value.
pub ghost enum Reference {
    Direct,
    IndexToDirect(Seq<u32>),
}

impl View for ReferenceMode {
    type V = Reference;

    open spec fn view(&self) -> Reference {
        match self {
            ReferenceMode::Direct => Reference::Direct,
            ReferenceMode::IndexToDirect(v) => Reference::IndexToDirect(v@),
        }
    }
}

/// The reference mode of a kind: a direct one needs no indices, an indexed
/// one is there only with its indices.
pub open spec fn reference_of(kind: ReferenceModeType, indices: Option<Seq<u32>>) -> Option<Reference> {
    match kind {
        ReferenceModeType::Direct => Some(Reference::Direct),
        ReferenceModeType::IndexToDirect => match indices {
            Some(v) => Some(Reference::IndexToDirect(v)),
            None => None,
        },
    }
}

impl ReferenceMode {
    pub fn from_type_and_indices(t: ReferenceModeType, indices: Option<Vec<u32>>) -> (r: Option<Self>)
        ensures
            view_of(r) == reference_of(t, view_of(indices)),
    {
        match t {
            ReferenceModeType::Direct => Some(ReferenceMode::Direct),
            ReferenceModeType::IndexToDirect => match indices {
                Some(v) => Some(ReferenceMode::IndexToDirect(v)),
                None => None,
            },
        }
    }

    pub fn has_indices(&self) -> (r: bool)
        ensures
            r == (self@ is IndexToDirect),
    {
        match self {
            ReferenceMode::Direct => false,
            ReferenceMode::IndexToDirect(_) => true,
        }
    }
}

/// The normals, the texture coordinates or the materials of a mesh, with
/// the way they belong to its polygons.
#[derive(Debug, Clone)]
pub struct LayerElement<T: Copy> {
    pub channel: i32,
    pub name: String,
    pub mapping_mode: MappingMode,
    pub reference_mode: ReferenceMode,
    pub data: Option<Vec<T>>,
}

/// A layer element, as a mathematical value.
pub ghost struct Element<T> {
    pub channel: i32,
    pub name: Seq<char>,
    pub mapping_mode: MappingMode,
    pub reference_mode: Reference,
    pub data: Option<Seq<T>>,
}

impl<T: Copy> View for LayerElement<T> {
    type V = Element<T>;

    open spec fn view(&self) -> Element<T> {
        Element {
            channel: self.channel,
            name: self.name@,
            mapping_mode: self.mapping_mode,
            reference_mode: self.reference_mode@,
            data: view_of(self.data),
        }
    }
}

#[derive(Debug, Clone, Copy, PartialEq, Eq, Structural)]
pub enum ReferenceModeType {
    Direct,
    IndexToDirect,
}

/// A kind of value that a layer element can hold.
pub trait LoadAsLayerElementElement: Copy {
    /// The values that the cells of the data node give.
    spec fn elements_of(cells: Seq<Property>) -> Option<Seq<Self>>;

    fn node_properties_to_elements_array(properties: &Vec<Property>) -> (r: Option<Vec<Self>>)
        ensures
            view_of(r) == Self::elements_of(properties@),
    ;
}

/// The value of a layer element that holds no values: that of materials.
#[derive(Debug, Clone, Copy, PartialEq, Eq, Structural)]
pub struct NoElement;

impl LoadAsLayerElementElement for NoElement {
    /// Materials hold no values.
    open spec fn elements_of(cells: Seq<Property>) -> Option<Seq<NoElement>> {
        None
    }

    fn node_properties_to_elements_array(_properties: &Vec<Property>) -> (r: Option<
        Vec<NoElement>,
    >) {
        None
    }
}

/// The numbers of the first cell, where it is an array of floating point
/// numbers that is not empty.
pub open spec fn first_coordinates(cells: Seq<Property>) -> Option<Seq<u32>> {
    match first_singles(cells) {
        Some(flat) => if flat.len() > 0 {
            Some(flat)
        } else {
            None
        },
        None => None,
    }
}

/// The points of the first cell: its numbers, three to a point.
pub open spec fn first_points(cells: Seq<Property>) -> Option<Seq<[u32; 3]>> {
    match first_coordinates(cells) {
        Some(flat) => Some(triples(flat)),
        None => None,
    }
}

/// The points of the first cell: its numbers, three to a point.
pub fn first_points_of(cells: &Vec<Property>) -> (r: Option<Vec<[u32; 3]>>)
    ensures
        view_of(r) == first_points(cells@),
{
    match first_vec_f32(cells) {
        Some(flat) => if flat.len() > 0 {
            Some(to_triples(&flat))
        } else {
            None
        },
        None => None,
    }
}

impl LoadAsLayerElementElement for [u32; 2] {
    /// Texture coordinates are the numbers of the first cell, two to a pair.
    open spec fn elements_of(cells: Seq<Property>) -> Option<Seq<[u32; 2]>> {
        match first_coordinates(cells) {
            Some(flat) => Some(pairs(flat)),
            None => None,
        }
    }

    fn node_properties_to_elements_array(properties: &Vec<Property>) -> (r: Option<Vec<[u32; 2]>>) {
        match first_vec_f32(properties) {
            Some(flat) => if flat.len() > 0 {
                Some(to_pairs(&flat))
            } else {
                None
            },
            None => None,
        }
    }
}

impl LoadAsLayerElementElement for [u32; 3] {
    /// Normals are the numbers of the first cell, three to a normal.
    open spec fn elements_of(cells: Seq<Property>) -> Option<Seq<[u32; 3]>> {
        first_points(cells)
    }

    fn node_properties_to_elements_array(properties: &Vec<Property>) -> (r: Option<Vec<[u32; 3]>>) {
        first_points_of(properties)
    }
}

#[derive(Debug)]
pub struct LayerElementLoader<'a, T: LoadAsLayerElementElement> {
    pub data_node_name: &'a str,
    pub index_node_name: &'a str,
    pub channel: i32,
    pub name: Option<String>,
    pub mapping_mode: Option<MappingMode>,
    pub reference_mode: Option<ReferenceModeType>,
    pub data: Option<Vec<T>>,
    pub index: Option<Vec<u32>>,
}

/// What the loader of a layer element holds, as a mathematical value.
pub ghost struct ElementState<T> {
    pub data_node_name: Seq<char>,
    pub index_node_name: Seq<char>,
    pub channel: i32,
    pub name: Option<Seq<char>>,
    pub mapping_mode: Option<MappingMode>,
    pub reference_mode: Option<ReferenceModeType>,
    pub data: Option<Seq<T>>,
    pub index: Option<Seq<u32>>,
}

/// The state that the loader of a layer element begins with.
pub open spec fn element_start<T>(channel: i32, data_node_name: Seq<char>, index_node_name: Seq<char>) -> ElementState<T> {
    ElementState {
        data_node_name,
        index_node_name,
        channel,
        name: None,
        mapping_mode: None,
        reference_mode: None,
        data: None,
        index: None,
    }
}

/// The state that the cells of the node of a layer element begin its loader
/// with: the first cell is the channel, a 32 bit integer, without which
/// there is no loader.
pub open spec fn element_start_of<T>(cells: Seq<Property>, data_node_name: Seq<char>, index_node_name: Seq<char>) -> Option<ElementState<T>> {
    match first_int32(cells) {
        Some(channel) => Some(element_start(channel, data_node_name, index_node_name)),
        None => None,
    }
}

/// What a child of the node of a layer element changes.
///
/// `Name` sets the name and `MappingInformationType` the mapping mode, each
/// to what its first cell gives. `ReferenceInformationType` sets the kind of
/// reference to direct for `Direct` and to indexed for `IndexToDirect` or
/// `Index`. The data node sets the data and the index node the indices.
pub open spec fn element_child<T: LoadAsLayerElementElement>(state: ElementState<T>, name: Seq<char>, cells: Seq<Property>) -> ElementState<T> {
    if name == "Version"@ {
        state
    } else if name == "Name"@ {
        ElementState { name: first_text(cells), ..state }
    } else if name == "MappingInformationType"@ {
        ElementState { mapping_mode: first_mapping_mode(cells), ..state }
    } else if name == "ReferenceInformationType"@ {
        if first_text(cells) == Some("Direct"@) {
            ElementState { reference_mode: Some(ReferenceModeType::Direct), ..state }
        } else if first_text(cells) == Some("IndexToDirect"@) || first_text(cells) == Some("Index"@) {
            ElementState { reference_mode: Some(ReferenceModeType::IndexToDirect), ..state }
        } else {
            state
        }
    } else if name == state.data_node_name {
        ElementState { data: T::elements_of(cells), ..state }
    } else if name == state.index_node_name {
        ElementState { index: first_indices(cells), ..state }
    } else {
        state
    }
}

/// The layer element that a state makes: none without a name, a mapping
/// mode or a kind of reference, and none where the reference is indexed and
/// the indices are missing.
pub open spec fn element_of<T>(state: ElementState<T>) -> Option<Element<T>> {
    if state.name is Some && state.mapping_mode is Some && state.reference_mode is Some
        && reference_of(state.reference_mode->0, state.index) is Some {
        Some(
            Element {
                channel: state.channel,
                name: state.name->0,
                mapping_mode: state.mapping_mode->0,
                reference_mode: reference_of(state.reference_mode->0, state.index)->0,
                data: state.data,
            },
        )
    } else {
        None
    }
}

impl<'a, T: LoadAsLayerElementElement> LayerElementLoader<'a, T> {
    pub fn from_node_properties(
        properties: &Vec<Property>,
        data_node_name: &'a str,
        index_node_name: &'a str,
    ) -> (r: Option<Self>)
        ensures
            match element_start_of::<T>(properties@, data_node_name@, index_node_name@) {
                Some(state) => r is Some && r->0.state() == state,
                None => r is None,
            },
    {
        match first_i32(properties) {
            Some(channel) => Some(Self::new(channel, data_node_name, index_node_name)),
            None => None,
        }
    }

    pub fn new(channel: i32, data_node_name: &'a str, index_node_name: &'a str) -> (r: Self)
        ensures
            r.state() == element_start::<T>(channel, data_node_name@, index_node_name@),
    {
        LayerElementLoader {
            data_node_name: data_node_name,
            index_node_name: index_node_name,
            channel: channel,
            name: None,
            mapping_mode: None,
            reference_mode: None,
            data: None,
            index: None,
        }
    }
}

impl<'a, T: LoadAsLayerElementElement> NodeLoaderCommon for LayerElementLoader<'a, T> {
    type Target = Option<LayerElement<T>>;

    type State = ElementState<T>;

    type Outcome = Option<Element<T>>;

    open spec fn state(&self) -> ElementState<T> {
        ElementState {
            data_node_name: self.data_node_name@,
            index_node_name: self.index_node_name@,
            channel: self.channel,
            name: view_of(self.name),
            mapping_mode: self.mapping_mode,
            reference_mode: self.reference_mode,
            data: view_of(self.data),
            index: view_of(self.index),
        }
    }

    open spec fn outcome(target: &Option<LayerElement<T>>) -> Option<Element<T>> {
        view_of(*target)
    }

    open spec fn finish(state: ElementState<T>) -> Option<Option<Element<T>>> {
        Some(element_of(state))
    }

    open spec fn always_loads() -> bool {
        true
    }

    open spec fn refuses_with(e: Error) -> bool {
        false
    }

    fn on_finish(self) -> (r: Result<Option<LayerElement<T>>>) {
        let reference_mode = match self.reference_mode {
            Some(t) => ReferenceMode::from_type_and_indices(t, self.index),
            None => None,
        };
        match (self.name, self.mapping_mode, reference_mode) {
            (Some(name), Some(mapping_mode), Some(reference_mode)) => Ok(
                Some(
                    LayerElement {
                        channel: self.channel,
                        name: name,
                        mapping_mode: mapping_mode,
                        reference_mode: reference_mode,
                        data: self.data,
                    },
                ),
            ),
            _ => Ok(None),
        }
    }
}

impl<'a, T: LoadAsLayerElementElement> NodeLoader for LayerElementLoader<'a, T> {
    open spec fn child(state: ElementState<T>, events: Seq<FbxEvent>, pos: int) -> Option<
        (ElementState<T>, int),
    > {
        skipped(element_child(state, name_at(events, pos), cells_at(events, pos)), events, pos)
    }

    proof fn child_ends_with_its_node(state: Self::State, events: Seq<FbxEvent>, pos: int) {
    }

    fn on_child_node(&mut self, reader: &mut EventReader<'_>, node_info: RawNodeInfo<'_>) -> (r:
        Result<()>) {
        let RawNodeInfo { name, properties } = node_info;
        if same_text(name, "Version") {
        } else if same_text(name, "Name") {
            self.name = first_owned(properties);
        } else if same_text(name, "MappingInformationType") {
            self.mapping_mode = MappingMode::from_node_properties(properties);
        } else if same_text(name, "ReferenceInformationType") {
            match first_string(properties) {
                Some(kind) => {
                    if same_text(kind, "Direct") {
                        self.reference_mode = Some(ReferenceModeType::Direct);
                    } else if same_text(kind, "IndexToDirect") || same_text(kind, "Index") {
                        // `Index` is the older name of `IndexToDirect`.
                        self.reference_mode = Some(ReferenceModeType::IndexToDirect);
                    }
                },
                None => {},
            }
        } else if same_text(name, self.data_node_name) {
            self.data = T::node_properties_to_elements_array(properties);
        } else if same_text(name, self.index_node_name) {
            self.index = first_indices_of(properties);
        }
        ignore_current_node(reader)
    }
}

} // verus!
