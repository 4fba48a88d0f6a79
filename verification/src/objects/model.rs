//! Contains `/Objects/Model` node-related stuff.

use vstd::prelude::*;
use crate::property::GenericPropertiesLoader;
use crate::definitions::template::{defaults_in, Properties, Templates};
use crate::definitions::Definitions;
use crate::error::{Error, Result};
use crate::event::{
    first_bool, first_boolean, first_string, first_text, EventReader, FbxEvent, Property,
};
use crate::node_loader::{
    cells_at, ignore_current_node, loader_ends_with_its_node, name_at, skipped, NodeLoader,
    NodeLoaderCommon, RawNodeInfo,
};
use crate::objects::properties::{Identity, ObjectProperties};
use crate::property::{
    double_in, flag_in, load_properties, long_in, node_f64, node_flag, node_i64, properties_at,
    properties_view, resolve, GenericProperties, OptionalProperties,
};
use crate::text::same_text;
use crate::utils::view_of;

verus! {

/// A model: a node of the scene that places a mesh, a limb or nothing at all.
#[derive(Debug, Clone)]
pub struct Model {
    pub id: i64,
    pub name: String,
    pub shading: bool,
    pub culling: CullingType,
    /// The length of the axes, a double precision number by its bit pattern.
    pub axis_len: u64,
    pub show: bool,
    pub inherit_type: InheritType,
}

/// A model, as a mathematical value.
pub ghost struct ModelView {
    pub id: i64,
    pub name: Seq<char>,
    pub shading: bool,
    pub culling: CullingType,
    pub axis_len: u64,
    pub show: bool,
    pub inherit_type: InheritType,
}

impl View for Model {
    type V = ModelView;

    open spec fn view(&self) -> ModelView {
        ModelView {
            id: self.id,
            name: self.name@,
            shading: self.shading,
            culling: self.culling,
            axis_len: self.axis_len,
            show: self.show,
            inherit_type: self.inherit_type,
        }
    }
}

#[derive(Debug)]
pub struct ModelLoader<'a> {
    definitions: &'a Definitions,
    obj_props: &'a ObjectProperties<'a>,
    properties: Option<GenericProperties>,
    shading: Option<bool>,
    culling: Option<CullingType>,
}

/// What a model loader holds, as a mathematical value.
pub ghost struct ModelState {
    pub templates: Templates,
    pub identity: Identity,
    pub properties: Option<Properties>,
    pub shading: Option<bool>,
    pub culling: Option<CullingType>,
}

/// The state that a model loader begins with.
pub open spec fn model_start(templates: Templates, identity: Identity) -> ModelState {
    ModelState { templates, identity, properties: None, shading: None, culling: None }
}

/// The culling that the first cell names.
pub open spec fn first_culling(cells: Seq<Property>) -> Option<CullingType> {
    match first_text(cells) {
        Some(text) => culling_of(text),
        None => None,
    }
}

/// What a child of a model node that is not `Properties70` changes:
/// `Shading` sets the shading to the boolean of its first cell, `Culling`
/// sets the culling to what its first cell names.
pub open spec fn model_child(state: ModelState, name: Seq<char>, cells: Seq<Property>) -> ModelState {
    if name == "Shading"@ {
        ModelState { shading: first_boolean(cells), ..state }
    } else if name == "Culling"@ {
        ModelState { culling: first_culling(cells), ..state }
    } else {
        state
    }
}

/// The model that a state makes.
///
/// The length of the axes, the show flag and the inherit type are looked up
/// in the properties of the node, else in the template `FbxNode` of `Model`.
/// Without one of them, or without shading or culling, there is no model.
pub open spec fn model_of(state: ModelState) -> Option<ModelView> {
    let defaults = defaults_in(state.templates, "Model"@, "FbxNode"@);
    let axis_len = double_in(resolve(state.properties, defaults, "AxisLen"@));
    let show = flag_in(resolve(state.properties, defaults, "Show"@));
    let inherit_type = match long_in(resolve(state.properties, defaults, "InheritType"@)) {
        Some(v) => inherit_type_of(v),
        None => None,
    };
    if state.shading is Some && state.culling is Some && axis_len is Some && show is Some
        && inherit_type is Some {
        Some(
            ModelView {
                id: state.identity.id,
                name: state.identity.name,
                shading: state.shading->0,
                culling: state.culling->0,
                axis_len: axis_len->0,
                show: show->0,
                inherit_type: inherit_type->0,
            },
        )
    } else {
        None
    }
}

impl<'a> ModelLoader<'a> {
    pub fn new(definitions: &'a Definitions, obj_props: &'a ObjectProperties<'a>) -> (r: Self)
        ensures
            r.state() == model_start(definitions@, obj_props@),
    {
        ModelLoader {
            definitions: definitions,
            obj_props: obj_props,
            properties: None,
            shading: None,
            culling: None,
        }
    }
}

impl<'a> NodeLoaderCommon for ModelLoader<'a> {
    type Target = Option<Model>;

    type State = ModelState;

    type Outcome = Option<ModelView>;

    closed spec fn state(&self) -> ModelState {
        ModelState {
            templates: self.definitions@,
            identity: self.obj_props@,
            properties: properties_view(self.properties),
            shading: self.shading,
            culling: self.culling,
        }
    }

    open spec fn outcome(target: &Option<Model>) -> Option<ModelView> {
        view_of(*target)
    }

    open spec fn finish(state: ModelState) -> Option<Option<ModelView>> {
        Some(model_of(state))
    }

    open spec fn always_loads() -> bool {
        true
    }

    open spec fn refuses_with(e: Error) -> bool {
        false
    }

    fn on_finish(self) -> (r: Result<Option<Model>>) {
        let defaults = self.definitions.templates.defaults("Model", "FbxNode");
        let axis_len = node_f64(self.properties.get_or_default(defaults, "AxisLen"));
        let show = node_flag(self.properties.get_or_default(defaults, "Show"));
        let inherit_type = match node_i64(self.properties.get_or_default(defaults, "InheritType")) {
            Some(v) => InheritType::from_i64(v),
            None => None,
        };
        match (self.shading, self.culling, axis_len, show, inherit_type) {
            (Some(shading), Some(culling), Some(axis_len), Some(show), Some(inherit_type)) => Ok(
                Some(
                    Model {
                        id: self.obj_props.id,
                        name: self.obj_props.name.to_owned(),
                        shading: shading,
                        culling: culling,
                        axis_len: axis_len,
                        show: show,
                        inherit_type: inherit_type,
                    },
                ),
            ),
            _ => Ok(None),
        }
    }
}

impl<'a> NodeLoader for ModelLoader<'a> {
    /// A child `Properties70` is loaded as the properties of the node; any
    /// other child changes what `model_child` says and is skipped.
    open spec fn child(state: ModelState, events: Seq<FbxEvent>, pos: int) -> Option<(ModelState, int)> {
        if name_at(events, pos) == "Properties70"@ {
            match properties_at(events, pos) {
                Some((loaded, end)) => Some((ModelState { properties: Some(loaded), ..state }, end)),
                None => None,
            }
        } else {
            skipped(model_child(state, name_at(events, pos), cells_at(events, pos)), events, pos)
        }
    }

    proof fn child_ends_with_its_node(state: Self::State, events: Seq<FbxEvent>, pos: int) {
        loader_ends_with_its_node::<GenericPropertiesLoader>(Map::empty(), events, pos);
    }

    fn on_child_node(&mut self, reader: &mut EventReader<'_>, node_info: RawNodeInfo<'_>) -> (r:
        Result<()>) {
        let RawNodeInfo { name, properties } = node_info;
        if same_text(name, "Properties70") {
            match load_properties(reader) {
                Ok(loaded) => {
                    self.properties = Some(loaded);
                    Ok(())
                },
                Err(e) => Err(e),
            }
        } else {
            if same_text(name, "Shading") {
                self.shading = first_bool(properties);
            } else if same_text(name, "Culling") {
                self.culling = match first_string(properties) {
                    Some(s) => CullingType::from_str(s),
                    None => None,
                };
            }
            ignore_current_node(reader)
        }
    }
}

#[derive(Debug, Clone, Copy, PartialEq, Eq, Structural)]
pub enum CullingType {
    Off,
    Ccw,
    Cw,
}

/// The culling that a text names.
pub open spec fn culling_of(text: Seq<char>) -> Option<CullingType> {
    if text == "CullingOff"@ {
        Some(CullingType::Off)
    } else if text == "CullingOnCCW"@ {
        Some(CullingType::Ccw)
    } else if text == "CullingOnCW"@ {
        Some(CullingType::Cw)
    } else {
        None
    }
}

impl CullingType {
    pub fn from_str(s: &str) -> (r: Option<Self>)
        ensures
            r == culling_of(s@),
    {
        if same_text(s, "CullingOff") {
            Some(CullingType::Off)
        } else if same_text(s, "CullingOnCCW") {
            Some(CullingType::Ccw)
        } else if same_text(s, "CullingOnCW") {
            Some(CullingType::Cw)
        } else {
            None
        }
    }
}

/// How a node inherits the transformation of its parent.
#[derive(Debug, Clone, Copy, PartialEq, Eq, Structural)]
pub enum InheritType {
    RrSs,
    RSrs,
    Rrs,
}

/// The inherit type that a number stands for.
pub open spec fn inherit_type_of(v: i64) -> Option<InheritType> {
    if v == 0 {
        Some(InheritType::RrSs)
    } else if v == 1 {
        Some(InheritType::RSrs)
    } else if v == 2 {
        Some(InheritType::Rrs)
    } else {
        None
    }
}

impl InheritType {
    pub fn from_i64(v: i64) -> (r: Option<InheritType>)
        ensures
            r == inherit_type_of(v),
    {
        match v {
            0 => Some(InheritType::RrSs),
            1 => Some(InheritType::RSrs),
            2 => Some(InheritType::Rrs),
            _ => None,
        }
    }
}

} // verus!
