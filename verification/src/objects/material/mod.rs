//! Contains `/Objects/Material` node-related stuff.

use vstd::prelude::*;
use crate::property::GenericPropertiesLoader;
use crate::definitions::template::{Properties, Templates};
use crate::definitions::Definitions;
use crate::error::{Error, Result};
use crate::event::{
    first_as_i64, first_owned, first_text, first_widened_long, EventReader, FbxEvent, Property,
};
use crate::node_loader::{
    cells_at, ignore_current_node, loader_ends_with_its_node, name_at, skipped, NodeLoader,
    NodeLoaderCommon, RawNodeInfo,
};
use crate::objects::properties::{Identity, ObjectProperties};
use crate::property::{load_properties, properties_at, properties_view, GenericProperties};
use crate::text::same_text;
use crate::utils::view_of;

pub mod shading_parameters;

pub use self::shading_parameters::{LambertParameters, PhongParameters, ShadingParameters};
use self::shading_parameters::{shading_of, ShadingView};

verus! {

#[derive(Debug, Clone)]
pub struct Material {
    pub id: i64,
    pub name: String,
    pub shading_model: String,
    pub multi_layer: bool,
    pub shading_parameters: ShadingParameters,
}

/// A material, as a mathematical value.
pub ghost struct MaterialView {
    pub id: i64,
    pub name: Seq<char>,
    pub shading_model: Seq<char>,
    pub multi_layer: bool,
    pub shading_parameters: ShadingView,
}

impl View for Material {
    type V = MaterialView;

    open spec fn view(&self) -> MaterialView {
        MaterialView {
            id: self.id,
            name: self.name@,
            shading_model: self.shading_model@,
            multi_layer: self.multi_layer,
            shading_parameters: self.shading_parameters@,
        }
    }
}

#[derive(Debug)]
pub struct MaterialLoader<'a> {
    definitions: &'a Definitions,
    obj_props: &'a ObjectProperties<'a>,
    properties: Option<GenericProperties>,
    shading_model: Option<String>,
    multi_layer: Option<bool>,
}

/// What a material loader holds, as a mathematical value.
pub ghost struct MaterialState {
    pub templates: Templates,
    pub identity: Identity,
    pub properties: Option<Properties>,
    pub shading_model: Option<Seq<char>>,
    pub multi_layer: Option<bool>,
}

/// The state that a material loader begins with.
pub open spec fn material_start(templates: Templates, identity: Identity) -> MaterialState {
    MaterialState { templates, identity, properties: None, shading_model: None, multi_layer: None }
}

/// Whether the integer of the first cell, of any width, is not zero.
pub open spec fn first_flag(cells: Seq<Property>) -> Option<bool> {
    match first_widened_long(cells) {
        Some(v) => Some(v != 0),
        None => None,
    }
}

/// What a child of a material node that is not `Properties70` changes:
/// `ShadingModel` sets the shading model to the text of its first cell,
/// `MultiLayer` sets the flag to whether the integer of its first cell is
/// not zero.
pub open spec fn material_child(state: MaterialState, name: Seq<char>, cells: Seq<Property>) -> MaterialState {
    if name == "ShadingModel"@ {
        MaterialState { shading_model: first_text(cells), ..state }
    } else if name == "MultiLayer"@ {
        MaterialState { multi_layer: first_flag(cells), ..state }
    } else {
        state
    }
}

/// The material that a state makes: none without shading model or flag.
pub open spec fn material_of(state: MaterialState) -> Option<MaterialView> {
    if state.shading_model is Some && state.multi_layer is Some {
        Some(
            MaterialView {
                id: state.identity.id,
                name: state.identity.name,
                shading_model: state.shading_model->0,
                multi_layer: state.multi_layer->0,
                shading_parameters: shading_of(
                    state.shading_model->0,
                    state.properties,
                    state.templates,
                ),
            },
        )
    } else {
        None
    }
}

impl<'a> MaterialLoader<'a> {
    pub fn new(definitions: &'a Definitions, obj_props: &'a ObjectProperties<'a>) -> (r: Self)
        ensures
            r.state() == material_start(definitions@, obj_props@),
    {
        MaterialLoader {
            definitions: definitions,
            obj_props: obj_props,
            properties: None,
            shading_model: None,
            multi_layer: None,
        }
    }
}

impl<'a> NodeLoaderCommon for MaterialLoader<'a> {
    type Target = Option<Material>;

    type State = MaterialState;

    type Outcome = Option<MaterialView>;

    closed spec fn state(&self) -> MaterialState {
        MaterialState {
            templates: self.definitions@,
            identity: self.obj_props@,
            properties: properties_view(self.properties),
            shading_model: view_of(self.shading_model),
            multi_layer: self.multi_layer,
        }
    }

    open spec fn outcome(target: &Option<Material>) -> Option<MaterialView> {
        view_of(*target)
    }

    open spec fn finish(state: MaterialState) -> Option<Option<MaterialView>> {
        Some(material_of(state))
    }

    open spec fn always_loads() -> bool {
        true
    }

    open spec fn refuses_with(e: Error) -> bool {
        false
    }

    fn on_finish(self) -> (r: Result<Option<Material>>) {
        match (self.shading_model, self.multi_layer) {
            (Some(shading_model), Some(multi_layer)) => {
                let shading_parameters = ShadingParameters::from_node_properties(
                    shading_model.as_str(),
                    self.properties,
                    &self.definitions.templates,
                );
                Ok(
                    Some(
                        Material {
                            id: self.obj_props.id,
                            name: self.obj_props.name.to_owned(),
                            shading_model: shading_model,
                            multi_layer: multi_layer,
                            shading_parameters: shading_parameters,
                        },
                    ),
                )
            },
            _ => Ok(None),
        }
    }
}

impl<'a> NodeLoader for MaterialLoader<'a> {
    /// A child `Properties70` is loaded as the properties of the node; any
    /// other child changes what `material_child` says and is skipped.
    open spec fn child(state: MaterialState, events: Seq<FbxEvent>, pos: int) -> Option<
        (MaterialState, int),
    > {
        if name_at(events, pos) == "Properties70"@ {
            match properties_at(events, pos) {
                Some((loaded, end)) => Some((MaterialState { properties: Some(loaded), ..state }, end)),
                None => None,
            }
        } else {
            skipped(material_child(state, name_at(events, pos), cells_at(events, pos)), events, pos)
        }
    }

    proof fn child_ends_with_its_node(state: Self::State, events: Seq<FbxEvent>, pos: int) {
        loader_ends_with_its_node::<GenericPropertiesLoader>(Map::empty(), events, pos);
    }

    fn on_child_node(&mut self, reader: &mut EventReader<'_>, node_info: RawNodeInfo<'_>) -> (r:
        Result<()>) {
        let RawNodeInfo { name, properties } = node_info;
        if same_text(name, "Properties70") {
            match load_properties(reader) {
                Ok(loaded) => {
                    self.properties = Some(loaded);
                    Ok(())
                },
                Err(e) => Err(e),
            }
        } else {
            if same_text(name, "ShadingModel") {
                self.shading_model = first_owned(properties);
            } else if same_text(name, "MultiLayer") {
                self.multi_layer = match first_as_i64(properties) {
                    Some(v) => Some(v != 0),
                    None => None,
                };
            }
            ignore_current_node(reader)
        }
    }
}

} // verus!
