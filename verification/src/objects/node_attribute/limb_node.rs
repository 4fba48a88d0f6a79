//! Contains `/Objects/NodeAttribute(LimbNode)` node-related stuff.

use vstd::prelude::*;
use crate::property::GenericPropertiesLoader;
use crate::definitions::template::defaults_in;
use crate::definitions::Definitions;
use crate::error::{Error, Result};
use crate::event::{first_string, first_text, EventReader, FbxEvent, Property};
use crate::node_loader::{
    cells_at, ignore_current_node, loader_ends_with_its_node, name_at, skipped, NodeLoader,
    NodeLoaderCommon, RawNodeInfo,
};
use crate::objects::properties::ObjectProperties;
use crate::property::{
    double_in, load_properties, node_f64, properties_at, properties_view, resolve,
    GenericProperties, OptionalProperties,
};
use crate::text::same_text;
use super::{attribute_start, attribute_type_of, AttributeState, NodeAttributeType};

verus! {

/// The attribute of a limb node. The size is a double precision number by
/// its bit pattern.
#[derive(Debug, Clone, Copy)]
pub struct LimbNodeAttribute {
    pub id: i64,
    pub type_flags: NodeAttributeType,
    pub size: u64,
}

#[derive(Debug)]
pub struct LimbNodeAttributeLoader<'a> {
    definitions: &'a Definitions,
    obj_props: &'a ObjectProperties<'a>,
    properties: Option<GenericProperties>,
    type_flags: Option<NodeAttributeType>,
}

/// The type that the first cell names, where it is text.
pub open spec fn first_attribute_type(cells: Seq<Property>) -> Option<NodeAttributeType> {
    match first_text(cells) {
        Some(text) => Some(attribute_type_of(text)),
        None => None,
    }
}

/// The type that the first cell names, where it is text.
pub fn first_type_flags(cells: &Vec<Property>) -> (r: Option<NodeAttributeType>)
    ensures
        r == first_attribute_type(cells@),
{
    match first_string(cells) {
        Some(s) => Some(NodeAttributeType::from_string(s)),
        None => None,
    }
}

/// What a child of an attribute node changes: `Properties70` is loaded as
/// the properties of the node, `TypeFlags` sets the type to what its first
/// cell names and is skipped, and any other child is skipped.
pub open spec fn attribute_child(state: AttributeState, events: Seq<FbxEvent>, pos: int) -> Option<
    (AttributeState, int),
> {
    if name_at(events, pos) == "Properties70"@ {
        match properties_at(events, pos) {
            Some((loaded, end)) => Some((AttributeState { properties: Some(loaded), ..state }, end)),
            None => None,
        }
    } else if name_at(events, pos) == "TypeFlags"@ {
        skipped(
            AttributeState { type_flags: first_attribute_type(cells_at(events, pos)), ..state },
            events,
            pos,
        )
    } else {
        skipped(state, events, pos)
    }
}

/// The attribute of a limb node that a state makes.
///
/// The size is looked up in the properties of the node, else in the template
/// `FbxSkeleton` of `NodeAttribute`. Without it, or without a type, there is
/// no attribute.
pub open spec fn limb_node_of(state: AttributeState) -> Option<LimbNodeAttribute> {
    let defaults = defaults_in(state.templates, "NodeAttribute"@, "FbxSkeleton"@);
    let size = double_in(resolve(state.properties, defaults, "Size"@));
    if state.type_flags is Some && size is Some {
        Some(
            LimbNodeAttribute {
                id: state.identity.id,
                type_flags: state.type_flags->0,
                size: size->0,
            },
        )
    } else {
        None
    }
}

impl<'a> LimbNodeAttributeLoader<'a> {
    pub fn new(definitions: &'a Definitions, obj_props: &'a ObjectProperties<'a>) -> (r: Self)
        ensures
            r.state() == attribute_start(definitions@, obj_props@),
    {
        LimbNodeAttributeLoader {
            definitions: definitions,
            obj_props: obj_props,
            properties: None,
            type_flags: None,
        }
    }
}

impl<'a> NodeLoaderCommon for LimbNodeAttributeLoader<'a> {
    type Target = Option<LimbNodeAttribute>;

    type State = AttributeState;

    type Outcome = Option<LimbNodeAttribute>;

    closed spec fn state(&self) -> AttributeState {
        AttributeState {
            templates: self.definitions@,
            identity: self.obj_props@,
            properties: properties_view(self.properties),
            type_flags: self.type_flags,
        }
    }

    open spec fn outcome(target: &Option<LimbNodeAttribute>) -> Option<LimbNodeAttribute> {
        *target
    }

    open spec fn finish(state: AttributeState) -> Option<Option<LimbNodeAttribute>> {
        Some(limb_node_of(state))
    }

    open spec fn always_loads() -> bool {
        true
    }

    open spec fn refuses_with(e: Error) -> bool {
        false
    }

    fn on_finish(self) -> (r: Result<Option<LimbNodeAttribute>>) {
        let defaults = self.definitions.templates.defaults("NodeAttribute", "FbxSkeleton");
        let size = node_f64(self.properties.get_or_default(defaults, "Size"));
        match (self.type_flags, size) {
            (Some(type_flags), Some(size)) => Ok(
                Some(LimbNodeAttribute { id: self.obj_props.id, type_flags: type_flags, size: size }),
            ),
            _ => Ok(None),
        }
    }
}

impl<'a> NodeLoader for LimbNodeAttributeLoader<'a> {
    open spec fn child(state: AttributeState, events: Seq<FbxEvent>, pos: int) -> Option<
        (AttributeState, int),
    > {
        attribute_child(state, events, pos)
    }

    proof fn child_ends_with_its_node(state: Self::State, events: Seq<FbxEvent>, pos: int) {
        loader_ends_with_its_node::<GenericPropertiesLoader>(Map::empty(), events, pos);
    }

    fn on_child_node(&mut self, reader: &mut EventReader<'_>, node_info: RawNodeInfo<'_>) -> (r:
        Result<()>) {
        let RawNodeInfo { name, properties } = node_info;
        if same_text(name, "Properties70") {
            match load_properties(reader) {
                Ok(loaded) => {
                    self.properties = Some(loaded);
                    Ok(())
                },
                Err(e) => Err(e),
            }
        } else if same_text(name, "TypeFlags") {
            self.type_flags = first_type_flags(properties);
            ignore_current_node(reader)
        } else {
            ignore_current_node(reader)
        }
    }
}

} // verus!
