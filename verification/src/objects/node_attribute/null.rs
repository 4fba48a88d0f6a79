//! Contains `/Objects/NodeAttribute(Null)` node-related stuff.

use vstd::prelude::*;
use crate::property::GenericPropertiesLoader;
use crate::definitions::template::defaults_in;
use crate::definitions::Definitions;
use crate::error::{Error, Result};
use crate::event::{EventReader, FbxEvent};
use crate::node_loader::{
    ignore_current_node, loader_ends_with_its_node, NodeLoader, NodeLoaderCommon, RawNodeInfo,
};
use crate::objects::properties::ObjectProperties;
use crate::property::{
    color_in, double_in, load_properties, long_in, node_color, node_f64, node_i64, properties_view,
    resolve, GenericProperties, OptionalProperties,
};
use crate::text::same_text;
use super::limb_node::{attribute_child, first_type_flags};
use super::{attribute_start, AttributeState, NodeAttributeType};

verus! {

/// The attribute of a null node. The color is three single precision
/// numbers and the size a double precision number, by their bit patterns.
#[derive(Debug, Clone, Copy)]
pub struct NullNodeAttribute {
    pub id: i64,
    pub color: [u32; 3],
    pub size: u64,
    pub look: NullNodeLook,
}

#[derive(Debug, Clone, Copy, PartialEq, Eq, Structural)]
pub enum NullNodeLook {
    NoLook,
    Cross,
}

/// The look that a number stands for.
pub open spec fn look_of(val: i64) -> Option<NullNodeLook> {
    if val == 0 {
        Some(NullNodeLook::NoLook)
    } else if val == 1 {
        Some(NullNodeLook::Cross)
    } else {
        None
    }
}

impl NullNodeLook {
    pub fn from_i64(val: i64) -> (r: Option<Self>)
        ensures
            r == look_of(val),
    {
        match val {
            0 => Some(NullNodeLook::NoLook),
            1 => Some(NullNodeLook::Cross),
            _ => None,
        }
    }
}

#[derive(Debug)]
pub struct NullNodeAttributeLoader<'a> {
    definitions: &'a Definitions,
    obj_props: &'a ObjectProperties<'a>,
    properties: Option<GenericProperties>,
    type_flags: Option<NodeAttributeType>,
}

/// The attribute of a null node that a state makes.
///
/// Color, size and look are looked up in the properties of the node, else in
/// the template `FbxNull` of `NodeAttribute`. Without one of them there is
/// no attribute.
pub open spec fn null_node_of(state: AttributeState) -> Option<NullNodeAttribute> {
    let defaults = defaults_in(state.templates, "NodeAttribute"@, "FbxNull"@);
    let color = color_in(resolve(state.properties, defaults, "Color"@));
    let size = double_in(resolve(state.properties, defaults, "Size"@));
    let look = match long_in(resolve(state.properties, defaults, "Look"@)) {
        Some(v) => look_of(v),
        None => None,
    };
    if color is Some && size is Some && look is Some {
        Some(NullNodeAttribute { id: state.identity.id, color: color->0, size: size->0, look: look->0 })
    } else {
        None
    }
}

impl<'a> NullNodeAttributeLoader<'a> {
    pub fn new(definitions: &'a Definitions, obj_props: &'a ObjectProperties<'a>) -> (r: Self)
        ensures
            r.state() == attribute_start(definitions@, obj_props@),
    {
        NullNodeAttributeLoader {
            definitions: definitions,
            obj_props: obj_props,
            properties: None,
            type_flags: None,
        }
    }
}

impl<'a> NodeLoaderCommon for NullNodeAttributeLoader<'a> {
    type Target = Option<NullNodeAttribute>;

    type State = AttributeState;

    type Outcome = Option<NullNodeAttribute>;

    closed spec fn state(&self) -> AttributeState {
        AttributeState {
            templates: self.definitions@,
            identity: self.obj_props@,
            properties: properties_view(self.properties),
            type_flags: self.type_flags,
        }
    }

    open spec fn outcome(target: &Option<NullNodeAttribute>) -> Option<NullNodeAttribute> {
        *target
    }

    open spec fn finish(state: AttributeState) -> Option<Option<NullNodeAttribute>> {
        Some(null_node_of(state))
    }

    open spec fn always_loads() -> bool {
        true
    }

    open spec fn refuses_with(e: Error) -> bool {
        false
    }

    fn on_finish(self) -> (r: Result<Option<NullNodeAttribute>>) {
        let defaults = self.definitions.templates.defaults("NodeAttribute", "FbxNull");
        let color = node_color(self.properties.get_or_default(defaults, "Color"));
        let size = node_f64(self.properties.get_or_default(defaults, "Size"));
        let look = match node_i64(self.properties.get_or_default(defaults, "Look")) {
            Some(v) => NullNodeLook::from_i64(v),
            None => None,
        };
        match (color, size, look) {
            (Some(color), Some(size), Some(look)) => Ok(
                Some(NullNodeAttribute { id: self.obj_props.id, color: color, size: size, look: look }),
            ),
            _ => Ok(None),
        }
    }
}

impl<'a> NodeLoader for NullNodeAttributeLoader<'a> {
    open spec fn child(state: AttributeState, events: Seq<FbxEvent>, pos: int) -> Option<
        (AttributeState, int),
    > {
        attribute_child(state, events, pos)
    }

    proof fn child_ends_with_its_node(state: Self::State, events: Seq<FbxEvent>, pos: int) {
        loader_ends_with_its_node::<GenericPropertiesLoader>(Map::empty(), events, pos);
    }

    fn on_child_node(&mut self, reader: &mut EventReader<'_>, node_info: RawNodeInfo<'_>) -> (r:
        Result<()>) {
        let RawNodeInfo { name, properties } = node_info;
        if same_text(name, "Properties70") {
            match load_properties(reader) {
                Ok(loaded) => {
                    self.properties = Some(loaded);
                    Ok(())
                },
                Err(e) => Err(e),
            }
        } else if same_text(name, "TypeFlags") {
            self.type_flags = first_type_flags(properties);
            ignore_current_node(reader)
        } else {
            ignore_current_node(reader)
        }
    }
}

} // verus!
