//! Contains `/Objects/CollectionExclusive(DisplayLayer)` node-related stuff.

use vstd::prelude::*;
use crate::property::GenericPropertiesLoader;
use crate::definitions::template::{defaults_in, Properties, Templates};
use crate::definitions::Definitions;
use crate::error::{Error, Result};
use crate::event::{EventReader, FbxEvent};
use crate::node_loader::{
    ignore_current_node, loader_ends_with_its_node, name_at, skipped, NodeLoader, NodeLoaderCommon,
    RawNodeInfo,
};
use crate::objects::properties::{Identity, ObjectProperties};
use crate::property::{
    color_in, flag_in, load_properties, node_color, node_flag, properties_at, properties_view,
    resolve, GenericProperties, OptionalProperties,
};
use crate::text::same_text;

verus! {

/// A display layer. The color is three single precision numbers by their bit patterns.
#[derive(Debug, Clone, Copy)]
pub struct DisplayLayer {
    pub id: i64,
    pub color: [u32; 3],
    pub show: bool,
    pub freeze: bool,
    pub lod_box: bool,
}

#[derive(Debug)]
pub struct DisplayLayerLoader<'a> {
    definitions: &'a Definitions,
    obj_props: &'a ObjectProperties<'a>,
    properties: Option<GenericProperties>,
}

/// What a display layer loader holds, as a mathematical value.
pub ghost struct DisplayLayerState {
    pub templates: Templates,
    pub identity: Identity,
    pub properties: Option<Properties>,
}

/// The display layer that a state makes.
///
/// Color and the flags show, freeze and LOD box are looked up in the
/// properties of the node, else in the template `FbxDisplayLayer` of
/// `CollectionExclusive`. Without one of them there is no display layer.
pub open spec fn display_layer_of(state: DisplayLayerState) -> Option<DisplayLayer> {
    let defaults = defaults_in(state.templates, "CollectionExclusive"@, "FbxDisplayLayer"@);
    let color = color_in(resolve(state.properties, defaults, "Color"@));
    let show = flag_in(resolve(state.properties, defaults, "Show"@));
    let freeze = flag_in(resolve(state.properties, defaults, "Freeze"@));
    let lod_box = flag_in(resolve(state.properties, defaults, "LODBox"@));
    if color is Some && show is Some && freeze is Some && lod_box is Some {
        Some(
            DisplayLayer {
                id: state.identity.id,
                color: color->0,
                show: show->0,
                freeze: freeze->0,
                lod_box: lod_box->0,
            },
        )
    } else {
        None
    }
}

impl<'a> DisplayLayerLoader<'a> {
    pub fn new(definitions: &'a Definitions, obj_props: &'a ObjectProperties<'a>) -> (r: Self)
        ensures
            r.state() == (DisplayLayerState {
                templates: definitions@,
                identity: obj_props@,
                properties: None,
            }),
    {
        DisplayLayerLoader { definitions: definitions, obj_props: obj_props, properties: None }
    }
}

impl<'a> NodeLoaderCommon for DisplayLayerLoader<'a> {
    type Target = Option<DisplayLayer>;

    type State = DisplayLayerState;

    type Outcome = Option<DisplayLayer>;

    closed spec fn state(&self) -> DisplayLayerState {
        DisplayLayerState {
            templates: self.definitions@,
            identity: self.obj_props@,
            properties: properties_view(self.properties),
        }
    }

    open spec fn outcome(target: &Option<DisplayLayer>) -> Option<DisplayLayer> {
        *target
    }

    open spec fn finish(state: DisplayLayerState) -> Option<Option<DisplayLayer>> {
        Some(display_layer_of(state))
    }

    open spec fn always_loads() -> bool {
        true
    }

    open spec fn refuses_with(e: Error) -> bool {
        false
    }

    fn on_finish(self) -> (r: Result<Option<DisplayLayer>>) {
        let defaults = self.definitions.templates.defaults("CollectionExclusive", "FbxDisplayLayer");
        let color = node_color(self.properties.get_or_default(defaults, "Color"));
        let show = node_flag(self.properties.get_or_default(defaults, "Show"));
        let freeze = node_flag(self.properties.get_or_default(defaults, "Freeze"));
        let lod_box = node_flag(self.properties.get_or_default(defaults, "LODBox"));
        match (color, show, freeze, lod_box) {
            (Some(color), Some(show), Some(freeze), Some(lod_box)) => Ok(
                Some(
                    DisplayLayer {
                        id: self.obj_props.id,
                        color: color,
                        show: show,
                        freeze: freeze,
                        lod_box: lod_box,
                    },
                ),
            ),
            _ => Ok(None),
        }
    }
}

impl<'a> NodeLoader for DisplayLayerLoader<'a> {
    /// A child `Properties70` is loaded as the properties of the node; any
    /// other child is skipped.
    open spec fn child(state: DisplayLayerState, events: Seq<FbxEvent>, pos: int) -> Option<
        (DisplayLayerState, int),
    > {
        if name_at(events, pos) == "Properties70"@ {
            match properties_at(events, pos) {
                Some((loaded, end)) => Some(
                    (DisplayLayerState { properties: Some(loaded), ..state }, end),
                ),
                None => None,
            }
        } else {
            skipped(state, events, pos)
        }
    }

    proof fn child_ends_with_its_node(state: Self::State, events: Seq<FbxEvent>, pos: int) {
        loader_ends_with_its_node::<GenericPropertiesLoader>(Map::empty(), events, pos);
    }

    fn on_child_node(&mut self, reader: &mut EventReader<'_>, node_info: RawNodeInfo<'_>) -> (r:
        Result<()>) {
        let RawNodeInfo { name, .. } = node_info;
        if same_text(name, "Properties70") {
            match load_properties(reader) {
                Ok(loaded) => {
                    self.properties = Some(loaded);
                    Ok(())
                },
                Err(e) => Err(e),
            }
        } else {
            ignore_current_node(reader)
        }
    }
}

} // verus!
