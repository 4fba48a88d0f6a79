//! Contains `/Objects/Texture` node-related stuff.

use vstd::prelude::*;
use crate::property::GenericPropertiesLoader;
use crate::definitions::template::{defaults_in, Properties, Templates};
use crate::definitions::Definitions;
use crate::error::{Error, Result};
use crate::event::{first_owned, first_string, first_text, EventReader, FbxEvent, Property};
use crate::node_loader::{
    cells_at, ignore_current_node, loader_ends_with_its_node, name_at, skipped, NodeLoader,
    NodeLoaderCommon, RawNodeInfo,
};
use crate::objects::properties::{Identity, ObjectProperties};
use crate::property::{
    flag_in, load_properties, long_in, node_flag, node_i64, node_string, properties_at,
    properties_view, resolve, text_in, GenericProperties, OptionalProperties,
};
use crate::text::{name_and_class, same_text, separate_name_class};
use crate::utils::view_of;

verus! {

/// A texture.
#[derive(Debug, Clone)]
pub struct Texture {
    pub id: i64,
    pub name: String,
    pub media: Option<String>,
    pub filename: String,
    pub relative_filename: String,
    pub current_texture_blend_mode: BlendMode,
    pub premultiply_alpha: bool,
    pub uv_set: String,
    pub wrap_mode_u: WrapMode,
    pub wrap_mode_v: WrapMode,
}

/// A texture, as a mathematical value.
pub ghost struct TextureView {
    pub id: i64,
    pub name: Seq<char>,
    pub media: Option<Seq<char>>,
    pub filename: Seq<char>,
    pub relative_filename: Seq<char>,
    pub current_texture_blend_mode: BlendMode,
    pub premultiply_alpha: bool,
    pub uv_set: Seq<char>,
    pub wrap_mode_u: WrapMode,
    pub wrap_mode_v: WrapMode,
}

impl View for Texture {
    type V = TextureView;

    open spec fn view(&self) -> TextureView {
        TextureView {
            id: self.id,
            name: self.name@,
            media: view_of(self.media),
            filename: self.filename@,
            relative_filename: self.relative_filename@,
            current_texture_blend_mode: self.current_texture_blend_mode,
            premultiply_alpha: self.premultiply_alpha,
            uv_set: self.uv_set@,
            wrap_mode_u: self.wrap_mode_u,
            wrap_mode_v: self.wrap_mode_v,
        }
    }
}

#[derive(Debug)]
pub struct TextureLoader<'a> {
    definitions: &'a Definitions,
    obj_props: &'a ObjectProperties<'a>,
    properties: Option<GenericProperties>,
    media: Option<String>,
    filename: Option<String>,
    relative_filename: Option<String>,
}

/// What a texture loader holds, as a mathematical value.
pub ghost struct TextureState {
    pub templates: Templates,
    pub identity: Identity,
    pub properties: Option<Properties>,
    pub media: Option<Seq<char>>,
    pub filename: Option<Seq<char>>,
    pub relative_filename: Option<Seq<char>>,
}

/// The state that a texture loader begins with.
pub open spec fn texture_start(templates: Templates, identity: Identity) -> TextureState {
    TextureState {
        templates,
        identity,
        properties: None,
        media: None,
        filename: None,
        relative_filename: None,
    }
}

/// The name in the first cell, a text of name and class.
pub open spec fn first_name(cells: Seq<Property>) -> Option<Seq<char>> {
    match first_text(cells) {
        Some(text) => match name_and_class(text) {
            Some((name, _)) => Some(name),
            None => None,
        },
        None => None,
    }
}

/// What a child of a texture node that is not `Properties70` changes:
/// `Media` sets the media to the name in its first cell, `FileName` and
/// `RelativeFilename` set the file names to the text of theirs.
pub open spec fn texture_child(state: TextureState, name: Seq<char>, cells: Seq<Property>) -> TextureState {
    if name == "Media"@ {
        TextureState { media: first_name(cells), ..state }
    } else if name == "FileName"@ {
        TextureState { filename: first_text(cells), ..state }
    } else if name == "RelativeFilename"@ {
        TextureState { relative_filename: first_text(cells), ..state }
    } else {
        state
    }
}

/// The texture that a state makes.
///
/// The blend mode, the premultiply flag, the UV set and both wrap modes are
/// looked up in the properties of the node, else in the template
/// `FbxFileTexture` of `Texture`. Without one of them, or without either
/// file name, there is no texture.
pub open spec fn texture_of(state: TextureState) -> Option<TextureView> {
    let defaults = defaults_in(state.templates, "Texture"@, "FbxFileTexture"@);
    let blend = match long_in(resolve(state.properties, defaults, "CurrentTextureBlendMode"@)) {
        Some(v) => blend_mode_of(v),
        None => None,
    };
    let premultiply = flag_in(resolve(state.properties, defaults, "PremultiplyAlpha"@));
    let uv_set = text_in(resolve(state.properties, defaults, "UVSet"@));
    let wrap_u = match long_in(resolve(state.properties, defaults, "WrapModeU"@)) {
        Some(v) => wrap_mode_of(v),
        None => None,
    };
    let wrap_v = match long_in(resolve(state.properties, defaults, "WrapModeV"@)) {
        Some(v) => wrap_mode_of(v),
        None => None,
    };
    if blend is Some && premultiply is Some && uv_set is Some && wrap_u is Some && wrap_v is Some
        && state.filename is Some && state.relative_filename is Some {
        Some(
            TextureView {
                id: state.identity.id,
                name: state.identity.name,
                media: state.media,
                filename: state.filename->0,
                relative_filename: state.relative_filename->0,
                current_texture_blend_mode: blend->0,
                premultiply_alpha: premultiply->0,
                uv_set: uv_set->0,
                wrap_mode_u: wrap_u->0,
                wrap_mode_v: wrap_v->0,
            },
        )
    } else {
        None
    }
}

/// Without a relative file name there is no texture, whatever else is there.
pub proof fn texture_needs_relative_filename(state: TextureState)
    requires
        state.relative_filename is None,
    ensures
        texture_of(state) is None,
{
}

impl<'a> TextureLoader<'a> {
    pub fn new(definitions: &'a Definitions, obj_props: &'a ObjectProperties<'a>) -> (r: Self)
        ensures
            r.state() == texture_start(definitions@, obj_props@),
    {
        TextureLoader {
            definitions: definitions,
            obj_props: obj_props,
            properties: None,
            media: None,
            filename: None,
            relative_filename: None,
        }
    }
}

impl<'a> NodeLoaderCommon for TextureLoader<'a> {
    type Target = Option<Texture>;

    type State = TextureState;

    type Outcome = Option<TextureView>;

    closed spec fn state(&self) -> TextureState {
        TextureState {
            templates: self.definitions@,
            identity: self.obj_props@,
            properties: properties_view(self.properties),
            media: view_of(self.media),
            filename: view_of(self.filename),
            relative_filename: view_of(self.relative_filename),
        }
    }

    open spec fn outcome(target: &Option<Texture>) -> Option<TextureView> {
        view_of(*target)
    }

    open spec fn finish(state: TextureState) -> Option<Option<TextureView>> {
        Some(texture_of(state))
    }

    open spec fn always_loads() -> bool {
        true
    }

    open spec fn refuses_with(e: Error) -> bool {
        false
    }

    fn on_finish(self) -> (r: Result<Option<Texture>>) {
        let defaults = self.definitions.templates.defaults("Texture", "FbxFileTexture");
        let current_texture_blend_mode = match node_i64(
            self.properties.get_or_default(defaults, "CurrentTextureBlendMode"),
        ) {
            Some(v) => BlendMode::from_i64(v),
            None => None,
        };
        let premultiply_alpha = node_flag(
            self.properties.get_or_default(defaults, "PremultiplyAlpha"),
        );
        let uv_set = node_string(self.properties.get_or_default(defaults, "UVSet"));
        let wrap_mode_u = match node_i64(self.properties.get_or_default(defaults, "WrapModeU")) {
            Some(v) => WrapMode::from_i64(v),
            None => None,
        };
        let wrap_mode_v = match node_i64(self.properties.get_or_default(defaults, "WrapModeV")) {
            Some(v) => WrapMode::from_i64(v),
            None => None,
        };
        match (
            current_texture_blend_mode,
            premultiply_alpha,
            uv_set,
            wrap_mode_u,
            wrap_mode_v,
            self.filename,
            self.relative_filename,
        ) {
            (
                Some(current_texture_blend_mode),
                Some(premultiply_alpha),
                Some(uv_set),
                Some(wrap_mode_u),
                Some(wrap_mode_v),
                Some(filename),
                Some(relative_filename),
            ) => Ok(
                Some(
                    Texture {
                        id: self.obj_props.id,
                        name: self.obj_props.name.to_owned(),
                        media: self.media,
                        filename: filename,
                        relative_filename: relative_filename,
                        current_texture_blend_mode: current_texture_blend_mode,
                        premultiply_alpha: premultiply_alpha,
                        uv_set: uv_set,
                        wrap_mode_u: wrap_mode_u,
                        wrap_mode_v: wrap_mode_v,
                    },
                ),
            ),
            _ => Ok(None),
        }
    }
}

/// The name in the first cell, a text of name and class, as an owned string.
pub fn first_owned_name(cells: &Vec<Property>) -> (r: Option<String>)
    ensures
        view_of(r) == first_name(cells@),
{
    match first_string(cells) {
        Some(s) => match separate_name_class(s) {
            Some((name, _class)) => Some(name.to_owned()),
            None => None,
        },
        None => None,
    }
}

impl<'a> NodeLoader for TextureLoader<'a> {
    /// A child `Properties70` is loaded as the properties of the node; any
    /// other child changes what `texture_child` says and is skipped.
    open spec fn child(state: TextureState, events: Seq<FbxEvent>, pos: int) -> Option<
        (TextureState, int),
    > {
        if name_at(events, pos) == "Properties70"@ {
            match properties_at(events, pos) {
                Some((loaded, end)) => Some((TextureState { properties: Some(loaded), ..state }, end)),
                None => None,
            }
        } else {
            skipped(texture_child(state, name_at(events, pos), cells_at(events, pos)), events, pos)
        }
    }

    proof fn child_ends_with_its_node(state: Self::State, events: Seq<FbxEvent>, pos: int) {
        loader_ends_with_its_node::<GenericPropertiesLoader>(Map::empty(), events, pos);
    }

    fn on_child_node(&mut self, reader: &mut EventReader<'_>, node_info: RawNodeInfo<'_>) -> (r:
        Result<()>) {
        let RawNodeInfo { name, properties } = node_info;
        if same_text(name, "Properties70") {
            match load_properties(reader) {
                Ok(loaded) => {
                    self.properties = Some(loaded);
                    Ok(())
                },
                Err(e) => Err(e),
            }
        } else {
            if same_text(name, "Media") {
                self.media = first_owned_name(properties);
            } else if same_text(name, "FileName") {
                // `FileName`, not `Filename`.
                self.filename = first_owned(properties);
            } else if same_text(name, "RelativeFilename") {
                self.relative_filename = first_owned(properties);
            }
            ignore_current_node(reader)
        }
    }
}

/// Texture blend mode.
#[derive(Debug, Clone, Copy, PartialEq, Eq, Structural)]
pub enum BlendMode {
    Translucent,
    Additive,
    Modulate,
    Modulate2,
    Over,
}

/// The blend mode that a number stands for.
pub open spec fn blend_mode_of(val: i64) -> Option<BlendMode> {
    if val == 0 {
        Some(BlendMode::Translucent)
    } else if val == 1 {
        Some(BlendMode::Additive)
    } else if val == 2 {
        Some(BlendMode::Modulate)
    } else if val == 3 {
        Some(BlendMode::Modulate2)
    } else if val == 4 {
        Some(BlendMode::Over)
    } else {
        None
    }
}

impl BlendMode {
    pub fn from_i64(val: i64) -> (r: Option<Self>)
        ensures
            r == blend_mode_of(val),
    {
        match val {
            0 => Some(BlendMode::Translucent),
            1 => Some(BlendMode::Additive),
            2 => Some(BlendMode::Modulate),
            3 => Some(BlendMode::Modulate2),
            4 => Some(BlendMode::Over),
            _ => None,
        }
    }
}

impl Default for BlendMode {
    fn default() -> (r: Self)
        ensures
            r == BlendMode::Translucent,
    {
        BlendMode::Translucent
    }
}

/// Texture wrap mode.
#[derive(Debug, Clone, Copy, PartialEq, Eq, Structural)]
pub enum WrapMode {
    Repeat,
    Clamp,
}

/// The wrap mode that a number stands for.
pub open spec fn wrap_mode_of(val: i64) -> Option<WrapMode> {
    if val == 0 {
        Some(WrapMode::Repeat)
    } else if val == 1 {
        Some(WrapMode::Clamp)
    } else {
        None
    }
}

impl WrapMode {
    pub fn from_i64(val: i64) -> (r: Option<Self>)
        ensures
            r == wrap_mode_of(val),
    {
        match val {
            0 => Some(WrapMode::Repeat),
            1 => Some(WrapMode::Clamp),
            _ => None,
        }
    }
}

impl Default for WrapMode {
    fn default() -> (r: Self)
        ensures
            r == WrapMode::Repeat,
    {
        WrapMode::Repeat
    }
}

} // verus!
