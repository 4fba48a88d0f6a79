//! Contains `/Objects/Video` node-related stuff.

use vstd::prelude::*;
use crate::definitions::template::{defaults_in, Properties, Templates};
use crate::definitions::Definitions;
use crate::error::Result;
use crate::event::{
    first_binary, first_bytes, first_i32, first_int32, first_owned, first_text, EventReader,
    FbxEvent, Property,
};
use crate::node_loader::{
    cells_at, describes, ignore_current_node, loader_ends_with_its_node, name_at, node_end,
    node_end_is_later, skipped, FormatConvert, RawNodeInfo,
};
use crate::objects::properties::{Identity, ObjectProperties};
use crate::property::{
    load_properties, node_string, properties_at, properties_view, resolve, text_in,
    GenericProperties, GenericPropertiesLoader, OptionalProperties,
};
use crate::text::same_text;
use crate::utils::view_of;

verus! {

/// A video: an image, or images, in a file or held in the scene itself. The
/// content is what the converter of the caller made of the embedded bytes.
#[derive(Debug, Clone)]
pub struct Video<I: Clone> {
    pub id: i64,
    pub name: String,
    pub path: String,
    pub use_mip_map: bool,
    pub filename: String,
    pub relative_filename: String,
    pub content: Option<I>,
}

/// A video, as a mathematical value. Of the content it says only whether
/// there is any.
pub ghost struct VideoView {
    pub id: i64,
    pub name: Seq<char>,
    pub path: Seq<char>,
    pub use_mip_map: bool,
    pub filename: Seq<char>,
    pub relative_filename: Seq<char>,
    pub has_content: bool,
}

impl<I: Clone> View for Video<I> {
    type V = VideoView;

    open spec fn view(&self) -> VideoView {
        VideoView {
            id: self.id,
            name: self.name@,
            path: self.path@,
            use_mip_map: self.use_mip_map,
            filename: self.filename@,
            relative_filename: self.relative_filename@,
            has_content: self.content is Some,
        }
    }
}

/// The loader of a video node. Unlike other loaders it is handed a
/// converter with every child.
#[derive(Debug)]
pub struct VideoLoader<'a, I: Clone> {
    definitions: &'a Definitions,
    obj_props: &'a ObjectProperties<'a>,
    properties: Option<GenericProperties>,
    use_mip_map: Option<bool>,
    filename: Option<String>,
    relative_filename: Option<String>,
    content: Option<I>,
}

/// What a video loader holds, as a mathematical value.
pub ghost struct VideoState {
    pub templates: Templates,
    pub identity: Identity,
    pub properties: Option<Properties>,
    pub use_mip_map: Option<bool>,
    pub filename: Option<Seq<char>>,
    pub relative_filename: Option<Seq<char>>,
    pub has_content: bool,
}

/// The state that a video loader begins with.
pub open spec fn video_start(templates: Templates, identity: Identity) -> VideoState {
    VideoState {
        templates,
        identity,
        properties: None,
        use_mip_map: None,
        filename: None,
        relative_filename: None,
        has_content: false,
    }
}

/// Whether the 32 bit integer of the first cell is not zero.
pub open spec fn first_switch(cells: Seq<Property>) -> Option<bool> {
    match first_int32(cells) {
        Some(v) => Some(v != 0),
        None => None,
    }
}

/// What a child of a video node that is not `Properties70` changes.
///
/// `UseMipMap` sets the flag to whether the integer of its first cell is not
/// zero, `Filename` and `RelativeFilename` set the file names to the text of
/// theirs. `Content`, once the file name is there, sets the content to what
/// the converter makes of the bytes of its first cell, or to nothing where
/// that cell is not binary.
pub open spec fn video_child(state: VideoState, name: Seq<char>, cells: Seq<Property>) -> VideoState {
    if name == "UseMipMap"@ {
        VideoState { use_mip_map: first_switch(cells), ..state }
    } else if name == "Filename"@ {
        VideoState { filename: first_text(cells), ..state }
    } else if name == "RelativeFilename"@ {
        VideoState { relative_filename: first_text(cells), ..state }
    } else if name == "Content"@ && state.filename is Some {
        VideoState { has_content: first_binary(cells) is Some, ..state }
    } else {
        state
    }
}

/// What a child `Content` hands to the converter: the bytes of its first
/// cell and the file name, where the cell is binary and the file name has
/// been read.
pub open spec fn content_request(state: VideoState, cells: Seq<Property>) -> Option<(Seq<u8>, Seq<char>)> {
    if state.filename is Some && first_binary(cells) is Some {
        Some((first_binary(cells)->0, state.filename->0))
    } else {
        None
    }
}

/// Whether `after` is the content that a loader keeps of one child, having
/// held `before`: of a child `Content`, once the file name is there, what the
/// converter makes of what `content_request` hands to it, or nothing where
/// nothing is handed to it; of any other child what it held.
pub open spec fn content_kept<I, C: FormatConvert<ImageResult = I>>(
    converter: C,
    state: VideoState,
    before: Option<I>,
    name: Seq<char>,
    cells: Seq<Property>,
    after: Option<I>,
) -> bool {
    if name == "Content"@ && state.filename is Some {
        match content_request(state, cells) {
            Some((bytes, path)) => after matches Some(image) && converter.makes(bytes, path, image),
            None => after is None,
        }
    } else {
        after == before
    }
}

/// What one child of a video node makes of the state: `Properties70` is
/// loaded as the properties of the node; any other child changes what
/// `video_child` says and is skipped.
pub open spec fn video_step(state: VideoState, events: Seq<FbxEvent>, pos: int) -> Option<(VideoState, int)> {
    if name_at(events, pos) == "Properties70"@ {
        match properties_at(events, pos) {
            Some((loaded, end)) => Some((VideoState { properties: Some(loaded), ..state }, end)),
            None => None,
        }
    } else {
        skipped(video_child(state, name_at(events, pos), cells_at(events, pos)), events, pos)
    }
}

/// What the children of a video node from `pos` on make of the state, and
/// where the node ends.
pub open spec fn video_children(state: VideoState, events: Seq<FbxEvent>, pos: int) -> Option<(VideoState, int)>
    decreases events.len() - pos,
{
    if pos < 0 || pos >= events.len() {
        None
    } else {
        match events[pos] {
            FbxEvent::StartNode { .. } => match video_step(state, events, pos + 1) {
                Some((after, next)) => if pos < next <= events.len() {
                    video_children(after, events, next)
                } else {
                    None
                },
                None => None,
            },
            _ => Some((state, pos + 1)),
        }
    }
}

/// A video node that ends is read to its end and no further: its children
/// end where `node_end` says.
pub proof fn video_ends_with_its_node(state: VideoState, events: Seq<FbxEvent>, pos: int)
    requires
        node_end(events, pos) is Some,
    ensures
        video_children(state, events, pos) matches Some((_, end)) && end == node_end(events, pos)->0,
    decreases events.len() - pos,
{
    if events[pos] is StartNode {
        node_end_is_later(events, pos + 1);
        loader_ends_with_its_node::<GenericPropertiesLoader>(Map::empty(), events, pos + 1);
        match video_step(state, events, pos + 1) {
            Some((after, next)) => {
                video_ends_with_its_node(after, events, next);
            },
            None => {},
        }
    }
}

/// The video that a state makes.
///
/// The path is looked up in the properties of the node, else in the template
/// `FbxVideo` of `Video`. Without it, without the flag or without either
/// file name, there is no video.
pub open spec fn video_of(state: VideoState) -> Option<VideoView> {
    let defaults = defaults_in(state.templates, "Video"@, "FbxVideo"@);
    let path = text_in(resolve(state.properties, defaults, "Path"@));
    if path is Some && state.use_mip_map is Some && state.filename is Some
        && state.relative_filename is Some {
        Some(
            VideoView {
                id: state.identity.id,
                name: state.identity.name,
                path: path->0,
                use_mip_map: state.use_mip_map->0,
                filename: state.filename->0,
                relative_filename: state.relative_filename->0,
                has_content: state.has_content,
            },
        )
    } else {
        None
    }
}

impl<'a, I: Clone> VideoLoader<'a, I> {
    /// What the loader holds.
    pub closed spec fn state(&self) -> VideoState {
        VideoState {
            templates: self.definitions@,
            identity: self.obj_props@,
            properties: properties_view(self.properties),
            use_mip_map: self.use_mip_map,
            filename: view_of(self.filename),
            relative_filename: view_of(self.relative_filename),
            has_content: self.content is Some,
        }
    }

    /// What the converter made of the embedded image, if anything.
    pub closed spec fn content(&self) -> Option<I> {
        self.content
    }

    /// The state shows whether there is content.
    pub proof fn content_is_shown(&self)
        ensures
            self.state().has_content == (self.content() is Some),
    {
    }

    pub fn new(definitions: &'a Definitions, obj_props: &'a ObjectProperties<'a>) -> (r: Self)
        ensures
            r.state() == video_start(definitions@, obj_props@),
            r.content() is None,
    {
        VideoLoader {
            definitions: definitions,
            obj_props: obj_props,
            properties: None,
            use_mip_map: None,
            filename: None,
            relative_filename: None,
            content: None,
        }
    }

    /// What a child `Content` with these cells hands to the converter.
    pub fn content_request<'b>(&'b self, cells: &'b Vec<Property>) -> (r: Option<(&'b Vec<u8>, &'b str)>)
        ensures
            match content_request(self.state(), cells@) {
                Some((bytes, path)) => r matches Some((b, p)) && b@ == bytes && p@ == path,
                None => r is None,
            },
    {
        match (&self.filename, first_bytes(cells)) {
            (Some(filename), Some(bytes)) => Some((bytes, filename.as_str())),
            _ => None,
        }
    }

    /// Keeps what the converter made of a child `Content`, or nothing where
    /// nothing was handed to it. Without a file name the content stays as it is.
    pub fn set_content(&mut self, image: Option<I>)
        ensures
            final(self).state() == (if old(self).state().filename is Some {
                VideoState { has_content: image is Some, ..old(self).state() }
            } else {
                old(self).state()
            }),
            final(self).content() == (if old(self).state().filename is Some {
                image
            } else {
                old(self).content()
            }),
    {
        if self.filename.is_some() {
            self.content = image;
        }
    }

    /// Executed on node end.
    pub fn on_finish(self) -> (r: Result<Option<Video<I>>>)
        ensures
            r is Ok,
            view_of(r->Ok_0) == video_of(self.state()),
            r->Ok_0 matches Some(video) ==> video.content == self.content(),
    {
        let defaults = self.definitions.templates.defaults("Video", "FbxVideo");
        let path = node_string(self.properties.get_or_default(defaults, "Path"));
        match (path, self.use_mip_map, self.filename, self.relative_filename) {
            (Some(path), Some(use_mip_map), Some(filename), Some(relative_filename)) => Ok(
                Some(
                    Video {
                        id: self.obj_props.id,
                        name: self.obj_props.name.to_owned(),
                        path: path,
                        use_mip_map: use_mip_map,
                        filename: filename,
                        relative_filename: relative_filename,
                        content: self.content,
                    },
                ),
            ),
            _ => Ok(None),
        }
    }

    /// Executed for each child. It leaves the cursor after the child's end.
    ///
    /// A child `Content` hands to the converter what `content_request` says,
    /// and the loader keeps what the converter made of it, as `content_kept`
    /// says, whether the child ends or not.
    pub fn on_child_node<C: FormatConvert<ImageResult = I>>(
        &mut self,
        converter: &mut C,
        reader: &mut EventReader<'_>,
        node_info: RawNodeInfo<'_>,
    ) -> (r: Result<()>)
        requires
            describes(node_info, old(reader).events(), old(reader).position() - 1),
        ensures
            final(reader).events() == old(reader).events(),
            r is Ok ==> old(reader).position() < final(reader).position() <= old(reader).events().len(),
            match video_step(old(self).state(), old(reader).events(), old(reader).position()) {
                Some((after, next)) => r is Ok && final(self).state() == after
                    && final(reader).position() == next,
                None => r is Err && r->Err_0.is_truncated(),
            },
            content_kept(
                *old(converter),
                old(self).state(),
                old(self).content(),
                name_at(old(reader).events(), old(reader).position()),
                cells_at(old(reader).events(), old(reader).position()),
                final(self).content(),
            ),
    {
        proof {
            reveal_strlit("Content");
            reveal_strlit("Properties70");
            reveal_strlit("UseMipMap");
            reveal_strlit("Filename");
            reveal_strlit("RelativeFilename");
        }
        let RawNodeInfo { name, properties } = node_info;
        let ghost cells = cells_at(reader.events(), reader.position());
        assert(properties@ == cells);
        assert(name@ == name_at(reader.events(), reader.position()));
        if same_text(name, "Properties70") {
            assert(name@ != "Content"@);
            match load_properties(reader) {
                Ok(loaded) => {
                    self.properties = Some(loaded);
                    Ok(())
                },
                Err(e) => Err(e),
            }
        } else {
            if same_text(name, "UseMipMap") {
                assert(name@ != "Content"@);
                self.use_mip_map = match first_i32(properties) {
                    Some(v) => Some(v != 0),
                    None => None,
                };
            } else if same_text(name, "Filename") {
                // `Filename`, not `FileName`.
                assert(name@ != "Content"@);
                self.filename = first_owned(properties);
            } else if same_text(name, "RelativeFilename") {
                assert(name@ != "Content"@);
                self.relative_filename = first_owned(properties);
            } else if same_text(name, "Content") {
                let image = match self.content_request(properties) {
                    Some((bytes, path)) => {
                        let image = converter.binary_to_image(bytes.as_slice(), path);
                        assert(old(converter).makes(bytes@, path@, image));
                        Some(image)
                    },
                    None => None,
                };
                self.set_content(image);
                assert(content_kept(
                    *old(converter),
                    old(self).state(),
                    old(self).content(),
                    name@,
                    cells,
                    self.content(),
                ));
            }
            ignore_current_node(reader)
        }
    }

    /// Reads the video node that the cursor is in up to its end, handing
    /// each child to `on_child_node`, then finishes.
    pub fn load<C: FormatConvert<ImageResult = I>>(
        self,
        converter: &mut C,
        reader: &mut EventReader<'_>,
    ) -> (r: Result<Option<Video<I>>>)
        ensures
            final(reader).events() == old(reader).events(),
            r is Ok ==> old(reader).position() < final(reader).position() <= old(reader).events().len(),
            match video_children(self.state(), old(reader).events(), old(reader).position()) {
                Some((after, end)) => final(reader).position() == end && r is Ok && view_of(r->Ok_0)
                    == video_of(after),
                None => r is Err && r->Err_0.is_truncated(),
            },
    {
        let ghost events = reader.events();
        let ghost begin = reader.position();
        let ghost first = self.state();
        let mut loader = self;
        loop
            invariant
                reader.events() == events,
                old(reader).events() == events,
                old(reader).position() == begin,
                self.state() == first,
                begin <= reader.position(),
                video_children(loader.state(), events, reader.position()) == video_children(
                    first,
                    events,
                    begin,
                ),
            decreases events.len() - reader.position(),
        {
            match reader.next() {
                Err(e) => {
                    return Err(e);
                },
                Ok(event) => match event {
                    FbxEvent::StartNode { name, properties } => {
                        let info = RawNodeInfo { name: name.as_str(), properties: properties };
                        match loader.on_child_node(converter, reader, info) {
                            Err(e) => {
                                return Err(e);
                            },
                            Ok(()) => {},
                        }
                    },
                    _ => {
                        return loader.on_finish();
                    },
                },
            }
        }
    }
}

} // verus!
