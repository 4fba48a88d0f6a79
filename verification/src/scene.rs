//! Contains the scene and its loader.

use vstd::prelude::*;
use crate::connections::{Connection, ConnectionsLoader, Link};
use crate::definitions::template::Templates;
use crate::definitions::{Definitions, DefinitionsLoader};
use crate::error::{Error, Result};
use crate::event::{EventReader, FbxEvent};
use crate::fbx_header_extension::{FbxHeaderExtension, FbxHeaderExtensionLoader};
use crate::node_loader::{
    children, ignore_current_node, loader_ends_with_its_node, name_at, skipped, FormatConvert,
    NodeLoad, NodeLoader, NodeLoaderCommon, RawNodeInfo,
};
use crate::objects::geometry::mesh::triangulation::{callable, too_large_for, triangulated_by};
use crate::objects::{
    no_objects, objects_children, objects_end_with_their_node, Objects, ObjectsLoader, ObjectsView,
};
use crate::text::same_text;
use crate::utils::{view_of, views};

verus! {

/// A scene: its objects and the connections between them.
#[derive(Debug, Clone)]
pub struct FbxScene<I: Clone> {
    pub fbx_header_extension: FbxHeaderExtension,
    pub objects: Objects<I>,
    pub connections: Vec<Connection>,
}

/// A scene, as a mathematical value.
pub ghost struct SceneView {
    pub objects: ObjectsView,
    pub connections: Seq<Link>,
}

impl<I: Clone> View for FbxScene<I> {
    type V = SceneView;

    open spec fn view(&self) -> SceneView {
        SceneView { objects: self.objects@, connections: views(self.connections@) }
    }
}

impl<I: Clone> FbxScene<I> {
    /// Triangulates every mesh of the scene with the given triangulation
    /// function, as `Objects::triangulate` does. The connections stay.
    pub fn triangulate<F: Fn(&Vec<[u32; 3]>, &Vec<u32>) -> Vec<u32>>(&mut self, triangulator: &F) -> (r:
        Result<()>)
        requires
            callable(*triangulator),
        ensures
            final(self)@.connections == old(self)@.connections,
            final(self)@.objects == (ObjectsView {
                geometry_meshes: final(self)@.objects.geometry_meshes,
                ..old(self)@.objects
            }),
            final(self).objects.geometry_meshes@.dom() == old(self).objects.geometry_meshes@.dom(),
            r is Ok ==> forall|id: i64| #[trigger]
                old(self).objects.geometry_meshes@.contains_key(id) ==> triangulated_by(
                    *triangulator,
                    old(self).objects.geometry_meshes@[id],
                    final(self).objects.geometry_meshes@[id]@,
                ),
            r is Err ==> r->Err_0 is UnclassifiedCritical && exists|id: i64|
                #[trigger] old(self).objects.geometry_meshes@.contains_key(id) && too_large_for(
                    *triangulator,
                    old(self).objects.geometry_meshes@[id],
                ),
    {
        self.objects.triangulate(triangulator)
    }
}

#[derive(Debug)]
#[verifier::reject_recursive_types(I)]
pub struct FbxSceneLoader<I: Clone, C: FormatConvert<ImageResult = I>> {
    converter: C,
    fbx_header_extension: Option<FbxHeaderExtension>,
    definitions: Option<Definitions>,
    objects: Objects<I>,
    connections: Option<Vec<Connection>>,
}

/// What a scene loader holds, as a mathematical value.
pub ghost struct SceneState {
    pub has_header: bool,
    pub templates: Option<Templates>,
    pub objects: ObjectsView,
    pub connections: Option<Seq<Link>>,
}

/// The state that a scene loader begins with.
pub open spec fn scene_start() -> SceneState {
    SceneState { has_header: false, templates: None, objects: no_objects(), connections: None }
}

/// What one child of the root makes of the scene, and where the child ends.
///
/// `FBXHeaderExtension`, `Definitions` and `Connections` are loaded and
/// kept. `Objects` is loaded with the definitions, and is a critical error
/// where no definitions have been loaded yet. Any other child is skipped.
pub open spec fn scene_step(state: SceneState, events: Seq<FbxEvent>, pos: int) -> Option<(SceneState, int)> {
    let name = name_at(events, pos);
    if name == "FBXHeaderExtension"@ {
        match children::<FbxHeaderExtensionLoader>((), events, pos) {
            Some((_, end)) => Some((SceneState { has_header: true, ..state }, end)),
            None => None,
        }
    } else if name == "Definitions"@ {
        match children::<DefinitionsLoader>(Map::empty(), events, pos) {
            Some((templates, end)) => Some((SceneState { templates: Some(templates), ..state }, end)),
            None => None,
        }
    } else if name == "Objects"@ {
        match state.templates {
            Some(templates) => match objects_children(state.objects, templates, events, pos) {
                Some((objects, end)) => Some((SceneState { objects, ..state }, end)),
                None => None,
            },
            None => None,
        }
    } else if name == "Connections"@ {
        match children::<ConnectionsLoader>(Seq::empty(), events, pos) {
            Some((connections, end)) => Some(
                (SceneState { connections: Some(connections), ..state }, end),
            ),
            None => None,
        }
    } else {
        skipped(state, events, pos)
    }
}

/// The scene that a state makes. Without header extension or connections
/// there is none, which is a critical error.
pub open spec fn scene_of(state: SceneState) -> Option<SceneView> {
    if state.has_header && state.connections is Some {
        Some(SceneView { objects: state.objects, connections: state.connections->0 })
    } else {
        None
    }
}

/// What the children of the root from `pos` on make of the scene, and
/// where the root ends: at the end of the events, or at the end of a node.
pub open spec fn scene_children(state: SceneState, events: Seq<FbxEvent>, pos: int) -> Option<(SceneState, int)>
    decreases events.len() - pos,
{
    if pos < 0 || pos >= events.len() {
        None
    } else {
        match events[pos] {
            FbxEvent::StartNode { .. } => match scene_step(state, events, pos + 1) {
                Some((after, next)) => if pos < next <= events.len() {
                    scene_children(after, events, next)
                } else {
                    None
                },
                None => None,
            },
            _ => Some((state, pos + 1)),
        }
    }
}

/// The scene that the events from `pos` on hold, and where it ends. `None`
/// is a critical error.
pub open spec fn scene_at(events: Seq<FbxEvent>, pos: int) -> Option<(SceneView, int)> {
    match scene_children(scene_start(), events, pos) {
        Some((after, end)) => match scene_of(after) {
            Some(scene) => Some((scene, end)),
            None => None,
        },
        None => None,
    }
}

/// The loop that every loader runs makes of the root what `scene_children` says.
proof fn root_is_a_node<I: Clone, C: FormatConvert<ImageResult = I>>(
    state: SceneState,
    events: Seq<FbxEvent>,
    pos: int,
)
    ensures
        children::<FbxSceneLoader<I, C>>(state, events, pos) == scene_children(state, events, pos),
    decreases events.len() - pos,
{
    if 0 <= pos < events.len() {
        if events[pos] is StartNode {
            match scene_step(state, events, pos + 1) {
                Some((after, next)) => {
                    if pos < next <= events.len() {
                        root_is_a_node::<I, C>(after, events, next);
                    }
                },
                None => {},
            }
        }
    }
}

impl<I: Clone, C: FormatConvert<ImageResult = I>> FbxSceneLoader<I, C> {
    pub fn new(_fbx_version: i32, converter: C) -> (r: Self)
        ensures
            r.state() == scene_start(),
    {
        FbxSceneLoader {
            converter: converter,
            fbx_header_extension: None,
            definitions: None,
            objects: Objects::new(),
            connections: None,
        }
    }
}

impl<I: Clone, C: FormatConvert<ImageResult = I>> NodeLoaderCommon for FbxSceneLoader<I, C> {
    type Target = FbxScene<I>;

    type State = SceneState;

    type Outcome = SceneView;

    closed spec fn state(&self) -> SceneState {
        SceneState {
            has_header: self.fbx_header_extension is Some,
            templates: view_of(self.definitions),
            objects: self.objects@,
            connections: match self.connections {
                Some(c) => Some(views(c@)),
                None => None,
            },
        }
    }

    open spec fn outcome(target: &FbxScene<I>) -> SceneView {
        target@
    }

    open spec fn finish(state: SceneState) -> Option<SceneView> {
        scene_of(state)
    }

    open spec fn always_loads() -> bool {
        false
    }

    open spec fn refuses_with(e: Error) -> bool {
        e is UnclassifiedCritical
    }

    fn on_finish(self) -> (r: Result<FbxScene<I>>)
        ensures
            r is Err ==> r->Err_0 is UnclassifiedCritical,
    {
        let fbx_header_extension = match self.fbx_header_extension {
            Some(h) => h,
            None => {
                return Err(
                    Error::UnclassifiedCritical(
                        "Required node `FbxHeaderExtension` not found".to_owned(),
                    ),
                );
            },
        };
        let connections = match self.connections {
            Some(c) => c,
            None => {
                return Err(
                    Error::UnclassifiedCritical("Required node `Connections` not found".to_owned()),
                );
            },
        };
        Ok(
            FbxScene {
                fbx_header_extension: fbx_header_extension,
                objects: self.objects,
                connections: connections,
            },
        )
    }
}

impl<I: Clone, C: FormatConvert<ImageResult = I>> NodeLoader for FbxSceneLoader<I, C> {
    open spec fn child(state: SceneState, events: Seq<FbxEvent>, pos: int) -> Option<(SceneState, int)> {
        scene_step(state, events, pos)
    }

    proof fn child_ends_with_its_node(state: Self::State, events: Seq<FbxEvent>, pos: int) {
        loader_ends_with_its_node::<FbxHeaderExtensionLoader>((), events, pos);
        loader_ends_with_its_node::<DefinitionsLoader>(Map::empty(), events, pos);
        loader_ends_with_its_node::<ConnectionsLoader>(Seq::empty(), events, pos);
        if state.templates is Some {
            objects_end_with_their_node(state.objects, state.templates->0, events, pos);
        }
    }

    fn on_child_node(&mut self, reader: &mut EventReader<'_>, node_info: RawNodeInfo<'_>) -> (r:
        Result<()>)
        ensures
            r is Err && !r->Err_0.is_truncated() ==> name_at(
                old(reader).events(),
                old(reader).position(),
            ) == "Objects"@ && old(self).state().templates is None,
    {
        let RawNodeInfo { name, .. } = node_info;
        if same_text(name, "FBXHeaderExtension") {
            match FbxHeaderExtensionLoader::new().load(reader) {
                Ok(loaded) => {
                    self.fbx_header_extension = Some(loaded);
                    Ok(())
                },
                Err(e) => Err(e),
            }
        } else if same_text(name, "Definitions") {
            match DefinitionsLoader::new().load(reader) {
                Ok(loaded) => {
                    self.definitions = Some(loaded);
                    Ok(())
                },
                Err(e) => Err(e),
            }
        } else if same_text(name, "Objects") {
            match &self.definitions {
                Some(defs) => ObjectsLoader::new(defs).load(
                    &mut self.objects,
                    &mut self.converter,
                    reader,
                ),
                None => Err(
                    Error::UnclassifiedCritical(
                        "`Definitions` is required before `Objects` node".to_owned(),
                    ),
                ),
            }
        } else if same_text(name, "Connections") {
            match ConnectionsLoader::new().load(reader) {
                Ok(loaded) => {
                    self.connections = Some(loaded);
                    Ok(())
                },
                Err(e) => Err(e),
            }
        } else {
            ignore_current_node(reader)
        }
    }
}

/// Loads the scene that the events after the cursor hold.
///
/// The result is the scene that `scene_at` says, whatever the converter
/// makes of the images, and the cursor ends where the scene does. Where
/// `scene_at` says there is none, the result is an error: that of events
/// that end too early, or an unclassified critical one, which comes where
/// the objects stand before the definitions or where header extension or
/// connections are missing.
pub fn load_scene<I: Clone, C: FormatConvert<ImageResult = I>>(
    reader: &mut EventReader<'_>,
    fbx_version: i32,
    converter: C,
) -> (r: Result<FbxScene<I>>)
    ensures
        final(reader).events() == old(reader).events(),
        match scene_at(old(reader).events(), old(reader).position()) {
            Some((scene, end)) => r is Ok && r->Ok_0@ == scene && final(reader).position() == end,
            None => r is Err && (r->Err_0.is_truncated() || r->Err_0 is UnclassifiedCritical),
        },
{
    proof {
        root_is_a_node::<I, C>(scene_start(), reader.events(), reader.position());
    }
    FbxSceneLoader::new(fbx_version, converter).load(reader)
}

} // verus!
