//! Contains `/Objects` node-related stuff.

use std::collections::HashMap;
use std::hash::BuildHasherDefault;
use fnv::FnvHasher;
use vstd::prelude::*;
use crate::definitions::template::Templates;
use crate::definitions::Definitions;
use crate::error::Result;
use crate::event::{EventReader, FbxEvent, PropertiesIter};
use crate::node_loader::{
    cells_at, children, describes, ignore_current_node, loader_ends_with_its_node, name_at,
    node_end, node_end_is_later, skipped, FormatConvert, NodeLoad, RawNodeInfo,
};
use crate::text::same_text;

pub mod collection;
pub mod deformer;
pub mod geometry;
pub mod material;
pub mod model;
pub mod node_attribute;
pub mod pose;
pub mod properties;
pub mod texture;
pub mod video;

pub use self::collection::DisplayLayer;
pub use self::deformer::{BlendShape, BlendShapeChannel, Cluster, Skin, SkinningType};
pub use self::geometry::{LayerElement, MappingMode, Mesh, ReferenceMode, Shape, VertexIndex};
pub use self::material::{Material, ShadingParameters};
pub use self::model::{CullingType, Model};
pub use self::node_attribute::{
    LimbNodeAttribute, NodeAttributeType, NullNodeAttribute, NullNodeLook,
};
pub use self::pose::{Pose, PoseNode};
pub use self::texture::{BlendMode, Texture, WrapMode};
pub use self::video::Video;
use self::collection::{
    collection_of, collection_start, CollectionExclusive, CollectionExclusiveLoader, CollectionView,
};
use self::deformer::blend_shape::BlendShapeView;
use self::deformer::blend_shape_channel::ChannelView;
use self::deformer::cluster::ClusterView;
use self::deformer::{
    deformer_of, deformer_start, unknown_deformer_is_kept, Deformer, DeformerLoader, DeformerView,
};
use self::geometry::mesh::triangulation::{callable, too_large_for, triangulated_by};
use self::geometry::mesh::MeshView;
use self::geometry::shape::ShapeView;
use self::geometry::{geometry_of, geometry_start, Geometry, GeometryLoader, GeometryView};
use self::material::{material_of, material_start, MaterialLoader, MaterialView};
use self::model::{model_of, model_start, ModelLoader, ModelView};
use self::node_attribute::{
    node_attribute_of, node_attribute_start, NodeAttribute, NodeAttributeLoader, NodeAttributeView,
};
use self::pose::{pose_of, pose_start, PoseLoader, PoseView};
use self::properties::{identity_of, Identity, ObjectProperties};
use self::texture::{texture_of, texture_start, TextureLoader, TextureView};
use self::video::{
    video_children, video_ends_with_its_node, video_of, video_start, VideoLoader, VideoView,
};

verus! {

#[verifier::external_type_specification]
#[verifier::external_body]
pub struct ExFnvHasher(FnvHasher);

#[verifier::external_type_specification]
#[verifier::external_body]
#[verifier::reject_recursive_types(H)]
pub struct ExBuildHasherDefault<H>(BuildHasherDefault<H>);

/// A map from the ids of objects to the objects.
pub type ObjectsMap<V> = HashMap<i64, V, BuildHasherDefault<FnvHasher>>;

/// Whether a map holds nothing.
pub open spec fn holds_nothing<V>(objects: Map<i64, V>) -> bool {
    objects == Map::<i64, V>::empty()
}

/// A new map of objects, which holds nothing.
fn new_map<V>() -> (r: ObjectsMap<V>)
    ensures
        holds_nothing(r@),
{
    HashMap::default()
}

/// Puts an object under its id. `HashMap::insert` with the hasher of `fnv`
/// puts the value under the key, in place of a value that was there, and
/// leaves the other keys as they were.
#[verifier::external_body]
fn put<V>(objects: &mut ObjectsMap<V>, id: i64, object: V)
    ensures
        final(objects)@ == old(objects)@.insert(id, object),
{
    objects.insert(id, object);
}

/// The object under an id. `HashMap::get` with the hasher of `fnv` finds
/// the value that was last put under the key, if any.
#[verifier::external_body]
fn look_up<V>(objects: &ObjectsMap<V>, id: i64) -> (r: Option<&V>)
    ensures
        r is Some == objects@.contains_key(id),
        r is Some ==> *r->0 == objects@[id],
{
    objects.get(&id)
}

/// The ids under which a map holds objects. `HashMap::keys` with the
/// hasher of `fnv` visits every key once, in an order that nothing is said
/// about.
#[verifier::external_body]
fn ids_of<V>(objects: &ObjectsMap<V>) -> (r: Vec<i64>)
    ensures
        r@.no_duplicates(),
        r@.to_set() == objects@.dom(),
{
    objects.keys().copied().collect()
}

/// Takes the object under an id out of a map. `HashMap::remove` with the
/// hasher of `fnv` hands out the value under the key, if any, and leaves
/// the other keys as they were.
#[verifier::external_body]
fn take_out<V>(objects: &mut ObjectsMap<V>, id: i64) -> (r: Option<V>)
    ensures
        final(objects)@ == old(objects)@.remove(id),
        r is Some == old(objects)@.contains_key(id),
        r is Some ==> r->0 == old(objects)@[id],
{
    objects.remove(&id)
}

/// The objects of a scene: for each kind of object, a map from ids to the
/// objects of that kind.
#[derive(Debug, Clone)]
pub struct Objects<I: Clone> {
    pub unknown: ObjectsMap<UnknownObject>,
    pub blend_shapes: ObjectsMap<BlendShape>,
    pub blend_shape_channels: ObjectsMap<BlendShapeChannel>,
    pub clusters: ObjectsMap<Cluster>,
    pub display_layers: ObjectsMap<DisplayLayer>,
    pub geometry_meshes: ObjectsMap<Mesh>,
    pub geometry_shapes: ObjectsMap<Shape>,
    pub materials: ObjectsMap<Material>,
    pub model_limb_nodes: ObjectsMap<Model>,
    pub model_meshes: ObjectsMap<Model>,
    pub model_nulls: ObjectsMap<Model>,
    pub node_attribute_limb_nodes: ObjectsMap<LimbNodeAttribute>,
    pub node_attribute_nulls: ObjectsMap<NullNodeAttribute>,
    pub poses: ObjectsMap<Pose>,
    pub skins: ObjectsMap<Skin>,
    pub textures: ObjectsMap<Texture>,
    pub videos: ObjectsMap<Video<I>>,
}

/// The objects of a scene, as a mathematical value.
pub ghost struct ObjectsView {
    pub unknown: Map<i64, Identity>,
    pub blend_shapes: Map<i64, BlendShapeView>,
    pub blend_shape_channels: Map<i64, ChannelView>,
    pub clusters: Map<i64, ClusterView>,
    pub display_layers: Map<i64, DisplayLayer>,
    pub geometry_meshes: Map<i64, MeshView>,
    pub geometry_shapes: Map<i64, ShapeView>,
    pub materials: Map<i64, MaterialView>,
    pub model_limb_nodes: Map<i64, ModelView>,
    pub model_meshes: Map<i64, ModelView>,
    pub model_nulls: Map<i64, ModelView>,
    pub node_attribute_limb_nodes: Map<i64, LimbNodeAttribute>,
    pub node_attribute_nulls: Map<i64, NullNodeAttribute>,
    pub poses: Map<i64, PoseView>,
    pub skins: Map<i64, Skin>,
    pub textures: Map<i64, TextureView>,
    pub videos: Map<i64, VideoView>,
}

/// The views of the objects of a map.
pub open spec fn viewed<V: View>(map: Map<i64, V>) -> Map<i64, V::V> {
    Map::new(|id: i64| map.contains_key(id), |id: i64| map[id]@)
}

/// The views of a map with one more object are the views of the map with
/// one more view.
pub proof fn viewed_of_insert<V: View>(map: Map<i64, V>, id: i64, object: V)
    ensures
        viewed(map.insert(id, object)) == viewed(map).insert(id, object@),
{
    assert(viewed(map.insert(id, object)) =~= viewed(map).insert(id, object@));
}

/// The views of no objects are no views.
pub proof fn viewed_of_empty<V: View>()
    ensures
        viewed(Map::<i64, V>::empty()) == Map::<i64, V::V>::empty(),
{
    assert(viewed(Map::<i64, V>::empty()) =~= Map::<i64, V::V>::empty());
}

impl<I: Clone> View for Objects<I> {
    type V = ObjectsView;

    open spec fn view(&self) -> ObjectsView {
        ObjectsView {
            unknown: viewed(self.unknown@),
            blend_shapes: viewed(self.blend_shapes@),
            blend_shape_channels: viewed(self.blend_shape_channels@),
            clusters: viewed(self.clusters@),
            display_layers: self.display_layers@,
            geometry_meshes: viewed(self.geometry_meshes@),
            geometry_shapes: viewed(self.geometry_shapes@),
            materials: viewed(self.materials@),
            model_limb_nodes: viewed(self.model_limb_nodes@),
            model_meshes: viewed(self.model_meshes@),
            model_nulls: viewed(self.model_nulls@),
            node_attribute_limb_nodes: self.node_attribute_limb_nodes@,
            node_attribute_nulls: self.node_attribute_nulls@,
            poses: viewed(self.poses@),
            skins: self.skins@,
            textures: viewed(self.textures@),
            videos: viewed(self.videos@),
        }
    }
}

/// No objects at all.
pub open spec fn no_objects() -> ObjectsView {
    ObjectsView {
        unknown: Map::empty(),
        blend_shapes: Map::empty(),
        blend_shape_channels: Map::empty(),
        clusters: Map::empty(),
        display_layers: Map::empty(),
        geometry_meshes: Map::empty(),
        geometry_shapes: Map::empty(),
        materials: Map::empty(),
        model_limb_nodes: Map::empty(),
        model_meshes: Map::empty(),
        model_nulls: Map::empty(),
        node_attribute_limb_nodes: Map::empty(),
        node_attribute_nulls: Map::empty(),
        poses: Map::empty(),
        skins: Map::empty(),
        textures: Map::empty(),
        videos: Map::empty(),
    }
}

impl<I: Clone> Objects<I> {
    pub fn new() -> (r: Self)
        ensures
            r@ == no_objects(),
    {
        proof {
            viewed_of_empty::<UnknownObject>();
            viewed_of_empty::<BlendShape>();
            viewed_of_empty::<BlendShapeChannel>();
            viewed_of_empty::<Cluster>();
            viewed_of_empty::<Mesh>();
            viewed_of_empty::<Shape>();
            viewed_of_empty::<Material>();
            viewed_of_empty::<Model>();
            viewed_of_empty::<Pose>();
            viewed_of_empty::<Texture>();
            viewed_of_empty::<Video<I>>();
        }
        Objects {
            unknown: new_map(),
            blend_shapes: new_map(),
            blend_shape_channels: new_map(),
            clusters: new_map(),
            display_layers: new_map(),
            geometry_meshes: new_map(),
            geometry_shapes: new_map(),
            materials: new_map(),
            model_limb_nodes: new_map(),
            model_meshes: new_map(),
            model_nulls: new_map(),
            node_attribute_limb_nodes: new_map(),
            node_attribute_nulls: new_map(),
            poses: new_map(),
            skins: new_map(),
            textures: new_map(),
            videos: new_map(),
        }
    }

    pub fn add_unknown(&mut self, obj: UnknownObject)
        ensures
            final(self)@ == (ObjectsView {
                unknown: old(self)@.unknown.insert(obj.id, obj@),
                ..old(self)@
            }),
    {
        proof {
            viewed_of_insert(self.unknown@, obj.id, obj);
        }
        put(&mut self.unknown, obj.id, obj);
    }

    pub fn add_blend_shape(&mut self, obj: BlendShape)
        ensures
            final(self)@ == (ObjectsView {
                blend_shapes: old(self)@.blend_shapes.insert(obj.id, obj@),
                ..old(self)@
            }),
    {
        proof {
            viewed_of_insert(self.blend_shapes@, obj.id, obj);
        }
        put(&mut self.blend_shapes, obj.id, obj);
    }

    pub fn add_blend_shape_channel(&mut self, obj: BlendShapeChannel)
        ensures
            final(self)@ == (ObjectsView {
                blend_shape_channels: old(self)@.blend_shape_channels.insert(obj.id, obj@),
                ..old(self)@
            }),
    {
        proof {
            viewed_of_insert(self.blend_shape_channels@, obj.id, obj);
        }
        put(&mut self.blend_shape_channels, obj.id, obj);
    }

    pub fn add_cluster(&mut self, obj: Cluster)
        ensures
            final(self)@ == (ObjectsView {
                clusters: old(self)@.clusters.insert(obj.id, obj@),
                ..old(self)@
            }),
    {
        proof {
            viewed_of_insert(self.clusters@, obj.id, obj);
        }
        put(&mut self.clusters, obj.id, obj);
    }

    pub fn add_display_layer(&mut self, obj: DisplayLayer)
        ensures
            final(self)@ == (ObjectsView {
                display_layers: old(self)@.display_layers.insert(obj.id, obj),
                ..old(self)@
            }),
    {
        put(&mut self.display_layers, obj.id, obj);
    }

    pub fn add_geometry_mesh(&mut self, obj: Mesh)
        ensures
            final(self)@ == (ObjectsView {
                geometry_meshes: old(self)@.geometry_meshes.insert(obj.id, obj@),
                ..old(self)@
            }),
    {
        proof {
            viewed_of_insert(self.geometry_meshes@, obj.id, obj);
        }
        put(&mut self.geometry_meshes, obj.id, obj);
    }

    pub fn add_geometry_shape(&mut self, obj: Shape)
        ensures
            final(self)@ == (ObjectsView {
                geometry_shapes: old(self)@.geometry_shapes.insert(obj.id, obj@),
                ..old(self)@
            }),
    {
        proof {
            viewed_of_insert(self.geometry_shapes@, obj.id, obj);
        }
        put(&mut self.geometry_shapes, obj.id, obj);
    }

    pub fn add_material(&mut self, obj: Material)
        ensures
            final(self)@ == (ObjectsView {
                materials: old(self)@.materials.insert(obj.id, obj@),
                ..old(self)@
            }),
    {
        proof {
            viewed_of_insert(self.materials@, obj.id, obj);
        }
        put(&mut self.materials, obj.id, obj);
    }

    pub fn add_model_limb_node(&mut self, obj: Model)
        ensures
            final(self)@ == (ObjectsView {
                model_limb_nodes: old(self)@.model_limb_nodes.insert(obj.id, obj@),
                ..old(self)@
            }),
    {
        proof {
            viewed_of_insert(self.model_limb_nodes@, obj.id, obj);
        }
        put(&mut self.model_limb_nodes, obj.id, obj);
    }

    pub fn add_model_mesh(&mut self, obj: Model)
        ensures
            final(self)@ == (ObjectsView {
                model_meshes: old(self)@.model_meshes.insert(obj.id, obj@),
                ..old(self)@
            }),
    {
        proof {
            viewed_of_insert(self.model_meshes@, obj.id, obj);
        }
        put(&mut self.model_meshes, obj.id, obj);
    }

    pub fn add_model_null(&mut self, obj: Model)
        ensures
            final(self)@ == (ObjectsView {
                model_nulls: old(self)@.model_nulls.insert(obj.id, obj@),
                ..old(self)@
            }),
    {
        proof {
            viewed_of_insert(self.model_nulls@, obj.id, obj);
        }
        put(&mut self.model_nulls, obj.id, obj);
    }

    pub fn add_node_attribute_null(&mut self, obj: NullNodeAttribute)
        ensures
            final(self)@ == (ObjectsView {
                node_attribute_nulls: old(self)@.node_attribute_nulls.insert(obj.id, obj),
                ..old(self)@
            }),
    {
        put(&mut self.node_attribute_nulls, obj.id, obj);
    }

    pub fn add_node_attribute_limb_node(&mut self, obj: LimbNodeAttribute)
        ensures
            final(self)@ == (ObjectsView {
                node_attribute_limb_nodes: old(self)@.node_attribute_limb_nodes.insert(obj.id, obj),
                ..old(self)@
            }),
    {
        put(&mut self.node_attribute_limb_nodes, obj.id, obj);
    }

    pub fn add_pose(&mut self, obj: Pose)
        ensures
            final(self)@ == (ObjectsView { poses: old(self)@.poses.insert(obj.id, obj@), ..old(self)@ }),
    {
        proof {
            viewed_of_insert(self.poses@, obj.id, obj);
        }
        put(&mut self.poses, obj.id, obj);
    }

    pub fn add_skin(&mut self, obj: Skin)
        ensures
            final(self)@ == (ObjectsView { skins: old(self)@.skins.insert(obj.id, obj), ..old(self)@ }),
    {
        put(&mut self.skins, obj.id, obj);
    }

    pub fn add_texture(&mut self, obj: Texture)
        ensures
            final(self)@ == (ObjectsView {
                textures: old(self)@.textures.insert(obj.id, obj@),
                ..old(self)@
            }),
    {
        proof {
            viewed_of_insert(self.textures@, obj.id, obj);
        }
        put(&mut self.textures, obj.id, obj);
    }

    pub fn add_video(&mut self, obj: Video<I>)
        ensures
            final(self)@ == (ObjectsView { videos: old(self)@.videos.insert(obj.id, obj@), ..old(self)@ }),
    {
        proof {
            viewed_of_insert(self.videos@, obj.id, obj);
        }
        put(&mut self.videos, obj.id, obj);
    }

    /// Triangulates every mesh with the given triangulation function, as
    /// `Mesh::triangulate` does.
    ///
    /// Nothing but the meshes changes, and there are the same meshes after
    /// as before. Every mesh is either as it was or triangulated; without an
    /// error every mesh is triangulated. An error comes only where a mesh is
    /// too large for the triangulator; it is that of the first such mesh,
    /// and the meshes after it stay as they are.
    pub fn triangulate<F: Fn(&Vec<[u32; 3]>, &Vec<u32>) -> Vec<u32>>(&mut self, triangulator: &F) -> (r:
        Result<()>)
        requires
            callable(*triangulator),
        ensures
            final(self)@ == (ObjectsView {
                geometry_meshes: final(self)@.geometry_meshes,
                ..old(self)@
            }),
            final(self).geometry_meshes@.dom() == old(self).geometry_meshes@.dom(),
            forall|id: i64| #[trigger]
                old(self).geometry_meshes@.contains_key(id) ==> final(self).geometry_meshes@[id]
                    == old(self).geometry_meshes@[id] || triangulated_by(
                    *triangulator,
                    old(self).geometry_meshes@[id],
                    final(self).geometry_meshes@[id]@,
                ),
            r is Ok ==> forall|id: i64| #[trigger]
                old(self).geometry_meshes@.contains_key(id) ==> triangulated_by(
                    *triangulator,
                    old(self).geometry_meshes@[id],
                    final(self).geometry_meshes@[id]@,
                ),
            r is Err ==> r->Err_0 is UnclassifiedCritical && exists|id: i64|
                #[trigger] old(self).geometry_meshes@.contains_key(id) && too_large_for(
                    *triangulator,
                    old(self).geometry_meshes@[id],
                ),
    {
        let ids = ids_of(&self.geometry_meshes);
        let ghost before = self.geometry_meshes@;
        let mut i: usize = 0;
        while i < ids.len()
            invariant
                i <= ids.len(),
                callable(*triangulator),
                before == old(self).geometry_meshes@,
                ids@.no_duplicates(),
                ids@.to_set() == before.dom(),
                self@ == (ObjectsView { geometry_meshes: self@.geometry_meshes, ..old(self)@ }),
                self.geometry_meshes@.dom() == before.dom(),
                forall|j: int|
                    0 <= j < i ==> triangulated_by(
                        *triangulator,
                        before[#[trigger] ids@[j]],
                        self.geometry_meshes@[ids@[j]]@,
                    ),
                forall|j: int|
                    i <= j < ids.len() ==> self.geometry_meshes@[#[trigger] ids@[j]] == before[ids@[j]],
            decreases ids.len() - i,
        {
            let id = ids[i];
            proof {
                assert(ids@.to_set().contains(ids@[i as int]));
            }
            let ghost held = self.geometry_meshes@;
            match take_out(&mut self.geometry_meshes, id) {
                Some(mesh) => {
                    let mut mesh = mesh;
                    let ghost taken = mesh;
                    assert(taken == before[id]);
                    let result = mesh.triangulate(triangulator);
                    put(&mut self.geometry_meshes, id, mesh);
                    proof {
                        assert(self.geometry_meshes@ =~= held.insert(id, mesh));
                        assert(self.geometry_meshes@.dom() =~= before.dom());
                        assert(viewed(self.geometry_meshes@).dom() =~= viewed(held).dom());
                    }
                    match result {
                        Ok(()) => {},
                        Err(e) => {
                            proof {
                                assert(mesh == before[id]);
                                assert(before.contains_key(id) && too_large_for(
                                    *triangulator,
                                    before[id],
                                ));
                                assert(self.geometry_meshes@ =~= held);
                                assert forall|other: i64| #[trigger]
                                    before.contains_key(other) implies self.geometry_meshes@[other]
                                    == before[other] || triangulated_by(
                                    *triangulator,
                                    before[other],
                                    self.geometry_meshes@[other]@,
                                ) by {
                                    let j = choose|j: int| 0 <= j < ids@.len() && ids@[j] == other;
                                }
                            }
                            return Err(e);
                        },
                    }
                },
                None => {},
            }
            i = i + 1;
        }
        proof {
            assert forall|other: i64| #[trigger] before.contains_key(other) implies triangulated_by(
                *triangulator,
                before[other],
                self.geometry_meshes@[other]@,
            ) by {
                assert(ids@.to_set().contains(other));
                let j = choose|j: int| 0 <= j < ids@.len() && ids@[j] == other;
            }
        }
        Ok(())
    }

    /// The mesh under an id, if there is one.
    pub fn mesh(&self, id: i64) -> (r: Option<&Mesh>)
        ensures
            view_of_ref(r) == (if self@.geometry_meshes.contains_key(id) {
                Some(self@.geometry_meshes[id])
            } else {
                None
            }),
    {
        look_up(&self.geometry_meshes, id)
    }
}

impl<I: Clone> Default for Objects<I> {
    /// No objects.
    fn default() -> (r: Self)
        ensures
            r@ == no_objects(),
    {
        Objects::new()
    }
}

/// The view of a borrowed value that may be missing.
pub open spec fn view_of_ref<V: View>(value: Option<&V>) -> Option<V::V> {
    match value {
        Some(v) => Some(v@),
        None => None,
    }
}

/// An object of a kind that is not known: what identifies it, and no more.
#[derive(Debug, Clone)]
pub struct UnknownObject {
    pub id: i64,
    pub name: String,
    pub class: String,
    pub subclass: String,
}

impl View for UnknownObject {
    type V = Identity;

    open spec fn view(&self) -> Identity {
        Identity { id: self.id, name: self.name@, class: self.class@, subclass: self.subclass@ }
    }
}

impl UnknownObject {
    pub fn from_object_properties<'a>(props: &ObjectProperties<'a>) -> (r: Self)
        ensures
            r@ == props@,
    {
        UnknownObject {
            id: props.id,
            name: props.name.to_owned(),
            class: props.class.to_owned(),
            subclass: props.subclass.to_owned(),
        }
    }
}

/// The objects with what a node `CollectionExclusive` made.
pub open spec fn with_collection(state: ObjectsView, made: Option<CollectionView>) -> ObjectsView {
    match made {
        Some(CollectionView::DisplayLayer(o)) => ObjectsView {
            display_layers: state.display_layers.insert(o.id, o),
            ..state
        },
        Some(CollectionView::Unknown(o)) => ObjectsView { unknown: state.unknown.insert(o.id, o), ..state },
        None => state,
    }
}

/// The objects with what a node `Deformer` made.
pub open spec fn with_deformer(state: ObjectsView, made: Option<DeformerView>) -> ObjectsView {
    match made {
        Some(DeformerView::BlendShape(o)) => ObjectsView {
            blend_shapes: state.blend_shapes.insert(o.id, o),
            ..state
        },
        Some(DeformerView::BlendShapeChannel(o)) => ObjectsView {
            blend_shape_channels: state.blend_shape_channels.insert(o.id, o),
            ..state
        },
        Some(DeformerView::Cluster(o)) => ObjectsView { clusters: state.clusters.insert(o.id, o), ..state },
        Some(DeformerView::Skin(o)) => ObjectsView { skins: state.skins.insert(o.id, o), ..state },
        Some(DeformerView::Unknown(o)) => ObjectsView { unknown: state.unknown.insert(o.id, o), ..state },
        None => state,
    }
}

/// The objects with what a node `Geometry` made.
pub open spec fn with_geometry(state: ObjectsView, made: Option<GeometryView>) -> ObjectsView {
    match made {
        Some(GeometryView::Mesh(o)) => ObjectsView {
            geometry_meshes: state.geometry_meshes.insert(o.id, o),
            ..state
        },
        Some(GeometryView::Shape(o)) => ObjectsView {
            geometry_shapes: state.geometry_shapes.insert(o.id, o),
            ..state
        },
        Some(GeometryView::Unknown(o)) => ObjectsView { unknown: state.unknown.insert(o.id, o), ..state },
        None => state,
    }
}

/// The objects with what a node `NodeAttribute` made.
pub open spec fn with_node_attribute(state: ObjectsView, made: Option<NodeAttributeView>) -> ObjectsView {
    match made {
        Some(NodeAttributeView::LimbNode(o)) => ObjectsView {
            node_attribute_limb_nodes: state.node_attribute_limb_nodes.insert(o.id, o),
            ..state
        },
        Some(NodeAttributeView::Null(o)) => ObjectsView {
            node_attribute_nulls: state.node_attribute_nulls.insert(o.id, o),
            ..state
        },
        Some(NodeAttributeView::Unknown(o)) => ObjectsView {
            unknown: state.unknown.insert(o.id, o),
            ..state
        },
        None => state,
    }
}

/// The objects with what a node `Model` made: a model of subclass
/// `LimbNode`, `Mesh` or `Null` goes to the models of that kind; of a model
/// of any other subclass only the identity is kept, as an unknown object.
pub open spec fn with_model(state: ObjectsView, identity: Identity, made: Option<ModelView>) -> ObjectsView {
    match made {
        Some(o) => if identity.subclass == "LimbNode"@ {
            ObjectsView { model_limb_nodes: state.model_limb_nodes.insert(o.id, o), ..state }
        } else if identity.subclass == "Mesh"@ {
            ObjectsView { model_meshes: state.model_meshes.insert(o.id, o), ..state }
        } else if identity.subclass == "Null"@ {
            ObjectsView { model_nulls: state.model_nulls.insert(o.id, o), ..state }
        } else {
            ObjectsView { unknown: state.unknown.insert(identity.id, identity), ..state }
        },
        None => state,
    }
}

/// The objects with a material, if one was made.
pub open spec fn with_material(state: ObjectsView, made: Option<MaterialView>) -> ObjectsView {
    match made {
        Some(o) => ObjectsView { materials: state.materials.insert(o.id, o), ..state },
        None => state,
    }
}

/// The objects with a pose, if one was made.
pub open spec fn with_pose(state: ObjectsView, made: Option<PoseView>) -> ObjectsView {
    match made {
        Some(o) => ObjectsView { poses: state.poses.insert(o.id, o), ..state },
        None => state,
    }
}

/// The objects with a texture, if one was made.
pub open spec fn with_texture(state: ObjectsView, made: Option<TextureView>) -> ObjectsView {
    match made {
        Some(o) => ObjectsView { textures: state.textures.insert(o.id, o), ..state },
        None => state,
    }
}

/// The objects with a video, if one was made.
pub open spec fn with_video(state: ObjectsView, made: Option<VideoView>) -> ObjectsView {
    match made {
        Some(o) => ObjectsView { videos: state.videos.insert(o.id, o), ..state },
        None => state,
    }
}

/// What one child of the objects node makes of the objects, and where the
/// child ends.
///
/// A child whose cells give no identity is skipped. Else the name of the
/// child chooses the loader: `CollectionExclusive`, `Deformer`, `Geometry`,
/// `Material`, `Model`, `NodeAttribute`, `Pose`, `Texture` or `Video`. What
/// the loader makes goes to the map of its kind, under its id; where it
/// makes nothing, the objects stay as they are. A child of any other name
/// is skipped, and its identity is kept as an unknown object.
pub open spec fn objects_step(state: ObjectsView, templates: Templates, events: Seq<FbxEvent>, pos: int) -> Option<
    (ObjectsView, int),
> {
    let name = name_at(events, pos);
    match identity_of(cells_at(events, pos)) {
        None => skipped(state, events, pos),
        Some(identity) => if name == "CollectionExclusive"@ {
            match children::<CollectionExclusiveLoader>(
                collection_start(templates, identity),
                events,
                pos,
            ) {
                Some((after, end)) => Some((with_collection(state, collection_of(after)), end)),
                None => None,
            }
        } else if name == "Deformer"@ {
            match children::<DeformerLoader>(deformer_start(identity), events, pos) {
                Some((after, end)) => Some((with_deformer(state, deformer_of(after)), end)),
                None => None,
            }
        } else if name == "Geometry"@ {
            match children::<GeometryLoader>(geometry_start(identity), events, pos) {
                Some((after, end)) => Some((with_geometry(state, geometry_of(after)), end)),
                None => None,
            }
        } else if name == "Material"@ {
            match children::<MaterialLoader>(material_start(templates, identity), events, pos) {
                Some((after, end)) => Some((with_material(state, material_of(after)), end)),
                None => None,
            }
        } else if name == "Model"@ {
            match children::<ModelLoader>(model_start(templates, identity), events, pos) {
                Some((after, end)) => Some((with_model(state, identity, model_of(after)), end)),
                None => None,
            }
        } else if name == "NodeAttribute"@ {
            match children::<NodeAttributeLoader>(
                node_attribute_start(templates, identity),
                events,
                pos,
            ) {
                Some((after, end)) => Some((with_node_attribute(state, node_attribute_of(after)), end)),
                None => None,
            }
        } else if name == "Pose"@ {
            match children::<PoseLoader>(pose_start(identity), events, pos) {
                Some((after, end)) => Some((with_pose(state, pose_of(after)), end)),
                None => None,
            }
        } else if name == "Texture"@ {
            match children::<TextureLoader>(texture_start(templates, identity), events, pos) {
                Some((after, end)) => Some((with_texture(state, texture_of(after)), end)),
                None => None,
            }
        } else if name == "Video"@ {
            match video_children(video_start(templates, identity), events, pos) {
                Some((after, end)) => Some((with_video(state, video_of(after)), end)),
                None => None,
            }
        } else {
            skipped(
                ObjectsView { unknown: state.unknown.insert(identity.id, identity), ..state },
                events,
                pos,
            )
        },
    }
}

/// A node `Deformer` of a class or subclass that is not known adds an
/// unknown object with the identity of the node, and nothing else, and the
/// objects after it are loaded from where the node ends.
pub proof fn unknown_deformer_becomes_unknown_object(
    state: ObjectsView,
    templates: Templates,
    events: Seq<FbxEvent>,
    pos: int,
)
    requires
        name_at(events, pos) == "Deformer"@,
        identity_of(cells_at(events, pos)) is Some,
        deformer_start(identity_of(cells_at(events, pos))->0) is Unknown,
        node_end(events, pos) is Some,
    ensures
        objects_step(state, templates, events, pos) == Some(
            (
                ObjectsView {
                    unknown: state.unknown.insert(
                        identity_of(cells_at(events, pos))->0.id,
                        identity_of(cells_at(events, pos))->0,
                    ),
                    ..state
                },
                node_end(events, pos)->0,
            ),
        ),
{
    reveal_strlit("Deformer");
    reveal_strlit("CollectionExclusive");
    let identity = identity_of(cells_at(events, pos))->0;
    unknown_deformer_is_kept(identity, events, pos);
    assert("Deformer"@.len() != "CollectionExclusive"@.len());
    assert(name_at(events, pos) != "CollectionExclusive"@);
    let made = children::<DeformerLoader>(deformer_start(identity), events, pos)->0;
    assert(deformer_of(made.0) == Some(DeformerView::Unknown(identity)));
    assert(with_deformer(state, deformer_of(made.0)) == (ObjectsView {
        unknown: state.unknown.insert(identity.id, identity),
        ..state
    }));
}

/// A node `Texture` whose loader ends without a relative file name adds
/// nothing to the objects.
pub proof fn incomplete_texture_is_dropped(state: ObjectsView, after: texture::TextureState)
    requires
        after.relative_filename is None,
    ensures
        with_texture(state, texture_of(after)) == state,
{
}

/// What the children of the objects node from `pos` on make of the objects,
/// and where the node ends.
pub open spec fn objects_children(state: ObjectsView, templates: Templates, events: Seq<FbxEvent>, pos: int) -> Option<
    (ObjectsView, int),
>
    decreases events.len() - pos,
{
    if pos < 0 || pos >= events.len() {
        None
    } else {
        match events[pos] {
            FbxEvent::StartNode { .. } => match objects_step(state, templates, events, pos + 1) {
                Some((after, next)) => if pos < next <= events.len() {
                    objects_children(after, templates, events, next)
                } else {
                    None
                },
                None => None,
            },
            _ => Some((state, pos + 1)),
        }
    }
}

/// An object node that ends is read to its end and no further, whatever
/// its kind and whatever it holds.
pub proof fn object_ends_with_its_node(state: ObjectsView, templates: Templates, events: Seq<FbxEvent>, pos: int)
    requires
        node_end(events, pos) is Some,
    ensures
        objects_step(state, templates, events, pos) matches Some((_, end)) && end == node_end(
            events,
            pos,
        )->0,
{
    match identity_of(cells_at(events, pos)) {
        Some(identity) => {
            loader_ends_with_its_node::<CollectionExclusiveLoader>(
                collection_start(templates, identity),
                events,
                pos,
            );
            loader_ends_with_its_node::<DeformerLoader>(deformer_start(identity), events, pos);
            loader_ends_with_its_node::<GeometryLoader>(geometry_start(identity), events, pos);
            loader_ends_with_its_node::<MaterialLoader>(
                material_start(templates, identity),
                events,
                pos,
            );
            loader_ends_with_its_node::<ModelLoader>(model_start(templates, identity), events, pos);
            loader_ends_with_its_node::<NodeAttributeLoader>(
                node_attribute_start(templates, identity),
                events,
                pos,
            );
            loader_ends_with_its_node::<PoseLoader>(pose_start(identity), events, pos);
            loader_ends_with_its_node::<TextureLoader>(texture_start(templates, identity), events, pos);
            video_ends_with_its_node(video_start(templates, identity), events, pos);
        },
        None => {},
    }
}

/// An objects node that ends is read to its end and no further.
pub proof fn objects_end_with_their_node(
    state: ObjectsView,
    templates: Templates,
    events: Seq<FbxEvent>,
    pos: int,
)
    requires
        node_end(events, pos) is Some,
    ensures
        objects_children(state, templates, events, pos) matches Some((_, end)) && end == node_end(
            events,
            pos,
        )->0,
    decreases events.len() - pos,
{
    if events[pos] is StartNode {
        node_end_is_later(events, pos + 1);
        object_ends_with_its_node(state, templates, events, pos + 1);
        match objects_step(state, templates, events, pos + 1) {
            Some((after, next)) => {
                objects_end_with_their_node(after, templates, events, next);
            },
            None => {},
        }
    }
}

/// The loader of the objects node. Unlike other loaders it is handed the
/// objects to add to and a converter with every child.
#[derive(Debug)]
pub struct ObjectsLoader<'a> {
    definitions: &'a Definitions,
}

impl<'a> ObjectsLoader<'a> {
    /// The templates that the loader looks defaults up in.
    pub closed spec fn templates(&self) -> Templates {
        self.definitions@
    }

    pub fn new(definitions: &'a Definitions) -> (r: Self)
        ensures
            r.templates() == definitions@,
    {
        ObjectsLoader { definitions: definitions }
    }

    /// Executed for each child. It leaves the cursor after the child's end.
    pub fn on_child_node<I: Clone, C: FormatConvert<ImageResult = I>>(
        &self,
        objects: &mut Objects<I>,
        converter: &mut C,
        reader: &mut EventReader<'_>,
        node_info: RawNodeInfo<'_>,
    ) -> (r: Result<()>)
        requires
            describes(node_info, old(reader).events(), old(reader).position() - 1),
        ensures
            final(reader).events() == old(reader).events(),
            r is Ok ==> old(reader).position() < final(reader).position() <= old(reader).events().len(),
            match objects_step(
                old(objects)@,
                self.templates(),
                old(reader).events(),
                old(reader).position(),
            ) {
                Some((after, next)) => r is Ok && final(objects)@ == after
                    && final(reader).position() == next,
                None => r is Err && r->Err_0.is_truncated(),
            },
    {
        let RawNodeInfo { name, properties } = node_info;
        let obj_props = match ObjectProperties::from_node_properties(PropertiesIter::new(properties)) {
            Some(val) => val,
            None => {
                return ignore_current_node(reader);
            },
        };
        if same_text(name, "CollectionExclusive") {
            match CollectionExclusiveLoader::new(self.definitions, &obj_props).load(reader) {
                Ok(Some(CollectionExclusive::DisplayLayer(obj))) => {
                    objects.add_display_layer(obj);
                    Ok(())
                },
                Ok(Some(CollectionExclusive::Unknown(obj))) => {
                    objects.add_unknown(obj);
                    Ok(())
                },
                Ok(None) => Ok(()),
                Err(e) => Err(e),
            }
        } else if same_text(name, "Deformer") {
            match DeformerLoader::new(self.definitions, &obj_props).load(reader) {
                Ok(Some(Deformer::BlendShape(obj))) => {
                    objects.add_blend_shape(obj);
                    Ok(())
                },
                Ok(Some(Deformer::BlendShapeChannel(obj))) => {
                    objects.add_blend_shape_channel(obj);
                    Ok(())
                },
                Ok(Some(Deformer::Cluster(obj))) => {
                    objects.add_cluster(obj);
                    Ok(())
                },
                Ok(Some(Deformer::Skin(obj))) => {
                    objects.add_skin(obj);
                    Ok(())
                },
                Ok(Some(Deformer::Unknown(obj))) => {
                    objects.add_unknown(obj);
                    Ok(())
                },
                Ok(None) => Ok(()),
                Err(e) => Err(e),
            }
        } else if same_text(name, "Geometry") {
            match GeometryLoader::new(self.definitions, &obj_props).load(reader) {
                Ok(Some(Geometry::Mesh(obj))) => {
                    objects.add_geometry_mesh(obj);
                    Ok(())
                },
                Ok(Some(Geometry::Shape(obj))) => {
                    objects.add_geometry_shape(obj);
                    Ok(())
                },
                Ok(Some(Geometry::Unknown(obj))) => {
                    objects.add_unknown(obj);
                    Ok(())
                },
                Ok(None) => Ok(()),
                Err(e) => Err(e),
            }
        } else if same_text(name, "Material") {
            match MaterialLoader::new(self.definitions, &obj_props).load(reader) {
                Ok(Some(obj)) => {
                    objects.add_material(obj);
                    Ok(())
                },
                Ok(None) => Ok(()),
                Err(e) => Err(e),
            }
        } else if same_text(name, "Model") {
            match ModelLoader::new(self.definitions, &obj_props).load(reader) {
                Ok(Some(obj)) => {
                    if same_text(obj_props.subclass, "LimbNode") {
                        objects.add_model_limb_node(obj);
                    } else if same_text(obj_props.subclass, "Mesh") {
                        objects.add_model_mesh(obj);
                    } else if same_text(obj_props.subclass, "Null") {
                        objects.add_model_null(obj);
                    } else {
                        objects.add_unknown(UnknownObject::from_object_properties(&obj_props));
                    }
                    Ok(())
                },
                Ok(None) => Ok(()),
                Err(e) => Err(e),
            }
        } else if same_text(name, "NodeAttribute") {
            match NodeAttributeLoader::new(self.definitions, &obj_props).load(reader) {
                Ok(Some(NodeAttribute::LimbNode(obj))) => {
                    objects.add_node_attribute_limb_node(obj);
                    Ok(())
                },
                Ok(Some(NodeAttribute::Null(obj))) => {
                    objects.add_node_attribute_null(obj);
                    Ok(())
                },
                Ok(Some(NodeAttribute::Unknown(obj))) => {
                    objects.add_unknown(obj);
                    Ok(())
                },
                Ok(None) => Ok(()),
                Err(e) => Err(e),
            }
        } else if same_text(name, "Pose") {
            match PoseLoader::new(self.definitions, &obj_props).load(reader) {
                Ok(Some(obj)) => {
                    objects.add_pose(obj);
                    Ok(())
                },
                Ok(None) => Ok(()),
                Err(e) => Err(e),
            }
        } else if same_text(name, "Texture") {
            match TextureLoader::new(self.definitions, &obj_props).load(reader) {
                Ok(Some(obj)) => {
                    objects.add_texture(obj);
                    Ok(())
                },
                Ok(None) => Ok(()),
                Err(e) => Err(e),
            }
        } else if same_text(name, "Video") {
            match VideoLoader::new(self.definitions, &obj_props).load(converter, reader) {
                Ok(Some(obj)) => {
                    objects.add_video(obj);
                    Ok(())
                },
                Ok(None) => Ok(()),
                Err(e) => Err(e),
            }
        } else {
            objects.add_unknown(UnknownObject::from_object_properties(&obj_props));
            ignore_current_node(reader)
        }
    }

    /// Reads the objects node that the cursor is in up to its end, handing
    /// each child to `on_child_node`.
    pub fn load<I: Clone, C: FormatConvert<ImageResult = I>>(
        self,
        objects: &mut Objects<I>,
        converter: &mut C,
        reader: &mut EventReader<'_>,
    ) -> (r: Result<()>)
        ensures
            final(reader).events() == old(reader).events(),
            r is Ok ==> old(reader).position() < final(reader).position() <= old(reader).events().len(),
            match objects_children(
                old(objects)@,
                self.templates(),
                old(reader).events(),
                old(reader).position(),
            ) {
                Some((after, end)) => r is Ok && final(objects)@ == after && final(reader).position()
                    == end,
                None => r is Err && r->Err_0.is_truncated(),
            },
    {
        let ghost events = reader.events();
        let ghost begin = reader.position();
        let ghost first = objects@;
        loop
            invariant
                reader.events() == events,
                old(reader).events() == events,
                old(reader).position() == begin,
                old(objects)@ == first,
                begin <= reader.position(),
                objects_children(objects@, self.templates(), events, reader.position())
                    == objects_children(first, self.templates(), events, begin),
            decreases events.len() - reader.position(),
        {
            match reader.next() {
                Err(e) => {
                    return Err(e);
                },
                Ok(event) => match event {
                    FbxEvent::StartNode { name, properties } => {
                        let info = RawNodeInfo { name: name.as_str(), properties: properties };
                        match self.on_child_node(objects, converter, reader, info) {
                            Err(e) => {
                                return Err(e);
                            },
                            Ok(()) => {},
                        }
                    },
                    _ => {
                        return Ok(());
                    },
                },
            }
        }
    }
}

} // verus!
