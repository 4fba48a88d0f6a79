use fbx_scene::error::Error;
use fbx_scene::event::{EventReader, FbxEvent, Number, Property};
use fbx_scene::definitions::{DefinitionsLoader, PropertyTemplates};
use fbx_scene::node_loader::{FormatConvert, NodeLoad};
use fbx_scene::objects::material::shading_parameters::{
    LambertParameters, PhongParameters, ShadingParameters,
};
use fbx_scene::objects::{
    BlendMode, CullingType, NodeAttributeType, NullNodeLook, SkinningType, VertexIndex, WrapMode,
};
use fbx_scene::objects::model::InheritType;
use fbx_scene::scene::load_scene;
use fbx_scene::FbxScene;

fn text(s: &str) -> Property {
    Property::String(Ok(s.to_owned()))
}

fn double(v: f64) -> Number {
    Number { single: (v as f32).to_bits(), double: v.to_bits() }
}

fn doubles(values: &[f64]) -> Property {
    Property::VecF64(values.iter().map(|v| double(*v)).collect())
}

fn bits(values: &[f32]) -> Vec<u32> {
    values.iter().map(|v| v.to_bits()).collect()
}

fn node(name: &str, properties: Vec<Property>, children: Vec<Vec<FbxEvent>>) -> Vec<FbxEvent> {
    let mut events = vec![FbxEvent::StartNode { name: name.to_owned(), properties }];
    for child in children {
        events.extend(child);
    }
    events.push(FbxEvent::EndNode);
    events
}

fn leaf(name: &str, properties: Vec<Property>) -> Vec<FbxEvent> {
    node(name, properties, vec![])
}

fn object(name: &str, id: i64, name_class: &str, subclass: &str, children: Vec<Vec<FbxEvent>>) -> Vec<FbxEvent> {
    node(name, vec![Property::I64(id), text(name_class), text(subclass)], children)
}

fn p(name: &str, data_type: &str, values: Vec<Property>) -> Vec<FbxEvent> {
    let mut cells = vec![text(name), text(data_type), text(""), text("")];
    cells.extend(values);
    leaf("P", cells)
}

fn template(object_type: &str, name: &str, properties: Vec<Vec<FbxEvent>>) -> Vec<FbxEvent> {
    node(
        "ObjectType",
        vec![text(object_type)],
        vec![
            leaf("Count", vec![Property::I32(1)]),
            node("PropertyTemplate", vec![text(name)], vec![node("Properties70", vec![], properties)]),
        ],
    )
}

fn definitions() -> Vec<FbxEvent> {
    node(
        "Definitions",
        vec![],
        vec![
            leaf("Version", vec![Property::I32(100)]),
            leaf("Count", vec![Property::I32(3)]),
            template(
                "Texture",
                "FbxFileTexture",
                vec![
                    p("UVSet", "KString", vec![text("default")]),
                    p("CurrentTextureBlendMode", "enum", vec![Property::I32(1)]),
                    p("PremultiplyAlpha", "bool", vec![Property::I32(1)]),
                    p("WrapModeU", "enum", vec![Property::I32(0)]),
                    p("WrapModeV", "enum", vec![Property::I32(0)]),
                ],
            ),
            template(
                "Model",
                "FbxNode",
                vec![
                    p("AxisLen", "double", vec![Property::F64(double(10.0))]),
                    p("Show", "bool", vec![Property::I32(1)]),
                    p("InheritType", "enum", vec![Property::I32(1)]),
                ],
            ),
            template("Video", "FbxVideo", vec![p("Path", "KString", vec![text("c:/default")])]),
            template(
                "NodeAttribute",
                "FbxNull",
                vec![
                    p("Color", "ColorRGB", vec![
                        Property::F64(double(0.5)), Property::F64(double(0.25)), Property::F64(double(1.0))]),
                    p("Size", "double", vec![Property::F64(double(100.0))]),
                    p("Look", "enum", vec![Property::I32(1)]),
                ],
            ),
            leaf("ObjectType", vec![Property::I32(1)]),
            leaf("Strange", vec![]),
        ],
    )
}

fn matrix() -> Vec<f64> {
    (0..16).map(|i| i as f64).collect()
}

fn texture(id: i64, with_relative_filename: bool) -> Vec<FbxEvent> {
    let mut children = vec![
        leaf("Type", vec![text("TextureVideoClip")]),
        leaf("Version", vec![Property::I32(202)]),
        leaf("TextureName", vec![text("Tex\u{0}\u{1}Texture")]),
        node("Properties70", vec![], vec![p("WrapModeU", "enum", vec![Property::I32(1)])]),
        leaf("Media", vec![text("Clip\u{0}\u{1}Video")]),
        leaf("FileName", vec![text("a.png")]),
    ];
    if with_relative_filename {
        children.push(leaf("RelativeFilename", vec![text("rel/a.png")]));
    }
    children.push(node("ModelUVTranslation", vec![], vec![leaf("deep", vec![])]));
    object("Texture", id, "Tex\u{0}\u{1}Texture", "", children)
}

fn mesh() -> Vec<FbxEvent> {
    object(
        "Geometry",
        400,
        "Quad\u{0}\u{1}Geometry",
        "Mesh",
        vec![
            leaf("Vertices", vec![doubles(&[0.0, 0.0, 0.0, 1.0, 0.0, 0.0, 1.0, 1.0, 0.0, 0.0, 1.0, 0.0, 9.0])]),
            leaf("PolygonVertexIndex", vec![Property::VecI32(vec![0, 1, 2, -4])]),
            leaf("GeometryVersion", vec![Property::I32(124)]),
            leaf("Edges", vec![Property::VecI32(vec![0, 1])]),
            node(
                "LayerElementNormal",
                vec![Property::I32(0)],
                vec![
                    leaf("Version", vec![Property::I32(101)]),
                    leaf("Name", vec![text("")]),
                    leaf("MappingInformationType", vec![text("ByPolygonVertex")]),
                    leaf("ReferenceInformationType", vec![text("Direct")]),
                    leaf("Normals", vec![doubles(&[0.0, 0.0, 1.0, 0.0, 0.0, 1.0, 0.0, 1.0])]),
                    leaf("NormalsW", vec![doubles(&[1.0])]),
                ],
            ),
            node(
                "LayerElementUV",
                vec![Property::I32(0)],
                vec![
                    leaf("Name", vec![text("map1")]),
                    leaf("MappingInformationType", vec![text("ByVertice")]),
                    leaf("ReferenceInformationType", vec![text("Index")]),
                    leaf("UV", vec![doubles(&[0.0, 0.0, 1.0, 0.0, 0.5])]),
                    leaf("UVIndex", vec![Property::VecI32(vec![0, 1, 1, -1])]),
                ],
            ),
            node(
                "LayerElementUV",
                vec![Property::I32(1)],
                vec![
                    leaf("Name", vec![text("broken")]),
                    leaf("MappingInformationType", vec![text("ByPolygonVertex")]),
                    leaf("ReferenceInformationType", vec![text("IndexToDirect")]),
                    leaf("UV", vec![doubles(&[0.0, 0.0])]),
                ],
            ),
            node("LayerElementUV", vec![text("no channel")], vec![leaf("Name", vec![text("x")])]),
            node(
                "LayerElementMaterial",
                vec![Property::I32(0)],
                vec![
                    leaf("Name", vec![text("")]),
                    leaf("MappingInformationType", vec![text("AllSame")]),
                    leaf("ReferenceInformationType", vec![text("IndexToDirect")]),
                    leaf("Materials", vec![Property::VecI32(vec![0])]),
                ],
            ),
            node(
                "Layer",
                vec![Property::I32(0)],
                vec![
                    leaf("Version", vec![Property::I32(100)]),
                    node("LayerElement", vec![], vec![
                        leaf("Type", vec![text("LayerElementNormal")]),
                        leaf("TypedIndex", vec![Property::I32(0)]),
                    ]),
                    node("LayerElement", vec![], vec![
                        leaf("Type", vec![text("LayerElementUV")]),
                        leaf("TypedIndex", vec![Property::I32(0)]),
                    ]),
                    node("LayerElement", vec![], vec![
                        leaf("Type", vec![text("LayerElementUV")]),
                        leaf("TypedIndex", vec![Property::I32(1)]),
                    ]),
                    node("LayerElement", vec![], vec![
                        leaf("Type", vec![text("LayerElementMaterial")]),
                        leaf("TypedIndex", vec![Property::I32(0)]),
                    ]),
                    node("LayerElement", vec![], vec![
                        leaf("Type", vec![text("LayerElementColor")]),
                        leaf("TypedIndex", vec![Property::I32(0)]),
                    ]),
                    node("LayerElement", vec![], vec![leaf("Type", vec![text("LayerElementUV")])]),
                ],
            ),
            node("Layer", vec![], vec![leaf("Version", vec![Property::I32(100)])]),
        ],
    )
}

fn objects() -> Vec<FbxEvent> {
    node(
        "Objects",
        vec![],
        vec![
            texture(100, true),
            texture(101, false),
            object("Deformer", 200, "D\u{0}\u{1}Deformer", "Exotic", vec![leaf("Version", vec![])]),
            object("Deformer", 201, "S\u{0}\u{1}Deformer", "Skin", vec![
                leaf("Version", vec![Property::I32(101)]),
                leaf("Link_DeformAcuracy", vec![Property::F64(double(50.0))]),
                leaf("SkinningType", vec![text("Linear")]),
            ]),
            object("Deformer", 202, "C\u{0}\u{1}SubDeformer", "Cluster", vec![
                leaf("UserData", vec![text("id"), text("data")]),
                leaf("UserData", vec![text("lonely")]),
                leaf("Indexes", vec![Property::VecI32(vec![0, 2])]),
                leaf("Weights", vec![doubles(&[0.5, 1.0])]),
                leaf("Transform", vec![doubles(&matrix())]),
                leaf("TransformLink", vec![doubles(&matrix())]),
            ]),
            object("Deformer", 203, "C\u{0}\u{1}SubDeformer", "Cluster", vec![
                leaf("UserData", vec![text("id"), text("data")]),
                leaf("Indexes", vec![Property::VecI32(vec![0, 2])]),
                leaf("Weights", vec![doubles(&[0.5])]),
                leaf("Transform", vec![doubles(&matrix())]),
                leaf("TransformLink", vec![doubles(&matrix())]),
            ]),
            object("Deformer", 204, "B\u{0}\u{1}SubDeformer", "BlendShapeChannel", vec![
                leaf("FullWeights", vec![doubles(&[100.0])]),
            ]),
            object("Deformer", 205, "Blend\u{0}\u{1}Deformer", "BlendShape", vec![]),
            object("Deformer", 206, "Blend\u{0}\u{1}Other", "BlendShape", vec![]),
            object("Model", 300, "Cube\u{0}\u{1}Model", "Mesh", vec![
                leaf("Version", vec![Property::I32(232)]),
                node("Properties70", vec![], vec![p("Show", "bool", vec![Property::I32(0)])]),
                leaf("Shading", vec![Property::Bool(true)]),
                leaf("Culling", vec![text("CullingOnCCW")]),
            ]),
            object("Model", 301, "Cam\u{0}\u{1}Model", "Camera", vec![
                leaf("Shading", vec![Property::Bool(false)]),
                leaf("Culling", vec![text("CullingOff")]),
            ]),
            object("Model", 302, "Half\u{0}\u{1}Model", "Null", vec![
                leaf("Shading", vec![Property::Bool(false)]),
            ]),
            object("Model", 303, "Limb\u{0}\u{1}Model", "LimbNode", vec![
                leaf("Shading", vec![Property::Bool(false)]),
                leaf("Culling", vec![text("CullingOnCW")]),
            ]),
            mesh(),
            object("Geometry", 401, "Morph\u{0}\u{1}Geometry", "Shape", vec![
                leaf("Version", vec![Property::I32(100)]),
                leaf("Indexes", vec![Property::VecI32(vec![3, 1])]),
                leaf("Vertices", vec![doubles(&[0.0, 0.0, 0.5, 0.0, 0.0, 0.25])]),
            ]),
            object("Geometry", 402, "Curve\u{0}\u{1}Geometry", "NurbsCurve", vec![]),
            object("NodeAttribute", 500, "\u{0}\u{1}NodeAttribute", "LimbNode", vec![
                leaf("TypeFlags", vec![text("Skeleton")]),
                node("Properties70", vec![], vec![p("Size", "double", vec![Property::F64(double(3.0))])]),
            ]),
            object("NodeAttribute", 501, "\u{0}\u{1}NodeAttribute", "Null", vec![
                leaf("TypeFlags", vec![text("Null")]),
            ]),
            object("NodeAttribute", 502, "\u{0}\u{1}NodeAttribute", "Light", vec![]),
            object("Pose", 600, "Bind\u{0}\u{1}Pose", "BindPose", vec![
                leaf("Type", vec![text("BindPose")]),
                node("PoseNode", vec![], vec![leaf("Node", vec![Property::I64(1)])]),
                leaf("NbPoseNodes", vec![Property::I32(3)]),
                leaf("NbPoseNodes", vec![Property::I32(5)]),
                node("PoseNode", vec![], vec![
                    leaf("Node", vec![Property::I64(300)]),
                    leaf("Matrix", vec![doubles(&matrix())]),
                ]),
                node("PoseNode", vec![], vec![leaf("Node", vec![Property::I64(301)])]),
            ]),
            object("Material", 700, "Red\u{0}\u{1}Material", "", vec![
                leaf("ShadingModel", vec![text("phong")]),
                leaf("MultiLayer", vec![Property::I32(0)]),
                node("Properties70", vec![], vec![
                    p("DiffuseColor", "Color", vec![
                        Property::F64(double(1.0)), Property::F64(double(0.5)), Property::F64(double(0.25))]),
                    p("Shininess", "double", vec![Property::F64(double(20.0))]),
                ]),
            ]),
            object("Material", 701, "Toon\u{0}\u{1}Material", "", vec![
                leaf("ShadingModel", vec![text("toon")]),
                leaf("MultiLayer", vec![Property::I16(1)]),
                node("Properties70", vec![], vec![p("Lines", "int", vec![Property::I32(3)])]),
            ]),
            object("Video", 800, "Clip\u{0}\u{1}Video", "Clip", vec![
                leaf("Type", vec![text("Clip")]),
                leaf("Content", vec![Property::Binary(vec![9, 9])]),
                leaf("UseMipMap", vec![Property::I32(0)]),
                leaf("Filename", vec![text("v.png")]),
                leaf("RelativeFilename", vec![text("rel/v.png")]),
                leaf("Content", vec![Property::Binary(vec![1, 2, 3])]),
            ]),
            object("Video", 801, "Empty\u{0}\u{1}Video", "Clip", vec![
                node("Properties70", vec![], vec![p("Path", "KString", vec![text("d:/own")])]),
                leaf("UseMipMap", vec![Property::I32(1)]),
                leaf("Filename", vec![text("w.png")]),
                leaf("RelativeFilename", vec![text("rel/w.png")]),
                leaf("Content", vec![Property::Binary(vec![4])]),
                leaf("Content", vec![text("not binary")]),
            ]),
            object("CollectionExclusive", 900, "Layer\u{0}\u{1}DisplayLayer", "DisplayLayer", vec![
                node("Properties70", vec![], vec![
                    p("Color", "ColorRGB", vec![
                        Property::F64(double(0.0)), Property::F64(double(1.0)), Property::F64(double(0.0))]),
                    p("Show", "bool", vec![Property::I32(1)]),
                    p("Freeze", "bool", vec![Property::I32(0)]),
                    p("LODBox", "bool", vec![Property::I32(0)]),
                ]),
            ]),
            object("CollectionExclusive", 901, "Set\u{0}\u{1}SelectionSet", "SelectionSet", vec![]),
            object("AnimationStack", 950, "Take\u{0}\u{1}AnimStack", "", vec![leaf("x", vec![])]),
            node("Texture", vec![Property::I64(960), text("no separator"), text("")], vec![
                leaf("FileName", vec![text("lost.png")]),
            ]),
        ],
    )
}

fn whole_scene() -> Vec<FbxEvent> {
    let mut events = Vec::new();
    events.extend(node("FBXHeaderExtension", vec![], vec![leaf("FBXVersion", vec![Property::I32(7400)])]));
    events.extend(leaf("GlobalSettings", vec![]));
    events.extend(definitions());
    events.extend(objects());
    events.extend(node("Connections", vec![], vec![
        leaf("C", vec![text("OO"), Property::I64(400), Property::I64(300)]),
        leaf("C", vec![text("OP"), Property::I64(100), Property::I64(700), text("DiffuseColor")]),
    ]));
    events.push(FbxEvent::EndFbx);
    events
}

struct Recorder {
    calls: Vec<(Vec<u8>, String)>,
}

impl FormatConvert for Recorder {
    type ImageResult = usize;

    fn binary_to_image(&mut self, binary: &[u8], path: &str) -> usize {
        self.calls.push((binary.to_vec(), path.to_owned()));
        self.calls.len()
    }
}

fn load(events: &Vec<FbxEvent>) -> Result<FbxScene<usize>, Error> {
    let mut reader = EventReader::new(events);
    load_scene(&mut reader, 7400, Recorder { calls: vec![] })
}

#[test]
fn scene_holds_connections_in_order() {
    let scene = load(&whole_scene()).unwrap();
    assert_eq!(scene.connections.len(), 2);
    assert_eq!(scene.connections[0].child, 400);
    assert_eq!(scene.connections[0].parent, 300);
    assert!(scene.connections[1].has_attribute("DiffuseColor"));
    assert!(scene.connections[1].parent_is_property);
    assert!(!scene.connections[1].child_is_property);
}

#[test]
fn texture_takes_defaults_from_its_template() {
    let scene = load(&whole_scene()).unwrap();
    let texture = scene.objects.textures.get(&100).unwrap();
    assert_eq!(texture.id, 100);
    assert_eq!(texture.name, "Tex");
    assert_eq!(texture.media, Some("Clip".to_owned()));
    assert_eq!(texture.filename, "a.png");
    assert_eq!(texture.relative_filename, "rel/a.png");
    assert_eq!(texture.current_texture_blend_mode, BlendMode::Additive);
    assert!(texture.premultiply_alpha);
    assert_eq!(texture.uv_set, "default");
    assert_eq!(texture.wrap_mode_u, WrapMode::Clamp);
    assert_eq!(texture.wrap_mode_v, WrapMode::Repeat);
}

#[test]
fn texture_without_relative_filename_is_dropped() {
    let scene = load(&whole_scene()).unwrap();
    let o = &scene.objects;
    assert!(o.textures.get(&101).is_none());
    assert!(o.unknown.get(&101).is_none());
    assert_eq!(o.textures.len(), 1);
    let everywhere = o.unknown.contains_key(&101) || o.blend_shapes.contains_key(&101)
        || o.blend_shape_channels.contains_key(&101) || o.clusters.contains_key(&101)
        || o.display_layers.contains_key(&101) || o.geometry_meshes.contains_key(&101)
        || o.geometry_shapes.contains_key(&101) || o.materials.contains_key(&101)
        || o.model_limb_nodes.contains_key(&101) || o.model_meshes.contains_key(&101)
        || o.model_nulls.contains_key(&101) || o.node_attribute_limb_nodes.contains_key(&101)
        || o.node_attribute_nulls.contains_key(&101) || o.poses.contains_key(&101)
        || o.skins.contains_key(&101) || o.videos.contains_key(&101);
    assert!(!everywhere);
    // The objects after it are loaded all the same.
    assert!(o.skins.get(&201).is_some());
    assert!(o.display_layers.get(&900).is_some());
}

#[test]
fn deformer_of_unknown_subclass_is_an_unknown_object() {
    let scene = load(&whole_scene()).unwrap();
    let unknown = scene.objects.unknown.get(&200).unwrap();
    assert_eq!(unknown.id, 200);
    assert_eq!(unknown.name, "D");
    assert_eq!(unknown.class, "Deformer");
    assert_eq!(unknown.subclass, "Exotic");
    let unknown = scene.objects.unknown.get(&206).unwrap();
    assert_eq!(unknown.class, "Other");
    assert_eq!(unknown.subclass, "BlendShape");
    assert!(scene.objects.blend_shapes.get(&206).is_none());
}

#[test]
fn unknown_objects_keep_their_identity() {
    let scene = load(&whole_scene()).unwrap();
    let o = &scene.objects;
    let mut ids: Vec<i64> = o.unknown.keys().copied().collect();
    ids.sort();
    assert_eq!(ids, vec![200, 206, 301, 402, 502, 901, 950]);
    let take = o.unknown.get(&950).unwrap();
    assert_eq!((take.name.as_str(), take.class.as_str(), take.subclass.as_str()), ("Take", "AnimStack", ""));
    let camera = o.unknown.get(&301).unwrap();
    assert_eq!((camera.name.as_str(), camera.class.as_str(), camera.subclass.as_str()), ("Cam", "Model", "Camera"));
    assert!(o.unknown.get(&960).is_none());
    assert!(o.textures.get(&960).is_none());
}

#[test]
fn deformers_go_to_the_map_of_their_kind() {
    let scene = load(&whole_scene()).unwrap();
    let o = &scene.objects;
    let skin = o.skins.get(&201).unwrap();
    assert_eq!(skin.link_deform_accuracy, 50.0_f64.to_bits());
    assert_eq!(skin.skinning_type, SkinningType::Linear);
    let cluster = o.clusters.get(&202).unwrap();
    assert_eq!(cluster.user_id, "id");
    assert_eq!(cluster.user_data, "data");
    assert_eq!(cluster.indices, vec![0, 2]);
    assert_eq!(cluster.weights, bits(&[0.5, 1.0]));
    assert_eq!(cluster.transform[0], [0.0_f32.to_bits(), 1.0_f32.to_bits(), 2.0_f32.to_bits(), 3.0_f32.to_bits()]);
    assert_eq!(cluster.transform_link[3][3], 15.0_f32.to_bits());
    // Indices and weights that differ in number drop the cluster.
    assert!(o.clusters.get(&203).is_none());
    let channel = o.blend_shape_channels.get(&204).unwrap();
    assert_eq!(channel.deform_percent, 0.0_f64.to_bits());
    assert_eq!(channel.full_weights, bits(&[100.0]));
    assert_eq!(o.blend_shapes.get(&205).unwrap().name, "Blend");
}

#[test]
fn models_go_to_the_map_of_their_subclass() {
    let scene = load(&whole_scene()).unwrap();
    let o = &scene.objects;
    let cube = o.model_meshes.get(&300).unwrap();
    assert_eq!(cube.name, "Cube");
    assert!(cube.shading);
    assert_eq!(cube.culling, CullingType::Ccw);
    assert_eq!(cube.axis_len, 10.0_f64.to_bits());
    assert!(!cube.show);
    assert_eq!(cube.inherit_type, InheritType::RSrs);
    assert!(o.model_nulls.get(&302).is_none());
    assert!(o.unknown.get(&302).is_none());
    let limb = o.model_limb_nodes.get(&303).unwrap();
    assert_eq!(limb.culling, CullingType::Cw);
    assert!(limb.show);
    assert!(o.model_meshes.get(&301).is_none());
}

#[test]
fn mesh_holds_vertices_polygons_and_layers() {
    let scene = load(&whole_scene()).unwrap();
    let mesh = scene.objects.geometry_meshes.get(&400).unwrap();
    assert_eq!(mesh.name, "Quad");
    assert_eq!(mesh.vertices, vec![
        [0.0_f32.to_bits(), 0.0_f32.to_bits(), 0.0_f32.to_bits()],
        [1.0_f32.to_bits(), 0.0_f32.to_bits(), 0.0_f32.to_bits()],
        [1.0_f32.to_bits(), 1.0_f32.to_bits(), 0.0_f32.to_bits()],
        [0.0_f32.to_bits(), 1.0_f32.to_bits(), 0.0_f32.to_bits()],
    ]);
    assert!(matches!(&mesh.polygon_vertex_index, VertexIndex::NotTriangulated(v) if *v == vec![0, 1, 2, -4]));
    assert_eq!(mesh.layer_element_normals.len(), 1);
    let normals = &mesh.layer_element_normals[0];
    assert_eq!(normals.channel, 0);
    assert!(!normals.reference_mode.has_indices());
    assert_eq!(normals.data.as_ref().unwrap().len(), 2);
    assert_eq!(mesh.layer_element_uvs.len(), 1);
    let uvs = &mesh.layer_element_uvs[0];
    assert_eq!(uvs.name, "map1");
    assert!(uvs.reference_mode.has_indices());
    assert_eq!(uvs.data, Some(vec![
        [0.0_f32.to_bits(), 0.0_f32.to_bits()],
        [1.0_f32.to_bits(), 0.0_f32.to_bits()],
    ]));
    assert_eq!(mesh.layer_element_materials.len(), 1);
    assert!(mesh.layer_element_materials[0].data.is_none());
    assert_eq!(mesh.layers.len(), 1);
    assert_eq!(mesh.layers[0].normal, vec![0]);
    assert_eq!(mesh.layers[0].uv, vec![0, 1]);
    assert_eq!(mesh.layers[0].material, vec![0]);
    let shape = scene.objects.geometry_shapes.get(&401).unwrap();
    assert_eq!(shape.indices, vec![3, 1]);
    assert_eq!(shape.vertices.len(), 2);
    assert!(shape.normals.is_none());
}

#[test]
fn node_attributes_take_defaults_from_their_templates() {
    let scene = load(&whole_scene()).unwrap();
    let o = &scene.objects;
    let limb = o.node_attribute_limb_nodes.get(&500).unwrap();
    assert_eq!(limb.type_flags, NodeAttributeType::Skeleton);
    assert_eq!(limb.size, 3.0_f64.to_bits());
    let null = o.node_attribute_nulls.get(&501).unwrap();
    assert_eq!(null.color, [0.5_f32.to_bits(), 0.25_f32.to_bits(), 1.0_f32.to_bits()]);
    assert_eq!(null.size, 100.0_f64.to_bits());
    assert_eq!(null.look, NullNodeLook::Cross);
}

#[test]
fn pose_keeps_its_complete_nodes() {
    let scene = load(&whole_scene()).unwrap();
    let pose = scene.objects.poses.get(&600).unwrap();
    assert_eq!(pose.name, "Bind");
    assert_eq!(pose.pose_nodes.len(), 1);
    assert_eq!(pose.pose_nodes[0].node, 300);
    assert_eq!(pose.pose_nodes[0].matrix[1][2], 6.0_f32.to_bits());
}

#[test]
fn material_reads_the_parameters_of_its_shading_model() {
    let scene = load(&whole_scene()).unwrap();
    let red = scene.objects.materials.get(&700).unwrap();
    assert_eq!(red.shading_model, "phong");
    assert!(!red.multi_layer);
    match &red.shading_parameters {
        ShadingParameters::Phong(phong) => {
            assert_eq!(phong.lambert.diffuse, [1.0_f32.to_bits(), 0.5_f32.to_bits(), 0.25_f32.to_bits()]);
            assert_eq!(phong.lambert.emissive, [0, 0, 0]);
            assert_eq!(phong.lambert.diffuse_factor, 0);
            assert_eq!(phong.shininess, 20.0_f32.to_bits());
            assert_eq!(phong.specular, [0, 0, 0]);
        },
        other => panic!("not phong: {:?}", other),
    }
    let toon = scene.objects.materials.get(&701).unwrap();
    assert!(toon.multi_layer);
    match &toon.shading_parameters {
        ShadingParameters::Unknown(Some(properties)) => {
            assert_eq!(properties.get("Lines").unwrap().value.get_i64(), Some(3));
        },
        other => panic!("not unknown: {:?}", other),
    }
}

#[test]
fn video_content_goes_through_the_converter() {
    let events = whole_scene();
    let scene = load(&events).unwrap();
    let clip = scene.objects.videos.get(&800).unwrap();
    assert_eq!(clip.name, "Clip");
    assert_eq!(clip.path, "c:/default");
    assert!(!clip.use_mip_map);
    assert_eq!(clip.filename, "v.png");
    assert_eq!(clip.relative_filename, "rel/v.png");
    // The first content came before the file name and was not converted.
    assert_eq!(clip.content, Some(1));
    let empty = scene.objects.videos.get(&801).unwrap();
    assert_eq!(empty.path, "d:/own");
    assert!(empty.use_mip_map);
    assert_eq!(empty.content, None);
}

#[test]
fn display_layer_reads_its_properties() {
    let scene = load(&whole_scene()).unwrap();
    let layer = scene.objects.display_layers.get(&900).unwrap();
    assert_eq!(layer.color, [0.0_f32.to_bits(), 1.0_f32.to_bits(), 0.0_f32.to_bits()]);
    assert!(layer.show);
    assert!(!layer.freeze);
    assert!(!layer.lod_box);
}

#[test]
fn scene_without_header_extension_is_an_error() {
    let mut events = Vec::new();
    events.extend(definitions());
    events.extend(node("Connections", vec![], vec![]));
    events.push(FbxEvent::EndFbx);
    match load(&events) {
        Err(Error::UnclassifiedCritical(message)) => {
            assert_eq!(message, "Required node `FbxHeaderExtension` not found");
        },
        other => panic!("no error: {:?}", other.is_ok()),
    }
}

#[test]
fn scene_without_connections_is_an_error() {
    let mut events = Vec::new();
    events.extend(leaf("FBXHeaderExtension", vec![]));
    events.extend(definitions());
    events.extend(objects());
    events.push(FbxEvent::EndFbx);
    match load(&events) {
        Err(Error::UnclassifiedCritical(message)) => {
            assert_eq!(message, "Required node `Connections` not found");
        },
        other => panic!("no error: {:?}", other.is_ok()),
    }
}

#[test]
fn objects_before_definitions_are_an_error() {
    let mut events = Vec::new();
    events.extend(leaf("FBXHeaderExtension", vec![]));
    events.extend(objects());
    events.extend(definitions());
    events.extend(node("Connections", vec![], vec![]));
    events.push(FbxEvent::EndFbx);
    match load(&events) {
        Err(Error::UnclassifiedCritical(message)) => {
            assert_eq!(message, "`Definitions` is required before `Objects` node");
        },
        other => panic!("no error: {:?}", other.is_ok()),
    }
}

#[test]
fn scene_that_stops_early_is_an_error() {
    let mut events = whole_scene();
    events.pop();
    assert!(matches!(load(&events), Err(Error::ParseError(_))));
    let mut events = Vec::new();
    events.extend(leaf("FBXHeaderExtension", vec![]));
    events.push(FbxEvent::StartNode { name: "Connections".to_owned(), properties: vec![] });
    events.push(FbxEvent::StartNode { name: "C".to_owned(), properties: vec![] });
    events.push(FbxEvent::EndFbx);
    assert!(matches!(load(&events), Err(Error::ParseError(_))));
}

#[test]
fn smallest_scene_has_no_objects() {
    let mut events = Vec::new();
    events.extend(leaf("FBXHeaderExtension", vec![]));
    events.extend(node("Connections", vec![], vec![]));
    events.push(FbxEvent::EndFbx);
    let scene = load(&events).unwrap();
    assert!(scene.connections.is_empty());
    assert!(scene.objects.unknown.is_empty());
    assert!(scene.objects.geometry_meshes.is_empty());
    assert!(scene.objects.videos.is_empty());
}

#[test]
fn errors_have_a_text() {
    assert_eq!(Error::IoError("gone".to_owned()).to_text(), "I/O error: gone");
    assert_eq!(Error::ParseError("bad".to_owned()).to_text(), "Parse error: bad");
    assert_eq!(
        Error::UnclassifiedCritical("stop".to_owned()).to_text(),
        "Unclassified critical error: stop");
    assert_eq!(Error::UnsupportedVersion("9".to_owned()).to_text(), "Unsupported version: 9");
    assert_eq!(Error::truncated().to_text(), "Parse error: unexpected end of the event stream");
}

#[test]
fn scene_can_be_copied() {
    let scene = load(&whole_scene()).unwrap();
    let copy = scene.clone();
    assert_eq!(copy.connections.len(), scene.connections.len());
    assert_eq!(copy.objects.textures.get(&100).unwrap().filename, "a.png");
    assert_eq!(copy.objects.videos.get(&800).unwrap().content, Some(1));
    let red = copy.objects.materials.get(&701).unwrap();
    match &red.shading_parameters {
        ShadingParameters::Unknown(Some(properties)) => {
            assert_eq!(properties.get("Lines").unwrap().value.get_i64(), Some(3));
        },
        other => panic!("not unknown: {:?}", other),
    }
}

#[test]
fn converter_is_handed_bytes_and_file_name() {
    let events = whole_scene();
    let mut reader = EventReader::new(&events);
    let mut recorder = Recorder { calls: vec![] };
    let scene = load_scene(&mut reader, 7400, &mut recorder).unwrap();
    assert_eq!(scene.objects.videos.len(), 2);
    assert_eq!(recorder.calls, vec![
        (vec![1, 2, 3], "v.png".to_owned()),
        (vec![4], "w.png".to_owned()),
    ]);
}

#[test]
fn scene_triangulates_its_meshes() {
    let mut scene = load(&whole_scene()).unwrap();
    let fan = |_: &Vec<[u32; 3]>, corners: &Vec<u32>| -> Vec<u32> {
        let mut cut = Vec::new();
        for i in 2..corners.len() as u32 {
            cut.extend(vec![0, i - 1, i]);
        }
        cut
    };
    assert!(scene.triangulate(&fan).is_ok());
    let mesh = scene.objects.geometry_meshes.get(&400).unwrap();
    assert_eq!(mesh.triangulated_index_list(), &vec![0, 1, 2, 0, 2, 3]);
    // Two normals do not reach four corners: they stay.
    assert_eq!(mesh.layer_element_normals[0].data.as_ref().unwrap().len(), 2);
    assert_eq!(scene.connections.len(), 2);
    assert_eq!(scene.objects.textures.len(), 1);
}

#[test]
fn templates_are_listed_by_object_type_and_name() {
    assert!(PropertyTemplates::default().keys().is_empty());
    let mut events = definitions();
    events.remove(0);
    let mut reader = EventReader::new(&events);
    let loaded = DefinitionsLoader::new().load(&mut reader).unwrap();
    assert_eq!(loaded.templates.keys(), vec![
        ("Texture", "FbxFileTexture"),
        ("Model", "FbxNode"),
        ("Video", "FbxVideo"),
        ("NodeAttribute", "FbxNull"),
    ]);
    let defaults = loaded.templates.defaults("Model", "FbxNode").unwrap();
    assert_eq!(defaults.names(), vec!["AxisLen", "Show", "InheritType"]);
    assert!(loaded.templates.defaults("Model", "FbxNull").is_none());
}

#[test]
fn shading_parameters_start_from_zero_and_compare_by_bits() {
    let zero = LambertParameters::default();
    assert_eq!(zero.emissive, [0, 0, 0]);
    assert_eq!(zero.vector_displacement_factor, 0);
    assert!(zero == LambertParameters::default());
    let mut other = LambertParameters::default();
    other.bump = [0, 0, 1.0_f32.to_bits()];
    assert!(zero != other);
    let mut factor = LambertParameters::default();
    factor.diffuse_factor = 1;
    assert!(zero != factor);
    let phong = PhongParameters::default();
    assert!(phong == PhongParameters::default());
    assert!(phong.lambert == zero);
    let mut shiny = PhongParameters::default();
    shiny.shininess = 20.0_f32.to_bits();
    assert!(phong != shiny);
    let mut red = PhongParameters::default();
    red.lambert = other;
    assert!(phong != red);
    let scene = load(&whole_scene()).unwrap();
    match &scene.objects.materials.get(&700).unwrap().shading_parameters {
        ShadingParameters::Phong(loaded) => {
            assert!(*loaded != phong);
            let mut expected = PhongParameters::default();
            expected.lambert.diffuse = [1.0_f32.to_bits(), 0.5_f32.to_bits(), 0.25_f32.to_bits()];
            expected.shininess = 20.0_f32.to_bits();
            assert!(*loaded == expected);
        },
        other => panic!("not phong: {:?}", other),
    }
}

#[test]
fn no_objects_by_default() {
    let objects: fbx_scene::objects::Objects<u8> = Default::default();
    assert!(objects.unknown.is_empty());
    assert!(objects.clusters.is_empty());
    assert!(objects.videos.is_empty());
    assert!(objects.mesh(0).is_none());
}
