use fbx_scene::objects::geometry::mesh::layer_element::ReferenceModeType;
use fbx_scene::objects::model::InheritType;
use fbx_scene::objects::{
    BlendMode, CullingType, MappingMode, NodeAttributeType, NullNodeLook, ReferenceMode,
    SkinningType, WrapMode,
};

#[test]
fn blend_modes_are_numbered_from_zero() {
    assert_eq!(BlendMode::from_i64(0), Some(BlendMode::Translucent));
    assert_eq!(BlendMode::from_i64(1), Some(BlendMode::Additive));
    assert_eq!(BlendMode::from_i64(2), Some(BlendMode::Modulate));
    assert_eq!(BlendMode::from_i64(3), Some(BlendMode::Modulate2));
    assert_eq!(BlendMode::from_i64(4), Some(BlendMode::Over));
    assert_eq!(BlendMode::from_i64(5), None);
    assert_eq!(BlendMode::from_i64(-1), None);
    assert_eq!(BlendMode::default(), BlendMode::Translucent);
}

#[test]
fn wrap_modes_are_numbered_from_zero() {
    assert_eq!(WrapMode::from_i64(0), Some(WrapMode::Repeat));
    assert_eq!(WrapMode::from_i64(1), Some(WrapMode::Clamp));
    assert_eq!(WrapMode::from_i64(2), None);
    assert_eq!(WrapMode::default(), WrapMode::Repeat);
}

#[test]
fn inherit_types_and_looks_are_numbered_from_zero() {
    assert_eq!(InheritType::from_i64(0), Some(InheritType::RrSs));
    assert_eq!(InheritType::from_i64(1), Some(InheritType::RSrs));
    assert_eq!(InheritType::from_i64(2), Some(InheritType::Rrs));
    assert_eq!(InheritType::from_i64(3), None);
    assert_eq!(NullNodeLook::from_i64(0), Some(NullNodeLook::NoLook));
    assert_eq!(NullNodeLook::from_i64(1), Some(NullNodeLook::Cross));
    assert_eq!(NullNodeLook::from_i64(i64::MIN), None);
}

#[test]
fn culling_and_skinning_are_named() {
    assert_eq!(CullingType::from_str("CullingOff"), Some(CullingType::Off));
    assert_eq!(CullingType::from_str("CullingOnCCW"), Some(CullingType::Ccw));
    assert_eq!(CullingType::from_str("CullingOnCW"), Some(CullingType::Cw));
    assert_eq!(CullingType::from_str("cullingoff"), None);
    assert_eq!(SkinningType::from_str("Rigid"), Some(SkinningType::Rigid));
    assert_eq!(SkinningType::from_str("Linear"), Some(SkinningType::Linear));
    assert_eq!(SkinningType::from_str("DualQuaternion"), Some(SkinningType::DualQuaternion));
    assert_eq!(SkinningType::from_str("Blend"), Some(SkinningType::Blend));
    assert_eq!(SkinningType::from_str(""), None);
}

#[test]
fn mapping_modes_are_named() {
    assert_eq!(MappingMode::from_string("ByControlPoint"), Some(MappingMode::ByControlPoint));
    assert_eq!(MappingMode::from_string("ByVertex"), Some(MappingMode::ByControlPoint));
    assert_eq!(MappingMode::from_string("ByVertice"), Some(MappingMode::ByControlPoint));
    assert_eq!(MappingMode::from_string("ByPolygonVertex"), Some(MappingMode::ByPolygonVertex));
    assert_eq!(MappingMode::from_string("ByPolygon"), Some(MappingMode::ByPolygon));
    assert_eq!(MappingMode::from_string("ByEdge"), Some(MappingMode::ByEdge));
    assert_eq!(MappingMode::from_string("AllSame"), Some(MappingMode::AllSame));
    assert_eq!(MappingMode::from_string("None"), None);
}

#[test]
fn indexed_reference_needs_its_indices() {
    assert!(matches!(
        ReferenceMode::from_type_and_indices(ReferenceModeType::Direct, None),
        Some(ReferenceMode::Direct)));
    assert!(matches!(
        ReferenceMode::from_type_and_indices(ReferenceModeType::Direct, Some(vec![1])),
        Some(ReferenceMode::Direct)));
    assert!(matches!(
        ReferenceMode::from_type_and_indices(ReferenceModeType::IndexToDirect, Some(vec![1])),
        Some(ReferenceMode::IndexToDirect(v)) if v == vec![1]));
    assert!(ReferenceMode::from_type_and_indices(ReferenceModeType::IndexToDirect, None).is_none());
    assert!(ReferenceMode::IndexToDirect(vec![]).has_indices());
    assert!(!ReferenceMode::Direct.has_indices());
}

#[test]
fn attribute_types_are_named() {
    for (name, kind) in vec![
        ("Unknown", NodeAttributeType::Unknown),
        ("Null", NodeAttributeType::Null),
        ("Marker", NodeAttributeType::Marker),
        ("Skeleton", NodeAttributeType::Skeleton),
        ("Mesh", NodeAttributeType::Mesh),
        ("Nurbs", NodeAttributeType::Nurbs),
        ("Patch", NodeAttributeType::Patch),
        ("Camera", NodeAttributeType::Camera),
        ("CameraStereo", NodeAttributeType::CameraStereo),
        ("CameraSwitcher", NodeAttributeType::CameraSwitcher),
        ("Light", NodeAttributeType::Light),
        ("OpticalReference", NodeAttributeType::OpticalReference),
        ("OpticalMarker", NodeAttributeType::OpticalMarker),
        ("NurbsCurve", NodeAttributeType::NurbsCurve),
        ("TrimNurbsSurface", NodeAttributeType::TrimNurbsSurface),
        ("Boundary", NodeAttributeType::Boundary),
        ("NurbsSurface", NodeAttributeType::NurbsSurface),
        ("Shape", NodeAttributeType::Shape),
        ("LODGroup", NodeAttributeType::LODGroup),
        ("SubDiv", NodeAttributeType::SubDiv),
        ("CachedEffect", NodeAttributeType::CachedEffect),
        ("Line", NodeAttributeType::Line),
        ("Something", NodeAttributeType::Unknown),
    ] {
        assert_eq!(NodeAttributeType::from_string(name), kind);
    }
    assert_eq!(NodeAttributeType::default(), NodeAttributeType::Unknown);
}
