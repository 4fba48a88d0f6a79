use fbx_scene::event::{EventReader, FbxEvent, Number, PropertiesIter, Property};
use fbx_scene::node_loader::{NodeLoad, NodeLoaderCommon};
use fbx_scene::property::{
    GenericProperties, GenericPropertiesLoader, OptionalProperties, PropertyFlags, PropertyNode,
    PropertyNodeLoader, PropertyNodeValue,
};

fn text(s: &str) -> Property {
    Property::String(Ok(s.to_owned()))
}

fn double(v: f64) -> Number {
    Number { single: (v as f32).to_bits(), double: v.to_bits() }
}

fn single(v: f32) -> Number {
    Number { single: v.to_bits(), double: (v as f64).to_bits() }
}

fn record_of(cells: &Vec<Property>) -> Option<PropertyNode> {
    let loader = PropertyNodeLoader::new(PropertiesIter::new(cells))?;
    loader.on_finish().unwrap()
}

fn node(name: &str, properties: Vec<Property>) -> FbxEvent {
    FbxEvent::StartNode { name: name.to_owned(), properties }
}

fn integer(v: i64) -> PropertyNode {
    PropertyNode {
        data_type: "int".to_owned(),
        label: "Integer".to_owned(),
        flags: PropertyFlags::none(),
        value: PropertyNodeValue::I64(v),
    }
}

#[test]
fn record_without_value_cells_is_empty() {
    let cells = vec![text("Compound"), text(""), text("A")];
    let record = record_of(&cells).unwrap();
    assert_eq!(record.data_type, "Compound");
    assert_eq!(record.label, "");
    assert_eq!(record.flags, PropertyFlags::none().set_animatable(true));
    assert!(matches!(record.value, PropertyNodeValue::Empty));
}

#[test]
fn record_needs_type_label_and_flags() {
    assert!(PropertyNodeLoader::new(PropertiesIter::new(&vec![])).is_none());
    assert!(PropertyNodeLoader::new(PropertiesIter::new(&vec![text("int")])).is_none());
    assert!(PropertyNodeLoader::new(PropertiesIter::new(&vec![text("int"), text("Integer")])).is_none());
    assert!(PropertyNodeLoader::new(PropertiesIter::new(&vec![
        text("int"), Property::I32(1), text("")])).is_none());
    assert!(PropertyNodeLoader::new(PropertiesIter::new(&vec![
        Property::I32(1), text("Integer"), text("")])).is_none());
    assert!(PropertyNodeLoader::new(PropertiesIter::new(&vec![
        text("int"), text("Integer"), Property::String(Err(vec![0xff]))])).is_none());
}

#[test]
fn one_integer_cell_is_a_scalar() {
    let cells = vec![text("int"), text("Integer"), text(""), Property::I32(-7)];
    assert_eq!(record_of(&cells).unwrap().value.get_i64(), Some(-7));
    let cells = vec![text("int"), text("Integer"), text(""), Property::I16(12), text("x")];
    assert_eq!(record_of(&cells).unwrap().value.get_i64(), Some(12));
}

#[test]
fn integer_cells_of_any_width_are_an_array() {
    let cells = vec![
        text("x"), text(""), text(""),
        Property::I16(1), Property::I64(1 << 40), Property::I32(-3), single(1.0_f32).into_cell(),
        Property::I32(9),
    ];
    let record = record_of(&cells).unwrap();
    assert_eq!(record.value.get_vec_i64(), Some(&vec![1, 1 << 40, -3]));
    assert_eq!(record.value.get_i64(), None);
}

trait IntoCell {
    fn into_cell(self) -> Property;
}

impl IntoCell for Number {
    fn into_cell(self) -> Property {
        Property::F32(self)
    }
}

#[test]
fn floating_point_cells_keep_both_widths() {
    let cells = vec![text("double"), text("Number"), text(""), Property::F64(double(0.1))];
    let record = record_of(&cells).unwrap();
    assert!(matches!(record.value, PropertyNodeValue::F64(_)));
    assert_eq!(record.value.get_f64(), Some(0.1_f64.to_bits()));
    assert_eq!(record.value.get_f32(), Some(0.1_f32.to_bits()));

    let cells = vec![text("float"), text("Number"), text(""), Property::F32(single(0.25))];
    let record = record_of(&cells).unwrap();
    assert!(matches!(record.value, PropertyNodeValue::F32(_)));
    assert_eq!(record.value.get_f32(), Some(0.25_f32.to_bits()));
    assert_eq!(record.value.get_f64(), Some(0.25_f64.to_bits()));
}

#[test]
fn floating_point_cells_are_an_array_of_the_width_of_the_first() {
    let cells = vec![
        text("Color"), text(""), text("A"),
        Property::F64(double(1.0)), Property::F64(double(0.5)), Property::F32(single(0.25)),
        Property::I32(1), Property::F64(double(9.0)),
    ];
    let record = record_of(&cells).unwrap();
    assert!(matches!(record.value, PropertyNodeValue::VecF64(_)));
    assert_eq!(
        record.value.get_vec_f32(),
        Some(vec![1.0_f32.to_bits(), 0.5_f32.to_bits(), 0.25_f32.to_bits()]));
    assert_eq!(
        record.value.get_vec_f64(),
        Some(vec![1.0_f64.to_bits(), 0.5_f64.to_bits(), 0.25_f64.to_bits()]));

    let cells = vec![
        text("Vector"), text(""), text(""),
        Property::F32(single(2.0)), Property::F64(double(3.0)),
    ];
    let record = record_of(&cells).unwrap();
    assert!(matches!(record.value, PropertyNodeValue::VecF32(_)));
    assert_eq!(record.value.get_vec_f32(), Some(vec![2.0_f32.to_bits(), 3.0_f32.to_bits()]));
}

#[test]
fn text_cell_is_text_or_raw_bytes() {
    let cells = vec![text("KString"), text(""), text(""), text("map1"), text("more")];
    let record = record_of(&cells).unwrap();
    assert_eq!(record.value.get_string(), Some(&"map1".to_owned()));
    let cells = vec![text("KString"), text(""), text(""), Property::String(Err(vec![0xff, 0x00]))];
    let record = record_of(&cells).unwrap();
    assert_eq!(record.value.get_string(), None);
    assert_eq!(record.value.get_string_or_raw(), Some(&Err(vec![0xff, 0x00])));
}

#[test]
fn unsupported_first_cell_gives_no_record() {
    for cell in vec![
        Property::Bool(true),
        Property::Binary(vec![1]),
        Property::VecI32(vec![1]),
        Property::VecF64(vec![double(1.0)]),
    ] {
        let cells = vec![text("x"), text(""), text(""), cell];
        assert!(PropertyNodeLoader::new(PropertiesIter::new(&cells)).is_none());
        assert!(record_of(&cells).is_none());
    }
}

#[test]
fn blob_needs_its_length() {
    let cells = vec![text("x"), text("Blob"), text(""), Property::I32(4)];
    let record = record_of(&cells).unwrap();
    assert_eq!(record.value.get_vec_u8(), Some(&vec![]));
    let cells = vec![text("x"), text("Blob"), text("")];
    assert!(PropertyNodeLoader::new(PropertiesIter::new(&cells)).is_none());
    let cells = vec![text("x"), text("Blob"), text(""), Property::I64(4)];
    assert!(PropertyNodeLoader::new(PropertiesIter::new(&cells)).is_none());
}

#[test]
fn blob_is_put_together_from_its_children() {
    let events = vec![
        node("P", vec![text("Thumb"), text("Blob"), text("Blob"), text(""), Property::I32(5)]),
        node("BinaryData", vec![Property::Binary(vec![1, 2, 3])]),
        FbxEvent::EndNode,
        node("Other", vec![Property::Binary(vec![9])]),
        FbxEvent::EndNode,
        node("BinaryData", vec![Property::I32(0)]),
        FbxEvent::EndNode,
        node("BinaryData", vec![Property::Binary(vec![4, 5])]),
        node("BinaryData", vec![Property::Binary(vec![8])]),
        FbxEvent::EndNode,
        FbxEvent::EndNode,
        FbxEvent::EndNode,
        node("P", vec![text("Count"), text("int"), text("Integer"), text(""), Property::I32(3)]),
        node("BinaryData", vec![Property::Binary(vec![7])]),
        FbxEvent::EndNode,
        FbxEvent::EndNode,
        FbxEvent::EndNode,
        node("after", vec![]),
    ];
    let mut reader = EventReader::new(&events);
    let properties = GenericPropertiesLoader::new(70).load(&mut reader).unwrap();
    assert_eq!(properties.get("Thumb").unwrap().value.get_vec_u8(), Some(&vec![1, 2, 3, 4, 5]));
    assert_eq!(properties.get("Count").unwrap().value.get_i64(), Some(3));
    assert!(matches!(reader.next(), Ok(FbxEvent::StartNode { .. })));
}

#[test]
fn later_record_of_a_name_replaces_the_earlier() {
    let events = vec![
        node("P", vec![text("Show"), text("bool"), text(""), text(""), Property::I32(1)]),
        FbxEvent::EndNode,
        node("Q", vec![text("Lost"), text("bool"), text(""), text(""), Property::I32(1)]),
        FbxEvent::EndNode,
        node("P", vec![Property::I32(1), text("bool"), text(""), text(""), Property::I32(1)]),
        FbxEvent::EndNode,
        node("P", vec![text("Broken"), text("bool")]),
        FbxEvent::EndNode,
        node("P", vec![text("Dropped"), text("bool"), text(""), text(""), Property::Bool(true)]),
        FbxEvent::EndNode,
        node("P", vec![text("Show"), text("bool"), text(""), text("H"), Property::I32(0)]),
        FbxEvent::EndNode,
        FbxEvent::EndNode,
    ];
    let mut reader = EventReader::new(&events);
    let properties = GenericPropertiesLoader::new(70).load(&mut reader).unwrap();
    let show = properties.get("Show").unwrap();
    assert_eq!(show.value.get_i64(), Some(0));
    assert_eq!(show.flags, PropertyFlags::none().set_hidden(true));
    assert!(properties.get("Lost").is_none());
    assert!(properties.get("Broken").is_none());
    assert!(properties.get("Dropped").is_none());
    assert!(properties.get("show").is_none());
}

#[test]
fn properties_that_never_end_are_an_error() {
    let events = vec![
        node("P", vec![text("Show"), text("bool"), text(""), text(""), Property::I32(1)]),
        FbxEvent::EndNode,
    ];
    let mut reader = EventReader::new(&events);
    assert!(GenericPropertiesLoader::new(70).load(&mut reader).is_err());
}

#[test]
fn lookup_finds_the_default_without_own_properties() {
    let mut defaults = GenericProperties::new();
    defaults.insert("Size".to_owned(), integer(100));
    let own: Option<GenericProperties> = None;
    assert_eq!(own.get_or_default(Some(&defaults), "Size").unwrap().value.get_i64(), Some(100));
    assert!(own.get_or_default(Some(&defaults), "Look").is_none());
}

#[test]
fn lookup_prefers_the_own_record() {
    let mut defaults = GenericProperties::new();
    defaults.insert("Size".to_owned(), integer(100));
    defaults.insert("Look".to_owned(), integer(1));
    let mut instance = GenericProperties::new();
    instance.insert("Size".to_owned(), integer(7));
    let own = Some(instance);
    assert_eq!(own.get_or_default(Some(&defaults), "Size").unwrap().value.get_i64(), Some(7));
    assert_eq!(own.get_or_default(None, "Size").unwrap().value.get_i64(), Some(7));
    assert_eq!(own.get_or_default(Some(&defaults), "Look").unwrap().value.get_i64(), Some(1));
    assert!(own.get_or_default(Some(&defaults), "Color").is_none());
}

#[test]
fn lookup_in_nothing_finds_nothing() {
    let own: Option<GenericProperties> = None;
    assert!(own.get_or_default(None, "Size").is_none());
}

#[test]
fn values_are_handed_out_by_kind() {
    assert_eq!(PropertyNodeValue::Blob(vec![1]).into_vec_u8().ok(), Some(vec![1]));
    assert!(PropertyNodeValue::Empty.into_vec_u8().is_err());
    assert_eq!(PropertyNodeValue::String(Ok("a".to_owned())).into_string().ok(), Some("a".to_owned()));
    assert!(PropertyNodeValue::String(Err(vec![1])).into_string().is_err());
    assert_eq!(PropertyNodeValue::String(Err(vec![1])).into_string_or_raw().ok(), Some(Err(vec![1])));
    assert!(PropertyNodeValue::I64(1).into_string_or_raw().is_err());
    assert_eq!(PropertyNodeValue::F32(single(1.5)).into_f32().ok(), Some(1.5_f32.to_bits()));
    assert_eq!(PropertyNodeValue::F32(single(1.5)).into_f64().ok(), Some(1.5_f64.to_bits()));
    assert_eq!(PropertyNodeValue::F64(double(1.5)).into_f32().ok(), Some(1.5_f32.to_bits()));
    assert!(PropertyNodeValue::I64(1).into_f32().is_err());
    assert!(PropertyNodeValue::I64(1).into_f64().is_err());
    assert_eq!(PropertyNodeValue::I64(1).into_i64().ok(), Some(1));
    assert!(PropertyNodeValue::VecI64(vec![1]).into_i64().is_err());
    assert_eq!(PropertyNodeValue::VecI64(vec![1, 2]).into_vec_i64().ok(), Some(vec![1, 2]));
    assert!(PropertyNodeValue::I64(1).into_vec_i64().is_err());
    assert_eq!(
        PropertyNodeValue::VecF32(vec![single(1.0)]).into_vec_f64().ok(),
        Some(vec![1.0_f64.to_bits()]));
    assert_eq!(
        PropertyNodeValue::VecF64(vec![double(1.0)]).into_vec_f32().ok(),
        Some(vec![1.0_f32.to_bits()]));
    assert!(PropertyNodeValue::F32(single(1.0)).into_vec_f32().is_err());
    assert!(PropertyNodeValue::F64(double(1.0)).into_vec_f64().is_err());
    assert_eq!(PropertyNodeValue::F64(double(1.0)).get_vec_f32(), None);
    assert_eq!(PropertyNodeValue::F64(double(1.0)).get_vec_f64(), None);
    assert_eq!(PropertyNodeValue::Empty.get_f32(), None);
    assert_eq!(PropertyNodeValue::Empty.get_f64(), None);
}

#[test]
fn blob_goes_by_the_label() {
    let events = vec![
        node("P", vec![text("ByLabel"), text("KData"), text("Blob"), text(""), Property::I32(2)]),
        node("BinaryData", vec![Property::Binary(vec![1, 2])]),
        FbxEvent::EndNode,
        FbxEvent::EndNode,
        node("P", vec![text("ByType"), text("Blob"), text(""), text(""), Property::I32(2)]),
        node("BinaryData", vec![Property::Binary(vec![3, 4])]),
        FbxEvent::EndNode,
        FbxEvent::EndNode,
        FbxEvent::EndNode,
    ];
    let mut reader = EventReader::new(&events);
    let properties = GenericPropertiesLoader::new(70).load(&mut reader).unwrap();
    assert_eq!(properties.get("ByLabel").unwrap().value.get_vec_u8(), Some(&vec![1, 2]));
    assert_eq!(properties.get("ByType").unwrap().value.get_i64(), Some(2));
    assert_eq!(properties.get("ByType").unwrap().value.get_vec_u8(), None);
}

#[test]
fn names_are_listed_once_in_their_order() {
    let mut properties = GenericProperties::default();
    assert!(properties.names().is_empty());
    properties.insert("Size".to_owned(), integer(1));
    properties.insert("Look".to_owned(), integer(2));
    properties.insert("Size".to_owned(), integer(3));
    properties.insert("Color".to_owned(), integer(4));
    assert_eq!(properties.names(), vec!["Size", "Look", "Color"]);
    assert_eq!(properties.get("Size").unwrap().value.get_i64(), Some(3));
    assert_eq!(PropertyFlags::default(), PropertyFlags::none());
}
