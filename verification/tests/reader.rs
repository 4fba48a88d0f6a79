use fbx_scene::error::Error;
use fbx_scene::event::{EventReader, FbxEvent, Property};
use fbx_scene::node_loader::ignore_current_node;

fn start(name: &str) -> FbxEvent {
    FbxEvent::StartNode { name: name.to_owned(), properties: vec![] }
}

fn name_of(event: &FbxEvent) -> &str {
    match event {
        FbxEvent::StartNode { name, .. } => name.as_str(),
        FbxEvent::EndNode => "<end of node>",
        FbxEvent::EndFbx => "<end of data>",
    }
}

#[test]
fn reader_hands_out_events_in_order() {
    let events = vec![start("a"), FbxEvent::EndNode, FbxEvent::EndFbx];
    let mut reader = EventReader::new(&events);
    assert_eq!(name_of(reader.next().unwrap()), "a");
    assert!(matches!(reader.next(), Ok(FbxEvent::EndNode)));
    assert!(matches!(reader.next(), Ok(FbxEvent::EndFbx)));
    assert!(matches!(reader.next(), Err(Error::ParseError(_))));
    assert!(matches!(reader.next(), Err(Error::ParseError(_))));
}

#[test]
fn skipping_a_leaf_stops_at_the_sibling() {
    let events = vec![start("leaf"), FbxEvent::EndNode, start("sibling"), FbxEvent::EndNode];
    let mut reader = EventReader::new(&events);
    reader.next().unwrap();
    assert!(ignore_current_node(&mut reader).is_ok());
    assert_eq!(name_of(reader.next().unwrap()), "sibling");
}

#[test]
fn skipping_a_nested_node_stops_at_the_sibling() {
    let events = vec![
        start("outer"),
        start("a"),
        start("b"),
        FbxEvent::EndNode,
        start("c"),
        start("d"),
        FbxEvent::EndNode,
        FbxEvent::EndNode,
        FbxEvent::EndNode,
        start("e"),
        FbxEvent::EndNode,
        FbxEvent::EndNode,
        start("sibling"),
        FbxEvent::EndNode,
        FbxEvent::EndFbx,
    ];
    let mut reader = EventReader::new(&events);
    reader.next().unwrap();
    assert!(ignore_current_node(&mut reader).is_ok());
    assert_eq!(name_of(reader.next().unwrap()), "sibling");
}

#[test]
fn skipping_deep_nesting_stops_at_the_sibling() {
    let depth = 1000;
    let mut events = Vec::new();
    for _ in 0..depth {
        events.push(start("deep"));
    }
    for _ in 0..depth {
        events.push(FbxEvent::EndNode);
    }
    events.push(start("sibling"));
    events.push(FbxEvent::EndNode);
    let mut reader = EventReader::new(&events);
    reader.next().unwrap();
    assert!(ignore_current_node(&mut reader).is_ok());
    assert_eq!(name_of(reader.next().unwrap()), "sibling");
}

#[test]
fn skipping_a_node_that_never_ends_is_an_error() {
    let events = vec![start("outer"), start("inner"), FbxEvent::EndNode];
    let mut reader = EventReader::new(&events);
    reader.next().unwrap();
    assert!(matches!(ignore_current_node(&mut reader), Err(Error::ParseError(_))));
}

#[test]
fn skipping_into_the_end_of_the_data_is_an_error() {
    let events = vec![start("outer"), FbxEvent::EndFbx, FbxEvent::EndNode];
    let mut reader = EventReader::new(&events);
    reader.next().unwrap();
    assert!(matches!(ignore_current_node(&mut reader), Err(Error::ParseError(_))));
}

#[test]
fn cells_coerce_within_their_family() {
    assert_eq!(Property::I16(-3).as_i64(), Some(-3));
    assert_eq!(Property::I32(70000).as_i64(), Some(70000));
    assert_eq!(Property::I64(1 << 40).as_i64(), Some(1 << 40));
    assert_eq!(Property::Bool(true).as_i64(), None);
    assert_eq!(Property::I32(5).get_i64(), None);
    assert_eq!(Property::I64(5).get_i32(), None);
    assert_eq!(Property::I64(5).get_i64(), Some(5));
    assert_eq!(Property::Bool(true).get_bool(), Some(true));
    assert_eq!(Property::String(Ok("x".to_owned())).get_string(), Some("x"));
    assert_eq!(Property::String(Err(vec![0xff])).get_string(), None);
    assert_eq!(Property::Binary(vec![1, 2]).get_binary(), Some(&vec![1, 2]));
    assert_eq!(Property::VecI32(vec![1, -2]).get_vec_i32(), Some(&vec![1, -2]));
    assert_eq!(Property::VecI64(vec![1]).get_vec_i32(), None);
}
