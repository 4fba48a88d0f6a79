use fbx_scene::connections::{Connection, ConnectionsLoader};
use fbx_scene::event::{EventReader, FbxEvent, Property};
use fbx_scene::node_loader::NodeLoad;

fn text(s: &str) -> Property {
    Property::String(Ok(s.to_owned()))
}

fn node(name: &str, properties: Vec<Property>) -> FbxEvent {
    FbxEvent::StartNode { name: name.to_owned(), properties }
}

#[test]
fn connection_kinds_say_which_ends_are_properties() {
    for (kind, child_is_property, parent_is_property) in vec![
        ("OO", false, false),
        ("OP", false, true),
        ("PO", true, false),
        ("PP", true, true),
    ] {
        let cells = vec![text(kind), Property::I64(11), Property::I64(22)];
        let c = Connection::from_node_properties(&cells).unwrap();
        assert_eq!(c.child, 11);
        assert_eq!(c.parent, 22);
        assert_eq!(c.child_is_property, child_is_property);
        assert_eq!(c.parent_is_property, parent_is_property);
        assert_eq!(c.attribute, None);
    }
}

#[test]
fn connection_may_name_an_attribute() {
    let cells = vec![text("OP"), Property::I64(1), Property::I64(2), text("DiffuseColor")];
    let c = Connection::from_node_properties(&cells).unwrap();
    assert_eq!(c.attribute, Some("DiffuseColor".to_owned()));
    assert!(c.has_attribute("DiffuseColor"));
    assert!(!c.has_attribute("Diffuse"));
    let cells = vec![text("OP"), Property::I64(1), Property::I64(2), Property::I64(3)];
    let c = Connection::from_node_properties(&cells).unwrap();
    assert_eq!(c.attribute, None);
    assert!(!c.has_attribute(""));
}

#[test]
fn connection_needs_kind_child_and_parent() {
    assert!(Connection::from_node_properties(&vec![]).is_none());
    assert!(Connection::from_node_properties(&vec![text("OO"), Property::I64(1)]).is_none());
    assert!(Connection::from_node_properties(
        &vec![text("XX"), Property::I64(1), Property::I64(2)]).is_none());
    assert!(Connection::from_node_properties(
        &vec![text("oo"), Property::I64(1), Property::I64(2)]).is_none());
    assert!(Connection::from_node_properties(
        &vec![text("OO"), Property::I32(1), Property::I64(2)]).is_none());
    assert!(Connection::from_node_properties(
        &vec![text("OO"), Property::I64(1), text("2")]).is_none());
    assert!(Connection::from_node_properties(
        &vec![Property::I64(0), Property::I64(1), Property::I64(2)]).is_none());
}

#[test]
fn connections_are_kept_in_their_order() {
    let events = vec![
        node("C", vec![text("OO"), Property::I64(1), Property::I64(0)]),
        FbxEvent::EndNode,
        node("C", vec![text("bad")]),
        FbxEvent::EndNode,
        node("D", vec![text("OO"), Property::I64(5), Property::I64(6)]),
        FbxEvent::EndNode,
        node("C", vec![text("OP"), Property::I64(2), Property::I64(1), text("Color")]),
        node("child", vec![]),
        FbxEvent::EndNode,
        FbxEvent::EndNode,
        FbxEvent::EndNode,
        FbxEvent::EndFbx,
    ];
    let mut reader = EventReader::new(&events);
    let connections = ConnectionsLoader::new().load(&mut reader).unwrap();
    assert_eq!(connections.len(), 2);
    assert_eq!((connections[0].child, connections[0].parent), (1, 0));
    assert_eq!((connections[1].child, connections[1].parent), (2, 1));
    assert!(connections[1].has_attribute("Color"));
    assert!(matches!(reader.next(), Ok(FbxEvent::EndFbx)));
}
