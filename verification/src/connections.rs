//! Contains a type related to connections between objects.

use vstd::prelude::*;
use crate::error::{Error, Result};
use crate::event::{cell, EventReader, FbxEvent, Property};
use crate::node_loader::{
    cells_at, ignore_current_node, name_at, skipped, NodeLoader, NodeLoaderCommon, RawNodeInfo,
};
use crate::text::same_text;
use crate::utils::{views, views_of_push};

verus! {

/// A connection between two objects.
#[derive(Debug, Clone)]
pub struct Connection {
    pub parent: i64,
    pub child: i64,
    pub attribute: Option<String>,
    pub parent_is_property: bool,
    pub child_is_property: bool,
}

/// A connection, as a mathematical value.
pub ghost struct Link {
    pub parent: i64,
    pub child: i64,
    pub attribute: Option<Seq<char>>,
    pub parent_is_property: bool,
    pub child_is_property: bool,
}

impl View for Connection {
    type V = Link;

    open spec fn view(&self) -> Link {
        Link {
            parent: self.parent,
            child: self.child,
            attribute: match self.attribute {
                Some(a) => Some(a@),
                None => None,
            },
            parent_is_property: self.parent_is_property,
            child_is_property: self.child_is_property,
        }
    }
}

/// Which ends of a connection are properties, child first, as the kind of
/// the connection says: `OO`, `OP`, `PO` or `PP`.
pub open spec fn ends_of(kind: Seq<char>) -> Option<(bool, bool)> {
    if kind == "OO"@ {
        Some((false, false))
    } else if kind == "OP"@ {
        Some((false, true))
    } else if kind == "PO"@ {
        Some((true, false))
    } else if kind == "PP"@ {
        Some((true, true))
    } else {
        None
    }
}

/// The text of the cell at `index`, where there is one that is valid text.
pub open spec fn text_at(cells: Seq<Property>, index: int) -> Option<Seq<char>> {
    match cell(cells, index) {
        Some(p) => p.text(),
        None => None,
    }
}

/// The value of the cell at `index`, where there is one that is a 64 bit integer.
pub open spec fn long_at(cells: Seq<Property>, index: int) -> Option<i64> {
    match cell(cells, index) {
        Some(p) => p.long(),
        None => None,
    }
}

/// The connection that the cells of a `C` node give: its kind, the child,
/// the parent, and the name of an attribute that may be missing.
pub open spec fn link_of(cells: Seq<Property>) -> Option<Link> {
    if text_at(cells, 0) is Some && ends_of(text_at(cells, 0)->0) is Some && long_at(cells, 1) is Some
        && long_at(cells, 2) is Some {
        let (child_is_property, parent_is_property) = ends_of(text_at(cells, 0)->0)->0;
        Some(
            Link {
                parent: long_at(cells, 2)->0,
                child: long_at(cells, 1)->0,
                attribute: text_at(cells, 3),
                parent_is_property,
                child_is_property,
            },
        )
    } else {
        None
    }
}

fn string_at<'a>(cells: &'a Vec<Property>, index: usize) -> (r: Option<&'a str>)
    ensures
        r is Some == text_at(cells@, index as int) is Some,
        r matches Some(s) ==> text_at(cells@, index as int) == Some(s@),
{
    if index < cells.len() {
        cells[index].get_string()
    } else {
        None
    }
}

fn i64_at(cells: &Vec<Property>, index: usize) -> (r: Option<i64>)
    ensures
        r == long_at(cells@, index as int),
{
    if index < cells.len() {
        cells[index].get_i64()
    } else {
        None
    }
}

fn connection_ends(kind: &str) -> (r: Option<(bool, bool)>)
    ensures
        r == ends_of(kind@),
{
    if same_text(kind, "OO") {
        Some((false, false))
    } else if same_text(kind, "OP") {
        Some((false, true))
    } else if same_text(kind, "PO") {
        Some((true, false))
    } else if same_text(kind, "PP") {
        Some((true, true))
    } else {
        None
    }
}

impl Connection {
    /// Load `Connection` node data from node properties.
    pub fn from_node_properties(properties: &Vec<Property>) -> (r: Option<Self>)
        ensures
            crate::utils::view_of(r) == link_of(properties@),
    {
        let connection_type = match string_at(properties, 0) {
            Some(kind) => connection_ends(kind),
            None => None,
        };
        let child = i64_at(properties, 1);
        let parent = i64_at(properties, 2);
        let attr_name = string_at(properties, 3);
        match (connection_type, child, parent) {
            (Some((child_is_prop, parent_is_prop)), Some(child), Some(parent)) => Some(
                Connection {
                    parent: parent,
                    child: child,
                    attribute: match attr_name {
                        Some(v) => Some(v.to_owned()),
                        None => None,
                    },
                    parent_is_property: parent_is_prop,
                    child_is_property: child_is_prop,
                },
            ),
            _ => None,
        }
    }

    /// Whether the connection names this attribute.
    pub fn has_attribute(&self, name: &str) -> (r: bool)
        ensures
            r == (self@.attribute == Some(name@)),
    {
        match &self.attribute {
            Some(n) => same_text(n.as_str(), name),
            None => false,
        }
    }
}

#[derive(Debug)]
pub struct ConnectionsLoader {
    connections: Vec<Connection>,
}

impl ConnectionsLoader {
    pub fn new() -> (r: Self)
        ensures
            r.state() == Seq::<Link>::empty(),
    {
        ConnectionsLoader { connections: Vec::new() }
    }
}

/// What a child of the connections node adds: a `C` node whose cells give a
/// connection adds it at the end.
pub open spec fn connections_child(state: Seq<Link>, name: Seq<char>, cells: Seq<Property>) -> Seq<Link> {
    if name == "C"@ && link_of(cells) is Some {
        state.push(link_of(cells)->0)
    } else {
        state
    }
}

impl NodeLoaderCommon for ConnectionsLoader {
    type Target = Vec<Connection>;

    type State = Seq<Link>;

    type Outcome = Seq<Link>;

    closed spec fn state(&self) -> Seq<Link> {
        views(self.connections@)
    }

    open spec fn outcome(target: &Vec<Connection>) -> Seq<Link> {
        views(target@)
    }

    open spec fn finish(state: Seq<Link>) -> Option<Seq<Link>> {
        Some(state)
    }

    open spec fn always_loads() -> bool {
        true
    }

    open spec fn refuses_with(e: Error) -> bool {
        false
    }

    fn on_finish(self) -> (r: Result<Vec<Connection>>) {
        Ok(self.connections)
    }
}

impl NodeLoader for ConnectionsLoader {
    open spec fn child(state: Seq<Link>, events: Seq<FbxEvent>, pos: int) -> Option<(Seq<Link>, int)> {
        skipped(
            connections_child(state, name_at(events, pos), cells_at(events, pos)),
            events,
            pos,
        )
    }

    proof fn child_ends_with_its_node(state: Self::State, events: Seq<FbxEvent>, pos: int) {
    }

    fn on_child_node(&mut self, reader: &mut EventReader<'_>, node_info: RawNodeInfo<'_>) -> (r:
        Result<()>) {
        let RawNodeInfo { name, properties } = node_info;
        if same_text(name, "C") {
            match Connection::from_node_properties(properties) {
                Some(c) => {
                    proof {
                        views_of_push(self.connections@, c);
                    }
                    self.connections.push(c);
                },
                None => {},
            }
        }
        ignore_current_node(reader)
    }
}

} // verus!
