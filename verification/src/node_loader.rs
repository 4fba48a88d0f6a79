//! What every node loader shares: the shape of a well nested sequence of
//! events, skipping a node, and the loop that hands a node's children to a
//! loader.

use vstd::prelude::*;
use crate::error::{Error, Result};
use crate::event::{EventReader, FbxEvent, Property};

verus! {

/// Name and cells of a node that has just started.
pub struct RawNodeInfo<'a> {
    /// Node name.
    pub name: &'a str,
    /// Node properties.
    pub properties: &'a Vec<Property>,
}

/// Whether `info` describes the node that starts at `events[at]`.
pub open spec fn describes(info: RawNodeInfo<'_>, events: Seq<FbxEvent>, at: int) -> bool {
    &&& 0 <= at < events.len()
    &&& events[at] matches FbxEvent::StartNode { name, properties }
    &&& info.name@ == name@
    &&& *info.properties == properties
}

/// The name of the node whose children begin at `pos`.
pub open spec fn name_at(events: Seq<FbxEvent>, pos: int) -> Seq<char> {
    events[pos - 1]->name@
}

/// The cells of the node whose children begin at `pos`.
pub open spec fn cells_at(events: Seq<FbxEvent>, pos: int) -> Seq<Property> {
    events[pos - 1]->properties@
}

/// A child that is skipped once `state` has been taken from its cells: the
/// state, and the position after the child's end.
pub open spec fn skipped<S>(state: S, events: Seq<FbxEvent>, pos: int) -> Option<(S, int)> {
    match node_end(events, pos) {
        Some(end) => Some((state, end)),
        None => None,
    }
}

/// Where the node ends whose children begin at `pos`: the position after its
/// `EndNode`, found by walking its children one after another, each to its
/// own end. `None` where the events end before the node does.
pub open spec fn node_end(events: Seq<FbxEvent>, pos: int) -> Option<int>
    decreases events.len() - pos,
{
    if pos < 0 || pos >= events.len() {
        None
    } else {
        match events[pos] {
            FbxEvent::EndNode => Some(pos + 1),
            FbxEvent::EndFbx => None,
            FbxEvent::StartNode { .. } => match node_end(events, pos + 1) {
                Some(next) => if pos < next <= events.len() {
                    node_end(events, next)
                } else {
                    None
                },
                None => None,
            },
        }
    }
}

/// Where `depth` open nodes are all closed, counting starts and ends from
/// `pos` on. `None` where the events end first.
pub open spec fn close_from(events: Seq<FbxEvent>, pos: int, depth: nat) -> Option<int>
    decreases events.len() - pos,
{
    if depth == 0 {
        Some(pos)
    } else if pos < 0 || pos >= events.len() {
        None
    } else {
        match events[pos] {
            FbxEvent::StartNode { .. } => close_from(events, pos + 1, depth + 1),
            FbxEvent::EndNode => close_from(events, pos + 1, (depth - 1) as nat),
            FbxEvent::EndFbx => None,
        }
    }
}

/// Where `depth` open nodes are all closed, each found by `node_end`.
pub open spec fn ascend(events: Seq<FbxEvent>, pos: int, depth: nat) -> Option<int>
    decreases depth,
{
    if depth == 0 {
        Some(pos)
    } else {
        match node_end(events, pos) {
            Some(next) => ascend(events, next, (depth - 1) as nat),
            None => None,
        }
    }
}

/// A node ends after the place where its children begin.
pub proof fn node_end_is_later(events: Seq<FbxEvent>, pos: int)
    ensures
        node_end(events, pos) matches Some(end) ==> pos < end <= events.len(),
    decreases events.len() - pos,
{
    if 0 <= pos < events.len() {
        if events[pos] is StartNode {
            node_end_is_later(events, pos + 1);
            if let Some(next) = node_end(events, pos + 1) {
                node_end_is_later(events, next);
            }
        }
    }
}

proof fn counting_is_walking(events: Seq<FbxEvent>, pos: int, depth: nat)
    ensures
        close_from(events, pos, depth) == ascend(events, pos, depth),
    decreases events.len() - pos, depth,
{
    if depth == 0 {
    } else if pos < 0 || pos >= events.len() {
    } else {
        match events[pos] {
            FbxEvent::StartNode { .. } => {
                counting_is_walking(events, pos + 1, depth + 1);
                // ascend(pos + 1, depth + 1) peels the child first, then goes on as from `pos`
                node_end_is_later(events, pos + 1);
                match node_end(events, pos + 1) {
                    Some(next) => {
                        assert(ascend(events, pos + 1, depth + 1) == ascend(events, next, depth));
                        assert(node_end(events, pos) == node_end(events, next));
                        reveal_with_fuel(ascend, 2);
                    },
                    None => {},
                }
            },
            FbxEvent::EndNode => {
                counting_is_walking(events, pos + 1, (depth - 1) as nat);
            },
            FbxEvent::EndFbx => {},
        }
    }
}

/// Skipping a node by counting starts and ends stops exactly where walking
/// through the node, child by child, stops: at the next sibling.
pub proof fn skip_stops_at_sibling(events: Seq<FbxEvent>, pos: int)
    ensures
        close_from(events, pos, 1) == node_end(events, pos),
{
    counting_is_walking(events, pos, 1);
    reveal_with_fuel(ascend, 2);
}

/// Skips the rest of the current node, its children included.
///
/// The cursor ends after the node's `EndNode`. Where the events end before
/// the node does, that is an error.
pub fn ignore_current_node(reader: &mut EventReader<'_>) -> (r: Result<()>)
    ensures
        final(reader).events() == old(reader).events(),
        r is Ok ==> old(reader).position() < final(reader).position() <= old(reader).events().len(),
        match node_end(old(reader).events(), old(reader).position()) {
            Some(end) => r is Ok && final(reader).position() == end,
            None => r is Err && r->Err_0.is_truncated(),
        },
{
    let ghost events = reader.events();
    let ghost start = reader.position();
    let mut level: usize = 1;
    proof {
        skip_stops_at_sibling(events, start);
        node_end_is_later(events, start);
    }
    loop
        invariant
            reader.events() == events,
            old(reader).events() == events,
            old(reader).position() == start,
            node_end(events, start) matches Some(end) ==> start < end <= events.len(),
            level >= 1,
            close_from(events, reader.position(), level as nat) == node_end(events, start),
        decreases events.len() - reader.position(),
    {
        let ghost pos = reader.position();
        match reader.next() {
            Err(e) => {
                return Err(e);
            },
            Ok(event) => match event {
                FbxEvent::StartNode { .. } => {
                    if level == usize::MAX {
                        proof {
                            depth_is_bounded(events, pos + 1, (level + 1) as nat);
                        }
                        return Err(Error::truncated());
                    }
                    level = level + 1;
                },
                FbxEvent::EndNode => {
                    level = level - 1;
                    if level == 0 {
                        return Ok(());
                    }
                },
                FbxEvent::EndFbx => {
                    return Err(Error::truncated());
                },
            },
        }
    }
}

/// With more nodes open than events left, the events end first.
proof fn depth_is_bounded(events: Seq<FbxEvent>, pos: int, depth: nat)
    requires
        0 <= pos <= events.len(),
        depth > events.len() - pos,
    ensures
        close_from(events, pos, depth) is None,
    decreases events.len() - pos,
{
    if pos < events.len() {
        match events[pos] {
            FbxEvent::StartNode { .. } => depth_is_bounded(events, pos + 1, depth + 1),
            FbxEvent::EndNode => depth_is_bounded(events, pos + 1, (depth - 1) as nat),
            FbxEvent::EndFbx => {},
        }
    }
}

/// What a loader has made of the children of its node.
///
/// `state` is what the loader has gathered so far, as a mathematical value,
/// and `children` folds the children of a node into it one after another,
/// from the child at `pos` up to the end of the node. The result is the
/// state after the last child and the position after the node's end, or
/// `None` where the events end before the node does.
pub open spec fn children<L: NodeLoader>(state: L::State, events: Seq<FbxEvent>, pos: int) -> Option<
    (L::State, int),
>
    decreases events.len() - pos,
{
    if pos < 0 || pos >= events.len() {
        None
    } else {
        match events[pos] {
            FbxEvent::StartNode { .. } => match L::child(state, events, pos + 1) {
                Some((after, next)) => if pos < next <= events.len() {
                    children::<L>(after, events, next)
                } else {
                    None
                },
                None => None,
            },
            _ => Some((state, pos + 1)),
        }
    }
}

/// The part of a loader that does not read: what it makes of what it has gathered.
pub trait NodeLoaderCommon: Sized {
    type Target;

    /// What the loader has gathered, as a mathematical value.
    type State;

    /// What the loader makes, as a mathematical value.
    type Outcome;

    spec fn state(&self) -> Self::State;

    spec fn outcome(target: &Self::Target) -> Self::Outcome;

    /// What `on_finish` makes of a state; `None` is a critical error.
    spec fn finish(state: Self::State) -> Option<Self::Outcome>;

    /// Whether the loader makes something of every node that ends.
    spec fn always_loads() -> bool;

    /// Whether the loader may give this error, besides that of events that
    /// end too early.
    spec fn refuses_with(e: Error) -> bool;

    /// Executed on node end.
    fn on_finish(self) -> (r: Result<Self::Target>)
        ensures
            match Self::finish(self.state()) {
                Some(outcome) => r is Ok && Self::outcome(&r->Ok_0) == outcome,
                None => r is Err,
            },
            r is Err ==> Self::refuses_with(r->Err_0),
    ;
}

/// A loader of one kind of node.
pub trait NodeLoader: NodeLoaderCommon {
    /// What `on_child_node` makes of the child whose children begin at
    /// `pos` (so it starts at `events[pos - 1]`): the state after it and the
    /// position after its end. `None` is a critical error.
    spec fn child(state: Self::State, events: Seq<FbxEvent>, pos: int) -> Option<(Self::State, int)>;

    /// A child that ends is read to its end and no further, so that the
    /// cursor is at the next sibling: what `child` makes of it ends where
    /// `node_end` says. A loader that always loads makes something of
    /// every such child.
    proof fn child_ends_with_its_node(state: Self::State, events: Seq<FbxEvent>, pos: int)
        requires
            node_end(events, pos) is Some,
        ensures
            Self::always_loads() ==> Self::child(state, events, pos) is Some,
            Self::child(state, events, pos) matches Some((_, end)) ==> end == node_end(events, pos)->0,
    ;

    /// Executed for each child. It leaves the cursor after the child's end.
    fn on_child_node(&mut self, reader: &mut EventReader<'_>, node_info: RawNodeInfo<'_>) -> (r:
        Result<()>)
        requires
            describes(node_info, old(reader).events(), old(reader).position() - 1),
        ensures
            final(reader).events() == old(reader).events(),
            r is Ok ==> old(reader).position() < final(reader).position() <= old(reader).events().len(),
            match Self::child(old(self).state(), old(reader).events(), old(reader).position()) {
                Some((after, next)) => r is Ok && final(self).state() == after
                    && final(reader).position() == next,
                None => r is Err,
            },
            r is Err ==> r->Err_0.is_truncated() || Self::refuses_with(r->Err_0),
    ;
}

/// A node that ends is read to its end and no further, whatever the loader
/// and whatever the node holds: the children end where `node_end` says. A
/// loader that always loads makes something of every such node.
pub proof fn loader_ends_with_its_node<L: NodeLoader>(state: L::State, events: Seq<FbxEvent>, pos: int)
    requires
        node_end(events, pos) is Some,
    ensures
        L::always_loads() ==> children::<L>(state, events, pos) is Some,
        children::<L>(state, events, pos) matches Some((_, end)) ==> end == node_end(events, pos)->0,
    decreases events.len() - pos,
{
    if events[pos] is StartNode {
        node_end_is_later(events, pos + 1);
        L::child_ends_with_its_node(state, events, pos + 1);
        match L::child(state, events, pos + 1) {
            Some((after, next)) => {
                loader_ends_with_its_node::<L>(after, events, next);
            },
            None => {},
        }
    }
}

/// The loop that every loader runs.
pub trait NodeLoad: NodeLoader {
    /// Reads the node that the cursor is in up to its end, handing each child
    /// to `on_child_node`, then finishes.
    fn load(self, reader: &mut EventReader<'_>) -> (r: Result<Self::Target>)
        ensures
            final(reader).events() == old(reader).events(),
            r is Ok ==> old(reader).position() < final(reader).position() <= old(reader).events().len(),
            match children::<Self>(self.state(), old(reader).events(), old(reader).position()) {
                Some((after, end)) => final(reader).position() == end && match Self::finish(after) {
                    Some(outcome) => r is Ok && Self::outcome(&r->Ok_0) == outcome,
                    None => r is Err,
                },
                None => r is Err,
            },
            r is Err ==> r->Err_0.is_truncated() || Self::refuses_with(r->Err_0),
    ;
}

impl<L: NodeLoader> NodeLoad for L {
    fn load(self, reader: &mut EventReader<'_>) -> (r: Result<Self::Target>)
    {
        let ghost events = reader.events();
        let ghost begin = reader.position();
        let ghost first = self.state();
        let mut loader = self;
        loop
            invariant
                reader.events() == events,
                old(reader).events() == events,
                old(reader).position() == begin,
                self.state() == first,
                begin <= reader.position(),
                children::<Self>(loader.state(), events, reader.position()) == children::<Self>(
                    first,
                    events,
                    begin,
                ),
            decreases events.len() - reader.position(),
        {
            let ghost pos = reader.position();
            match reader.next() {
                Err(e) => {
                    return Err(e);
                },
                Ok(event) => match event {
                    FbxEvent::StartNode { name, properties } => {
                        let info = RawNodeInfo { name: name.as_str(), properties: properties };
                        match loader.on_child_node(reader, info) {
                            Err(e) => {
                                return Err(e);
                            },
                            Ok(()) => {},
                        }
                    },
                    _ => {
                        return loader.on_finish();
                    },
                },
            }
        }
    }
}

/// Turns the bytes of an embedded image into whatever the caller wants to
/// keep of it.
pub trait FormatConvert {
    type ImageResult: Clone;

    /// Whether `image` is something that the converter, as it stands, makes
    /// of these bytes and this path. It is for the converter to say; one
    /// that says nothing may make anything.
    open spec fn makes(&self, binary: Seq<u8>, path: Seq<char>, image: Self::ImageResult) -> bool {
        true
    }

    fn binary_to_image(&mut self, binary: &[u8], path: &str) -> (image: Self::ImageResult)
        ensures
            old(self).makes(binary@, path@, image),
    ;
}

/// A borrowed converter is a converter: it makes what the converter behind
/// it makes of the same bytes and the same path.
impl<'a, T: FormatConvert> FormatConvert for &'a mut T {
    type ImageResult = <T as FormatConvert>::ImageResult;

    open spec fn makes(&self, binary: Seq<u8>, path: Seq<char>, image: Self::ImageResult) -> bool {
        (**self).makes(binary, path, image)
    }

    fn binary_to_image(&mut self, binary: &[u8], path: &str) -> (image: Self::ImageResult) {
        (**self).binary_to_image(binary, path)
    }
}

} // verus!
