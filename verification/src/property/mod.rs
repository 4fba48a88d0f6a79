//! Property records and the maps that hold them.

use vstd::prelude::*;
use crate::error::{Error, Result};
use crate::event::{first_of, singles, EventReader, FbxEvent, PropertiesIter, Property};
use crate::node_loader::{
    cells_at, children, ignore_current_node, loader_ends_with_its_node, name_at, skipped, NodeLoad,
    NodeLoader, NodeLoaderCommon, RawNodeInfo,
};
use crate::table::{
    absent_key_is_unmapped, is_absent, is_last_of, keys_stand_in_pairs, last_pair_wins,
    pushed_pair_is_inserted, replaced_pair_is_inserted, table,
};
use crate::text::same_text;
use crate::utils::{color_of, to_color};

pub mod flags;
pub mod property_node;
pub mod property_node_value;

pub use self::flags::PropertyFlags;
pub use self::property_node::{PropertyNode, PropertyNodeLoader};
pub use self::property_node_value::PropertyNodeValue;
use self::property_node::{record_of, record_start, PropertyRecord};

verus! {

/// A map from the names of properties to their records, with at most one
/// record for a name.
#[derive(Debug, Clone)]
pub struct GenericProperties {
    properties: Vec<(String, PropertyNode)>,
}

impl View for GenericProperties {
    type V = Map<Seq<char>, PropertyRecord>;

    closed spec fn view(&self) -> Map<Seq<char>, PropertyRecord> {
        table(self.pairs())
    }
}

impl GenericProperties {
    spec fn pairs(&self) -> Seq<(Seq<char>, PropertyRecord)> {
        self.properties@.map_values(|e: (String, PropertyNode)| (e.0@, e.1@))
    }

    /// No name occurs twice among the records that are held. `new` makes
    /// such properties and `insert` keeps them so.
    pub closed spec fn wf(&self) -> bool {
        forall|i: int, j: int|
            0 <= i < j < self.properties@.len() ==> (#[trigger] self.properties@[i]).0@ != (
            #[trigger] self.properties@[j]).0@
    }

    pub fn new() -> (r: Self)
        ensures
            r@ == Map::<Seq<char>, PropertyRecord>::empty(),
            r.wf(),
    {
        GenericProperties { properties: Vec::new() }
    }

    /// Where the record of `name` stands.
    fn position(&self, name: &str) -> (r: Option<usize>)
        ensures
            match r {
                Some(at) => is_last_of(self.pairs(), name@, at as int),
                None => is_absent(self.pairs(), name@),
            },
    {
        let mut i: usize = self.properties.len();
        while i > 0
            invariant
                i <= self.properties.len(),
                forall|j: int| i <= j < self.pairs().len() ==> (#[trigger] self.pairs()[j]).0 != name@,
            decreases i,
        {
            i = i - 1;
            if same_text(self.properties[i].0.as_str(), name) {
                return Some(i);
            }
        }
        None
    }

    /// Puts a record under a name. A record that was there is replaced.
    pub fn insert(&mut self, name: String, node: PropertyNode)
        ensures
            final(self)@ == old(self)@.insert(name@, node@),
            old(self).wf() ==> final(self).wf(),
    {
        match self.position(name.as_str()) {
            Some(at) => {
                proof {
                    replaced_pair_is_inserted(self.pairs(), name@, at as int, node@);
                    assert(self.pairs()[at as int].0 == name@);
                }
                let ghost before = self.pairs();
                self.properties[at] = (name, node);
                proof {
                    assert(self.pairs() =~= before.update(at as int, (name@, node@)));
                }
            },
            None => {
                proof {
                    pushed_pair_is_inserted(self.pairs(), name@, node@);
                    assert forall|i: int| 0 <= i < self.properties@.len() implies (
                    #[trigger] self.properties@[i]).0@ != name@ by {
                        assert(self.pairs()[i].0 != name@);
                    }
                }
                let ghost before = self.pairs();
                self.properties.push((name, node));
                proof {
                    assert(self.pairs() =~= before.push((name@, node@)));
                }
            },
        }
    }

    /// The names that records are held under, each once, in the order in
    /// which they first came.
    pub fn names(&self) -> (r: Vec<&str>)
        ensures
            forall|name: Seq<char>|
                self@.contains_key(name) <==> exists|i: int|
                    0 <= i < r@.len() && (#[trigger] r@[i])@ == name,
            self.wf() ==> forall|i: int, j: int|
                0 <= i < j < r@.len() ==> (#[trigger] r@[i])@ != (#[trigger] r@[j])@,
    {
        let mut out: Vec<&str> = Vec::with_capacity(self.properties.len());
        let mut i: usize = 0;
        while i < self.properties.len()
            invariant
                i <= self.properties.len(),
                out@.len() == i,
                forall|j: int| 0 <= j < i ==> (#[trigger] out@[j])@ == self.properties@[j].0@,
            decreases self.properties.len() - i,
        {
            out.push(self.properties[i].0.as_str());
            i = i + 1;
        }
        proof {
            assert forall|name: Seq<char>|
                self@.contains_key(name) <==> exists|i: int|
                    0 <= i < out@.len() && (#[trigger] out@[i])@ == name by {
                keys_stand_in_pairs(self.pairs(), name);
                if self@.contains_key(name) {
                    let i = choose|i: int|
                        0 <= i < self.pairs().len() && (#[trigger] self.pairs()[i]).0 == name;
                    assert(out@[i]@ == name);
                }
                if exists|i: int| 0 <= i < out@.len() && (#[trigger] out@[i])@ == name {
                    let i = choose|i: int| 0 <= i < out@.len() && (#[trigger] out@[i])@ == name;
                    assert(self.pairs()[i].0 == name);
                }
            }
        }
        out
    }

    /// The record of a name, if there is one.
    pub fn get(&self, name: &str) -> (r: Option<&PropertyNode>)
        ensures
            r is Some == self@.contains_key(name@),
            r matches Some(node) ==> self@[name@] == node@,
    {
        match self.position(name) {
            Some(at) => {
                proof {
                    last_pair_wins(self.pairs(), name@, at as int);
                }
                Some(&self.properties[at].1)
            },
            None => {
                proof {
                    absent_key_is_unmapped(self.pairs(), name@);
                }
                None
            },
        }
    }
}

impl Default for GenericProperties {
    /// No properties.
    fn default() -> (r: Self)
        ensures
            r@ == Map::<Seq<char>, PropertyRecord>::empty(),
            r.wf(),
    {
        GenericProperties::new()
    }
}

/// The record that a lookup finds: that of the object's own properties where
/// they hold the key, else that of the defaults where they hold it, else none.
pub open spec fn resolve(
    instance: Option<Map<Seq<char>, PropertyRecord>>,
    defaults: Option<Map<Seq<char>, PropertyRecord>>,
    key: Seq<char>,
) -> Option<PropertyRecord> {
    if instance is Some && instance->0.contains_key(key) {
        Some(instance->0[key])
    } else if defaults is Some && defaults->0.contains_key(key) {
        Some(defaults->0[key])
    } else {
        None
    }
}

/// The view of properties that may be missing.
pub open spec fn properties_view(properties: Option<GenericProperties>) -> Option<
    Map<Seq<char>, PropertyRecord>,
> {
    match properties {
        Some(p) => Some(p@),
        None => None,
    }
}

/// The view of borrowed properties that may be missing.
pub open spec fn defaults_view(properties: Option<&GenericProperties>) -> Option<
    Map<Seq<char>, PropertyRecord>,
> {
    match properties {
        Some(p) => Some(p@),
        None => None,
    }
}

/// Lookup in the properties of an object, falling back to defaults.
pub trait OptionalProperties {
    spec fn own(&self) -> Option<Map<Seq<char>, PropertyRecord>>;

    /// The record of `key` in these properties, else in `defaults`.
    fn get_or_default<'a>(&'a self, defaults: Option<&'a GenericProperties>, key: &str) -> (r:
        Option<&'a PropertyNode>)
        ensures
            record_ref_view(r) == resolve(self.own(), defaults_view(defaults), key@),
    ;
}

/// The view of a borrowed record that may be missing.
pub open spec fn record_ref_view(node: Option<&PropertyNode>) -> Option<PropertyRecord> {
    match node {
        Some(n) => Some(n@),
        None => None,
    }
}

impl OptionalProperties for Option<GenericProperties> {
    open spec fn own(&self) -> Option<Map<Seq<char>, PropertyRecord>> {
        properties_view(*self)
    }

    fn get_or_default<'a>(&'a self, defaults: Option<&'a GenericProperties>, key: &str) -> (r:
        Option<&'a PropertyNode>) {
        match self {
            Some(own) => match own.get(key) {
                Some(node) => {
                    assert(own@.contains_key(key@) && own@[key@] == node@);
                    assert(self.own() == Some(own@));
                    assert(resolve(self.own(), defaults_view(defaults), key@) == Some(own@[key@]));
                    assert(record_ref_view(Some(node)) == Some(node@));
                    return Some(node);
                },
                None => {
                    assert(!own@.contains_key(key@));
                },
            },
            None => {},
        }
        match defaults {
            Some(d) => match d.get(key) {
                Some(node) => {
                    assert(d@.contains_key(key@) && d@[key@] == node@);
                    Some(node)
                },
                None => None,
            },
            None => None,
        }
    }
}

/// A lookup with no properties of the object's own finds the default.
pub proof fn default_is_found(defaults: Map<Seq<char>, PropertyRecord>, key: Seq<char>)
    requires
        defaults.contains_key(key),
    ensures
        resolve(None, Some(defaults), key) == Some(defaults[key]),
{
}

/// A lookup finds the object's own record, whatever the defaults hold.
pub proof fn own_record_is_found(
    instance: Map<Seq<char>, PropertyRecord>,
    defaults: Option<Map<Seq<char>, PropertyRecord>>,
    key: Seq<char>,
)
    requires
        instance.contains_key(key),
    ensures
        resolve(Some(instance), defaults, key) == Some(instance[key]),
{
}

/// A lookup in nothing finds nothing.
pub proof fn nothing_is_found(key: Seq<char>)
    ensures
        resolve(None, None, key) is None,
{
}

/// The loader of a node of property records.
#[derive(Debug)]
pub struct GenericPropertiesLoader {
    properties: GenericProperties,
}

impl GenericPropertiesLoader {
    pub fn new(_node_version: i32) -> (r: Self)
        ensures
            r.state() == Map::<Seq<char>, PropertyRecord>::empty(),
    {
        GenericPropertiesLoader { properties: GenericProperties::new() }
    }
}

/// What a child of a node of property records adds to the map.
///
/// A child `P` whose first cell is text, the name, and whose other cells
/// begin a record, is loaded as a record and put under the name if it has a
/// value. Any other child is skipped.
pub open spec fn properties_child(
    state: Map<Seq<char>, PropertyRecord>,
    events: Seq<FbxEvent>,
    pos: int,
) -> Option<(Map<Seq<char>, PropertyRecord>, int)> {
    let cells = cells_at(events, pos);
    if name_at(events, pos) == "P"@ && first_of(cells) is Some && first_of(cells)->0.text() is Some
        && record_start(cells.skip(1)) is Some {
        match children::<PropertyNodeLoader>(record_start(cells.skip(1))->0, events, pos) {
            Some((after, end)) => match record_of(after) {
                Some(record) => Some((state.insert(first_of(cells)->0.text()->0, record), end)),
                None => Some((state, end)),
            },
            None => None,
        }
    } else {
        skipped(state, events, pos)
    }
}

impl NodeLoaderCommon for GenericPropertiesLoader {
    type Target = GenericProperties;

    type State = Map<Seq<char>, PropertyRecord>;

    type Outcome = Map<Seq<char>, PropertyRecord>;

    closed spec fn state(&self) -> Self::State {
        self.properties@
    }

    open spec fn outcome(target: &GenericProperties) -> Self::Outcome {
        target@
    }

    open spec fn finish(state: Self::State) -> Option<Self::Outcome> {
        Some(state)
    }

    open spec fn always_loads() -> bool {
        true
    }

    open spec fn refuses_with(e: Error) -> bool {
        false
    }

    fn on_finish(self) -> (r: Result<GenericProperties>) {
        Ok(self.properties)
    }
}

impl NodeLoader for GenericPropertiesLoader {
    open spec fn child(state: Self::State, events: Seq<FbxEvent>, pos: int) -> Option<
        (Self::State, int),
    > {
        properties_child(state, events, pos)
    }

    proof fn child_ends_with_its_node(state: Self::State, events: Seq<FbxEvent>, pos: int) {
        let cells = cells_at(events, pos);
        if record_start(cells.skip(1)) is Some {
            loader_ends_with_its_node::<PropertyNodeLoader>(record_start(cells.skip(1))->0, events, pos);
        }
    }

    fn on_child_node(&mut self, reader: &mut EventReader<'_>, node_info: RawNodeInfo<'_>) -> (r:
        Result<()>) {
        let RawNodeInfo { name, properties } = node_info;
        if same_text(name, "P") {
            let mut prop_iter = PropertiesIter::new(properties);
            let prop_name = match prop_iter.next() {
                Some(p) => p.get_string(),
                None => None,
            };
            match prop_name {
                Some(prop_name) => {
                    proof {
                        assert(prop_iter.remaining() =~= properties@.skip(1));
                    }
                    match PropertyNodeLoader::new(prop_iter) {
                        Some(loader) => match loader.load(reader) {
                            Ok(Some(prop_node)) => {
                                self.properties.insert(prop_name.to_owned(), prop_node);
                                Ok(())
                            },
                            Ok(None) => Ok(()),
                            Err(e) => Err(e),
                        },
                        None => ignore_current_node(reader),
                    }
                },
                None => ignore_current_node(reader),
            }
        } else {
            ignore_current_node(reader)
        }
    }
}

/// The properties that a node `Properties70` whose children begin at `pos`
/// holds, and where the node ends.
pub open spec fn properties_at(events: Seq<FbxEvent>, pos: int) -> Option<(Map<Seq<char>, PropertyRecord>, int)> {
    children::<GenericPropertiesLoader>(Map::empty(), events, pos)
}

/// Loads the node of property records that the cursor is in.
pub fn load_properties(reader: &mut EventReader<'_>) -> (r: Result<GenericProperties>)
    ensures
        final(reader).events() == old(reader).events(),
        r is Ok ==> old(reader).position() < final(reader).position() <= old(reader).events().len(),
        match properties_at(old(reader).events(), old(reader).position()) {
            Some((loaded, end)) => r is Ok && r->Ok_0@ == loaded && final(reader).position() == end,
            None => r is Err && r->Err_0.is_truncated(),
        },
{
    GenericPropertiesLoader::new(70).load(reader)
}

/// The integer of a record that holds one.
pub open spec fn long_in(record: Option<PropertyRecord>) -> Option<i64> {
    match record {
        Some(r) => r.value.long(),
        None => None,
    }
}

/// Whether the integer of a record that holds one is not zero.
pub open spec fn flag_in(record: Option<PropertyRecord>) -> Option<bool> {
    match long_in(record) {
        Some(v) => Some(v != 0),
        None => None,
    }
}

/// The text of a record that holds valid text.
pub open spec fn text_in(record: Option<PropertyRecord>) -> Option<Seq<char>> {
    match record {
        Some(r) => r.value.text(),
        None => None,
    }
}

/// The number, in double precision, of a record that holds one.
pub open spec fn double_in(record: Option<PropertyRecord>) -> Option<u64> {
    match record {
        Some(r) => crate::event::doubles_of(r.value.number()),
        None => None,
    }
}

/// The number, in single precision, of a record that holds one.
pub open spec fn single_in(record: Option<PropertyRecord>) -> Option<u32> {
    match record {
        Some(r) => crate::event::singles_of(r.value.number()),
        None => None,
    }
}

/// The color, in single precision, of a record that holds at least three numbers.
pub open spec fn color_in(record: Option<PropertyRecord>) -> Option<[u32; 3]> {
    match record {
        Some(r) => match r.value.numbers() {
            Some(numbers) => color_of(singles(numbers)),
            None => None,
        },
        None => None,
    }
}

pub fn node_i64(node: Option<&PropertyNode>) -> (r: Option<i64>)
    ensures
        r == long_in(record_ref_view(node)),
{
    match node {
        Some(n) => n.value.get_i64(),
        None => None,
    }
}

pub fn node_flag(node: Option<&PropertyNode>) -> (r: Option<bool>)
    ensures
        r == flag_in(record_ref_view(node)),
{
    match node_i64(node) {
        Some(v) => Some(v != 0),
        None => None,
    }
}

pub fn node_string(node: Option<&PropertyNode>) -> (r: Option<String>)
    ensures
        r is Some == text_in(record_ref_view(node)) is Some,
        r matches Some(s) ==> text_in(record_ref_view(node)) == Some(s@),
{
    match node {
        Some(n) => match n.value.get_string() {
            Some(s) => Some(s.clone()),
            None => None,
        },
        None => None,
    }
}

pub fn node_f64(node: Option<&PropertyNode>) -> (r: Option<u64>)
    ensures
        r == double_in(record_ref_view(node)),
{
    match node {
        Some(n) => n.value.get_f64(),
        None => None,
    }
}

pub fn node_f32(node: Option<&PropertyNode>) -> (r: Option<u32>)
    ensures
        r == single_in(record_ref_view(node)),
{
    match node {
        Some(n) => n.value.get_f32(),
        None => None,
    }
}

pub fn node_color(node: Option<&PropertyNode>) -> (r: Option<[u32; 3]>)
    ensures
        r == color_in(record_ref_view(node)),
{
    match node {
        Some(n) => match n.value.get_vec_f32() {
            Some(v) => to_color(&v),
            None => None,
        },
        None => None,
    }
}

} // verus!
