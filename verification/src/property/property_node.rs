//! One property record, and the loader of its node.

use vstd::prelude::*;
use crate::error::{Error, Result};
use crate::event::{first, first_of, EventReader, FbxEvent, Number, PropertiesIter, Property};
use crate::node_loader::{
    cells_at, ignore_current_node, name_at, skipped, NodeLoader, NodeLoaderCommon, RawNodeInfo,
};
use crate::text::same_text;
use crate::utils::copy_of;
use super::flags::{no_flags, parsed_from, FlagSet, PropertyFlags};
use super::property_node_value::{PropertyNodeValue, PropertyValue};

verus! {

/// One property record.
#[derive(Debug, Clone)]
pub struct PropertyNode {
    pub data_type: String,
    pub label: String,
    pub flags: PropertyFlags,
    pub value: PropertyNodeValue,
}

/// One property record, as a mathematical value.
pub ghost struct PropertyRecord {
    pub data_type: Seq<char>,
    pub label: Seq<char>,
    pub flags: FlagSet,
    pub value: PropertyValue,
}

impl View for PropertyNode {
    type V = PropertyRecord;

    open spec fn view(&self) -> PropertyRecord {
        PropertyRecord {
            data_type: self.data_type@,
            label: self.label@,
            flags: self.flags@,
            value: self.value@,
        }
    }
}

/// The view of a record that may be missing.
pub open spec fn record_view(node: Option<PropertyNode>) -> Option<PropertyRecord> {
    match node {
        Some(n) => Some(n@),
        None => None,
    }
}

/// The loader of the node of one property record.
#[derive(Debug)]
pub struct PropertyNodeLoader<'a> {
    data_type: &'a str,
    label: &'a str,
    flags: PropertyFlags,
    value: Option<PropertyNodeValue>,
}

/// What a record loader holds, as a mathematical value.
pub ghost struct RecordState {
    pub data_type: Seq<char>,
    pub label: Seq<char>,
    pub flags: FlagSet,
    pub value: Option<PropertyValue>,
}

/// The integers, widened to 64 bits, of the longest run of integer cells at
/// the start of `cells`.
pub open spec fn leading_longs(cells: Seq<Property>) -> Seq<i64>
    decreases cells.len(),
{
    if cells.len() > 0 && cells[0].widened_long() is Some {
        seq![cells[0].widened_long()->0] + leading_longs(cells.skip(1))
    } else {
        Seq::empty()
    }
}

/// The numbers of the longest run of floating point cells at the start of `cells`.
pub open spec fn leading_numbers(cells: Seq<Property>) -> Seq<Number>
    decreases cells.len(),
{
    if cells.len() > 0 && cells[0].number() is Some {
        seq![cells[0].number()->0] + leading_numbers(cells.skip(1))
    } else {
        Seq::empty()
    }
}

/// The value that the cells of a record give, the record not being a blob.
///
/// No cell gives the empty value. A first cell that is an integer gives that
/// integer, or, with integers after it, the array of them all; floating
/// point cells likewise, the first cell deciding the width. A text cell
/// gives its text. Any other first cell gives no value.
pub open spec fn value_of_cells(cells: Seq<Property>) -> Option<PropertyValue> {
    if cells.len() == 0 {
        Some(PropertyValue::Empty)
    } else {
        let rest = cells.skip(1);
        match cells[0] {
            Property::I16(_) | Property::I32(_) | Property::I64(_) => {
                let head = cells[0].widened_long()->0;
                if leading_longs(rest).len() == 0 {
                    Some(PropertyValue::I64(head))
                } else {
                    Some(PropertyValue::VecI64(seq![head] + leading_longs(rest)))
                }
            },
            Property::F32(head) => {
                if leading_numbers(rest).len() == 0 {
                    Some(PropertyValue::F32(head))
                } else {
                    Some(PropertyValue::VecF32(seq![head] + leading_numbers(rest)))
                }
            },
            Property::F64(head) => {
                if leading_numbers(rest).len() == 0 {
                    Some(PropertyValue::F64(head))
                } else {
                    Some(PropertyValue::VecF64(seq![head] + leading_numbers(rest)))
                }
            },
            Property::String(Ok(s)) => Some(PropertyValue::Text(s@)),
            Property::String(Err(raw)) => Some(PropertyValue::RawText(raw@)),
            _ => None,
        }
    }
}

/// What the cells of a record after its name begin a record loader with.
///
/// The first three cells are the data type, the label and the flags, all
/// text; without them there is no loader. Where the label is `Blob`, the
/// fourth cell is the length, a 32 bit integer, without which there is no
/// loader, and the value starts as an empty blob. Otherwise the cells from
/// the fourth on give the value, and where they give none there is no
/// loader.
pub open spec fn record_start(cells: Seq<Property>) -> Option<RecordState> {
    if cells.len() < 3 || cells[0].text() is None || cells[1].text() is None
        || cells[2].text() is None {
        None
    } else {
        let data_type = cells[0].text()->0;
        let label = cells[1].text()->0;
        let flags = cells[2].text()->0;
        if label == "Blob"@ {
            if cells.len() >= 4 && cells[3].int32() is Some {
                Some(
                    RecordState {
                        data_type,
                        label,
                        flags: parsed_from(flags, 0, no_flags()),
                        value: Some(PropertyValue::Blob(Seq::empty())),
                    },
                )
            } else {
                None
            }
        } else {
            match value_of_cells(cells.skip(3)) {
                Some(value) => Some(
                    RecordState {
                        data_type,
                        label,
                        flags: parsed_from(flags, 0, no_flags()),
                        value: Some(value),
                    },
                ),
                None => None,
            }
        }
    }
}

/// Collects the integers of the run of integer cells that `iter` begins with.
fn collect_longs(iter: &mut PropertiesIter<'_>, head: i64) -> (out: Vec<i64>)
    ensures
        out@ == seq![head] + leading_longs(old(iter).remaining()),
{
    let mut out: Vec<i64> = Vec::new();
    out.push(head);
    let ghost cells = iter.remaining();
    loop
        invariant
            cells == old(iter).remaining(),
            out@ + leading_longs(iter.remaining()) == seq![head] + leading_longs(cells),
        decreases iter.remaining().len(),
    {
        let ghost before = iter.remaining();
        match iter.next() {
            Some(p) => match p.as_i64() {
                Some(v) => {
                    proof {
                        assert(out@.push(v) + leading_longs(before.skip(1)) =~= out@
                            + leading_longs(before));
                    }
                    out.push(v);
                },
                None => {
                    proof {
                        assert(out@ + leading_longs(before) =~= out@);
                    }
                    return out;
                },
            },
            None => {
                proof {
                    assert(out@ + leading_longs(before) =~= out@);
                }
                return out;
            },
        }
    }
}

/// Collects the numbers of the run of floating point cells that `iter` begins with.
fn collect_numbers(iter: &mut PropertiesIter<'_>, head: Number) -> (out: Vec<Number>)
    ensures
        out@ == seq![head] + leading_numbers(old(iter).remaining()),
{
    let mut out: Vec<Number> = Vec::new();
    out.push(head);
    let ghost cells = iter.remaining();
    loop
        invariant
            cells == old(iter).remaining(),
            out@ + leading_numbers(iter.remaining()) == seq![head] + leading_numbers(cells),
        decreases iter.remaining().len(),
    {
        let ghost before = iter.remaining();
        match iter.next() {
            Some(p) => match p {
                Property::F32(v) | Property::F64(v) => {
                    proof {
                        assert(out@.push(*v) + leading_numbers(before.skip(1)) =~= out@
                            + leading_numbers(before));
                    }
                    out.push(*v);
                },
                _ => {
                    proof {
                        assert(out@ + leading_numbers(before) =~= out@);
                    }
                    return out;
                },
            },
            None => {
                proof {
                    assert(out@ + leading_numbers(before) =~= out@);
                }
                return out;
            },
        }
    }
}

/// Reads the value of a record that is not a blob from the cells that are left.
fn value_from_cells(iter: &mut PropertiesIter<'_>) -> (r: Option<PropertyNodeValue>)
    ensures
        crate::property::property_node::value_view(r) == value_of_cells(old(iter).remaining()),
{
    match iter.next() {
        None => Some(PropertyNodeValue::Empty),
        Some(first_val) => match first_val {
            Property::I16(val) => Some(longs_value(collect_longs(iter, *val as i64))),
            Property::I32(val) => Some(longs_value(collect_longs(iter, *val as i64))),
            Property::I64(val) => Some(longs_value(collect_longs(iter, *val))),
            Property::F32(val) => {
                let vec = collect_numbers(iter, *val);
                if vec.len() == 1 {
                    Some(PropertyNodeValue::F32(*val))
                } else {
                    Some(PropertyNodeValue::VecF32(vec))
                }
            },
            Property::F64(val) => {
                let vec = collect_numbers(iter, *val);
                if vec.len() == 1 {
                    Some(PropertyNodeValue::F64(*val))
                } else {
                    Some(PropertyNodeValue::VecF64(vec))
                }
            },
            // An array of texts does not seem to exist.
            Property::String(Ok(val)) => Some(PropertyNodeValue::String(Ok(val.clone()))),
            Property::String(Err(raw)) => Some(PropertyNodeValue::String(Err(copy_of(raw)))),
            // Unexpected type: there is no value, and so no record. (A
            // boolean value is an integer in a property record.)
            _ => None,
        },
    }
}

/// A scalar for one integer, an array for more.
fn longs_value(vec: Vec<i64>) -> (r: PropertyNodeValue)
    requires
        vec.len() >= 1,
    ensures
        r@ == (if vec.len() == 1 {
            PropertyValue::I64(vec[0])
        } else {
            PropertyValue::VecI64(vec@)
        }),
{
    if vec.len() == 1 {
        PropertyNodeValue::I64(vec[0])
    } else {
        PropertyNodeValue::VecI64(vec)
    }
}

/// The view of a value that may be missing.
pub open spec fn value_view(value: Option<PropertyNodeValue>) -> Option<PropertyValue> {
    match value {
        Some(v) => Some(v@),
        None => None,
    }
}

impl<'a> PropertyNodeLoader<'a> {
    /// What the loader holds.
    pub closed spec fn view(&self) -> RecordState {
        RecordState {
            data_type: self.data_type@,
            label: self.label@,
            flags: self.flags@,
            value: value_view(self.value),
        }
    }

    /// Begins a record with the cells that follow its name, as `record_start` says.
    pub fn new(iter: PropertiesIter<'a>) -> (r: Option<Self>)
        ensures
            match record_start(iter.remaining()) {
                Some(state) => r is Some && r->0@ == state,
                None => r is None,
            },
    {
        let ghost cells = iter.remaining();
        let mut iter = iter;
        let data_type = match iter.next() {
            Some(p) => match p.get_string() {
                Some(val) => val,
                None => {
                    return None;
                },
            },
            None => {
                return None;
            },
        };
        let label = match iter.next() {
            Some(p) => match p.get_string() {
                Some(val) => val,
                None => {
                    return None;
                },
            },
            None => {
                return None;
            },
        };
        let flags = match iter.next() {
            Some(p) => match p.get_string() {
                Some(val) => PropertyFlags::from_string(val),
                None => {
                    return None;
                },
            },
            None => {
                return None;
            },
        };
        proof {
            assert(iter.remaining() =~= cells.skip(3));
        }
        let value = if same_text(label, "Blob") {
            match iter.next() {
                Some(p) => match p.get_i32() {
                    Some(_length) => Some(PropertyNodeValue::Blob(Vec::new())),
                    None => {
                        return None;
                    },
                },
                None => {
                    return None;
                },
            }
        } else {
            match value_from_cells(&mut iter) {
                Some(value) => Some(value),
                None => {
                    return None;
                },
            }
        };
        Some(PropertyNodeLoader { data_type, label, flags, value })
    }
}

/// What a record loader makes of a child called `name` with `cells`: in a
/// record whose label is `Blob`, a child `BinaryData` whose first cell is binary
/// adds its bytes to the blob.
pub open spec fn record_child(state: RecordState, name: Seq<char>, cells: Seq<Property>) -> RecordState {
    if state.label == "Blob"@ && name == "BinaryData"@ && first_of(cells) is Some
        && first_of(cells)->0.binary() is Some && state.value is Some
        && state.value->0 is Blob {
        RecordState {
            value: Some(PropertyValue::Blob(state.value->0->Blob_0 + first_of(cells)->0.binary()->0)),
            ..state
        }
    } else {
        state
    }
}

/// The record that a state makes, if it has a value.
pub open spec fn record_of(state: RecordState) -> Option<PropertyRecord> {
    match state.value {
        Some(value) => Some(
            PropertyRecord {
                data_type: state.data_type,
                label: state.label,
                flags: state.flags,
                value,
            },
        ),
        None => None,
    }
}

impl<'a> NodeLoaderCommon for PropertyNodeLoader<'a> {
    type Target = Option<PropertyNode>;

    type State = RecordState;

    type Outcome = Option<PropertyRecord>;

    open spec fn state(&self) -> RecordState {
        self@
    }

    open spec fn outcome(target: &Option<PropertyNode>) -> Option<PropertyRecord> {
        record_view(*target)
    }

    open spec fn finish(state: RecordState) -> Option<Option<PropertyRecord>> {
        Some(record_of(state))
    }

    open spec fn always_loads() -> bool {
        true
    }

    open spec fn refuses_with(e: Error) -> bool {
        false
    }

    fn on_finish(self) -> (r: Result<Option<PropertyNode>>) {
        let PropertyNodeLoader { data_type, label, flags, value } = self;
        Ok(
            match value {
                Some(value) => Some(
                    PropertyNode {
                        data_type: data_type.to_owned(),
                        label: label.to_owned(),
                        flags: flags,
                        value: value,
                    },
                ),
                None => None,
            },
        )
    }
}

impl<'a> NodeLoader for PropertyNodeLoader<'a> {
    open spec fn child(state: RecordState, events: Seq<FbxEvent>, pos: int) -> Option<
        (RecordState, int),
    > {
        skipped(record_child(state, name_at(events, pos), cells_at(events, pos)), events, pos)
    }

    proof fn child_ends_with_its_node(state: Self::State, events: Seq<FbxEvent>, pos: int) {
    }

    fn on_child_node(&mut self, reader: &mut EventReader<'_>, node_info: RawNodeInfo<'_>) -> (r:
        Result<()>) {
        let RawNodeInfo { name, properties } = node_info;
        if same_text(self.label, "Blob") && same_text(name, "BinaryData") {
            match first(properties) {
                Some(p) => match p.get_binary() {
                    Some(binary) => {
                        match &mut self.value {
                            Some(PropertyNodeValue::Blob(vec)) => {
                                let mut copy = copy_of(binary);
                                vec.append(&mut copy);
                            },
                            _ => {},
                        }
                    },
                    None => {},
                },
                None => {},
            }
        }
        ignore_current_node(reader)
    }
}

} // verus!
