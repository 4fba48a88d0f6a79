//! The events that a scene is read from.
//!
//! A scene arrives as a flat sequence of events: a node starts (with its name
//! and its cells), a node ends, the data ends. Cells are typed values. Verus
//! does not reason about floating point, so a floating point number travels
//! as its IEEE 754 bit pattern, and whoever builds the events supplies each
//! number in both widths.

use vstd::prelude::*;
use crate::error::{Error, Result};

verus! {

/// A floating point number, given in both precisions by its IEEE 754 bit
/// patterns.
///
/// For a number that was read in single precision, `double` is the same
/// number widened. For a number that was read in double precision, `single`
/// is the nearest single precision number.
#[derive(Debug, Clone, Copy, PartialEq, Eq, Structural)]
pub struct Number {
    pub single: u32,
    pub double: u64,
}

/// One cell of a node.
#[derive(Debug)]
pub enum Property {
    Bool(bool),
    I16(i16),
    I32(i32),
    I64(i64),
    F32(Number),
    F64(Number),
    VecBool(Vec<bool>),
    VecI32(Vec<i32>),
    VecI64(Vec<i64>),
    VecF32(Vec<Number>),
    VecF64(Vec<Number>),
    /// Text, or the raw bytes where they are not UTF-8.
    String(std::result::Result<String, Vec<u8>>),
    Binary(Vec<u8>),
}

/// One event of the sequence.
#[derive(Debug)]
pub enum FbxEvent {
    StartNode { name: String, properties: Vec<Property> },
    EndNode,
    EndFbx,
}

/// A cursor over a sequence of events.
pub struct EventReader<'a> {
    events: &'a Vec<FbxEvent>,
    pos: usize,
}

impl<'a> EventReader<'a> {
    /// The whole sequence, read or not.
    pub closed spec fn events(&self) -> Seq<FbxEvent> {
        self.events@
    }

    /// How many events have been read.
    pub closed spec fn position(&self) -> int {
        self.pos as int
    }

    pub fn new(events: &'a Vec<FbxEvent>) -> (reader: Self)
        ensures
            reader.events() == events@,
            reader.position() == 0,
    {
        EventReader { events, pos: 0 }
    }

    /// Reads one event. Past the last event this is an error, and the cursor stays.
    pub fn next(&mut self) -> (r: Result<&'a FbxEvent>)
        ensures
            final(self).events() == old(self).events(),
            0 <= old(self).position(),
            old(self).events().len() <= usize::MAX,
            old(self).position() < old(self).events().len() ==> r is Ok
                && *r->Ok_0 == old(self).events()[old(self).position()]
                && final(self).position() == old(self).position() + 1,
            old(self).position() >= old(self).events().len() ==> r is Err
                && r->Err_0.is_truncated()
                && final(self).position() == old(self).position(),
    {
        if self.pos < self.events.len() {
            let event = &self.events[self.pos];
            self.pos = self.pos + 1;
            Ok(event)
        } else {
            Err(Error::truncated())
        }
    }
}

impl Property {
    /// The text of a text cell that is valid UTF-8.
    pub open spec fn text(&self) -> Option<Seq<char>> {
        match self {
            Property::String(Ok(s)) => Some(s@),
            _ => None,
        }
    }

    /// The value of a 64 bit integer cell.
    pub open spec fn long(&self) -> Option<i64> {
        match self {
            Property::I64(v) => Some(*v),
            _ => None,
        }
    }

    /// The value of a 32 bit integer cell.
    pub open spec fn int32(&self) -> Option<i32> {
        match self {
            Property::I32(v) => Some(*v),
            _ => None,
        }
    }

    /// The value of a boolean cell.
    pub open spec fn boolean(&self) -> Option<bool> {
        match self {
            Property::Bool(v) => Some(*v),
            _ => None,
        }
    }

    /// The bytes of a binary cell.
    pub open spec fn binary(&self) -> Option<Seq<u8>> {
        match self {
            Property::Binary(v) => Some(v@),
            _ => None,
        }
    }

    /// The values of a cell that is an array of 32 bit integers.
    pub open spec fn int32s(&self) -> Option<Seq<i32>> {
        match self {
            Property::VecI32(v) => Some(v@),
            _ => None,
        }
    }

    /// The value of an integer cell of any width, widened to 64 bits.
    pub open spec fn widened_long(&self) -> Option<i64> {
        match self {
            Property::I16(v) => Some(*v as i64),
            Property::I32(v) => Some(*v as i64),
            Property::I64(v) => Some(*v),
            _ => None,
        }
    }

    /// The number in a floating point cell of either width.
    pub open spec fn number(&self) -> Option<Number> {
        match self {
            Property::F32(v) => Some(*v),
            Property::F64(v) => Some(*v),
            _ => None,
        }
    }

    /// The numbers in a cell that is an array of floating point numbers of
    /// either width.
    pub open spec fn numbers(&self) -> Option<Seq<Number>> {
        match self {
            Property::VecF32(v) => Some(v@),
            Property::VecF64(v) => Some(v@),
            _ => None,
        }
    }

    pub fn get_string(&self) -> (r: Option<&str>)
        ensures
            r is Some == self.text() is Some,
            r matches Some(s) ==> self.text() == Some(s@),
    {
        match self {
            Property::String(Ok(s)) => Some(s.as_str()),
            _ => None,
        }
    }

    pub fn get_i64(&self) -> (r: Option<i64>)
        ensures
            r == self.long(),
    {
        match self {
            Property::I64(v) => Some(*v),
            _ => None,
        }
    }

    pub fn get_i32(&self) -> (r: Option<i32>)
        ensures
            r == self.int32(),
    {
        match self {
            Property::I32(v) => Some(*v),
            _ => None,
        }
    }

    pub fn get_bool(&self) -> (r: Option<bool>)
        ensures
            r == self.boolean(),
    {
        match self {
            Property::Bool(v) => Some(*v),
            _ => None,
        }
    }

    pub fn get_binary(&self) -> (r: Option<&Vec<u8>>)
        ensures
            r is Some == self.binary() is Some,
            r matches Some(v) ==> self.binary() == Some(v@),
    {
        match self {
            Property::Binary(v) => Some(v),
            _ => None,
        }
    }

    pub fn get_vec_i32(&self) -> (r: Option<&Vec<i32>>)
        ensures
            r is Some == self.int32s() is Some,
            r matches Some(v) ==> self.int32s() == Some(v@),
    {
        match self {
            Property::VecI32(v) => Some(v),
            _ => None,
        }
    }

    pub fn as_i64(&self) -> (r: Option<i64>)
        ensures
            r == self.widened_long(),
    {
        match self {
            Property::I16(v) => Some(*v as i64),
            Property::I32(v) => Some(*v as i64),
            Property::I64(v) => Some(*v),
            _ => None,
        }
    }

    /// The number in a floating point cell of either width, in single precision.
    pub fn as_f32(&self) -> (r: Option<u32>)
        ensures
            r == singles_of(self.number()),
    {
        match self {
            Property::F32(v) => Some(v.single),
            Property::F64(v) => Some(v.single),
            _ => None,
        }
    }

    /// The number in a floating point cell of either width, in double precision.
    pub fn as_f64(&self) -> (r: Option<u64>)
        ensures
            r == doubles_of(self.number()),
    {
        match self {
            Property::F32(v) => Some(v.double),
            Property::F64(v) => Some(v.double),
            _ => None,
        }
    }

    /// The numbers in an array cell of floating point numbers of either width.
    pub fn get_numbers(&self) -> (r: Option<&Vec<Number>>)
        ensures
            r is Some == self.numbers() is Some,
            r matches Some(v) ==> self.numbers() == Some(v@),
    {
        match self {
            Property::VecF32(v) => Some(v),
            Property::VecF64(v) => Some(v),
            _ => None,
        }
    }

    /// The numbers in an array cell of floating point numbers of either
    /// width, in single precision.
    pub fn as_vec_f32(&self) -> (r: Option<Vec<u32>>)
        ensures
            r is Some == self.numbers() is Some,
            r matches Some(v) ==> v@ == singles(self.numbers()->0),
    {
        match self.get_numbers() {
            Some(v) => Some(to_singles(v)),
            None => None,
        }
    }
}

/// The single precision bit pattern of a number that may be missing.
pub open spec fn singles_of(number: Option<Number>) -> Option<u32> {
    match number {
        Some(v) => Some(v.single),
        None => None,
    }
}

/// The double precision bit pattern of a number that may be missing.
pub open spec fn doubles_of(number: Option<Number>) -> Option<u64> {
    match number {
        Some(v) => Some(v.double),
        None => None,
    }
}

/// The single precision bit patterns of a sequence of numbers.
pub open spec fn singles(numbers: Seq<Number>) -> Seq<u32> {
    numbers.map_values(|x: Number| x.single)
}

/// The double precision bit patterns of a sequence of numbers.
pub open spec fn doubles(numbers: Seq<Number>) -> Seq<u64> {
    numbers.map_values(|x: Number| x.double)
}

/// The single precision bit patterns of some numbers.
pub fn to_singles(numbers: &Vec<Number>) -> (out: Vec<u32>)
    ensures
        out@ == singles(numbers@),
{
    let mut out: Vec<u32> = Vec::with_capacity(numbers.len());
    let mut i: usize = 0;
    while i < numbers.len()
        invariant
            i <= numbers.len(),
            out@ == singles(numbers@.take(i as int)),
        decreases numbers.len() - i,
    {
        out.push(numbers[i].single);
        proof {
            assert(singles(numbers@.take(i + 1)) =~= singles(numbers@.take(i as int)).push(
                numbers[i as int].single,
            ));
        }
        i = i + 1;
    }
    proof {
        assert(numbers@.take(numbers.len() as int) =~= numbers@);
    }
    out
}

/// The double precision bit patterns of some numbers.
pub fn to_doubles(numbers: &Vec<Number>) -> (out: Vec<u64>)
    ensures
        out@ == doubles(numbers@),
{
    let mut out: Vec<u64> = Vec::with_capacity(numbers.len());
    let mut i: usize = 0;
    while i < numbers.len()
        invariant
            i <= numbers.len(),
            out@ == doubles(numbers@.take(i as int)),
        decreases numbers.len() - i,
    {
        out.push(numbers[i].double);
        proof {
            assert(doubles(numbers@.take(i + 1)) =~= doubles(numbers@.take(i as int)).push(
                numbers[i as int].double,
            ));
        }
        i = i + 1;
    }
    proof {
        assert(numbers@.take(numbers.len() as int) =~= numbers@);
    }
    out
}

/// A single pass over the cells of a node.
pub struct PropertiesIter<'a> {
    cells: &'a Vec<Property>,
    at: usize,
}

impl<'a> PropertiesIter<'a> {
    /// The cells that have not been handed out yet.
    pub closed spec fn remaining(&self) -> Seq<Property> {
        if self.at <= self.cells@.len() {
            self.cells@.skip(self.at as int)
        } else {
            Seq::empty()
        }
    }

    pub fn new(cells: &'a Vec<Property>) -> (iter: Self)
        ensures
            iter.remaining() == cells@,
    {
        PropertiesIter { cells, at: 0 }
    }

    /// Hands out the next cell, if there is one.
    pub fn next(&mut self) -> (r: Option<&'a Property>)
        ensures
            old(self).remaining().len() == 0 ==> r is None && final(self).remaining()
                == old(self).remaining(),
            old(self).remaining().len() > 0 ==> r is Some && *r->0 == old(self).remaining()[0]
                && final(self).remaining() == old(self).remaining().skip(1),
    {
        if self.at < self.cells.len() {
            let p = &self.cells[self.at];
            proof {
                assert(self.cells@.skip(self.at as int).skip(1) =~= self.cells@.skip(self.at + 1));
            }
            self.at = self.at + 1;
            Some(p)
        } else {
            None
        }
    }
}

/// The first cell, if there is one.
pub fn first<'a>(properties: &'a Vec<Property>) -> (r: Option<&'a Property>)
    ensures
        r is Some == first_of(properties@) is Some,
        r matches Some(p) ==> first_of(properties@) == Some(*p),
{
    if properties.len() > 0 {
        Some(&properties[0])
    } else {
        None
    }
}

/// The first cell of a sequence of cells, if there is one.
pub open spec fn first_of(properties: Seq<Property>) -> Option<Property> {
    cell(properties, 0)
}

/// The cell at `index`, if there is one.
pub open spec fn cell(properties: Seq<Property>, index: int) -> Option<Property> {
    if 0 <= index < properties.len() {
        Some(properties[index])
    } else {
        None
    }
}

/// The text of the first cell, where it is valid text.
pub open spec fn first_text(cells: Seq<Property>) -> Option<Seq<char>> {
    match first_of(cells) {
        Some(p) => p.text(),
        None => None,
    }
}

/// The value of the first cell, where it is a 64 bit integer.
pub open spec fn first_long(cells: Seq<Property>) -> Option<i64> {
    match first_of(cells) {
        Some(p) => p.long(),
        None => None,
    }
}

/// The value of the first cell, where it is an integer of any width.
pub open spec fn first_widened_long(cells: Seq<Property>) -> Option<i64> {
    match first_of(cells) {
        Some(p) => p.widened_long(),
        None => None,
    }
}

/// The value of the first cell, where it is a 32 bit integer.
pub open spec fn first_int32(cells: Seq<Property>) -> Option<i32> {
    match first_of(cells) {
        Some(p) => p.int32(),
        None => None,
    }
}

/// The value of the first cell, where it is a boolean.
pub open spec fn first_boolean(cells: Seq<Property>) -> Option<bool> {
    match first_of(cells) {
        Some(p) => p.boolean(),
        None => None,
    }
}

/// The bytes of the first cell, where it is binary.
pub open spec fn first_binary(cells: Seq<Property>) -> Option<Seq<u8>> {
    match first_of(cells) {
        Some(p) => p.binary(),
        None => None,
    }
}

/// The values of the first cell, where it is an array of 32 bit integers.
pub open spec fn first_int32s(cells: Seq<Property>) -> Option<Seq<i32>> {
    match first_of(cells) {
        Some(p) => p.int32s(),
        None => None,
    }
}

/// The number of the first cell, where it is a floating point number.
pub open spec fn first_number(cells: Seq<Property>) -> Option<Number> {
    match first_of(cells) {
        Some(p) => p.number(),
        None => None,
    }
}

/// The numbers of the first cell, where it is an array of floating point numbers.
pub open spec fn first_numbers(cells: Seq<Property>) -> Option<Seq<Number>> {
    match first_of(cells) {
        Some(p) => p.numbers(),
        None => None,
    }
}

pub fn first_string<'a>(cells: &'a Vec<Property>) -> (r: Option<&'a str>)
    ensures
        r is Some == first_text(cells@) is Some,
        r matches Some(s) ==> first_text(cells@) == Some(s@),
{
    match first(cells) {
        Some(p) => p.get_string(),
        None => None,
    }
}

pub fn first_i64(cells: &Vec<Property>) -> (r: Option<i64>)
    ensures
        r == first_long(cells@),
{
    match first(cells) {
        Some(p) => p.get_i64(),
        None => None,
    }
}

pub fn first_as_i64(cells: &Vec<Property>) -> (r: Option<i64>)
    ensures
        r == first_widened_long(cells@),
{
    match first(cells) {
        Some(p) => p.as_i64(),
        None => None,
    }
}

pub fn first_i32(cells: &Vec<Property>) -> (r: Option<i32>)
    ensures
        r == first_int32(cells@),
{
    match first(cells) {
        Some(p) => p.get_i32(),
        None => None,
    }
}

pub fn first_bool(cells: &Vec<Property>) -> (r: Option<bool>)
    ensures
        r == first_boolean(cells@),
{
    match first(cells) {
        Some(p) => p.get_bool(),
        None => None,
    }
}

pub fn first_bytes<'a>(cells: &'a Vec<Property>) -> (r: Option<&'a Vec<u8>>)
    ensures
        r is Some == first_binary(cells@) is Some,
        r matches Some(v) ==> first_binary(cells@) == Some(v@),
{
    match first(cells) {
        Some(p) => p.get_binary(),
        None => None,
    }
}

pub fn first_vec_i32<'a>(cells: &'a Vec<Property>) -> (r: Option<&'a Vec<i32>>)
    ensures
        r is Some == first_int32s(cells@) is Some,
        r matches Some(v) ==> first_int32s(cells@) == Some(v@),
{
    match first(cells) {
        Some(p) => p.get_vec_i32(),
        None => None,
    }
}

pub fn first_as_f64(cells: &Vec<Property>) -> (r: Option<u64>)
    ensures
        r == doubles_of(first_number(cells@)),
{
    match first(cells) {
        Some(p) => p.as_f64(),
        None => None,
    }
}

pub fn first_as_vec_f32(cells: &Vec<Property>) -> (r: Option<Vec<u32>>)
    ensures
        r is Some == first_numbers(cells@) is Some,
        r matches Some(v) ==> v@ == singles(first_numbers(cells@)->0),
{
    match first(cells) {
        Some(p) => p.as_vec_f32(),
        None => None,
    }
}

/// The text of the first cell, as an owned string.
pub fn first_owned(cells: &Vec<Property>) -> (r: Option<String>)
    ensures
        r is Some == first_text(cells@) is Some,
        r matches Some(s) ==> first_text(cells@) == Some(s@),
{
    match first_string(cells) {
        Some(s) => Some(s.to_owned()),
        None => None,
    }
}

/// The numbers of the first cell, in single precision, where it is an array
/// of floating point numbers.
pub open spec fn first_singles(cells: Seq<Property>) -> Option<Seq<u32>> {
    match first_numbers(cells) {
        Some(numbers) => Some(singles(numbers)),
        None => None,
    }
}

/// The numbers of the first cell, in single precision.
pub fn first_vec_f32(cells: &Vec<Property>) -> (r: Option<Vec<u32>>)
    ensures
        r is Some == first_singles(cells@) is Some,
        r matches Some(v) ==> first_singles(cells@) == Some(v@),
{
    first_as_vec_f32(cells)
}

} // verus!
