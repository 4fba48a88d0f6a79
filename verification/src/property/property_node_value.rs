//! The value of a property record.

use vstd::prelude::*;
use crate::event::{doubles, singles, to_doubles, to_singles, Number};
use crate::utils::copy_of;

verus! {

/// The value of a property record.
#[derive(Debug)]
pub enum PropertyNodeValue {
    Empty,
    Blob(Vec<u8>),
    /// Text, or the raw bytes where they are not UTF-8.
    String(Result<String, Vec<u8>>),
    F32(Number),
    F64(Number),
    VecF32(Vec<Number>),
    VecF64(Vec<Number>),
    I64(i64),
    VecI64(Vec<i64>),
}

/// The value of a property record, as a mathematical value.
pub ghost enum PropertyValue {
    Empty,
    Blob(Seq<u8>),
    Text(Seq<char>),
    RawText(Seq<u8>),
    F32(Number),
    F64(Number),
    VecF32(Seq<Number>),
    VecF64(Seq<Number>),
    I64(i64),
    VecI64(Seq<i64>),
}

impl View for PropertyNodeValue {
    type V = PropertyValue;

    open spec fn view(&self) -> PropertyValue {
        match self {
            PropertyNodeValue::Empty => PropertyValue::Empty,
            PropertyNodeValue::Blob(v) => PropertyValue::Blob(v@),
            PropertyNodeValue::String(Ok(s)) => PropertyValue::Text(s@),
            PropertyNodeValue::String(Err(v)) => PropertyValue::RawText(v@),
            PropertyNodeValue::F32(v) => PropertyValue::F32(*v),
            PropertyNodeValue::F64(v) => PropertyValue::F64(*v),
            PropertyNodeValue::VecF32(v) => PropertyValue::VecF32(v@),
            PropertyNodeValue::VecF64(v) => PropertyValue::VecF64(v@),
            PropertyNodeValue::I64(v) => PropertyValue::I64(*v),
            PropertyNodeValue::VecI64(v) => PropertyValue::VecI64(v@),
        }
    }
}

impl Clone for PropertyNodeValue {
    fn clone(&self) -> (r: Self)
        ensures
            r@ == self@,
    {
        match self {
            PropertyNodeValue::Empty => PropertyNodeValue::Empty,
            PropertyNodeValue::Blob(v) => PropertyNodeValue::Blob(copy_of(v)),
            PropertyNodeValue::String(Ok(s)) => PropertyNodeValue::String(Ok(s.clone())),
            PropertyNodeValue::String(Err(v)) => PropertyNodeValue::String(Err(copy_of(v))),
            PropertyNodeValue::F32(v) => PropertyNodeValue::F32(*v),
            PropertyNodeValue::F64(v) => PropertyNodeValue::F64(*v),
            PropertyNodeValue::VecF32(v) => PropertyNodeValue::VecF32(copy_of(v)),
            PropertyNodeValue::VecF64(v) => PropertyNodeValue::VecF64(copy_of(v)),
            PropertyNodeValue::I64(v) => PropertyNodeValue::I64(*v),
            PropertyNodeValue::VecI64(v) => PropertyNodeValue::VecI64(copy_of(v)),
        }
    }
}

impl PropertyValue {
    /// The bytes of a blob.
    pub open spec fn blob(self) -> Option<Seq<u8>> {
        match self {
            PropertyValue::Blob(v) => Some(v),
            _ => None,
        }
    }

    /// The text of a value that is valid text.
    pub open spec fn text(self) -> Option<Seq<char>> {
        match self {
            PropertyValue::Text(s) => Some(s),
            _ => None,
        }
    }

    /// Whether the value is text, valid or raw.
    pub open spec fn is_text_or_raw(self) -> bool {
        self is Text || self is RawText
    }

    /// The number of a scalar floating point value of either width.
    pub open spec fn number(self) -> Option<Number> {
        match self {
            PropertyValue::F32(v) => Some(v),
            PropertyValue::F64(v) => Some(v),
            _ => None,
        }
    }

    /// The numbers of a floating point array of either width.
    pub open spec fn numbers(self) -> Option<Seq<Number>> {
        match self {
            PropertyValue::VecF32(v) => Some(v),
            PropertyValue::VecF64(v) => Some(v),
            _ => None,
        }
    }

    /// The value of a scalar integer.
    pub open spec fn long(self) -> Option<i64> {
        match self {
            PropertyValue::I64(v) => Some(v),
            _ => None,
        }
    }

    /// The values of an integer array.
    pub open spec fn longs(self) -> Option<Seq<i64>> {
        match self {
            PropertyValue::VecI64(v) => Some(v),
            _ => None,
        }
    }
}

impl PropertyNodeValue {
    pub fn get_vec_u8(&self) -> (r: Option<&Vec<u8>>)
        ensures
            r is Some == self@.blob() is Some,
            r matches Some(v) ==> self@.blob() == Some(v@),
    {
        match self {
            PropertyNodeValue::Blob(val) => Some(val),
            _ => None,
        }
    }

    pub fn into_vec_u8(self) -> (r: Result<Vec<u8>, Self>)
        ensures
            match self@.blob() {
                Some(bytes) => r is Ok && r->Ok_0@ == bytes,
                None => r == Err::<Vec<u8>, Self>(self),
            },
    {
        match self {
            PropertyNodeValue::Blob(val) => Ok(val),
            val => Err(val),
        }
    }

    pub fn get_string(&self) -> (r: Option<&String>)
        ensures
            r is Some == self@.text() is Some,
            r matches Some(s) ==> self@.text() == Some(s@),
    {
        match self {
            PropertyNodeValue::String(Ok(val)) => Some(val),
            _ => None,
        }
    }

    pub fn into_string(self) -> (r: Result<String, Self>)
        ensures
            match self@.text() {
                Some(text) => r is Ok && r->Ok_0@ == text,
                None => r == Err::<String, Self>(self),
            },
    {
        match self {
            PropertyNodeValue::String(Ok(val)) => Ok(val),
            val => Err(val),
        }
    }

    pub fn get_string_or_raw(&self) -> (r: Option<&Result<String, Vec<u8>>>)
        ensures
            r is Some == self@.is_text_or_raw(),
            r matches Some(s) ==> *self == PropertyNodeValue::String(*s),
    {
        match self {
            PropertyNodeValue::String(val) => Some(val),
            _ => None,
        }
    }

    pub fn into_string_or_raw(self) -> (r: Result<Result<String, Vec<u8>>, Self>)
        ensures
            self@.is_text_or_raw() ==> r is Ok && self == PropertyNodeValue::String(r->Ok_0),
            !self@.is_text_or_raw() ==> r == Err::<Result<String, Vec<u8>>, Self>(self),
    {
        match self {
            PropertyNodeValue::String(val) => Ok(val),
            val => Err(val),
        }
    }

    /// The number of a scalar floating point value of either width, in
    /// single precision.
    pub fn get_f32(&self) -> (r: Option<u32>)
        ensures
            r == crate::event::singles_of(self@.number()),
    {
        match self {
            PropertyNodeValue::F32(val) => Some(val.single),
            PropertyNodeValue::F64(val) => Some(val.single),
            _ => None,
        }
    }

    pub fn into_f32(self) -> (r: Result<u32, Self>)
        ensures
            match self@.number() {
                Some(n) => r == Ok::<u32, Self>(n.single),
                None => r == Err::<u32, Self>(self),
            },
    {
        match self {
            PropertyNodeValue::F32(val) => Ok(val.single),
            PropertyNodeValue::F64(val) => Ok(val.single),
            val => Err(val),
        }
    }

    /// The number of a scalar floating point value of either width, in
    /// double precision.
    pub fn get_f64(&self) -> (r: Option<u64>)
        ensures
            r == crate::event::doubles_of(self@.number()),
    {
        match self {
            PropertyNodeValue::F32(val) => Some(val.double),
            PropertyNodeValue::F64(val) => Some(val.double),
            _ => None,
        }
    }

    pub fn into_f64(self) -> (r: Result<u64, Self>)
        ensures
            match self@.number() {
                Some(n) => r == Ok::<u64, Self>(n.double),
                None => r == Err::<u64, Self>(self),
            },
    {
        match self {
            PropertyNodeValue::F32(val) => Ok(val.double),
            PropertyNodeValue::F64(val) => Ok(val.double),
            val => Err(val),
        }
    }

    /// The numbers of a floating point array of either width, in single
    /// precision.
    pub fn get_vec_f32(&self) -> (r: Option<Vec<u32>>)
        ensures
            match self@.numbers() {
                Some(numbers) => r is Some && r->0@ == singles(numbers),
                None => r is None,
            },
    {
        match self {
            PropertyNodeValue::VecF32(val) => Some(to_singles(val)),
            PropertyNodeValue::VecF64(val) => Some(to_singles(val)),
            _ => None,
        }
    }

    pub fn into_vec_f32(self) -> (r: Result<Vec<u32>, Self>)
        ensures
            match self@.numbers() {
                Some(numbers) => r is Ok && r->Ok_0@ == singles(numbers),
                None => r == Err::<Vec<u32>, Self>(self),
            },
    {
        match self {
            PropertyNodeValue::VecF32(val) => Ok(to_singles(&val)),
            PropertyNodeValue::VecF64(val) => Ok(to_singles(&val)),
            val => Err(val),
        }
    }

    /// The numbers of a floating point array of either width, in double
    /// precision.
    pub fn get_vec_f64(&self) -> (r: Option<Vec<u64>>)
        ensures
            match self@.numbers() {
                Some(numbers) => r is Some && r->0@ == doubles(numbers),
                None => r is None,
            },
    {
        match self {
            PropertyNodeValue::VecF32(val) => Some(to_doubles(val)),
            PropertyNodeValue::VecF64(val) => Some(to_doubles(val)),
            _ => None,
        }
    }

    pub fn into_vec_f64(self) -> (r: Result<Vec<u64>, Self>)
        ensures
            match self@.numbers() {
                Some(numbers) => r is Ok && r->Ok_0@ == doubles(numbers),
                None => r == Err::<Vec<u64>, Self>(self),
            },
    {
        match self {
            PropertyNodeValue::VecF32(val) => Ok(to_doubles(&val)),
            PropertyNodeValue::VecF64(val) => Ok(to_doubles(&val)),
            val => Err(val),
        }
    }

    pub fn get_i64(&self) -> (r: Option<i64>)
        ensures
            r == self@.long(),
    {
        match self {
            PropertyNodeValue::I64(val) => Some(*val),
            _ => None,
        }
    }

    pub fn into_i64(self) -> (r: Result<i64, Self>)
        ensures
            match self@.long() {
                Some(v) => r == Ok::<i64, Self>(v),
                None => r == Err::<i64, Self>(self),
            },
    {
        match self {
            PropertyNodeValue::I64(val) => Ok(val),
            val => Err(val),
        }
    }

    pub fn get_vec_i64(&self) -> (r: Option<&Vec<i64>>)
        ensures
            r is Some == self@.longs() is Some,
            r matches Some(v) ==> self@.longs() == Some(v@),
    {
        match self {
            PropertyNodeValue::VecI64(val) => Some(val),
            _ => None,
        }
    }

    pub fn into_vec_i64(self) -> (r: Result<Vec<i64>, Self>)
        ensures
            match self@.longs() {
                Some(values) => r is Ok && r->Ok_0@ == values,
                None => r == Err::<Vec<i64>, Self>(self),
            },
    {
        match self {
            PropertyNodeValue::VecI64(val) => Ok(val),
            val => Err(val),
        }
    }
}

} // verus!
