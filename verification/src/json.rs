//! The shape of an outgoing message, ready to be written as JSON.

use crate::float_bits::{Bits32, Bits64};
use vstd::prelude::*;

verus! {

/// A JSON value. Numbers keep the width in which they are to be written.
pub enum Json {
    Null,
    Count(usize),
    Number32(Bits32),
    Number64(Bits64),
    Text(String),
    Array(Vec<Json>),
    Object(Vec<Field>),
}

/// A named member of an object. Members are written in order.
pub struct Field {
    pub name: &'static str,
    pub value: Json,
}

impl Json {
    pub open spec fn is_text(self, text: Seq<char>) -> bool {
        self matches Json::Text(t) && t@ == text
    }

    pub open spec fn is_optional_text(self, text: Option<Seq<char>>) -> bool {
        match text {
            Some(t) => self.is_text(t),
            None => self is Null,
        }
    }

    pub open spec fn is_optional_number(self, number: Option<Bits32>) -> bool {
        match number {
            Some(n) => self == Json::Number32(n),
            None => self is Null,
        }
    }

    /// The members of an object.
    pub open spec fn members(self) -> Seq<Field> {
        match self {
            Json::Object(fields) => fields@,
            _ => Seq::empty(),
        }
    }

    /// The items of an array.
    pub open spec fn items(self) -> Seq<Json> {
        match self {
            Json::Array(items) => items@,
            _ => Seq::empty(),
        }
    }

    /// The value of the `i`-th member.
    pub open spec fn member(self, i: int) -> Json {
        self.members()[i].value
    }

    /// The names of an object's members, in order.
    pub open spec fn names(self) -> Seq<Seq<char>> {
        Seq::new(self.members().len(), |i: int| self.members()[i].name@)
    }

    /// A text, or `null` for an absent one.
    pub fn optional_text(text: &Option<String>) -> (r: Json)
        ensures
            r.is_optional_text(
                match *text {
                    Some(t) => Some(t@),
                    None => None,
                },
            ),
    {
        match text {
            Some(t) => Json::Text(t.clone()),
            None => Json::Null,
        }
    }

    /// A number, or `null` for an absent one.
    pub fn optional_number(number: Option<Bits32>) -> (r: Json)
        ensures
            r.is_optional_number(number),
    {
        match number {
            Some(n) => Json::Number32(n),
            None => Json::Null,
        }
    }
}

} // verus!
