//! The universal scalar representation of a single record field.

use vstd::prelude::*;

verus! {

/// The kind of a scalar value: text or flag. A record type's schema pairs
/// each field identifier with the kind the field is expected to carry.
#[derive(Clone, Copy, Debug, PartialEq, Eq, Structural)]
pub enum Kind {
    Text,
    Flag,
}

/// The wire representation of one field: a closed tagged union of exactly
/// two variants, with no implicit coercion between them. Dates, counts and
/// percentages travel as `Text` and are interpreted by the consumer.
#[derive(Clone, Debug)]
pub enum Value {
    Text(String),
    Flag(bool),
}

/// The mathematical model of a [`Value`]: the same two-variant union over
/// a character sequence instead of an owned string.
pub enum SpecValue {
    Text(Seq<char>),
    Flag(bool),
}

impl View for Value {
    type V = SpecValue;

    open spec fn view(&self) -> SpecValue {
        match self {
            Value::Text(s) => SpecValue::Text(s@),
            Value::Flag(b) => SpecValue::Flag(*b),
        }
    }
}

/// The kind a scalar value carries.
pub open spec fn kind_of(v: SpecValue) -> Kind {
    match v {
        SpecValue::Text(_) => Kind::Text,
        SpecValue::Flag(_) => Kind::Flag,
    }
}

/// The models of a sequence of values, element by element.
pub open spec fn views_of(s: Seq<Value>) -> Seq<SpecValue> {
    s.map_values(|v: Value| v@)
}

impl Value {
    /// The kind this value carries, computed.
    pub fn kind(&self) -> (k: Kind)
        ensures
            k == kind_of(self@),
    {
        match self {
            Value::Text(_) => Kind::Text,
            Value::Flag(_) => Kind::Flag,
        }
    }

    /// The text payload of a `Text` value.
    pub(crate) fn take_text(&self) -> (s: String)
        requires
            self@ is Text,
        ensures
            s@ == self@->Text_0,
    {
        match self {
            Value::Text(s) => s.clone(),
            Value::Flag(_) => unreached(),
        }
    }

    /// The boolean payload of a `Flag` value.
    pub(crate) fn take_flag(&self) -> (b: bool)
        requires
            self@ is Flag,
        ensures
            b == self@->Flag_0,
    {
        match self {
            Value::Text(_) => unreached(),
            Value::Flag(b) => *b,
        }
    }
}

impl PartialEq for Value {
    /// Structural equality: kind and payload must both match.
    fn eq(&self, other: &Self) -> (r: bool) {
        match (self, other) {
            (Value::Text(a), Value::Text(b)) => *a == *b,
            (Value::Flag(a), Value::Flag(b)) => *a == *b,
            _ => false,
        }
    }
}

impl vstd::std_specs::cmp::PartialEqSpecImpl for Value {
    open spec fn obeys_eq_spec() -> bool {
        true
    }

    open spec fn eq_spec(&self, other: &Self) -> bool {
        self@ == other@
    }
}

} // verus!
