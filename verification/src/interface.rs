//! The two capability contracts every record type satisfies, together with
//! the schema-driven validator they share.

use vstd::prelude::*;
use crate::value::{Kind, SpecValue, Value, kind_of, views_of};

verus! {

/// Error returned by label parsing when no field identifier matches.
/// Carries the offending label for debuggability.
#[derive(Clone, Debug)]
pub struct FieldNotFound {
    pub label: String,
}

impl PartialEq for FieldNotFound {
    fn eq(&self, other: &Self) -> (r: bool) {
        self.label == other.label
    }
}

impl vstd::std_specs::cmp::PartialEqSpecImpl for FieldNotFound {
    open spec fn obeys_eq_spec() -> bool {
        true
    }

    open spec fn eq_spec(&self, other: &Self) -> bool {
        self.label@ == other.label@
    }
}

/// Error returned by record construction: either one position's scalar kind
/// disagrees with the schema (naming the field and the kind it expects), or
/// the scalar sequence has the wrong length altogether.
#[derive(Clone, Copy, Debug, PartialEq, Eq)]
pub enum SchemaError<F> {
    TypeMismatch(F, Kind),
    ArityMismatch,
}

/// Positional, left-to-right validation of a scalar sequence against a
/// schema: a sequence of the wrong length is an arity mismatch; otherwise
/// the first position whose kind disagrees with the schema decides, and a
/// sequence that agrees everywhere passes.
pub open spec fn check_spec<F>(schema: Seq<(F, Kind)>, vs: Seq<SpecValue>) -> Result<(), SchemaError<F>>
    decreases schema.len(),
{
    if vs.len() != schema.len() {
        Err(SchemaError::ArityMismatch)
    } else if schema.len() == 0 {
        Ok(())
    } else if kind_of(vs[0]) != schema[0].1 {
        Err(SchemaError::TypeMismatch(schema[0].0, schema[0].1))
    } else {
        check_spec(schema.drop_first(), vs.drop_first())
    }
}

/// Validation passes exactly when the lengths agree and every position
/// carries the kind its schema entry expects.
pub proof fn lemma_check_spec_ok_iff<F>(schema: Seq<(F, Kind)>, vs: Seq<SpecValue>)
    ensures
        check_spec(schema, vs) is Ok <==> (vs.len() == schema.len() && forall|i: int|
            0 <= i < schema.len() ==> kind_of(vs[i]) == schema[i].1),
    decreases schema.len(),
{
    if vs.len() == schema.len() && schema.len() > 0 && kind_of(vs[0]) == schema[0].1 {
        lemma_check_spec_ok_iff(schema.drop_first(), vs.drop_first());
        if check_spec(schema, vs) is Ok {
            assert forall|i: int| 0 <= i < schema.len() implies kind_of(vs[i]) == schema[i].1 by {
                if i > 0 {
                    assert(vs.drop_first()[i - 1] == vs[i]);
                    assert(schema.drop_first()[i - 1] == schema[i]);
                }
            }
        } else {
            assert(exists|i: int|
                0 <= i < schema.drop_first().len() && kind_of(vs.drop_first()[i])
                    != schema.drop_first()[i].1);
            let i = choose|i: int|
                0 <= i < schema.drop_first().len() && kind_of(vs.drop_first()[i])
                    != schema.drop_first()[i].1;
            assert(kind_of(vs[i + 1]) != schema[i + 1].1);
        }
    }
}

/// Fail-fast ordering: when the lengths agree and position `i` is the
/// lowest position whose kind disagrees with the schema, validation reports
/// exactly that position's field and expected kind.
pub proof fn lemma_check_spec_mismatch<F>(schema: Seq<(F, Kind)>, vs: Seq<SpecValue>, i: int)
    requires
        vs.len() == schema.len(),
        0 <= i < schema.len(),
        kind_of(vs[i]) != schema[i].1,
        forall|k: int| 0 <= k < i ==> kind_of(vs[k]) == schema[k].1,
    ensures
        check_spec(schema, vs) == Err::<(), SchemaError<F>>(
            SchemaError::TypeMismatch(schema[i].0, schema[i].1),
        ),
    decreases i,
{
    if i > 0 {
        assert forall|k: int| 0 <= k < i - 1 implies kind_of(vs.drop_first()[k])
            == schema.drop_first()[k].1 by {
            assert(vs.drop_first()[k] == vs[k + 1]);
            assert(schema.drop_first()[k] == schema[k + 1]);
        }
        assert(vs.drop_first()[i - 1] == vs[i]);
        assert(schema.drop_first()[i - 1] == schema[i]);
        lemma_check_spec_mismatch(schema.drop_first(), vs.drop_first(), i - 1);
    }
}

/// The position of field identifier `f` in a schema: the lowest index whose
/// entry names `f`.
pub open spec fn field_index<F>(schema: Seq<(F, Kind)>, f: F) -> int
    decreases schema.len(),
{
    if schema.len() == 0 {
        0
    } else if schema[0].0 == f {
        0
    } else {
        1 + field_index(schema.drop_first(), f)
    }
}

/// When position `i` is the lowest schema entry naming `f`, that is the
/// field's index.
pub proof fn lemma_field_index_at<F>(schema: Seq<(F, Kind)>, f: F, i: int)
    requires
        0 <= i < schema.len(),
        schema[i].0 == f,
        forall|k: int| 0 <= k < i ==> schema[k].0 != f,
    ensures
        field_index(schema, f) == i,
    decreases i,
{
    if i > 0 {
        assert forall|k: int| 0 <= k < i - 1 implies schema.drop_first()[k].0 != f by {
            assert(schema.drop_first()[k] == schema[k + 1]);
        }
        assert(schema.drop_first()[i - 1] == schema[i]);
        lemma_field_index_at(schema.drop_first(), f, i - 1);
    }
}

/// Relies on `str`'s `PartialEq`: two string slices are equal exactly when
/// their character sequences are equal.
#[verifier::external_body]
pub(crate) fn str_eq(a: &str, b: &str) -> (r: bool)
    ensures
        r == (a@ == b@),
{
    a == b
}

/// The generic validator behind every record type's construction: checks a
/// scalar sequence against a schema, positionally and fail-fast.
pub fn check_fields<F: Copy>(schema: &Vec<(F, Kind)>, values: &[Value]) -> (r: Result<
    (),
    SchemaError<F>,
>)
    ensures
        r == check_spec(schema@, views_of(values@)),
{
    if values.len() != schema.len() {
        return Err(SchemaError::ArityMismatch);
    }
    let n = schema.len();
    let mut i: usize = 0;
    while i < n
        invariant
            n == schema@.len(),
            values@.len() == n,
            i <= n,
            forall|k: int| 0 <= k < i ==> kind_of(#[trigger] views_of(values@)[k]) == schema@[k].1,
        decreases n - i,
    {
        let expected = schema[i].1;
        let got = values[i].kind();
        proof {
            assert(views_of(values@)[i as int] == values@[i as int]@);
        }
        if got != expected {
            proof {
                lemma_check_spec_mismatch(schema@, views_of(values@), i as int);
            }
            return Err(SchemaError::TypeMismatch(schema[i].0, expected));
        }
        i += 1;
    }
    proof {
        assert(views_of(values@).len() == values@.len());
        lemma_check_spec_ok_iff(schema@, views_of(values@));
        assert(check_spec(schema@, views_of(values@))->Ok_0 == ());
    }
    Ok(())
}

/// The field-naming capability: a closed enumeration of one record type's
/// field identifiers, each with a canonical human-readable label and a
/// parser from labels back to identifiers.
pub trait FieldName: Sized + Copy {
    /// The canonical display label of this identifier.
    spec fn label_spec(self) -> Seq<char>;

    /// The label table read backwards: the identifier a label denotes, if
    /// any. Matching is exact; no normalization is performed.
    spec fn parse_spec(s: Seq<char>) -> Option<Self>;

    /// Whether this identifier's display label is also the exact string its
    /// parser accepts for it. This holds of every identifier except the
    /// historical label anomalies that concrete record types document.
    spec fn label_invertible(self) -> bool;

    /// The canonical display label, computed.
    fn to_label(self) -> (r: String)
        ensures
            r@ == self.label_spec(),
    ;

    /// Parses a display label back to an identifier; fails with the
    /// offending label when no identifier matches.
    fn from_label(s: &str) -> (r: Result<Self, FieldNotFound>)
        ensures
            match Self::parse_spec(s@) {
                Some(f) => r == Ok::<Self, FieldNotFound>(f),
                None => r matches Err(e) && e.label@ == s@,
            },
    ;

    /// Law: parsing an identifier's own label yields the identifier back,
    /// for every identifier whose label is not a documented anomaly.
    proof fn lemma_label_inverse(self)
        requires
            self.label_invertible(),
        ensures
            Self::parse_spec(self.label_spec()) == Some(self),
    ;
}

/// The record capability: conversion between one record type and the
/// ordered scalar sequence its schema prescribes.
pub trait Entry: View + Sized {
    type FieldNames: FieldName;

    /// The ordered schema: every field identifier of this record type,
    /// paired with the scalar kind the field carries.
    spec fn schema_spec() -> Seq<(Self::FieldNames, Kind)>;

    /// Decomposition of a record model into scalars, in schema order.
    spec fn decompose_spec(m: Self::V) -> Seq<SpecValue>;

    /// Construction of a record model from scalars; meaningful for
    /// schema-valid sequences.
    spec fn construct_spec(vs: Seq<SpecValue>) -> Self::V;

    /// The schema, computed.
    fn schema() -> (r: Vec<(Self::FieldNames, Kind)>)
        ensures
            r@ == Self::schema_spec(),
    ;

    /// Builds a record from an ordered scalar sequence, validating
    /// positionally and fail-fast against the schema.
    fn from_fields(values: &[Value]) -> (r: Result<Self, SchemaError<Self::FieldNames>>)
        ensures
            match check_spec(Self::schema_spec(), views_of(values@)) {
                Ok(u) => r matches Ok(rec) && rec@ == Self::construct_spec(views_of(values@)),
                Err(e) => r == Err::<Self, SchemaError<Self::FieldNames>>(e),
            },
    ;

    /// The exhaustive, schema-ordered field identifier list.
    fn get_field_names() -> (r: Vec<Self::FieldNames>)
        ensures
            r@.len() == Self::schema_spec().len(),
            forall|i: int| 0 <= i < r@.len() ==> r@[i] == Self::schema_spec()[i].0,
    ;

    /// Decomposes the record into one scalar per field, in schema order.
    fn get_fields(&self) -> (r: Vec<Value>)
        ensures
            views_of(r@) == Self::decompose_spec(self@),
    ;

    /// Reads one field, re-wrapped as a scalar: the element at the
    /// identifier's schema position of the record's decomposition. Total,
    /// since the identifier enumeration is closed.
    fn get_field(&self, field_name: Self::FieldNames) -> (r: Option<Value>)
        ensures
            r matches Some(v) && v@ == Self::decompose_spec(self@)[field_index(
                Self::schema_spec(),
                field_name,
            )],
    ;

    /// Law: every schema-valid scalar sequence round-trips through
    /// construction and back.
    proof fn lemma_construct_then_decompose(vs: Seq<SpecValue>)
        requires
            check_spec(Self::schema_spec(), vs) is Ok,
        ensures
            Self::decompose_spec(Self::construct_spec(vs)) == vs,
    ;

    /// Law: every record round-trips through decomposition and back, and
    /// its decomposition is schema-valid.
    proof fn lemma_decompose_then_construct(m: Self::V)
        ensures
            check_spec(Self::schema_spec(), Self::decompose_spec(m)) is Ok,
            Self::construct_spec(Self::decompose_spec(m)) == m,
    ;
}

} // verus!
