//! The hazard record: one hazard statement.

use vstd::prelude::*;
use crate::value::{Kind, SpecValue, Value, kind_of, views_of};
use crate::interface::{
    Entry, FieldName, FieldNotFound, SchemaError, check_fields,
    lemma_check_spec_ok_iff, lemma_field_index_at, str_eq,
};

verus! {

/// One hazard statement; its single field is text.
#[derive(Clone, Debug)]
pub struct Hazard {
    pub statement: String,
}

/// The mathematical model of a [`Hazard`].
pub struct HazardModel {
    pub statement: Seq<char>,
}

impl View for Hazard {
    type V = HazardModel;

    open spec fn view(&self) -> HazardModel {
        HazardModel {
            statement: self.statement@,
        }
    }
}

/// The closed enumeration of a hazard's fields: a single statement.
#[derive(PartialEq, Eq, Structural, Clone, Copy, Debug)]
pub enum HazardFields {
    Statement,
}

impl FieldName for HazardFields {
    open spec fn label_spec(self) -> Seq<char> {
        match self {
            HazardFields::Statement => "Statement"@,
        }
    }

    open spec fn parse_spec(s: Seq<char>) -> Option<HazardFields> {
        if s == "Statement"@ {
            Some(HazardFields::Statement)
        } else {
            None
        }
    }

    open spec fn label_invertible(self) -> bool {
        true
    }

    fn to_label(self) -> (r: String) {
        match self {
            HazardFields::Statement => "Statement".to_owned(),
        }
    }

    fn from_label(s: &str) -> (r: Result<HazardFields, FieldNotFound>) {
        if str_eq(s, "Statement") {
            Ok(HazardFields::Statement)
        } else {
            Err(FieldNotFound { label: s.to_owned() })
        }
    }

    proof fn lemma_label_inverse(self) {
        reveal_strlit("Statement");
    }
}

impl Entry for Hazard {
    type FieldNames = HazardFields;

    open spec fn schema_spec() -> Seq<(HazardFields, Kind)> {
        seq![
            (HazardFields::Statement, Kind::Text),
        ]
    }

    open spec fn decompose_spec(m: HazardModel) -> Seq<SpecValue> {
        seq![
            SpecValue::Text(m.statement),
        ]
    }

    open spec fn construct_spec(vs: Seq<SpecValue>) -> HazardModel {
        HazardModel {
            statement: vs[0]->Text_0,
        }
    }

    fn schema() -> (r: Vec<(HazardFields, Kind)>) {
        let r = vec![
            (HazardFields::Statement, Kind::Text),
        ];
        proof {
            assert(r@ =~= Self::schema_spec());
        }
        r
    }

    fn from_fields(values: &[Value]) -> (r: Result<Hazard, SchemaError<HazardFields>>) {
        let schema = Self::schema();
        match check_fields(&schema, values) {
            Err(e) => Err(e),
            Ok(()) => {
                proof {
                    lemma_check_spec_ok_iff(Self::schema_spec(), views_of(values@));
                    assert(views_of(values@).len() == values@.len());
                    assert forall|i: int|
                        0 <= i < values@.len() implies kind_of(values@[i]@) == Self::schema_spec()[i].1 by {
                        assert(views_of(values@)[i] == values@[i]@);
                    }
                }
                let rec = Hazard {
                    statement: values[0].take_text(),
                };
                Ok(rec)
            },
        }
    }

    fn get_field_names() -> (r: Vec<HazardFields>) {
        vec![
            HazardFields::Statement,
        ]
    }

    fn get_fields(&self) -> (r: Vec<Value>) {
        let r = vec![
            Value::Text(self.statement.clone()),
        ];
        proof {
            assert(views_of(r@) =~= Self::decompose_spec(self@));
        }
        r
    }

    fn get_field(&self, field_name: HazardFields) -> (r: Option<Value>) {
        match field_name {
            HazardFields::Statement => {
                proof {
                    lemma_field_index_at(Self::schema_spec(), HazardFields::Statement, 0);
                }
                Some(Value::Text(self.statement.clone()))
            },
        }
    }

    proof fn lemma_construct_then_decompose(vs: Seq<SpecValue>) {
        lemma_check_spec_ok_iff(Self::schema_spec(), vs);
        assert(Self::decompose_spec(Self::construct_spec(vs)) =~= vs);
    }

    proof fn lemma_decompose_then_construct(m: HazardModel) {
        lemma_check_spec_ok_iff(Self::schema_spec(), Self::decompose_spec(m));
    }
}

} // verus!
