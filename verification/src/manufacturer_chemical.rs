//! The manufacturer-chemical record: the number a manufacturer assigns
//! to one of its chemicals.

use vstd::prelude::*;
use crate::value::{Kind, SpecValue, Value, kind_of, views_of};
use crate::interface::{
    Entry, FieldName, FieldNotFound, SchemaError, check_fields,
    lemma_check_spec_ok_iff, lemma_field_index_at, str_eq,
};

verus! {

/// The link between a manufacturer and a chemical; its single field is
/// text.
#[derive(Clone, Debug)]
pub struct ManufacturerChemical {
    pub manufacturer_number: String,
}

/// The mathematical model of a [`ManufacturerChemical`].
pub struct ManufacturerChemicalModel {
    pub manufacturer_number: Seq<char>,
}

impl View for ManufacturerChemical {
    type V = ManufacturerChemicalModel;

    open spec fn view(&self) -> ManufacturerChemicalModel {
        ManufacturerChemicalModel {
            manufacturer_number: self.manufacturer_number@,
        }
    }
}

/// The closed enumeration of a manufacturer-chemical link's fields: a
/// single manufacturer number.
#[derive(PartialEq, Eq, Structural, Clone, Copy, Debug)]
pub enum ManufacturerChemicalFields {
    ManufacturerNumber,
}

impl FieldName for ManufacturerChemicalFields {
    open spec fn label_spec(self) -> Seq<char> {
        match self {
            ManufacturerChemicalFields::ManufacturerNumber => "Manufacturer Number"@,
        }
    }

    open spec fn parse_spec(s: Seq<char>) -> Option<ManufacturerChemicalFields> {
        if s == "Manufacturer Number"@ {
            Some(ManufacturerChemicalFields::ManufacturerNumber)
        } else {
            None
        }
    }

    open spec fn label_invertible(self) -> bool {
        true
    }

    fn to_label(self) -> (r: String) {
        match self {
            ManufacturerChemicalFields::ManufacturerNumber => "Manufacturer Number".to_owned(),
        }
    }

    fn from_label(s: &str) -> (r: Result<ManufacturerChemicalFields, FieldNotFound>) {
        if str_eq(s, "Manufacturer Number") {
            Ok(ManufacturerChemicalFields::ManufacturerNumber)
        } else {
            Err(FieldNotFound { label: s.to_owned() })
        }
    }

    proof fn lemma_label_inverse(self) {
        reveal_strlit("Manufacturer Number");
    }
}

impl Entry for ManufacturerChemical {
    type FieldNames = ManufacturerChemicalFields;

    open spec fn schema_spec() -> Seq<(ManufacturerChemicalFields, Kind)> {
        seq![
            (ManufacturerChemicalFields::ManufacturerNumber, Kind::Text),
        ]
    }

    open spec fn decompose_spec(m: ManufacturerChemicalModel) -> Seq<SpecValue> {
        seq![
            SpecValue::Text(m.manufacturer_number),
        ]
    }

    open spec fn construct_spec(vs: Seq<SpecValue>) -> ManufacturerChemicalModel {
        ManufacturerChemicalModel {
            manufacturer_number: vs[0]->Text_0,
        }
    }

    fn schema() -> (r: Vec<(ManufacturerChemicalFields, Kind)>) {
        let r = vec![
            (ManufacturerChemicalFields::ManufacturerNumber, Kind::Text),
        ];
        proof {
            assert(r@ =~= Self::schema_spec());
        }
        r
    }

    fn from_fields(values: &[Value]) -> (r: Result<ManufacturerChemical, SchemaError<ManufacturerChemicalFields>>) {
        let schema = Self::schema();
        match check_fields(&schema, values) {
            Err(e) => Err(e),
            Ok(()) => {
                proof {
                    lemma_check_spec_ok_iff(Self::schema_spec(), views_of(values@));
                    assert(views_of(values@).len() == values@.len());
                    assert forall|i: int|
                        0 <= i < values@.len() implies kind_of(values@[i]@) == Self::schema_spec()[i].1 by {
                        assert(views_of(values@)[i] == values@[i]@);
                    }
                }
                let rec = ManufacturerChemical {
                    manufacturer_number: values[0].take_text(),
                };
                Ok(rec)
            },
        }
    }

    fn get_field_names() -> (r: Vec<ManufacturerChemicalFields>) {
        vec![
            ManufacturerChemicalFields::ManufacturerNumber,
        ]
    }

    fn get_fields(&self) -> (r: Vec<Value>) {
        let r = vec![
            Value::Text(self.manufacturer_number.clone()),
        ];
        proof {
            assert(views_of(r@) =~= Self::decompose_spec(self@));
        }
        r
    }

    fn get_field(&self, field_name: ManufacturerChemicalFields) -> (r: Option<Value>) {
        match field_name {
            ManufacturerChemicalFields::ManufacturerNumber => {
                proof {
                    lemma_field_index_at(Self::schema_spec(), ManufacturerChemicalFields::ManufacturerNumber, 0);
                }
                Some(Value::Text(self.manufacturer_number.clone()))
            },
        }
    }

    proof fn lemma_construct_then_decompose(vs: Seq<SpecValue>) {
        lemma_check_spec_ok_iff(Self::schema_spec(), vs);
        assert(Self::decompose_spec(Self::construct_spec(vs)) =~= vs);
    }

    proof fn lemma_decompose_then_construct(m: ManufacturerChemicalModel) {
        lemma_check_spec_ok_iff(Self::schema_spec(), Self::decompose_spec(m));
    }
}

} // verus!
