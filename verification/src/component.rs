//! The component record: one constituent substance of a chemical.

use vstd::prelude::*;
use crate::value::{Kind, SpecValue, Value, kind_of, views_of};
use crate::interface::{
    Entry, FieldName, FieldNotFound, SchemaError, check_fields,
    lemma_check_spec_ok_iff, lemma_field_index_at, str_eq,
};

verus! {

/// One constituent substance of a chemical; every field is text.
#[derive(Clone, Debug)]
pub struct Component {
    pub chemical_name: String,
    pub common_name: String,
    pub cas_number: String,
    pub substance_number: String,
    pub trade_secret_number: String,
}

/// The mathematical model of a [`Component`].
pub struct ComponentModel {
    pub chemical_name: Seq<char>,
    pub common_name: Seq<char>,
    pub cas_number: Seq<char>,
    pub substance_number: Seq<char>,
    pub trade_secret_number: Seq<char>,
}

impl View for Component {
    type V = ComponentModel;

    open spec fn view(&self) -> ComponentModel {
        ComponentModel {
            chemical_name: self.chemical_name@,
            common_name: self.common_name@,
            cas_number: self.cas_number@,
            substance_number: self.substance_number@,
            trade_secret_number: self.trade_secret_number@,
        }
    }
}

/// The closed enumeration of a component's fields, in canonical order.
#[derive(PartialEq, Eq, Structural, Clone, Copy, Debug)]
pub enum ComponentFields {
    ChemicalName,
    CommonName,
    CasNumber,
    SubstanceNumber,
    TradeSecretNumber,
}

impl FieldName for ComponentFields {
    open spec fn label_spec(self) -> Seq<char> {
        match self {
            ComponentFields::ChemicalName => "Chemical Name"@,
            ComponentFields::CommonName => "Common Name"@,
            ComponentFields::CasNumber => "CAS Number"@,
            ComponentFields::SubstanceNumber => "Substance Number"@,
            ComponentFields::TradeSecretNumber => "Trade Secret Number"@,
        }
    }

    open spec fn parse_spec(s: Seq<char>) -> Option<ComponentFields> {
        if s == "Chemical Name"@ {
            Some(ComponentFields::ChemicalName)
        } else if s == "Common Name"@ {
            Some(ComponentFields::CommonName)
        } else if s == "CAS Number"@ {
            Some(ComponentFields::CasNumber)
        } else if s == "Substance Number"@ {
            Some(ComponentFields::SubstanceNumber)
        } else if s == "Trade Secret Number"@ {
            Some(ComponentFields::TradeSecretNumber)
        } else {
            None
        }
    }

    open spec fn label_invertible(self) -> bool {
        true
    }

    fn to_label(self) -> (r: String) {
        match self {
            ComponentFields::ChemicalName => "Chemical Name".to_owned(),
            ComponentFields::CommonName => "Common Name".to_owned(),
            ComponentFields::CasNumber => "CAS Number".to_owned(),
            ComponentFields::SubstanceNumber => "Substance Number".to_owned(),
            ComponentFields::TradeSecretNumber => "Trade Secret Number".to_owned(),
        }
    }

    fn from_label(s: &str) -> (r: Result<ComponentFields, FieldNotFound>) {
        if str_eq(s, "Chemical Name") {
            Ok(ComponentFields::ChemicalName)
        } else if str_eq(s, "Common Name") {
            Ok(ComponentFields::CommonName)
        } else if str_eq(s, "CAS Number") {
            Ok(ComponentFields::CasNumber)
        } else if str_eq(s, "Substance Number") {
            Ok(ComponentFields::SubstanceNumber)
        } else if str_eq(s, "Trade Secret Number") {
            Ok(ComponentFields::TradeSecretNumber)
        } else {
            Err(FieldNotFound { label: s.to_owned() })
        }
    }

    proof fn lemma_label_inverse(self) {
        reveal_strlit("Chemical Name");
        reveal_strlit("Common Name");
        reveal_strlit("CAS Number");
        reveal_strlit("Substance Number");
        reveal_strlit("Trade Secret Number");
        assert("Chemical Name"@.len() == 13);
        assert("Common Name"@.len() == 11);
        assert("CAS Number"@.len() == 10);
        assert("Substance Number"@.len() == 16);
        assert("Trade Secret Number"@.len() == 19);
    }
}

impl Entry for Component {
    type FieldNames = ComponentFields;

    open spec fn schema_spec() -> Seq<(ComponentFields, Kind)> {
        seq![
            (ComponentFields::ChemicalName, Kind::Text),
            (ComponentFields::CommonName, Kind::Text),
            (ComponentFields::CasNumber, Kind::Text),
            (ComponentFields::SubstanceNumber, Kind::Text),
            (ComponentFields::TradeSecretNumber, Kind::Text),
        ]
    }

    open spec fn decompose_spec(m: ComponentModel) -> Seq<SpecValue> {
        seq![
            SpecValue::Text(m.chemical_name),
            SpecValue::Text(m.common_name),
            SpecValue::Text(m.cas_number),
            SpecValue::Text(m.substance_number),
            SpecValue::Text(m.trade_secret_number),
        ]
    }

    open spec fn construct_spec(vs: Seq<SpecValue>) -> ComponentModel {
        ComponentModel {
            chemical_name: vs[0]->Text_0,
            common_name: vs[1]->Text_0,
            cas_number: vs[2]->Text_0,
            substance_number: vs[3]->Text_0,
            trade_secret_number: vs[4]->Text_0,
        }
    }

    fn schema() -> (r: Vec<(ComponentFields, Kind)>) {
        let r = vec![
            (ComponentFields::ChemicalName, Kind::Text),
            (ComponentFields::CommonName, Kind::Text),
            (ComponentFields::CasNumber, Kind::Text),
            (ComponentFields::SubstanceNumber, Kind::Text),
            (ComponentFields::TradeSecretNumber, Kind::Text),
        ];
        proof {
            assert(r@ =~= Self::schema_spec());
        }
        r
    }

    fn from_fields(values: &[Value]) -> (r: Result<Component, SchemaError<ComponentFields>>) {
        let schema = Self::schema();
        match check_fields(&schema, values) {
            Err(e) => Err(e),
            Ok(()) => {
                proof {
                    lemma_check_spec_ok_iff(Self::schema_spec(), views_of(values@));
                    assert(views_of(values@).len() == values@.len());
                    assert forall|i: int|
                        0 <= i < values@.len() implies kind_of(values@[i]@) == Self::schema_spec()[i].1 by {
                        assert(views_of(values@)[i] == values@[i]@);
                    }
                }
                let rec = Component {
                    chemical_name: values[0].take_text(),
                    common_name: values[1].take_text(),
                    cas_number: values[2].take_text(),
                    substance_number: values[3].take_text(),
                    trade_secret_number: values[4].take_text(),
                };
                Ok(rec)
            },
        }
    }

    fn get_field_names() -> (r: Vec<ComponentFields>) {
        vec![
            ComponentFields::ChemicalName,
            ComponentFields::CommonName,
            ComponentFields::CasNumber,
            ComponentFields::SubstanceNumber,
            ComponentFields::TradeSecretNumber,
        ]
    }

    fn get_fields(&self) -> (r: Vec<Value>) {
        let r = vec![
            Value::Text(self.chemical_name.clone()),
            Value::Text(self.common_name.clone()),
            Value::Text(self.cas_number.clone()),
            Value::Text(self.substance_number.clone()),
            Value::Text(self.trade_secret_number.clone()),
        ];
        proof {
            assert(views_of(r@) =~= Self::decompose_spec(self@));
        }
        r
    }

    fn get_field(&self, field_name: ComponentFields) -> (r: Option<Value>) {
        match field_name {
            ComponentFields::ChemicalName => {
                proof {
                    lemma_field_index_at(Self::schema_spec(), ComponentFields::ChemicalName, 0);
                }
                Some(Value::Text(self.chemical_name.clone()))
            },
            ComponentFields::CommonName => {
                proof {
                    lemma_field_index_at(Self::schema_spec(), ComponentFields::CommonName, 1);
                }
                Some(Value::Text(self.common_name.clone()))
            },
            ComponentFields::CasNumber => {
                proof {
                    lemma_field_index_at(Self::schema_spec(), ComponentFields::CasNumber, 2);
                }
                Some(Value::Text(self.cas_number.clone()))
            },
            ComponentFields::SubstanceNumber => {
                proof {
                    lemma_field_index_at(Self::schema_spec(), ComponentFields::SubstanceNumber, 3);
                }
                Some(Value::Text(self.substance_number.clone()))
            },
            ComponentFields::TradeSecretNumber => {
                proof {
                    lemma_field_index_at(Self::schema_spec(), ComponentFields::TradeSecretNumber, 4);
                }
                Some(Value::Text(self.trade_secret_number.clone()))
            },
        }
    }

    proof fn lemma_construct_then_decompose(vs: Seq<SpecValue>) {
        lemma_check_spec_ok_iff(Self::schema_spec(), vs);
        assert(Self::decompose_spec(Self::construct_spec(vs)) =~= vs);
    }

    proof fn lemma_decompose_then_construct(m: ComponentModel) {
        lemma_check_spec_ok_iff(Self::schema_spec(), Self::decompose_spec(m));
    }
}

} // verus!
