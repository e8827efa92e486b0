//! The manufacturer record: contact data for one chemical manufacturer.

use vstd::prelude::*;
use crate::value::{Kind, SpecValue, Value, kind_of, views_of};
use crate::interface::{
    Entry, FieldName, FieldNotFound, SchemaError, check_fields,
    lemma_check_spec_ok_iff, lemma_field_index_at, str_eq,
};

verus! {

/// One chemical manufacturer; every field is text.
#[derive(Clone, Debug)]
pub struct Manufacturer {
    pub company_name: String,
    pub address: String,
    pub phone_number: String,
    pub website: String,
}

/// The mathematical model of a [`Manufacturer`].
pub struct ManufacturerModel {
    pub company_name: Seq<char>,
    pub address: Seq<char>,
    pub phone_number: Seq<char>,
    pub website: Seq<char>,
}

impl View for Manufacturer {
    type V = ManufacturerModel;

    open spec fn view(&self) -> ManufacturerModel {
        ManufacturerModel {
            company_name: self.company_name@,
            address: self.address@,
            phone_number: self.phone_number@,
            website: self.website@,
        }
    }
}

/// The closed enumeration of a manufacturer's fields, in canonical
/// order.
#[derive(PartialEq, Eq, Structural, Clone, Copy, Debug)]
pub enum ManufacturerFields {
    CompanyName,
    Address,
    PhoneNumber,
    Website,
}

impl FieldName for ManufacturerFields {
    open spec fn label_spec(self) -> Seq<char> {
        match self {
            ManufacturerFields::CompanyName => "Company Name"@,
            ManufacturerFields::Address => "Address"@,
            ManufacturerFields::PhoneNumber => "Phone Number"@,
            ManufacturerFields::Website => "Website"@,
        }
    }

    open spec fn parse_spec(s: Seq<char>) -> Option<ManufacturerFields> {
        if s == "Company Name"@ {
            Some(ManufacturerFields::CompanyName)
        } else if s == "Address"@ {
            Some(ManufacturerFields::Address)
        } else if s == "Phone Number"@ {
            Some(ManufacturerFields::PhoneNumber)
        } else if s == "Website"@ {
            Some(ManufacturerFields::Website)
        } else {
            None
        }
    }

    open spec fn label_invertible(self) -> bool {
        true
    }

    fn to_label(self) -> (r: String) {
        match self {
            ManufacturerFields::CompanyName => "Company Name".to_owned(),
            ManufacturerFields::Address => "Address".to_owned(),
            ManufacturerFields::PhoneNumber => "Phone Number".to_owned(),
            ManufacturerFields::Website => "Website".to_owned(),
        }
    }

    fn from_label(s: &str) -> (r: Result<ManufacturerFields, FieldNotFound>) {
        if str_eq(s, "Company Name") {
            Ok(ManufacturerFields::CompanyName)
        } else if str_eq(s, "Address") {
            Ok(ManufacturerFields::Address)
        } else if str_eq(s, "Phone Number") {
            Ok(ManufacturerFields::PhoneNumber)
        } else if str_eq(s, "Website") {
            Ok(ManufacturerFields::Website)
        } else {
            Err(FieldNotFound { label: s.to_owned() })
        }
    }

    proof fn lemma_label_inverse(self) {
        reveal_strlit("Company Name");
        reveal_strlit("Address");
        reveal_strlit("Phone Number");
        reveal_strlit("Website");
        assert("Company Name"@.len() == 12);
        assert("Address"@.len() == 7);
        assert("Phone Number"@.len() == 12);
        assert("Website"@.len() == 7);
        assert("Phone Number"@[0] != "Company Name"@[0]);
        assert("Website"@[0] != "Address"@[0]);
    }
}

impl Entry for Manufacturer {
    type FieldNames = ManufacturerFields;

    open spec fn schema_spec() -> Seq<(ManufacturerFields, Kind)> {
        seq![
            (ManufacturerFields::CompanyName, Kind::Text),
            (ManufacturerFields::Address, Kind::Text),
            (ManufacturerFields::PhoneNumber, Kind::Text),
            (ManufacturerFields::Website, Kind::Text),
        ]
    }

    open spec fn decompose_spec(m: ManufacturerModel) -> Seq<SpecValue> {
        seq![
            SpecValue::Text(m.company_name),
            SpecValue::Text(m.address),
            SpecValue::Text(m.phone_number),
            SpecValue::Text(m.website),
        ]
    }

    open spec fn construct_spec(vs: Seq<SpecValue>) -> ManufacturerModel {
        ManufacturerModel {
            company_name: vs[0]->Text_0,
            address: vs[1]->Text_0,
            phone_number: vs[2]->Text_0,
            website: vs[3]->Text_0,
        }
    }

    fn schema() -> (r: Vec<(ManufacturerFields, Kind)>) {
        let r = vec![
            (ManufacturerFields::CompanyName, Kind::Text),
            (ManufacturerFields::Address, Kind::Text),
            (ManufacturerFields::PhoneNumber, Kind::Text),
            (ManufacturerFields::Website, Kind::Text),
        ];
        proof {
            assert(r@ =~= Self::schema_spec());
        }
        r
    }

    fn from_fields(values: &[Value]) -> (r: Result<Manufacturer, SchemaError<ManufacturerFields>>) {
        let schema = Self::schema();
        match check_fields(&schema, values) {
            Err(e) => Err(e),
            Ok(()) => {
                proof {
                    lemma_check_spec_ok_iff(Self::schema_spec(), views_of(values@));
                    assert(views_of(values@).len() == values@.len());
                    assert forall|i: int|
                        0 <= i < values@.len() implies kind_of(values@[i]@) == Self::schema_spec()[i].1 by {
                        assert(views_of(values@)[i] == values@[i]@);
                    }
                }
                let rec = Manufacturer {
                    company_name: values[0].take_text(),
                    address: values[1].take_text(),
                    phone_number: values[2].take_text(),
                    website: values[3].take_text(),
                };
                Ok(rec)
            },
        }
    }

    fn get_field_names() -> (r: Vec<ManufacturerFields>) {
        vec![
            ManufacturerFields::CompanyName,
            ManufacturerFields::Address,
            ManufacturerFields::PhoneNumber,
            ManufacturerFields::Website,
        ]
    }

    fn get_fields(&self) -> (r: Vec<Value>) {
        let r = vec![
            Value::Text(self.company_name.clone()),
            Value::Text(self.address.clone()),
            Value::Text(self.phone_number.clone()),
            Value::Text(self.website.clone()),
        ];
        proof {
            assert(views_of(r@) =~= Self::decompose_spec(self@));
        }
        r
    }

    fn get_field(&self, field_name: ManufacturerFields) -> (r: Option<Value>) {
        match field_name {
            ManufacturerFields::CompanyName => {
                proof {
                    lemma_field_index_at(Self::schema_spec(), ManufacturerFields::CompanyName, 0);
                }
                Some(Value::Text(self.company_name.clone()))
            },
            ManufacturerFields::Address => {
                proof {
                    lemma_field_index_at(Self::schema_spec(), ManufacturerFields::Address, 1);
                }
                Some(Value::Text(self.address.clone()))
            },
            ManufacturerFields::PhoneNumber => {
                proof {
                    lemma_field_index_at(Self::schema_spec(), ManufacturerFields::PhoneNumber, 2);
                }
                Some(Value::Text(self.phone_number.clone()))
            },
            ManufacturerFields::Website => {
                proof {
                    lemma_field_index_at(Self::schema_spec(), ManufacturerFields::Website, 3);
                }
                Some(Value::Text(self.website.clone()))
            },
        }
    }

    proof fn lemma_construct_then_decompose(vs: Seq<SpecValue>) {
        lemma_check_spec_ok_iff(Self::schema_spec(), vs);
        assert(Self::decompose_spec(Self::construct_spec(vs)) =~= vs);
    }

    proof fn lemma_decompose_then_construct(m: ManufacturerModel) {
        lemma_check_spec_ok_iff(Self::schema_spec(), Self::decompose_spec(m));
    }
}

} // verus!
