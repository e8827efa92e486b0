//! The pictogram record: one hazard pictogram and where its picture
//! lives.

use vstd::prelude::*;
use crate::value::{Kind, SpecValue, Value, kind_of, views_of};
use crate::interface::{
    Entry, FieldName, FieldNotFound, SchemaError, check_fields,
    lemma_check_spec_ok_iff, lemma_field_index_at, str_eq,
};

verus! {

/// One hazard pictogram; both fields are text.
#[derive(Clone, Debug)]
pub struct Pictogram {
    pub picture_name: String,
    pub pictogram_path: String,
}

/// The mathematical model of a [`Pictogram`].
pub struct PictogramModel {
    pub picture_name: Seq<char>,
    pub pictogram_path: Seq<char>,
}

impl View for Pictogram {
    type V = PictogramModel;

    open spec fn view(&self) -> PictogramModel {
        PictogramModel {
            picture_name: self.picture_name@,
            pictogram_path: self.pictogram_path@,
        }
    }
}

/// The closed enumeration of a pictogram's fields, in canonical order.
#[derive(PartialEq, Eq, Structural, Clone, Copy, Debug)]
pub enum PictogramFields {
    PictureName,
    PictogramPath,
}

impl FieldName for PictogramFields {
    /// The picture-name identifier is a documented historical anomaly: its
    /// display label reads "PictureName", without the space the parser
    /// expects.
    open spec fn label_spec(self) -> Seq<char> {
        match self {
            PictogramFields::PictureName => "PictureName"@,
            PictogramFields::PictogramPath => "Pictogram Path"@,
        }
    }

    open spec fn parse_spec(s: Seq<char>) -> Option<PictogramFields> {
        if s == "Picture Name"@ {
            Some(PictogramFields::PictureName)
        } else if s == "Pictogram Path"@ {
            Some(PictogramFields::PictogramPath)
        } else {
            None
        }
    }

    open spec fn label_invertible(self) -> bool {
        !(self is PictureName)
    }

    fn to_label(self) -> (r: String) {
        match self {
            PictogramFields::PictureName => "PictureName".to_owned(),
            PictogramFields::PictogramPath => "Pictogram Path".to_owned(),
        }
    }

    fn from_label(s: &str) -> (r: Result<PictogramFields, FieldNotFound>) {
        if str_eq(s, "Picture Name") {
            Ok(PictogramFields::PictureName)
        } else if str_eq(s, "Pictogram Path") {
            Ok(PictogramFields::PictogramPath)
        } else {
            Err(FieldNotFound { label: s.to_owned() })
        }
    }

    proof fn lemma_label_inverse(self) {
        reveal_strlit("PictureName");
        reveal_strlit("Picture Name");
        reveal_strlit("Pictogram Path");
        assert("PictureName"@.len() == 11);
        assert("Picture Name"@.len() == 12);
        assert("Pictogram Path"@.len() == 14);
    }
}

impl Entry for Pictogram {
    type FieldNames = PictogramFields;

    open spec fn schema_spec() -> Seq<(PictogramFields, Kind)> {
        seq![
            (PictogramFields::PictureName, Kind::Text),
            (PictogramFields::PictogramPath, Kind::Text),
        ]
    }

    open spec fn decompose_spec(m: PictogramModel) -> Seq<SpecValue> {
        seq![
            SpecValue::Text(m.picture_name),
            SpecValue::Text(m.pictogram_path),
        ]
    }

    open spec fn construct_spec(vs: Seq<SpecValue>) -> PictogramModel {
        PictogramModel {
            picture_name: vs[0]->Text_0,
            pictogram_path: vs[1]->Text_0,
        }
    }

    fn schema() -> (r: Vec<(PictogramFields, Kind)>) {
        let r = vec![
            (PictogramFields::PictureName, Kind::Text),
            (PictogramFields::PictogramPath, Kind::Text),
        ];
        proof {
            assert(r@ =~= Self::schema_spec());
        }
        r
    }

    fn from_fields(values: &[Value]) -> (r: Result<Pictogram, SchemaError<PictogramFields>>) {
        let schema = Self::schema();
        match check_fields(&schema, values) {
            Err(e) => Err(e),
            Ok(()) => {
                proof {
                    lemma_check_spec_ok_iff(Self::schema_spec(), views_of(values@));
                    assert(views_of(values@).len() == values@.len());
                    assert forall|i: int|
                        0 <= i < values@.len() implies kind_of(values@[i]@) == Self::schema_spec()[i].1 by {
                        assert(views_of(values@)[i] == values@[i]@);
                    }
                }
                let rec = Pictogram {
                    picture_name: values[0].take_text(),
                    pictogram_path: values[1].take_text(),
                };
                Ok(rec)
            },
        }
    }

    fn get_field_names() -> (r: Vec<PictogramFields>) {
        vec![
            PictogramFields::PictureName,
            PictogramFields::PictogramPath,
        ]
    }

    fn get_fields(&self) -> (r: Vec<Value>) {
        let r = vec![
            Value::Text(self.picture_name.clone()),
            Value::Text(self.pictogram_path.clone()),
        ];
        proof {
            assert(views_of(r@) =~= Self::decompose_spec(self@));
        }
        r
    }

    fn get_field(&self, field_name: PictogramFields) -> (r: Option<Value>) {
        match field_name {
            PictogramFields::PictureName => {
                proof {
                    lemma_field_index_at(Self::schema_spec(), PictogramFields::PictureName, 0);
                }
                Some(Value::Text(self.picture_name.clone()))
            },
            PictogramFields::PictogramPath => {
                proof {
                    lemma_field_index_at(Self::schema_spec(), PictogramFields::PictogramPath, 1);
                }
                Some(Value::Text(self.pictogram_path.clone()))
            },
        }
    }

    proof fn lemma_construct_then_decompose(vs: Seq<SpecValue>) {
        lemma_check_spec_ok_iff(Self::schema_spec(), vs);
        assert(Self::decompose_spec(Self::construct_spec(vs)) =~= vs);
    }

    proof fn lemma_decompose_then_construct(m: PictogramModel) {
        lemma_check_spec_ok_iff(Self::schema_spec(), Self::decompose_spec(m));
    }
}

} // verus!
