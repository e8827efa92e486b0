//! The chemical record: identity, handling and hazard-communication data
//! for one laboratory chemical.

use vstd::prelude::*;
use crate::value::{Kind, SpecValue, Value, kind_of, views_of};
use crate::interface::{
    Entry, FieldName, FieldNotFound, SchemaError, check_fields,
    lemma_check_spec_ok_iff, lemma_field_index_at, str_eq,
};

verus! {

/// One laboratory chemical. Lifespans, state of matter and the QR code
/// travel as text; the three regulatory markers are flags.
#[derive(Clone, Debug)]
pub struct Chemical {
    pub chemical_name: String,
    pub purpose: String,
    pub state_of_matter: String,
    pub msds_sds_path: String,
    pub qr_code: String,
    pub opened_life_span: String,
    pub unopened_life_span: String,
    pub controlled_substance: bool,
    pub restricted_substance: bool,
    pub petroleum_base: bool,
    pub signal_word: String,
}

/// The mathematical model of a [`Chemical`].
pub struct ChemicalModel {
    pub chemical_name: Seq<char>,
    pub purpose: Seq<char>,
    pub state_of_matter: Seq<char>,
    pub msds_sds_path: Seq<char>,
    pub qr_code: Seq<char>,
    pub opened_life_span: Seq<char>,
    pub unopened_life_span: Seq<char>,
    pub controlled_substance: bool,
    pub restricted_substance: bool,
    pub petroleum_base: bool,
    pub signal_word: Seq<char>,
}

impl View for Chemical {
    type V = ChemicalModel;

    open spec fn view(&self) -> ChemicalModel {
        ChemicalModel {
            chemical_name: self.chemical_name@,
            purpose: self.purpose@,
            state_of_matter: self.state_of_matter@,
            msds_sds_path: self.msds_sds_path@,
            qr_code: self.qr_code@,
            opened_life_span: self.opened_life_span@,
            unopened_life_span: self.unopened_life_span@,
            controlled_substance: self.controlled_substance,
            restricted_substance: self.restricted_substance,
            petroleum_base: self.petroleum_base,
            signal_word: self.signal_word@,
        }
    }
}

/// The closed enumeration of a chemical's fields, in canonical order.
#[derive(PartialEq, Eq, Structural, Clone, Copy, Debug)]
pub enum ChemicalFields {
    ChemicalName,
    Purpose,
    StateOfMatter,
    MsdsSdsPath,
    QrCode,
    OpenedLifeSpan,
    UnopenedLifeSpan,
    ControlledSubstance,
    RestrictedSubstance,
    PetroleumBase,
    SignalWord,
}

impl FieldName for ChemicalFields {
    open spec fn label_spec(self) -> Seq<char> {
        match self {
            ChemicalFields::ChemicalName => "Chemical Name"@,
            ChemicalFields::Purpose => "Purpose"@,
            ChemicalFields::StateOfMatter => "State Of Matter"@,
            ChemicalFields::MsdsSdsPath => "MSDS/SDS Path"@,
            ChemicalFields::QrCode => "QR Code"@,
            ChemicalFields::OpenedLifeSpan => "Opened Life Span"@,
            ChemicalFields::UnopenedLifeSpan => "Unopened Life Span"@,
            ChemicalFields::ControlledSubstance => "Controlled Substance"@,
            ChemicalFields::RestrictedSubstance => "Restricted Substance"@,
            ChemicalFields::PetroleumBase => "Petroleum Base"@,
            ChemicalFields::SignalWord => "Signal Word"@,
        }
    }

    open spec fn parse_spec(s: Seq<char>) -> Option<ChemicalFields> {
        if s == "Chemical Name"@ {
            Some(ChemicalFields::ChemicalName)
        } else if s == "Purpose"@ {
            Some(ChemicalFields::Purpose)
        } else if s == "State Of Matter"@ {
            Some(ChemicalFields::StateOfMatter)
        } else if s == "MSDS/SDS Path"@ {
            Some(ChemicalFields::MsdsSdsPath)
        } else if s == "QR Code"@ {
            Some(ChemicalFields::QrCode)
        } else if s == "Opened Life Span"@ {
            Some(ChemicalFields::OpenedLifeSpan)
        } else if s == "Unopened Life Span"@ {
            Some(ChemicalFields::UnopenedLifeSpan)
        } else if s == "Controlled Substance"@ {
            Some(ChemicalFields::ControlledSubstance)
        } else if s == "Restricted Substance"@ {
            Some(ChemicalFields::RestrictedSubstance)
        } else if s == "Petroleum Base"@ {
            Some(ChemicalFields::PetroleumBase)
        } else if s == "Signal Word"@ {
            Some(ChemicalFields::SignalWord)
        } else {
            None
        }
    }

    open spec fn label_invertible(self) -> bool {
        true
    }

    fn to_label(self) -> (r: String) {
        match self {
            ChemicalFields::ChemicalName => "Chemical Name".to_owned(),
            ChemicalFields::Purpose => "Purpose".to_owned(),
            ChemicalFields::StateOfMatter => "State Of Matter".to_owned(),
            ChemicalFields::MsdsSdsPath => "MSDS/SDS Path".to_owned(),
            ChemicalFields::QrCode => "QR Code".to_owned(),
            ChemicalFields::OpenedLifeSpan => "Opened Life Span".to_owned(),
            ChemicalFields::UnopenedLifeSpan => "Unopened Life Span".to_owned(),
            ChemicalFields::ControlledSubstance => "Controlled Substance".to_owned(),
            ChemicalFields::RestrictedSubstance => "Restricted Substance".to_owned(),
            ChemicalFields::PetroleumBase => "Petroleum Base".to_owned(),
            ChemicalFields::SignalWord => "Signal Word".to_owned(),
        }
    }

    fn from_label(s: &str) -> (r: Result<ChemicalFields, FieldNotFound>) {
        if str_eq(s, "Chemical Name") {
            Ok(ChemicalFields::ChemicalName)
        } else if str_eq(s, "Purpose") {
            Ok(ChemicalFields::Purpose)
        } else if str_eq(s, "State Of Matter") {
            Ok(ChemicalFields::StateOfMatter)
        } else if str_eq(s, "MSDS/SDS Path") {
            Ok(ChemicalFields::MsdsSdsPath)
        } else if str_eq(s, "QR Code") {
            Ok(ChemicalFields::QrCode)
        } else if str_eq(s, "Opened Life Span") {
            Ok(ChemicalFields::OpenedLifeSpan)
        } else if str_eq(s, "Unopened Life Span") {
            Ok(ChemicalFields::UnopenedLifeSpan)
        } else if str_eq(s, "Controlled Substance") {
            Ok(ChemicalFields::ControlledSubstance)
        } else if str_eq(s, "Restricted Substance") {
            Ok(ChemicalFields::RestrictedSubstance)
        } else if str_eq(s, "Petroleum Base") {
            Ok(ChemicalFields::PetroleumBase)
        } else if str_eq(s, "Signal Word") {
            Ok(ChemicalFields::SignalWord)
        } else {
            Err(FieldNotFound { label: s.to_owned() })
        }
    }

    proof fn lemma_label_inverse(self) {
        reveal_strlit("Chemical Name");
        reveal_strlit("Purpose");
        reveal_strlit("State Of Matter");
        reveal_strlit("MSDS/SDS Path");
        reveal_strlit("QR Code");
        reveal_strlit("Opened Life Span");
        reveal_strlit("Unopened Life Span");
        reveal_strlit("Controlled Substance");
        reveal_strlit("Restricted Substance");
        reveal_strlit("Petroleum Base");
        reveal_strlit("Signal Word");
        assert("Chemical Name"@.len() == 13);
        assert("Purpose"@.len() == 7);
        assert("State Of Matter"@.len() == 15);
        assert("MSDS/SDS Path"@.len() == 13);
        assert("QR Code"@.len() == 7);
        assert("Opened Life Span"@.len() == 16);
        assert("Unopened Life Span"@.len() == 18);
        assert("Controlled Substance"@.len() == 20);
        assert("Restricted Substance"@.len() == 20);
        assert("Petroleum Base"@.len() == 14);
        assert("Signal Word"@.len() == 11);
        assert("MSDS/SDS Path"@[0] != "Chemical Name"@[0]);
        assert("QR Code"@[0] != "Purpose"@[0]);
        assert("Restricted Substance"@[0] != "Controlled Substance"@[0]);
    }
}

impl Entry for Chemical {
    type FieldNames = ChemicalFields;

    open spec fn schema_spec() -> Seq<(ChemicalFields, Kind)> {
        seq![
            (ChemicalFields::ChemicalName, Kind::Text),
            (ChemicalFields::Purpose, Kind::Text),
            (ChemicalFields::StateOfMatter, Kind::Text),
            (ChemicalFields::MsdsSdsPath, Kind::Text),
            (ChemicalFields::QrCode, Kind::Text),
            (ChemicalFields::OpenedLifeSpan, Kind::Text),
            (ChemicalFields::UnopenedLifeSpan, Kind::Text),
            (ChemicalFields::ControlledSubstance, Kind::Flag),
            (ChemicalFields::RestrictedSubstance, Kind::Flag),
            (ChemicalFields::PetroleumBase, Kind::Flag),
            (ChemicalFields::SignalWord, Kind::Text),
        ]
    }

    open spec fn decompose_spec(m: ChemicalModel) -> Seq<SpecValue> {
        seq![
            SpecValue::Text(m.chemical_name),
            SpecValue::Text(m.purpose),
            SpecValue::Text(m.state_of_matter),
            SpecValue::Text(m.msds_sds_path),
            SpecValue::Text(m.qr_code),
            SpecValue::Text(m.opened_life_span),
            SpecValue::Text(m.unopened_life_span),
            SpecValue::Flag(m.controlled_substance),
            SpecValue::Flag(m.restricted_substance),
            SpecValue::Flag(m.petroleum_base),
            SpecValue::Text(m.signal_word),
        ]
    }

    open spec fn construct_spec(vs: Seq<SpecValue>) -> ChemicalModel {
        ChemicalModel {
            chemical_name: vs[0]->Text_0,
            purpose: vs[1]->Text_0,
            state_of_matter: vs[2]->Text_0,
            msds_sds_path: vs[3]->Text_0,
            qr_code: vs[4]->Text_0,
            opened_life_span: vs[5]->Text_0,
            unopened_life_span: vs[6]->Text_0,
            controlled_substance: vs[7]->Flag_0,
            restricted_substance: vs[8]->Flag_0,
            petroleum_base: vs[9]->Flag_0,
            signal_word: vs[10]->Text_0,
        }
    }

    fn schema() -> (r: Vec<(ChemicalFields, Kind)>) {
        let r = vec![
            (ChemicalFields::ChemicalName, Kind::Text),
            (ChemicalFields::Purpose, Kind::Text),
            (ChemicalFields::StateOfMatter, Kind::Text),
            (ChemicalFields::MsdsSdsPath, Kind::Text),
            (ChemicalFields::QrCode, Kind::Text),
            (ChemicalFields::OpenedLifeSpan, Kind::Text),
            (ChemicalFields::UnopenedLifeSpan, Kind::Text),
            (ChemicalFields::ControlledSubstance, Kind::Flag),
            (ChemicalFields::RestrictedSubstance, Kind::Flag),
            (ChemicalFields::PetroleumBase, Kind::Flag),
            (ChemicalFields::SignalWord, Kind::Text),
        ];
        proof {
            assert(r@ =~= Self::schema_spec());
        }
        r
    }

    fn from_fields(values: &[Value]) -> (r: Result<Chemical, SchemaError<ChemicalFields>>) {
        let schema = Self::schema();
        match check_fields(&schema, values) {
            Err(e) => Err(e),
            Ok(()) => {
                proof {
                    lemma_check_spec_ok_iff(Self::schema_spec(), views_of(values@));
                    assert(views_of(values@).len() == values@.len());
                    assert forall|i: int|
                        0 <= i < values@.len() implies kind_of(values@[i]@) == Self::schema_spec()[i].1 by {
                        assert(views_of(values@)[i] == values@[i]@);
                    }
                }
                let rec = Chemical {
                    chemical_name: values[0].take_text(),
                    purpose: values[1].take_text(),
                    state_of_matter: values[2].take_text(),
                    msds_sds_path: values[3].take_text(),
                    qr_code: values[4].take_text(),
                    opened_life_span: values[5].take_text(),
                    unopened_life_span: values[6].take_text(),
                    controlled_substance: values[7].take_flag(),
                    restricted_substance: values[8].take_flag(),
                    petroleum_base: values[9].take_flag(),
                    signal_word: values[10].take_text(),
                };
                Ok(rec)
            },
        }
    }

    fn get_field_names() -> (r: Vec<ChemicalFields>) {
        vec![
            ChemicalFields::ChemicalName,
            ChemicalFields::Purpose,
            ChemicalFields::StateOfMatter,
            ChemicalFields::MsdsSdsPath,
            ChemicalFields::QrCode,
            ChemicalFields::OpenedLifeSpan,
            ChemicalFields::UnopenedLifeSpan,
            ChemicalFields::ControlledSubstance,
            ChemicalFields::RestrictedSubstance,
            ChemicalFields::PetroleumBase,
            ChemicalFields::SignalWord,
        ]
    }

    fn get_fields(&self) -> (r: Vec<Value>) {
        let r = vec![
            Value::Text(self.chemical_name.clone()),
            Value::Text(self.purpose.clone()),
            Value::Text(self.state_of_matter.clone()),
            Value::Text(self.msds_sds_path.clone()),
            Value::Text(self.qr_code.clone()),
            Value::Text(self.opened_life_span.clone()),
            Value::Text(self.unopened_life_span.clone()),
            Value::Flag(self.controlled_substance),
            Value::Flag(self.restricted_substance),
            Value::Flag(self.petroleum_base),
            Value::Text(self.signal_word.clone()),
        ];
        proof {
            assert(views_of(r@) =~= Self::decompose_spec(self@));
        }
        r
    }

    fn get_field(&self, field_name: ChemicalFields) -> (r: Option<Value>) {
        match field_name {
            ChemicalFields::ChemicalName => {
                proof {
                    lemma_field_index_at(Self::schema_spec(), ChemicalFields::ChemicalName, 0);
                }
                Some(Value::Text(self.chemical_name.clone()))
            },
            ChemicalFields::Purpose => {
                proof {
                    lemma_field_index_at(Self::schema_spec(), ChemicalFields::Purpose, 1);
                }
                Some(Value::Text(self.purpose.clone()))
            },
            ChemicalFields::StateOfMatter => {
                proof {
                    lemma_field_index_at(Self::schema_spec(), ChemicalFields::StateOfMatter, 2);
                }
                Some(Value::Text(self.state_of_matter.clone()))
            },
            ChemicalFields::MsdsSdsPath => {
                proof {
                    lemma_field_index_at(Self::schema_spec(), ChemicalFields::MsdsSdsPath, 3);
                }
                Some(Value::Text(self.msds_sds_path.clone()))
            },
            ChemicalFields::QrCode => {
                proof {
                    lemma_field_index_at(Self::schema_spec(), ChemicalFields::QrCode, 4);
                }
                Some(Value::Text(self.qr_code.clone()))
            },
            ChemicalFields::OpenedLifeSpan => {
                proof {
                    lemma_field_index_at(Self::schema_spec(), ChemicalFields::OpenedLifeSpan, 5);
                }
                Some(Value::Text(self.opened_life_span.clone()))
            },
            ChemicalFields::UnopenedLifeSpan => {
                proof {
                    lemma_field_index_at(Self::schema_spec(), ChemicalFields::UnopenedLifeSpan, 6);
                }
                Some(Value::Text(self.unopened_life_span.clone()))
            },
            ChemicalFields::ControlledSubstance => {
                proof {
                    lemma_field_index_at(
                        Self::schema_spec(),
                        ChemicalFields::ControlledSubstance,
                        7,
                    );
                }
                Some(Value::Flag(self.controlled_substance))
            },
            ChemicalFields::RestrictedSubstance => {
                proof {
                    lemma_field_index_at(
                        Self::schema_spec(),
                        ChemicalFields::RestrictedSubstance,
                        8,
                    );
                }
                Some(Value::Flag(self.restricted_substance))
            },
            ChemicalFields::PetroleumBase => {
                proof {
                    lemma_field_index_at(Self::schema_spec(), ChemicalFields::PetroleumBase, 9);
                }
                Some(Value::Flag(self.petroleum_base))
            },
            ChemicalFields::SignalWord => {
                proof {
                    lemma_field_index_at(Self::schema_spec(), ChemicalFields::SignalWord, 10);
                }
                Some(Value::Text(self.signal_word.clone()))
            },
        }
    }

    proof fn lemma_construct_then_decompose(vs: Seq<SpecValue>) {
        lemma_check_spec_ok_iff(Self::schema_spec(), vs);
        assert(Self::decompose_spec(Self::construct_spec(vs)) =~= vs);
    }

    proof fn lemma_decompose_then_construct(m: ChemicalModel) {
        lemma_check_spec_ok_iff(Self::schema_spec(), Self::decompose_spec(m));
    }
}

} // verus!
