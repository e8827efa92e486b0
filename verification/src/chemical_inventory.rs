//! The chemical-inventory record: one physical lot of a chemical, its
//! dates, container and remaining quantity.

use vstd::prelude::*;
use crate::value::{Kind, SpecValue, Value, kind_of, views_of};
use crate::interface::{
    Entry, FieldName, FieldNotFound, SchemaError, check_fields,
    lemma_check_spec_ok_iff, lemma_field_index_at, str_eq,
};

verus! {

/// One inventory lot of a chemical. Dates, container data and the
/// remaining percentage travel as text; only the active marker is a flag.
#[derive(Clone, Debug)]
pub struct ChemicalInventory {
    pub lot_number: String,
    pub purchase_date: String,
    pub arrival_date: String,
    pub open_date: String,
    pub expiration_date: String,
    pub disposal_date: String,
    pub removal_date: String,
    pub disposal_method: String,
    pub active: bool,
    pub container_type: String,
    pub container_size: String,
    pub unit: String,
    pub percent_remaining: String,
}

/// The mathematical model of a [`ChemicalInventory`].
pub struct ChemicalInventoryModel {
    pub lot_number: Seq<char>,
    pub purchase_date: Seq<char>,
    pub arrival_date: Seq<char>,
    pub open_date: Seq<char>,
    pub expiration_date: Seq<char>,
    pub disposal_date: Seq<char>,
    pub removal_date: Seq<char>,
    pub disposal_method: Seq<char>,
    pub active: bool,
    pub container_type: Seq<char>,
    pub container_size: Seq<char>,
    pub unit: Seq<char>,
    pub percent_remaining: Seq<char>,
}

impl View for ChemicalInventory {
    type V = ChemicalInventoryModel;

    open spec fn view(&self) -> ChemicalInventoryModel {
        ChemicalInventoryModel {
            lot_number: self.lot_number@,
            purchase_date: self.purchase_date@,
            arrival_date: self.arrival_date@,
            open_date: self.open_date@,
            expiration_date: self.expiration_date@,
            disposal_date: self.disposal_date@,
            removal_date: self.removal_date@,
            disposal_method: self.disposal_method@,
            active: self.active,
            container_type: self.container_type@,
            container_size: self.container_size@,
            unit: self.unit@,
            percent_remaining: self.percent_remaining@,
        }
    }
}

/// The closed enumeration of an inventory lot's fields, in canonical
/// order.
#[derive(PartialEq, Eq, Structural, Clone, Copy, Debug)]
pub enum ChemicalInventoryFields {
    LotNumber,
    PurchaseDate,
    ArrivalDate,
    OpenDate,
    ExpirationDate,
    DisposalDate,
    RemovalDate,
    DisposalMethod,
    Active,
    ContainerType,
    ContainerSize,
    Unit,
    PercentRemaining,
}

impl FieldName for ChemicalInventoryFields {
    /// The disposal-method identifier is a documented historical anomaly:
    /// its display label reads "Active", which the parser resolves to the
    /// active flag instead.
    open spec fn label_spec(self) -> Seq<char> {
        match self {
            ChemicalInventoryFields::LotNumber => "Lot Number"@,
            ChemicalInventoryFields::PurchaseDate => "Purchase Date"@,
            ChemicalInventoryFields::ArrivalDate => "Arrival Date"@,
            ChemicalInventoryFields::OpenDate => "Open Date"@,
            ChemicalInventoryFields::ExpirationDate => "Expiration Date"@,
            ChemicalInventoryFields::DisposalDate => "Disposal Date"@,
            ChemicalInventoryFields::RemovalDate => "Removal Date"@,
            ChemicalInventoryFields::DisposalMethod => "Active"@,
            ChemicalInventoryFields::Active => "Active"@,
            ChemicalInventoryFields::ContainerType => "Container Type"@,
            ChemicalInventoryFields::ContainerSize => "Container Size"@,
            ChemicalInventoryFields::Unit => "Unit"@,
            ChemicalInventoryFields::PercentRemaining => "Percent Remaining"@,
        }
    }

    open spec fn parse_spec(s: Seq<char>) -> Option<ChemicalInventoryFields> {
        if s == "Lot Number"@ {
            Some(ChemicalInventoryFields::LotNumber)
        } else if s == "Purchase Date"@ {
            Some(ChemicalInventoryFields::PurchaseDate)
        } else if s == "Arrival Date"@ {
            Some(ChemicalInventoryFields::ArrivalDate)
        } else if s == "Open Date"@ {
            Some(ChemicalInventoryFields::OpenDate)
        } else if s == "Expiration Date"@ {
            Some(ChemicalInventoryFields::ExpirationDate)
        } else if s == "Disposal Date"@ {
            Some(ChemicalInventoryFields::DisposalDate)
        } else if s == "Removal Date"@ {
            Some(ChemicalInventoryFields::RemovalDate)
        } else if s == "Disposal Method"@ {
            Some(ChemicalInventoryFields::DisposalMethod)
        } else if s == "Active"@ {
            Some(ChemicalInventoryFields::Active)
        } else if s == "Container Type"@ {
            Some(ChemicalInventoryFields::ContainerType)
        } else if s == "Container Size"@ {
            Some(ChemicalInventoryFields::ContainerSize)
        } else if s == "Unit"@ {
            Some(ChemicalInventoryFields::Unit)
        } else if s == "Percent Remaining"@ {
            Some(ChemicalInventoryFields::PercentRemaining)
        } else {
            None
        }
    }

    open spec fn label_invertible(self) -> bool {
        !(self is DisposalMethod)
    }

    fn to_label(self) -> (r: String) {
        match self {
            ChemicalInventoryFields::LotNumber => "Lot Number".to_owned(),
            ChemicalInventoryFields::PurchaseDate => "Purchase Date".to_owned(),
            ChemicalInventoryFields::ArrivalDate => "Arrival Date".to_owned(),
            ChemicalInventoryFields::OpenDate => "Open Date".to_owned(),
            ChemicalInventoryFields::ExpirationDate => "Expiration Date".to_owned(),
            ChemicalInventoryFields::DisposalDate => "Disposal Date".to_owned(),
            ChemicalInventoryFields::RemovalDate => "Removal Date".to_owned(),
            ChemicalInventoryFields::DisposalMethod => "Active".to_owned(),
            ChemicalInventoryFields::Active => "Active".to_owned(),
            ChemicalInventoryFields::ContainerType => "Container Type".to_owned(),
            ChemicalInventoryFields::ContainerSize => "Container Size".to_owned(),
            ChemicalInventoryFields::Unit => "Unit".to_owned(),
            ChemicalInventoryFields::PercentRemaining => "Percent Remaining".to_owned(),
        }
    }

    fn from_label(s: &str) -> (r: Result<ChemicalInventoryFields, FieldNotFound>) {
        if str_eq(s, "Lot Number") {
            Ok(ChemicalInventoryFields::LotNumber)
        } else if str_eq(s, "Purchase Date") {
            Ok(ChemicalInventoryFields::PurchaseDate)
        } else if str_eq(s, "Arrival Date") {
            Ok(ChemicalInventoryFields::ArrivalDate)
        } else if str_eq(s, "Open Date") {
            Ok(ChemicalInventoryFields::OpenDate)
        } else if str_eq(s, "Expiration Date") {
            Ok(ChemicalInventoryFields::ExpirationDate)
        } else if str_eq(s, "Disposal Date") {
            Ok(ChemicalInventoryFields::DisposalDate)
        } else if str_eq(s, "Removal Date") {
            Ok(ChemicalInventoryFields::RemovalDate)
        } else if str_eq(s, "Disposal Method") {
            Ok(ChemicalInventoryFields::DisposalMethod)
        } else if str_eq(s, "Active") {
            Ok(ChemicalInventoryFields::Active)
        } else if str_eq(s, "Container Type") {
            Ok(ChemicalInventoryFields::ContainerType)
        } else if str_eq(s, "Container Size") {
            Ok(ChemicalInventoryFields::ContainerSize)
        } else if str_eq(s, "Unit") {
            Ok(ChemicalInventoryFields::Unit)
        } else if str_eq(s, "Percent Remaining") {
            Ok(ChemicalInventoryFields::PercentRemaining)
        } else {
            Err(FieldNotFound { label: s.to_owned() })
        }
    }

    proof fn lemma_label_inverse(self) {
        reveal_strlit("Lot Number");
        reveal_strlit("Purchase Date");
        reveal_strlit("Arrival Date");
        reveal_strlit("Open Date");
        reveal_strlit("Expiration Date");
        reveal_strlit("Disposal Date");
        reveal_strlit("Removal Date");
        reveal_strlit("Active");
        reveal_strlit("Disposal Method");
        reveal_strlit("Container Type");
        reveal_strlit("Container Size");
        reveal_strlit("Unit");
        reveal_strlit("Percent Remaining");
        assert("Lot Number"@.len() == 10);
        assert("Purchase Date"@.len() == 13);
        assert("Arrival Date"@.len() == 12);
        assert("Open Date"@.len() == 9);
        assert("Expiration Date"@.len() == 15);
        assert("Disposal Date"@.len() == 13);
        assert("Removal Date"@.len() == 12);
        assert("Active"@.len() == 6);
        assert("Disposal Method"@.len() == 15);
        assert("Container Type"@.len() == 14);
        assert("Container Size"@.len() == 14);
        assert("Unit"@.len() == 4);
        assert("Percent Remaining"@.len() == 17);
        assert("Disposal Date"@[0] != "Purchase Date"@[0]);
        assert("Removal Date"@[0] != "Arrival Date"@[0]);
        assert("Container Size"@[10] != "Container Type"@[10]);
    }
}

impl Entry for ChemicalInventory {
    type FieldNames = ChemicalInventoryFields;

    open spec fn schema_spec() -> Seq<(ChemicalInventoryFields, Kind)> {
        seq![
            (ChemicalInventoryFields::LotNumber, Kind::Text),
            (ChemicalInventoryFields::PurchaseDate, Kind::Text),
            (ChemicalInventoryFields::ArrivalDate, Kind::Text),
            (ChemicalInventoryFields::OpenDate, Kind::Text),
            (ChemicalInventoryFields::ExpirationDate, Kind::Text),
            (ChemicalInventoryFields::DisposalDate, Kind::Text),
            (ChemicalInventoryFields::RemovalDate, Kind::Text),
            (ChemicalInventoryFields::DisposalMethod, Kind::Text),
            (ChemicalInventoryFields::Active, Kind::Flag),
            (ChemicalInventoryFields::ContainerType, Kind::Text),
            (ChemicalInventoryFields::ContainerSize, Kind::Text),
            (ChemicalInventoryFields::Unit, Kind::Text),
            (ChemicalInventoryFields::PercentRemaining, Kind::Text),
        ]
    }

    open spec fn decompose_spec(m: ChemicalInventoryModel) -> Seq<SpecValue> {
        seq![
            SpecValue::Text(m.lot_number),
            SpecValue::Text(m.purchase_date),
            SpecValue::Text(m.arrival_date),
            SpecValue::Text(m.open_date),
            SpecValue::Text(m.expiration_date),
            SpecValue::Text(m.disposal_date),
            SpecValue::Text(m.removal_date),
            SpecValue::Text(m.disposal_method),
            SpecValue::Flag(m.active),
            SpecValue::Text(m.container_type),
            SpecValue::Text(m.container_size),
            SpecValue::Text(m.unit),
            SpecValue::Text(m.percent_remaining),
        ]
    }

    open spec fn construct_spec(vs: Seq<SpecValue>) -> ChemicalInventoryModel {
        ChemicalInventoryModel {
            lot_number: vs[0]->Text_0,
            purchase_date: vs[1]->Text_0,
            arrival_date: vs[2]->Text_0,
            open_date: vs[3]->Text_0,
            expiration_date: vs[4]->Text_0,
            disposal_date: vs[5]->Text_0,
            removal_date: vs[6]->Text_0,
            disposal_method: vs[7]->Text_0,
            active: vs[8]->Flag_0,
            container_type: vs[9]->Text_0,
            container_size: vs[10]->Text_0,
            unit: vs[11]->Text_0,
            percent_remaining: vs[12]->Text_0,
        }
    }

    fn schema() -> (r: Vec<(ChemicalInventoryFields, Kind)>) {
        let r = vec![
            (ChemicalInventoryFields::LotNumber, Kind::Text),
            (ChemicalInventoryFields::PurchaseDate, Kind::Text),
            (ChemicalInventoryFields::ArrivalDate, Kind::Text),
            (ChemicalInventoryFields::OpenDate, Kind::Text),
            (ChemicalInventoryFields::ExpirationDate, Kind::Text),
            (ChemicalInventoryFields::DisposalDate, Kind::Text),
            (ChemicalInventoryFields::RemovalDate, Kind::Text),
            (ChemicalInventoryFields::DisposalMethod, Kind::Text),
            (ChemicalInventoryFields::Active, Kind::Flag),
            (ChemicalInventoryFields::ContainerType, Kind::Text),
            (ChemicalInventoryFields::ContainerSize, Kind::Text),
            (ChemicalInventoryFields::Unit, Kind::Text),
            (ChemicalInventoryFields::PercentRemaining, Kind::Text),
        ];
        proof {
            assert(r@ =~= Self::schema_spec());
        }
        r
    }

    fn from_fields(values: &[Value]) -> (r: Result<ChemicalInventory, SchemaError<ChemicalInventoryFields>>) {
        let schema = Self::schema();
        match check_fields(&schema, values) {
            Err(e) => Err(e),
            Ok(()) => {
                proof {
                    lemma_check_spec_ok_iff(Self::schema_spec(), views_of(values@));
                    assert(views_of(values@).len() == values@.len());
                    assert forall|i: int|
                        0 <= i < values@.len() implies kind_of(values@[i]@) == Self::schema_spec()[i].1 by {
                        assert(views_of(values@)[i] == values@[i]@);
                    }
                }
                let rec = ChemicalInventory {
                    lot_number: values[0].take_text(),
                    purchase_date: values[1].take_text(),
                    arrival_date: values[2].take_text(),
                    open_date: values[3].take_text(),
                    expiration_date: values[4].take_text(),
                    disposal_date: values[5].take_text(),
                    removal_date: values[6].take_text(),
                    disposal_method: values[7].take_text(),
                    active: values[8].take_flag(),
                    container_type: values[9].take_text(),
                    container_size: values[10].take_text(),
                    unit: values[11].take_text(),
                    percent_remaining: values[12].take_text(),
                };
                Ok(rec)
            },
        }
    }

    fn get_field_names() -> (r: Vec<ChemicalInventoryFields>) {
        vec![
            ChemicalInventoryFields::LotNumber,
            ChemicalInventoryFields::PurchaseDate,
            ChemicalInventoryFields::ArrivalDate,
            ChemicalInventoryFields::OpenDate,
            ChemicalInventoryFields::ExpirationDate,
            ChemicalInventoryFields::DisposalDate,
            ChemicalInventoryFields::RemovalDate,
            ChemicalInventoryFields::DisposalMethod,
            ChemicalInventoryFields::Active,
            ChemicalInventoryFields::ContainerType,
            ChemicalInventoryFields::ContainerSize,
            ChemicalInventoryFields::Unit,
            ChemicalInventoryFields::PercentRemaining,
        ]
    }

    fn get_fields(&self) -> (r: Vec<Value>) {
        let r = vec![
            Value::Text(self.lot_number.clone()),
            Value::Text(self.purchase_date.clone()),
            Value::Text(self.arrival_date.clone()),
            Value::Text(self.open_date.clone()),
            Value::Text(self.expiration_date.clone()),
            Value::Text(self.disposal_date.clone()),
            Value::Text(self.removal_date.clone()),
            Value::Text(self.disposal_method.clone()),
            Value::Flag(self.active),
            Value::Text(self.container_type.clone()),
            Value::Text(self.container_size.clone()),
            Value::Text(self.unit.clone()),
            Value::Text(self.percent_remaining.clone()),
        ];
        proof {
            assert(views_of(r@) =~= Self::decompose_spec(self@));
        }
        r
    }

    fn get_field(&self, field_name: ChemicalInventoryFields) -> (r: Option<Value>) {
        match field_name {
            ChemicalInventoryFields::LotNumber => {
                proof {
                    lemma_field_index_at(Self::schema_spec(), ChemicalInventoryFields::LotNumber, 0);
                }
                Some(Value::Text(self.lot_number.clone()))
            },
            ChemicalInventoryFields::PurchaseDate => {
                proof {
                    lemma_field_index_at(Self::schema_spec(), ChemicalInventoryFields::PurchaseDate, 1);
                }
                Some(Value::Text(self.purchase_date.clone()))
            },
            ChemicalInventoryFields::ArrivalDate => {
                proof {
                    lemma_field_index_at(Self::schema_spec(), ChemicalInventoryFields::ArrivalDate, 2);
                }
                Some(Value::Text(self.arrival_date.clone()))
            },
            ChemicalInventoryFields::OpenDate => {
                proof {
                    lemma_field_index_at(Self::schema_spec(), ChemicalInventoryFields::OpenDate, 3);
                }
                Some(Value::Text(self.open_date.clone()))
            },
            ChemicalInventoryFields::ExpirationDate => {
                proof {
                    lemma_field_index_at(Self::schema_spec(), ChemicalInventoryFields::ExpirationDate, 4);
                }
                Some(Value::Text(self.expiration_date.clone()))
            },
            ChemicalInventoryFields::DisposalDate => {
                proof {
                    lemma_field_index_at(Self::schema_spec(), ChemicalInventoryFields::DisposalDate, 5);
                }
                Some(Value::Text(self.disposal_date.clone()))
            },
            ChemicalInventoryFields::RemovalDate => {
                proof {
                    lemma_field_index_at(Self::schema_spec(), ChemicalInventoryFields::RemovalDate, 6);
                }
                Some(Value::Text(self.removal_date.clone()))
            },
            ChemicalInventoryFields::DisposalMethod => {
                proof {
                    lemma_field_index_at(Self::schema_spec(), ChemicalInventoryFields::DisposalMethod, 7);
                }
                Some(Value::Text(self.disposal_method.clone()))
            },
            ChemicalInventoryFields::Active => {
                proof {
                    lemma_field_index_at(Self::schema_spec(), ChemicalInventoryFields::Active, 8);
                }
                Some(Value::Flag(self.active))
            },
            ChemicalInventoryFields::ContainerType => {
                proof {
                    lemma_field_index_at(Self::schema_spec(), ChemicalInventoryFields::ContainerType, 9);
                }
                Some(Value::Text(self.container_type.clone()))
            },
            ChemicalInventoryFields::ContainerSize => {
                proof {
                    lemma_field_index_at(Self::schema_spec(), ChemicalInventoryFields::ContainerSize, 10);
                }
                Some(Value::Text(self.container_size.clone()))
            },
            ChemicalInventoryFields::Unit => {
                proof {
                    lemma_field_index_at(Self::schema_spec(), ChemicalInventoryFields::Unit, 11);
                }
                Some(Value::Text(self.unit.clone()))
            },
            ChemicalInventoryFields::PercentRemaining => {
                proof {
                    lemma_field_index_at(Self::schema_spec(), ChemicalInventoryFields::PercentRemaining, 12);
                }
                Some(Value::Text(self.percent_remaining.clone()))
            },
        }
    }

    proof fn lemma_construct_then_decompose(vs: Seq<SpecValue>) {
        lemma_check_spec_ok_iff(Self::schema_spec(), vs);
        assert(Self::decompose_spec(Self::construct_spec(vs)) =~= vs);
    }

    proof fn lemma_decompose_then_construct(m: ChemicalInventoryModel) {
        lemma_check_spec_ok_iff(Self::schema_spec(), Self::decompose_spec(m));
    }
}

} // verus!
