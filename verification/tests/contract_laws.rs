//! Concrete exercises of the mapping contract: round trips, fail-fast
//! ordering, label inverses (including the documented anomalies), and one
//! input for every error variant.

use chemicals_lib::interface::{Entry, FieldName, SchemaError};
use chemicals_lib::value::{Kind, Value};
use chemicals_lib::chemical::{Chemical, ChemicalFields};
use chemicals_lib::chemical_inventory::ChemicalInventoryFields;
use chemicals_lib::hazard::{Hazard, HazardFields};
use chemicals_lib::manufacturer::ManufacturerFields;
use chemicals_lib::pictogram::PictogramFields;

fn example_chemical_fields() -> Vec<Value> {
    vec![
        Value::Text("Isopropyl Alcohol".to_string()),
        Value::Text("Cleaning".to_string()),
        Value::Text("Liquid".to_string()),
        Value::Text("Isopropyl Alcohol MSDS".to_string()),
        Value::Text("124".to_string()),
        Value::Text("20 years".to_string()),
        Value::Text("10 years".to_string()),
        Value::Flag(false),
        Value::Flag(false),
        Value::Flag(false),
        Value::Text("Warning".to_string()),
    ]
}

#[test]
fn construct_then_decompose_returns_the_input() {
    let fields = example_chemical_fields();
    let chemical = Chemical::from_fields(&fields).unwrap();
    assert_eq!(chemical.get_fields(), fields);

    let statement = vec![Value::Text("Causes skin irritation".to_string())];
    let hazard = Hazard::from_fields(&statement).unwrap();
    assert_eq!(hazard.get_fields(), statement);
}

#[test]
fn decompose_then_construct_returns_the_record() {
    let chemical = Chemical {
        chemical_name: "Acetone".to_string(),
        purpose: "Solvent".to_string(),
        state_of_matter: "Liquid".to_string(),
        msds_sds_path: "Acetone MSDS".to_string(),
        qr_code: "77".to_string(),
        opened_life_span: "2 years".to_string(),
        unopened_life_span: "4 years".to_string(),
        controlled_substance: false,
        restricted_substance: true,
        petroleum_base: false,
        signal_word: "Danger".to_string(),
    };

    let rebuilt = Chemical::from_fields(&chemical.get_fields()).unwrap();

    assert_eq!(rebuilt.chemical_name, chemical.chemical_name);
    assert_eq!(rebuilt.purpose, chemical.purpose);
    assert_eq!(rebuilt.state_of_matter, chemical.state_of_matter);
    assert_eq!(rebuilt.msds_sds_path, chemical.msds_sds_path);
    assert_eq!(rebuilt.qr_code, chemical.qr_code);
    assert_eq!(rebuilt.opened_life_span, chemical.opened_life_span);
    assert_eq!(rebuilt.unopened_life_span, chemical.unopened_life_span);
    assert_eq!(rebuilt.controlled_substance, chemical.controlled_substance);
    assert_eq!(rebuilt.restricted_substance, chemical.restricted_substance);
    assert_eq!(rebuilt.petroleum_base, chemical.petroleum_base);
    assert_eq!(rebuilt.signal_word, chemical.signal_word);
}

#[test]
fn fail_fast_reports_the_lower_indexed_field() {
    // Positions 0 (expects text) and 7 (expects a flag) are both wrong; the
    // error must name position 0's field.
    let mut fields = example_chemical_fields();
    fields[0] = Value::Flag(true);
    fields[7] = Value::Text("false".to_string());

    let result = Chemical::from_fields(&fields);

    assert!(matches!(
        result,
        Err(SchemaError::TypeMismatch(ChemicalFields::ChemicalName, Kind::Text))
    ));
}

#[test]
fn labels_parse_back_to_their_identifiers() {
    for id in Chemical::get_field_names() {
        assert_eq!(ChemicalFields::from_label(&id.to_label()), Ok(id));
    }
    for id in [
        ManufacturerFields::CompanyName,
        ManufacturerFields::Address,
        ManufacturerFields::PhoneNumber,
        ManufacturerFields::Website,
    ] {
        assert_eq!(ManufacturerFields::from_label(&id.to_label()), Ok(id));
    }
    assert_eq!(
        PictogramFields::from_label(&PictogramFields::PictogramPath.to_label()),
        Ok(PictogramFields::PictogramPath)
    );
}

#[test]
fn disposal_method_label_anomaly_is_preserved() {
    // The historical label table shows "Active" for the disposal method, so
    // its label parses back to the active flag instead of to itself.
    assert_eq!(ChemicalInventoryFields::DisposalMethod.to_label(), "Active");
    assert_eq!(
        ChemicalInventoryFields::from_label("Active"),
        Ok(ChemicalInventoryFields::Active)
    );
    assert_eq!(
        ChemicalInventoryFields::from_label("Disposal Method"),
        Ok(ChemicalInventoryFields::DisposalMethod)
    );
}

#[test]
fn picture_name_label_anomaly_is_preserved() {
    // The historical label table shows "PictureName" without the space the
    // parser expects, so the displayed label does not parse.
    assert_eq!(PictogramFields::PictureName.to_label(), "PictureName");
    let unparsed = PictogramFields::from_label("PictureName");
    assert!(matches!(unparsed, Err(ref e) if e.label == "PictureName"));
    assert_eq!(
        PictogramFields::from_label("Picture Name"),
        Ok(PictogramFields::PictureName)
    );
}

#[test]
fn chemical_labels_read_as_expected() {
    assert_eq!(ChemicalFields::ChemicalName.to_label(), "Chemical Name");
    assert_eq!(ChemicalFields::StateOfMatter.to_label(), "State Of Matter");
    assert_eq!(ChemicalFields::MsdsSdsPath.to_label(), "MSDS/SDS Path");
    assert_eq!(ChemicalFields::ControlledSubstance.to_label(), "Controlled Substance");
    assert_eq!(HazardFields::Statement.to_label(), "Statement");
}

#[test]
fn read_field_matches_the_decomposition_position() {
    let fields = example_chemical_fields();
    let chemical = Chemical::from_fields(&fields).unwrap();
    let decomposed = chemical.get_fields();
    let names = Chemical::get_field_names();

    for (position, id) in names.into_iter().enumerate() {
        assert_eq!(chemical.get_field(id), Some(decomposed[position].clone()));
    }
}

#[test]
fn example_chemical_signal_word_reads_back() {
    let chemical = Chemical::from_fields(&example_chemical_fields()).unwrap();
    assert_eq!(
        chemical.get_field(ChemicalFields::SignalWord),
        Some(Value::Text("Warning".to_string()))
    );
}

#[test]
fn example_chemical_with_text_for_flag_is_a_type_mismatch() {
    let mut fields = example_chemical_fields();
    fields[7] = Value::Text("false".to_string());

    let result = Chemical::from_fields(&fields);

    assert!(matches!(
        result,
        Err(SchemaError::TypeMismatch(ChemicalFields::ControlledSubstance, Kind::Flag))
    ));
}

#[test]
fn short_sequence_is_an_arity_mismatch() {
    let mut fields = example_chemical_fields();
    fields.pop();

    assert!(matches!(Chemical::from_fields(&fields), Err(SchemaError::ArityMismatch)));
    assert!(matches!(Chemical::from_fields(&[]), Err(SchemaError::ArityMismatch)));

    let mut long = example_chemical_fields();
    long.push(Value::Text("extra".to_string()));
    assert!(matches!(Chemical::from_fields(&long), Err(SchemaError::ArityMismatch)));
}

#[test]
fn unknown_label_reports_the_offending_string() {
    let unknown = ChemicalFields::from_label("Molar Mass");
    assert!(matches!(unknown, Err(ref e) if e.label == "Molar Mass"));

    let lowercase = HazardFields::from_label("statement");
    assert!(matches!(lowercase, Err(ref e) if e.label == "statement"));
}
