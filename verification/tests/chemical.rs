use chemicals_lib::interface::{Entry, FieldName};
use chemicals_lib::value::Value;
use chemicals_lib::chemical::{Chemical, ChemicalFields};

#[test]
fn test_chemicalfields_from_str() {
    let chemicalname_field = ChemicalFields::from_label("Chemical Name");
    assert_eq!(chemicalname_field, Ok(ChemicalFields::ChemicalName));

    let purpose_field = ChemicalFields::from_label("Purpose");
    assert_eq!(purpose_field, Ok(ChemicalFields::Purpose));

    let stateofmatter_field = ChemicalFields::from_label("State Of Matter");
    assert_eq!(stateofmatter_field, Ok(ChemicalFields::StateOfMatter));

    let msdssdspath_field = ChemicalFields::from_label("MSDS/SDS Path");
    assert_eq!(msdssdspath_field, Ok(ChemicalFields::MsdsSdsPath));

    let qrcode_field = ChemicalFields::from_label("QR Code");
    assert_eq!(qrcode_field, Ok(ChemicalFields::QrCode));

    let openedlifespan_field = ChemicalFields::from_label("Opened Life Span");
    assert_eq!(openedlifespan_field, Ok(ChemicalFields::OpenedLifeSpan));

    let unopenedlifespan_field = ChemicalFields::from_label("Unopened Life Span");
    assert_eq!(unopenedlifespan_field, Ok(ChemicalFields::UnopenedLifeSpan));

    let controlledsubstance_field = ChemicalFields::from_label("Controlled Substance");
    assert_eq!(controlledsubstance_field, Ok(ChemicalFields::ControlledSubstance));

    let restrictedsubstance_field = ChemicalFields::from_label("Restricted Substance");
    assert_eq!(restrictedsubstance_field, Ok(ChemicalFields::RestrictedSubstance));

    let petroleumbase_field = ChemicalFields::from_label("Petroleum Base");
    assert_eq!(petroleumbase_field, Ok(ChemicalFields::PetroleumBase));

    let signalword_field = ChemicalFields::from_label("Signal Word");
    assert_eq!(signalword_field, Ok(ChemicalFields::SignalWord));
}

#[test]
fn test_chemical_from_fields() {
    let fields = [
        Value::Text("Isopropyl Alcohol".to_string()),
        Value::Text("Cleaning".to_string()),
        Value::Text("Liquid".to_string()),
        Value::Text("Isopropyl Alcohol MSDS".to_string()),
        Value::Text("124".to_string()),
        Value::Text("20 years".to_string()),
        Value::Text("10 years".to_string()),
        Value::Flag(false),
        Value::Flag(false),
        Value::Flag(false),
        Value::Text("Warning".to_string()),
    ];

    let chemical = Chemical::from_fields(&fields).unwrap();

    assert_eq!(chemical.chemical_name, "Isopropyl Alcohol".to_string());
    assert_eq!(chemical.purpose, "Cleaning".to_string());
    assert_eq!(chemical.state_of_matter, "Liquid".to_string());
    assert_eq!(chemical.msds_sds_path, "Isopropyl Alcohol MSDS".to_string());
    assert_eq!(chemical.qr_code, "124".to_string());
    assert_eq!(chemical.opened_life_span, "20 years".to_string());
    assert_eq!(chemical.unopened_life_span, "10 years".to_string());
    assert_eq!(chemical.controlled_substance, false);
    assert_eq!(chemical.restricted_substance, false);
    assert_eq!(chemical.petroleum_base, false);
    assert_eq!(chemical.signal_word, "Warning".to_string());
}

#[test]
fn test_chemical_get_field_names() {
    let field_names = Chemical::get_field_names();

    assert_eq!(field_names[0], ChemicalFields::ChemicalName);
    assert_eq!(field_names[1], ChemicalFields::Purpose);
    assert_eq!(field_names[2], ChemicalFields::StateOfMatter);
    assert_eq!(field_names[3], ChemicalFields::MsdsSdsPath);
    assert_eq!(field_names[4], ChemicalFields::QrCode);
    assert_eq!(field_names[5], ChemicalFields::OpenedLifeSpan);
    assert_eq!(field_names[6], ChemicalFields::UnopenedLifeSpan);
    assert_eq!(field_names[7], ChemicalFields::ControlledSubstance);
    assert_eq!(field_names[8], ChemicalFields::RestrictedSubstance);
    assert_eq!(field_names[9], ChemicalFields::PetroleumBase);
    assert_eq!(field_names[10], ChemicalFields::SignalWord);
    assert_eq!(field_names.len(), 11);
}

#[test]
fn test_chemical_get_fields() {
    let chemical = Chemical {
        chemical_name: "Epoxy".to_string(),
        purpose: "Adhesive".to_string(),
        state_of_matter: "Solid".to_string(),
        msds_sds_path: "Epoxy MSDS".to_string(),
        qr_code: "91622".to_string(),
        opened_life_span: "5 years".to_string(),
        unopened_life_span: "10 years".to_string(),
        controlled_substance: false,
        restricted_substance: false,
        petroleum_base: false,
        signal_word: "Warning".to_string(),
    };

    let fields = chemical.get_fields();

    assert_eq!(fields[0], Value::Text("Epoxy".to_string()));
    assert_eq!(fields[1], Value::Text("Adhesive".to_string()));
    assert_eq!(fields[2], Value::Text("Solid".to_string()));
    assert_eq!(fields[3], Value::Text("Epoxy MSDS".to_string()));
    assert_eq!(fields[4], Value::Text("91622".to_string()));
    assert_eq!(fields[5], Value::Text("5 years".to_string()));
    assert_eq!(fields[6], Value::Text("10 years".to_string()));
    assert_eq!(fields[7], Value::Flag(false));
    assert_eq!(fields[8], Value::Flag(false));
    assert_eq!(fields[9], Value::Flag(false));
    assert_eq!(fields[10], Value::Text("Warning".to_string()));
    assert_eq!(fields.len(), 11);
}

#[test]
fn test_chemical_get_field() {
    let chemical = Chemical {
        chemical_name: "Cyanoacrylate".to_string(),
        purpose: "Adhesive".to_string(),
        state_of_matter: "Solid".to_string(),
        msds_sds_path: "Cyanoacrylate".to_string(),
        qr_code: "5746".to_string(),
        opened_life_span: "15 years".to_string(),
        unopened_life_span: "15 days".to_string(),
        controlled_substance: true,
        restricted_substance: true,
        petroleum_base: true,
        signal_word: "Danger".to_string(),
    };

    let chemical_name = chemical.get_field(ChemicalFields::ChemicalName);

    assert_eq!(chemical_name, Some(Value::Text("Cyanoacrylate".to_string())));
}
