use chemicals_lib::interface::{Entry, FieldName};
use chemicals_lib::value::Value;
use chemicals_lib::manufacturer_chemical::{ManufacturerChemical, ManufacturerChemicalFields};

#[test]
fn test_manufacturerchemicalfields_from_str() {
    let manufacturerchemical_field = ManufacturerChemicalFields::from_label("Manufacturer Number");
    assert_eq!(manufacturerchemical_field, Ok(ManufacturerChemicalFields::ManufacturerNumber));
}

#[test]
fn test_manufacturerchemicalfields_from_fields() {
    let fields = [Value::Text("916225746".to_string())];

    let manufacturer_chemical = ManufacturerChemical::from_fields(&fields).unwrap();

    assert_eq!(manufacturer_chemical.manufacturer_number, "916225746".to_string());
}

#[test]
fn test_manufacturerchemical_get_field_names() {
    let field_names = ManufacturerChemical::get_field_names();

    assert_eq!(field_names[0], ManufacturerChemicalFields::ManufacturerNumber);
}

#[test]
fn test_manufacturerchemical_get_fields() {
    let manufacturer_chemical = ManufacturerChemical { manufacturer_number: "444".to_string() };

    let fields = manufacturer_chemical.get_fields();

    assert_eq!(fields[0], Value::Text("444".to_string()));
    assert_eq!(fields.len(), 1);
}

#[test]
fn test_manufacturerchemical_get_field() {
    let manufacturer_chemical = ManufacturerChemical { manufacturer_number: "1234".to_string() };

    let manufacturer_number =
        manufacturer_chemical.get_field(ManufacturerChemicalFields::ManufacturerNumber);

    assert_eq!(manufacturer_number, Some(Value::Text("1234".to_string())));
}
