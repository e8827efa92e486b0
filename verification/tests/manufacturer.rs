use chemicals_lib::interface::{Entry, FieldName};
use chemicals_lib::value::Value;
use chemicals_lib::manufacturer::{Manufacturer, ManufacturerFields};

#[test]
fn test_manufacturerfields_from_str() {
    let companyname_field = ManufacturerFields::from_label("Company Name");
    assert_eq!(companyname_field, Ok(ManufacturerFields::CompanyName));

    let address_field = ManufacturerFields::from_label("Address");
    assert_eq!(address_field, Ok(ManufacturerFields::Address));

    let phonenumber_field = ManufacturerFields::from_label("Phone Number");
    assert_eq!(phonenumber_field, Ok(ManufacturerFields::PhoneNumber));

    let website_field = ManufacturerFields::from_label("Website");
    assert_eq!(website_field, Ok(ManufacturerFields::Website));
}

#[test]
fn test_manufacturer_from_fields() {
    let fields = [
        Value::Text("Science Labs".to_string()),
        Value::Text("234 Math Ave".to_string()),
        Value::Text("123-456-7890".to_string()),
        Value::Text("sciencelab.org".to_string()),
    ];

    let manufacturer = Manufacturer::from_fields(&fields).unwrap();

    assert_eq!(manufacturer.company_name, "Science Labs".to_string());
    assert_eq!(manufacturer.address, "234 Math Ave".to_string());
    assert_eq!(manufacturer.phone_number, "123-456-7890".to_string());
    assert_eq!(manufacturer.website, "sciencelab.org".to_string());
}

#[test]
fn test_manufacturer_get_field_names() {
    let field_names = Manufacturer::get_field_names();

    assert_eq!(field_names[0], ManufacturerFields::CompanyName);
    assert_eq!(field_names[1], ManufacturerFields::Address);
    assert_eq!(field_names[2], ManufacturerFields::PhoneNumber);
    assert_eq!(field_names[3], ManufacturerFields::Website);
    assert_eq!(field_names.len(), 4);
}

#[test]
fn test_manufacturer_get_fields() {
    let manufacturer = Manufacturer {
        company_name: "McMaster".to_string(),
        address: "111 McMaster Lane".to_string(),
        phone_number: "000-000-0000".to_string(),
        website: "mcmaster.org".to_string(),
    };

    let fields = manufacturer.get_fields();

    assert_eq!(fields[0], Value::Text("McMaster".to_string()));
    assert_eq!(fields[1], Value::Text("111 McMaster Lane".to_string()));
    assert_eq!(fields[2], Value::Text("000-000-0000".to_string()));
    assert_eq!(fields[3], Value::Text("mcmaster.org".to_string()));
    assert_eq!(fields.len(), 4);
}

#[test]
fn test_manufacturer_get_field() {
    let manufacturer = Manufacturer {
        company_name: "Amazon".to_string(),
        address: "Seattle".to_string(),
        phone_number: "732-215-1234".to_string(),
        website: "amazon.com".to_string(),
    };

    let company_name = manufacturer.get_field(ManufacturerFields::CompanyName);

    assert_eq!(company_name, Some(Value::Text("Amazon".to_string())));
}
