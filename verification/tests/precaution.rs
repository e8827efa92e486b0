use chemicals_lib::interface::{Entry, FieldName};
use chemicals_lib::value::Value;
use chemicals_lib::precaution::{Precaution, PrecautionFields};

#[test]
fn test_precautionfields_from_str() {
    let precaution_field = PrecautionFields::from_label("Statement");
    assert_eq!(precaution_field, Ok(PrecautionFields::Statement));
}

#[test]
fn test_precaution_from_fields() {
    let fields = [Value::Text("916225746".to_string())];

    let precaution = Precaution::from_fields(&fields).unwrap();

    assert_eq!(precaution.statement, "916225746".to_string());
}

#[test]
fn test_precaution_get_field_names() {
    let field_names = Precaution::get_field_names();

    assert_eq!(field_names[0], PrecautionFields::Statement);
}

#[test]
fn test_precaution_get_fields() {
    let precaution = Precaution { statement: "444".to_string() };

    let fields = precaution.get_fields();

    assert_eq!(fields[0], Value::Text("444".to_string()));
    assert_eq!(fields.len(), 1);
}

#[test]
fn test_precaution_get_field() {
    let precaution = Precaution { statement: "1234".to_string() };

    let statement = precaution.get_field(PrecautionFields::Statement);

    assert_eq!(statement, Some(Value::Text("1234".to_string())));
}
