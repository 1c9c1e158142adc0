use astrotools::json::ToJson;
use astrotools::properties::ChoiceProperty;
use astrotools::properties::Permission;
use astrotools::properties::Property;
use astrotools::properties::PropertyError;
use astrotools::properties::RangeProperty;
use astrotools::LightspeedError;
use std::io::Error;
use std::io::ErrorKind;

#[test]
fn test_serialize_num_prop() {
    let p = Property::new(5, Permission::ReadOnly);
    assert_eq!(p.to_json(), r#"{"value":5,"permission":"ReadOnly"}"#);
}

#[test]
fn test_serialize_str_prop() {
    let p = RangeProperty::new(5, Permission::ReadOnly, -1000, 3000);
    assert_eq!(
        p.to_json(),
        r#"{"value":5,"permission":"ReadOnly","range":{"min":-1000,"max":3000}}"#
    );
}

#[test]
fn test_serialize_bool_prop() {
    let p = Property::new(true, Permission::ReadOnly);
    assert_eq!(p.to_json(), r#"{"value":true,"permission":"ReadOnly"}"#);
}

#[test]
fn test_serialize_lightspeed_error() {
    let custom_error_1 = Error::new(ErrorKind::Other, "oh no!");
    let custom_error_2 = Error::from(ErrorKind::NotConnected);
    let e1 = LightspeedError::IoError(custom_error_1.kind().to_string());
    let e2 = LightspeedError::IoError(custom_error_2.kind().to_string());
    assert_eq!("{\"IoError\":\"other error\"}", e1.to_json());
    assert_eq!("{\"IoError\":\"not connected\"}", e2.to_json());
}

#[test]
fn test_serialize_readwrite_permission() {
    let p = Property::new(3, Permission::ReadWrite);
    assert_eq!(p.to_json(), r#"{"value":3,"permission":"ReadWrite"}"#);
}

#[test]
fn test_serialize_string_prop_escapes() {
    let p = Property::new(String::from("say \"hi\"\\\n"), Permission::ReadOnly);
    assert_eq!(p.to_json(), r#"{"value":"say \"hi\"\\\n","permission":"ReadOnly"}"#);
}

#[test]
fn test_serialize_choice_prop() {
    let p = ChoiceProperty::new(1_i64, Permission::ReadWrite, vec![0, 1, 2, 3]);
    assert_eq!(
        p.to_json(),
        r#"{"value":1,"permission":"ReadWrite","choices":[0,1,2,3]}"#
    );
}

#[test]
fn test_serialize_empty_choice_list() {
    let p = ChoiceProperty::new(0_i64, Permission::ReadOnly, vec![]);
    assert_eq!(p.to_json(), r#"{"value":0,"permission":"ReadOnly","choices":[]}"#);
}

#[test]
fn test_serialize_integer_extremes() {
    assert_eq!(0_i64.to_json(), "0");
    assert_eq!((-5_i64).to_json(), "-5");
    assert_eq!(i64::MIN.to_json(), "-9223372036854775808");
    assert_eq!(i64::MAX.to_json(), "9223372036854775807");
    assert_eq!(u64::MAX.to_json(), "18446744073709551615");
    assert_eq!(0_u64.to_json(), "0");
}

#[test]
fn test_serialize_error_variants() {
    let e = LightspeedError::PropertyError(PropertyError::CannotUpdateReadOnlyProp);
    assert_eq!(e.to_json(), r#"{"PropertyError":"CannotUpdateReadOnlyProp"}"#);
    let e = LightspeedError::PropertyError(PropertyError::InvalidValue);
    assert_eq!(e.to_json(), r#"{"PropertyError":"InvalidValue"}"#);
    let e = LightspeedError::UnknownProperty;
    assert_eq!(e.to_json(), "\"UnknownProperty\"");
    let e = LightspeedError::DeviceConnectionError;
    assert_eq!(e.to_json(), "\"DeviceConnectionError\"");
}

#[test]
fn test_error_from_property_error() {
    let e = LightspeedError::from(PropertyError::InvalidValue);
    assert_eq!(e, LightspeedError::PropertyError(PropertyError::InvalidValue));
}
