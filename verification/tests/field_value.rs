use ogr_feature::{FieldValue, OFT_INTEGER, OFT_REAL, OFT_STRING};

#[test]
fn to_string_yields_text_only_for_text() {
    assert_eq!(
        FieldValue::StringValue("Feature 1".to_string()).to_string(),
        Some("Feature 1".to_string())
    );
    assert_eq!(FieldValue::IntegerValue(7).to_string(), None);
    assert_eq!(FieldValue::RealValue(45.78f64.to_bits()).to_string(), None);
}

#[test]
fn to_real_yields_bits_only_for_real() {
    let got = FieldValue::RealValue(45.78f64.to_bits()).to_real();
    assert_eq!(got.map(f64::from_bits), Some(45.78));
    assert_eq!(FieldValue::IntegerValue(7).to_real(), None);
    assert_eq!(FieldValue::StringValue("45.78".to_string()).to_real(), None);
}

#[test]
fn to_int_yields_number_only_for_integer() {
    assert_eq!(FieldValue::IntegerValue(-3).to_int(), Some(-3));
    assert_eq!(FieldValue::IntegerValue(i32::MIN).to_int(), Some(i32::MIN));
    assert_eq!(FieldValue::RealValue(0).to_int(), None);
    assert_eq!(FieldValue::StringValue(String::new()).to_int(), None);
}

#[test]
fn real_bits_keep_every_value() {
    for x in [0.0f64, -0.0, 0.789, 45.21, f64::MAX, f64::MIN_POSITIVE, f64::INFINITY] {
        let back = FieldValue::RealValue(x.to_bits()).to_real().map(f64::from_bits);
        assert_eq!(back.map(f64::to_bits), Some(x.to_bits()));
    }
    let nan = FieldValue::RealValue(f64::NAN.to_bits()).to_real().map(f64::from_bits);
    assert!(nan.unwrap().is_nan());
}

#[test]
fn field_type_is_the_native_code() {
    assert_eq!(FieldValue::IntegerValue(1).field_type(), OFT_INTEGER);
    assert_eq!(FieldValue::RealValue(1).field_type(), OFT_REAL);
    assert_eq!(FieldValue::StringValue("x".to_string()).field_type(), OFT_STRING);
    assert_eq!((OFT_INTEGER, OFT_REAL, OFT_STRING), (0, 2, 4));
}
