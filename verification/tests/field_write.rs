use ogr_feature::{
    Defn, Error, Feature, FieldValue, FieldWrite, Handle, Request, Response, Step,
};

fn feature_at<'a>(defn: &'a Defn, addr: usize) -> Feature<'a> {
    let counting = match Feature::_with_c_feature(defn, Handle::new(addr)) {
        Step::Ask(creation) => creation,
        Step::Done(_) => panic!("the count is asked for"),
    };
    match counting.resume(Response::Integer(1)) {
        Step::Done(Ok(feature)) => feature,
        other => panic!("unexpected {:?}", other),
    }
}

fn asked(step: Step<FieldWrite, ()>) -> FieldWrite {
    match step {
        Step::Ask(writing) => writing,
        Step::Done(result) => panic!("ended in {:?}", result),
    }
}

#[test]
fn set_field_string_looks_up_then_stores() {
    let defn = Defn::new(Handle::new(1));
    let feature = feature_at(&defn, 2);
    let lookup = asked(feature.set_field_string("Name", "Feature 1"));
    assert_eq!(
        lookup.request(),
        Request::FieldIndex { feature: Handle::new(2), name: "Name".to_string() }
    );
    let store = asked(lookup.resume(Response::Integer(0)));
    assert_eq!(
        store.request(),
        Request::SetFieldString {
            feature: Handle::new(2),
            index: 0,
            value: "Feature 1".to_string(),
        }
    );
    assert_eq!(store.resume(Response::Nothing), Step::Done(Ok(())));
}

#[test]
fn set_field_double_stores_the_bits() {
    let defn = Defn::new(Handle::new(1));
    let feature = feature_at(&defn, 2);
    let lookup = asked(feature.set_field_double("Value", 0.789f64.to_bits()));
    let store = asked(lookup.resume(Response::Integer(1)));
    match store.request() {
        Request::SetFieldDouble { feature, index, value } => {
            assert_eq!(feature, Handle::new(2));
            assert_eq!(index, 1);
            assert_eq!(f64::from_bits(value), 0.789);
        }
        other => panic!("unexpected {:?}", other),
    }
    assert_eq!(store.resume(Response::Nothing), Step::Done(Ok(())));
}

#[test]
fn set_field_integer_stores_the_number() {
    let defn = Defn::new(Handle::new(1));
    let feature = feature_at(&defn, 2);
    let lookup = asked(feature.set_field_integer("Count", -5));
    let store = asked(lookup.resume(Response::Integer(3)));
    assert_eq!(
        store.request(),
        Request::SetFieldInteger { feature: Handle::new(2), index: 3, value: -5 }
    );
    assert_eq!(store.resume(Response::Nothing), Step::Done(Ok(())));
}

#[test]
fn set_field_dispatches_on_the_variant() {
    let defn = Defn::new(Handle::new(1));
    let feature = feature_at(&defn, 2);
    let f = Handle::new(2);

    let store = asked(
        asked(feature.set_field("a", &FieldValue::IntegerValue(9))).resume(Response::Integer(0)),
    );
    assert_eq!(store.request(), Request::SetFieldInteger { feature: f, index: 0, value: 9 });

    let store = asked(
        asked(feature.set_field("b", &FieldValue::RealValue(7))).resume(Response::Integer(1)),
    );
    assert_eq!(store.request(), Request::SetFieldDouble { feature: f, index: 1, value: 7 });

    let store = asked(
        asked(feature.set_field("c", &FieldValue::StringValue("x".to_string())))
            .resume(Response::Integer(2)),
    );
    assert_eq!(
        store.request(),
        Request::SetFieldString { feature: f, index: 2, value: "x".to_string() }
    );
}

#[test]
fn writing_an_unknown_field_stores_nothing() {
    let defn = Defn::new(Handle::new(1));
    let feature = feature_at(&defn, 2);
    let expected = Error::InvalidFieldName {
        field_name: "Values".to_string(),
        method_name: "set_field_string",
    };
    let lookup = asked(feature.set_field_double("Values", 0.789f64.to_bits()));
    assert_eq!(lookup.resume(Response::Integer(-1)), Step::Done(Err(expected)));

    let lookup = asked(feature.set_field_string("Values", "x"));
    assert!(matches!(
        lookup.resume(Response::Integer(-1)),
        Step::Done(Err(Error::InvalidFieldName { .. }))
    ));
    let lookup = asked(feature.set_field_integer("Values", 1));
    assert!(matches!(
        lookup.resume(Response::Integer(-1)),
        Step::Done(Err(Error::InvalidFieldName { .. }))
    ));
}

#[test]
fn a_zero_byte_in_the_name_is_found_before_one_in_the_value() {
    let defn = Defn::new(Handle::new(1));
    let feature = feature_at(&defn, 2);
    assert_eq!(
        feature.set_field_string("N\0", "ab\0"),
        Step::Done(Err(Error::FfiNulError { position: 1 }))
    );
    assert_eq!(
        feature.set_field_string("Name", "ab\0"),
        Step::Done(Err(Error::FfiNulError { position: 2 }))
    );
    assert_eq!(
        feature.set_field_double("\0", 0),
        Step::Done(Err(Error::FfiNulError { position: 0 }))
    );
    assert_eq!(
        feature.set_field_integer("abc\0", 0),
        Step::Done(Err(Error::FfiNulError { position: 3 }))
    );
    assert_eq!(
        feature.set_field("Name", &FieldValue::StringValue("\0".to_string())),
        Step::Done(Err(Error::FfiNulError { position: 0 }))
    );
}

#[test]
fn a_writing_accepts_only_the_answer_it_asked_for() {
    let defn = Defn::new(Handle::new(1));
    let feature = feature_at(&defn, 2);
    let lookup = asked(feature.set_field_integer("Count", 1));
    assert!(lookup.accepts(&Response::Integer(4)));
    assert!(!lookup.accepts(&Response::Nothing));
    let store = asked(lookup.resume(Response::Integer(4)));
    assert!(store.accepts(&Response::Nothing));
    assert!(!store.accepts(&Response::Integer(4)));
}
