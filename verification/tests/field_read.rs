use ogr_feature::{
    Defn, Error, Feature, FieldRead, FieldValue, Handle, Request, Response, Step, OFT_INTEGER,
    OFT_REAL, OFT_STRING,
};

fn feature_at<'a>(defn: &'a Defn, addr: usize, geometry_fields: i32) -> Feature<'a> {
    let step = match Feature::new(defn) {
        Step::Ask(creation) => creation.resume(Response::Handle(Handle::new(addr))),
        Step::Done(_) => panic!("making a feature asks first"),
    };
    match step {
        Step::Ask(creation) => match creation.resume(Response::Integer(geometry_fields)) {
            Step::Done(Ok(feature)) => feature,
            other => panic!("unexpected {:?}", other),
        },
        Step::Done(_) => panic!("a handle that is not null is followed by the count"),
    }
}

fn asked(step: Step<FieldRead, FieldValue>) -> FieldRead {
    match step {
        Step::Ask(reading) => reading,
        Step::Done(result) => panic!("ended in {:?}", result),
    }
}

#[test]
fn reading_a_text_field_asks_four_times() {
    let defn = Defn::new(Handle::new(10));
    let feature = feature_at(&defn, 20, 1);
    let f = Handle::new(20);

    let lookup = asked(feature.field("Name"));
    assert_eq!(lookup.request(), Request::FieldIndex { feature: f, name: "Name".to_string() });
    let describe = asked(lookup.resume(Response::Integer(0)));
    assert_eq!(describe.request(), Request::FieldDefnRef { feature: f, index: 0 });
    let classify = asked(describe.resume(Response::Handle(Handle::new(77))));
    assert_eq!(classify.request(), Request::FieldType { field_defn: Handle::new(77) });
    let fetch = asked(classify.resume(Response::Code(OFT_STRING)));
    assert_eq!(fetch.request(), Request::FieldAsString { feature: f, index: 0 });
    assert_eq!(
        fetch.resume(Response::Text("Feature 1".to_string())),
        Step::Done(Ok(FieldValue::StringValue("Feature 1".to_string())))
    );
}

#[test]
fn reading_a_real_field_uses_the_double_getter() {
    let defn = Defn::new(Handle::new(10));
    let feature = feature_at(&defn, 20, 1);
    let lookup = asked(feature.field("Value"));
    let describe = asked(lookup.resume(Response::Integer(1)));
    let classify = asked(describe.resume(Response::Handle(Handle::new(78))));
    let fetch = asked(classify.resume(Response::Code(OFT_REAL)));
    assert_eq!(fetch.request(), Request::FieldAsDouble { feature: Handle::new(20), index: 1 });
    let end = fetch.resume(Response::Real(45.78f64.to_bits()));
    match end {
        Step::Done(Ok(value)) => assert_eq!(value.to_real().map(f64::from_bits), Some(45.78)),
        other => panic!("unexpected {:?}", other),
    }
}

#[test]
fn reading_an_integer_field_uses_the_integer_getter() {
    let defn = Defn::new(Handle::new(10));
    let feature = feature_at(&defn, 20, 1);
    let lookup = asked(feature.field("Count"));
    let describe = asked(lookup.resume(Response::Integer(2)));
    let classify = asked(describe.resume(Response::Handle(Handle::new(79))));
    let fetch = asked(classify.resume(Response::Code(OFT_INTEGER)));
    assert_eq!(fetch.request(), Request::FieldAsInteger { feature: Handle::new(20), index: 2 });
    assert_eq!(
        fetch.resume(Response::Integer(-12)),
        Step::Done(Ok(FieldValue::IntegerValue(-12)))
    );
}

#[test]
fn reading_an_unknown_field_fails_with_invalid_field_name() {
    let defn = Defn::new(Handle::new(10));
    let feature = feature_at(&defn, 20, 1);
    let lookup = asked(feature.field("Values"));
    assert_eq!(
        lookup.resume(Response::Integer(-1)),
        Step::Done(Err(Error::InvalidFieldName {
            field_name: "Values".to_string(),
            method_name: "field",
        }))
    );
}

#[test]
fn reading_a_field_of_another_type_fails_with_unhandled_field_type() {
    let defn = Defn::new(Handle::new(10));
    let feature = feature_at(&defn, 20, 1);
    // 1 is a list of integers, 11 a date and time, 12 a 64-bit integer.
    for code in [1u32, 3, 5, 8, 9, 11, 12, 13, 4000] {
        let lookup = asked(feature.field("Name"));
        let describe = asked(lookup.resume(Response::Integer(0)));
        let classify = asked(describe.resume(Response::Handle(Handle::new(77))));
        assert_eq!(
            classify.resume(Response::Code(code)),
            Step::Done(Err(Error::UnhandledFieldType {
                field_type: code,
                method_name: "OGR_Fld_GetType",
            }))
        );
    }
}

#[test]
fn reading_a_name_with_a_zero_byte_asks_nothing() {
    let defn = Defn::new(Handle::new(10));
    let feature = feature_at(&defn, 20, 1);
    assert_eq!(
        feature.field("Na\0me"),
        Step::Done(Err(Error::FfiNulError { position: 2 }))
    );
}

#[test]
fn a_negative_index_other_than_minus_one_is_an_index() {
    let defn = Defn::new(Handle::new(10));
    let feature = feature_at(&defn, 20, 1);
    let lookup = asked(feature.field("Name"));
    let describe = asked(lookup.resume(Response::Integer(-2)));
    assert_eq!(describe.request(), Request::FieldDefnRef { feature: Handle::new(20), index: -2 });
}

#[test]
fn a_reading_accepts_only_the_answer_it_asked_for() {
    let defn = Defn::new(Handle::new(10));
    let feature = feature_at(&defn, 20, 1);
    let lookup = asked(feature.field("Name"));
    assert!(lookup.accepts(&Response::Integer(0)));
    assert!(!lookup.accepts(&Response::Text("0".to_string())));
    assert!(!lookup.accepts(&Response::Nothing));
    assert!(!lookup.accepts(&Response::Code(0)));
    let describe = asked(lookup.resume(Response::Integer(0)));
    assert!(describe.accepts(&Response::Handle(Handle::null())));
    assert!(!describe.accepts(&Response::Integer(0)));
}
