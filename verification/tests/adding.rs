use ogr_feature::{
    Append, Defn, Error, FieldValue, Geometry, Handle, Layer, Request, Response, Step,
};

fn layer() -> Layer {
    Layer::new(Handle::new(4), Defn::new(Handle::new(5)))
}

fn asked(step: Step<Append<'_>, ()>) -> Append<'_> {
    match step {
        Step::Ask(append) => append,
        Step::Done(result) => panic!("ended in {:?}", result),
    }
}

/// Hands `answers` to the adding one by one and returns the requests that it
/// made, with what it ended in.
fn script<'a>(
    start: Step<Append<'a>, ()>,
    answers: Vec<Response>,
) -> (Vec<Request>, Option<Result<(), Error>>) {
    let mut requests = Vec::new();
    let mut step = start;
    for answer in answers {
        let append = asked(step);
        requests.push(append.request());
        assert!(append.accepts(&answer), "{:?} does not answer {:?}", answer, requests.last());
        step = append.resume(answer);
    }
    match step {
        Step::Ask(append) => {
            requests.push(append.request());
            (requests, None)
        }
        Step::Done(result) => (requests, Some(result)),
    }
}

#[test]
fn adding_a_feature_makes_fills_writes_and_releases() {
    let layer = layer();
    let names = ["Name", "Value"];
    let values =
        [FieldValue::StringValue("Feature 1".to_string()), FieldValue::RealValue(45.78f64.to_bits())];
    let geometry = Geometry::with_c_geometry(Handle::new(90), true);
    let f = Handle::new(6);
    let (requests, end) = script(
        layer.create_feature_fields(geometry, &names, &values),
        vec![
            Response::Handle(f),
            Response::Integer(1),
            Response::Code(0),
            Response::Integer(0),
            Response::Nothing,
            Response::Integer(1),
            Response::Nothing,
            Response::Code(0),
            Response::Nothing,
            Response::Nothing,
        ],
    );
    assert_eq!(
        requests,
        vec![
            Request::FeatureCreate { defn: Handle::new(5) },
            Request::GeomFieldCount { defn: Handle::new(5) },
            Request::SetGeometry { feature: f, geometry: Handle::new(90) },
            Request::FieldIndex { feature: f, name: "Name".to_string() },
            Request::SetFieldString { feature: f, index: 0, value: "Feature 1".to_string() },
            Request::FieldIndex { feature: f, name: "Value".to_string() },
            Request::SetFieldDouble { feature: f, index: 1, value: 45.78f64.to_bits() },
            Request::LayerCreateFeature { layer: Handle::new(4), feature: f },
            Request::FeatureDestroy { feature: f },
            Request::GeometryDestroy { geometry: Handle::new(90) },
        ]
    );
    assert_eq!(end, Some(Ok(())));
}

#[test]
fn adding_with_an_unknown_field_writes_nothing_into_the_layer() {
    let layer = layer();
    let names = ["Abcd", "Value"];
    let values =
        [FieldValue::StringValue("Feature 2".to_string()), FieldValue::RealValue(0.789f64.to_bits())];
    let geometry = Geometry::with_c_geometry(Handle::new(90), true);
    let f = Handle::new(6);
    let (requests, end) = script(
        layer.create_feature_fields(geometry, &names, &values),
        vec![
            Response::Handle(f),
            Response::Integer(1),
            Response::Code(0),
            Response::Integer(-1),
            Response::Nothing,
            Response::Nothing,
        ],
    );
    assert_eq!(
        requests,
        vec![
            Request::FeatureCreate { defn: Handle::new(5) },
            Request::GeomFieldCount { defn: Handle::new(5) },
            Request::SetGeometry { feature: f, geometry: Handle::new(90) },
            Request::FieldIndex { feature: f, name: "Abcd".to_string() },
            Request::FeatureDestroy { feature: f },
            Request::GeometryDestroy { geometry: Handle::new(90) },
        ]
    );
    assert_eq!(
        end,
        Some(Err(Error::InvalidFieldName {
            field_name: "Abcd".to_string(),
            method_name: "set_field_string",
        }))
    );
}

#[test]
fn adding_with_an_unknown_second_field_stores_the_first_only() {
    let layer = layer();
    let names = ["Name", "Values"];
    let values = [FieldValue::IntegerValue(1), FieldValue::IntegerValue(2)];
    let f = Handle::new(6);
    let (requests, end) = script(
        layer.create_feature_fields(Geometry::with_c_geometry(Handle::new(90), false), &names, &values),
        vec![
            Response::Handle(f),
            Response::Integer(1),
            Response::Code(0),
            Response::Integer(0),
            Response::Nothing,
            Response::Integer(-1),
            Response::Nothing,
        ],
    );
    assert!(!requests.iter().any(|r| matches!(r, Request::LayerCreateFeature { .. })));
    assert_eq!(requests.last(), Some(&Request::FeatureDestroy { feature: f }));
    assert_eq!(requests.len(), 7);
    assert!(matches!(end, Some(Err(Error::InvalidFieldName { .. }))));
}

#[test]
fn adding_fails_when_no_feature_can_be_made() {
    let layer = layer();
    let names: [&str; 0] = [];
    let values: [FieldValue; 0] = [];
    let (requests, end) = script(
        layer.create_feature_fields(Geometry::with_c_geometry(Handle::new(90), true), &names, &values),
        vec![
            Response::Handle(Handle::null()),
            Response::Text("no memory".to_string()),
            Response::Nothing,
            Response::Nothing,
        ],
    );
    assert_eq!(
        requests,
        vec![
            Request::FeatureCreate { defn: Handle::new(5) },
            Request::LastErrorMsg,
            Request::ErrorReset,
            Request::GeometryDestroy { geometry: Handle::new(90) },
        ]
    );
    assert_eq!(
        end,
        Some(Err(Error::NullPointer { method_name: "OGR_F_Create", msg: "no memory".to_string() }))
    );
}

#[test]
fn adding_fails_at_once_when_no_feature_can_be_made_for_a_borrowed_geometry() {
    let layer = layer();
    let names: [&str; 0] = [];
    let values: [FieldValue; 0] = [];
    let (requests, end) = script(
        layer.create_feature_fields(Geometry::with_c_geometry(Handle::new(90), false), &names, &values),
        vec![Response::Handle(Handle::null()), Response::Text(String::new()), Response::Nothing],
    );
    assert_eq!(requests.len(), 3);
    assert_eq!(
        end,
        Some(Err(Error::NullPointer { method_name: "OGR_F_Create", msg: String::new() }))
    );
}

#[test]
fn adding_with_a_refused_geometry_releases_geometry_then_feature() {
    let layer = layer();
    let names = ["Name"];
    let values = [FieldValue::IntegerValue(1)];
    let f = Handle::new(6);
    let (requests, end) = script(
        layer.create_feature_fields(Geometry::with_c_geometry(Handle::new(90), true), &names, &values),
        vec![
            Response::Handle(f),
            Response::Integer(1),
            Response::Code(3),
            Response::Nothing,
            Response::Nothing,
        ],
    );
    assert_eq!(
        requests,
        vec![
            Request::FeatureCreate { defn: Handle::new(5) },
            Request::GeomFieldCount { defn: Handle::new(5) },
            Request::SetGeometry { feature: f, geometry: Handle::new(90) },
            Request::GeometryDestroy { geometry: Handle::new(90) },
            Request::FeatureDestroy { feature: f },
        ]
    );
    assert_eq!(end, Some(Err(Error::OgrError { err: 3, method_name: "OGR_F_SetGeometry" })));
}

#[test]
fn adding_without_fields_goes_from_the_geometry_to_the_layer() {
    let layer = layer();
    let names: [&str; 0] = [];
    let values: [FieldValue; 0] = [];
    let f = Handle::new(6);
    let (requests, end) = script(
        layer.create_feature_fields(Geometry::with_c_geometry(Handle::new(90), false), &names, &values),
        vec![
            Response::Handle(f),
            Response::Integer(1),
            Response::Code(0),
            Response::Code(0),
            Response::Nothing,
        ],
    );
    assert_eq!(
        requests,
        vec![
            Request::FeatureCreate { defn: Handle::new(5) },
            Request::GeomFieldCount { defn: Handle::new(5) },
            Request::SetGeometry { feature: f, geometry: Handle::new(90) },
            Request::LayerCreateFeature { layer: Handle::new(4), feature: f },
            Request::FeatureDestroy { feature: f },
        ]
    );
    assert_eq!(end, Some(Ok(())));
}

#[test]
fn adding_pairs_names_and_values_as_far_as_both_reach() {
    let layer = layer();
    let names = ["a", "b", "c"];
    let values = [FieldValue::IntegerValue(1)];
    let f = Handle::new(6);
    let (requests, end) = script(
        layer.create_feature_fields(Geometry::with_c_geometry(Handle::new(90), false), &names, &values),
        vec![
            Response::Handle(f),
            Response::Integer(1),
            Response::Code(0),
            Response::Integer(0),
            Response::Nothing,
            Response::Code(0),
            Response::Nothing,
        ],
    );
    assert_eq!(requests.len(), 7);
    assert_eq!(requests[3], Request::FieldIndex { feature: f, name: "a".to_string() });
    assert_eq!(requests[5], Request::LayerCreateFeature { layer: Handle::new(4), feature: f });
    assert_eq!(end, Some(Ok(())));
}

#[test]
fn adding_keeps_the_status_of_a_refused_write_and_still_releases() {
    let layer = layer();
    let names: [&str; 0] = [];
    let values: [FieldValue; 0] = [];
    let f = Handle::new(6);
    let (requests, end) = script(
        layer.create_feature_fields(Geometry::with_c_geometry(Handle::new(90), true), &names, &values),
        vec![
            Response::Handle(f),
            Response::Integer(1),
            Response::Code(0),
            Response::Code(6),
            Response::Nothing,
            Response::Nothing,
        ],
    );
    assert_eq!(requests[4], Request::FeatureDestroy { feature: f });
    assert_eq!(requests[5], Request::GeometryDestroy { geometry: Handle::new(90) });
    assert_eq!(end, Some(Err(Error::OgrError { err: 6, method_name: "OGR_L_CreateFeature" })));
}

#[test]
fn adding_with_a_zero_byte_in_a_value_releases_the_feature() {
    let layer = layer();
    let names = ["Name"];
    let values = [FieldValue::StringValue("a\0b".to_string())];
    let f = Handle::new(6);
    let (requests, end) = script(
        layer.create_feature_fields(Geometry::with_c_geometry(Handle::new(90), false), &names, &values),
        vec![Response::Handle(f), Response::Integer(1), Response::Code(0), Response::Nothing],
    );
    assert_eq!(requests.len(), 4);
    assert_eq!(requests[3], Request::FeatureDestroy { feature: f });
    assert_eq!(end, Some(Err(Error::FfiNulError { position: 1 })));
}

#[test]
fn adding_does_not_accept_a_geometry_without_a_slot_to_go_into() {
    let layer = layer();
    let names: [&str; 0] = [];
    let values: [FieldValue; 0] = [];
    let start = layer.create_feature_fields(Geometry::with_c_geometry(Handle::new(90), true), &names, &values);
    let append = asked(start);
    let append = asked(append.resume(Response::Handle(Handle::new(6))));
    let append = asked(append.resume(Response::Integer(0)));
    assert!(!append.accepts(&Response::Code(0)));
    assert!(append.accepts(&Response::Code(6)));
    // Given up, it releases the geometry that waits, then the feature.
    assert_eq!(
        append.abandon(),
        vec![
            Request::GeometryDestroy { geometry: Handle::new(90) },
            Request::FeatureDestroy { feature: Handle::new(6) },
        ]
    );
}

#[test]
fn giving_up_releases_what_each_stage_holds() {
    let layer = layer();
    let names = ["Name"];
    let values = [FieldValue::IntegerValue(1)];
    let f = Handle::new(6);
    let geometry = || Geometry::with_c_geometry(Handle::new(90), true);

    // Before the feature is there: the geometry only.
    let append = asked(layer.create_feature_fields(geometry(), &names, &values));
    assert_eq!(append.abandon(), vec![Request::GeometryDestroy { geometry: Handle::new(90) }]);

    // Once the native feature is there, it too.
    let append = asked(layer.create_feature_fields(geometry(), &names, &values));
    let append = asked(append.resume(Response::Handle(f)));
    assert_eq!(
        append.abandon(),
        vec![
            Request::GeometryDestroy { geometry: Handle::new(90) },
            Request::FeatureDestroy { feature: f },
        ]
    );

    // While a field is written: the feature, with the geometry in its slot.
    let append = asked(layer.create_feature_fields(geometry(), &names, &values));
    let append = asked(append.resume(Response::Handle(f)));
    let append = asked(append.resume(Response::Integer(1)));
    let append = asked(append.resume(Response::Code(0)));
    assert_eq!(
        append.abandon(),
        vec![
            Request::FeatureDestroy { feature: f },
            Request::GeometryDestroy { geometry: Handle::new(90) },
        ]
    );

    // While it winds down: what is left after the release that was asked for.
    let append = asked(layer.create_feature_fields(geometry(), &names, &values));
    let append = asked(append.resume(Response::Handle(f)));
    let append = asked(append.resume(Response::Integer(1)));
    let append = asked(append.resume(Response::Code(0)));
    let append = asked(append.resume(Response::Integer(-1)));
    assert_eq!(append.request(), Request::FeatureDestroy { feature: f });
    assert_eq!(append.abandon(), vec![Request::GeometryDestroy { geometry: Handle::new(90) }]);
}
