use moltis::location::{
    location_dispatch_body, parse_geo_uri, start_location, step_location, LocationAction,
    LocationEvent, LocationMessage, LocationState,
};

fn numbers(uri: &str) -> Option<(f64, f64)> {
    let (latitude, longitude) = parse_geo_uri(uri)?;
    Some((latitude.parse().ok()?, longitude.parse().ok()?))
}

fn place(description: &str, geo_uri: &str) -> LocationMessage {
    LocationMessage { description: description.to_string(), geo_uri: geo_uri.to_string() }
}

#[test]
fn parse_geo_uri_accepts_location_with_accuracy_suffix() {
    assert_eq!(numbers("geo:51.5008,-0.1247;u=35"), Some((51.5008, -0.1247)));
}

#[test]
fn location_dispatch_body_includes_coordinates() {
    let location = place("Meet me here", "geo:38.7223,-9.1393");

    assert_eq!(
        location_dispatch_body(&location, &38.7223f64.to_string(), &(-9.1393f64).to_string()),
        "Meet me here\n\nShared location: 38.7223, -9.1393"
    );
}

#[test]
fn geo_uris_give_back_their_coordinates() {
    let pair = |a: &str, b: &str| Some((a.to_string(), b.to_string()));
    assert_eq!(parse_geo_uri("geo:1,2"), pair("1", "2"));
    assert_eq!(parse_geo_uri("  geo: 1 , 2 ;u=3 "), pair("1", "2"));
    assert_eq!(parse_geo_uri("geo:1,2,3"), pair("1", "2"));
    assert_eq!(parse_geo_uri("geo:1,"), pair("1", ""));
    assert_eq!(parse_geo_uri("geo:1;2,3"), None);
    assert_eq!(parse_geo_uri("geo:1"), None);
    assert_eq!(parse_geo_uri("GEO:1,2"), None);
    assert_eq!(parse_geo_uri("ge"), None);
    assert_eq!(numbers("geo:north,2"), None);
}

#[test]
fn descriptions_that_repeat_the_uri_are_left_out() {
    let text = "I'm sharing my location: 1, 2";
    assert_eq!(location_dispatch_body(&place(" geo:1,2 ", "geo:1,2"), "1", "2"), text);
    assert_eq!(location_dispatch_body(&place("  ", "geo:1,2"), "1", "2"), text);
}

#[test]
fn a_location_without_coordinates_falls_back_to_its_description() {
    match start_location(&place(" the pub ", "somewhere")) {
        (LocationState::Finished, LocationAction::Dispatch(body)) => assert_eq!(body, "the pub"),
        other => panic!("{other:?}"),
    }
    match start_location(&place("  ", "somewhere")) {
        (LocationState::Finished, LocationAction::Stop) => {},
        other => panic!("{other:?}"),
    }
    let location = place("the pub", "geo:north,2");
    let (state, action) = start_location(&location);
    assert!(matches!(action, LocationAction::ParseCoordinates { .. }));
    match step_location(&location, state, LocationEvent::Coordinates(None)) {
        (LocationState::Finished, LocationAction::Dispatch(body)) => assert_eq!(body, "the pub"),
        other => panic!("{other:?}"),
    }
}

#[test]
fn a_location_is_confirmed_or_forwarded() {
    let location = place("", "geo:1.50,2;u=3");
    let run = |resolved: bool| {
        let (state, action) = start_location(&location);
        match action {
            LocationAction::ParseCoordinates { latitude, longitude } => {
                assert_eq!((latitude.as_str(), longitude.as_str()), ("1.50", "2"));
            },
            other => panic!("{other:?}"),
        }
        let numbers = Some(("1.5".to_string(), "2".to_string()));
        let (state, action) = step_location(&location, state, LocationEvent::Coordinates(numbers));
        assert!(matches!(action, LocationAction::UpdateLocation));
        step_location(&location, state, LocationEvent::Updated(resolved))
    };
    match run(true) {
        (LocationState::Finished, LocationAction::Reply(text)) => {
            assert_eq!(text, "Location updated.");
        },
        other => panic!("{other:?}"),
    }
    match run(false) {
        (LocationState::Finished, LocationAction::Dispatch(body)) => {
            assert_eq!(body, "I'm sharing my location: 1.5, 2");
        },
        other => panic!("{other:?}"),
    }
}

#[test]
fn out_of_turn_answers_end_a_location() {
    let location = place("x", "geo:1,2");
    let (state, action) =
        step_location(&location, LocationState::Parsing, LocationEvent::Updated(true));
    assert!(matches!(state, LocationState::Finished));
    assert!(matches!(action, LocationAction::Stop));
}
