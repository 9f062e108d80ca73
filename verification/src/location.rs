//! Location messages: reading `geo:` URIs, and what becomes of a shared location.
//!
//! Coordinates are handled as text. Turning them into numbers, and numbers back into text, is
//! done by the caller, who reports the outcome as an event.

use vstd::prelude::*;

use crate::text::{
    after_first, after_prefix, before_first, cut, first_index, first_index_at,
    first_index_is_first, is_white, strip_prefix, the_first_index_splits, trim, trim_end,
    trim_end_keeps, trim_start, trimmed, trimmed_after_trim_end, trimming_skips_leading_white_space,
};

verus! {

/// A shared location.
#[derive(Debug, Clone)]
pub struct LocationMessage {
    /// The plain text that comes with the location.
    pub description: String,
    /// The `geo:` URI of the location.
    pub geo_uri: String,
}

/// The texts of the latitude and the longitude in a `geo:` URI: the first two comma-separated
/// parts of what follows `geo:`, up to a semicolon.
pub open spec fn geo_coordinates(geo_uri: Seq<char>) -> Option<(Seq<char>, Seq<char>)> {
    match after_prefix(trimmed(geo_uri), "geo:"@) {
        None => None,
        Some(coordinates) => {
            let pair = before_first(coordinates, ';');
            match after_first(pair, ',') {
                None => None,
                Some(rest) => Some(
                    (trimmed(before_first(pair, ',')), trimmed(before_first(rest, ','))),
                ),
            }
        },
    }
}

/// The texts of the latitude and the longitude in a `geo:` URI.
pub fn parse_geo_uri(geo_uri: &str) -> (res: Option<(String, String)>)
    ensures
        match res {
            Some((latitude, longitude)) => geo_coordinates(geo_uri@) == Some(
                (latitude@, longitude@),
            ),
            None => geo_coordinates(geo_uri@) is None,
        },
{
    match strip_prefix(trim(geo_uri), "geo:") {
        None => None,
        Some(coordinates) => {
            let (pair, _) = cut(coordinates, ';');
            let (latitude, rest) = cut(pair, ',');
            match rest {
                None => None,
                Some(rest) => {
                    let (longitude, _) = cut(rest, ',');
                    Some((trim(latitude).to_owned(), trim(longitude).to_owned()))
                },
            }
        },
    }
}

/// What is said to the chat about a location.
pub open spec fn dispatch_body(
    description: Seq<char>,
    geo_uri: Seq<char>,
    latitude: Seq<char>,
    longitude: Seq<char>,
) -> Seq<char> {
    let text = trimmed(description);
    if text.len() == 0 || text == geo_uri {
        "I'm sharing my location: "@ + latitude + ", "@ + longitude
    } else {
        text + "\n\nShared location: "@ + latitude + ", "@ + longitude
    }
}

/// What is said to the chat about a location: its coordinates, after the description where that
/// is more than the URI itself.
pub fn location_dispatch_body(location: &LocationMessage, latitude: &str, longitude: &str) -> (res:
    String)
    ensures
        res@ == dispatch_body(location.description@, location.geo_uri@, latitude@, longitude@),
{
    let description = trim(location.description.as_str());
    let start = if description.is_empty() || *description == *location.geo_uri.as_str() {
        "I'm sharing my location: ".to_owned()
    } else {
        description.to_owned().concat("\n\nShared location: ")
    };
    start.concat(latitude).concat(", ").concat(longitude)
}

// ---- handling a location message -------------------------------------------

/// How far a location message has been handled.
#[derive(Debug)]
pub enum LocationState {
    /// The coordinates are being turned into numbers.
    Parsing,
    /// The stored location is being updated.
    Updating { latitude: String, longitude: String },
    /// Nothing is left to do.
    Finished,
}

/// What came back from outside.
#[derive(Debug)]
pub enum LocationEvent {
    /// The latitude and the longitude as numbers, written out; nothing if one is no number.
    Coordinates(Option<(String, String)>),
    /// Whether a pending request for the location was resolved.
    Updated(bool),
}

/// What is to be done next.
#[derive(Debug)]
pub enum LocationAction {
    /// Turn the texts into numbers.
    ParseCoordinates { latitude: String, longitude: String },
    /// Update the stored location to the numbers.
    UpdateLocation,
    /// Send a text to the room.
    Reply(String),
    /// Hand a text to the chat.
    Dispatch(String),
    /// Do nothing more.
    Stop,
}

/// Without usable coordinates only the description is left, if there is one.
pub open spec fn is_location_fallback(location: LocationMessage, action: LocationAction) -> bool {
    let text = trimmed(location.description@);
    if text.len() == 0 {
        action is Stop
    } else {
        action matches LocationAction::Dispatch(body) && body@ == text
    }
}

/// How a location message starts out.
pub open spec fn location_starts(
    location: LocationMessage,
    state: LocationState,
    action: LocationAction,
) -> bool {
    match geo_coordinates(location.geo_uri@) {
        Some(coordinates) => {
            &&& state is Parsing
            &&& action matches LocationAction::ParseCoordinates { latitude, longitude } && {
                &&& latitude@ == coordinates.0
                &&& longitude@ == coordinates.1
            }
        },
        None => state is Finished && is_location_fallback(location, action),
    }
}

/// How an event moves a location message on.
pub open spec fn location_moves(
    location: LocationMessage,
    before: LocationState,
    event: LocationEvent,
    after: LocationState,
    action: LocationAction,
) -> bool {
    match (before, event) {
        (LocationState::Parsing, LocationEvent::Coordinates(Some((latitude, longitude)))) => {
            &&& after == LocationState::Updating { latitude, longitude }
            &&& action is UpdateLocation
        },
        (LocationState::Parsing, LocationEvent::Coordinates(None)) => {
            &&& after is Finished
            &&& is_location_fallback(location, action)
        },
        (LocationState::Updating { latitude, longitude }, LocationEvent::Updated(resolved)) => {
            &&& after is Finished
            &&& if resolved {
                action matches LocationAction::Reply(text) && text@ == "Location updated."@
            } else {
                action matches LocationAction::Dispatch(body) && body@ == dispatch_body(
                    location.description@,
                    location.geo_uri@,
                    latitude@,
                    longitude@,
                )
            }
        },
        _ => after is Finished && action is Stop,
    }
}

fn location_fallback(location: &LocationMessage) -> (action: LocationAction)
    ensures
        is_location_fallback(*location, action),
{
    let text = trim(location.description.as_str());
    if text.is_empty() {
        LocationAction::Stop
    } else {
        LocationAction::Dispatch(text.to_owned())
    }
}

/// Starts handling a location message.
pub fn start_location(location: &LocationMessage) -> (res: (LocationState, LocationAction))
    ensures
        location_starts(*location, res.0, res.1),
{
    match parse_geo_uri(location.geo_uri.as_str()) {
        Some((latitude, longitude)) => (
            LocationState::Parsing,
            LocationAction::ParseCoordinates { latitude, longitude },
        ),
        None => (LocationState::Finished, location_fallback(location)),
    }
}

/// Moves a location message on.
pub fn step_location(location: &LocationMessage, state: LocationState, event: LocationEvent) -> (res:
    (LocationState, LocationAction))
    ensures
        location_moves(*location, state, event, res.0, res.1),
{
    match (state, event) {
        (LocationState::Parsing, LocationEvent::Coordinates(Some((latitude, longitude)))) => {
            (LocationState::Updating { latitude, longitude }, LocationAction::UpdateLocation)
        },
        (LocationState::Parsing, LocationEvent::Coordinates(None)) => {
            (LocationState::Finished, location_fallback(location))
        },
        (LocationState::Updating { latitude, longitude }, LocationEvent::Updated(resolved)) => {
            if resolved {
                (LocationState::Finished, LocationAction::Reply("Location updated.".to_owned()))
            } else {
                let body = location_dispatch_body(
                    location,
                    latitude.as_str(),
                    longitude.as_str(),
                );
                (LocationState::Finished, LocationAction::Dispatch(body))
            }
        },
        _ => (LocationState::Finished, LocationAction::Stop),
    }
}

// ---- laws ------------------------------------------------------------------

/// A `geo:` URI gives back the two coordinates it was written with, whether or not parameters
/// follow behind a semicolon.
pub proof fn geo_uri_gives_its_coordinates(
    latitude: Seq<char>,
    longitude: Seq<char>,
    parameters: Seq<char>,
)
    requires
        !latitude.contains(',') && !latitude.contains(';'),
        !longitude.contains(',') && !longitude.contains(';'),
        parameters.len() > 0 ==> parameters[0] == ';',
    ensures
        geo_coordinates("geo:"@ + latitude + ","@ + longitude + parameters) == Some(
            (trimmed(latitude), trimmed(longitude)),
        ),
{
    reveal_strlit("geo:");
    reveal_strlit(",");
    let uri = "geo:"@ + latitude + ","@ + longitude + parameters;
    let comma = latitude.len() as int;
    let semi = comma + 1 + longitude.len();
    assert(uri[0] == 'g');
    assert(trim_start(uri) == uri);
    let j = trim_end_keeps(uri);
    assert(uri[4 + comma] == ',');
    assert(j > 4 + comma);
    let t = uri.take(j);
    assert(trimmed(uri) == t);
    assert(t.take(4) =~= "geo:"@);
    let c = t.skip(4);
    assert(after_prefix(t, "geo:"@) == Some(c));
    assert forall|k: int| 0 <= k < c.len() && k < comma implies #[trigger] c[k] == latitude[k] by {}
    let lon = if parameters.len() > 0 {
        assert(uri[4 + semi] == ';');
        assert(j > 4 + semi);
        assert forall|k: int| 0 <= k < semi implies #[trigger] c[k] != ';' by {
            if k < comma {
                assert(latitude.contains(latitude[k]));
            } else if k > comma {
                assert(c[k] == longitude[k - comma - 1]);
                assert(longitude.contains(longitude[k - comma - 1]));
            }
        }
        first_index_at(c, ';', semi);
        longitude
    } else {
        assert forall|k: int| 0 <= k < c.len() implies #[trigger] c[k] != ';' by {
            if k < comma {
                assert(latitude.contains(latitude[k]));
            } else if k > comma {
                assert(c[k] == longitude[k - comma - 1]);
                assert(longitude.contains(longitude[k - comma - 1]));
            }
        }
        first_index_is_first(c, ';');
        longitude.take(c.len() - comma - 1)
    };
    let pair = before_first(c, ';');
    assert(pair =~= latitude + ","@ + lon);
    assert forall|k: int| 0 <= k < comma implies #[trigger] pair[k] != ',' by {
        assert(latitude.contains(latitude[k]));
    }
    first_index_at(pair, ',', comma);
    assert(before_first(pair, ',') =~= latitude);
    let rest = pair.skip(comma + 1);
    assert(rest =~= lon);
    assert forall|k: int| 0 <= k < rest.len() implies #[trigger] rest[k] != ',' by {
        assert(rest[k] == longitude[k]);
        assert(longitude.contains(longitude[k]));
    }
    first_index_is_first(rest, ',');
    assert(before_first(rest, ',') =~= lon);
    if parameters.len() == 0 {
        assert forall|k: int| lon.len() <= k < longitude.len() implies is_white(
            #[trigger] longitude[k],
        ) by {
            assert(uri[4 + comma + 1 + k] == longitude[k]);
        }
        trimmed_after_trim_end(longitude, lon.len() as int);
    }
}

/// The stored location is updated exactly when both coordinates were read as numbers.
pub proof fn location_is_updated_exactly_with_numbers(
    location: LocationMessage,
    before: LocationState,
    event: LocationEvent,
    after: LocationState,
    action: LocationAction,
)
    requires
        location_moves(location, before, event, after, action),
    ensures
        action is UpdateLocation <==> before is Parsing && (event matches
            LocationEvent::Coordinates(Some(_))),
{
}

/// A location that resolves a pending request is confirmed in the room; one that does not is
/// handed to the chat with its coordinates. Either way the message is finished.
pub proof fn an_updated_location_is_confirmed_or_forwarded(
    location: LocationMessage,
    latitude: String,
    longitude: String,
    resolved: bool,
    after: LocationState,
    action: LocationAction,
)
    requires
        location_moves(
            location,
            (LocationState::Updating { latitude, longitude }),
            LocationEvent::Updated(resolved),
            after,
            action,
        ),
    ensures
        after is Finished,
        resolved <==> action is Reply,
        !resolved <==> action is Dispatch,
{
}

proof fn lemma_geo_with_more_parts(latitude: Seq<char>, longitude: Seq<char>, rest: Seq<char>)
    requires
        !latitude.contains(',') && !latitude.contains(';'),
        !longitude.contains(',') && !longitude.contains(';'),
        rest.len() > 0 && rest[0] == ',',
    ensures
        geo_coordinates("geo:"@ + latitude + ","@ + longitude + rest) == Some(
            (trimmed(latitude), trimmed(longitude)),
        ),
{
    reveal_strlit("geo:");
    reveal_strlit(",");
    let uri = "geo:"@ + latitude + ","@ + longitude + rest;
    let comma = latitude.len() as int;
    let second = comma + 1 + longitude.len();
    assert(uri[0] == 'g');
    assert(trim_start(uri) == uri);
    let j = trim_end_keeps(uri);
    assert(uri[4 + second] == ',');
    assert(j > 4 + second);
    let t = uri.take(j);
    assert(t.take(4) =~= "geo:"@);
    let c = t.skip(4);
    assert(after_prefix(t, "geo:"@) == Some(c));
    assert forall|k: int| 0 <= k <= second implies #[trigger] c[k] != ';' by {
        if k < comma {
            assert(c[k] == latitude[k]);
            assert(latitude.contains(latitude[k]));
        } else if comma < k < second {
            assert(c[k] == longitude[k - comma - 1]);
            assert(longitude.contains(longitude[k - comma - 1]));
        }
    }
    first_index_is_first(c, ';');
    let pair = before_first(c, ';');
    assert(pair.len() > second);
    let tail = pair.skip(second + 1);
    let end = pair.skip(comma + 1);
    assert(end =~= longitude + seq![','] + tail);
    assert(pair =~= latitude + seq![','] + end);
    the_first_index_splits(latitude, ',', end);
    the_first_index_splits(longitude, ',', tail);
}

/// A `geo:` URI gives the latitude and the longitude it was written with, whatever white space
/// stands before it, and whether further coordinates, or parameters, follow behind a comma or a
/// semicolon.
pub proof fn geo_uris_give_latitude_and_longitude(
    geo_uri: &str,
    before: Seq<char>,
    latitude: Seq<char>,
    longitude: Seq<char>,
    rest: Seq<char>,
    res: Option<(String, String)>,
)
    requires
        call_ensures(parse_geo_uri, (geo_uri,), res),
        geo_uri@ == before + ("geo:"@ + latitude + ","@ + longitude + rest),
        forall|i: int| 0 <= i < before.len() ==> is_white(#[trigger] before[i]),
        !latitude.contains(',') && !latitude.contains(';'),
        !longitude.contains(',') && !longitude.contains(';'),
        rest.len() > 0 ==> rest[0] == ';' || rest[0] == ',',
    ensures
        res matches Some((lat, lon)) && lat@ == trimmed(latitude) && lon@ == trimmed(longitude),
{
    trimming_skips_leading_white_space(
        before,
        "geo:"@ + latitude + ","@ + longitude + rest,
    );
    if rest.len() > 0 && rest[0] == ',' {
        lemma_geo_with_more_parts(latitude, longitude, rest);
    } else {
        geo_uri_gives_its_coordinates(latitude, longitude, rest);
    }
}

/// Only a text that starts with `geo:`, white space aside, and holds a comma before any semicolon
/// gives coordinates.
pub proof fn only_geo_uris_give_coordinates(
    geo_uri: &str,
    text: &str,
    res: Option<(String, String)>,
)
    requires
        call_ensures(parse_geo_uri, (geo_uri,), res),
        call_ensures(trim, (geo_uri,), text),
    ensures
        res is Some <==> {
            &&& text@.len() > 4
            &&& text@.take(4) == seq!['g', 'e', 'o', ':']
            &&& exists|at: int|
                {
                    &&& 4 <= at < text@.len()
                    &&& #[trigger] text@[at] == ','
                    &&& forall|k: int| 4 <= k < at ==> #[trigger] text@[k] != ';'
                }
        },
{
    reveal_strlit("geo:");
    assert("geo:"@ =~= seq!['g', 'e', 'o', ':']);
    let t = text@;
    if t.len() >= 4 && t.take(4) == "geo:"@ {
        let c = t.skip(4);
        first_index_is_first(c, ';');
        let pair = before_first(c, ';');
        first_index_is_first(pair, ',');
        if res is Some {
            let at = 4 + first_index(pair, ',');
            assert(t[at] == ',');
            assert forall|k: int| 4 <= k < at implies #[trigger] t[k] != ';' by {
                assert(c[k - 4] != ';');
            }
        }
        if exists|at: int|
            {
                &&& 4 <= at < t.len()
                &&& #[trigger] t[at] == ','
                &&& forall|k: int| 4 <= k < at ==> #[trigger] t[k] != ';'
            } {
            let at = choose|at: int|
                {
                    &&& 4 <= at < t.len()
                    &&& #[trigger] t[at] == ','
                    &&& forall|k: int| 4 <= k < at ==> #[trigger] t[k] != ';'
                };
            if first_index(c, ';') <= at - 4 {
                let semi = first_index(c, ';');
                assert(t[4 + semi] == ';');
                assert(4 + semi != at);
            }
            assert(pair[at - 4] == ',');
            if first_index(pair, ',') == pair.len() {
                assert(pair[at - 4] != ',');
            }
        }
    }
}

/// The chat is told the coordinates as they are: behind the description where there is one that
/// says more than the URI, else alone.
pub proof fn the_chat_is_told_the_coordinates(
    location: &LocationMessage,
    latitude: &str,
    longitude: &str,
    description: &str,
    text: &str,
    res: String,
)
    requires
        call_ensures(location_dispatch_body, (location, latitude, longitude), res),
        description@ == location.description@,
        call_ensures(trim, (description,), text),
    ensures
        text@.len() > 0 && text@ != location.geo_uri@ ==> res@ == text@ + "\n\nShared location: "@
            + latitude@ + ", "@ + longitude@,
        text@.len() == 0 || text@ == location.geo_uri@ ==> res@ == "I'm sharing my location: "@
            + latitude@ + ", "@ + longitude@,
{
}

/// A location starts with reading its coordinates where its URI holds some; else its description
/// goes to the chat, without the white space around it, where there is one.
pub proof fn locations_start_with_their_coordinates(
    location: &LocationMessage,
    uri: &str,
    coordinates: Option<(String, String)>,
    description: &str,
    text: &str,
    res: (LocationState, LocationAction),
)
    requires
        call_ensures(start_location, (location,), res),
        uri@ == location.geo_uri@,
        call_ensures(parse_geo_uri, (uri,), coordinates),
        description@ == location.description@,
        call_ensures(trim, (description,), text),
    ensures
        coordinates matches Some((lat, lon)) ==> res.0 is Parsing && (
        res.1 matches LocationAction::ParseCoordinates { latitude, longitude } && latitude@ == lat@
            && longitude@ == lon@),
        coordinates is None ==> res.0 is Finished && if text@.len() > 0 {
            res.1 matches LocationAction::Dispatch(body) && body@ == text@
        } else {
            res.1 is Stop
        },
{
}

/// The numbers that were read update the stored location. A location that settles a pending
/// request is confirmed; any other goes to the chat with those numbers. Where there were no
/// numbers the description does, where there is one.
pub proof fn locations_are_stored_and_confirmed_or_forwarded(
    location: &LocationMessage,
    latitude: String,
    longitude: String,
    lat: &str,
    lon: &str,
    description: &str,
    text: &str,
    body: String,
    resolved: bool,
    read: (LocationState, LocationAction),
    unread: (LocationState, LocationAction),
    updated: (LocationState, LocationAction),
)
    requires
        call_ensures(
            step_location,
            (
                location,
                LocationState::Parsing,
                LocationEvent::Coordinates(Some((latitude, longitude))),
            ),
            read,
        ),
        call_ensures(
            step_location,
            (location, LocationState::Parsing, LocationEvent::Coordinates(None)),
            unread,
        ),
        call_ensures(step_location, (location, read.0, LocationEvent::Updated(resolved)), updated),
        lat@ == latitude@,
        lon@ == longitude@,
        call_ensures(location_dispatch_body, (location, lat, lon), body),
        description@ == location.description@,
        call_ensures(trim, (description,), text),
    ensures
        read.1 is UpdateLocation,
        unread.0 is Finished && if text@.len() > 0 {
            unread.1 matches LocationAction::Dispatch(said) && said@ == text@
        } else {
            unread.1 is Stop
        },
        updated.0 is Finished,
        resolved ==> (updated.1 matches LocationAction::Reply(said) && said@ == "Location updated."@),
        !resolved ==> (updated.1 matches LocationAction::Dispatch(said) && said@ == body@),
{
}

/// An answer that was not waited for ends a location with nothing done.
pub proof fn unexpected_answers_end_a_location(
    location: &LocationMessage,
    state: LocationState,
    event: LocationEvent,
    res: (LocationState, LocationAction),
)
    requires
        call_ensures(step_location, (location, state, event), res),
        state is Parsing ==> event !is Coordinates,
        state is Updating ==> event !is Updated,
    ensures
        res.0 is Finished,
        res.1 is Stop,
{
}

} // verus!
