//! Construction and URL composition.

use firebase_client::FirebaseClient;
use firebase_client::FirebaseError;

fn client(endpoint: &str) -> FirebaseClient {
    FirebaseClient::new(endpoint.to_string()).expect("endpoint should be accepted")
}

#[test]
fn accepts_plain_endpoint() {
    assert!(FirebaseClient::new("https://abc.firebaseio.com/".to_string()).is_ok());
}

#[test]
fn accepts_hyphenated_endpoint() {
    assert!(FirebaseClient::new("https://dinosaur-facts.firebaseio.com/".to_string()).is_ok());
}

#[test]
fn rejects_wrong_scheme() {
    let r = FirebaseClient::new("http://x.firebaseio.com/".to_string());
    assert_eq!(r.err(), Some(FirebaseError::InvalidEndpoint));
}

#[test]
fn rejects_empty_string() {
    let r = FirebaseClient::new(String::new());
    assert_eq!(r.err(), Some(FirebaseError::InvalidEndpoint));
}

#[test]
fn rejects_empty_host_label() {
    let r = FirebaseClient::new("https://.firebaseio.com/".to_string());
    assert_eq!(r.err(), Some(FirebaseError::InvalidEndpoint));
}

#[test]
fn rejects_missing_trailing_slash() {
    let r = FirebaseClient::new("https://abc.firebaseio.com".to_string());
    assert_eq!(r.err(), Some(FirebaseError::InvalidEndpoint));
}

#[test]
fn accepts_any_character_for_the_dots() {
    // The two dots of the pattern are unescaped, so any character stands in
    // for them; this laxity is part of the documented behaviour.
    assert!(FirebaseClient::new("https://abcXfirebaseio.com/".to_string()).is_ok());
    assert!(FirebaseClient::new("https://abc.firebaseioXcom/".to_string()).is_ok());
}

#[test]
fn accepts_pattern_anywhere_in_the_string() {
    // The check looks for a match anywhere in the candidate, not only at
    // the start or the end.
    assert!(FirebaseClient::new("xxhttps://abc.firebaseio.com/yy".to_string()).is_ok());
}

#[test]
fn composes_bare_url_without_segments() {
    let c = client("https://abc.firebaseio.com/");
    assert_eq!(c.compose_url(), "https://abc.firebaseio.com/.json");
}

#[test]
fn composes_path_in_call_order() {
    let mut c = client("https://dinosaur-facts.firebaseio.com/");
    c.set_location("dinosaurs");
    c.set_location("trex");
    assert_eq!(c.compose_url(), "https://dinosaur-facts.firebaseio.com/dinosaurs/trex.json");
}

#[test]
fn clear_locations_drops_all_segments() {
    let mut c = client("https://abc.firebaseio.com/");
    c.set_location("dinosaurs");
    c.set_location("trex");
    c.clear_locations();
    assert_eq!(c.compose_url(), "https://abc.firebaseio.com/.json");
}

#[test]
fn order_by_alone_introduces_query() {
    let mut c = client("https://abc.firebaseio.com/");
    c.order_by("name");
    assert_eq!(c.compose_url(), "https://abc.firebaseio.com/.json?orderBy=name");
}

#[test]
fn modifiers_keep_fixed_order_regardless_of_call_order() {
    let mut c = client("https://abc.firebaseio.com/");
    c.limit_to_first("5");
    c.order_by("name");
    assert_eq!(c.compose_url(), "https://abc.firebaseio.com/.json?orderBy=name&limitToFirst=5");
}

#[test]
fn each_modifier_shows_under_its_name() {
    let mut c = client("https://abc.firebaseio.com/");
    c.order_by("a");
    c.limit_to_first("1");
    c.limit_to_last("2");
    c.start_at("3");
    c.end_at("4");
    c.equal_to("5");
    assert_eq!(
        c.compose_url(),
        "https://abc.firebaseio.com/.json?orderBy=a&limitToFirst=1&limitToLast=2&startAt=3&endAt=4&equalTo=5"
    );
}

#[test]
fn later_modifier_alone_still_opens_with_question_mark() {
    let mut c = client("https://abc.firebaseio.com/");
    c.equal_to("7");
    assert_eq!(c.compose_url(), "https://abc.firebaseio.com/.json?equalTo=7");
}

#[test]
fn setter_overwrites_earlier_value() {
    let mut c = client("https://abc.firebaseio.com/");
    c.order_by("a");
    c.order_by("b");
    assert_eq!(c.compose_url(), "https://abc.firebaseio.com/.json?orderBy=b");
}

#[test]
fn empty_value_leaves_modifier_unset() {
    let mut c = client("https://abc.firebaseio.com/");
    c.order_by("");
    assert_eq!(c.compose_url(), "https://abc.firebaseio.com/.json");
}

#[test]
fn clear_parameters_drops_all_modifiers() {
    let mut c = client("https://abc.firebaseio.com/");
    c.set_location("dinosaurs");
    c.order_by("name");
    c.limit_to_first("5");
    c.equal_to("trex");
    c.clear_parameters();
    let url = c.compose_url();
    assert_eq!(url, "https://abc.firebaseio.com/dinosaurs.json");
    assert!(!url.contains('?'));
}

#[test]
fn composing_twice_yields_identical_strings() {
    let mut c = client("https://abc.firebaseio.com/");
    c.set_location("dinosaurs");
    c.order_by("name");
    assert_eq!(c.compose_url(), c.compose_url());
}
