//! Verb operations: the request each one issues and the result it returns
//! for each way the exchange can end.

use firebase_client::FirebaseClient;
use firebase_client::FirebaseError;
use firebase_client::http::HttpMethod;
use firebase_client::http::ReadOutcome;
use firebase_client::http::read_response;
use firebase_client::http::write_response;

fn client(endpoint: &str) -> FirebaseClient {
    FirebaseClient::new(endpoint.to_string()).expect("endpoint should be accepted")
}

#[test]
fn read_issues_get_against_composed_url() {
    let mut c = client("https://dinosaur-facts.firebaseio.com/");
    c.set_location("dinosaurs");
    let req = c.get_request();
    assert_eq!(req.method, HttpMethod::Get);
    assert_eq!(req.url, "https://dinosaur-facts.firebaseio.com/dinosaurs.json");
    assert!(req.body.is_none());
}

#[test]
fn read_returns_delivered_body_unchanged() {
    let body = "{\"trex\":true}".to_string();
    assert_eq!(read_response(ReadOutcome::BodyText(body)), Ok("{\"trex\":true}".to_string()));
}

#[test]
fn read_maps_transport_failure() {
    assert_eq!(read_response(ReadOutcome::TransportFailed), Err(FirebaseError::TransportError));
}

#[test]
fn read_maps_undecodable_body() {
    assert_eq!(read_response(ReadOutcome::BodyUndecodable), Err(FirebaseError::BodyReadError));
}

#[test]
fn replace_issues_put_with_exact_body() {
    let mut c = client("https://dinosaur-facts.firebaseio.com/");
    c.set_location("dinosaurs");
    let req = c.put_request("{\"name\":\"trex\"}");
    assert_eq!(req.method, HttpMethod::Put);
    assert_eq!(req.url, "https://dinosaur-facts.firebaseio.com/dinosaurs.json");
    assert_eq!(req.body.as_deref(), Some("{\"name\":\"trex\"}"));
}

#[test]
fn create_child_issues_post() {
    let c = client("https://abc.firebaseio.com/");
    let req = c.post_request("{\"a\":1}");
    assert_eq!(req.method, HttpMethod::Post);
    assert_eq!(req.url, "https://abc.firebaseio.com/.json");
    assert_eq!(req.body.as_deref(), Some("{\"a\":1}"));
}

#[test]
fn merge_update_is_issued_as_post() {
    let c = client("https://abc.firebaseio.com/");
    let req = c.patch_request("{\"a\":1}");
    assert_eq!(req.method, HttpMethod::Post);
    assert_eq!(req.body.as_deref(), Some("{\"a\":1}"));
}

#[test]
fn remove_issues_delete_without_body() {
    let mut c = client("https://abc.firebaseio.com/");
    c.set_location("old");
    let req = c.delete_request();
    assert_eq!(req.method, HttpMethod::Delete);
    assert_eq!(req.url, "https://abc.firebaseio.com/old.json");
    assert!(req.body.is_none());
}

#[test]
fn verb_requests_carry_query_modifiers() {
    let mut c = client("https://abc.firebaseio.com/");
    c.set_location("dinosaurs");
    c.order_by("height");
    assert_eq!(c.get_request().url, "https://abc.firebaseio.com/dinosaurs.json?orderBy=height");
    assert_eq!(c.delete_request().url, "https://abc.firebaseio.com/dinosaurs.json?orderBy=height");
}

#[test]
fn write_succeeds_exactly_when_exchange_completed() {
    assert_eq!(write_response(true), Ok(()));
    assert_eq!(write_response(false), Err(FirebaseError::TransportError));
}
