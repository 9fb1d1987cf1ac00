use reddit_feed::error::RequestError;
use reddit_feed::json::{decode_body, empty_object, settle_exchange, settle_post, string_member};
use reddit_feed::publish::publish_request;
use reddit_feed::requester::{Credential, HttpMethod, PreparedRequest, ReqHeader, Requester};
use reddit_feed::text::decimal_text;

fn pairs(p: &PreparedRequest) -> Vec<(String, String)> {
    p.headers.iter().map(|h| (h.name.clone(), h.value.clone())).collect()
}

#[test]
fn get_without_headers_sends_json_content_type_only() {
    let r = Requester::new(String::from("https://example.com/api"));
    let p = r.prepare_get().unwrap();
    assert_eq!(p.method, HttpMethod::Get);
    assert_eq!(p.url, "https://example.com/api");
    assert_eq!(pairs(&p), vec![(String::from("Content-Type"), String::from("application/json"))]);
    assert!(matches!(p.credential, Credential::Anonymous));
    assert!(p.body.is_none());
}

#[test]
fn post_without_headers_sends_json_content_type_only() {
    let mut r = Requester::new(String::from("https://example.com/items"));
    r.set_data(String::from("{\"a\":1}"));
    let p = r.prepare_post().unwrap().unwrap();
    assert_eq!(p.method, HttpMethod::Post);
    assert_eq!(pairs(&p), vec![(String::from("Content-Type"), String::from("application/json"))]);
    assert_eq!(p.body.as_deref(), Some("{\"a\":1}"));
}

#[test]
fn added_headers_replace_the_default() {
    let mut r = Requester::new(String::from("https://example.com/"));
    r.add_header("User-Agent", "Rust Program");
    r.add_header("X-Trace", "1");
    r.add_header("X-Trace", "2");
    let p = r.prepare_get().unwrap();
    assert_eq!(
        pairs(&p),
        vec![
            (String::from("User-Agent"), String::from("Rust Program")),
            (String::from("X-Trace"), String::from("1")),
            (String::from("X-Trace"), String::from("2")),
        ]
    );
}

#[test]
fn garbage_header_is_passed_through() {
    let mut r = Requester::new(String::from("https://example.com/"));
    r.add_header("bad name:", "\u{7f}value");
    let p = r.prepare_get().unwrap();
    assert_eq!(pairs(&p), vec![(String::from("bad name:"), String::from("\u{7f}value"))]);
}

#[test]
fn post_without_body_has_nothing_to_send() {
    let r = Requester::new(String::from("https://example.com/"));
    assert!(matches!(r.prepare_post(), Ok(None)));
    let bad = Requester::new(String::new());
    assert!(matches!(bad.prepare_post(), Ok(None)));
    assert_eq!(empty_object(), serde_json::Value::Object(serde_json::Map::new()));
    assert_eq!(empty_object().to_string(), "{}");
}

#[test]
fn bearer_set_after_basic_is_the_credential_sent() {
    let mut r = Requester::new(String::from("https://example.com/"));
    r.set_authorization(String::from("id"), String::from("secret"));
    r.set_oauth(String::from("tok"));
    r.set_data(String::from("x"));
    for _ in 0..2 {
        let g = r.prepare_get().unwrap();
        assert!(matches!(&g.credential, Credential::Bearer { token } if token == "tok"));
        let p = r.prepare_post().unwrap().unwrap();
        assert!(matches!(&p.credential, Credential::Bearer { token } if token == "tok"));
    }
}

#[test]
fn basic_credential_is_kept_for_sending() {
    let mut r = Requester::new(String::from("https://example.com/"));
    r.set_authorization(String::from("id"), String::from("secret"));
    let p = r.prepare_get().unwrap();
    assert!(matches!(&p.credential,
        Credential::Basic { username, password } if username == "id" && password == "secret"));
}

#[test]
fn url_can_be_replaced_between_sends() {
    let mut r = Requester::new(String::from("https://example.com/a"));
    assert_eq!(r.prepare_get().unwrap().url, "https://example.com/a");
    r.set_url(String::from("https://example.com/b"));
    assert_eq!(r.prepare_get().unwrap().url, "https://example.com/b");
    assert_eq!(r.prepare_get().unwrap().uri.path(), "/b");
}

#[test]
fn unparsable_url_is_invalid() {
    let r = Requester::new(String::new());
    assert!(matches!(r.prepare_get(), Err(RequestError::InvalidUrl)));
    let mut r = Requester::new(String::from("https://"));
    assert!(matches!(r.prepare_get(), Err(RequestError::InvalidUrl)));
    r.set_data(String::from("x"));
    assert!(matches!(r.prepare_post(), Err(RequestError::InvalidUrl)));
    let r = Requester::new(String::from("http://[::1/x"));
    assert!(matches!(r.prepare_get(), Err(RequestError::InvalidUrl)));
    for text in ["not a url", "/x", "example.com", "ftp://example.com/"] {
        let mut r = Requester::new(String::from(text));
        assert!(matches!(r.prepare_get(), Err(RequestError::InvalidUrl)), "{}", text);
        r.set_data(String::from("{}"));
        assert!(matches!(r.prepare_post(), Err(RequestError::InvalidUrl)), "{}", text);
    }
}

#[test]
fn unresolvable_host_is_still_a_valid_request() {
    let r = Requester::new(String::from("https://example.invalid/"));
    let p = r.prepare_get().unwrap();
    assert_eq!(p.uri.host(), Some("example.invalid"));
}

#[test]
fn failed_transport_is_a_network_error() {
    assert!(matches!(settle_exchange(None), Err(RequestError::NetworkError)));
}

#[test]
fn received_body_is_decoded() {
    let v = settle_exchange(Some(b"{\"kind\":\"Listing\",\"n\":3}".to_vec())).unwrap();
    assert_eq!(v["kind"], "Listing");
    assert_eq!(v["n"], 3);
    let v = decode_body(b"[1, 2]").unwrap();
    assert_eq!(v, serde_json::Value::Array(vec![1.into(), 2.into()]));
}

#[test]
fn bad_body_is_a_decode_error() {
    assert!(matches!(decode_body(b"{\"kind\":"), Err(RequestError::DecodeError)));
    assert!(matches!(decode_body(b"<html>"), Err(RequestError::DecodeError)));
    assert!(matches!(decode_body(b""), Err(RequestError::DecodeError)));
    assert!(matches!(settle_exchange(Some(Vec::new())), Err(RequestError::DecodeError)));
}

#[test]
fn json_body_round_trips() {
    let text = "{\"id\":\"t1_x\",\"feed\":\"Reddit\",\"tags\":[\"a\",null,true],\"n\":-17}";
    let v = decode_body(text.as_bytes()).unwrap();
    let again = decode_body(serde_json::to_string(&v).unwrap().as_bytes()).unwrap();
    assert_eq!(v, again);
}

#[test]
fn string_member_reads_string_fields_only() {
    let v = decode_body(b"{\"a\":\"x\",\"b\":1,\"c\":null}").unwrap();
    assert_eq!(string_member(&v, "a"), Some(String::from("x")));
    assert_eq!(string_member(&v, "b"), None);
    assert_eq!(string_member(&v, "c"), None);
    assert_eq!(string_member(&v, "d"), None);
    let arr = decode_body(b"[\"a\"]").unwrap();
    assert_eq!(string_member(&arr, "a"), None);
}

#[test]
fn header_constructor_keeps_name_and_value() {
    let h = ReqHeader::new(String::from("Accept"), String::from("application/json"));
    assert_eq!(h.name, "Accept");
    assert_eq!(h.value, "application/json");
}

#[test]
fn decimal_text_writes_digits() {
    assert_eq!(decimal_text(0), "0");
    assert_eq!(decimal_text(7), "7");
    assert_eq!(decimal_text(10), "10");
    assert_eq!(decimal_text(12345), "12345");
    assert_eq!(decimal_text(usize::MAX), usize::MAX.to_string());
}

#[test]
fn post_outcomes_are_settled() {
    assert_eq!(settle_post(None).unwrap(), serde_json::Value::Object(serde_json::Map::new()));
    assert!(matches!(settle_post(Some(None)), Err(RequestError::NetworkError)));
    assert_eq!(settle_post(Some(Some(b"{\"ok\":true}".to_vec()))).unwrap()["ok"], true);
    assert!(matches!(settle_post(Some(Some(b"{".to_vec()))), Err(RequestError::DecodeError)));
}

#[test]
fn publish_request_is_a_json_post() {
    let json = String::from("{\"title\":\"Reddit\"}");
    let r = publish_request(String::from("http://feeds.example.com/feed"), json.clone());
    let p = r.prepare_post().unwrap().unwrap();
    assert_eq!(p.url, "http://feeds.example.com/feed");
    assert_eq!(p.body.as_deref(), Some(json.as_str()));
    assert_eq!(
        pairs(&p),
        vec![
            (String::from("Content-Type"), String::from("application/json")),
            (String::from("User-Agent"), String::from("Rust Program")),
            (String::from("Accept"), String::from("application/json")),
            (String::from("Content-Length"), String::from("18")),
        ]
    );
    assert!(matches!(p.credential, Credential::Anonymous));
}
