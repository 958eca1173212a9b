use posthog_client::{ApiOptions, Client, Event, InnerEvent, Properties, Timestamp};

fn options() -> ApiOptions {
    ApiOptions::new("https://example.com/".to_string(), "api_key".to_string())
}

#[test]
fn wire_payload_flattens_properties() {
    let mut event = Event::new("event".to_string(), "distinct_id".to_string());
    event.insert_prop("key".to_string(), "value".to_string());
    let inner = InnerEvent::new(event, "api_key".to_string());
    let json = inner.to_json();
    assert_eq!(
        json,
        "{\"api_key\":\"api_key\",\"event\":\"event\",\"properties\":{\"distinct_id\":\"distinct_id\",\"key\":\"value\"},\"timestamp\":null}"
    );
}

#[test]
fn wire_payload_field_order_independent() {
    let mut event = Event::new("event".to_string(), "distinct_id".to_string());
    event.insert_prop("key".to_string(), "value".to_string());
    let inner = InnerEvent::new(event, "api_key".to_string());
    let parsed: serde_json::Value = serde_json::from_str(&inner.to_json()).unwrap();
    let expected: serde_json::Value = serde_json::from_str(
        "{\"timestamp\":null,\"properties\":{\"key\":\"value\",\"distinct_id\":\"distinct_id\"},\"event\":\"event\",\"api_key\":\"api_key\"}",
    )
    .unwrap();
    assert_eq!(parsed, expected);
}

#[test]
fn event_name_lowercased_on_wire_only() {
    let event = Event::new("TEST_EVENT".to_string(), "distinct_id".to_string());
    let inner = InnerEvent::new(event.clone(), "k".to_string());
    assert_eq!(event.name().as_str(), "TEST_EVENT");
    assert_eq!(
        inner.to_json(),
        "{\"api_key\":\"k\",\"event\":\"test_event\",\"properties\":{\"distinct_id\":\"distinct_id\"},\"timestamp\":null}"
    );
}

#[test]
fn insert_overwrites_duplicate_key() {
    let mut event = Event::new("e".to_string(), "d".to_string());
    event.insert_prop("k".to_string(), "a".to_string());
    event.insert_prop("k".to_string(), "b".to_string());
    let json = InnerEvent::new(event, "x".to_string()).to_json();
    assert_eq!(
        json,
        "{\"api_key\":\"x\",\"event\":\"e\",\"properties\":{\"distinct_id\":\"d\",\"k\":\"b\"},\"timestamp\":null}"
    );
}

#[test]
fn insert_prop_many_applies_in_order() {
    let mut event = Event::new("e".to_string(), "d".to_string());
    event.insert_prop("k1".to_string(), "v1".to_string());
    event.insert_prop_many(vec![
        ("k2".to_string(), "v2".to_string()),
        ("k1".to_string(), "late".to_string()),
        ("k2".to_string(), "later".to_string()),
    ]);
    let json = InnerEvent::new(event, "x".to_string()).to_json();
    assert_eq!(
        json,
        "{\"api_key\":\"x\",\"event\":\"e\",\"properties\":{\"distinct_id\":\"d\",\"k1\":\"late\",\"k2\":\"later\"},\"timestamp\":null}"
    );
}

#[test]
fn properties_insert_direct() {
    let mut props = Properties::new("d".to_string());
    props.insert("a".to_string(), "1".to_string());
    props.insert("a".to_string(), "2".to_string());
    let mut event = Event::new("e".to_string(), "d".to_string());
    event.insert_prop("a".to_string(), "2".to_string());
    let from_props = InnerEvent::new(event, "x".to_string()).to_json();
    assert!(from_props.contains("\"a\":\"2\""));
    assert_eq!(from_props.matches("\"a\":").count(), 1);
}

#[test]
fn string_escaping_in_payload() {
    let mut event = Event::new("quote\"back\\slash".to_string(), "d\n".to_string());
    event.insert_prop("tab\t".to_string(), "ctl\u{0001}high\u{00e9}".to_string());
    let json = InnerEvent::new(event, "k".to_string()).to_json();
    assert_eq!(
        json,
        "{\"api_key\":\"k\",\"event\":\"quote\\\"back\\\\slash\",\"properties\":{\"distinct_id\":\"d\\n\",\"tab\\t\":\"ctl\\u0001high\u{00e9}\"},\"timestamp\":null}"
    );
    let parsed: serde_json::Value = serde_json::from_str(&json).unwrap();
    assert_eq!(parsed["event"], "quote\"back\\slash");
    assert_eq!(parsed["properties"]["tab\t"], "ctl\u{0001}high\u{00e9}");
}

#[test]
fn timestamp_rendered_iso() {
    let mut event = Event::new("e".to_string(), "d".to_string());
    let ts = Timestamp::new(2016, 7, 8, 9, 10, 11).unwrap();
    event.set_timestamp(ts);
    assert_eq!(event.timestamp(), Some(ts));
    let json = InnerEvent::new(event, "k".to_string()).to_json();
    assert_eq!(
        json,
        "{\"api_key\":\"k\",\"event\":\"e\",\"properties\":{\"distinct_id\":\"d\"},\"timestamp\":\"2016-07-08T09:10:11\"}"
    );
}

#[test]
fn timestamp_zero_padding() {
    let mut event = Event::new("e".to_string(), "d".to_string());
    event.set_timestamp(Timestamp::new(1, 2, 3, 4, 5, 6).unwrap());
    let json = InnerEvent::new(event, "k".to_string()).to_json();
    assert!(json.contains("\"timestamp\":\"0001-02-03T04:05:06\""));
}

#[test]
fn timestamp_rejects_out_of_range() {
    assert!(Timestamp::new(2020, 13, 1, 0, 0, 0).is_none());
    assert!(Timestamp::new(2020, 0, 1, 0, 0, 0).is_none());
    assert!(Timestamp::new(2020, 1, 32, 0, 0, 0).is_none());
    assert!(Timestamp::new(2020, 1, 1, 24, 0, 0).is_none());
    assert!(Timestamp::new(2020, 1, 1, 0, 60, 0).is_none());
    assert!(Timestamp::new(2020, 1, 1, 0, 0, 60).is_none());
    assert!(Timestamp::new(10000, 1, 1, 0, 0, 0).is_none());
    assert!(Timestamp::new(9999, 12, 31, 23, 59, 59).is_some());
}

#[test]
fn timestamp_honours_leap_years() {
    assert!(Timestamp::new(2020, 2, 29, 0, 0, 0).is_some());
    assert!(Timestamp::new(2019, 2, 29, 0, 0, 0).is_none());
    assert!(Timestamp::new(2100, 2, 29, 0, 0, 0).is_none());
    assert!(Timestamp::new(2000, 2, 29, 0, 0, 0).is_some());
    assert!(Timestamp::new(2021, 4, 31, 0, 0, 0).is_none());
    assert!(Timestamp::new(2021, 4, 30, 0, 0, 0).is_some());
}

#[test]
fn client_default_timeout() {
    let client = Client::new(options());
    assert_eq!(client.timeout_ms(), 2000);
}

#[test]
fn client_with_timeout_rebuilds() {
    let client = Client::new_with_timeout(options(), 500);
    assert_eq!(client.timeout_ms(), 500);
    let rebound = client.with_timeout(50);
    assert_eq!(rebound.timeout_ms(), 50);
    assert_eq!(client.timeout_ms(), 500);
}

#[test]
fn capture_request_url_and_body() {
    let client = Client::new(options());
    let mut event = Event::new("Signup".to_string(), "u1".to_string());
    event.insert_prop("plan".to_string(), "free".to_string());
    let request = client.capture_request(event);
    assert_eq!(request.url, "https://example.com/capture/");
    assert_eq!(
        request.body,
        "{\"api_key\":\"api_key\",\"event\":\"signup\",\"properties\":{\"distinct_id\":\"u1\",\"plan\":\"free\"},\"timestamp\":null}"
    );
}
