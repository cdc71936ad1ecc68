use raid_reserves::encode::encode_body;
use raid_reserves::upstream::{
    decimal_text, describe_failure, event_record_url, raid_record_url, status_is_success,
    FetchFailure, EVENT_FETCH_FAILED, RAID_FETCH_FAILED, RAIDRES_URL,
};

#[test]
fn decimal_text_of_small_numbers() {
    assert_eq!(decimal_text(0), "0");
    assert_eq!(decimal_text(7), "7");
    assert_eq!(decimal_text(10), "10");
    assert_eq!(decimal_text(409), "409");
    assert_eq!(decimal_text(-1), "-1");
    assert_eq!(decimal_text(-120), "-120");
}

#[test]
fn decimal_text_of_the_extremes() {
    assert_eq!(decimal_text(i32::MAX), "2147483647");
    assert_eq!(decimal_text(i32::MIN), "-2147483648");
}

#[test]
fn decimal_text_agrees_with_std() {
    for n in [-100001, -99, -10, -9, 1, 9, 11, 99, 100, 101, 65535, 1000000] {
        assert_eq!(decimal_text(n), format!("{}", n));
    }
}

#[test]
fn event_url_appends_the_id_verbatim() {
    assert_eq!(event_record_url(RAIDRES_URL, "ABC123"), "https://raidres.fly.dev/api/events/ABC123");
    assert_eq!(event_record_url("http://h", ""), "http://h/api/events/");
    assert_eq!(event_record_url("http://h", "a/b c"), "http://h/api/events/a/b c");
}

#[test]
fn raid_url_names_the_raid_file() {
    assert_eq!(raid_record_url(RAIDRES_URL, 96), "https://raidres.fly.dev/raids/raid_96.json");
    assert_eq!(raid_record_url("http://h", -3), "http://h/raids/raid_-3.json");
    assert_eq!(raid_record_url("", 0), "/raids/raid_0.json");
}

#[test]
fn body_is_standard_base64_with_padding() {
    assert_eq!(encode_body(""), "");
    assert_eq!(encode_body("{}"), "e30=");
    assert_eq!(encode_body("a"), "YQ==");
    assert_eq!(encode_body("hello world~"), "aGVsbG8gd29ybGR+");
    assert_eq!(encode_body("???"), "Pz8/");
}

#[test]
fn body_decodes_to_the_json_text() {
    let json = "{\"metadata\":{\"id\":\"E1\",\"instance\":96,\"instances\":[\"Naxx\"]},\"softreserves\":[{\"name\":\"A\",\"items\":[{\"id\":1234,\"quality\":4}]}],\"hardreserves\":[{\"id\":1234,\"quality\":4}]}";
    let body = encode_body(json);
    assert!(body.bytes().all(|b| b.is_ascii_alphanumeric() || b == b'+' || b == b'/' || b == b'='));
    assert_eq!(body.len() % 4, 0);
    let bytes = base64::Engine::decode(&base64::engine::general_purpose::STANDARD, &body).unwrap();
    let text = String::from_utf8(bytes).unwrap();
    assert_eq!(text, json);
    let value: serde_json::Value = serde_json::from_str(&text).unwrap();
    assert_eq!(value["metadata"]["id"].as_str(), Some("E1"));
    assert_eq!(value["metadata"]["instance"].as_i64(), Some(96));
    assert_eq!(value["metadata"]["instances"][0].as_str(), Some("Naxx"));
    assert_eq!(value["softreserves"][0]["name"].as_str(), Some("A"));
    assert_eq!(value["softreserves"][0]["items"][0]["id"].as_i64(), Some(1234));
    assert_eq!(value["hardreserves"][0]["quality"].as_i64(), Some(4));
}

#[test]
fn body_repeats() {
    assert_eq!(encode_body("{\"a\":1}"), encode_body("{\"a\":1}"));
}

#[test]
fn success_is_a_status_from_200_to_299() {
    assert!(status_is_success(200));
    assert!(status_is_success(204));
    assert!(status_is_success(299));
    assert!(!status_is_success(199));
    assert!(!status_is_success(300));
    assert!(!status_is_success(404));
    assert!(!status_is_success(500));
    assert!(!status_is_success(0));
    assert!(!status_is_success(u16::MAX));
}

#[test]
fn failure_descriptions() {
    assert_eq!(EVENT_FETCH_FAILED, "Failed to fetch item reservation data.");
    assert_eq!(RAID_FETCH_FAILED, "Failed to fetch raid item data.");
    assert_eq!(describe_failure(EVENT_FETCH_FAILED, FetchFailure::Schema), EVENT_FETCH_FAILED);
    assert_eq!(
        describe_failure(RAID_FETCH_FAILED, FetchFailure::Status { code: 404 }),
        RAID_FETCH_FAILED
    );
    assert_eq!(
        describe_failure(
            RAID_FETCH_FAILED,
            FetchFailure::Transport { description: "dns error".to_string() }
        ),
        "dns error"
    );
    assert_eq!(
        describe_failure(EVENT_FETCH_FAILED, FetchFailure::Transport { description: String::new() }),
        ""
    );
}
