//! Tests of the serialized form of decoded index metadata.

use besp::decode::decode_index;
use besp::status::{ElasticsearchIndexInfo, ElasticsearchIndexInfoDetails, PrivateStatus};
use besp::time::Timestamp;

fn details(index: &str, count: &str) -> ElasticsearchIndexInfoDetails {
    ElasticsearchIndexInfoDetails {
        health: String::from("green"),
        status: String::from("open"),
        index: String::from(index),
        prim: 0,
        rep: 0,
        count: String::from(count),
        deleted: String::new(),
        size: String::new(),
        pri_size: String::new(),
    }
}

fn noon() -> Timestamp {
    Timestamp::new(2024, 6, 1, 12, 0, 0)
}

#[test]
fn json_omits_privacy_for_public_index() {
    let d = details("munin_addr_fr_20200520_093000", "7");
    let info = decode_index(&d, noon()).expect("well-formed label");
    let json = info.to_json();
    assert!(!json.contains("private"));
    assert_eq!(
        json,
        "{\"label\":\"munin_addr_fr_20200520_093000\",\"placeType\":\"addr\",\
         \"coverage\":\"fr\",\"createdAt\":\"2020-05-20T09:30:00Z\",\"count\":7,\
         \"updatedAt\":\"2024-06-01T12:00:00Z\"}"
    );
}

#[test]
fn json_includes_privacy_for_private_index() {
    let d = details("munin_poi_priv.fr_20210101_120000", "42");
    let info = decode_index(&d, noon()).expect("well-formed label");
    let json = info.to_json();
    assert!(json.contains("\"private\":\"private\""));
    assert_eq!(
        json,
        "{\"label\":\"munin_poi_priv.fr_20210101_120000\",\"placeType\":\"poi\",\
         \"coverage\":\"fr\",\"private\":\"private\",\"createdAt\":\"2021-01-01T12:00:00Z\",\
         \"count\":42,\"updatedAt\":\"2024-06-01T12:00:00Z\"}"
    );
}

#[test]
fn json_escapes_special_characters() {
    let info = ElasticsearchIndexInfo {
        label: String::from("a\"b\\c\nd\te\u{1}f"),
        place_type: String::from("poi"),
        coverage: String::from("fr"),
        private: PrivateStatus::Public,
        created_at: Timestamp::new(1970, 1, 1, 0, 1, 1),
        count: -3,
        updated_at: noon(),
    };
    let json = info.to_json();
    assert!(json.starts_with("{\"label\":\"a\\\"b\\\\c\\nd\\te\\u0001f\""));
    assert!(json.contains("\"count\":-3"));
    // The emitted escapes match what a JSON serializer produces.
    let parsed: serde_json::Value = serde_json::from_str(&json).expect("valid JSON");
    assert_eq!(parsed["label"], serde_json::Value::String(info.label.clone()));
}

#[test]
fn timestamp_render_pads_fields() {
    assert_eq!(Timestamp::new(33, 2, 3, 4, 5, 6).render(), "0033-02-03T04:05:06Z");
    assert_eq!(Timestamp::new(2024, 12, 31, 23, 59, 59).render(), "2024-12-31T23:59:59Z");
}
