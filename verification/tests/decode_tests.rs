//! Tests of the index label decoder and the text helpers.

use besp::decode::{decode_index, decode_indices, parse_date, parse_time};
use besp::status::{ElasticsearchIndexInfoDetails, PrivateStatus};
use besp::text::{has_prefix, parse_i32, split_char, u64_to_dec};
use besp::time::Timestamp;

fn details(index: &str, count: &str) -> ElasticsearchIndexInfoDetails {
    ElasticsearchIndexInfoDetails {
        health: String::from("green"),
        status: String::from("open"),
        index: String::from(index),
        prim: 0,
        rep: 0,
        count: String::from(count),
        deleted: String::new(),
        size: String::new(),
        pri_size: String::new(),
    }
}

fn noon() -> Timestamp {
    Timestamp::new(2024, 6, 1, 12, 0, 0)
}

#[test]
fn decode_private_label_round_trip() {
    let d = details("munin_poi_priv.fr_20210101_120000", "42");
    let info = decode_index(&d, noon()).expect("well-formed label");
    assert_eq!(info.label, "munin_poi_priv.fr_20210101_120000");
    assert_eq!(info.place_type, "poi");
    assert_eq!(info.coverage, "fr");
    assert_eq!(info.private, PrivateStatus::Private);
    assert_eq!(info.created_at, Timestamp::new(2021, 1, 1, 12, 0, 0));
    assert_eq!(info.count, 42);
    assert_eq!(info.updated_at, noon());
}

#[test]
fn decode_public_label() {
    let d = details("munin_addr_fr_20200520_093000", "7");
    let info = decode_index(&d, noon()).expect("well-formed label");
    assert_eq!(info.place_type, "addr");
    assert_eq!(info.coverage, "fr");
    assert_eq!(info.private, PrivateStatus::Public);
    assert_eq!(info.created_at, Timestamp::new(2020, 5, 20, 9, 30, 0));
}

#[test]
fn decode_bad_date_defaults_date_only() {
    let d = details("munin_poi_fr_bad_120000", "0");
    let info = decode_index(&d, noon()).expect("five tokens are present");
    assert_eq!(info.created_at, Timestamp::new(1970, 1, 1, 12, 0, 0));
}

#[test]
fn decode_bad_time_defaults_time_only() {
    let d = details("munin_poi_fr_20210101_bad", "0");
    let info = decode_index(&d, noon()).expect("five tokens are present");
    assert_eq!(info.created_at, Timestamp::new(2021, 1, 1, 0, 1, 1));
}

#[test]
fn decode_invalid_calendar_day_defaults() {
    let d = details("munin_poi_fr_20210230_120000", "0");
    let info = decode_index(&d, noon()).expect("five tokens are present");
    assert_eq!(info.created_at, Timestamp::new(1970, 1, 1, 12, 0, 0));
}

#[test]
fn decode_leap_day_is_valid() {
    let d = details("munin_poi_fr_20200229_000000", "0");
    let info = decode_index(&d, noon()).expect("five tokens are present");
    assert_eq!(info.created_at, Timestamp::new(2020, 2, 29, 0, 0, 0));
}

#[test]
fn decode_non_numeric_count_is_zero() {
    let d = details("munin_poi_fr_20210101_120000", "not-a-number");
    let info = decode_index(&d, noon()).expect("well-formed label");
    assert_eq!(info.count, 0);
}

#[test]
fn decode_out_of_range_count_is_zero() {
    let d = details("munin_poi_fr_20210101_120000", "99999999999");
    let info = decode_index(&d, noon()).expect("well-formed label");
    assert_eq!(info.count, 0);
}

#[test]
fn decode_short_label_is_malformed() {
    let d = details("munin_poi_fr_20210101", "3");
    assert!(decode_index(&d, noon()).is_none());
}

#[test]
fn decode_empty_label_is_malformed() {
    let d = details("", "3");
    assert!(decode_index(&d, noon()).is_none());
}

#[test]
fn decode_extra_tokens_are_ignored() {
    let d = details("munin_poi_fr_20210101_120000_extra_more", "5");
    let info = decode_index(&d, noon()).expect("five tokens are present");
    assert_eq!(info.place_type, "poi");
    assert_eq!(info.coverage, "fr");
    assert_eq!(info.created_at, Timestamp::new(2021, 1, 1, 12, 0, 0));
}

#[test]
fn decode_indices_skips_malformed_entries() {
    let entries = vec![
        details("munin_poi_fr_20210101_120000", "1"),
        details("short_label", "2"),
        details("munin_addr_de_20220202_020202", "3"),
    ];
    let out = decode_indices(&entries, noon());
    assert_eq!(out.len(), 2);
    assert_eq!(out[0].coverage, "fr");
    assert_eq!(out[1].coverage, "de");
}

#[test]
fn parse_date_rejects_wrong_width() {
    assert_eq!(parse_date("2021011"), None);
    assert_eq!(parse_date("202101011"), None);
    assert_eq!(parse_date("20210101"), Some((2021, 1, 1)));
}

#[test]
fn parse_time_checks_ranges() {
    assert_eq!(parse_time("235959"), Some((23, 59, 59)));
    assert_eq!(parse_time("240000"), None);
    assert_eq!(parse_time("005960"), None);
}

#[test]
fn parse_i32_matches_std() {
    for s in [
        "0",
        "42",
        "-42",
        "+7",
        "2147483647",
        "2147483648",
        "-2147483648",
        "-2147483649",
        "",
        "-",
        "+",
        "12a",
        " 12",
        "0012",
        "00000000000000000012",
    ] {
        assert_eq!(parse_i32(s), s.parse::<i32>().ok(), "input {:?}", s);
    }
}

#[test]
fn split_char_matches_std() {
    for s in ["a_b_c", "_a__b_", "", "_", "plain"] {
        let mine = split_char(s, '_');
        let std_split: Vec<&str> = s.split('_').collect();
        assert_eq!(mine.len(), std_split.len(), "input {:?}", s);
        for (m, t) in mine.iter().zip(std_split.iter()) {
            assert_eq!(m, t, "input {:?}", s);
        }
    }
}

#[test]
fn has_prefix_checks_characters() {
    assert!(has_prefix("priv.fr", "priv."));
    assert!(!has_prefix("pri", "priv."));
    assert!(!has_prefix("public.fr", "priv."));
    assert!(has_prefix("anything", ""));
}

#[test]
fn u64_to_dec_renders_digits() {
    assert_eq!(u64_to_dec(0), "0");
    assert_eq!(u64_to_dec(9), "9");
    assert_eq!(u64_to_dec(1234567890), "1234567890");
}

#[test]
fn decode_bare_marker_gives_empty_coverage() {
    let d = details("munin_poi_priv._20210101_120000", "1");
    let info = decode_index(&d, noon()).expect("five tokens are present");
    assert_eq!(info.private, PrivateStatus::Private);
    assert_eq!(info.coverage, "");
}

#[test]
fn decode_empty_tokens_are_kept() {
    let d = details("____", "1");
    let info = decode_index(&d, noon()).expect("five empty tokens are present");
    assert_eq!(info.place_type, "");
    assert_eq!(info.coverage, "");
    assert_eq!(info.private, PrivateStatus::Public);
    assert_eq!(info.created_at, Timestamp::new(1970, 1, 1, 0, 1, 1));
}
