//! Tests of the probe orchestrator, the aggregate query, the error
//! rendering, and the serialized form.

use besp::error::Error;
use besp::ext::now_timestamp;
use besp::probe::{
    check_accessible, check_bragi_status, foo, list_environments, probe_environment,
    update_elasticsearch_indices, Env, FetchOutcome, ProbeObservation, Query,
};
use besp::status::{
    is_public, BragiStatus, BragiStatusDetails, ElasticsearchIndexInfoDetails, PrivateStatus,
    ServerStatus,
};
use besp::time::Timestamp;

fn noon() -> Timestamp {
    Timestamp::new(2024, 6, 1, 12, 0, 0)
}

fn status_details(version: &str, es: &str) -> BragiStatusDetails {
    BragiStatusDetails {
        version: String::from(version),
        elasticsearch: String::from(es),
        status: String::from("good"),
    }
}

fn listing_entry(index: &str, count: &str) -> ElasticsearchIndexInfoDetails {
    ElasticsearchIndexInfoDetails {
        health: String::from("green"),
        status: String::from("open"),
        index: String::from(index),
        prim: 0,
        rep: 0,
        count: String::from(count),
        deleted: String::new(),
        size: String::new(),
        pri_size: String::new(),
    }
}

fn unreachable_observation() -> ProbeObservation {
    ProbeObservation {
        reachable: false,
        status: FetchOutcome::TransportFailure,
        listing: FetchOutcome::TransportFailure,
    }
}

fn healthy_observation() -> ProbeObservation {
    ProbeObservation {
        reachable: true,
        status: FetchOutcome::Success(status_details(
            "1.14.0",
            "http://es.example.com:9200/munin",
        )),
        listing: FetchOutcome::Success(vec![
            listing_entry("munin_poi_priv.fr_20210101_120000", "42"),
            listing_entry("munin_addr_fr_20200520_093000", "7"),
        ]),
    }
}

#[test]
fn probe_unreachable_degrades_whole_record() {
    let info = probe_environment("prod", "http://bad", &unreachable_observation(), noon());
    assert_eq!(info.label, "prod");
    assert_eq!(info.url, "http://bad");
    assert_eq!(info.version, "");
    assert_eq!(info.status, BragiStatus::BragiNotAvailable);
    assert!(info.elastic.is_none());
}

#[test]
fn probe_status_failure_degrades_whole_record() {
    let obs = ProbeObservation {
        reachable: true,
        status: FetchOutcome::DecodeFailure,
        listing: FetchOutcome::TransportFailure,
    };
    let info = probe_environment("prod", "http://good", &obs, noon());
    assert_eq!(info.status, BragiStatus::BragiNotAvailable);
    assert_eq!(info.version, "");
    assert!(info.elastic.is_none());
}

#[test]
fn probe_bad_backend_url_degrades_whole_record() {
    let obs = ProbeObservation {
        reachable: true,
        status: FetchOutcome::Success(status_details("1.14.0", "not a url")),
        listing: FetchOutcome::TransportFailure,
    };
    let info = probe_environment("prod", "http://good", &obs, noon());
    assert_eq!(info.status, BragiStatus::BragiNotAvailable);
    assert!(info.elastic.is_none());
}

#[test]
fn probe_backend_unreachable_keeps_service_available() {
    let obs = ProbeObservation {
        reachable: true,
        status: FetchOutcome::Success(status_details(
            "1.14.0",
            "http://es.example.com:9200/munin",
        )),
        listing: FetchOutcome::TransportFailure,
    };
    let info = probe_environment("prod", "http://good", &obs, noon());
    assert_eq!(info.status, BragiStatus::Available);
    assert_eq!(info.version, "1.14.0");
    let es = info.elastic.expect("backend endpoint was reported");
    assert_eq!(es.status, ServerStatus::NotAvailable);
    assert!(es.indices.is_empty());
    assert_eq!(es.url, "http://es.example.com:9200");
    assert_eq!(es.index_prefix, "munin");
}

#[test]
fn probe_healthy_populates_indices() {
    let info = probe_environment("prod", "http://good", &healthy_observation(), noon());
    assert_eq!(info.label, "bragi_prod");
    assert_eq!(info.status, BragiStatus::Available);
    let es = info.elastic.expect("backend endpoint was reported");
    assert_eq!(es.label, "elasticsearch_prod");
    assert_eq!(es.status, ServerStatus::Available);
    assert_eq!(es.indices.len(), 2);
    assert_eq!(es.indices[0].coverage, "fr");
    assert_eq!(es.indices[0].private, PrivateStatus::Private);
    assert_eq!(es.indices[0].count, 42);
    assert_eq!(es.indices[1].place_type, "addr");
    assert_eq!(es.indices[1].private, PrivateStatus::Public);
}

#[test]
fn backend_url_bare_authority_gets_empty_prefix() {
    let obs_status = FetchOutcome::Success(status_details("1.0", "http://es.internal"));
    let r = check_bragi_status("prod", "http://good", &obs_status, noon());
    let info = r.expect("status response was valid");
    let es = info.elastic.expect("backend endpoint was reported");
    assert_eq!(es.url, "http://es.internal");
    // The URL has no path segment at all only when parsing yields none;
    // a bare authority still carries one empty segment.
    assert_eq!(es.index_prefix, "");
}

#[test]
fn check_accessible_passes_arguments_through() {
    let r = check_accessible(String::from("prod"), String::from("http://good"), true);
    assert_eq!(r, Ok((String::from("prod"), String::from("http://good"))));
    let e = check_accessible(String::from("prod"), String::from("http://bad"), false);
    assert_eq!(
        e,
        Err(Error::NotAccessible { url: String::from("http://bad") })
    );
}

#[test]
fn check_bragi_status_reports_each_failure() {
    let t = check_bragi_status("prod", "http://good", &FetchOutcome::TransportFailure, noon());
    assert_eq!(
        t,
        Err(Error::StatusNotAccessible { url: String::from("http://good") })
    );
    let d = check_bragi_status("prod", "http://good", &FetchOutcome::DecodeFailure, noon());
    assert_eq!(
        d,
        Err(Error::StatusNotReadable { url: String::from("http://good") })
    );
    let u = check_bragi_status(
        "prod",
        "http://good",
        &FetchOutcome::Success(status_details("1.0", "::::")),
        noon(),
    );
    assert_eq!(
        u,
        Err(Error::ElasticsearchURLNotReadable { url: String::from("::::") })
    );
}

#[test]
fn foo_marks_backend_available_only_on_success() {
    let obs_status = FetchOutcome::Success(status_details("1.0", "http://es:9200/munin"));
    let info = check_bragi_status("prod", "http://good", &obs_status, noon())
        .expect("status response was valid");
    let es = info.elastic.expect("backend endpoint was reported");
    let ok = foo(es.clone(), &FetchOutcome::Success(Vec::new()), noon())
        .expect("enumeration never fails");
    assert_eq!(ok.status, ServerStatus::Available);
    assert!(ok.indices.is_empty());
    let down = foo(es, &FetchOutcome::DecodeFailure, noon()).expect("enumeration never fails");
    assert_eq!(down.status, ServerStatus::NotAvailable);
    assert!(down.indices.is_empty());
}

#[test]
fn update_without_backend_keeps_label_and_url() {
    let info = besp::status::BragiInfo::new("prod", "http://good", noon());
    let out = update_elasticsearch_indices(info, &FetchOutcome::TransportFailure, noon())
        .expect("update never fails");
    assert_eq!(out.label, "prod");
    assert_eq!(out.url, "http://good");
    assert_eq!(out.status, BragiStatus::BragiNotAvailable);
}

#[test]
fn list_environments_preserves_input_order() {
    let envs = vec![
        Env { env: String::from("prod"), url: String::from("http://good") },
        Env { env: String::from("staging"), url: String::from("http://bad") },
    ];
    let observations = vec![healthy_observation(), unreachable_observation()];
    let body = list_environments(&envs, &observations, noon()).expect("listing never fails");
    assert_eq!(body.environments_count, 2);
    assert_eq!(body.environments.len(), 2);
    assert_eq!(body.environments[0].label, "bragi_prod");
    assert_eq!(body.environments[0].status, BragiStatus::Available);
    assert_eq!(body.environments[1].label, "staging");
    assert_eq!(body.environments[1].status, BragiStatus::BragiNotAvailable);
}

#[test]
fn query_environments_delegates_to_listing() {
    let envs = vec![Env { env: String::from("prod"), url: String::from("http://bad") }];
    let observations = vec![unreachable_observation()];
    let body = Query
        .environments(&envs, &observations, noon())
        .expect("listing never fails");
    assert_eq!(body.environments_count, 1);
    assert_eq!(body.environments[0].status, BragiStatus::BragiNotAvailable);
}

#[test]
fn now_timestamp_fields_are_in_range() {
    let t = now_timestamp();
    assert!((1..=12).contains(&t.month));
    assert!((1..=31).contains(&t.day));
    assert!(t.hour <= 23);
    assert!(t.minute <= 59);
    assert!(t.second <= 59);
}

#[test]
fn is_public_distinguishes_tiers() {
    assert!(is_public(&PrivateStatus::Public));
    assert!(!is_public(&PrivateStatus::Private));
}

#[test]
fn error_messages_and_titles() {
    let e = Error::NotAccessible { url: String::from("http://bad") };
    assert_eq!(e.message(), "URL http://bad not accessible");
    assert_eq!(e.title(), "Access Error");
    let m = Error::MiscError { msg: String::from("hello") };
    assert_eq!(m.message(), "lack of imagination: hello");
    assert_eq!(m.title(), "Miscellaneous Error");
    let v = Error::Environment { env: String::from("prod") };
    assert_eq!(v.message(), "Could not identify environment prod");
    assert_eq!(v.title(), "Environment Error");
    assert_eq!(Error::DeserializeError.message(), "deserialize");
    assert_eq!(
        Error::StatusNotReadable { url: String::from("u") }.message(),
        "JSON Status not readable u"
    );
    assert_eq!(
        Error::ElasticsearchURLNotReadable { url: String::from("u") }.title(),
        "URL Not Readable Error"
    );
    assert_eq!(Error::IOError { msg: String::from("x") }.message(), "IO Error: x");
    assert_eq!(Error::JSONError { msg: String::from("x") }.title(), "JSON Error");
    assert_eq!(
        Error::StatusNotAccessible { url: String::from("u") }.message(),
        "Status u not accessible"
    );
}

#[test]
fn backend_url_without_any_path_gets_munin_prefix() {
    // A non-special scheme with an authority has no path segments at all,
    // so the index prefix falls back to the default.
    let obs_status = FetchOutcome::Success(status_details("1.0", "redis://cache-host"));
    let r = check_bragi_status("prod", "http://good", &obs_status, noon());
    let info = r.expect("status response was valid");
    let es = info.elastic.expect("backend endpoint was reported");
    assert_eq!(es.url, "redis://cache-host");
    assert_eq!(es.index_prefix, "munin");
}

#[test]
fn backend_path_segment_becomes_prefix() {
    let obs_status = FetchOutcome::Success(status_details(
        "1.0",
        "http://es.example.com:9200/custom/extra",
    ));
    let r = check_bragi_status("prod", "http://good", &obs_status, noon());
    let info = r.expect("status response was valid");
    let es = info.elastic.expect("backend endpoint was reported");
    assert_eq!(es.url, "http://es.example.com:9200");
    assert_eq!(es.index_prefix, "custom");
}
