//! The probe orchestrator: a fallback-tolerant chain of three stages
//! (reachability, service status, index enumeration) that turns an
//! environment name, its base URL and the observed outcomes of the
//! remote checks into a status record. Failures never propagate: a
//! failure at the first two stages degrades the whole record uniformly,
//! while a failure at the enumeration stage degrades only the backend
//! sub-record.
//!
//! The remote requests themselves happen outside the library; their
//! outcomes are handed in as values, so every decision here is checked.

use crate::decode::{decode_all_spec, decode_indices};
use crate::error::Error;
use crate::ext::{parse_url_parts, url_parts_of, UrlParts};
use crate::status::{
    bragi_unavailable_spec, BragiInfo, BragiInfoView, BragiStatus, BragiStatusDetails,
    ElasticsearchIndexInfoDetails, ElasticsearchInfo, EsInfoView, MultiEnvironmentsResponseBody,
    ServerStatus,
};
use crate::text::{dec_spec, u64_to_dec};
use crate::time::Timestamp;
use vstd::prelude::*;
use vstd::string::*;

verus! {

/// One environment of the registry: its name and the service's base URL.
#[derive(Debug, Clone, PartialEq, Eq)]
pub struct Env {
    pub env: String,
    pub url: String,
}

/// The observed outcome of one remote fetch: a decoded body, a transport
/// failure, or a body that could not be decoded.
#[derive(Debug, Clone, PartialEq, Eq)]
pub enum FetchOutcome<T> {
    Success(T),
    TransportFailure,
    DecodeFailure,
}

/// Everything one probe observed of the network: whether the base URL
/// answered at all, what the status endpoint returned, and what the
/// backend's index listing returned.
#[derive(Debug, Clone, PartialEq, Eq)]
pub struct ProbeObservation {
    pub reachable: bool,
    pub status: FetchOutcome<BragiStatusDetails>,
    pub listing: FetchOutcome<Vec<ElasticsearchIndexInfoDetails>>,
}

/// First stage: a reachable base URL passes its arguments through;
/// an unreachable one is the error that the probe absorbs.
pub fn check_accessible(env: String, url: String, reachable: bool) -> (r: Result<
    (String, String),
    Error,
>)
    ensures
        reachable ==> (r matches Ok(p) && p.0@ == env@ && p.1@ == url@),
        !reachable ==> (r matches Err(e) && e matches Error::NotAccessible { url: u } && u@
            == url@),
{
    if reachable {
        Ok((env, url))
    } else {
        Err(Error::NotAccessible { url })
    }
}

/// The backend's base URL: scheme, host, and the explicit port if one
/// was given — any path component is stripped.
pub open spec fn backend_url_spec(p: UrlParts) -> Seq<char> {
    match p.port {
        None => p.scheme@ + "://"@ + p.host@,
        Some(port) => p.scheme@ + "://"@ + p.host@ + ":"@ + dec_spec(port as nat),
    }
}

/// The index-name prefix: the first path segment of the backend URL,
/// or the fixed default when the URL has no path segments.
pub open spec fn index_prefix_spec(p: UrlParts) -> Seq<char> {
    match p.first_segment {
        Some(s) => s@,
        None => "munin"@,
    }
}

/// The record of a service whose status endpoint answered: available,
/// carrying the reported version, with a backend sub-record that is
/// provisionally unreachable and empty, pending enumeration.
pub open spec fn bragi_available_spec(
    env: Seq<char>,
    url: Seq<char>,
    d: BragiStatusDetails,
    p: UrlParts,
    now: Timestamp,
) -> BragiInfoView {
    BragiInfoView {
        label: "bragi_"@ + env,
        url: url,
        version: d.version@,
        status: BragiStatus::Available,
        updated_at: now,
        elastic: Some(
            EsInfoView {
                label: "elasticsearch_"@ + env,
                url: backend_url_spec(p),
                name: Seq::<char>::empty(),
                status: ServerStatus::NotAvailable,
                version: Seq::<char>::empty(),
                indices: Seq::<crate::status::IndexInfoView>::empty(),
                index_prefix: index_prefix_spec(p),
                updated_at: now,
            },
        ),
    }
}

/// Second stage: decodes the status endpoint's outcome. A transport or
/// decode failure, or a backend URL that does not parse, is the error
/// the probe absorbs; otherwise the available record of
/// `bragi_available_spec`, with the backend still to be enumerated.
pub fn check_bragi_status(
    env: &str,
    url: &str,
    resp: &FetchOutcome<BragiStatusDetails>,
    now: Timestamp,
) -> (r: Result<BragiInfo, Error>)
    ensures
        resp is TransportFailure ==> (r matches Err(e) && e matches Error::StatusNotAccessible {
            url: u,
        } && u@ == url@),
        resp is DecodeFailure ==> (r matches Err(e) && e matches Error::StatusNotReadable {
            url: u,
        } && u@ == url@),
        resp matches FetchOutcome::Success(d) ==> match url_parts_of(d.elasticsearch@) {
            None => r matches Err(e) && e matches Error::ElasticsearchURLNotReadable { url: u }
                && u@ == d.elasticsearch@,
            Some(p) => r matches Ok(info) && info@ == bragi_available_spec(env@, url@, *d, p, now),
        },
{
    match resp {
        FetchOutcome::TransportFailure => Err(Error::StatusNotAccessible { url: url.to_owned() }),
        FetchOutcome::DecodeFailure => Err(Error::StatusNotReadable { url: url.to_owned() }),
        FetchOutcome::Success(d) => {
            match parse_url_parts(d.elasticsearch.as_str()) {
                None => Err(Error::ElasticsearchURLNotReadable { url: d.elasticsearch.clone() }),
                Some(p) => {
                    let mut elastic_url = p.scheme.clone();
                    elastic_url.append("://");
                    elastic_url.append(p.host.as_str());
                    match p.port {
                        Some(port) => {
                            elastic_url.append(":");
                            elastic_url.append(u64_to_dec(port as u64).as_str());
                        },
                        None => {},
                    }
                    proof {
                        assert(elastic_url@ =~= backend_url_spec(p));
                    }
                    let prefix: String = match &p.first_segment {
                        Some(s) => s.clone(),
                        None => "munin".to_owned(),
                    };
                    let mut label = "bragi_".to_owned();
                    label.append(env);
                    let mut es_label = "elasticsearch_".to_owned();
                    es_label.append(env);
                    let info = BragiInfo {
                        label,
                        url: url.to_owned(),
                        version: d.version.clone(),
                        status: BragiStatus::Available,
                        updated_at: now,
                        elastic: Some(
                            ElasticsearchInfo {
                                label: es_label,
                                url: elastic_url,
                                name: String::new(),
                                status: ServerStatus::NotAvailable,
                                version: String::new(),
                                indices: Vec::new(),
                                index_prefix: prefix,
                                updated_at: now,
                            },
                        ),
                    };
                    proof {
                        assert(info@ =~= bragi_available_spec(env@, url@, *d, p, now));
                    }
                    Ok(info)
                },
            }
        },
    }
}

/// The backend sub-record after the enumeration stage: available with
/// the decoded indices when the listing arrived, otherwise left
/// unreachable with no indices — the rest of the record is kept.
pub open spec fn foo_spec(
    es: EsInfoView,
    listing: FetchOutcome<Vec<ElasticsearchIndexInfoDetails>>,
    now: Timestamp,
) -> EsInfoView {
    match listing {
        FetchOutcome::Success(entries) => EsInfoView {
            status: ServerStatus::Available,
            indices: decode_all_spec(entries@, now),
            updated_at: now,
            ..es
        },
        _ => EsInfoView {
            status: ServerStatus::NotAvailable,
            indices: Seq::<crate::status::IndexInfoView>::empty(),
            updated_at: now,
            ..es
        },
    }
}

/// Third stage over the backend sub-record: decodes the index listing's
/// outcome. Never fails: a failed listing only leaves the backend
/// unreachable and empty.
pub fn foo(
    es_info: ElasticsearchInfo,
    listing: &FetchOutcome<Vec<ElasticsearchIndexInfoDetails>>,
    now: Timestamp,
) -> (r: Result<ElasticsearchInfo, Error>)
    ensures
        r matches Ok(es) && es@ == foo_spec(es_info@, *listing, now),
{
    match listing {
        FetchOutcome::Success(entries) => {
            let indices = decode_indices(entries, now);
            let es = ElasticsearchInfo {
                status: ServerStatus::Available,
                indices,
                updated_at: now,
                ..es_info
            };
            proof {
                assert(es@ =~= foo_spec(es_info@, *listing, now));
            }
            Ok(es)
        },
        _ => {
            let es = ElasticsearchInfo {
                status: ServerStatus::NotAvailable,
                indices: Vec::new(),
                updated_at: now,
                ..es_info
            };
            proof {
                assert(es@.indices =~= Seq::<crate::status::IndexInfoView>::empty());
                assert(es@ =~= foo_spec(es_info@, *listing, now));
            }
            Ok(es)
        },
    }
}

/// The whole record after the enumeration stage: the backend sub-record
/// is updated as `foo_spec` says; a record that carries no backend
/// endpoint falls back to a fresh unavailable record, keeping its label
/// and its probed URL.
pub open spec fn update_spec(
    info: BragiInfo,
    listing: FetchOutcome<Vec<ElasticsearchIndexInfoDetails>>,
    now: Timestamp,
) -> BragiInfoView {
    match info.elastic {
        None => bragi_unavailable_spec(info.label@, info.url@, now),
        Some(es) => BragiInfoView { elastic: Some(foo_spec(es@, listing, now)), ..info@ },
    }
}

/// Third stage: updates the record with the index listing's outcome.
/// Never fails.
pub fn update_elasticsearch_indices(
    info: BragiInfo,
    listing: &FetchOutcome<Vec<ElasticsearchIndexInfoDetails>>,
    now: Timestamp,
) -> (r: Result<BragiInfo, Error>)
    ensures
        r matches Ok(b) && b@ == update_spec(info, *listing, now),
{
    let BragiInfo { label, url, version, status, updated_at, elastic } = info;
    match elastic {
        None => Ok(BragiInfo::new(label.as_str(), url.as_str(), now)),
        Some(es) => {
            match foo(es, listing, now) {
                Ok(es2) => {
                    let b = BragiInfo { label, url, version, status, updated_at, elastic: Some(
                        es2,
                    ) };
                    proof {
                        assert(b@ =~= update_spec(info, *listing, now));
                    }
                    Ok(b)
                },
                Err(e) => Err(e),
            }
        },
    }
}

/// What a probe returns, given what it observed: the full chain of
/// `check_accessible`, `check_bragi_status` and
/// `update_elasticsearch_indices`, with every failure of the first two
/// stages absorbed into the uniform unavailable record.
pub open spec fn probe_spec(
    env: Seq<char>,
    url: Seq<char>,
    obs: ProbeObservation,
    now: Timestamp,
) -> BragiInfoView {
    if !obs.reachable {
        bragi_unavailable_spec(env, url, now)
    } else {
        match obs.status {
            FetchOutcome::Success(d) => match url_parts_of(d.elasticsearch@) {
                Some(p) => {
                    let stage2 = bragi_available_spec(env, url, d, p, now);
                    BragiInfoView {
                        elastic: Some(foo_spec(stage2.elastic->0, obs.listing, now)),
                        ..stage2
                    }
                },
                None => bragi_unavailable_spec(env, url, now),
            },
            _ => bragi_unavailable_spec(env, url, now),
        }
    }
}

/// Probes one environment: runs the three stages over the observed
/// outcomes and returns a best-effort status record. Never fails.
pub fn probe_environment(env: &str, url: &str, obs: &ProbeObservation, now: Timestamp) -> (r:
    BragiInfo)
    ensures
        r@ == probe_spec(env@, url@, *obs, now),
{
    match check_accessible(env.to_owned(), url.to_owned(), obs.reachable) {
        Err(_) => BragiInfo::new(env, url, now),
        Ok((env2, url2)) => {
            match check_bragi_status(env2.as_str(), url2.as_str(), &obs.status, now) {
                Err(_) => BragiInfo::new(env, url, now),
                Ok(info) => {
                    proof {
                        assert(info.elastic is Some);
                    }
                    match update_elasticsearch_indices(info, &obs.listing, now) {
                        Ok(b) => {
                            proof {
                                assert(b@ =~= probe_spec(env@, url@, *obs, now));
                            }
                            b
                        },
                        Err(_) => BragiInfo::new(env, url, now),
                    }
                },
            }
        },
    }
}

/// Probes every environment of the registry, in the caller-supplied
/// order: the resulting list holds, at each position, exactly the record
/// of the environment at that position, whatever each probe observed.
pub fn list_environments(
    envs: &Vec<Env>,
    observations: &Vec<ProbeObservation>,
    now: Timestamp,
) -> (r: Result<MultiEnvironmentsResponseBody, Error>)
    requires
        envs@.len() == observations@.len(),
        envs@.len() <= i32::MAX,
    ensures
        r matches Ok(body) && body.environments@.len() == envs@.len() && body.environments_count
            == envs@.len() && forall|i: int|
            0 <= i < envs@.len() ==> (#[trigger] body.environments@[i])@ == probe_spec(
                envs@[i].env@,
                envs@[i].url@,
                observations@[i],
                now,
            ),
{
    let mut acc: Vec<BragiInfo> = Vec::new();
    let mut i: usize = 0;
    while i < envs.len()
        invariant
            0 <= i <= envs@.len() == observations@.len() <= i32::MAX,
            acc@.len() == i,
            forall|j: int|
                0 <= j < i ==> (#[trigger] acc@[j])@ == probe_spec(
                    envs@[j].env@,
                    envs@[j].url@,
                    observations@[j],
                    now,
                ),
        decreases envs@.len() - i,
    {
        let e = &envs[i];
        let b = probe_environment(e.env.as_str(), e.url.as_str(), &observations[i], now);
        acc.push(b);
        i += 1;
    }
    Ok(MultiEnvironmentsResponseBody::from(acc))
}

/// For every unreachable base URL, whatever else was observed, the probe
/// degrades the whole record uniformly: the service is unavailable, the
/// version is empty, and there is no backend sub-record.
pub proof fn lemma_unreachable_probe(
    env: Seq<char>,
    url: Seq<char>,
    obs: ProbeObservation,
    now: Timestamp,
)
    requires
        !obs.reachable,
    ensures
        probe_spec(env, url, obs, now).status is BragiNotAvailable,
        probe_spec(env, url, obs, now).version == Seq::<char>::empty(),
        probe_spec(env, url, obs, now).elastic is None,
{
}

/// For every valid service response whose backend listing could not be
/// fetched or decoded, the probe keeps the service available and
/// degrades only the backend sub-record: unreachable, with no indices.
pub proof fn lemma_backend_unreachable_probe(
    env: Seq<char>,
    url: Seq<char>,
    obs: ProbeObservation,
    now: Timestamp,
)
    requires
        obs.reachable,
        obs.status matches FetchOutcome::Success(d) && url_parts_of(d.elasticsearch@) is Some,
        !(obs.listing is Success),
    ensures
        probe_spec(env, url, obs, now).status is Available,
        probe_spec(env, url, obs, now).elastic matches Some(es) && es.status is NotAvailable
            && es.indices == Seq::<crate::status::IndexInfoView>::empty(),
{
}

/// For every reachable service whose status endpoint answered and whose
/// reported backend URL parses, the probe's record is available and
/// carries the version exactly as the service reported it — so it is
/// non-empty precisely when the service reports a non-empty version.
/// (An available record with an empty version can therefore arise only
/// from a service that reports one.)
pub proof fn lemma_available_version_is_reported(
    env: Seq<char>,
    url: Seq<char>,
    obs: ProbeObservation,
    now: Timestamp,
)
    requires
        obs.reachable,
        obs.status matches FetchOutcome::Success(d) && url_parts_of(d.elasticsearch@) is Some,
    ensures
        probe_spec(env, url, obs, now).status is Available,
        obs.status matches FetchOutcome::Success(d) ==> probe_spec(env, url, obs, now).version
            == d.version@,
        obs.status matches FetchOutcome::Success(d) && d.version@.len() > 0 ==> probe_spec(
            env,
            url,
            obs,
            now,
        ).version.len() > 0,
{
}

/// Root of the query surface: a single read operation that lists the
/// status of every environment.
pub struct Query;

impl Query {
    /// Returns the statuses for the registry's environments, in the
    /// caller-supplied order.
    pub fn environments(
        &self,
        envs: &Vec<Env>,
        observations: &Vec<ProbeObservation>,
        now: Timestamp,
    ) -> (r: Result<MultiEnvironmentsResponseBody, Error>)
        requires
            envs@.len() == observations@.len(),
            envs@.len() <= i32::MAX,
        ensures
            r matches Ok(body) && body.environments@.len() == envs@.len()
                && body.environments_count == envs@.len() && forall|i: int|
                0 <= i < envs@.len() ==> (#[trigger] body.environments@[i])@ == probe_spec(
                    envs@[i].env@,
                    envs@[i].url@,
                    observations@[i],
                    now,
                ),
    {
        list_environments(envs, observations, now)
    }
}

} // verus!
