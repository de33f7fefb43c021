//! The status records a probe produces, with their mathematical views.
//!
//! Every record is created fresh per probe invocation and never mutated
//! after construction: each stage of the chain produces a new value.

use crate::time::Timestamp;
use vstd::prelude::*;
use vstd::string::*;

verus! {

/// Privacy tier of an index: whether its contents are restricted.
#[derive(Debug, PartialEq, Eq, Structural, Clone, Copy)]
pub enum PrivateStatus {
    Private,
    Public,
}

/// Reachability of the backend cluster.
#[derive(Debug, PartialEq, Eq, Structural, Clone, Copy)]
pub enum ServerStatus {
    Available,
    NotAvailable,
}

/// Reachability of the probed service itself.
#[derive(Debug, PartialEq, Eq, Structural, Clone, Copy)]
pub enum BragiStatus {
    Available,
    BragiNotAvailable,
    ElasticsearchNotAvailable,
}

/// The serialized form of an index suppresses the privacy tier for the
/// open case: only a restricted index carries the field.
pub fn is_public(status: &PrivateStatus) -> (r: bool)
    ensures
        r == (status is Public),
{
    match status {
        PrivateStatus::Public => true,
        PrivateStatus::Private => false,
    }
}

/// Metadata of one index, decoded from its label.
#[derive(Debug, Clone, PartialEq, Eq)]
pub struct ElasticsearchIndexInfo {
    pub label: String,
    pub place_type: String,
    pub coverage: String,
    pub private: PrivateStatus,
    pub created_at: Timestamp,
    pub count: i32,
    pub updated_at: Timestamp,
}

/// Mathematical view of `ElasticsearchIndexInfo`.
#[verifier::ext_equal]
pub struct IndexInfoView {
    pub label: Seq<char>,
    pub place_type: Seq<char>,
    pub coverage: Seq<char>,
    pub private: PrivateStatus,
    pub created_at: Timestamp,
    pub count: int,
    pub updated_at: Timestamp,
}

impl View for ElasticsearchIndexInfo {
    type V = IndexInfoView;

    open spec fn view(&self) -> IndexInfoView {
        IndexInfoView {
            label: self.label@,
            place_type: self.place_type@,
            coverage: self.coverage@,
            private: self.private,
            created_at: self.created_at,
            count: self.count as int,
            updated_at: self.updated_at,
        }
    }
}

/// State of the backend cluster behind a service.
#[derive(Debug, Clone, PartialEq, Eq)]
pub struct ElasticsearchInfo {
    pub label: String,
    pub url: String,
    pub name: String,
    pub status: ServerStatus,
    pub version: String,
    pub indices: Vec<ElasticsearchIndexInfo>,
    pub index_prefix: String,
    pub updated_at: Timestamp,
}

/// Mathematical view of `ElasticsearchInfo`.
#[verifier::ext_equal]
pub struct EsInfoView {
    pub label: Seq<char>,
    pub url: Seq<char>,
    pub name: Seq<char>,
    pub status: ServerStatus,
    pub version: Seq<char>,
    pub indices: Seq<IndexInfoView>,
    pub index_prefix: Seq<char>,
    pub updated_at: Timestamp,
}

impl View for ElasticsearchInfo {
    type V = EsInfoView;

    open spec fn view(&self) -> EsInfoView {
        EsInfoView {
            label: self.label@,
            url: self.url@,
            name: self.name@,
            status: self.status,
            version: self.version@,
            indices: self.indices@.map_values(|x: ElasticsearchIndexInfo| x@),
            index_prefix: self.index_prefix@,
            updated_at: self.updated_at,
        }
    }
}

/// Status record of one probed environment.
#[derive(Debug, Clone, PartialEq, Eq)]
pub struct BragiInfo {
    pub label: String,
    pub url: String,
    pub version: String,
    pub status: BragiStatus,
    pub updated_at: Timestamp,
    pub elastic: Option<ElasticsearchInfo>,
}

/// Mathematical view of `BragiInfo`.
#[verifier::ext_equal]
pub struct BragiInfoView {
    pub label: Seq<char>,
    pub url: Seq<char>,
    pub version: Seq<char>,
    pub status: BragiStatus,
    pub updated_at: Timestamp,
    pub elastic: Option<EsInfoView>,
}

impl View for BragiInfo {
    type V = BragiInfoView;

    open spec fn view(&self) -> BragiInfoView {
        BragiInfoView {
            label: self.label@,
            url: self.url@,
            version: self.version@,
            status: self.status,
            updated_at: self.updated_at,
            elastic: match self.elastic {
                Some(e) => Some(e@),
                None => None,
            },
        }
    }
}

/// The record of a service that could not be reached: empty version,
/// no backend, the whole record degraded uniformly.
pub open spec fn bragi_unavailable_spec(label: Seq<char>, url: Seq<char>, now: Timestamp) -> BragiInfoView {
    BragiInfoView {
        label: label,
        url: url,
        version: Seq::<char>::empty(),
        status: BragiStatus::BragiNotAvailable,
        updated_at: now,
        elastic: None,
    }
}

impl BragiInfo {
    /// A fresh record for an environment that has not answered:
    /// unavailable, with no version and no backend.
    pub fn new(label: &str, url: &str, now: Timestamp) -> (r: BragiInfo)
        ensures
            r@ == bragi_unavailable_spec(label@, url@, now),
    {
        let r = BragiInfo {
            label: label.to_owned(),
            url: url.to_owned(),
            version: String::new(),
            status: BragiStatus::BragiNotAvailable,
            updated_at: now,
            elastic: None,
        };
        proof {
            assert(r@.version =~= Seq::<char>::empty());
        }
        r
    }
}

/// What the service's own status endpoint reports.
#[derive(Debug, Clone, PartialEq, Eq)]
pub struct BragiStatusDetails {
    pub version: String,
    pub elasticsearch: String,
    pub status: String,
}

/// One record of the backend cluster's index listing, as reported.
#[derive(Debug, Clone, PartialEq, Eq)]
pub struct ElasticsearchIndexInfoDetails {
    pub health: String,
    pub status: String,
    pub index: String,
    pub prim: u32,
    pub rep: u32,
    pub count: String,
    pub deleted: String,
    pub size: String,
    pub pri_size: String,
}

/// The response body for a query over every environment.
#[derive(Debug, Clone, PartialEq, Eq)]
pub struct MultiEnvironmentsResponseBody {
    pub environments: Vec<BragiInfo>,
    pub environments_count: i32,
}

impl MultiEnvironmentsResponseBody {
    /// Packs the probed records with their count.
    pub fn from(environments: Vec<BragiInfo>) -> (r: Self)
        requires
            environments@.len() <= i32::MAX,
        ensures
            r.environments == environments,
            r.environments_count == environments@.len(),
    {
        let environments_count = environments.len() as i32;
        Self { environments, environments_count }
    }
}

} // verus!
