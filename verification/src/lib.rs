//! Probing and decoding pipeline for a search service and its index cluster.
//!
//! The library turns the observed outcomes of a chain of remote checks
//! (reachability, service status, index enumeration) into an immutable
//! status record per environment, and decodes structured metadata from
//! each index's label. Failures never propagate: they degrade the record.
//!
//! The network itself is outside the library: a caller performs the
//! requests and hands their outcomes to the verified pipeline.

pub mod decode;
pub mod error;
pub mod ext;
pub mod json;
pub mod probe;
pub mod status;
pub mod text;
pub mod time;
