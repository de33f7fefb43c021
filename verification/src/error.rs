//! The error taxonomy of the probing pipeline.
//!
//! Failures never abort a probe: they are absorbed into the status
//! records. The variants here classify what went wrong at each stage,
//! so a caller that does surface them can report a cause.

use vstd::prelude::*;
use vstd::string::*;

verus! {

/// What went wrong during a probe or while serving a query.
#[derive(Debug, Clone, PartialEq, Eq)]
pub enum Error {
    /// An environment name the registry does not hold.
    Environment { env: String },
    /// The base URL did not answer.
    NotAccessible { url: String },
    /// The status endpoint did not answer.
    StatusNotAccessible { url: String },
    /// The status endpoint's body could not be decoded.
    StatusNotReadable { url: String },
    /// The backend URL reported by the service could not be parsed.
    ElasticsearchURLNotReadable { url: String },
    /// A payload could not be deserialized.
    DeserializeError,
    /// Any failure that fits no other variant.
    MiscError { msg: String },
    /// A failure of the surrounding input or output.
    IOError { msg: String },
    /// A malformed JSON document.
    JSONError { msg: String },
}

impl Error {
    /// The human-readable description of the error.
    pub open spec fn message_spec(&self) -> Seq<char> {
        match self {
            Error::Environment { env } => "Could not identify environment "@ + env@,
            Error::NotAccessible { url } => "URL "@ + url@ + " not accessible"@,
            Error::StatusNotAccessible { url } => "Status "@ + url@ + " not accessible"@,
            Error::StatusNotReadable { url } => "JSON Status not readable "@ + url@,
            Error::ElasticsearchURLNotReadable { url } => "elasticsearch url not parsable "@
                + url@,
            Error::DeserializeError => "deserialize"@,
            Error::MiscError { msg } => "lack of imagination: "@ + msg@,
            Error::IOError { msg } => "IO Error: "@ + msg@,
            Error::JSONError { msg } => "JSON Error: "@ + msg@,
        }
    }

    /// Renders the human-readable description of the error.
    pub fn message(&self) -> (r: String)
        ensures
            r@ == self.message_spec(),
    {
        let mut s = String::new();
        match self {
            Error::Environment { env } => {
                s.append("Could not identify environment ");
                s.append(env.as_str());
            },
            Error::NotAccessible { url } => {
                s.append("URL ");
                s.append(url.as_str());
                s.append(" not accessible");
            },
            Error::StatusNotAccessible { url } => {
                s.append("Status ");
                s.append(url.as_str());
                s.append(" not accessible");
            },
            Error::StatusNotReadable { url } => {
                s.append("JSON Status not readable ");
                s.append(url.as_str());
            },
            Error::ElasticsearchURLNotReadable { url } => {
                s.append("elasticsearch url not parsable ");
                s.append(url.as_str());
            },
            Error::DeserializeError => {
                s.append("deserialize");
            },
            Error::MiscError { msg } => {
                s.append("lack of imagination: ");
                s.append(msg.as_str());
            },
            Error::IOError { msg } => {
                s.append("IO Error: ");
                s.append(msg.as_str());
            },
            Error::JSONError { msg } => {
                s.append("JSON Error: ");
                s.append(msg.as_str());
            },
        }
        proof {
            assert(s@ =~= self.message_spec());
        }
        s
    }

    /// The short category name under which the error is reported.
    pub open spec fn title_spec(&self) -> Seq<char> {
        match self {
            Error::Environment { .. } => "Environment Error"@,
            Error::NotAccessible { .. } => "Access Error"@,
            Error::StatusNotAccessible { .. } => "Status Not Accessible Error"@,
            Error::StatusNotReadable { .. } => "Status Not Readable Error"@,
            Error::ElasticsearchURLNotReadable { .. } => "URL Not Readable Error"@,
            Error::DeserializeError => "Deserialization Error"@,
            Error::MiscError { .. } => "Miscellaneous Error"@,
            Error::IOError { .. } => "IO Error"@,
            Error::JSONError { .. } => "JSON Error"@,
        }
    }

    /// The short category name under which the error is reported.
    pub fn title(&self) -> (r: &'static str)
        ensures
            r@ == self.title_spec(),
    {
        match self {
            Error::Environment { .. } => "Environment Error",
            Error::NotAccessible { .. } => "Access Error",
            Error::StatusNotAccessible { .. } => "Status Not Accessible Error",
            Error::StatusNotReadable { .. } => "Status Not Readable Error",
            Error::ElasticsearchURLNotReadable { .. } => "URL Not Readable Error",
            Error::DeserializeError => "Deserialization Error",
            Error::MiscError { .. } => "Miscellaneous Error",
            Error::IOError { .. } => "IO Error",
            Error::JSONError { .. } => "JSON Error",
        }
    }
}

} // verus!
