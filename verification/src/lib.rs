//! Typed access layer over a project-management REST service that returns
//! loosely-typed JSON. This crate holds the pure computation: decoding raw
//! payloads into strictly-typed entities, detecting the sentinel bodies the
//! service uses to signal "not found", and deciding the count-then-page fetch
//! protocol. Network I/O itself stays outside; every function here works on
//! plain values.
use vstd::prelude::*;

pub mod client;
pub mod date;
pub mod project;
pub mod requirement;
pub mod json;
pub mod text;

verus! {

/// The service versions a client can be asked for. Only one of them is
/// actually implemented by this layer; constructing a client for any other
/// version fails loudly rather than falling back.
#[derive(Clone, Copy, Debug, PartialEq, Eq, Structural)]
pub enum SupportSpiraVersions {
    V7_0,
    V6_0,
    V5_0,
    V4_0,
}

/// Which versions the layer fully implements.
pub open spec fn spec_version_supported(v: SupportSpiraVersions) -> bool {
    v == SupportSpiraVersions::V5_0
}

/// Everything that can go wrong between a raw response body and a typed
/// entity. `NotFound` is deliberately *not* here: sentinel-detected absence is
/// a successful empty outcome, reported as `None` by the lookup functions.
#[derive(Debug)]
pub enum SpiraError {
    /// A field the data model requires was absent from a JSON object. Carries
    /// the field name and the keys of the enclosing object for diagnosis.
    MissingField { field: String, object_keys: Vec<String> },
    /// A present enum-coded field held an integer outside the known codes.
    UnknownEnumCode { field: String, value: u64 },
    /// A timestamp string matched neither supported wire encoding.
    DateFormatError { raw_input: String },
    /// The input was not JSON, not of the expected shape, or a field held a
    /// value of the wrong type; `detail` names the offending input or field.
    MalformedPayload { detail: String },
    /// Opaque passthrough from the transport collaborator.
    TransportError { detail: String },
    /// The client was asked for a service version this layer does not
    /// implement.
    UnsupportedVersion { version: SupportSpiraVersions },
    /// A decode error that arose at one element of an array payload; the
    /// originating error is kept, with the element index attached.
    ElementError { index: usize, cause: Box<SpiraError> },
}

/// Mathematical image of a `SpiraError`, with text as `Seq<char>`.
pub ghost enum SpiraErrorV {
    MissingField { field: Seq<char>, object_keys: Seq<Seq<char>> },
    UnknownEnumCode { field: Seq<char>, value: u64 },
    DateFormatError { raw_input: Seq<char> },
    MalformedPayload { detail: Seq<char> },
    TransportError { detail: Seq<char> },
    UnsupportedVersion { version: SupportSpiraVersions },
    ElementError { index: usize, cause: Box<SpiraErrorV> },
}

/// Recursive image of a `SpiraError` (recursive because element errors keep
/// their originating cause).
pub open spec fn spec_err_view(e: SpiraError) -> SpiraErrorV
    decreases e,
{
    match e {
        SpiraError::MissingField { field, object_keys } => SpiraErrorV::MissingField {
            field: field@,
            object_keys: object_keys.deep_view(),
        },
        SpiraError::UnknownEnumCode { field, value } => SpiraErrorV::UnknownEnumCode {
            field: field@,
            value: value,
        },
        SpiraError::DateFormatError { raw_input } => SpiraErrorV::DateFormatError {
            raw_input: raw_input@,
        },
        SpiraError::MalformedPayload { detail } => SpiraErrorV::MalformedPayload {
            detail: detail@,
        },
        SpiraError::TransportError { detail } => SpiraErrorV::TransportError {
            detail: detail@,
        },
        SpiraError::UnsupportedVersion { version } => SpiraErrorV::UnsupportedVersion {
            version: version,
        },
        SpiraError::ElementError { index, cause } => SpiraErrorV::ElementError {
            index: index,
            cause: Box::new(spec_err_view(*cause)),
        },
    }
}

impl View for SpiraError {
    type V = SpiraErrorV;

    open spec fn view(&self) -> SpiraErrorV {
        spec_err_view(*self)
    }
}

} // verus!
