//! The core result vocabulary: probe kinds, transport outcomes, verdicts
//! and the error taxonomy.

use vstd::prelude::*;

verus! {

/// The capability a single probe tests.
#[derive(Debug, Clone, Copy, PartialEq, Eq, Structural)]
pub enum ProbeKind {
    Existence,
    ListObjects,
    AnonymousWrite,
    AnonymousDelete,
    PermissionsCheck,
}

/// Why the transport layer failed to deliver a response.
#[derive(Debug, Clone, Copy, PartialEq, Eq, Structural)]
pub enum FailureCause {
    Timeout,
    Connection,
    Tls,
    /// A response arrived but its body could not be decoded; carries the
    /// raw status code alone.
    Status(u16),
}

/// What the transport layer handed back for one request: either a status
/// code with the response body text, or a transport-level failure.
#[derive(Debug, Clone)]
pub enum Outcome {
    Response(u16, String),
    Failure(FailureCause),
}

/// The structured S3 error document: the fields of the XML error body the
/// provider returns on a redirected or refused request.
#[derive(Debug, Clone, PartialEq)]
pub struct S3Error {
    pub code: String,
    pub message: String,
    pub endpoint: String,
    pub bucket: String,
    pub request_id: String,
    pub host_id: String,
}

/// The classified result of one probe.
#[derive(Debug, Clone, PartialEq)]
pub enum Verdict {
    /// Existence settled: the resource does or does not exist.
    Confirmed(bool),
    /// The probed capability is available to the caller.
    Allowed,
    /// The probed capability was refused.
    Denied,
    /// Refused, with the provider's structured error document attached.
    DeniedDetail(S3Error),
    /// The provider offers no such probe; no request was made.
    Unsupported,
    /// A status code outside the classifier's rules; carries the raw status.
    Ambiguous(u16),
    /// The transport failed, or a body failed to decode.
    TransportFailure(FailureCause),
}

/// The error taxonomy for operations that return a value rather than a
/// verdict.
#[derive(Debug, Clone, Copy, PartialEq, Eq, Structural)]
pub enum ScanError {
    /// A required configuration input (credential path, region) is missing.
    ConfigurationError,
    /// The transport failed before a response arrived.
    TransportFailure(FailureCause),
    /// The response body did not match the provider's schema.
    DecodeFailure,
    /// The request was refused outright.
    CapabilityDenied,
    /// A status code not covered by the classifier's rules.
    UnknownStatus(u16),
}

/// The fixed phrase reported for each error variant.
pub open spec fn spec_scan_error_text(e: ScanError) -> Seq<char> {
    match e {
        ScanError::ConfigurationError => "configuration error: a required setting is missing"@,
        ScanError::TransportFailure(c) => match c {
            FailureCause::Timeout => "transport failure: request timed out"@,
            FailureCause::Connection => "transport failure: connection failed"@,
            FailureCause::Tls => "transport failure: tls handshake failed"@,
            FailureCause::Status(_) => "transport failure: response body undecodable"@,
        },
        ScanError::DecodeFailure => "decode failure: body did not match the provider schema"@,
        ScanError::CapabilityDenied => "capability denied"@,
        ScanError::UnknownStatus(_) => "unknown status code"@,
    }
}

impl ScanError {
    /// The error as a fixed report phrase; the raw status, where one is
    /// carried, stays available on the variant itself.
    pub fn describe(&self) -> (r: String)
        ensures
            r@ == spec_scan_error_text(*self),
    {
        match self {
            ScanError::ConfigurationError => "configuration error: a required setting is missing"
                .to_owned(),
            ScanError::TransportFailure(c) => match c {
                FailureCause::Timeout => "transport failure: request timed out".to_owned(),
                FailureCause::Connection => "transport failure: connection failed".to_owned(),
                FailureCause::Tls => "transport failure: tls handshake failed".to_owned(),
                FailureCause::Status(_) => "transport failure: response body undecodable"
                    .to_owned(),
            },
            ScanError::DecodeFailure => "decode failure: body did not match the provider schema"
                .to_owned(),
            ScanError::CapabilityDenied => "capability denied".to_owned(),
            ScanError::UnknownStatus(_) => "unknown status code".to_owned(),
        }
    }
}

/// The record of one resource's scan: its name and the verdicts collected
/// in protocol order.
#[derive(Debug, Clone)]
pub struct ScanRecord {
    pub name: String,
    pub verdicts: Vec<(ProbeKind, Verdict)>,
}

} // verus!
