//! TLS reporting: the aggregate report record fetched from DNS, the
//! datapoints the delivery worker emits, and the policy they cite.

use vstd::prelude::*;

use crate::hosts::IpAddress;
use crate::policy::{AggregateFrequency, MtaStsPolicy, Tlsa};

verus! {

/// Where aggregate reports are delivered.
#[derive(Debug, Clone, PartialEq, Eq)]
pub enum ReportUri {
    Mail(Vec<u8>),
    Http(Vec<u8>),
}

/// A TLS-RPT record fetched from DNS.
#[derive(Debug, Clone, PartialEq, Eq)]
pub struct TlsRptRecord {
    pub rua: Vec<ReportUri>,
}

/// A fetched TLS-RPT record together with the configured aggregation
/// interval.
#[derive(Debug, Clone, PartialEq, Eq)]
pub struct TlsRptOptions {
    pub record: TlsRptRecord,
    pub interval: AggregateFrequency,
}

/// Result type of one TLS report datapoint.
#[derive(Debug, Clone, Copy, PartialEq, Eq, Structural)]
pub enum ResultType {
    StartTlsNotSupported,
    CertificateHostMismatch,
    CertificateExpired,
    CertificateNotTrusted,
    ValidationFailure,
    TlsaInvalid,
    DnssecInvalid,
    DaneRequired,
    StsPolicyFetchError,
    StsPolicyInvalid,
    StsWebpkiInvalid,
    Other,
}

/// The policy a datapoint is filed under.
#[derive(Debug, Clone, PartialEq, Eq)]
pub enum PolicyType {
    Tlsa(Option<Tlsa>),
    Sts(Option<MtaStsPolicy>),
    NoPolicyFound,
}

/// Why a datapoint was recorded.
#[derive(Debug, Clone, PartialEq, Eq)]
pub enum FailureReason {
    /// MTA-STS is required and no policy was found.
    MtaStsRequiredNoPolicy,
    /// The MX is not authorized by the policy.
    MxNotAuthorized,
    /// The TLSA record set carries no usable association.
    InvalidTlsaRecord,
    /// No DNSSEC-signed TLSA records were found.
    NoTlsaDnssecRecords,
    /// No TLSA records were found for the MX.
    NoTlsaRecordsForMx,
    /// The presented certificates matched no TLSA record.
    NoMatchingCertificates,
    /// STARTTLS was not advertised by the host.
    StartTlsNotAdvertised,
    /// Carried text, for example a handshake error or a parse failure.
    Text(Vec<u8>),
}

/// One failure datapoint of an aggregate TLS report.
#[derive(Debug, Clone, PartialEq, Eq)]
pub struct FailureDetails {
    pub result_type: ResultType,
    pub receiving_mx_hostname: Option<Vec<u8>>,
    pub receiving_ip: Option<IpAddress>,
    pub reason: Option<FailureReason>,
}

/// One datapoint handed to the reporter: the policy in force, the domain,
/// the failure (or none, for a success), and where and how often to
/// aggregate.
#[derive(Debug, Clone, PartialEq, Eq)]
pub struct TlsEvent {
    pub policy: PolicyType,
    pub domain: Vec<u8>,
    pub failure: Option<FailureDetails>,
    pub tls_record: TlsRptRecord,
    pub interval: AggregateFrequency,
}

/// The policy a successful handshake is credited to: DANE when present,
/// else MTA-STS, else none.
pub fn success_policy_type(mta_sts: Option<MtaStsPolicy>, dane: Option<Tlsa>) -> (p: PolicyType)
    ensures
        dane matches Some(t) ==> p == PolicyType::Tlsa(Some(t)),
        dane is None ==> (mta_sts matches Some(s) ==> p == PolicyType::Sts(Some(s))),
        dane is None && mta_sts is None ==> p == PolicyType::NoPolicyFound,
{
    match dane {
        Some(t) => PolicyType::Tlsa(Some(t)),
        None => match mta_sts {
            Some(s) => PolicyType::Sts(Some(s)),
            None => PolicyType::NoPolicyFound,
        },
    }
}

} // verus!
