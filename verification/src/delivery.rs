//! The delivery worker's phase decisions: what to do with a leased
//! message, with each domain's policy lookups, and with each host's
//! handshake — every decision a function of plain values.

use vstd::prelude::*;

use rand::Rng;

use crate::hosts::{
    clone_bytes, remote_hosts_post, to_remote_hosts, IpAddress, MxRecord, NextHop, RelayConfig,
    ServerProtocol,
};
use crate::policy::{AggregateFrequency, LookupError, Tlsa};
use crate::queue::{spec_next_delivery_event, spec_next_event_after, Message};
use crate::report::{FailureDetails, FailureReason, PolicyType, ResultType};
use crate::status::{
    DaneErrorDetails, DaneFailure, DnsFailure, Error, ErrorDetails, MtaStsFailure, Response,
    Status,
};

verus! {

/// What one worker run reports back to the queue manager.
#[derive(Debug, Clone, Copy, PartialEq, Eq)]
pub enum QueueEventStatus {
    /// The message is gone from the queue.
    Completed,
    /// The message stays queued for a later event.
    Deferred,
    /// The lease is held elsewhere; look again after `until`.
    Locked { until: u64 },
}

/// Relies on rand's `random_range` over the non-empty range `5..10`: a
/// uniform draw that lies in the range.
#[verifier::external_body]
fn lock_retry_jitter() -> (r: u64)
    ensures
        5 <= r < 10,
{
    rand::rng().random_range(5..10)
}

/// The status reported when the lease is held elsewhere: look again once
/// the lease must have lapsed, with a small random spread so waiting
/// workers do not return in lockstep.
pub fn locked_status(now: u64) -> (s: QueueEventStatus)
    requires
        now + crate::LOCK_EXPIRY + 10 <= u64::MAX,
    ensures
        s matches QueueEventStatus::Locked { until } && now + crate::LOCK_EXPIRY + 5 <= until < now
            + crate::LOCK_EXPIRY + 10,
{
    let jitter = lock_retry_jitter();
    QueueEventStatus::Locked { until: now + crate::LOCK_EXPIRY + jitter }
}

/// What to do with a leased message before any domain is tried.
#[derive(Debug, Clone, Copy, PartialEq, Eq)]
pub enum PreparePlan {
    /// Nothing is pending: delete the message and report it completed.
    Remove,
    /// Work is pending but none is due yet: persist and defer to `due`.
    Defer { due: u64 },
    /// A delivery attempt is due now.
    Proceed,
}

/// Decide the fate of the attempt after the expiry sweep and DSN pass:
/// with nothing pending the message is removed; with pending work whose
/// earliest retry lies in the future it is deferred to that time; else the
/// attempt proceeds.
pub fn delivery_due_disposition(m: &Message, has_pending: bool, now: u64) -> (p: PreparePlan)
    ensures
        !has_pending ==> p is Remove,
        has_pending && spec_next_delivery_event(*m) > now ==> (p matches PreparePlan::Defer { due }
            && due == spec_next_delivery_event(*m)),
        has_pending && spec_next_delivery_event(*m) <= now ==> p is Proceed,
{
    if !has_pending {
        PreparePlan::Remove
    } else {
        let due = m.next_delivery_event();
        if due > now {
            PreparePlan::Defer { due }
        } else {
            PreparePlan::Proceed
        }
    }
}

/// An optional time, or `or` when there is none.
pub open spec fn opt_or(o: Option<u64>, or: u64) -> u64 {
    match o {
        Some(v) => v,
        None => or,
    }
}

/// When a sender-scoped rate limit denies the attempt: the message is
/// deferred to the limiter's retry time or the message's own next event,
/// whichever comes first.
pub fn sender_limit_defer(m: &Message, retry_at: u64, now: u64) -> (next: u64)
    ensures
        next == if retry_at <= opt_or(spec_next_event_after(*m, now), u64::MAX) {
            retry_at
        } else {
            opt_or(spec_next_event_after(*m, now), u64::MAX)
        },
{
    let own = match m.next_event_after(now) {
        Some(v) => v,
        None => u64::MAX,
    };
    if retry_at <= own {
        retry_at
    } else {
        own
    }
}

/// The TLS-RPT record is fetched only for SMTP deliveries of ordinary
/// mail — not for a report — with aggregate reporting switched on.
pub fn should_fetch_tls_rpt(interval: &AggregateFrequency, is_smtp: bool, flags: u64) -> (r: bool)
    ensures
        r == (!(*interval is Never) && is_smtp && flags & crate::FROM_REPORT == 0),
{
    !matches!(interval, AggregateFrequency::Never) && is_smtp && (flags & crate::FROM_REPORT) == 0
}

/// Where the next hop of a domain lies.
#[derive(Debug, Clone, PartialEq, Eq)]
pub enum NextHopPlan {
    /// A relay over a non-SMTP protocol: the message is handed to local
    /// delivery.
    DeliverLocally,
    /// A configured relay host overrides MX resolution.
    Relay(RelayConfig),
    /// No relay: resolve the domain's MX records.
    MxLookup,
}

/// Route a domain through its configured relay, if any: a non-SMTP relay
/// means local delivery, an SMTP or LMTP relay is spoken to directly, and
/// without a relay the MX records decide.
pub fn next_hop_plan(relay: Option<RelayConfig>) -> (p: NextHopPlan)
    ensures
        relay is None ==> p is MxLookup,
        relay matches Some(c) ==> p == if c.protocol is Http {
            NextHopPlan::DeliverLocally
        } else {
            NextHopPlan::Relay(c)
        },
{
    match relay {
        None => NextHopPlan::MxLookup,
        Some(c) => {
            if matches!(c.protocol, ServerProtocol::Http) {
                NextHopPlan::DeliverLocally
            } else {
                NextHopPlan::Relay(c)
            }
        },
    }
}

/// How an MTA-STS policy fetch failed.
#[derive(Debug, Clone, PartialEq, Eq)]
pub enum MtaStsFetchError {
    /// The policy's DNS record could not be read.
    Dns(LookupError),
    /// The HTTPS fetch failed, with the transport's text.
    Http(Vec<u8>),
    /// The fetched policy could not be parsed, with the reason.
    InvalidPolicy(Vec<u8>),
}

/// The status a failed MTA-STS fetch earns for the domain.
pub open spec fn spec_mta_sts_error_status(err: MtaStsFetchError) -> Status<(), Error> {
    match err {
        MtaStsFetchError::Dns(LookupError::NotFound) => Status::PermanentFailure(
            Error::MtaStsError(MtaStsFailure::PolicyNotFound),
        ),
        MtaStsFetchError::Dns(LookupError::Transient(d)) => Status::TemporaryFailure(
            Error::DnsError(DnsFailure::Lookup(d)),
        ),
        MtaStsFetchError::Http(d) => Status::TemporaryFailure(
            Error::MtaStsError(MtaStsFailure::Fetch(d)),
        ),
        MtaStsFetchError::InvalidPolicy(r) => Status::PermanentFailure(
            Error::MtaStsError(MtaStsFailure::InvalidPolicy(r)),
        ),
    }
}

/// Whether a failed MTA-STS fetch yields a report datapoint: a missing
/// policy only where one is demanded, a transient DNS error never, any
/// other failure always — reporting itself switched on throughout.
pub open spec fn spec_mta_sts_reports(
    err: MtaStsFetchError,
    strict: bool,
    report_active: bool,
) -> bool {
    report_active && match err {
        MtaStsFetchError::Dns(LookupError::NotFound) => strict,
        MtaStsFetchError::Dns(LookupError::Transient(_)) => false,
        MtaStsFetchError::Http(_) => true,
        MtaStsFetchError::InvalidPolicy(_) => true,
    }
}

/// What the datapoint for a failed MTA-STS fetch says.
pub open spec fn mta_sts_report_matches(fd: FailureDetails, err: MtaStsFetchError) -> bool {
    fd.receiving_mx_hostname is None && fd.receiving_ip is None && match err {
        MtaStsFetchError::Dns(LookupError::NotFound) => fd.result_type == ResultType::Other
            && fd.reason == Some(FailureReason::MtaStsRequiredNoPolicy),
        MtaStsFetchError::Dns(LookupError::Transient(_)) => false,
        MtaStsFetchError::Http(d) => fd.result_type == ResultType::StsPolicyFetchError && (
        fd.reason matches Some(FailureReason::Text(x)) && x@ == d@),
        MtaStsFetchError::InvalidPolicy(r) => fd.result_type == ResultType::StsPolicyInvalid && (
        fd.reason matches Some(FailureReason::Text(x)) && x@ == r@),
    }
}

/// What the worker does about a failed MTA-STS fetch.
#[derive(Debug, Clone, PartialEq, Eq)]
pub struct MtaStsErrorPlan {
    /// The datapoint to hand the reporter, if one is owed.
    pub report: Option<FailureDetails>,
    /// The status to record on the domain, where the policy was demanded;
    /// without it the attempt continues without a policy.
    pub fail_domain: Option<Status<(), Error>>,
}

/// Decide what a failed MTA-STS policy fetch means for the domain.
pub fn on_mta_sts_error(err: MtaStsFetchError, strict: bool, report_active: bool) -> (p:
    MtaStsErrorPlan)
    ensures
        (p.report is Some) == spec_mta_sts_reports(err, strict, report_active),
        p.report matches Some(fd) ==> mta_sts_report_matches(fd, err),
        strict ==> (p.fail_domain matches Some(st) && st == spec_mta_sts_error_status(err)),
        !strict ==> p.fail_domain is None,
{
    let report: Option<FailureDetails> = if report_active {
        match &err {
            MtaStsFetchError::Dns(LookupError::NotFound) => {
                if strict {
                    Some(
                        FailureDetails {
                            result_type: ResultType::Other,
                            receiving_mx_hostname: None,
                            receiving_ip: None,
                            reason: Some(FailureReason::MtaStsRequiredNoPolicy),
                        },
                    )
                } else {
                    None
                }
            },
            MtaStsFetchError::Dns(LookupError::Transient(_)) => None,
            MtaStsFetchError::Http(d) => Some(
                FailureDetails {
                    result_type: ResultType::StsPolicyFetchError,
                    receiving_mx_hostname: None,
                    receiving_ip: None,
                    reason: Some(FailureReason::Text(clone_bytes(d))),
                },
            ),
            MtaStsFetchError::InvalidPolicy(r) => Some(
                FailureDetails {
                    result_type: ResultType::StsPolicyInvalid,
                    receiving_mx_hostname: None,
                    receiving_ip: None,
                    reason: Some(FailureReason::Text(clone_bytes(r))),
                },
            ),
        }
    } else {
        None
    };
    let fail_domain: Option<Status<(), Error>> = if strict {
        Some(
            match err {
                MtaStsFetchError::Dns(LookupError::NotFound) => Status::PermanentFailure(
                    Error::MtaStsError(MtaStsFailure::PolicyNotFound),
                ),
                MtaStsFetchError::Dns(LookupError::Transient(d)) => Status::TemporaryFailure(
                    Error::DnsError(DnsFailure::Lookup(d)),
                ),
                MtaStsFetchError::Http(d) => Status::TemporaryFailure(
                    Error::MtaStsError(MtaStsFailure::Fetch(d)),
                ),
                MtaStsFetchError::InvalidPolicy(r) => Status::PermanentFailure(
                    Error::MtaStsError(MtaStsFailure::InvalidPolicy(r)),
                ),
            },
        )
    } else {
        None
    };
    MtaStsErrorPlan { report, fail_domain }
}

/// The status a host earns when the MTA-STS policy does not authorize it.
pub fn mta_sts_not_authorized_status(mx: Vec<u8>) -> (s: Status<(), Error>)
    ensures
        s == Status::<(), Error>::PermanentFailure(
            Error::MtaStsError(MtaStsFailure::NotAuthorized(mx)),
        ),
{
    Status::PermanentFailure(Error::MtaStsError(MtaStsFailure::NotAuthorized(mx)))
}

/// The datapoint recorded when the policy does not authorize the MX.
pub fn mta_sts_not_authorized_report(mx: &Vec<u8>) -> (fd: FailureDetails)
    ensures
        fd.result_type == ResultType::ValidationFailure,
        fd.receiving_mx_hostname matches Some(h) && h@ == mx@,
        fd.receiving_ip is None,
        fd.reason == Some(FailureReason::MxNotAuthorized),
{
    FailureDetails {
        result_type: ResultType::ValidationFailure,
        receiving_mx_hostname: Some(clone_bytes(mx)),
        receiving_ip: None,
        reason: Some(FailureReason::MxNotAuthorized),
    }
}

/// A permanently failed host under DANE, with the reason.
pub open spec fn spec_dane_fail_status(mx: Vec<u8>, f: DaneFailure) -> Status<(), Error> {
    Status::PermanentFailure(Error::DaneError(DaneErrorDetails { entity: mx, failure: f }))
}

/// What the worker does about a TLSA lookup's outcome.
#[derive(Debug, Clone, PartialEq, Eq)]
pub struct DanePlan {
    /// The policy to verify the handshake against, where one is usable.
    pub policy: Option<Tlsa>,
    /// The datapoint to hand the reporter, if one is owed.
    pub report: Option<FailureDetails>,
    /// The policy the datapoint is filed under; present exactly when the
    /// datapoint is.
    pub report_policy: Option<PolicyType>,
    /// The status to remember for this host, where DANE was demanded and
    /// cannot be satisfied; without it the attempt continues without DANE.
    pub fail_host: Option<Status<(), Error>>,
}

/// Decide what a TLSA lookup's outcome means for the host: a usable
/// record set becomes the DANE policy; an unusable or missing one is
/// reported and, where DANE is demanded, fails the host; a transient DNS
/// error fails the host only where DANE is demanded.
pub fn on_dane_lookup(
    result: Result<Option<Tlsa>, LookupError>,
    strict: bool,
    report_active: bool,
    mx: Vec<u8>,
) -> (p: DanePlan)
    ensures
        (p.report is Some) == (p.report_policy is Some),
        result matches Ok(Some(t)) ==> {
            &&& t.has_end_entities ==> p == (DanePlan {
                policy: Some(t),
                report: None,
                report_policy: None,
                fail_host: None,
            })
            &&& !t.has_end_entities ==> {
                &&& p.policy is None
                &&& (p.report is Some) == report_active
                &&& (p.report matches Some(fd) ==> fd.result_type == ResultType::TlsaInvalid
                    && fd.reason == Some(FailureReason::InvalidTlsaRecord) && (
                fd.receiving_mx_hostname matches Some(h) && h@ == mx@) && fd.receiving_ip is None)
                &&& (report_active ==> p.report_policy == Some(PolicyType::Tlsa(Some(t))))
                &&& (strict ==> (p.fail_host matches Some(st) && st == spec_dane_fail_status(
                    mx,
                    DaneFailure::NoValidRecords,
                )))
                &&& (!strict ==> p.fail_host is None)
            }
        },
        result matches Ok(o) && o is None ==> {
            &&& p.policy is None
            &&& (p.report is Some) == (report_active && strict)
            &&& (p.report matches Some(fd) ==> fd.result_type == ResultType::DaneRequired
                && fd.reason == Some(FailureReason::NoTlsaDnssecRecords) && (
            fd.receiving_mx_hostname matches Some(h) && h@ == mx@) && fd.receiving_ip is None)
            &&& (p.report is Some ==> p.report_policy == Some(PolicyType::Tlsa(None)))
            &&& (strict ==> (p.fail_host matches Some(st) && st == spec_dane_fail_status(
                mx,
                DaneFailure::NotSignedZone,
            )))
            &&& (!strict ==> p.fail_host is None)
        },
        result matches Err(e) && e is NotFound ==> {
            &&& p.policy is None
            &&& (p.report is Some) == (report_active && strict)
            &&& (p.report matches Some(fd) ==> fd.result_type == ResultType::DaneRequired
                && fd.reason == Some(FailureReason::NoTlsaRecordsForMx) && (
            fd.receiving_mx_hostname matches Some(h) && h@ == mx@) && fd.receiving_ip is None)
            &&& (p.report is Some ==> p.report_policy == Some(PolicyType::Tlsa(None)))
            &&& (strict ==> (p.fail_host matches Some(st) && st == spec_dane_fail_status(
                mx,
                DaneFailure::RecordsNotFound,
            )))
            &&& (!strict ==> p.fail_host is None)
        },
        result matches Err(e) ==> (e matches LookupError::Transient(d) ==> {
            &&& p.policy is None
            &&& p.report is None
            &&& (strict ==> (p.fail_host matches Some(st) && st == Status::<(
            ), Error>::TemporaryFailure(Error::DnsError(DnsFailure::Lookup(d)))))
            &&& (!strict ==> p.fail_host is None)
        }),
{
    match result {
        Ok(Some(tlsa)) => {
            if tlsa.has_end_entities {
                DanePlan { policy: Some(tlsa), report: None, report_policy: None, fail_host: None }
            } else {
                let report: Option<FailureDetails> = if report_active {
                    Some(
                        FailureDetails {
                            result_type: ResultType::TlsaInvalid,
                            receiving_mx_hostname: Some(clone_bytes(&mx)),
                            receiving_ip: None,
                            reason: Some(FailureReason::InvalidTlsaRecord),
                        },
                    )
                } else {
                    None
                };
                let report_policy: Option<PolicyType> = if report_active {
                    Some(PolicyType::Tlsa(Some(tlsa)))
                } else {
                    None
                };
                let fail_host: Option<Status<(), Error>> = if strict {
                    Some(
                        Status::PermanentFailure(
                            Error::DaneError(
                                DaneErrorDetails {
                                    entity: mx,
                                    failure: DaneFailure::NoValidRecords,
                                },
                            ),
                        ),
                    )
                } else {
                    None
                };
                DanePlan { policy: None, report, report_policy, fail_host }
            }
        },
        Ok(None) => dane_missing_plan(
            strict,
            report_active,
            mx,
            FailureReason::NoTlsaDnssecRecords,
            DaneFailure::NotSignedZone,
        ),
        Err(LookupError::NotFound) => dane_missing_plan(
            strict,
            report_active,
            mx,
            FailureReason::NoTlsaRecordsForMx,
            DaneFailure::RecordsNotFound,
        ),
        Err(LookupError::Transient(d)) => {
            let fail_host: Option<Status<(), Error>> = if strict {
                Some(Status::TemporaryFailure(Error::DnsError(DnsFailure::Lookup(d))))
            } else {
                None
            };
            DanePlan { policy: None, report: None, report_policy: None, fail_host }
        },
    }
}

/// The plan for a host whose TLSA records cannot be had at all.
fn dane_missing_plan(
    strict: bool,
    report_active: bool,
    mx: Vec<u8>,
    reason: FailureReason,
    failure: DaneFailure,
) -> (p: DanePlan)
    ensures
        p.policy is None,
        (p.report is Some) == (report_active && strict),
        (p.report is Some) == (p.report_policy is Some),
        p.report matches Some(fd) ==> fd.result_type == ResultType::DaneRequired && fd.reason
            == Some(reason) && (fd.receiving_mx_hostname matches Some(h) && h@ == mx@)
            && fd.receiving_ip is None,
        p.report is Some ==> p.report_policy == Some(PolicyType::Tlsa(None)),
        strict ==> (p.fail_host matches Some(st) && st == spec_dane_fail_status(mx, failure)),
        !strict ==> p.fail_host is None,
{
    if strict {
        let report: Option<FailureDetails> = if report_active {
            Some(
                FailureDetails {
                    result_type: ResultType::DaneRequired,
                    receiving_mx_hostname: Some(clone_bytes(&mx)),
                    receiving_ip: None,
                    reason: Some(reason),
                },
            )
        } else {
            None
        };
        let report_policy: Option<PolicyType> = if report_active {
            Some(PolicyType::Tlsa(None))
        } else {
            None
        };
        let fail_host = Some(
            Status::PermanentFailure(
                Error::DaneError(DaneErrorDetails { entity: mx, failure }),
            ),
        );
        DanePlan { policy: None, report, report_policy, fail_host }
    } else {
        DanePlan { policy: None, report: None, report_policy: None, fail_host: None }
    }
}

/// The status a host earns when its certificates match no TLSA record.
pub fn dane_verify_failure_status(mx: Vec<u8>) -> (s: Status<(), Error>)
    ensures
        s == spec_dane_fail_status(mx, DaneFailure::CertificateMismatch),
{
    Status::PermanentFailure(
        Error::DaneError(
            DaneErrorDetails { entity: mx, failure: DaneFailure::CertificateMismatch },
        ),
    )
}

/// The datapoint recorded when DANE verification of the peer fails.
pub fn dane_verify_failure_report(mx: &Vec<u8>, ip: IpAddress) -> (fd: FailureDetails)
    ensures
        fd.result_type == ResultType::ValidationFailure,
        fd.receiving_mx_hostname matches Some(h) && h@ == mx@,
        fd.receiving_ip == Some(ip),
        fd.reason == Some(FailureReason::NoMatchingCertificates),
{
    FailureDetails {
        result_type: ResultType::ValidationFailure,
        receiving_mx_hostname: Some(clone_bytes(mx)),
        receiving_ip: Some(ip),
        reason: Some(FailureReason::NoMatchingCertificates),
    }
}

/// The datapoint recorded when STARTTLS is refused or not advertised.
pub fn starttls_unavailable_report(mx: &Vec<u8>, ip: IpAddress, response: Option<&Response>) -> (fd:
    FailureDetails)
    ensures
        fd.result_type == ResultType::StartTlsNotSupported,
        fd.receiving_mx_hostname matches Some(h) && h@ == mx@,
        fd.receiving_ip == Some(ip),
        response matches Some(r) ==> (fd.reason matches Some(FailureReason::Text(x)) && x@
            == r.message@),
        response is None ==> fd.reason == Some(FailureReason::StartTlsNotAdvertised),
{
    let reason = match response {
        Some(r) => FailureReason::Text(clone_bytes(&r.message)),
        None => FailureReason::StartTlsNotAdvertised,
    };
    FailureDetails {
        result_type: ResultType::StartTlsNotSupported,
        receiving_mx_hostname: Some(clone_bytes(mx)),
        receiving_ip: Some(ip),
        reason: Some(reason),
    }
}

/// The datapoint recorded when the TLS handshake fails.
pub fn tls_error_report(mx: &Vec<u8>, ip: IpAddress, details: &Vec<u8>) -> (fd: FailureDetails)
    ensures
        fd.result_type == ResultType::CertificateNotTrusted,
        fd.receiving_mx_hostname matches Some(h) && h@ == mx@,
        fd.receiving_ip == Some(ip),
        fd.reason matches Some(FailureReason::Text(x)) && x@ == details@,
{
    FailureDetails {
        result_type: ResultType::CertificateNotTrusted,
        receiving_mx_hostname: Some(clone_bytes(mx)),
        receiving_ip: Some(ip),
        reason: Some(FailureReason::Text(clone_bytes(details))),
    }
}

/// The status a failed TCP connect earns: a temporary connection error.
pub fn connect_error_status(mx: Vec<u8>, details: Vec<u8>) -> (s: Status<(), Error>)
    ensures
        s == Status::<(), Error>::TemporaryFailure(
            Error::ConnectionError(ErrorDetails { entity: mx, details }),
        ),
{
    Status::TemporaryFailure(Error::ConnectionError(ErrorDetails { entity: mx, details }))
}

/// How the MX stage leaves a domain: a host list to try, or a status to
/// record.
#[derive(Debug, Clone, PartialEq, Eq)]
pub enum MxPlan {
    /// Open sessions to these hosts, in order.
    Deliver(Vec<NextHop>),
    /// Record this status on the domain and move on.
    FailDomain(Status<(), Error>),
}

/// Decide what an MX lookup's outcome means for the domain.  A resolved
/// set becomes the bounded host list; the null MX fails the domain for
/// good with the null MX reason — no host list, hence no connection, comes
/// out of it; a missing record set falls back to the implicit MX; a
/// transient error records a temporary DNS failure.
pub fn plan_mx_delivery(
    result: Result<Vec<MxRecord>, LookupError>,
    domain: &Vec<u8>,
    max_mx: usize,
) -> (p: MxPlan)
    requires
        max_mx >= 1,
    ensures
        result matches Ok(mx) ==> {
            &&& spec_is_null_mx_list(mx) ==> p == MxPlan::FailDomain(
                Status::PermanentFailure(Error::DnsError(DnsFailure::NullMx)),
            )
            &&& !spec_is_null_mx_list(mx) ==> (p matches MxPlan::Deliver(hosts)
                && remote_hosts_post(Some(hosts), mx@, domain@, max_mx as int))
        },
        result matches Err(e) && e is NotFound ==> (p matches MxPlan::Deliver(hosts)
            && hosts@.len() == 1 && (hosts@[0] matches NextHop::Mx(name) && name@ == domain@)),
        result matches Err(e) ==> (e matches LookupError::Transient(d) ==> p == MxPlan::FailDomain(
            Status::TemporaryFailure(Error::DnsError(DnsFailure::Lookup(d))),
        )),
{
    match result {
        Ok(mx) => {
            match to_remote_hosts(&mx, domain, max_mx) {
                Some(hosts) => MxPlan::Deliver(hosts),
                None => MxPlan::FailDomain(
                    Status::PermanentFailure(Error::DnsError(DnsFailure::NullMx)),
                ),
            }
        },
        Err(LookupError::NotFound) => {
            let empty: Vec<MxRecord> = Vec::new();
            match to_remote_hosts(&empty, domain, max_mx) {
                Some(hosts) => MxPlan::Deliver(hosts),
                None => {
                    proof {
                        assert(false);
                    }
                    MxPlan::FailDomain(
                        Status::PermanentFailure(Error::DnsError(DnsFailure::NullMx)),
                    )
                },
            }
        },
        Err(LookupError::Transient(d)) => MxPlan::FailDomain(
            Status::TemporaryFailure(Error::DnsError(DnsFailure::Lookup(d))),
        ),
    }
}

/// The null MX shape, lifted to the record list.
pub open spec fn spec_is_null_mx_list(mx: Vec<MxRecord>) -> bool {
    crate::hosts::spec_is_null_mx(mx@)
}

} // verus!
