//! Delivery status taxonomy: the four-state status of a domain or recipient,
//! the error kinds that can put it there, and the classification of SMTP
//! replies into statuses.

use vstd::prelude::*;

verus! {

/// An enhanced status code triple, as in `2.0.0`.
#[derive(Debug, Clone, Copy, PartialEq, Eq)]
pub struct EnhancedCode {
    pub class: u8,
    pub subject: u8,
    pub detail: u8,
}

/// One SMTP server reply: the three-digit code, the enhanced status code
/// triple, and the human-readable text.
#[derive(Debug, Clone, PartialEq, Eq)]
pub struct Response {
    pub code: u16,
    pub esc: EnhancedCode,
    pub message: Vec<u8>,
}

/// A reply together with the host that sent it.
#[derive(Debug, Clone, PartialEq, Eq)]
pub struct HostResponse {
    pub hostname: Vec<u8>,
    pub response: Response,
}

/// Entity (usually the remote host) and free-text detail of a failure.
#[derive(Debug, Clone, PartialEq, Eq)]
pub struct ErrorDetails {
    pub entity: Vec<u8>,
    pub details: Vec<u8>,
}

/// Why a DNS lookup left a domain undeliverable.
#[derive(Debug, Clone, PartialEq, Eq)]
pub enum DnsFailure {
    /// The domain publishes the null MX record and accepts no mail.
    NullMx,
    /// The resolver reported an error, described by its own text.
    Lookup(Vec<u8>),
}

/// How TLS failed on a host.
#[derive(Debug, Clone, PartialEq, Eq)]
pub enum TlsFailure {
    /// STARTTLS was not advertised by the host.
    NotAdvertised,
    /// STARTTLS was refused with this reply.
    Refused(Response),
    /// The TLS handshake itself failed.
    Handshake(Vec<u8>),
}

/// A TLS failure together with the host it happened on.
#[derive(Debug, Clone, PartialEq, Eq)]
pub struct TlsErrorDetails {
    pub entity: Vec<u8>,
    pub failure: TlsFailure,
}

/// Why DANE could not authenticate a host.
#[derive(Debug, Clone, PartialEq, Eq)]
pub enum DaneFailure {
    /// TLSA records exist but none carries a usable end-entity association.
    NoValidRecords,
    /// The answer was not DNSSEC signed.
    NotSignedZone,
    /// No TLSA records were found for the host.
    RecordsNotFound,
    /// The presented certificate chain matched no TLSA record.
    CertificateMismatch,
}

/// A DANE failure together with the host it happened on.
#[derive(Debug, Clone, PartialEq, Eq)]
pub struct DaneErrorDetails {
    pub entity: Vec<u8>,
    pub failure: DaneFailure,
}

/// Why MTA-STS left a domain or host undeliverable.
#[derive(Debug, Clone, PartialEq, Eq)]
pub enum MtaStsFailure {
    /// A host is not authorized by the domain's policy.
    NotAuthorized(Vec<u8>),
    /// The policy record was not found in DNS.
    PolicyNotFound,
    /// The fetched policy could not be parsed, with the reason.
    InvalidPolicy(Vec<u8>),
    /// The policy could not be fetched over HTTPS.
    Fetch(Vec<u8>),
}

/// The error kinds a delivery attempt can record.
#[derive(Debug, Clone, PartialEq, Eq)]
pub enum Error {
    DnsError(DnsFailure),
    ConnectionError(ErrorDetails),
    TlsError(TlsErrorDetails),
    DaneError(DaneErrorDetails),
    MtaStsError(MtaStsFailure),
    SmtpProtocolError(HostResponse),
    Io(Vec<u8>),
    /// The domain reached its expiry cutoff; `attempted` distinguishes a
    /// domain that failed repeatedly from one never tried.
    Expired { attempted: bool },
    RateLimited { retry_at: u64 },
    NotSupported,
}

/// Delivery state of a domain or recipient.  `R` is the payload of a
/// successful delivery, `E` of a failed one.
#[derive(Debug, Clone, PartialEq, Eq)]
pub enum Status<R, E> {
    /// Not yet attempted, or the last attempt is not conclusive.
    Scheduled,
    /// Delivered, with the accepting reply.
    Completed(R),
    /// Failed but worth retrying.
    TemporaryFailure(E),
    /// Failed for good.
    PermanentFailure(E),
}

impl<R, E> Status<R, E> {
    /// A terminal status is never revisited by the delivery worker.
    pub open spec fn is_terminal(self) -> bool {
        match self {
            Status::Completed(_) | Status::PermanentFailure(_) => true,
            Status::Scheduled | Status::TemporaryFailure(_) => false,
        }
    }

    /// Still owed a delivery attempt.
    pub open spec fn is_active(self) -> bool {
        !self.is_terminal()
    }

    /// What `into_permanent` returns: a temporary failure hardens into a
    /// permanent one with the same payload; every other status is kept.
    pub open spec fn spec_into_permanent(self) -> Self {
        match self {
            Status::TemporaryFailure(e) => Status::PermanentFailure(e),
            other => other,
        }
    }

    /// Harden a temporary failure into a permanent one, losslessly.
    pub fn into_permanent(self) -> (r: Self)
        ensures
            r == self.spec_into_permanent(),
    {
        match self {
            Status::TemporaryFailure(e) => Status::PermanentFailure(e),
            other => other,
        }
    }

    /// What `into_temporary` returns: a permanent failure softens into a
    /// temporary one with the same payload; every other status is kept.
    pub open spec fn spec_into_temporary(self) -> Self {
        match self {
            Status::PermanentFailure(e) => Status::TemporaryFailure(e),
            other => other,
        }
    }

    /// Soften a permanent failure into a temporary one, losslessly.
    pub fn into_temporary(self) -> (r: Self)
        ensures
            r == self.spec_into_temporary(),
    {
        match self {
            Status::PermanentFailure(e) => Status::TemporaryFailure(e),
            other => other,
        }
    }

    /// Harden this status in place: a temporary failure becomes permanent.
    pub fn harden(&mut self)
        ensures
            *final(self) == old(self).spec_into_permanent(),
    {
        let mut tmp: Status<R, E> = Status::Scheduled;
        core::mem::swap(self, &mut tmp);
        *self = tmp.into_permanent();
    }

    /// Executable test for `is_terminal`.
    pub fn terminal(&self) -> (r: bool)
        ensures
            r == self.is_terminal(),
    {
        match self {
            Status::Completed(_) | Status::PermanentFailure(_) => true,
            Status::Scheduled | Status::TemporaryFailure(_) => false,
        }
    }
}

/// The status a reply earns for one recipient: a 2xx reply completes the
/// recipient, a 5xx reply fails it for good, anything else is temporary.
pub open spec fn spec_rcpt_status(hostname: Vec<u8>, response: Response) -> Status<
    HostResponse,
    HostResponse,
> {
    let hr = HostResponse { hostname, response };
    if crate::spec_severity(hr.response.code) == 2 {
        Status::Completed(hr)
    } else if crate::spec_severity(hr.response.code) == 5 {
        Status::PermanentFailure(hr)
    } else {
        Status::TemporaryFailure(hr)
    }
}

/// Classify one server reply into a recipient status.
pub fn rcpt_status_from_response(hostname: Vec<u8>, response: Response) -> (r: Status<
    HostResponse,
    HostResponse,
>)
    ensures
        r == spec_rcpt_status(hostname, response),
{
    let sev = crate::severity(response.code);
    let hr = HostResponse { hostname, response };
    if sev == 2 {
        Status::Completed(hr)
    } else if sev == 5 {
        Status::PermanentFailure(hr)
    } else {
        Status::TemporaryFailure(hr)
    }
}

/// The domain-level status a reply earns when it aborts the whole session
/// (at MAIL FROM or DATA): permanent on a 5xx reply, temporary otherwise.
pub open spec fn spec_session_status(hostname: Vec<u8>, response: Response) -> Status<(), Error> {
    let hr = HostResponse { hostname, response };
    if crate::spec_severity(hr.response.code) == 5 {
        Status::PermanentFailure(Error::SmtpProtocolError(hr))
    } else {
        Status::TemporaryFailure(Error::SmtpProtocolError(hr))
    }
}

/// Classify a session-aborting server reply into a domain status.
pub fn session_status_from_response(hostname: Vec<u8>, response: Response) -> (r: Status<
    (),
    Error,
>)
    ensures
        r == spec_session_status(hostname, response),
{
    let sev = crate::severity(response.code);
    let hr = HostResponse { hostname, response };
    if sev == 5 {
        Status::PermanentFailure(Error::SmtpProtocolError(hr))
    } else {
        Status::TemporaryFailure(Error::SmtpProtocolError(hr))
    }
}

} // verus!
