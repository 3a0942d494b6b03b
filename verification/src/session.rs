//! The SMTP session decisions: what the EHLO reply allows, when TLS is
//! strict, what a STARTTLS outcome means for the host, and how server
//! replies move the recipients' statuses.

use vstd::prelude::*;

use crate::hosts::clone_bytes;
use crate::policy::TlsStrategy;
use crate::queue::Recipient;
use crate::status::{
    EnhancedCode, Error, HostResponse, Response, Status, TlsErrorDetails, TlsFailure,
};

verus! {

/// What the peer advertised in its EHLO reply.
#[derive(Debug, Clone, Copy, PartialEq, Eq)]
pub struct Capabilities {
    pub start_tls: bool,
    pub requiretls: bool,
    pub dsn: bool,
    pub pipelining: bool,
    /// The advertised SIZE limit, if any.
    pub size: Option<u64>,
}

/// The parameters sent with MAIL FROM.
#[derive(Debug, Clone, Copy, PartialEq, Eq)]
pub struct MailFromParams {
    /// The SIZE parameter, sent only when the peer advertised SIZE.
    pub size: Option<u64>,
    /// The REQUIRETLS parameter, sent only when asked for and advertised.
    pub requiretls: bool,
}

/// TLS is strict on a host when the strategy demands it, the message
/// carries the REQUIRETLS flag, or an MTA-STS or DANE policy is present.
pub open spec fn spec_is_strict_tls(
    strategy: TlsStrategy,
    flags: u64,
    has_mta_sts: bool,
    has_dane: bool,
) -> bool {
    strategy.spec_is_tls_required() || (flags & crate::MAIL_REQUIRETLS != 0) || has_mta_sts
        || has_dane
}

/// Whether TLS must not be skipped or downgraded on this host.
pub fn is_strict_tls(strategy: &TlsStrategy, flags: u64, has_mta_sts: bool, has_dane: bool) -> (r:
    bool)
    ensures
        r == spec_is_strict_tls(*strategy, flags, has_mta_sts, has_dane),
{
    strategy.is_tls_required() || (flags & crate::MAIL_REQUIRETLS) != 0 || has_mta_sts || has_dane
}

/// The non-verifying TLS connector is used when certificate checks are
/// waived by configuration or relay, or when DANE end-entity matching
/// replaces PKI verification.
pub fn use_unverified_connector(
    allow_invalid_certs: bool,
    hop_allows_invalid_certs: bool,
    dane_has_end_entities: bool,
) -> (r: bool)
    ensures
        r == (allow_invalid_certs || hop_allows_invalid_certs || dane_has_end_entities),
{
    allow_invalid_certs || hop_allows_invalid_certs || dane_has_end_entities
}

/// The parameters MAIL FROM carries, given the message and what the peer
/// advertised.
pub fn mail_from_params(flags: u64, size: u64, caps: &Capabilities) -> (p: MailFromParams)
    ensures
        p.size == if caps.size is Some {
            Some(size)
        } else {
            None::<u64>
        },
        p.requiretls == (caps.requiretls && flags & crate::MAIL_REQUIRETLS != 0),
{
    MailFromParams {
        size: if caps.size.is_some() {
            Some(size)
        } else {
            None
        },
        requiretls: caps.requiretls && (flags & crate::MAIL_REQUIRETLS) != 0,
    }
}

/// How one STARTTLS attempt ended.
#[derive(Debug, Clone, PartialEq, Eq)]
pub enum StartTlsOutcome {
    /// The handshake succeeded.
    Success,
    /// STARTTLS was refused with this reply, or not advertised at all.
    Unavailable(Option<Response>),
    /// The handshake itself failed; `is_tls_failure` tells a TLS-layer
    /// error from a transport error, `details` is the library's text.
    Error { is_tls_failure: bool, details: Vec<u8> },
}

/// What the worker does with the host after the STARTTLS phase.
#[derive(Debug, Clone, PartialEq, Eq)]
pub enum HandshakeDecision {
    /// Deliver over the TLS session.
    DeliverTls,
    /// Deliver in plain text.
    DeliverPlain,
    /// Skip the host and remember this status.
    FailHost(Status<(), Error>),
}

/// The status a refused or missing STARTTLS earns: the refusing reply
/// decides between permanent and temporary, no reply means temporary.
pub open spec fn spec_starttls_failure(mx: Vec<u8>, response: Option<Response>) -> Status<
    (),
    Error,
> {
    match response {
        Some(r) => if crate::spec_severity(r.code) == 5 {
            Status::PermanentFailure(
                Error::TlsError(TlsErrorDetails { entity: mx, failure: TlsFailure::Refused(r) }),
            )
        } else {
            Status::TemporaryFailure(
                Error::TlsError(TlsErrorDetails { entity: mx, failure: TlsFailure::Refused(r) }),
            )
        },
        None => Status::TemporaryFailure(
            Error::TlsError(TlsErrorDetails { entity: mx, failure: TlsFailure::NotAdvertised }),
        ),
    }
}

/// The status a failed TLS handshake earns: permanent, to be softened by
/// the caller where TLS was not strict.
pub open spec fn spec_tls_error_status(mx: Vec<u8>, details: Vec<u8>) -> Status<(), Error> {
    Status::PermanentFailure(
        Error::TlsError(
            TlsErrorDetails { entity: mx, failure: TlsFailure::Handshake(details) },
        ),
    )
}

/// What the worker does after the STARTTLS phase of an opportunistic
/// session: with TLS disabled it delivers in plain text; after a
/// successful handshake it delivers over TLS; a refusal fails the host
/// when TLS is strict and falls back to plain text otherwise; a handshake
/// error fails the host, permanently when strict, else as a temporary
/// failure.
pub open spec fn spec_starttls_decision(
    strategy: TlsStrategy,
    strict: bool,
    mx: Vec<u8>,
    outcome: StartTlsOutcome,
) -> HandshakeDecision {
    if !strategy.spec_try_start_tls() {
        HandshakeDecision::DeliverPlain
    } else {
        match outcome {
            StartTlsOutcome::Success => HandshakeDecision::DeliverTls,
            StartTlsOutcome::Unavailable(response) => if strict {
                HandshakeDecision::FailHost(spec_starttls_failure(mx, response))
            } else {
                HandshakeDecision::DeliverPlain
            },
            StartTlsOutcome::Error { is_tls_failure, details } => HandshakeDecision::FailHost(
                if strict {
                    spec_tls_error_status(mx, details)
                } else {
                    spec_tls_error_status(mx, details).spec_into_temporary()
                },
            ),
        }
    }
}

/// Decide what to do with the host after the STARTTLS phase.
pub fn starttls_decision(
    strategy: &TlsStrategy,
    strict: bool,
    mx: Vec<u8>,
    outcome: StartTlsOutcome,
) -> (d: HandshakeDecision)
    ensures
        d == spec_starttls_decision(*strategy, strict, mx, outcome),
{
    if !strategy.try_start_tls() {
        return HandshakeDecision::DeliverPlain;
    }
    match outcome {
        StartTlsOutcome::Success => HandshakeDecision::DeliverTls,
        StartTlsOutcome::Unavailable(response) => {
            if strict {
                let status = match response {
                    Some(r) => {
                        let sev = crate::severity(r.code);
                        let det = TlsErrorDetails { entity: mx, failure: TlsFailure::Refused(r) };
                        if sev == 5 {
                            Status::PermanentFailure(Error::TlsError(det))
                        } else {
                            Status::TemporaryFailure(Error::TlsError(det))
                        }
                    },
                    None => Status::TemporaryFailure(
                        Error::TlsError(
                            TlsErrorDetails { entity: mx, failure: TlsFailure::NotAdvertised },
                        ),
                    ),
                };
                HandshakeDecision::FailHost(status)
            } else {
                HandshakeDecision::DeliverPlain
            }
        },
        StartTlsOutcome::Error { is_tls_failure: _, details } => {
            let det = TlsErrorDetails { entity: mx, failure: TlsFailure::Handshake(details) };
            if strict {
                HandshakeDecision::FailHost(Status::PermanentFailure(Error::TlsError(det)))
            } else {
                HandshakeDecision::FailHost(Status::TemporaryFailure(Error::TlsError(det)))
            }
        },
    }
}

/// Whether a STARTTLS outcome yields a certificate-not-trusted datapoint:
/// only a failure in the TLS layer itself is one, and only while
/// reporting is active; a transport error during the handshake is not.
pub fn should_report_tls_error(outcome: &StartTlsOutcome, report_active: bool) -> (r: bool)
    ensures
        r == (report_active && match *outcome {
            StartTlsOutcome::Error { is_tls_failure, .. } => is_tls_failure,
            _ => false,
        }),
{
    report_active && match outcome {
        StartTlsOutcome::Error { is_tls_failure, .. } => *is_tls_failure,
        _ => false,
    }
}

/// The status an implicit-TLS handshake error earns.  Unlike the
/// opportunistic path, this one is not softened for a lax strategy.
pub fn implicit_tls_error_status(mx: Vec<u8>, details: Vec<u8>) -> (s: Status<(), Error>)
    ensures
        s == spec_tls_error_status(mx, details),
{
    Status::PermanentFailure(
        Error::TlsError(
            TlsErrorDetails { entity: mx, failure: TlsFailure::Handshake(details) },
        ),
    )
}

/// Law: wherever TLS is strict on a host — demanded by the strategy, by
/// the message's REQUIRETLS flag, or by a present MTA-STS or DANE policy —
/// and STARTTLS is attempted, no decision delivers in plain text.
pub proof fn lemma_strict_tls_no_plaintext(
    strategy: TlsStrategy,
    flags: u64,
    has_mta_sts: bool,
    has_dane: bool,
    mx: Vec<u8>,
    outcome: StartTlsOutcome,
)
    requires
        strategy.spec_try_start_tls(),
        spec_is_strict_tls(strategy, flags, has_mta_sts, has_dane),
    ensures
        !(spec_starttls_decision(
            strategy,
            spec_is_strict_tls(strategy, flags, has_mta_sts, has_dane),
            mx,
            outcome,
        ) is DeliverPlain),
{
}

/// Two replies carry the same code, enhanced code and text.
pub open spec fn response_matches(a: Response, b: Response) -> bool {
    a.code == b.code && a.esc == b.esc && a.message@ == b.message@
}

/// The status one reply earns for a recipient, compared by content: a 2xx
/// reply completes it, a 5xx reply fails it for good, anything else is a
/// temporary failure; the payload carries the host and the reply.
pub open spec fn applied_rcpt_status(
    st: Status<HostResponse, HostResponse>,
    mx: Seq<u8>,
    response: Response,
) -> bool {
    match st {
        Status::Completed(hr) => crate::spec_severity(response.code) == 2 && hr.hostname@ == mx
            && response_matches(hr.response, response),
        Status::PermanentFailure(hr) => crate::spec_severity(response.code) == 5 && hr.hostname@
            == mx && response_matches(hr.response, response),
        Status::TemporaryFailure(hr) => crate::spec_severity(response.code) != 2
            && crate::spec_severity(response.code) != 5 && hr.hostname@ == mx && response_matches(
            hr.response,
            response,
        ),
        Status::Scheduled => false,
    }
}

/// Whether RCPT TO is sent for this recipient: completed recipients are
/// never offered the message again.
pub fn should_send_rcpt(r: &Recipient) -> (b: bool)
    ensures
        b == !(r.status is Completed),
{
    !matches!(&r.status, Status::Completed(_))
}

/// Clone a reply.
fn clone_response(r: &Response) -> (c: Response)
    ensures
        response_matches(*r, c),
        c.code == r.code,
        c.esc == r.esc,
        c.message@ == r.message@,
{
    Response { code: r.code, esc: r.esc, message: clone_bytes(&r.message) }
}

/// Apply the reply to one RCPT TO.  A 2xx reply accepts the recipient and
/// leaves its status for the data stage; a 5xx reply fails it for good;
/// anything else records a temporary failure.
pub fn on_rcpt_response(r: &mut Recipient, mx: &Vec<u8>, response: Response) -> (accepted: bool)
    requires
        !(old(r).status is Completed),
    ensures
        accepted == (crate::spec_severity(response.code) == 2),
        accepted ==> *final(r) == *old(r),
        !accepted ==> applied_rcpt_status(final(r).status, mx@, response),
        !accepted ==> !(final(r).status is Completed),
        final(r).address_lcase == old(r).address_lcase,
        final(r).domain_idx == old(r).domain_idx,
        final(r).flags == old(r).flags,
        final(r).orcpt == old(r).orcpt,
{
    let sev = crate::severity(response.code);
    if sev == 2 {
        true
    } else {
        let hr = HostResponse { hostname: clone_bytes(mx), response };
        if sev == 5 {
            r.status = Status::PermanentFailure(hr);
        } else {
            r.status = Status::TemporaryFailure(hr);
        }
        false
    }
}

/// The transparency image of the body from position `i` on: a `.` at the
/// start of a line — the start of the body, or right after an LF — is
/// doubled, every other byte is kept.
pub open spec fn stuffed_from(input: Seq<u8>, i: int, at_start: bool) -> Seq<u8>
    decreases input.len() - i,
{
    if i < 0 || i >= input.len() {
        Seq::empty()
    } else {
        let b = input[i];
        let rest = stuffed_from(input, i + 1, b == 10u8);
        if at_start && b == 46u8 {
            seq![46u8, 46u8] + rest
        } else {
            seq![b] + rest
        }
    }
}

/// What DATA puts on the wire for a body: the transparency image,
/// terminated by `.` CRLF — on a line of its own, so a body that does not
/// end in CRLF gets one first.
pub open spec fn spec_dot_stuffed(input: Seq<u8>) -> Seq<u8> {
    let body = stuffed_from(input, 0, true);
    if input.len() >= 2 && input[input.len() - 2] == 13u8 && input[input.len() - 1] == 10u8 {
        body + seq![46u8, 13u8, 10u8]
    } else {
        body + seq![13u8, 10u8, 46u8, 13u8, 10u8]
    }
}

/// Encode a message body for the DATA phase: dot-stuff each line and
/// append the terminating dot line.
#[verifier::loop_isolation(false)]
pub fn dot_stuff(input: &Vec<u8>) -> (out: Vec<u8>)
    ensures
        out@ == spec_dot_stuffed(input@),
{
    let n = input.len();
    let mut out: Vec<u8> = Vec::new();
    let mut i: usize = 0;
    let mut at_start = true;
    proof {
        assert(out@ + stuffed_from(input@, 0, true) =~= stuffed_from(input@, 0, true));
    }
    while i < n
        invariant
            i <= n,
            out@ + stuffed_from(input@, i as int, at_start) == stuffed_from(input@, 0, true),
        decreases n - i,
    {
        let b = input[i];
        let ghost pre_out = out@;
        let ghost pre_start = at_start;
        if at_start && b == 46u8 {
            out.push(46u8);
            out.push(46u8);
        } else {
            out.push(b);
        }
        at_start = b == 10u8;
        proof {
            assert(stuffed_from(input@, i as int, pre_start) == (if pre_start && b == 46u8 {
                seq![46u8, 46u8] + stuffed_from(input@, i + 1, b == 10u8)
            } else {
                seq![b] + stuffed_from(input@, i + 1, b == 10u8)
            }));
            assert(out@ + stuffed_from(input@, i + 1, b == 10u8) =~= pre_out + stuffed_from(
                input@,
                i as int,
                pre_start,
            ));
        }
        i = i + 1;
    }
    let ends_crlf = n >= 2 && input[n - 2] == 13u8 && input[n - 1] == 10u8;
    if ends_crlf {
        out.push(46u8);
        out.push(13u8);
        out.push(10u8);
    } else {
        out.push(13u8);
        out.push(10u8);
        out.push(46u8);
        out.push(13u8);
        out.push(10u8);
    }
    proof {
        assert(out@ =~= spec_dot_stuffed(input@));
    }
    out
}

/// Whether `j` is one of the accepted indices.
pub open spec fn in_accepted(accepted: Seq<usize>, j: int) -> bool {
    exists|t: int| 0 <= t < accepted.len() && accepted[t] == j
}

/// How the DATA reply rewrites one accepted recipient.
pub open spec fn data_applied(pre: Recipient, post: Recipient, mx: Seq<u8>, response: Response) -> bool {
    &&& applied_rcpt_status(post.status, mx, response)
    &&& post.address_lcase == pre.address_lcase
    &&& post.domain_idx == pre.domain_idx
    &&& post.flags == pre.flags
    &&& post.orcpt == pre.orcpt
}

/// Apply the final DATA reply to every accepted recipient: a 2xx reply
/// completes them, a 5xx reply fails them for good, anything else records
/// a temporary failure.  Recipients not accepted in this session keep
/// their status.
#[verifier::loop_isolation(false)]
pub fn on_data_response(
    recipients: &mut Vec<Recipient>,
    accepted: &Vec<usize>,
    mx: &Vec<u8>,
    response: &Response,
)
    requires
        forall|t: int|
            0 <= t < accepted@.len() ==> (#[trigger] accepted@[t]) < old(recipients)@.len(),
        forall|t: int|
            0 <= t < accepted@.len() ==> !((#[trigger] old(recipients)@[accepted@[t] as int]).status is Completed),
    ensures
        final(recipients)@.len() == old(recipients)@.len(),
        forall|j: int|
            0 <= j < old(recipients)@.len() && !in_accepted(accepted@, j)
                ==> final(recipients)@[j] == old(recipients)@[j],
        forall|j: int|
            0 <= j < old(recipients)@.len() && in_accepted(accepted@, j) ==> data_applied(
                old(recipients)@[j],
                final(recipients)@[j],
                mx@,
                *response,
            ),
{
    let n = accepted.len();
    let mut t: usize = 0;
    while t < n
        invariant
            t <= n,
            recipients@.len() == old(recipients)@.len(),
            forall|j: int|
                0 <= j < old(recipients)@.len() && in_accepted(accepted@.take(t as int), j)
                    ==> data_applied(old(recipients)@[j], recipients@[j], mx@, *response),
            forall|j: int|
                0 <= j < old(recipients)@.len() && !in_accepted(accepted@.take(t as int), j)
                    ==> recipients@[j] == old(recipients)@[j],
        decreases n - t,
    {
        let idx = accepted[t];
        let sev = crate::severity(response.code);
        let hr = HostResponse {
            hostname: clone_bytes(mx),
            response: clone_response(response),
        };
        let ghost prev = recipients@;
        let rc = &mut recipients[idx];
        if sev == 2 {
            rc.status = Status::Completed(hr);
        } else if sev == 5 {
            rc.status = Status::PermanentFailure(hr);
        } else {
            rc.status = Status::TemporaryFailure(hr);
        }
        proof {
            assert(recipients@ == prev.update(idx as int, recipients@[idx as int]));
            assert(data_applied(
                old(recipients)@[idx as int],
                recipients@[idx as int],
                mx@,
                *response,
            ));
            assert(accepted@.take(t + 1)[t as int] == idx);
            assert(in_accepted(accepted@.take(t + 1), idx as int));
            assert forall|j: int|
                0 <= j < old(recipients)@.len() && in_accepted(accepted@.take(t + 1), j)
                    implies data_applied(old(recipients)@[j], recipients@[j], mx@, *response) by {
                let w = choose|w: int|
                    0 <= w < accepted@.take(t + 1).len() && (#[trigger] accepted@.take(t + 1)[w])
                        == j;
                if w < t as int {
                    assert(accepted@.take(t as int)[w] == j);
                    assert(in_accepted(accepted@.take(t as int), j));
                    if j != idx as int {
                        assert(recipients@[j] == prev[j]);
                    }
                }
            }
            assert forall|j: int|
                0 <= j < old(recipients)@.len() && !in_accepted(accepted@.take(t + 1), j)
                    implies recipients@[j] == old(recipients)@[j] by {
                assert(j != idx as int);
                assert(!in_accepted(accepted@.take(t as int), j)) by {
                    if in_accepted(accepted@.take(t as int), j) {
                        let w = choose|w: int|
                            0 <= w < accepted@.take(t as int).len() && (#[trigger] accepted@.take(
                                t as int,
                            )[w]) == j;
                        assert(accepted@.take(t + 1)[w] == j);
                        assert(in_accepted(accepted@.take(t + 1), j));
                    }
                }
            }
        }
        t = t + 1;
    }
    proof {
        assert(accepted@.take(n as int) =~= accepted@);
    }
}

} // verus!
