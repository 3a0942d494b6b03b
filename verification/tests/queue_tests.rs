//! Queue record behaviour: retry arithmetic, status recording, the expiry
//! sweep, and event-time computation.

use smtp_delivery::queue::{Domain, Message, Recipient, Schedule};
use smtp_delivery::status::{
    DnsFailure, EnhancedCode, Error, ErrorDetails, HostResponse, Response, Status,
};

fn mk_domain(name: &str, status: Status<(), Error>, due: u64, inner: u32, expires: u64) -> Domain {
    Domain {
        domain: name.as_bytes().to_vec(),
        status,
        retry: Schedule { due, inner },
        notify: Schedule { due: u64::MAX, inner: 0 },
        expires,
    }
}

fn mk_rcpt(addr: &str, domain_idx: u32, status: Status<HostResponse, HostResponse>) -> Recipient {
    Recipient {
        address_lcase: addr.as_bytes().to_vec(),
        domain_idx,
        status,
        flags: 0,
        orcpt: None,
    }
}

fn mk_message(domains: Vec<Domain>, recipients: Vec<Recipient>) -> Message {
    Message {
        queue_id: 7,
        created: 1_000,
        span_id: 1,
        return_path: b"a@ex.com".to_vec(),
        flags: 0,
        size: 512,
        domains,
        recipients,
    }
}

fn host_response(code: u16, msg: &str) -> HostResponse {
    HostResponse {
        hostname: b"mx.recv.test".to_vec(),
        response: Response {
            code,
            esc: EnhancedCode { class: 0, subject: 0, detail: 0 },
            message: msg.as_bytes().to_vec(),
        },
    }
}

#[test]
fn retry_uses_schedule_entry_for_attempt() {
    let mut d = mk_domain("recv.test", Status::Scheduled, 0, 0, 10_000);
    let schedule = vec![120u64, 600, 3_600];
    d.retry(&schedule, 1_000);
    assert_eq!(d.retry.due, 1_120);
    assert_eq!(d.retry.inner, 1);
    d.retry(&schedule, 2_000);
    assert_eq!(d.retry.due, 2_600);
    assert_eq!(d.retry.inner, 2);
}

#[test]
fn retry_clamps_to_last_schedule_entry() {
    let mut d = mk_domain("recv.test", Status::Scheduled, 0, 9, 10_000);
    let schedule = vec![120u64, 600, 3_600];
    d.retry(&schedule, 5_000);
    assert_eq!(d.retry.due, 8_600);
    assert_eq!(d.retry.inner, 10);
}

#[test]
fn set_status_advances_retry_only_while_active() {
    let schedule = vec![60u64];
    let mut d = mk_domain("recv.test", Status::Scheduled, 0, 0, 10_000);
    d.set_status(
        Status::TemporaryFailure(Error::Io(b"timed out".to_vec())),
        &schedule,
        1_000,
    );
    assert_eq!(d.retry.inner, 1);
    assert_eq!(d.retry.due, 1_060);

    let mut done = mk_domain("recv.test", Status::Scheduled, 500, 3, 10_000);
    done.set_status(Status::Completed(()), &schedule, 1_000);
    assert_eq!(done.retry.inner, 3);
    assert_eq!(done.retry.due, 500);
    assert!(matches!(done.status, Status::Completed(())));
}

#[test]
fn rate_limiter_error_never_counts_an_attempt() {
    let mut d = mk_domain("recv.test", Status::Scheduled, 100, 2, 10_000);
    d.set_rate_limiter_error(1_300);
    assert_eq!(d.retry.inner, 2);
    assert_eq!(d.retry.due, 1_300);
    assert!(matches!(
        d.status,
        Status::TemporaryFailure(Error::RateLimited { retry_at: 1_300 })
    ));
}

#[test]
fn rate_limited_twice_then_delivered() {
    // Two denials with retry_at = now + 300 move only the due time; the
    // third, allowed attempt completes the domain.
    let schedule = vec![60u64];
    let mut d = mk_domain("recv.test", Status::Scheduled, 0, 0, 100_000);
    d.set_rate_limiter_error(1_300);
    assert_eq!((d.retry.inner, d.retry.due), (0, 1_300));
    d.set_rate_limiter_error(1_600);
    assert_eq!((d.retry.inner, d.retry.due), (0, 1_600));
    d.set_status(Status::Completed(()), &schedule, 1_700);
    assert_eq!(d.retry.inner, 0);
    assert!(matches!(d.status, Status::Completed(())));
}

#[test]
fn sweep_fails_expired_scheduled_domain_without_attempts() {
    let d = mk_domain("recv.test", Status::Scheduled, 0, 0, 900);
    let r = mk_rcpt("b@recv.test", 0, Status::Scheduled);
    let mut m = mk_message(vec![d], vec![r]);
    let pending = m.has_pending_delivery(1_000);
    assert!(!pending);
    assert!(matches!(
        m.domains[0].status,
        Status::PermanentFailure(Error::Expired { attempted: false })
    ));
    // A scheduled recipient has no failure to harden.
    assert!(matches!(m.recipients[0].status, Status::Scheduled));
}

#[test]
fn sweep_distinguishes_attempted_domains() {
    let d = mk_domain("recv.test", Status::Scheduled, 0, 1, 900);
    let r = mk_rcpt(
        "b@recv.test",
        0,
        Status::TemporaryFailure(host_response(451, "try later")),
    );
    let mut m = mk_message(vec![d], vec![r]);
    m.has_pending_delivery(1_000);
    assert!(matches!(
        m.domains[0].status,
        Status::PermanentFailure(Error::Expired { attempted: true })
    ));
    assert!(matches!(
        m.recipients[0].status,
        Status::PermanentFailure(_)
    ));
}

#[test]
fn sweep_hardens_temporary_failure_keeping_reason() {
    let d = mk_domain(
        "recv.test",
        Status::TemporaryFailure(Error::DnsError(DnsFailure::Lookup(b"servfail".to_vec()))),
        0,
        2,
        900,
    );
    let mut m = mk_message(vec![d], vec![]);
    let pending = m.has_pending_delivery(1_000);
    assert!(!pending);
    match &m.domains[0].status {
        Status::PermanentFailure(Error::DnsError(DnsFailure::Lookup(text))) => {
            assert_eq!(text, b"servfail");
        }
        other => panic!("unexpected status: {:?}", other),
    }
}

#[test]
fn sweep_keeps_completed_recipients() {
    let d = mk_domain(
        "recv.test",
        Status::TemporaryFailure(Error::Io(b"later".to_vec())),
        0,
        1,
        900,
    );
    let done = mk_rcpt("ok@recv.test", 0, Status::Completed(host_response(250, "OK")));
    let mut m = mk_message(vec![d], vec![done]);
    m.has_pending_delivery(1_000);
    assert!(matches!(m.recipients[0].status, Status::Completed(_)));
}

#[test]
fn sweep_leaves_unexpired_domains_pending() {
    let d = mk_domain("recv.test", Status::Scheduled, 0, 0, 2_000);
    let mut m = mk_message(vec![d], vec![]);
    let pending = m.has_pending_delivery(1_000);
    assert!(pending);
    assert!(matches!(m.domains[0].status, Status::Scheduled));
}

#[test]
fn expired_message_is_removable_in_one_attempt() {
    // Both domains past expiry: the sweep reports nothing pending, so the
    // attempt deletes the message.
    let d1 = mk_domain("one.test", Status::Scheduled, 0, 0, 500);
    let d2 = mk_domain(
        "two.test",
        Status::TemporaryFailure(Error::Io(b"x".to_vec())),
        0,
        3,
        800,
    );
    let mut m = mk_message(vec![d1, d2], vec![]);
    assert!(!m.has_pending_delivery(1_000));
    assert!(m.next_event().is_none());
}

#[test]
fn next_delivery_event_takes_earliest_active_retry() {
    let d1 = mk_domain("one.test", Status::Scheduled, 900, 0, 10_000);
    let d2 = mk_domain("two.test", Status::Completed(()), 100, 0, 10_000);
    let d3 = mk_domain(
        "three.test",
        Status::TemporaryFailure(Error::Io(b"x".to_vec())),
        700,
        1,
        10_000,
    );
    let m = mk_message(vec![d1, d2, d3], vec![]);
    assert_eq!(m.next_delivery_event(), 700);
}

#[test]
fn next_event_considers_notify_times() {
    let mut d1 = mk_domain("one.test", Status::Scheduled, 900, 0, 10_000);
    d1.notify = Schedule { due: 650, inner: 0 };
    let d2 = mk_domain("two.test", Status::PermanentFailure(Error::NotSupported), 1, 0, 10_000);
    let m = mk_message(vec![d1, d2], vec![]);
    assert_eq!(m.next_event(), Some(650));
}

#[test]
fn next_event_after_skips_past_times() {
    let mut d1 = mk_domain("one.test", Status::Scheduled, 400, 0, 10_000);
    d1.notify = Schedule { due: 2_000, inner: 0 };
    let m = mk_message(vec![d1], vec![]);
    assert_eq!(m.next_event_after(1_000), Some(2_000));
    assert_eq!(m.next_event_after(2_500), None);
}

#[test]
fn statuses_harden_and_soften_losslessly() {
    let details = ErrorDetails { entity: b"mx".to_vec(), details: b"boom".to_vec() };
    let temp: Status<(), Error> = Status::TemporaryFailure(Error::ConnectionError(details.clone()));
    let perm = temp.clone().into_permanent();
    assert_eq!(
        perm,
        Status::PermanentFailure(Error::ConnectionError(details.clone()))
    );
    assert_eq!(perm.clone().into_temporary(), temp);
    let sched: Status<(), Error> = Status::Scheduled;
    assert_eq!(sched.clone().into_permanent(), sched);
}
