//! Worker phase decisions: dispatcher lock status, attempt disposition,
//! rate-limit deferral, MX planning, MTA-STS and DANE outcomes, and the
//! happy-path scenario end to end.

use smtp_delivery::delivery::{
    connect_error_status, dane_verify_failure_report, dane_verify_failure_status,
    delivery_due_disposition, locked_status, mta_sts_not_authorized_report,
    mta_sts_not_authorized_status, on_dane_lookup, on_mta_sts_error, plan_mx_delivery,
    sender_limit_defer, should_fetch_tls_rpt, starttls_unavailable_report, tls_error_report,
    MtaStsFetchError, MxPlan, PreparePlan, QueueEventStatus,
};
use smtp_delivery::delivery::{next_hop_plan, NextHopPlan};
use smtp_delivery::hosts::{source_ip_for, IpAddress, MxRecord, NextHop, RelayConfig, ServerProtocol};
use smtp_delivery::policy::{AggregateFrequency, LookupError, Tlsa, TlsaEntry};
use smtp_delivery::queue::{Domain, Message, Recipient, Schedule};
use smtp_delivery::report::{FailureReason, PolicyType, ResultType};
use smtp_delivery::session::{
    on_data_response, on_rcpt_response, should_send_rcpt, starttls_decision, HandshakeDecision,
    StartTlsOutcome,
};
use smtp_delivery::policy::{RequireOptional, TlsStrategy};
use smtp_delivery::status::{
    DaneFailure, DnsFailure, EnhancedCode, Error, MtaStsFailure, Response, Status,
};
use smtp_delivery::{FROM_REPORT, LOCK_EXPIRY};

fn response(code: u16, msg: &str) -> Response {
    Response {
        code,
        esc: EnhancedCode { class: 0, subject: 0, detail: 0 },
        message: msg.as_bytes().to_vec(),
    }
}

fn mk_domain(name: &str, due: u64, expires: u64) -> Domain {
    Domain {
        domain: name.as_bytes().to_vec(),
        status: Status::Scheduled,
        retry: Schedule { due, inner: 0 },
        notify: Schedule { due: u64::MAX, inner: 0 },
        expires,
    }
}

fn mk_message(domains: Vec<Domain>, recipients: Vec<Recipient>) -> Message {
    Message {
        queue_id: 11,
        created: 1_000,
        span_id: 5,
        return_path: b"a@ex.com".to_vec(),
        flags: 0,
        size: 2_048,
        domains,
        recipients,
    }
}

fn mk_rcpt(addr: &str, domain_idx: u32) -> Recipient {
    Recipient {
        address_lcase: addr.as_bytes().to_vec(),
        domain_idx,
        status: Status::Scheduled,
        flags: 0,
        orcpt: None,
    }
}

fn ip() -> IpAddress {
    IpAddress { is_v4: true, value: 0xC000_0201 }
}

#[test]
fn locked_status_spreads_the_retry() {
    let now = 10_000u64;
    match locked_status(now) {
        QueueEventStatus::Locked { until } => {
            assert!(until >= now + LOCK_EXPIRY + 5);
            assert!(until < now + LOCK_EXPIRY + 10);
        }
        other => panic!("unexpected status: {:?}", other),
    }
}

#[test]
fn disposition_removes_defers_or_proceeds() {
    let m_due = mk_message(vec![mk_domain("recv.test", 500, 100_000)], vec![]);
    assert_eq!(delivery_due_disposition(&m_due, true, 1_000), PreparePlan::Proceed);
    assert_eq!(
        delivery_due_disposition(&m_due, true, 100),
        PreparePlan::Defer { due: 500 }
    );
    assert_eq!(delivery_due_disposition(&m_due, false, 100), PreparePlan::Remove);
}

#[test]
fn sender_throttle_defers_to_earliest_event() {
    let m = mk_message(vec![mk_domain("recv.test", 2_000, 100_000)], vec![]);
    assert_eq!(sender_limit_defer(&m, 1_500, 1_000), 1_500);
    assert_eq!(sender_limit_defer(&m, 3_000, 1_000), 2_000);
}

#[test]
fn tls_rpt_fetch_decision() {
    assert!(should_fetch_tls_rpt(&AggregateFrequency::Hourly, true, 0));
    assert!(!should_fetch_tls_rpt(&AggregateFrequency::Never, true, 0));
    assert!(!should_fetch_tls_rpt(&AggregateFrequency::Daily, false, 0));
    assert!(!should_fetch_tls_rpt(&AggregateFrequency::Daily, true, FROM_REPORT));
}

#[test]
fn null_mx_fails_the_domain_without_any_host() {
    let list = vec![MxRecord { preference: 0, exchanges: vec![b".".to_vec()] }];
    let plan = plan_mx_delivery(Ok(list), &b"recv.test".to_vec(), 5);
    match plan {
        MxPlan::FailDomain(Status::PermanentFailure(Error::DnsError(DnsFailure::NullMx))) => {}
        other => panic!("unexpected plan: {:?}", other),
    }
}

#[test]
fn missing_mx_records_use_the_implicit_mx() {
    let plan = plan_mx_delivery(Err(LookupError::NotFound), &b"recv.test".to_vec(), 5);
    match plan {
        MxPlan::Deliver(hosts) => {
            assert_eq!(hosts.len(), 1);
            assert_eq!(hosts[0], NextHop::Mx(b"recv.test".to_vec()));
        }
        other => panic!("unexpected plan: {:?}", other),
    }
}

#[test]
fn transient_mx_error_defers_the_domain() {
    let plan = plan_mx_delivery(
        Err(LookupError::Transient(b"servfail".to_vec())),
        &b"recv.test".to_vec(),
        5,
    );
    match plan {
        MxPlan::FailDomain(Status::TemporaryFailure(Error::DnsError(DnsFailure::Lookup(t)))) => {
            assert_eq!(t, b"servfail".to_vec());
        }
        other => panic!("unexpected plan: {:?}", other),
    }
}

#[test]
fn resolved_mx_records_become_hosts() {
    let list = vec![
        MxRecord { preference: 10, exchanges: vec![b"mx1.recv.test".to_vec()] },
        MxRecord { preference: 20, exchanges: vec![b"mx2.recv.test".to_vec()] },
    ];
    match plan_mx_delivery(Ok(list), &b"recv.test".to_vec(), 5) {
        MxPlan::Deliver(hosts) => {
            assert_eq!(hosts[0], NextHop::Mx(b"mx1.recv.test".to_vec()));
            assert_eq!(hosts[1], NextHop::Mx(b"mx2.recv.test".to_vec()));
        }
        other => panic!("unexpected plan: {:?}", other),
    }
}

#[test]
fn strict_mta_sts_without_policy_fails_and_reports() {
    let plan = on_mta_sts_error(
        MtaStsFetchError::Dns(LookupError::NotFound),
        true,
        true,
    );
    let fd = plan.report.expect("a datapoint is owed");
    assert_eq!(fd.result_type, ResultType::Other);
    assert_eq!(fd.reason, Some(FailureReason::MtaStsRequiredNoPolicy));
    assert_eq!(
        plan.fail_domain,
        Some(Status::PermanentFailure(Error::MtaStsError(
            MtaStsFailure::PolicyNotFound
        )))
    );
}

#[test]
fn lax_mta_sts_fetch_errors_continue_without_policy() {
    let plan = on_mta_sts_error(MtaStsFetchError::Http(b"timeout".to_vec()), false, true);
    let fd = plan.report.expect("fetch failures are reported");
    assert_eq!(fd.result_type, ResultType::StsPolicyFetchError);
    assert!(plan.fail_domain.is_none());

    let quiet = on_mta_sts_error(
        MtaStsFetchError::Dns(LookupError::Transient(b"servfail".to_vec())),
        true,
        true,
    );
    assert!(quiet.report.is_none());
    assert_eq!(
        quiet.fail_domain,
        Some(Status::TemporaryFailure(Error::DnsError(
            DnsFailure::Lookup(b"servfail".to_vec())
        )))
    );
}

#[test]
fn invalid_policy_is_reported_as_such() {
    let plan = on_mta_sts_error(
        MtaStsFetchError::InvalidPolicy(b"bad mode".to_vec()),
        true,
        true,
    );
    let fd = plan.report.expect("invalid policies are reported");
    assert_eq!(fd.result_type, ResultType::StsPolicyInvalid);
    assert_eq!(
        plan.fail_domain,
        Some(Status::PermanentFailure(Error::MtaStsError(
            MtaStsFailure::InvalidPolicy(b"bad mode".to_vec())
        )))
    );
}

#[test]
fn mx_not_authorized_by_policy() {
    // MTA-STS enforce with an MX outside the policy: a validation-failure
    // datapoint and a permanent MTA-STS status, with no session opened.
    let fd = mta_sts_not_authorized_report(&b"mx.other.test".to_vec());
    assert_eq!(fd.result_type, ResultType::ValidationFailure);
    assert_eq!(fd.receiving_mx_hostname, Some(b"mx.other.test".to_vec()));
    assert_eq!(fd.reason, Some(FailureReason::MxNotAuthorized));
    let st = mta_sts_not_authorized_status(b"mx.other.test".to_vec());
    assert_eq!(
        st,
        Status::PermanentFailure(Error::MtaStsError(MtaStsFailure::NotAuthorized(
            b"mx.other.test".to_vec()
        )))
    );
}

fn usable_tlsa() -> Tlsa {
    Tlsa {
        entries: vec![TlsaEntry {
            is_end_entity: true,
            is_sha256: true,
            is_spki: true,
            data: vec![0xAB; 32],
        }],
        has_end_entities: true,
        has_intermediates: false,
    }
}

#[test]
fn usable_tlsa_records_become_the_dane_policy() {
    let plan = on_dane_lookup(Ok(Some(usable_tlsa())), true, true, b"mx.recv.test".to_vec());
    assert_eq!(plan.policy, Some(usable_tlsa()));
    assert!(plan.report.is_none());
    assert!(plan.fail_host.is_none());
}

#[test]
fn dane_required_without_tlsa_fails_the_host() {
    // DANE demanded and the TLSA lookup finds nothing: a dane-required
    // datapoint and a permanent DANE status, before any connection.
    let plan = on_dane_lookup(Err(LookupError::NotFound), true, true, b"mx.recv.test".to_vec());
    let fd = plan.report.expect("a datapoint is owed");
    assert_eq!(fd.result_type, ResultType::DaneRequired);
    assert_eq!(fd.reason, Some(FailureReason::NoTlsaRecordsForMx));
    assert_eq!(plan.report_policy, Some(PolicyType::Tlsa(None)));
    match plan.fail_host {
        Some(Status::PermanentFailure(Error::DaneError(det))) => {
            assert_eq!(det.entity, b"mx.recv.test".to_vec());
            assert_eq!(det.failure, DaneFailure::RecordsNotFound);
        }
        other => panic!("unexpected status: {:?}", other),
    }
}

#[test]
fn unsigned_zone_is_tolerated_when_dane_is_optional() {
    let plan = on_dane_lookup(Ok(None), false, true, b"mx.recv.test".to_vec());
    assert!(plan.policy.is_none());
    assert!(plan.report.is_none());
    assert!(plan.fail_host.is_none());
}

#[test]
fn tlsa_without_end_entities_is_reported_invalid() {
    let tlsa = Tlsa { has_end_entities: false, ..usable_tlsa() };
    let plan = on_dane_lookup(Ok(Some(tlsa.clone())), false, true, b"mx.recv.test".to_vec());
    let fd = plan.report.expect("invalid record sets are reported");
    assert_eq!(fd.result_type, ResultType::TlsaInvalid);
    assert_eq!(fd.reason, Some(FailureReason::InvalidTlsaRecord));
    assert_eq!(plan.report_policy, Some(PolicyType::Tlsa(Some(tlsa))));
    assert!(plan.policy.is_none());
    assert!(plan.fail_host.is_none());
}

#[test]
fn dane_mismatch_after_handshake() {
    let fd = dane_verify_failure_report(&b"mx.recv.test".to_vec(), ip());
    assert_eq!(fd.result_type, ResultType::ValidationFailure);
    assert_eq!(fd.receiving_ip, Some(ip()));
    assert_eq!(fd.reason, Some(FailureReason::NoMatchingCertificates));
    match dane_verify_failure_status(b"mx.recv.test".to_vec()) {
        Status::PermanentFailure(Error::DaneError(det)) => {
            assert_eq!(det.failure, DaneFailure::CertificateMismatch);
        }
        other => panic!("unexpected status: {:?}", other),
    }
}

#[test]
fn starttls_and_tls_failure_datapoints() {
    let unavailable =
        starttls_unavailable_report(&b"mx.recv.test".to_vec(), ip(), Some(&response(502, "no")));
    assert_eq!(unavailable.result_type, ResultType::StartTlsNotSupported);
    assert_eq!(unavailable.reason, Some(FailureReason::Text(b"no".to_vec())));
    let missing = starttls_unavailable_report(&b"mx.recv.test".to_vec(), ip(), None);
    assert_eq!(missing.reason, Some(FailureReason::StartTlsNotAdvertised));
    let handshake = tls_error_report(&b"mx.recv.test".to_vec(), ip(), &b"bad cert".to_vec());
    assert_eq!(handshake.result_type, ResultType::CertificateNotTrusted);
    assert_eq!(handshake.reason, Some(FailureReason::Text(b"bad cert".to_vec())));
}

#[test]
fn connect_errors_are_temporary() {
    let st = connect_error_status(b"mx.recv.test".to_vec(), b"connection refused".to_vec());
    assert!(matches!(
        st,
        Status::TemporaryFailure(Error::ConnectionError(_))
    ));
}

#[test]
fn happy_path_with_opportunistic_starttls() {
    // One recipient, one MX, STARTTLS offered and successful, recipient
    // accepted, DATA accepted: the domain completes and the message has no
    // further event, so it is removed.
    let now = 5_000u64;
    let schedule = vec![120u64];
    let domain = mk_domain("recv.test", 0, 1_000_000);
    let rcpt = mk_rcpt("b@recv.test", 0);
    let mut m = mk_message(vec![domain], vec![rcpt]);

    let pending = m.has_pending_delivery(now);
    assert!(pending);
    assert_eq!(delivery_due_disposition(&m, pending, now), PreparePlan::Proceed);
    assert!(m.domains[0].ready(now));

    let mx_list = vec![MxRecord { preference: 10, exchanges: vec![b"mx.recv.test".to_vec()] }];
    let hosts = match plan_mx_delivery(Ok(mx_list), &b"recv.test".to_vec(), 5) {
        MxPlan::Deliver(hosts) => hosts,
        other => panic!("unexpected plan: {:?}", other),
    };
    assert_eq!(hosts[0], NextHop::Mx(b"mx.recv.test".to_vec()));

    let strategy = TlsStrategy {
        mta_sts: RequireOptional::Optional,
        dane: RequireOptional::Optional,
        tls: RequireOptional::Optional,
    };
    let decision = starttls_decision(
        &strategy,
        false,
        b"mx.recv.test".to_vec(),
        StartTlsOutcome::Success,
    );
    assert_eq!(decision, HandshakeDecision::DeliverTls);

    let mx = b"mx.recv.test".to_vec();
    let mut accepted: Vec<usize> = Vec::new();
    if should_send_rcpt(&m.recipients[0])
        && on_rcpt_response(&mut m.recipients[0], &mx, response(250, "2.1.5 OK")) {
        accepted.push(0);
    }
    assert_eq!(accepted, vec![0]);
    on_data_response(&mut m.recipients, &accepted, &mx, &response(250, "2.0.0 OK"));
    match &m.recipients[0].status {
        Status::Completed(hr) => assert_eq!(hr.response.message, b"2.0.0 OK".to_vec()),
        other => panic!("unexpected status: {:?}", other),
    }

    m.domains[0].set_status(Status::Completed(()), &schedule, now);
    assert!(m.next_event().is_none());
    assert_eq!(delivery_due_disposition(&m, false, now), PreparePlan::Remove);
}

#[test]
fn requiretls_with_starttls_refused_defers_then_expires() {
    // REQUIRETLS set, peer does not advertise STARTTLS: the host is
    // skipped with a temporary TLS status; once the domain expires the
    // failure hardens into a permanent one.
    let now = 5_000u64;
    let schedule = vec![120u64];
    let mut m = mk_message(
        vec![mk_domain("recv.test", 0, 6_000)],
        vec![mk_rcpt("b@recv.test", 0)],
    );
    m.flags = smtp_delivery::MAIL_REQUIRETLS;

    let strategy = TlsStrategy {
        mta_sts: RequireOptional::Optional,
        dane: RequireOptional::Optional,
        tls: RequireOptional::Optional,
    };
    let strict = smtp_delivery::session::is_strict_tls(&strategy, m.flags, false, false);
    assert!(strict);
    let decision = starttls_decision(
        &strategy,
        strict,
        b"mx.recv.test".to_vec(),
        StartTlsOutcome::Unavailable(None),
    );
    let last_status = match decision {
        HandshakeDecision::FailHost(st) => st,
        other => panic!("unexpected decision: {:?}", other),
    };
    assert!(matches!(last_status, Status::TemporaryFailure(Error::TlsError(_))));
    m.domains[0].set_status(last_status, &schedule, now);
    assert_eq!(m.domains[0].retry.inner, 1);
    assert_eq!(m.domains[0].retry.due, now + 120);

    // Past the expiry cutoff the next attempt hardens the failure.
    let later = 7_000u64;
    assert!(!m.has_pending_delivery(later));
    assert!(matches!(
        m.domains[0].status,
        Status::PermanentFailure(Error::TlsError(_))
    ));
}

#[test]
fn next_hop_routing() {
    assert_eq!(next_hop_plan(None), NextHopPlan::MxLookup);
    let relay = RelayConfig {
        address: b"relay.ex.com".to_vec(),
        port: 25,
        protocol: ServerProtocol::Smtp,
        implicit_tls: false,
        allow_invalid_certs: false,
        credentials: None,
    };
    assert_eq!(
        next_hop_plan(Some(relay.clone())),
        NextHopPlan::Relay(relay.clone())
    );
    let local = RelayConfig { protocol: ServerProtocol::Http, ..relay };
    assert_eq!(next_hop_plan(Some(local)), NextHopPlan::DeliverLocally);
}

#[test]
fn source_address_follows_remote_family() {
    let v4 = IpAddress { is_v4: true, value: 1 };
    let v6 = IpAddress { is_v4: false, value: 2 };
    assert_eq!(source_ip_for(&ip(), Some(v4), Some(v6)), Some(v4));
    let remote6 = IpAddress { is_v4: false, value: 77 };
    assert_eq!(source_ip_for(&remote6, Some(v4), Some(v6)), Some(v6));
    assert_eq!(source_ip_for(&remote6, Some(v4), None), None);
}
