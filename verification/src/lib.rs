//! Outbound SMTP delivery engine.
//!
//! The library holds the decision logic of a mail transfer agent's delivery
//! worker: the durable queue records, retry and expiry arithmetic, transport
//! security policy (STARTTLS, MTA-STS, DANE/TLSA, TLS-RPT, REQUIRETLS),
//! next-hop planning and per-recipient status tracking.  Network and store
//! I/O happen outside the library; every function here works on plain values
//! (timestamps, lookup results, server replies) handed in by the caller.

use vstd::prelude::*;

pub mod delivery;
pub mod hosts;
pub mod mta_sts;
pub mod policy;
pub mod queue;
pub mod report;
pub mod session;
pub mod status;

verus! {

/// Seconds a queue lease is held before it lapses on its own.
pub const LOCK_EXPIRY: u64 = 300;

/// Message flag bit: the sender asked for TLS on every hop (REQUIRETLS).
/// The value is the wire parameter bit used by the SMTP protocol library.
pub const MAIL_REQUIRETLS: u64 = 64;

/// Message flag bit: the message is itself a report, so no TLS report is
/// generated for its delivery.
pub const FROM_REPORT: u64 = 0x8000_0000_0000_0000;

/// Severity class of an SMTP reply code: 2 means success, 4 a transient
/// failure, 5 a permanent failure.
pub open spec fn spec_severity(code: u16) -> u16 {
    code / 100
}

/// Reply-code class of a server response.
pub fn severity(code: u16) -> (r: u16)
    ensures
        r == spec_severity(code),
{
    code / 100
}

} // verus!
