//! Transport-security policy: the per-domain TLS strategy, the MTA-STS
//! policy with its MX pattern check, and the DANE/TLSA record model.

use vstd::prelude::*;

verus! {

/// How hard a policy knob is turned: left off, tried when available, or
/// demanded.
#[derive(Debug, Clone, Copy, PartialEq, Eq, Structural)]
pub enum RequireOptional {
    Optional,
    Require,
    Disable,
}

/// The per-domain transport-security strategy: one knob each for MTA-STS,
/// DANE and STARTTLS.
#[derive(Debug, Clone, Copy, PartialEq, Eq, Structural)]
pub struct TlsStrategy {
    pub mta_sts: RequireOptional,
    pub dane: RequireOptional,
    pub tls: RequireOptional,
}

impl TlsStrategy {
    /// MTA-STS is looked up unless disabled.
    pub open spec fn spec_try_mta_sts(self) -> bool {
        !(self.mta_sts is Disable)
    }

    /// MTA-STS is demanded.
    pub open spec fn spec_is_mta_sts_required(self) -> bool {
        self.mta_sts is Require
    }

    /// DANE is looked up unless disabled.
    pub open spec fn spec_try_dane(self) -> bool {
        !(self.dane is Disable)
    }

    /// DANE is demanded.
    pub open spec fn spec_is_dane_required(self) -> bool {
        self.dane is Require
    }

    /// STARTTLS is attempted unless disabled.
    pub open spec fn spec_try_start_tls(self) -> bool {
        !(self.tls is Disable)
    }

    /// TLS is demanded by configuration.
    pub open spec fn spec_is_tls_required(self) -> bool {
        self.tls is Require
    }

    pub fn try_mta_sts(&self) -> (r: bool)
        ensures
            r == self.spec_try_mta_sts(),
    {
        !matches!(self.mta_sts, RequireOptional::Disable)
    }

    pub fn is_mta_sts_required(&self) -> (r: bool)
        ensures
            r == self.spec_is_mta_sts_required(),
    {
        matches!(self.mta_sts, RequireOptional::Require)
    }

    pub fn try_dane(&self) -> (r: bool)
        ensures
            r == self.spec_try_dane(),
    {
        !matches!(self.dane, RequireOptional::Disable)
    }

    pub fn is_dane_required(&self) -> (r: bool)
        ensures
            r == self.spec_is_dane_required(),
    {
        matches!(self.dane, RequireOptional::Require)
    }

    pub fn try_start_tls(&self) -> (r: bool)
        ensures
            r == self.spec_try_start_tls(),
    {
        !matches!(self.tls, RequireOptional::Disable)
    }

    pub fn is_tls_required(&self) -> (r: bool)
        ensures
            r == self.spec_is_tls_required(),
    {
        matches!(self.tls, RequireOptional::Require)
    }
}

/// How often aggregate TLS reports are sent, if at all.
#[derive(Debug, Clone, Copy, PartialEq, Eq, Structural)]
pub enum AggregateFrequency {
    Hourly,
    Daily,
    Weekly,
    Never,
}

/// Published MTA-STS mode.  `Off` stands for the published mode `none`,
/// which asserts nothing.
#[derive(Debug, Clone, Copy, PartialEq, Eq, Structural)]
pub enum MtaStsMode {
    Enforce,
    Testing,
    Off,
}

/// A fetched MTA-STS policy: its mode, lifetime, and the MX patterns it
/// authorizes.  Patterns and hosts are ASCII-lowered byte strings.
#[derive(Debug, Clone, PartialEq, Eq)]
pub struct MtaStsPolicy {
    pub mode: MtaStsMode,
    pub max_age: u64,
    pub mx: Vec<Vec<u8>>,
}

/// The tails of `a` from `ai` and of `b` from `bi` are the same bytes.
pub open spec fn seq_eq_from(a: Seq<u8>, ai: int, b: Seq<u8>, bi: int) -> bool {
    &&& a.len() - ai == b.len() - bi
    &&& forall|t: int| 0 <= t < a.len() - ai ==> #[trigger] a[ai + t] == b[bi + t]
}

/// Whether `host` matches one MTA-STS policy pattern: either exactly, or,
/// for a `*.` wildcard, with exactly one extra leading label before the
/// first dot.
pub open spec fn mx_pattern_matches(pattern: Seq<u8>, host: Seq<u8>) -> bool {
    if pattern.len() >= 2 && pattern[0] == 42u8 && pattern[1] == 46u8 {
        exists|k: int|
            0 <= k < host.len() && (#[trigger] host[k]) == 46u8 && (forall|t: int|
                0 <= t < k ==> host[t] != 46u8) && seq_eq_from(host, k + 1, pattern, 2)
    } else {
        seq_eq_from(host, 0, pattern, 0)
    }
}

/// Whether some pattern of the policy authorizes `host`.
pub open spec fn spec_policy_authorizes(policy: MtaStsPolicy, host: Seq<u8>) -> bool {
    exists|p: int|
        0 <= p < policy.mx@.len() && mx_pattern_matches((#[trigger] policy.mx@[p])@, host)
}

/// Byte-wise comparison of the tails of `a` from `ai` and of `b` from `bi`.
fn tail_eq(a: &Vec<u8>, ai: usize, b: &Vec<u8>, bi: usize) -> (r: bool)
    requires
        ai <= a@.len(),
        bi <= b@.len(),
    ensures
        r == seq_eq_from(a@, ai as int, b@, bi as int),
{
    let alen = a.len();
    let blen = b.len();
    if alen - ai != blen - bi {
        return false;
    }
    let m = alen - ai;
    let mut t: usize = 0;
    while t < m
        invariant
            t <= m,
            alen == a@.len(),
            blen == b@.len(),
            ai + m == alen,
            bi + m == blen,
            forall|u: int| 0 <= u < t ==> #[trigger] a@[ai + u] == b@[bi + u],
        decreases m - t,
    {
        if a[ai + t] != b[bi + t] {
            return false;
        }
        t = t + 1;
    }
    true
}

/// Whether `host` matches `pattern`.
fn pattern_matches(pattern: &Vec<u8>, host: &Vec<u8>) -> (r: bool)
    ensures
        r == mx_pattern_matches(pattern@, host@),
{
    let wild = pattern.len() >= 2 && pattern[0] == 42u8 && pattern[1] == 46u8;
    if wild {
        let hlen = host.len();
        let mut k: usize = 0;
        while k < hlen && host[k] != 46u8
            invariant
                k <= hlen,
                hlen == host@.len(),
                forall|t: int| 0 <= t < k ==> host@[t] != 46u8,
            decreases hlen - k,
        {
            k = k + 1;
        }
        if k < hlen {
            let r = tail_eq(host, k + 1, pattern, 2);
            proof {
                if r {
                    assert(0 <= k < host@.len() && host@[k as int] == 46u8 && (forall|t: int|
                        0 <= t < k ==> host@[t] != 46u8) && seq_eq_from(
                        host@,
                        k + 1,
                        pattern@,
                        2,
                    ));
                } else {
                    assert forall|kk: int|
                        0 <= kk < host@.len() && (#[trigger] host@[kk]) == 46u8 && (forall|t: int|
                            0 <= t < kk ==> host@[t] != 46u8) implies !seq_eq_from(
                        host@,
                        kk + 1,
                        pattern@,
                        2,
                    ) by {
                        assert(kk == k);
                    }
                }
            }
            r
        } else {
            false
        }
    } else {
        tail_eq(host, 0, pattern, 0)
    }
}

impl MtaStsPolicy {
    /// The policy is in enforcing mode.
    pub open spec fn spec_enforce(self) -> bool {
        self.mode is Enforce
    }

    /// Whether the policy is enforcing.
    pub fn enforce(&self) -> (r: bool)
        ensures
            r == self.spec_enforce(),
    {
        matches!(self.mode, MtaStsMode::Enforce)
    }

    /// Whether `host` is authorized by one of the policy's MX patterns.
    pub fn verify(&self, host: &Vec<u8>) -> (r: bool)
        ensures
            r == spec_policy_authorizes(*self, host@),
    {
        let n = self.mx.len();
        let mut p: usize = 0;
        while p < n
            invariant
                p <= n,
                n == self.mx@.len(),
                forall|q: int| 0 <= q < p ==> !mx_pattern_matches((#[trigger] self.mx@[q])@, host@),
            decreases n - p,
        {
            if pattern_matches(&self.mx[p], host) {
                return true;
            }
            p = p + 1;
        }
        false
    }
}

/// One DANE TLSA association: usage, selector, matching type and data.
#[derive(Debug, Clone, PartialEq, Eq)]
pub struct TlsaEntry {
    /// Usage is end-entity (DANE-EE) rather than trust-anchor.
    pub is_end_entity: bool,
    /// Matching type is SHA-256 rather than SHA-512.
    pub is_sha256: bool,
    /// Selector is the public key rather than the full certificate.
    pub is_spki: bool,
    pub data: Vec<u8>,
}

/// A DNSSEC-validated TLSA record set.
#[derive(Debug, Clone, PartialEq, Eq)]
pub struct Tlsa {
    pub entries: Vec<TlsaEntry>,
    pub has_end_entities: bool,
    pub has_intermediates: bool,
}

/// How a DNS lookup failed.
#[derive(Debug, Clone, PartialEq, Eq)]
pub enum LookupError {
    /// The record does not exist.
    NotFound,
    /// The resolver could not answer, with its own text.
    Transient(Vec<u8>),
}

} // verus!
