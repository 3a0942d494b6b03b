//! Next-hop planning: relay configuration, MX records, and the bounded
//! ordered list of remote hosts a domain is delivered to.

use vstd::prelude::*;

use rand::seq::SliceRandom;

verus! {

/// An IP address as plain data: an IPv4 address in the low 32 bits, or a
/// full IPv6 address.
#[derive(Debug, Clone, Copy, PartialEq, Eq, Structural)]
pub struct IpAddress {
    pub is_v4: bool,
    pub value: u128,
}

/// Protocol a relay speaks.
#[derive(Debug, Clone, Copy, PartialEq, Eq, Structural)]
pub enum ServerProtocol {
    Smtp,
    Lmtp,
    Http,
}

/// Credentials for an authenticated relay.
#[derive(Debug, Clone, PartialEq, Eq)]
pub struct Credentials {
    pub username: Vec<u8>,
    pub secret: Vec<u8>,
}

/// A configured relay host, which overrides MX resolution.
#[derive(Debug, Clone, PartialEq, Eq)]
pub struct RelayConfig {
    pub address: Vec<u8>,
    pub port: u16,
    pub protocol: ServerProtocol,
    pub implicit_tls: bool,
    pub allow_invalid_certs: bool,
    pub credentials: Option<Credentials>,
}

/// One remote host a session may be opened to.
#[derive(Debug, Clone, PartialEq, Eq)]
pub enum NextHop {
    Relay(RelayConfig),
    Mx(Vec<u8>),
}

/// The name a next hop is addressed by.
pub open spec fn nexthop_name(h: NextHop) -> Vec<u8> {
    match h {
        NextHop::Relay(c) => c.address,
        NextHop::Mx(name) => name,
    }
}

impl NextHop {
    /// The hostname this hop is addressed by.
    pub fn hostname(&self) -> (r: &Vec<u8>)
        ensures
            *r == nexthop_name(*self),
    {
        match self {
            NextHop::Relay(c) => &c.address,
            NextHop::Mx(name) => name,
        }
    }

    /// The port to connect to: a relay's own, or the SMTP port.
    pub fn port(&self) -> (r: u16)
        ensures
            r == match *self {
                NextHop::Relay(c) => c.port,
                NextHop::Mx(_) => 25u16,
            },
    {
        match self {
            NextHop::Relay(c) => c.port,
            NextHop::Mx(_) => 25,
        }
    }

    /// Whether TLS is negotiated before any banner.
    pub fn implicit_tls(&self) -> (r: bool)
        ensures
            r == match *self {
                NextHop::Relay(c) => c.implicit_tls,
                NextHop::Mx(_) => false,
            },
    {
        match self {
            NextHop::Relay(c) => c.implicit_tls,
            NextHop::Mx(_) => false,
        }
    }

    /// Whether certificate verification is waived for this hop.
    pub fn allow_invalid_certs(&self) -> (r: bool)
        ensures
            r == match *self {
                NextHop::Relay(c) => c.allow_invalid_certs,
                NextHop::Mx(_) => false,
            },
    {
        match self {
            NextHop::Relay(c) => c.allow_invalid_certs,
            NextHop::Mx(_) => false,
        }
    }

    /// Whether the hop speaks plain SMTP (not LMTP).
    pub fn is_smtp(&self) -> (r: bool)
        ensures
            r == match *self {
                NextHop::Relay(c) => c.protocol is Smtp,
                NextHop::Mx(_) => true,
            },
    {
        match self {
            NextHop::Relay(c) => matches!(c.protocol, ServerProtocol::Smtp),
            NextHop::Mx(_) => true,
        }
    }
}

/// The resolved addresses of one host, together with the configured
/// source addresses.
#[derive(Debug, Clone, PartialEq, Eq)]
pub struct ResolveResult {
    pub remote_ips: Vec<IpAddress>,
    pub source_ipv4: Option<IpAddress>,
    pub source_ipv6: Option<IpAddress>,
}

/// The source address a connection binds: the IPv4 source for an IPv4
/// remote, the IPv6 source for an IPv6 remote.
pub fn source_ip_for(
    remote: &IpAddress,
    source_ipv4: Option<IpAddress>,
    source_ipv6: Option<IpAddress>,
) -> (r: Option<IpAddress>)
    ensures
        r == if remote.is_v4 {
            source_ipv4
        } else {
            source_ipv6
        },
{
    if remote.is_v4 {
        source_ipv4
    } else {
        source_ipv6
    }
}

/// One MX record: its preference and the exchange names it lists.
#[derive(Debug, Clone, PartialEq, Eq)]
pub struct MxRecord {
    pub preference: u16,
    pub exchanges: Vec<Vec<u8>>,
}

/// The exchange names of one record, as byte sequences.
pub open spec fn exchange_views(r: MxRecord) -> Seq<Seq<u8>> {
    Seq::new(r.exchanges@.len(), |j: int| r.exchanges@[j]@)
}

/// The exchange names of the first `n` records, flattened in record order.
pub open spec fn flatten_upto(mx: Seq<MxRecord>, n: int) -> Seq<Seq<u8>>
    decreases n,
{
    if n <= 0 {
        Seq::empty()
    } else {
        flatten_upto(mx, n - 1) + exchange_views(mx[n - 1])
    }
}

/// All exchange names of the record set, in record order.
pub open spec fn all_exchanges(mx: Seq<MxRecord>) -> Seq<Seq<u8>> {
    flatten_upto(mx, mx.len() as int)
}

/// The record set is the null MX: one record whose single exchange is `.`,
/// meaning the domain accepts no mail.
pub open spec fn spec_is_null_mx(mx: Seq<MxRecord>) -> bool {
    mx.len() == 1 && mx[0].exchanges@.len() == 1 && mx[0].exchanges@[0]@ == seq![46u8]
}

/// The names of a host list, as byte sequences.
pub open spec fn hosts_names(hosts: Seq<NextHop>) -> Seq<Seq<u8>> {
    Seq::new(hosts.len(), |h: int| nexthop_name(hosts[h])@)
}

/// What `to_remote_hosts` promises of its result: `None` exactly for the
/// null MX; the implicit MX for an empty record set; otherwise a list of
/// exchange names, `max` at most, in record order when no record lists
/// more than one exchange.
pub open spec fn remote_hosts_post(
    r: Option<Vec<NextHop>>,
    mx: Seq<MxRecord>,
    domain: Seq<u8>,
    max: int,
) -> bool {
    &&& (r is None <==> spec_is_null_mx(mx))
    &&& (mx.len() == 0 ==> (r matches Some(hosts) && hosts@.len() == 1 && (hosts@[0]
        matches NextHop::Mx(name) && name@ == domain)))
    &&& (mx.len() > 0 && !spec_is_null_mx(mx) ==> (r matches Some(hosts) && {
        &&& hosts@.len() == if max <= all_exchanges(mx).len() {
            max
        } else {
            all_exchanges(mx).len() as int
        }
        &&& forall|h: int|
            0 <= h < hosts@.len() ==> ((#[trigger] hosts@[h]) matches NextHop::Mx(name)
                && all_exchanges(mx).contains(name@))
        &&& (forall|q: int| 0 <= q < mx.len() ==> (#[trigger] mx[q]).exchanges@.len() <= 1)
            ==> hosts_names(hosts@) == all_exchanges(mx).take(hosts@.len() as int)
    }))
}

proof fn lemma_flatten_mono(mx: Seq<MxRecord>, a: int, b: int)
    requires
        0 <= a <= b,
    ensures
        flatten_upto(mx, a).len() <= flatten_upto(mx, b).len(),
    decreases b - a,
{
    if a < b {
        lemma_flatten_mono(mx, a, b - 1);
    }
}

proof fn lemma_flatten_prefix(mx: Seq<MxRecord>, a: int, b: int)
    requires
        0 <= a <= b,
    ensures
        flatten_upto(mx, a) == flatten_upto(mx, b).take(flatten_upto(mx, a).len() as int),
    decreases b - a,
{
    if a == b {
        assert(flatten_upto(mx, a) =~= flatten_upto(mx, b).take(
            flatten_upto(mx, a).len() as int,
        ));
    } else {
        lemma_flatten_prefix(mx, a, b - 1);
        lemma_flatten_mono(mx, a, b - 1);
        assert(flatten_upto(mx, a) =~= flatten_upto(mx, b).take(
            flatten_upto(mx, a).len() as int,
        ));
    }
}

proof fn lemma_flatten_contains(mx: Seq<MxRecord>, n: int, i: int, x: Seq<u8>)
    requires
        0 <= i < n,
        exchange_views(mx[i]).contains(x),
    ensures
        flatten_upto(mx, n).contains(x),
    decreases n,
{
    if i == n - 1 {
        let j = choose|j: int|
            0 <= j < exchange_views(mx[i]).len() && (#[trigger] exchange_views(mx[i])[j]) == x;
        assert(flatten_upto(mx, n)[flatten_upto(mx, n - 1).len() + j] == x);
    } else {
        lemma_flatten_contains(mx, n - 1, i, x);
        let k = choose|k: int|
            0 <= k < flatten_upto(mx, n - 1).len() && (#[trigger] flatten_upto(mx, n - 1)[k]) == x;
        assert(flatten_upto(mx, n)[k] == x);
    }
}

/// Relies on rand's `SliceRandom::shuffle`: an in-place, uniformly random
/// permutation of the slice — the elements are kept, only reordered.
#[verifier::external_body]
fn shuffle_exchanges(v: &mut Vec<Vec<u8>>)
    ensures
        final(v)@.len() == old(v)@.len(),
        final(v)@.to_multiset() == old(v)@.to_multiset(),
        forall|j: int| 0 <= j < final(v)@.len() ==> old(v)@.contains(#[trigger] final(v)@[j]),
{
    v.as_mut_slice().shuffle(&mut rand::rng());
}

/// Clone a byte string.
pub fn clone_bytes(v: &Vec<u8>) -> (r: Vec<u8>)
    ensures
        r@ == v@,
{
    let r = v.clone();
    proof {
        assert(r@ =~= v@);
    }
    r
}

/// Clone a list of byte strings.
fn clone_exchange_list(v: &Vec<Vec<u8>>) -> (r: Vec<Vec<u8>>)
    ensures
        r@.len() == v@.len(),
        forall|k: int| 0 <= k < v@.len() ==> (#[trigger] r@[k])@ == v@[k]@,
{
    let n = v.len();
    let mut r: Vec<Vec<u8>> = Vec::new();
    let mut k: usize = 0;
    while k < n
        invariant
            k <= n,
            n == v@.len(),
            r@.len() == k,
            forall|t: int| 0 <= t < k ==> (#[trigger] r@[t])@ == v@[t]@,
        decreases n - k,
    {
        r.push(clone_bytes(&v[k]));
        k = k + 1;
    }
    r
}

/// Turn a resolved MX record set into the bounded, ordered list of remote
/// hosts to try.  An empty set falls back to the implicit MX (the domain
/// itself); the null MX yields `None`; otherwise the exchange names are
/// taken in record order — equal-preference exchanges within one record in
/// random order — up to `max` hosts.
#[verifier::loop_isolation(false)]
pub fn to_remote_hosts(mx_list: &Vec<MxRecord>, domain: &Vec<u8>, max: usize) -> (r: Option<
    Vec<NextHop>,
>)
    requires
        max >= 1,
    ensures
        remote_hosts_post(r, mx_list@, domain@, max as int),
{
    let n = mx_list.len();
    if n == 0 {
        let mut hosts: Vec<NextHop> = Vec::new();
        hosts.push(NextHop::Mx(clone_bytes(domain)));
        return Some(hosts);
    }
    if n == 1 && mx_list[0].exchanges.len() == 1 && mx_list[0].exchanges[0].len() == 1
        && mx_list[0].exchanges[0][0] == 46u8 {
        proof {
            assert(mx_list@[0].exchanges@[0]@ =~= seq![46u8]);
        }
        return None;
    }
    proof {
        if spec_is_null_mx(mx_list@) {
            assert(mx_list@[0].exchanges@[0]@.len() == 1);
            assert(mx_list@[0].exchanges@[0]@[0] == 46u8);
        }
    }
    let ghost single = forall|q: int|
        0 <= q < mx_list@.len() ==> (#[trigger] mx_list@[q]).exchanges@.len() <= 1;
    let mut hosts: Vec<NextHop> = Vec::new();
    let mut i: usize = 0;
    while i < n
        invariant
            i <= n,
            hosts@.len() < max,
            hosts@.len() == flatten_upto(mx_list@, i as int).len(),
            forall|h: int|
                0 <= h < hosts@.len() ==> ((#[trigger] hosts@[h]) matches NextHop::Mx(name)
                    && all_exchanges(mx_list@).contains(name@)),
            single ==> hosts_names(hosts@) == flatten_upto(mx_list@, i as int),
        decreases n - i,
    {
        let exl = mx_list[i].exchanges.len();
        if exl > 1 {
            let mut ex: Vec<Vec<u8>> = clone_exchange_list(&mx_list[i].exchanges);
            let ghost pre = ex@;
            shuffle_exchanges(&mut ex);
            let m = ex.len();
            let mut j: usize = 0;
            while j < m
                invariant
                    j <= m,
                    m == ex@.len(),
                    hosts@.len() < max,
                    hosts@.len() == flatten_upto(mx_list@, i as int).len() + j,
                    forall|h: int|
                        0 <= h < hosts@.len() ==> ((#[trigger] hosts@[h]) matches NextHop::Mx(name)
                            && all_exchanges(mx_list@).contains(name@)),
                    single ==> hosts_names(hosts@) == flatten_upto(mx_list@, i as int),
                decreases m - j,
            {
                let name = clone_bytes(&ex[j]);
                proof {
                    let k = choose|k: int| 0 <= k < pre.len() && pre[k] == ex@[j as int];
                    assert(exchange_views(mx_list@[i as int])[k] == name@);
                    lemma_flatten_contains(mx_list@, n as int, i as int, name@);
                    assert(!single) by {
                        assert(mx_list@[i as int].exchanges@.len() > 1);
                    }
                }
                hosts.push(NextHop::Mx(name));
                if hosts.len() == max {
                    proof {
                        lemma_flatten_mono(mx_list@, i + 1, n as int);
                        assert(flatten_upto(mx_list@, i + 1).len() == flatten_upto(
                            mx_list@,
                            i as int,
                        ).len() + m);
                        assert(hosts@.len() <= all_exchanges(mx_list@).len());
                    }
                    return Some(hosts);
                }
                j = j + 1;
            }
        } else if exl == 1 {
            let name = clone_bytes(&mx_list[i].exchanges[0]);
            proof {
                assert(exchange_views(mx_list@[i as int])[0] == name@);
                lemma_flatten_contains(mx_list@, n as int, i as int, name@);
            }
            hosts.push(NextHop::Mx(name));
            proof {
                assert(flatten_upto(mx_list@, i + 1) =~= flatten_upto(mx_list@, i as int)
                    + exchange_views(mx_list@[i as int]));
                if single {
                    assert(hosts_names(hosts@) =~= flatten_upto(mx_list@, i + 1));
                }
            }
            if hosts.len() == max {
                proof {
                    lemma_flatten_mono(mx_list@, i + 1, n as int);
                    if single {
                        lemma_flatten_prefix(mx_list@, i + 1, n as int);
                    }
                }
                return Some(hosts);
            }
        } else {
            proof {
                assert(flatten_upto(mx_list@, i + 1) =~= flatten_upto(mx_list@, i as int));
            }
        }
        proof {
            if exl > 1 {
                assert(flatten_upto(mx_list@, i + 1).len() == flatten_upto(
                    mx_list@,
                    i as int,
                ).len() + exl);
            }
        }
        i = i + 1;
    }
    proof {
        if single {
            assert(hosts_names(hosts@) =~= all_exchanges(mx_list@).take(hosts@.len() as int));
        }
    }
    Some(hosts)
}

} // verus!
