//! The MTA-STS policy text: the key/value format served at the domain's
//! well-known HTTPS location, and its parser.
//!
//! A policy text is a sequence of lines, each `key: value`.  The fields
//! `version` (which must read `STSv1`), `mode` and `max_age` are required;
//! `mx` may repeat, one authorized pattern per line; unknown fields are
//! ignored, as are lines without a colon.  Spaces and tabs around keys and
//! values carry no meaning, and lines may end in CRLF or bare LF.

use vstd::prelude::*;

use crate::policy::{MtaStsMode, MtaStsPolicy};

verus! {

/// Bytes ignored around keys and values: space, tab, and the carriage
/// return of a CRLF line ending.
pub open spec fn is_blank(b: u8) -> bool {
    b == 32 || b == 9 || b == 13
}

/// The first index at or after `lo` (bounded by `hi`) holding a byte that
/// is not blank.
pub open spec fn trim_lo(s: Seq<u8>, lo: int, hi: int) -> int
    decreases hi - lo,
{
    if lo >= hi || !is_blank(s[lo]) {
        lo
    } else {
        trim_lo(s, lo + 1, hi)
    }
}

/// The bound just after the last non-blank byte of the window `[lo, hi)`.
pub open spec fn trim_hi(s: Seq<u8>, lo: int, hi: int) -> int
    decreases hi - lo,
{
    if hi <= lo || !is_blank(s[hi - 1]) {
        hi
    } else {
        trim_hi(s, lo, hi - 1)
    }
}

/// The first colon at or after `k`, or the line's length.
pub open spec fn first_colon(s: Seq<u8>, k: int) -> int
    decreases s.len() - k,
{
    if k < 0 || k >= s.len() {
        s.len() as int
    } else if s[k] == 58 {
        k
    } else {
        first_colon(s, k + 1)
    }
}

/// The window `[lo, hi)` of `s` holds exactly the bytes of `w`.
pub open spec fn window_is(s: Seq<u8>, lo: int, hi: int, w: Seq<u8>) -> bool {
    hi - lo == w.len() && forall|t: int| 0 <= t < w.len() ==> s[lo + t] == #[trigger] w[t]
}

/// Every byte of the window is a decimal digit.
pub open spec fn all_digits(s: Seq<u8>, lo: int, hi: int) -> bool {
    forall|t: int| lo <= t < hi ==> 48 <= #[trigger] s[t] <= 57
}

/// The decimal value of the digit window `[lo, hi)`.
pub open spec fn digits_val(s: Seq<u8>, lo: int, hi: int) -> int
    decreases hi - lo,
{
    if hi <= lo {
        0
    } else {
        digits_val(s, lo, hi - 1) * 10 + (s[hi - 1] - 48)
    }
}

/// The bytes of `version`.
pub open spec fn kw_version() -> Seq<u8> {
    seq![118u8, 101u8, 114u8, 115u8, 105u8, 111u8, 110u8]
}

/// The bytes of `STSv1`.
pub open spec fn kw_stsv1() -> Seq<u8> {
    seq![83u8, 84u8, 83u8, 118u8, 49u8]
}

/// The bytes of `mode`.
pub open spec fn kw_mode() -> Seq<u8> {
    seq![109u8, 111u8, 100u8, 101u8]
}

/// The bytes of `enforce`.
pub open spec fn kw_enforce() -> Seq<u8> {
    seq![101u8, 110u8, 102u8, 111u8, 114u8, 99u8, 101u8]
}

/// The bytes of `testing`.
pub open spec fn kw_testing() -> Seq<u8> {
    seq![116u8, 101u8, 115u8, 116u8, 105u8, 110u8, 103u8]
}

/// The bytes of `none`.
pub open spec fn kw_none() -> Seq<u8> {
    seq![110u8, 111u8, 110u8, 101u8]
}

/// The bytes of `max_age`.
pub open spec fn kw_max_age() -> Seq<u8> {
    seq![109u8, 97u8, 120u8, 95u8, 97u8, 103u8, 101u8]
}

/// The bytes of `mx`.
pub open spec fn kw_mx() -> Seq<u8> {
    seq![109u8, 120u8]
}

/// The parser's abstract state: what the lines read so far established.
pub struct PolicyImage {
    /// A `version` field read `STSv1`.
    pub version_ok: bool,
    /// The last `mode` field.
    pub mode: Option<MtaStsMode>,
    /// The last `max_age` field.
    pub max_age: Option<u64>,
    /// The `mx` patterns, in order of appearance.
    pub mx: Seq<Seq<u8>>,
    /// Some field was malformed.
    pub bad: bool,
}

pub open spec fn init_image() -> PolicyImage {
    PolicyImage { version_ok: false, mode: None, max_age: None, mx: Seq::empty(), bad: false }
}

/// What one line does to the state.
pub open spec fn apply_line(line: Seq<u8>, st: PolicyImage) -> PolicyImage {
    let c = first_colon(line, 0);
    if c >= line.len() {
        st
    } else {
        let klo = trim_lo(line, 0, c);
        let khi = trim_hi(line, klo, c);
        let vlo = trim_lo(line, c + 1, line.len() as int);
        let vhi = trim_hi(line, vlo, line.len() as int);
        if window_is(line, klo, khi, kw_version()) {
            if window_is(line, vlo, vhi, kw_stsv1()) {
                PolicyImage { version_ok: true, ..st }
            } else {
                PolicyImage { bad: true, ..st }
            }
        } else if window_is(line, klo, khi, kw_mode()) {
            if window_is(line, vlo, vhi, kw_enforce()) {
                PolicyImage { mode: Some(MtaStsMode::Enforce), ..st }
            } else if window_is(line, vlo, vhi, kw_testing()) {
                PolicyImage { mode: Some(MtaStsMode::Testing), ..st }
            } else if window_is(line, vlo, vhi, kw_none()) {
                PolicyImage { mode: Some(MtaStsMode::Off), ..st }
            } else {
                PolicyImage { bad: true, ..st }
            }
        } else if window_is(line, klo, khi, kw_max_age()) {
            if vlo < vhi && vhi - vlo <= 10 && all_digits(line, vlo, vhi) {
                PolicyImage { max_age: Some(digits_val(line, vlo, vhi) as u64), ..st }
            } else {
                PolicyImage { bad: true, ..st }
            }
        } else if window_is(line, klo, khi, kw_mx()) {
            if vlo < vhi {
                PolicyImage { mx: st.mx.push(line.subrange(vlo, vhi)), ..st }
            } else {
                PolicyImage { bad: true, ..st }
            }
        } else {
            st
        }
    }
}

/// The state after reading the text from position `i` on, with `line`
/// holding the bytes of the line read so far.
pub open spec fn parse_chars(s: Seq<u8>, i: int, line: Seq<u8>, st: PolicyImage) -> PolicyImage
    decreases s.len() - i,
{
    if i < 0 || i >= s.len() {
        apply_line(line, st)
    } else if s[i] == 10 {
        parse_chars(s, i + 1, Seq::empty(), apply_line(line, st))
    } else {
        parse_chars(s, i + 1, line.push(s[i]), st)
    }
}

/// What the whole text establishes.
pub open spec fn spec_policy_image(s: Seq<u8>) -> PolicyImage {
    parse_chars(s, 0, Seq::empty(), init_image())
}

/// A text is a policy when no field was malformed and the three required
/// fields are present.
pub open spec fn image_valid(st: PolicyImage) -> bool {
    !st.bad && st.version_ok && st.mode is Some && st.max_age is Some
}

/// The patterns of a policy, as byte sequences.
pub open spec fn mx_views(v: Vec<Vec<u8>>) -> Seq<Seq<u8>> {
    Seq::new(v@.len(), |i: int| v@[i]@)
}

struct ParseState {
    version_ok: bool,
    mode: Option<MtaStsMode>,
    max_age: Option<u64>,
    mx: Vec<Vec<u8>>,
    bad: bool,
}

spec fn image_of(st: ParseState) -> PolicyImage {
    PolicyImage {
        version_ok: st.version_ok,
        mode: st.mode,
        max_age: st.max_age,
        mx: mx_views(st.mx),
        bad: st.bad,
    }
}

fn blank(b: u8) -> (r: bool)
    ensures
        r == is_blank(b),
{
    b == 32 || b == 9 || b == 13
}

fn find_colon(line: &Vec<u8>) -> (c: usize)
    ensures
        c == first_colon(line@, 0),
        c <= line@.len(),
{
    let n = line.len();
    let mut k: usize = 0;
    while k < n && line[k] != 58
        invariant
            k <= n,
            n == line@.len(),
            first_colon(line@, 0) == first_colon(line@, k as int),
        decreases n - k,
    {
        k = k + 1;
    }
    k
}

fn trim_lo_exec(line: &Vec<u8>, lo: usize, hi: usize) -> (r: usize)
    requires
        lo <= hi <= line@.len(),
    ensures
        r == trim_lo(line@, lo as int, hi as int),
        lo <= r <= hi,
{
    let mut k = lo;
    while k < hi && blank(line[k])
        invariant
            lo <= k <= hi,
            hi <= line@.len(),
            trim_lo(line@, lo as int, hi as int) == trim_lo(line@, k as int, hi as int),
        decreases hi - k,
    {
        k = k + 1;
    }
    k
}

fn trim_hi_exec(line: &Vec<u8>, lo: usize, hi: usize) -> (r: usize)
    requires
        lo <= hi <= line@.len(),
    ensures
        r == trim_hi(line@, lo as int, hi as int),
        lo <= r <= hi,
{
    let mut k = hi;
    while k > lo && blank(line[k - 1])
        invariant
            lo <= k <= hi,
            hi <= line@.len(),
            trim_hi(line@, lo as int, hi as int) == trim_hi(line@, lo as int, k as int),
        decreases k,
    {
        k = k - 1;
    }
    k
}

fn window_matches(line: &Vec<u8>, lo: usize, hi: usize, w: &Vec<u8>) -> (r: bool)
    requires
        lo <= hi <= line@.len(),
    ensures
        r == window_is(line@, lo as int, hi as int, w@),
{
    let m = w.len();
    if hi - lo != m {
        return false;
    }
    let mut t: usize = 0;
    while t < m
        invariant
            t <= m,
            m == w@.len(),
            lo + m == hi,
            hi <= line@.len(),
            forall|u: int| 0 <= u < t ==> line@[lo + u] == #[trigger] w@[u],
        decreases m - t,
    {
        if line[lo + t] != w[t] {
            return false;
        }
        t = t + 1;
    }
    true
}

fn copy_window(line: &Vec<u8>, lo: usize, hi: usize) -> (r: Vec<u8>)
    requires
        lo <= hi <= line@.len(),
    ensures
        r@ == line@.subrange(lo as int, hi as int),
{
    let mut r: Vec<u8> = Vec::new();
    let mut t: usize = 0;
    while t < hi - lo
        invariant
            lo <= hi <= line@.len(),
            t <= hi - lo,
            r@.len() == t,
            forall|u: int| 0 <= u < t ==> r@[u] == line@[lo + u],
        decreases hi - lo - t,
    {
        r.push(line[lo + t]);
        t = t + 1;
    }
    proof {
        assert(r@ =~= line@.subrange(lo as int, hi as int));
    }
    r
}

fn all_digits_exec(line: &Vec<u8>, lo: usize, hi: usize) -> (r: bool)
    requires
        lo <= hi <= line@.len(),
    ensures
        r == all_digits(line@, lo as int, hi as int),
{
    let mut t = lo;
    while t < hi
        invariant
            lo <= t <= hi,
            hi <= line@.len(),
            forall|u: int| lo <= u < t ==> 48 <= #[trigger] line@[u] <= 57,
        decreases hi - t,
    {
        if line[t] < 48 || line[t] > 57 {
            return false;
        }
        t = t + 1;
    }
    true
}

spec fn pow10(n: nat) -> int
    decreases n,
{
    if n == 0 {
        1
    } else {
        10 * pow10((n - 1) as nat)
    }
}

proof fn lemma_digits_bound(s: Seq<u8>, lo: int, hi: int)
    requires
        lo <= hi,
        all_digits(s, lo, hi),
    ensures
        0 <= digits_val(s, lo, hi) < pow10((hi - lo) as nat),
    decreases hi - lo,
{
    if lo < hi {
        lemma_digits_bound(s, lo, hi - 1);
    }
}

fn parse_digits(line: &Vec<u8>, lo: usize, hi: usize) -> (v: u64)
    requires
        lo < hi <= line@.len(),
        hi - lo <= 10,
        all_digits(line@, lo as int, hi as int),
    ensures
        v == digits_val(line@, lo as int, hi as int),
{
    let mut v: u64 = 0;
    let mut t = lo;
    while t < hi
        invariant
            lo <= t <= hi,
            hi <= line@.len(),
            hi - lo <= 10,
            all_digits(line@, lo as int, hi as int),
            v == digits_val(line@, lo as int, t as int),
            v < pow10((t - lo) as nat),
        decreases hi - t,
    {
        proof {
            lemma_digits_bound(line@, lo as int, t + 1);
            assert(pow10(((t + 1 - lo)) as nat) <= pow10(10)) by {
                lemma_pow10_mono(((t + 1 - lo)) as nat, 10);
            }
            lemma_pow10_ten();
        }
        v = v * 10 + ((line[t] - 48) as u64);
        t = t + 1;
    }
    v
}

proof fn lemma_pow10_ten()
    ensures
        pow10(10) == 10_000_000_000,
{
    assert(pow10(0) == 1);
    assert(pow10(1) == 10);
    assert(pow10(2) == 100);
    assert(pow10(3) == 1_000);
    assert(pow10(4) == 10_000);
    assert(pow10(5) == 100_000);
    assert(pow10(6) == 1_000_000);
    assert(pow10(7) == 10_000_000);
    assert(pow10(8) == 100_000_000);
    assert(pow10(9) == 1_000_000_000);
}

proof fn lemma_pow10_mono(a: nat, b: nat)
    requires
        a <= b,
    ensures
        pow10(a) <= pow10(b),
    decreases b,
{
    if a < b {
        lemma_pow10_mono(a, (b - 1) as nat);
        assert(pow10(b) == 10 * pow10((b - 1) as nat));
        assert(pow10((b - 1) as nat) >= 1) by {
            lemma_pow10_pos((b - 1) as nat);
        }
    }
}

proof fn lemma_pow10_pos(n: nat)
    ensures
        pow10(n) >= 1,
    decreases n,
{
    if n > 0 {
        lemma_pow10_pos((n - 1) as nat);
    }
}

fn apply_line_exec(line: &Vec<u8>, st: &mut ParseState)
    ensures
        image_of(*final(st)) == apply_line(line@, image_of(*old(st))),
{
    let n = line.len();
    let c = find_colon(line);
    if c >= n {
        return ;
    }
    let klo = trim_lo_exec(line, 0, c);
    let khi = trim_hi_exec(line, klo, c);
    let vlo = trim_lo_exec(line, c + 1, n);
    let vhi = trim_hi_exec(line, vlo, n);
    let version: Vec<u8> = vec![118u8, 101u8, 114u8, 115u8, 105u8, 111u8, 110u8];
    let stsv1: Vec<u8> = vec![83u8, 84u8, 83u8, 118u8, 49u8];
    let mode: Vec<u8> = vec![109u8, 111u8, 100u8, 101u8];
    let enforce: Vec<u8> = vec![101u8, 110u8, 102u8, 111u8, 114u8, 99u8, 101u8];
    let testing: Vec<u8> = vec![116u8, 101u8, 115u8, 116u8, 105u8, 110u8, 103u8];
    let off: Vec<u8> = vec![110u8, 111u8, 110u8, 101u8];
    let max_age: Vec<u8> = vec![109u8, 97u8, 120u8, 95u8, 97u8, 103u8, 101u8];
    let mx: Vec<u8> = vec![109u8, 120u8];
    proof {
        assert(version@ =~= kw_version());
        assert(stsv1@ =~= kw_stsv1());
        assert(mode@ =~= kw_mode());
        assert(enforce@ =~= kw_enforce());
        assert(testing@ =~= kw_testing());
        assert(off@ =~= kw_none());
        assert(max_age@ =~= kw_max_age());
        assert(mx@ =~= kw_mx());
    }
    if window_matches(line, klo, khi, &version) {
        if window_matches(line, vlo, vhi, &stsv1) {
            st.version_ok = true;
        } else {
            st.bad = true;
        }
    } else if window_matches(line, klo, khi, &mode) {
        if window_matches(line, vlo, vhi, &enforce) {
            st.mode = Some(MtaStsMode::Enforce);
        } else if window_matches(line, vlo, vhi, &testing) {
            st.mode = Some(MtaStsMode::Testing);
        } else if window_matches(line, vlo, vhi, &off) {
            st.mode = Some(MtaStsMode::Off);
        } else {
            st.bad = true;
        }
    } else if window_matches(line, klo, khi, &max_age) {
        if vlo < vhi && vhi - vlo <= 10 && all_digits_exec(line, vlo, vhi) {
            st.max_age = Some(parse_digits(line, vlo, vhi));
        } else {
            st.bad = true;
        }
    } else if window_matches(line, klo, khi, &mx) {
        if vlo < vhi {
            let pattern = copy_window(line, vlo, vhi);
            let ghost pre_mx = mx_views(st.mx);
            st.mx.push(pattern);
            proof {
                assert(mx_views(st.mx) =~= pre_mx.push(line@.subrange(vlo as int, vhi as int)));
            }
        } else {
            st.bad = true;
        }
    }
}

/// Parse a fetched policy text.  The result is the policy it publishes, or
/// nothing where a field is malformed or a required field is missing.
#[verifier::loop_isolation(false)]
pub fn parse_policy(s: &Vec<u8>) -> (r: Option<MtaStsPolicy>)
    ensures
        (r is Some) == image_valid(spec_policy_image(s@)),
        r matches Some(p) ==> {
            let img = spec_policy_image(s@);
            &&& img.mode == Some(p.mode)
            &&& img.max_age == Some(p.max_age)
            &&& mx_views(p.mx) == img.mx
        },
{
    let n = s.len();
    let mut st = ParseState {
        version_ok: false,
        mode: None,
        max_age: None,
        mx: Vec::new(),
        bad: false,
    };
    let mut line: Vec<u8> = Vec::new();
    proof {
        assert(mx_views(st.mx) =~= Seq::<Seq<u8>>::empty());
        assert(image_of(st) == init_image());
        assert(line@ =~= Seq::<u8>::empty());
    }
    let mut i: usize = 0;
    while i < n
        invariant
            i <= n,
            parse_chars(s@, i as int, line@, image_of(st)) == spec_policy_image(s@),
        decreases n - i,
    {
        let b = s[i];
        if b == 10u8 {
            apply_line_exec(&line, &mut st);
            line = Vec::new();
            proof {
                assert(line@ =~= Seq::<u8>::empty());
            }
        } else {
            line.push(b);
        }
        i = i + 1;
    }
    apply_line_exec(&line, &mut st);
    if !st.bad && st.version_ok {
        let max_age = match st.max_age {
            Some(v) => v,
            None => {
                return None;
            },
        };
        match st.mode {
            Some(mode) => Some(MtaStsPolicy { mode, max_age, mx: st.mx }),
            None => None,
        }
    } else {
        None
    }
}

} // verus!
