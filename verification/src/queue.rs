//! The durable queue records: a message, its per-domain delivery state and
//! per-recipient status, retry and expiry arithmetic, and the expiry sweep
//! that hardens overdue domains into permanent failures.

use vstd::prelude::*;

use crate::status::{Error, HostResponse, Status};

verus! {

/// Retry state of a domain: when the next try is due and how many tries
/// have been made.
#[derive(Debug, Clone, Copy, PartialEq, Eq)]
pub struct Schedule {
    pub due: u64,
    pub inner: u32,
}

/// One recipient domain of a queued message.
#[derive(Debug, Clone, PartialEq, Eq)]
pub struct Domain {
    /// ASCII-lowered domain name.
    pub domain: Vec<u8>,
    pub status: Status<(), Error>,
    /// Next delivery attempt.
    pub retry: Schedule,
    /// Next delay notification.
    pub notify: Schedule,
    /// Cutoff past which the domain is failed for good; fixed at enqueue.
    pub expires: u64,
}

/// One recipient of a queued message.
#[derive(Debug, Clone, PartialEq, Eq)]
pub struct Recipient {
    /// ASCII-lowered address.
    pub address_lcase: Vec<u8>,
    /// Index of this recipient's domain in `Message::domains`.
    pub domain_idx: u32,
    pub status: Status<HostResponse, HostResponse>,
    /// DSN notification flags.
    pub flags: u64,
    /// Original recipient, if the submission carried one.
    pub orcpt: Option<Vec<u8>>,
}

/// A queued message under delivery.  The body is stored out of band,
/// addressed by `queue_id`.
#[derive(Debug, Clone, PartialEq, Eq)]
pub struct Message {
    pub queue_id: u64,
    /// Unix seconds at enqueue.
    pub created: u64,
    /// Trace id of the running attempt, minted anew on each lease.
    pub span_id: u64,
    /// Envelope sender; empty means the null sender.
    pub return_path: Vec<u8>,
    pub flags: u64,
    pub size: u64,
    pub domains: Vec<Domain>,
    pub recipients: Vec<Recipient>,
}

impl Message {
    /// Every recipient points at an existing domain.
    pub open spec fn wf(self) -> bool {
        forall|j: int|
            0 <= j < self.recipients@.len() ==> (#[trigger] self.recipients@[j]).domain_idx
                < self.domains@.len()
    }
}

/// The retry interval the schedule assigns to attempt number `inner`: the
/// schedule's last entry once `inner` runs past its end.
pub open spec fn retry_interval(inner: u32, schedule: Seq<u64>) -> u64 {
    if (inner as int) < schedule.len() - 1 {
        schedule[inner as int]
    } else {
        schedule[schedule.len() - 1]
    }
}

/// The domain after one `retry` against `schedule` at time `now`.
pub open spec fn spec_retry(d: Domain, schedule: Seq<u64>, now: u64) -> Domain {
    Domain {
        retry: Schedule {
            due: (now + retry_interval(d.retry.inner, schedule)) as u64,
            inner: (d.retry.inner + 1) as u32,
        },
        ..d
    }
}

/// The domain after `set_status`: the new status is recorded, and while it
/// is still worth retrying (scheduled or a temporary failure) the retry
/// counter advances and the next try is scheduled; a terminal status leaves
/// the retry state alone.
pub open spec fn spec_set_status(
    d: Domain,
    status: Status<(), Error>,
    schedule: Seq<u64>,
    now: u64,
) -> Domain {
    let set = Domain { status, ..d };
    if status.is_active() {
        spec_retry(set, schedule, now)
    } else {
        set
    }
}

impl Domain {
    /// Schedule the next try: `retry.due` becomes `now` plus the schedule
    /// entry for the current attempt count, and the count advances.
    pub fn retry(&mut self, schedule: &Vec<u64>, now: u64)
        requires
            schedule@.len() > 0,
            old(self).retry.inner < u32::MAX,
            now + retry_interval(old(self).retry.inner, schedule@) <= u64::MAX,
        ensures
            *final(self) == spec_retry(*old(self), schedule@, now),
    {
        let last = schedule.len() - 1;
        let idx = if (self.retry.inner as usize) < last {
            self.retry.inner as usize
        } else {
            last
        };
        self.retry.due = now + schedule[idx];
        self.retry.inner = self.retry.inner + 1;
    }

    /// Record the outcome of an attempt, advancing the retry state only
    /// while the domain stays worth retrying.
    pub fn set_status(&mut self, status: Status<(), Error>, schedule: &Vec<u64>, now: u64)
        requires
            schedule@.len() > 0,
            old(self).retry.inner < u32::MAX,
            now + retry_interval(old(self).retry.inner, schedule@) <= u64::MAX,
        ensures
            *final(self) == spec_set_status(*old(self), status, schedule@, now),
    {
        let again = !status.terminal();
        self.status = status;
        if again {
            self.retry(schedule, now);
        }
    }

    /// Record a rate-limiter denial: the next try is pushed to `retry_at`
    /// without counting the denial as an attempt.
    pub fn set_rate_limiter_error(&mut self, retry_at: u64)
        ensures
            final(self).status == Status::<(), Error>::TemporaryFailure(
                Error::RateLimited { retry_at },
            ),
            final(self).retry.due == retry_at,
            final(self).retry.inner == old(self).retry.inner,
            final(self).notify == old(self).notify,
            final(self).expires == old(self).expires,
            final(self).domain == old(self).domain,
    {
        self.retry.due = retry_at;
        self.status = Status::TemporaryFailure(Error::RateLimited { retry_at });
    }

    /// Due for a delivery attempt: still worth retrying and past its
    /// retry time.
    pub open spec fn is_ready(self, now: u64) -> bool {
        self.status.is_active() && self.retry.due <= now
    }

    /// Executable test for `is_ready`.
    pub fn ready(&self, now: u64) -> (r: bool)
        ensures
            r == self.is_ready(now),
    {
        !self.status.terminal() && self.retry.due <= now
    }
}

/// Whether the sweep hardens the recipients of this domain: it does when
/// the domain reached its cutoff while still worth retrying.
pub open spec fn sweep_hardens(d: Domain, now: u64) -> bool {
    d.expires <= now && d.status.is_active()
}

/// A recipient's status after the sweep of its domain.
pub open spec fn swept_rcpt_status(r: Recipient, d: Domain, now: u64) -> Status<
    HostResponse,
    HostResponse,
> {
    if sweep_hardens(d, now) {
        r.status.spec_into_permanent()
    } else {
        r.status
    }
}

/// A domain's status after the sweep: past the cutoff, a temporary failure
/// hardens and a scheduled domain fails with an expiry reason; terminal
/// statuses and domains still within their cutoff are kept.
pub open spec fn swept_domain_status(d: Domain, attempted: bool, now: u64) -> Status<(), Error> {
    if d.expires <= now {
        match d.status {
            Status::TemporaryFailure(e) => Status::PermanentFailure(e),
            Status::Scheduled => Status::PermanentFailure(Error::Expired { attempted }),
            other => other,
        }
    } else {
        d.status
    }
}

/// Some recipient with this domain index has been attempted: its status
/// moved off `Scheduled` at least once.
pub open spec fn had_attempts_in(rcpts: Seq<Recipient>, i: int) -> bool {
    exists|j: int|
        0 <= j < rcpts.len() && (#[trigger] rcpts[j]).domain_idx == i && !(rcpts[j].status
            is Scheduled)
}

/// Some recipient of domain `i` has been attempted.
pub open spec fn rcpt_had_attempts(m: Message, i: int) -> bool {
    had_attempts_in(m.recipients@, i)
}

/// Two recipient lists that agree on indices and on the statuses of domain
/// `i` agree on whether domain `i` was attempted.
proof fn lemma_had_attempts_agrees(a: Seq<Recipient>, b: Seq<Recipient>, i: int)
    requires
        a.len() == b.len(),
        forall|j: int|
            0 <= j < a.len() ==> (#[trigger] b[j]).domain_idx == a[j].domain_idx,
        forall|j: int|
            0 <= j < a.len() && (#[trigger] a[j]).domain_idx == i ==> b[j].status == a[j].status,
    ensures
        had_attempts_in(a, i) == had_attempts_in(b, i),
{
    if had_attempts_in(a, i) {
        let j = choose|j: int|
            0 <= j < a.len() && (#[trigger] a[j]).domain_idx == i && !(a[j].status is Scheduled);
        assert(0 <= j < b.len() && b[j].domain_idx == i && !(b[j].status is Scheduled));
    }
    if had_attempts_in(b, i) {
        let j = choose|j: int|
            0 <= j < b.len() && (#[trigger] b[j]).domain_idx == i && !(b[j].status is Scheduled);
        assert(0 <= j < a.len() && a[j].domain_idx == i && !(a[j].status is Scheduled));
    }
}

/// How the sweep rewrites one domain.
pub open spec fn domain_sweep_rel(pre: Domain, post: Domain, attempted: bool, now: u64) -> bool {
    &&& post.status == swept_domain_status(pre, attempted, now)
    &&& post.retry == pre.retry
    &&& post.notify == pre.notify
    &&& post.expires == pre.expires
    &&& post.domain == pre.domain
}

/// How the sweep rewrites one recipient, given its domain's state before
/// the sweep.
pub open spec fn rcpt_sweep_rel(pre: Recipient, post: Recipient, d: Domain, now: u64) -> bool {
    &&& post.status == swept_rcpt_status(pre, d, now)
    &&& post.address_lcase == pre.address_lcase
    &&& post.domain_idx == pre.domain_idx
    &&& post.flags == pre.flags
    &&& post.orcpt == pre.orcpt
}

/// A delivery is still pending: some domain is worth retrying and has not
/// reached its cutoff.
pub open spec fn spec_has_pending(m: Message, now: u64) -> bool {
    exists|i: int|
        0 <= i < m.domains@.len() && (#[trigger] m.domains@[i]).status.is_active()
            && m.domains@[i].expires > now
}

/// Whether any recipient of domain `domain_idx` has been attempted.
fn domain_had_attempts(recipients: &Vec<Recipient>, domain_idx: u32) -> (b: bool)
    ensures
        b == had_attempts_in(recipients@, domain_idx as int),
{
    let n = recipients.len();
    let mut j: usize = 0;
    let mut b = false;
    while j < n
        invariant
            j <= n,
            n == recipients@.len(),
            b == exists|k: int|
                0 <= k < j && (#[trigger] recipients@[k]).domain_idx == domain_idx && !(
                recipients@[k].status is Scheduled),
        decreases n - j,
    {
        if recipients[j].domain_idx == domain_idx && !matches!(
            &recipients[j].status,
            Status::Scheduled
        ) {
            b = true;
        }
        j = j + 1;
    }
    b
}

/// Harden every recipient of domain `domain_idx` in place.
fn harden_recipients(recipients: &mut Vec<Recipient>, domain_idx: u32)
    ensures
        final(recipients)@.len() == old(recipients)@.len(),
        forall|j: int|
            0 <= j < old(recipients)@.len() ==> {
                let pre = #[trigger] old(recipients)@[j];
                let post = final(recipients)@[j];
                &&& post.status == if pre.domain_idx == domain_idx {
                    pre.status.spec_into_permanent()
                } else {
                    pre.status
                }
                &&& post.address_lcase == pre.address_lcase
                &&& post.domain_idx == pre.domain_idx
                &&& post.flags == pre.flags
                &&& post.orcpt == pre.orcpt
            },
{
    let n = recipients.len();
    let mut j: usize = 0;
    while j < n
        invariant
            j <= n,
            n == recipients@.len(),
            recipients@.len() == old(recipients)@.len(),
            forall|k: int|
                0 <= k < n ==> {
                    let pre = #[trigger] old(recipients)@[k];
                    let post = recipients@[k];
                    &&& post.status == if k < j && pre.domain_idx == domain_idx {
                        pre.status.spec_into_permanent()
                    } else {
                        pre.status
                    }
                    &&& post.address_lcase == pre.address_lcase
                    &&& post.domain_idx == pre.domain_idx
                    &&& post.flags == pre.flags
                    &&& post.orcpt == pre.orcpt
                },
        decreases n - j,
    {
        if recipients[j].domain_idx == domain_idx {
            let r = &mut recipients[j];
            r.status.harden();
        }
        j = j + 1;
    }
}

/// Minimum retry time over the active domains among the first `n`, with
/// `u64::MAX` when none is active.
pub open spec fn min_retry_due_upto(domains: Seq<Domain>, n: int) -> u64
    decreases n,
{
    if n <= 0 {
        u64::MAX
    } else {
        let prev = min_retry_due_upto(domains, n - 1);
        let d = domains[n - 1];
        if d.status.is_active() && d.retry.due < prev {
            d.retry.due
        } else {
            prev
        }
    }
}

/// When the earliest delivery attempt is due.
pub open spec fn spec_next_delivery_event(m: Message) -> u64 {
    min_retry_due_upto(m.domains@, m.domains@.len() as int)
}

/// The earlier of a domain's retry and notification times.
pub open spec fn domain_event(d: Domain) -> u64 {
    if d.retry.due <= d.notify.due {
        d.retry.due
    } else {
        d.notify.due
    }
}

/// The smaller of two optional times, `None` meaning no time at all.
pub open spec fn opt_min(a: Option<u64>, b: Option<u64>) -> Option<u64> {
    match (a, b) {
        (Option::None, other) => other,
        (other, Option::None) => other,
        (Option::Some(x), Option::Some(y)) => Option::Some(
            if x <= y {
                x
            } else {
                y
            },
        ),
    }
}

/// The earliest retry-or-notify time over the active domains among the
/// first `n`; `None` when none is active.
pub open spec fn next_event_upto(domains: Seq<Domain>, n: int) -> Option<u64>
    decreases n,
{
    if n <= 0 {
        Option::None
    } else {
        let prev = next_event_upto(domains, n - 1);
        let d = domains[n - 1];
        if d.status.is_active() {
            opt_min(prev, Option::Some(domain_event(d)))
        } else {
            prev
        }
    }
}

/// The next queue event of the message, if any domain still asks for one.
pub open spec fn spec_next_event(m: Message) -> Option<u64> {
    next_event_upto(m.domains@, m.domains@.len() as int)
}

/// The earliest of a domain's retry and notification times that lies
/// strictly after `now`, if any.
pub open spec fn domain_event_after(d: Domain, now: u64) -> Option<u64> {
    if d.retry.due > now && (d.retry.due <= d.notify.due || d.notify.due <= now) {
        Option::Some(d.retry.due)
    } else if d.notify.due > now {
        Option::Some(d.notify.due)
    } else {
        Option::None
    }
}

/// The earliest event strictly after `now` over the active domains among
/// the first `n`.
pub open spec fn next_event_after_upto(domains: Seq<Domain>, n: int, now: u64) -> Option<u64>
    decreases n,
{
    if n <= 0 {
        Option::None
    } else {
        let prev = next_event_after_upto(domains, n - 1, now);
        let d = domains[n - 1];
        if d.status.is_active() {
            opt_min(prev, domain_event_after(d, now))
        } else {
            prev
        }
    }
}

/// The next queue event of the message strictly after `now`, if any.
pub open spec fn spec_next_event_after(m: Message, now: u64) -> Option<u64> {
    next_event_after_upto(m.domains@, m.domains@.len() as int, now)
}

impl Message {
    /// When the earliest delivery attempt among the still-active domains
    /// is due; `u64::MAX` when none is active.
    pub fn next_delivery_event(&self) -> (due: u64)
        ensures
            due == spec_next_delivery_event(*self),
    {
        let n = self.domains.len();
        let mut due = u64::MAX;
        let mut i: usize = 0;
        while i < n
            invariant
                i <= n,
                n == self.domains@.len(),
                due == min_retry_due_upto(self.domains@, i as int),
            decreases n - i,
        {
            if !self.domains[i].status.terminal() && self.domains[i].retry.due < due {
                due = self.domains[i].retry.due;
            }
            i = i + 1;
        }
        due
    }

    /// The next time the queue owes this message any work — a retry or a
    /// delay notification — or `None` when every domain is settled.
    pub fn next_event(&self) -> (r: Option<u64>)
        ensures
            r == spec_next_event(*self),
    {
        let n = self.domains.len();
        let mut acc: Option<u64> = None;
        let mut i: usize = 0;
        while i < n
            invariant
                i <= n,
                n == self.domains@.len(),
                acc == next_event_upto(self.domains@, i as int),
            decreases n - i,
        {
            if !self.domains[i].status.terminal() {
                let r = self.domains[i].retry.due;
                let y = self.domains[i].notify.due;
                let ev = if r <= y {
                    r
                } else {
                    y
                };
                acc = match acc {
                    None => Some(ev),
                    Some(p) => Some(
                        if ev <= p {
                            ev
                        } else {
                            p
                        },
                    ),
                };
            }
            i = i + 1;
        }
        acc
    }

    /// The next queue event strictly after `now`, or `None` when nothing
    /// later is owed.
    pub fn next_event_after(&self, now: u64) -> (r: Option<u64>)
        ensures
            r == spec_next_event_after(*self, now),
    {
        let n = self.domains.len();
        let mut acc: Option<u64> = None;
        let mut i: usize = 0;
        while i < n
            invariant
                i <= n,
                n == self.domains@.len(),
                acc == next_event_after_upto(self.domains@, i as int, now),
            decreases n - i,
        {
            if !self.domains[i].status.terminal() {
                let r = self.domains[i].retry.due;
                let y = self.domains[i].notify.due;
                let ev: Option<u64> = if r > now && (r <= y || y <= now) {
                    Some(r)
                } else if y > now {
                    Some(y)
                } else {
                    None
                };
                acc = match (acc, ev) {
                    (None, other) => other,
                    (other, None) => other,
                    (Some(x), Some(z)) => Some(
                        if x <= z {
                            x
                        } else {
                            z
                        },
                    ),
                };
            }
            i = i + 1;
        }
        acc
    }
}

/// Law: scheduling a retry advances the attempt counter by exactly one and
/// never places the next try before `now`; with a positive interval it
/// places it strictly after `now`.
pub proof fn lemma_retry_monotonic(d: Domain, schedule: Seq<u64>, now: u64)
    requires
        schedule.len() > 0,
        d.retry.inner < u32::MAX,
        now + retry_interval(d.retry.inner, schedule) <= u64::MAX,
    ensures
        spec_retry(d, schedule, now).retry.inner == d.retry.inner + 1,
        spec_retry(d, schedule, now).retry.due >= now,
        retry_interval(d.retry.inner, schedule) > 0 ==> spec_retry(d, schedule, now).retry.due
            > now,
{
}

/// Law: whatever outcome `set_status` records, the attempt counter never
/// decreases, and it advances only while the domain stays worth retrying.
pub proof fn lemma_set_status_inner_monotonic(
    d: Domain,
    status: Status<(), Error>,
    schedule: Seq<u64>,
    now: u64,
)
    requires
        schedule.len() > 0,
        d.retry.inner < u32::MAX,
        now + retry_interval(d.retry.inner, schedule) <= u64::MAX,
    ensures
        spec_set_status(d, status, schedule, now).retry.inner >= d.retry.inner,
        status.is_terminal() ==> spec_set_status(d, status, schedule, now).retry == d.retry,
{
}

/// Law: a message whose domains are all past their expiry cutoff has no
/// pending delivery, and the sweep leaves every such domain terminal, so
/// the attempt that runs the sweep removes the message.
pub proof fn lemma_all_expired_terminates(m: Message, now: u64)
    requires
        forall|i: int| 0 <= i < m.domains@.len() ==> (#[trigger] m.domains@[i]).expires <= now,
    ensures
        !spec_has_pending(m, now),
        forall|i: int, attempted: bool|
            0 <= i < m.domains@.len() ==> (#[trigger] swept_domain_status(
                m.domains@[i],
                attempted,
                now,
            )).is_terminal(),
{
}

/// Law: a settled domain — completed or failed for good — is never due
/// for another delivery attempt.
pub proof fn lemma_terminal_never_ready(d: Domain, now: u64)
    requires
        d.status.is_terminal(),
    ensures
        !d.is_ready(now),
{
}

/// Law: the queue owes the message an event exactly while some domain is
/// still worth retrying; once every domain settles, nothing is owed and
/// the message is removable.
pub proof fn lemma_next_event_iff_active(domains: Seq<Domain>, n: int)
    requires
        0 <= n <= domains.len(),
    ensures
        (next_event_upto(domains, n) is Some) <==> exists|i: int|
            0 <= i < n && (#[trigger] domains[i]).status.is_active(),
    decreases n,
{
    if n > 0 {
        lemma_next_event_iff_active(domains, n - 1);
        if domains[n - 1].status.is_active() {
            assert(next_event_upto(domains, n) is Some);
        } else {
            if next_event_upto(domains, n) is Some {
                let i = choose|i: int|
                    0 <= i < n - 1 && (#[trigger] domains[i]).status.is_active();
                assert(0 <= i < n && domains[i].status.is_active());
            }
        }
    }
}

/// Law: the expiry sweep never touches a recipient already completed: a
/// completed recipient keeps its status whatever its domain's state.
pub proof fn lemma_sweep_keeps_completed(r: Recipient, d: Domain, now: u64)
    requires
        r.status is Completed,
    ensures
        swept_rcpt_status(r, d, now) == r.status,
{
}

impl Message {
    /// The expiry sweep.  Every domain past its cutoff that is still worth
    /// retrying is failed for good — a temporary failure keeps its reason,
    /// a scheduled domain records whether it was ever attempted — and its
    /// recipients harden with it.  Returns whether any domain is still
    /// pending delivery.
    #[verifier::loop_isolation(false)]
    pub fn has_pending_delivery(&mut self, now: u64) -> (pending: bool)
        requires
            old(self).wf(),
            old(self).domains@.len() <= u32::MAX,
        ensures
            pending == spec_has_pending(*old(self), now),
            final(self).domains@.len() == old(self).domains@.len(),
            final(self).recipients@.len() == old(self).recipients@.len(),
            forall|i: int|
                0 <= i < old(self).domains@.len() ==> domain_sweep_rel(
                    old(self).domains@[i],
                    final(self).domains@[i],
                    rcpt_had_attempts(*old(self), i),
                    now,
                ),
            forall|j: int|
                0 <= j < old(self).recipients@.len() ==> rcpt_sweep_rel(
                    #[trigger] old(self).recipients@[j],
                    final(self).recipients@[j],
                    old(self).domains@[old(self).recipients@[j].domain_idx as int],
                    now,
                ),
            final(self).queue_id == old(self).queue_id,
            final(self).created == old(self).created,
            final(self).span_id == old(self).span_id,
            final(self).return_path == old(self).return_path,
            final(self).flags == old(self).flags,
            final(self).size == old(self).size,
            final(self).wf(),
    {
        let n = self.domains.len();
        let mut i: usize = 0;
        let mut pending = false;
        while i < n
            invariant
                i <= n,
                old(self).wf(),
                n == self.domains@.len(),
                self.domains@.len() == old(self).domains@.len(),
                self.recipients@.len() == old(self).recipients@.len(),
                forall|k: int|
                    i <= k < n ==> #[trigger] self.domains@[k] == old(self).domains@[k],
                forall|k: int|
                    0 <= k < i ==> domain_sweep_rel(
                        old(self).domains@[k],
                        #[trigger] self.domains@[k],
                        rcpt_had_attempts(*old(self), k),
                        now,
                    ),
                forall|j: int|
                    0 <= j < old(self).recipients@.len() ==> {
                        let pre = #[trigger] old(self).recipients@[j];
                        let post = self.recipients@[j];
                        let d = old(self).domains@[pre.domain_idx as int];
                        &&& post.status == if pre.domain_idx < i && sweep_hardens(d, now) {
                            pre.status.spec_into_permanent()
                        } else {
                            pre.status
                        }
                        &&& post.address_lcase == pre.address_lcase
                        &&& post.domain_idx == pre.domain_idx
                        &&& post.flags == pre.flags
                        &&& post.orcpt == pre.orcpt
                    },
                pending == exists|k: int|
                    0 <= k < i && (#[trigger] old(self).domains@[k]).status.is_active() && old(
                        self,
                    ).domains@[k].expires > now,
                self.queue_id == old(self).queue_id,
                self.created == old(self).created,
                self.span_id == old(self).span_id,
                self.return_path == old(self).return_path,
                self.flags == old(self).flags,
                self.size == old(self).size,
            decreases n - i,
        {
            let expired = self.domains[i].expires <= now;
            let active = !self.domains[i].status.terminal();
            if expired && active {
                let scheduled = matches!(&self.domains[i].status, Status::Scheduled);
                if scheduled {
                    let attempted = domain_had_attempts(&self.recipients, i as u32);
                    proof {
                        lemma_had_attempts_agrees(
                            old(self).recipients@,
                            self.recipients@,
                            i as int,
                        );
                    }
                    let d = &mut self.domains[i];
                    d.status = Status::PermanentFailure(Error::Expired { attempted });
                } else {
                    let d = &mut self.domains[i];
                    d.status.harden();
                }
                harden_recipients(&mut self.recipients, i as u32);
            } else if active {
                pending = true;
            }
            i = i + 1;
        }
        proof {
            assert forall|j: int| 0 <= j < self.recipients@.len() implies (
            #[trigger] self.recipients@[j]).domain_idx < self.domains@.len() by {
                assert(self.recipients@[j].domain_idx == old(self).recipients@[j].domain_idx);
            }
        }
        pending
    }
}

} // verus!
