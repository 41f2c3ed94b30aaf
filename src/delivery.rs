use crate::store::{DeliveryTask, Store};
use vstd::prelude::*;

verus! {

/// A task handed to a worker: what it needs to make the send.
pub struct ClaimedTask {
    pub issue_id: usize,
    pub subscriber_email: String,
    pub retry_count: u32,
}

/// What the email transport reported for one send.
#[derive(PartialEq, Eq, Structural, Clone, Copy, Debug)]
pub enum DeliveryOutcome {
    /// The transport accepted the email.
    Delivered,
    /// Network trouble, a timeout or a temporary rejection: try again later.
    TransientFailure,
    /// The recipient address itself was rejected: never try again.
    PermanentFailure,
}

/// How long a claim keeps other workers off a task, in seconds. A worker
/// that neither completes nor gives up a task within it is taken for dead.
pub const CLAIM_VISIBILITY: u64 = 600;

/// A task whose time has come and that no live claim holds.
pub open spec fn is_eligible(t: DeliveryTask, now: u64) -> bool {
    if t.in_flight {
        t.claimed_until <= now
    } else {
        t.next_attempt_not_before <= now
    }
}

/// The task a claim refers to, while a worker holds it.
pub open spec fn is_claimed_as(t: DeliveryTask, issue_id: usize, email: Seq<char>) -> bool {
    t.in_flight && t.issue_id == issue_id && t.subscriber_email@ == email
}

/// `b` is `a` claimed at `now`: in flight until the claim lapses.
pub open spec fn claimed_at(a: DeliveryTask, b: DeliveryTask, now: u64) -> bool {
    b.issue_id == a.issue_id && b.subscriber_email@ == a.subscriber_email@ && b.retry_count == a.retry_count
        && b.next_attempt_not_before == a.next_attempt_not_before && b.in_flight
        && b.claimed_until == saturating_sum(now, CLAIM_VISIBILITY)
}

/// `a + b`, or the largest `u64` where the sum does not fit.
pub open spec fn saturating_sum(a: u64, b: u64) -> u64 {
    if a + b <= u64::MAX { (a + b) as u64 } else { u64::MAX }
}

/// `b` is `a` put back for a retry at `now + delay`.
pub open spec fn rescheduled(a: DeliveryTask, b: DeliveryTask, now: u64, delay: u64) -> bool {
    &&& b.issue_id == a.issue_id
    &&& b.subscriber_email@ == a.subscriber_email@
    &&& b.retry_count == (if a.retry_count < u32::MAX { (a.retry_count + 1) as u32 } else { u32::MAX })
    &&& b.next_attempt_not_before == saturating_sum(now, delay)
    &&& !b.in_flight
    &&& b.claimed_until == 0
}

/// `new_q` has the length of `old_q` and differs from it at most at `i`.
pub open spec fn only_changed_at(old_q: Seq<DeliveryTask>, new_q: Seq<DeliveryTask>, i: int) -> bool {
    new_q.len() == old_q.len() && 0 <= i < old_q.len()
        && forall|j: int| 0 <= j < old_q.len() && j != i ==> #[trigger] new_q[j] == old_q[j]
}

/// Longest wait between two attempts, in seconds.
pub const MAX_RETRY_DELAY: u64 = 3600;

/// Wait after a failed attempt, in seconds: 30 more for each earlier retry,
/// capped at an hour.
pub open spec fn retry_delay_spec(retry_count: u32) -> u64 {
    if retry_count < 119 { (30 * (retry_count + 1)) as u64 } else { MAX_RETRY_DELAY }
}

/// The default backoff policy: linear in the number of retries so far, and
/// never more than an hour.
pub fn retry_delay_seconds(retry_count: u32) -> (d: u64)
    ensures
        d == retry_delay_spec(retry_count),
        d <= MAX_RETRY_DELAY,
{
    if retry_count < 119 {
        30 * (retry_count as u64 + 1)
    } else {
        MAX_RETRY_DELAY
    }
}

impl Store {
    /// What `claim_task` does.
    pub open spec fn claim_post(old: &Store, new: &Store, now: u64, r: Option<ClaimedTask>) -> bool {
        let q = old.queue@;
        match r {
            None => *new == *old && forall|i: int| 0 <= i < q.len() ==> !is_eligible(#[trigger] q[i], now),
            Some(c) => exists|i: int|
                0 <= i < q.len() && is_eligible(#[trigger] q[i], now)
                    && (forall|j: int| 0 <= j < i ==> !is_eligible(#[trigger] q[j], now))
                    && only_changed_at(q, new.queue@, i) && claimed_at(q[i], new.queue@[i], now)
                    && new.same_but_queue(old)
                    && c.issue_id == q[i].issue_id && c.subscriber_email@ == q[i].subscriber_email@
                    && c.retry_count == q[i].retry_count,
        }
    }

    /// What `complete_delivery` does.
    pub open spec fn complete_post(
        old: &Store,
        new: &Store,
        claim: ClaimedTask,
        outcome: DeliveryOutcome,
        now: u64,
        retry_delay: u64,
        found: bool,
    ) -> bool {
        let q = old.queue@;
        let held = |t: DeliveryTask| is_claimed_as(t, claim.issue_id, claim.subscriber_email@);
        if !found {
            *new == *old && forall|i: int| 0 <= i < q.len() ==> !held(#[trigger] q[i])
        } else {
            exists|i: int|
                0 <= i < q.len() && held(#[trigger] q[i])
                    && (forall|j: int| 0 <= j < i ==> !held(#[trigger] q[j]))
                    && new.same_but_queue(old)
                    && (if outcome == DeliveryOutcome::TransientFailure {
                        only_changed_at(q, new.queue@, i) && rescheduled(q[i], new.queue@[i], now, retry_delay)
                    } else {
                        new.queue@ == q.remove(i)
                    })
        }
    }

    /// Takes the first eligible task and marks it in flight, so that no other
    /// worker takes it before the claim lapses; `None` when no task is
    /// eligible at `now`.
    pub fn claim_task(&mut self, now: u64) -> (r: Option<ClaimedTask>)
        ensures
            Store::claim_post(old(self), final(self), now, r),
    {
        let mut i: usize = 0;
        while i < self.queue.len()
            invariant
                i <= self.queue@.len(),
                *self == *old(self),
                forall|j: int| 0 <= j < i ==> !is_eligible(#[trigger] self.queue@[j], now),
            decreases self.queue@.len() - i,
        {
            let eligible = if self.queue[i].in_flight {
                self.queue[i].claimed_until <= now
            } else {
                self.queue[i].next_attempt_not_before <= now
            };
            if eligible {
                self.queue[i].in_flight = true;
                self.queue[i].claimed_until = now.saturating_add(CLAIM_VISIBILITY);
                let c = ClaimedTask {
                    issue_id: self.queue[i].issue_id,
                    subscriber_email: self.queue[i].subscriber_email.clone(),
                    retry_count: self.queue[i].retry_count,
                };
                proof {
                    assert(is_eligible(old(self).queue@[i as int], now));
                }
                return Some(c);
            }
            i = i + 1;
        }
        None
    }

    /// Settles a claimed task after the transport reported `outcome`: a
    /// transient failure puts it back with one more retry and the next
    /// attempt `retry_delay` after `now`; delivery or a permanent failure
    /// removes it. Returns `false`, changing nothing, when no task is held
    /// under `claim`.
    pub fn complete_delivery(
        &mut self,
        claim: &ClaimedTask,
        outcome: DeliveryOutcome,
        now: u64,
        retry_delay: u64,
    ) -> (found: bool)
        ensures
            Store::complete_post(old(self), final(self), *claim, outcome, now, retry_delay, found),
    {
        let mut i: usize = 0;
        while i < self.queue.len()
            invariant
                i <= self.queue@.len(),
                *self == *old(self),
                forall|j: int| 0 <= j < i ==> !is_claimed_as(#[trigger] self.queue@[j], claim.issue_id, claim.subscriber_email@),
            decreases self.queue@.len() - i,
        {
            if self.queue[i].in_flight && self.queue[i].issue_id == claim.issue_id
                && self.queue[i].subscriber_email == claim.subscriber_email {
                proof {
                    assert(is_claimed_as(old(self).queue@[i as int], claim.issue_id, claim.subscriber_email@));
                }
                if outcome == DeliveryOutcome::TransientFailure {
                    let rc = self.queue[i].retry_count;
                    self.queue[i].retry_count = if rc < u32::MAX { rc + 1 } else { rc };
                    self.queue[i].next_attempt_not_before = now.saturating_add(retry_delay);
                    self.queue[i].in_flight = false;
                    self.queue[i].claimed_until = 0;
                } else {
                    self.queue.remove(i);
                }
                return true;
            }
            i = i + 1;
        }
        false
    }
}

} // verus!
