use crate::confirm::{token_known, Parameters};
use crate::newsletter::{is_valid_form, NewsletterFormData, PublishError};
use crate::response::Response;
use crate::store::{
    accepted_response, confirmed_emails, has_record, queue_extended, record_matches, IdempotencyRecord, Store,
    Subscriber, SubscriberStatus,
};
use crate::confirm::SubscriptionTokenError;
use crate::token::is_valid_token;
use vstd::prelude::*;

verus! {

/// Every record of `a` is still in `b`, at the same place: records are only
/// ever appended, never overwritten.
pub open spec fn records_kept(a: Seq<IdempotencyRecord>, b: Seq<IdempotencyRecord>) -> bool {
    a.len() <= b.len() && b.subrange(0, a.len() as int) == a
}

/// Some confirmed subscriber of `subs` has the address `email`.
pub open spec fn is_confirmed_email(subs: Seq<Subscriber>, email: Seq<char>) -> bool {
    exists|i: int| 0 <= i < subs.len() && (#[trigger] subs[i]).status == SubscriberStatus::Confirmed && subs[i].email@ == email
}

/// Every email in `confirmed_emails(subs)` is that of a confirmed subscriber.
pub proof fn lemma_confirmed_emails_are_confirmed(subs: Seq<Subscriber>)
    ensures
        forall|k: int| 0 <= k < confirmed_emails(subs).len() ==> is_confirmed_email(subs, #[trigger] confirmed_emails(subs)[k]),
    decreases subs.len(),
{
    if subs.len() > 0 {
        let rest = subs.drop_last();
        lemma_confirmed_emails_are_confirmed(rest);
        assert forall|k: int| 0 <= k < confirmed_emails(subs).len() implies is_confirmed_email(subs, #[trigger] confirmed_emails(subs)[k]) by {
            if k < confirmed_emails(rest).len() {
                assert(confirmed_emails(subs)[k] == confirmed_emails(rest)[k]);
                assert(is_confirmed_email(rest, confirmed_emails(rest)[k]));
                let i = choose|i: int| 0 <= i < rest.len() && (#[trigger] rest[i]).status == SubscriberStatus::Confirmed
                    && rest[i].email@ == confirmed_emails(rest)[k];
                assert(subs[i] == rest[i]);
            } else {
                assert(subs[subs.len() - 1] == subs.last());
            }
        }
    }
}

/// Once a well-formed request with a fresh key has been accepted, any later
/// well-formed request with the same actor and key, whatever happened to the
/// store in between, gets a response identical to the first and changes
/// nothing: in particular no task is queued again.
pub proof fn lemma_replay_is_identical(
    s0: Store,
    s1: Store,
    later: Store,
    s2: Store,
    actor_id: u128,
    form: NewsletterFormData,
    again: NewsletterFormData,
    r1: Result<Response, PublishError>,
    r2: Result<Response, PublishError>,
)
    requires
        s0.wf(),
        is_valid_form(form),
        !has_record(s0.records@, actor_id, form.idempotency_key@),
        Store::publish_post(&s0, &s1, actor_id, form, r1),
        later.wf(),
        records_kept(s1.records@, later.records@),
        is_valid_form(again),
        again.idempotency_key@ == form.idempotency_key@,
        Store::publish_post(&later, &s2, actor_id, again, r2),
    ensures
        r1 is Ok && r2 is Ok,
        r2->Ok_0@ == r1->Ok_0@,
        s2 == later,
        s2.queue@ == later.queue@,
{
    let k = s1.records@.len() - 1;
    assert(later.records@[k] == s1.records@.subrange(0, s1.records@.len() as int)[k]);
    assert(later.records@[k] == s1.records@[k]);
    assert(record_matches(later.records@[k], actor_id, again.idempotency_key@));
    assert(has_record(later.records@, actor_id, again.idempotency_key@));
    let i = choose|i: int| 0 <= i < later.records@.len() && record_matches(#[trigger] later.records@[i], actor_id, again.idempotency_key@)
        && r2->Ok_0@ == later.records@[i].response@;
    assert(i == k);
}

/// Two identical submissions (same actor, same key, same fields) that reach
/// the store one after the other, as concurrent ones do since each holds it
/// exclusively, get identical responses, and exactly one set of delivery
/// tasks is created: one per confirmed subscriber.
pub proof fn lemma_duplicate_submission_fans_out_once(
    s0: Store,
    s1: Store,
    s2: Store,
    actor_id: u128,
    form: NewsletterFormData,
    r1: Result<Response, PublishError>,
    r2: Result<Response, PublishError>,
)
    requires
        s0.wf(),
        s1.wf(),
        is_valid_form(form),
        !has_record(s0.records@, actor_id, form.idempotency_key@),
        Store::publish_post(&s0, &s1, actor_id, form, r1),
        Store::publish_post(&s1, &s2, actor_id, form, r2),
    ensures
        r1 is Ok && r2 is Ok,
        r1->Ok_0@ == accepted_response(),
        r2->Ok_0@ == r1->Ok_0@,
        queue_extended(s0.queue@, s2.queue@, s0.issues@.len() as usize, confirmed_emails(s0.subscribers@)),
        s2.issues@.len() == s0.issues@.len() + 1,
        s2.records@.len() == s0.records@.len() + 1,
{
    assert(s1.records@.subrange(0, s1.records@.len() as int) =~= s1.records@);
    lemma_replay_is_identical(s0, s1, s1, s2, actor_id, form, form, r1, r2);
}

/// A publish never queues a task for an address that no confirmed subscriber
/// has: every task it adds is addressed to a confirmed subscriber, and the
/// tasks queued before are left as they were.
pub proof fn lemma_publish_queues_only_confirmed(
    s0: Store,
    s1: Store,
    actor_id: u128,
    form: NewsletterFormData,
    r: Result<Response, PublishError>,
)
    requires
        s0.wf(),
        Store::publish_post(&s0, &s1, actor_id, form, r),
    ensures
        s0.queue@.len() <= s1.queue@.len(),
        s1.queue@.subrange(0, s0.queue@.len() as int) == s0.queue@,
        forall|j: int| s0.queue@.len() <= j < s1.queue@.len()
            ==> is_confirmed_email(s0.subscribers@, (#[trigger] s1.queue@[j]).subscriber_email@),
{
    if s1 == s0 {
        assert(s1.queue@.subrange(0, s0.queue@.len() as int) =~= s0.queue@);
    } else {
        let e = confirmed_emails(s0.subscribers@);
        assert(is_valid_form(form) && !has_record(s0.records@, actor_id, form.idempotency_key@));
        assert(queue_extended(s0.queue@, s1.queue@, s0.issues@.len() as usize, e));
        lemma_confirmed_emails_are_confirmed(s0.subscribers@);
        assert forall|j: int| s0.queue@.len() <= j < s1.queue@.len()
            implies is_confirmed_email(s0.subscribers@, (#[trigger] s1.queue@[j]).subscriber_email@) by {
            let k = j - s0.queue@.len();
            assert(s1.queue@[s0.queue@.len() + k] == s1.queue@[j]);
            assert(s1.queue@[j].subscriber_email@ == e[k]);
            assert(is_confirmed_email(s0.subscribers@, e[k]));
        }
    }
}

/// Confirming the same valid, known token twice succeeds both times; the
/// token's subscriber ends up confirmed and the second call changes nothing.
pub proof fn lemma_confirm_twice(
    s0: Store,
    s1: Store,
    s2: Store,
    parameters: Parameters,
    r1: Result<Response, SubscriptionTokenError>,
    r2: Result<Response, SubscriptionTokenError>,
)
    requires
        s0.wf(),
        is_valid_token(parameters.subscription_token@),
        token_known(s0.tokens@, parameters.subscription_token@),
        Store::confirm_post(&s0, &s1, parameters.subscription_token@, r1),
        Store::confirm_post(&s1, &s2, parameters.subscription_token@, r2),
    ensures
        r1 is Ok && r2 is Ok,
        r2->Ok_0@ == r1->Ok_0@,
        exists|t: int|
            0 <= t < s0.tokens@.len() && (#[trigger] s0.tokens@[t]).token@ == parameters.subscription_token@
                && forall|j: int| 0 <= j < s2.subscribers@.len() && s0.subscribers@[j].id == s0.tokens@[t].subscriber_id
                    ==> (#[trigger] s2.subscribers@[j]).status == SubscriberStatus::Confirmed,
        s2.subscribers@.len() == s1.subscribers@.len(),
        forall|j: int| 0 <= j < s2.subscribers@.len() ==> (#[trigger] s2.subscribers@[j]).status == s1.subscribers@[j].status,
{
    let raw = parameters.subscription_token@;
    let t = choose|t: int| 0 <= t < s0.tokens@.len() && (#[trigger] s0.tokens@[t]).token@ == raw
        && crate::confirm::subscribers_confirmed(s0.subscribers@, s1.subscribers@, s0.tokens@[t].subscriber_id);
    assert(s1.tokens@ == s0.tokens@);
    assert(token_known(s1.tokens@, raw)) by {
        assert(s1.tokens@[t].token@ == raw);
    }
    let u = choose|u: int| 0 <= u < s1.tokens@.len() && (#[trigger] s1.tokens@[u]).token@ == raw
        && crate::confirm::subscribers_confirmed(s1.subscribers@, s2.subscribers@, s1.tokens@[u].subscriber_id);
    assert(u == t);
    let id = s0.tokens@[t].subscriber_id;
    assert forall|j: int| 0 <= j < s2.subscribers@.len() implies (#[trigger] s2.subscribers@[j]).status == s1.subscribers@[j].status by {
        assert(crate::confirm::confirmed_if_id(s0.subscribers@[j], s1.subscribers@[j], id));
        assert(crate::confirm::confirmed_if_id(s1.subscribers@[j], s2.subscribers@[j], id));
    }
    assert forall|j: int| 0 <= j < s2.subscribers@.len() && s0.subscribers@[j].id == id
        implies (#[trigger] s2.subscribers@[j]).status == SubscriberStatus::Confirmed by {
        assert(crate::confirm::confirmed_if_id(s0.subscribers@[j], s1.subscribers@[j], id));
        assert(crate::confirm::confirmed_if_id(s1.subscribers@[j], s2.subscribers@[j], id));
    }
}

} // verus!
