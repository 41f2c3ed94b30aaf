use crate::newsletter::{empty_fields_message, is_valid_form, Newsletter, NewsletterFormData, PublishError};
use crate::response::{newsletters_path, Response, ResponseView};
use crate::token::SubscriptionToken;
use vstd::prelude::*;
use vstd::string::StringExecFns;

verus! {

/// Whether a subscriber has confirmed their address.
#[derive(PartialEq, Eq, Structural, Clone, Copy, Debug)]
pub enum SubscriberStatus {
    PendingConfirmation,
    Confirmed,
}

/// A person on the mailing list.
pub struct Subscriber {
    pub id: u128,
    pub email: String,
    pub name: String,
    pub status: SubscriberStatus,
}

/// A confirmation token and the subscriber it stands for.
pub struct TokenEntry {
    pub token: String,
    pub subscriber_id: u128,
}

/// A published issue; its id is its position in the store.
pub struct NewsletterIssue {
    pub id: usize,
    pub title: String,
    pub text_content: String,
    pub html_content: String,
}

/// One pending send of one issue to one recipient.
pub struct DeliveryTask {
    pub issue_id: usize,
    pub subscriber_email: String,
    pub retry_count: u32,
    pub next_attempt_not_before: u64,
    pub in_flight: bool,
    /// While in flight: the time after which the claim lapses and another
    /// worker may take the task.
    pub claimed_until: u64,
}

/// The response stored for an (actor, key) pair after a publish.
pub struct IdempotencyRecord {
    pub actor_id: u128,
    pub key: String,
    pub response: Response,
}

/// Result of looking up an idempotency key.
pub enum IdempotencyOutcome {
    /// A response was stored earlier: replay it.
    Cached(Response),
    /// No record yet: the caller holds the store exclusively and may proceed.
    Proceed,
}

/// All durable state of the newsletter service. Exclusive access (`&mut`)
/// plays the role of the database transaction: an operation either finishes
/// all its writes or, returning early, makes none.
pub struct Store {
    pub subscribers: Vec<Subscriber>,
    pub tokens: Vec<TokenEntry>,
    pub issues: Vec<NewsletterIssue>,
    pub queue: Vec<DeliveryTask>,
    pub records: Vec<IdempotencyRecord>,
}

/// `r` is the record of (`actor_id`, `key`).
pub open spec fn record_matches(r: IdempotencyRecord, actor_id: u128, key: Seq<char>) -> bool {
    r.actor_id == actor_id && r.key@ == key
}

/// Some record of `recs` belongs to (`actor_id`, `key`).
pub open spec fn has_record(recs: Seq<IdempotencyRecord>, actor_id: u128, key: Seq<char>) -> bool {
    exists|i: int| 0 <= i < recs.len() && record_matches(#[trigger] recs[i], actor_id, key)
}

/// At most one record per (actor, key).
pub open spec fn records_unique(recs: Seq<IdempotencyRecord>) -> bool {
    forall|i: int, j: int|
        0 <= i < recs.len() && 0 <= j < recs.len() && #[trigger] recs[i].actor_id == #[trigger] recs[j].actor_id
            && recs[i].key@ == recs[j].key@ ==> i == j
}

/// Every token maps to one subscriber.
pub open spec fn tokens_unique(toks: Seq<TokenEntry>) -> bool {
    forall|i: int, j: int|
        0 <= i < toks.len() && 0 <= j < toks.len() && #[trigger] toks[i].token@ == #[trigger] toks[j].token@ ==> i == j
}

/// The emails of the confirmed subscribers, in store order.
pub open spec fn confirmed_emails(subs: Seq<Subscriber>) -> Seq<Seq<char>>
    decreases subs.len(),
{
    if subs.len() == 0 {
        Seq::empty()
    } else {
        let rest = confirmed_emails(subs.drop_last());
        if subs.last().status == SubscriberStatus::Confirmed {
            rest.push(subs.last().email@)
        } else {
            rest
        }
    }
}

/// `v` holds strings with the views `e`, in order.
pub open spec fn strings_are(v: Seq<String>, e: Seq<Seq<char>>) -> bool {
    v.len() == e.len() && forall|j: int| 0 <= j < v.len() ==> (#[trigger] v[j])@ == e[j]
}

/// A task as fan-out creates it: eligible at once, never tried.
pub open spec fn is_fresh_task(t: DeliveryTask, issue_id: usize, email: Seq<char>) -> bool {
    t.issue_id == issue_id && t.subscriber_email@ == email && t.retry_count == 0
        && t.next_attempt_not_before == 0 && !t.in_flight && t.claimed_until == 0
}

/// `new_q` is `old_q` followed by one fresh task per email.
pub open spec fn queue_extended(
    old_q: Seq<DeliveryTask>,
    new_q: Seq<DeliveryTask>,
    issue_id: usize,
    emails: Seq<Seq<char>>,
) -> bool {
    new_q.len() == old_q.len() + emails.len() && new_q.subrange(0, old_q.len() as int) == old_q
        && forall|j: int| 0 <= j < emails.len() ==> is_fresh_task(#[trigger] new_q[old_q.len() + j], issue_id, emails[j])
}

/// The notice shown once an issue has been accepted.
pub open spec fn accepted_notice() -> Seq<char> {
    "The newsletter issue has been accepted - emails will go out shortly."@
}

/// The response of a successful publish.
pub open spec fn accepted_response() -> ResponseView {
    (303u16, newsletters_path(), accepted_notice())
}

impl Store {
    /// Records and tokens are unique and each issue's id is its position.
    pub open spec fn wf(&self) -> bool {
        records_unique(self.records@) && tokens_unique(self.tokens@)
            && forall|i: int| 0 <= i < self.issues@.len() ==> (#[trigger] self.issues@[i]).id == i
    }

    /// Everything but the queue is as in `old`.
    pub open spec fn same_but_queue(&self, old: &Store) -> bool {
        self.subscribers@ == old.subscribers@ && self.tokens@ == old.tokens@ && self.issues@ == old.issues@
            && self.records@ == old.records@
    }

    /// Everything but the subscribers is as in `old`.
    pub open spec fn same_but_subscribers(&self, old: &Store) -> bool {
        self.tokens@ == old.tokens@ && self.issues@ == old.issues@ && self.queue@ == old.queue@
            && self.records@ == old.records@
    }

    /// `new` is `old` after a newsletter built from `form` was accepted for
    /// `actor_id`: the issue is stored, one task per confirmed subscriber is
    /// queued and the accepted response is recorded under the key.
    pub open spec fn accepted_publish(old: &Store, new: &Store, actor_id: u128, form: NewsletterFormData) -> bool {
        let id = old.issues@.len();
        &&& new.subscribers@ == old.subscribers@
        &&& new.tokens@ == old.tokens@
        &&& new.issues@.len() == id + 1
        &&& new.issues@.drop_last() == old.issues@
        &&& new.issues@.last().id == id
        &&& new.issues@.last().title@ == form.title@
        &&& new.issues@.last().text_content@ == form.text_content@
        &&& new.issues@.last().html_content@ == form.html_content@
        &&& queue_extended(old.queue@, new.queue@, id as usize, confirmed_emails(old.subscribers@))
        &&& new.records@.len() == old.records@.len() + 1
        &&& new.records@.drop_last() == old.records@
        &&& record_matches(new.records@.last(), actor_id, form.idempotency_key@)
        &&& new.records@.last().response@ == accepted_response()
    }

    /// What `publish_newsletter` does, for every outcome.
    pub open spec fn publish_post(
        old: &Store,
        new: &Store,
        actor_id: u128,
        form: NewsletterFormData,
        r: Result<Response, PublishError>,
    ) -> bool {
        let key = form.idempotency_key@;
        if !is_valid_form(form) {
            &&& *new == *old
            &&& (r matches Err(PublishError::ValidationError(m)) && m@ == empty_fields_message())
        } else if has_record(old.records@, actor_id, key) {
            &&& *new == *old
            &&& (r matches Ok(resp) && exists|i: int|
                0 <= i < old.records@.len() && record_matches(#[trigger] old.records@[i], actor_id, key)
                    && resp@ == old.records@[i].response@)
        } else {
            &&& Store::accepted_publish(old, new, actor_id, form)
            &&& (r matches Ok(resp) && resp@ == accepted_response())
        }
    }

    /// An empty store.
    pub fn new() -> (s: Store)
        ensures
            s.wf(),
            s.subscribers@.len() == 0 && s.tokens@.len() == 0 && s.issues@.len() == 0,
            s.queue@.len() == 0 && s.records@.len() == 0,
    {
        Store { subscribers: Vec::new(), tokens: Vec::new(), issues: Vec::new(), queue: Vec::new(), records: Vec::new() }
    }

    /// Records a new subscriber awaiting confirmation.
    pub fn add_subscriber(&mut self, id: u128, email: String, name: String)
        requires
            old(self).wf(),
        ensures
            final(self).wf(),
            final(self).subscribers@ == old(self).subscribers@.push(
                Subscriber { id, email, name, status: SubscriberStatus::PendingConfirmation },
            ),
            final(self).same_but_subscribers(old(self)),
    {
        self.subscribers.push(Subscriber { id, email, name, status: SubscriberStatus::PendingConfirmation });
    }

    /// Stores `token` for `subscriber_id`; a token already stored is refused
    /// and `false` returned.
    pub fn add_token(&mut self, token: &SubscriptionToken, subscriber_id: u128) -> (added: bool)
        requires
            old(self).wf(),
        ensures
            final(self).wf(),
            added == !exists|i: int| 0 <= i < old(self).tokens@.len() && (#[trigger] old(self).tokens@[i]).token@ == token@,
            added ==> final(self).tokens@.len() == old(self).tokens@.len() + 1
                && final(self).tokens@.drop_last() == old(self).tokens@
                && final(self).tokens@.last().token@ == token@ && final(self).tokens@.last().subscriber_id == subscriber_id,
            !added ==> final(self).tokens@ == old(self).tokens@,
            final(self).subscribers@ == old(self).subscribers@,
            final(self).issues@ == old(self).issues@,
            final(self).queue@ == old(self).queue@,
            final(self).records@ == old(self).records@,
    {
        let mut i: usize = 0;
        while i < self.tokens.len()
            invariant
                i <= self.tokens@.len(),
                *self == *old(self),
                self.wf(),
                forall|j: int| 0 <= j < i ==> (#[trigger] self.tokens@[j]).token@ != token@,
            decreases self.tokens@.len() - i,
        {
            if token.is_text(&self.tokens[i].token) {
                return false;
            }
            i = i + 1;
        }
        let text = String::from_str(token.as_str());
        self.tokens.push(TokenEntry { token: text, subscriber_id });
        proof {
            assert(self.tokens@.drop_last() =~= old(self).tokens@);
            let toks = self.tokens@;
            assert forall|a: int, b: int|
                0 <= a < toks.len() && 0 <= b < toks.len() && #[trigger] toks[a].token@ == #[trigger] toks[b].token@ implies a == b by {
                if a < toks.len() - 1 && b == toks.len() - 1 {
                    assert(old(self).tokens@[a].token@ != token@);
                }
                if b < toks.len() - 1 && a == toks.len() - 1 {
                    assert(old(self).tokens@[b].token@ != token@);
                }
            }
        }
        true
    }

    /// Position of the record for (`actor_id`, `key`), if there is one.
    fn find_record(&self, actor_id: u128, key: &String) -> (r: Option<usize>)
        ensures
            r matches Some(i) ==> i < self.records@.len() && record_matches(self.records@[i as int], actor_id, key@),
            r is None ==> !has_record(self.records@, actor_id, key@),
    {
        let mut i: usize = 0;
        while i < self.records.len()
            invariant
                i <= self.records@.len(),
                forall|j: int| 0 <= j < i ==> !record_matches(#[trigger] self.records@[j], actor_id, key@),
            decreases self.records@.len() - i,
        {
            if self.records[i].actor_id == actor_id && self.records[i].key == *key {
                return Some(i);
            }
            i = i + 1;
        }
        None
    }

    /// Replays the response stored for (`actor_id`, `key`), or reports that
    /// none exists and the caller may run the command.
    pub fn begin_or_replay(&self, actor_id: u128, key: &String) -> (r: IdempotencyOutcome)
        ensures
            r is Proceed <==> !has_record(self.records@, actor_id, key@),
            r matches IdempotencyOutcome::Cached(resp) ==> (exists|i: int|
                0 <= i < self.records@.len() && record_matches(#[trigger] self.records@[i], actor_id, key@)
                    && resp@ == self.records@[i].response@),
    {
        match self.find_record(actor_id, key) {
            Some(i) => IdempotencyOutcome::Cached(self.records[i].response.duplicate()),
            None => IdempotencyOutcome::Proceed,
        }
    }

    /// Stores the response for a key that has none; records are never
    /// overwritten.
    pub fn save_response(&mut self, actor_id: u128, key: String, response: Response)
        requires
            old(self).wf(),
            !has_record(old(self).records@, actor_id, key@),
        ensures
            final(self).wf(),
            final(self).records@ == old(self).records@.push(IdempotencyRecord { actor_id, key, response }),
            final(self).subscribers@ == old(self).subscribers@,
            final(self).tokens@ == old(self).tokens@,
            final(self).issues@ == old(self).issues@,
            final(self).queue@ == old(self).queue@,
    {
        self.records.push(IdempotencyRecord { actor_id, key, response });
        proof {
            let recs = self.records@;
            assert forall|i: int, j: int|
                0 <= i < recs.len() && 0 <= j < recs.len() && #[trigger] recs[i].actor_id == #[trigger] recs[j].actor_id
                    && recs[i].key@ == recs[j].key@ implies i == j by {
                if i < recs.len() - 1 && j == recs.len() - 1 {
                    assert(record_matches(old(self).records@[i], actor_id, key@));
                }
                if j < recs.len() - 1 && i == recs.len() - 1 {
                    assert(record_matches(old(self).records@[j], actor_id, key@));
                }
            }
        }
    }

    /// Appends one fresh delivery task per email.
    fn enqueue_delivery_tasks(&mut self, issue_id: usize, emails: &Vec<String>)
        ensures
            queue_extended(old(self).queue@, final(self).queue@, issue_id, emails@.map_values(|e: String| e@)),
            final(self).same_but_queue(old(self)),
    {
        let ghost start = self.queue@;
        proof {
            assert(start.subrange(0, start.len() as int) =~= start);
        }
        let mut i: usize = 0;
        while i < emails.len()
            invariant
                i <= emails@.len(),
                self.same_but_queue(old(self)),
                start == old(self).queue@,
                queue_extended(start, self.queue@, issue_id, emails@.map_values(|e: String| e@).subrange(0, i as int)),
            decreases emails@.len() - i,
        {
            self.queue.push(DeliveryTask {
                issue_id,
                subscriber_email: emails[i].clone(),
                retry_count: 0,
                next_attempt_not_before: 0,
                in_flight: false,
                claimed_until: 0,
            });
            i = i + 1;
            proof {
                let e = emails@.map_values(|e: String| e@).subrange(0, i as int);
                assert(self.queue@.subrange(0, start.len() as int) =~= start);
                assert forall|j: int| 0 <= j < e.len() implies is_fresh_task(#[trigger] self.queue@[start.len() + j], issue_id, e[j]) by {
                }
            }
        }
        proof {
            assert(emails@.map_values(|e: String| e@).subrange(0, i as int) =~= emails@.map_values(|e: String| e@));
        }
    }


}

/// The emails of all confirmed subscribers.
pub fn get_confirmed_subscribers(store: &Store) -> (r: Vec<String>)
    ensures
        strings_are(r@, confirmed_emails(store.subscribers@)),
{
    let mut out: Vec<String> = Vec::new();
    let mut i: usize = 0;
    while i < store.subscribers.len()
        invariant
            i <= store.subscribers@.len(),
            strings_are(out@, confirmed_emails(store.subscribers@.subrange(0, i as int))),
        decreases store.subscribers@.len() - i,
    {
        proof {
            assert(store.subscribers@.subrange(0, i + 1).drop_last() =~= store.subscribers@.subrange(0, i as int));
        }
        if store.subscribers[i].status == SubscriberStatus::Confirmed {
            out.push(store.subscribers[i].email.clone());
        }
        i = i + 1;
    }
    proof {
        assert(store.subscribers@.subrange(0, i as int) =~= store.subscribers@);
    }
    out
}

/// Accepts a newsletter for delivery, at most once per (actor, key).
/// Invalid forms change nothing; a key seen before replays the stored
/// response and changes nothing; otherwise the issue, its delivery tasks
/// and the response record are written together.
pub fn publish_newsletter(store: &mut Store, actor_id: u128, form: NewsletterFormData) -> (r: Result<Response, PublishError>)
    requires
        old(store).wf(),
    ensures
        final(store).wf(),
        Store::publish_post(old(store), final(store), actor_id, form, r),
{
    let key = form.idempotency_key.clone();
    let newsletter = match Newsletter::try_from(form) {
        Ok(n) => n,
        Err(e) => return Err(e),
    };
    match store.begin_or_replay(actor_id, &key) {
        IdempotencyOutcome::Cached(resp) => return Ok(resp),
        IdempotencyOutcome::Proceed => {},
    }
    let issue_id = store.issues.len();
    let emails = get_confirmed_subscribers(store);
    store.issues.push(NewsletterIssue {
        id: issue_id,
        title: newsletter.title,
        text_content: newsletter.content.text,
        html_content: newsletter.content.html,
    });
    store.enqueue_delivery_tasks(issue_id, &emails);
    proof {
        assert(emails@.map_values(|e: String| e@) =~= confirmed_emails(old(store).subscribers@));
        assert(store.issues@.drop_last() =~= old(store).issues@);
    }
    let response = Response::see_other(
        "/admin/newsletters",
        "The newsletter issue has been accepted - emails will go out shortly.",
    );
    store.save_response(actor_id, key, response.duplicate());
    proof {
        assert(store.records@.drop_last() =~= old(store).records@);
    }
    Ok(response)
}

} // verus!
