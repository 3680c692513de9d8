use vstd::prelude::*;
use crate::error::EmailError;
use crate::kv::{
    lemma_pairs_to_map_domain, lemma_pairs_to_map_last_match, lemma_pairs_to_map_push,
    pairs_to_map,
};
use crate::mail::{opt_string_view, ParsedEmail};

verus! {

/// Whether a reply with the given identifier is still acceptable: it is,
/// exactly when it has not been consumed before.
pub open spec fn spec_reply_valid(consumed: Set<Seq<char>>, reply_message_id: Seq<char>) -> bool {
    !consumed.contains(reply_message_id)
}

/// The persistent record that enforces at-most-once reply acceptance.
///
/// It holds the identifiers of every inbound reply already consumed — once an
/// identifier is recorded it is never again accepted — and, keyed by outbound
/// message identifier, which request (if any) awaits a reply to that message.
/// Neither record is ever deleted.
pub struct ReplyLedger {
    consumed: Vec<String>,
    expectations: Vec<(String, Option<String>)>,
}

impl ReplyLedger {
    /// The set of reply identifiers already consumed.
    pub closed spec fn consumed_ids(self) -> Set<Seq<char>> {
        Set::new(
            |id: Seq<char>|
                exists|i: int| 0 <= i < self.consumed@.len() && self.consumed@[i]@ == id,
        )
    }

    spec fn expectation_pairs(self) -> Seq<(Seq<char>, Option<Seq<char>>)> {
        self.expectations@.map_values(
            |p: (String, Option<String>)| (p.0@, opt_string_view(p.1)),
        )
    }

    /// For each outbound message identifier with a registered expectation, the
    /// request (if any) that a reply to it should resume.
    pub closed spec fn expectations_map(self) -> Map<Seq<char>, Option<Seq<char>>> {
        pairs_to_map(self.expectation_pairs())
    }

    /// An empty ledger: nothing consumed, nothing awaited.
    pub fn new() -> (r: Self)
        ensures
            r.consumed_ids() == Set::<Seq<char>>::empty(),
            r.expectations_map() == Map::<Seq<char>, Option<Seq<char>>>::empty(),
    {
        let r = ReplyLedger { consumed: Vec::new(), expectations: Vec::new() };
        proof {
            assert(r.consumed_ids() =~= Set::<Seq<char>>::empty());
            assert(r.expectation_pairs() =~= Seq::empty());
        }
        r
    }

    /// Whether a reply with this identifier would be accepted now: true
    /// exactly when the identifier was never consumed. A caller that acts on a
    /// positive answer must record consumption atomically with the check — use
    /// `consume_reply` for that; this read alone admits a race between two
    /// concurrent deliveries of the same reply.
    pub fn is_valid_reply(&self, reply_message_id: &String) -> (r: bool)
        ensures
            r == spec_reply_valid(self.consumed_ids(), reply_message_id@),
    {
        let n = self.consumed.len();
        let mut i: usize = 0;
        while i < n
            invariant
                0 <= i <= n,
                n == self.consumed@.len(),
                forall|j: int| 0 <= j < i ==> self.consumed@[j]@ != reply_message_id@,
            decreases n - i,
        {
            if self.consumed[i] == *reply_message_id {
                return false;
            }
            i += 1;
        }
        true
    }

    /// The atomic check-then-record of reply consumption: accepts the
    /// identifier if and only if it was never consumed before, and records it
    /// in the same step, so that of two deliveries of the same reply exactly
    /// one is accepted. The set of consumed identifiers only ever grows.
    pub fn consume_reply(&mut self, reply_message_id: &String) -> (accepted: bool)
        ensures
            accepted == spec_reply_valid(old(self).consumed_ids(), reply_message_id@),
            final(self).consumed_ids() == old(self).consumed_ids().insert(reply_message_id@),
            final(self).expectations_map() == old(self).expectations_map(),
            !accepted ==> *final(self) == *old(self),
    {
        if !self.is_valid_reply(reply_message_id) {
            proof {
                assert(old(self).consumed_ids().insert(reply_message_id@) =~= old(
                    self,
                ).consumed_ids());
            }
            return false;
        }
        self.consumed.push(reply_message_id.clone());
        proof {
            let oldc = old(self).consumed@;
            let newc = self.consumed@;
            assert forall|x: Seq<char>|
                old(self).consumed_ids().insert(reply_message_id@).contains(x)
                    implies self.consumed_ids().contains(x) by {
                if x == reply_message_id@ {
                    assert(newc[oldc.len() as int]@ == x);
                } else {
                    let i = choose|i: int| 0 <= i < oldc.len() && oldc[i]@ == x;
                    assert(newc[i]@ == x);
                }
            }
            assert forall|x: Seq<char>| self.consumed_ids().contains(x) implies old(
                self,
            ).consumed_ids().insert(reply_message_id@).contains(x) by {
                let i = choose|i: int| 0 <= i < newc.len() && newc[i]@ == x;
                if i < oldc.len() {
                    assert(oldc[i]@ == x);
                }
            }
            assert(self.consumed_ids() =~= old(self).consumed_ids().insert(reply_message_id@));
        }
        true
    }

    /// Registers that the outbound message with the given identifier awaits a
    /// reply, tied to the given request. An outbound message identifier maps
    /// to at most one request: a second registration under the same identifier
    /// is refused with `Conflict` and changes nothing.
    pub fn insert_expected_reply(&mut self, message_id: &String, request_id: Option<String>) -> (r:
        Result<(), EmailError>)
        ensures
            r is Ok <==> !old(self).expectations_map().contains_key(message_id@),
            r is Ok ==> final(self).expectations_map() == old(self).expectations_map().insert(
                message_id@,
                opt_string_view(request_id),
            ),
            r is Err ==> (r matches Err(e) && e is Conflict) && *final(self) == *old(self),
            final(self).consumed_ids() == old(self).consumed_ids(),
    {
        proof {
            lemma_pairs_to_map_domain(self.expectation_pairs(), message_id@);
        }
        let n = self.expectations.len();
        let mut i: usize = 0;
        while i < n
            invariant
                0 <= i <= n,
                n == self.expectations@.len(),
                forall|j: int| 0 <= j < i ==> self.expectations@[j].0@ != message_id@,
            decreases n - i,
        {
            if self.expectations[i].0 == *message_id {
                proof {
                    let pairs = old(self).expectation_pairs();
                    assert(pairs[i as int].0 == message_id@);
                    assert(exists|j: int| 0 <= j < pairs.len() && pairs[j].0 == message_id@);
                    lemma_pairs_to_map_domain(pairs, message_id@);
                    assert(old(self).expectations_map().contains_key(message_id@));
                }
                return Err(EmailError::Conflict);
            }
            i += 1;
        }
        assert(forall|j: int|
            0 <= j < self.expectation_pairs().len() ==> self.expectation_pairs()[j].0
                != message_id@);
        self.expectations.push((message_id.clone(), request_id));
        proof {
            let oldp = old(self).expectation_pairs();
            assert(self.expectation_pairs() =~= oldp.push(
                (message_id@, opt_string_view(request_id)),
            ));
            lemma_pairs_to_map_push(oldp, message_id@, opt_string_view(request_id));
        }
        Ok(())
    }

    /// The request (if any) registered as awaiting a reply to the outbound
    /// message with the given identifier; `None` when no expectation was
    /// registered for it.
    pub fn lookup_expectation(&self, message_id: &String) -> (r: Option<Option<String>>)
        ensures
            match r {
                Some(request_id) => self.expectations_map().contains_key(message_id@)
                    && self.expectations_map()[message_id@] == opt_string_view(request_id),
                None => !self.expectations_map().contains_key(message_id@),
            },
    {
        let n = self.expectations.len();
        let mut i: usize = n;
        while i > 0
            invariant
                i <= n,
                n == self.expectations@.len(),
                forall|j: int| i <= j < n ==> self.expectations@[j].0@ != message_id@,
            decreases i,
        {
            i -= 1;
            if self.expectations[i].0 == *message_id {
                proof {
                    let pairs = self.expectation_pairs();
                    assert(pairs[i as int].0 == message_id@);
                    assert forall|j: int| i < j < pairs.len() implies pairs[j].0 != pairs[
                        i as int].0 by {
                        assert(self.expectations@[j].0@ != message_id@);
                    }
                    lemma_pairs_to_map_last_match(pairs, i as int);
                }
                let found = match &self.expectations[i].1 {
                    Some(rid) => Some(rid.clone()),
                    None => None,
                };
                return Some(found);
            }
        }
        proof {
            lemma_pairs_to_map_domain(self.expectation_pairs(), message_id@);
        }
        None
    }
}

/// The reply-ledger half of the duplicate-delivery guarantee, over states of
/// the consumed set: once an identifier has been accepted (so the consumed set
/// includes it), every later state — the set only ever grows — reports the
/// identifier invalid, so no second delivery of the same reply is accepted.
pub proof fn lemma_reply_accepted_at_most_once(
    earlier: Set<Seq<char>>,
    later: Set<Seq<char>>,
    reply_message_id: Seq<char>,
)
    requires
        earlier.insert(reply_message_id).subset_of(later),
    ensures
        !spec_reply_valid(later, reply_message_id),
{
    assert(earlier.insert(reply_message_id).contains(reply_message_id));
}

/// Validates an inbound email against the reply ledger and, when the email is
/// a reply, records its consumption in the same step, so that acting on it is
/// safe even under concurrent duplicate delivery. An email that is not a reply
/// passes unrecorded (it is routed to command handling). Fails with
/// `Validation` exactly when the email replies to an already-consumed
/// identifier; the rejection is silent to the sender — no notification is
/// emitted for a duplicate or replayed delivery.
pub fn accept_reply(email: &ParsedEmail, ledger: &mut ReplyLedger) -> (r: Result<(), EmailError>)
    ensures
        match email.in_reply_to {
            None => r is Ok && *final(ledger) == *old(ledger),
            Some(id) => {
                &&& (r is Ok <==> spec_reply_valid(old(ledger).consumed_ids(), id@))
                &&& (r matches Err(e) ==> e is Validation && *final(ledger) == *old(ledger))
                &&& (r is Ok ==> final(ledger).consumed_ids() == old(ledger).consumed_ids().insert(
                    id@,
                ) && final(ledger).expectations_map() == old(ledger).expectations_map())
            },
        },
{
    match &email.in_reply_to {
        None => Ok(()),
        Some(id) => {
            if ledger.consume_reply(id) {
                Ok(())
            } else {
                Err(EmailError::Validation)
            }
        },
    }
}

/// Whether an inbound email may be acted on. An email with no `In-Reply-To`
/// header is not a reply to anything tracked: it is reported valid here and
/// is to be routed to command handling, not to the reply pipeline. An email
/// that is a reply is valid exactly when its referenced identifier was never
/// consumed.
pub fn check_is_valid_request(email: &ParsedEmail, ledger: &ReplyLedger) -> (r: bool)
    ensures
        r == match email.in_reply_to {
            None => true,
            Some(id) => spec_reply_valid(ledger.consumed_ids(), id@),
        },
{
    match &email.in_reply_to {
        None => true,
        Some(id) => ledger.is_valid_reply(id),
    }
}

} // verus!
