use vstd::prelude::*;
use crate::error::EmailError;
use crate::kv::{
    lemma_pairs_to_map_domain, lemma_pairs_to_map_index, lemma_pairs_to_map_push,
    lemma_pairs_to_map_update, pairs_to_map, unique_keys,
};
use crate::mail::opt_string_view;
use crate::text::{augment_command, augmented_command};

verus! {

/// Where a request stands in its lifecycle. `Completed` and `Failed` are
/// terminal.
#[derive(Clone, Copy, Debug, PartialEq, Eq, Structural)]
pub enum RequestStatus {
    /// A command email was accepted and the request record persisted.
    Created,
    /// The acknowledgement notification was dispatched and its reply
    /// expectation registered.
    EmailSent,
    /// The verification, proof and chain-submission pipeline succeeded.
    Completed,
    /// A pipeline stage failed.
    Failed,
}

/// The one-step lifecycle relation: every transition a request may take.
/// Status only ever moves forward along `Created -> EmailSent -> (Completed |
/// Failed)`; no transition is reachable out of order or twice.
pub open spec fn advances(from: RequestStatus, to: RequestStatus) -> bool {
    match (from, to) {
        (RequestStatus::Created, RequestStatus::EmailSent) => true,
        (RequestStatus::EmailSent, RequestStatus::Completed) => true,
        (RequestStatus::EmailSent, RequestStatus::Failed) => true,
        _ => false,
    }
}

/// No further transition leaves these states.
pub open spec fn is_terminal(s: RequestStatus) -> bool {
    s is Completed || s is Failed
}

/// One authentication attempt: created when a command email is first
/// accepted, mutated only through the lifecycle store, never deleted.
#[derive(Debug)]
pub struct Request {
    pub id: String,
    pub email_address: String,
    /// The command text, already augmented with the account code qualifier
    /// when one was given.
    pub command: String,
    pub chain: String,
    pub status: RequestStatus,
    pub created_at: u64,
}

/// The mathematical image of a stored request, keyed separately by its
/// identifier in the store's map.
pub ghost struct RequestView {
    pub email_address: Seq<char>,
    pub command: Seq<char>,
    pub chain: Seq<char>,
    pub status: RequestStatus,
    pub created_at: u64,
}

impl View for Request {
    type V = RequestView;

    open spec fn view(&self) -> RequestView {
        RequestView {
            email_address: self.email_address@,
            command: self.command@,
            chain: self.chain@,
            status: self.status,
            created_at: self.created_at,
        }
    }
}

/// The persistent record of each request, used to drive and audit the state
/// machine. All writers go through `create_request` and `update_status`, so
/// the lifecycle invariant — identifiers unique, status advancing only along
/// `advances` — is enforced at this one boundary.
pub struct LifecycleStore {
    requests: Vec<Request>,
}

impl LifecycleStore {
    spec fn request_pairs(self) -> Seq<(Seq<char>, RequestView)> {
        self.requests@.map_values(|r: Request| (r.id@, r@))
    }

    /// Each request, by its identifier.
    pub closed spec fn requests_map(self) -> Map<Seq<char>, RequestView> {
        pairs_to_map(self.request_pairs())
    }

    /// Identifiers are unique for the lifetime of the store.
    pub closed spec fn wf(self) -> bool {
        unique_keys(self.request_pairs())
    }

    /// An empty store.
    pub fn new() -> (r: Self)
        ensures
            r.wf(),
            r.requests_map() == Map::<Seq<char>, RequestView>::empty(),
    {
        let r = LifecycleStore { requests: Vec::new() };
        proof {
            assert(r.request_pairs() =~= Seq::empty());
        }
        r
    }

    /// Persists a new request in status `Created`. The account code, when
    /// present, is appended to the command text as a qualifier before the
    /// text is stored. A request identifier already present is refused with
    /// `Conflict` and nothing changes.
    pub fn create_request(
        &mut self,
        request_id: &String,
        email_address: String,
        command: String,
        account_code: Option<String>,
        chain: String,
        created_at: u64,
    ) -> (r: Result<(), EmailError>)
        requires
            old(self).wf(),
        ensures
            final(self).wf(),
            r is Ok <==> !old(self).requests_map().contains_key(request_id@),
            r is Ok ==> final(self).requests_map() == old(self).requests_map().insert(
                request_id@,
                RequestView {
                    email_address: email_address@,
                    command: augmented_command(command@, opt_string_view(account_code)),
                    chain: chain@,
                    status: RequestStatus::Created,
                    created_at: created_at,
                },
            ),
            r is Err ==> (r matches Err(e) && e is Conflict) && *final(self) == *old(self),
    {
        let n = self.requests.len();
        let mut i: usize = 0;
        while i < n
            invariant
                0 <= i <= n,
                *self == *old(self),
                self.wf(),
                n == self.requests@.len(),
                forall|j: int| 0 <= j < i ==> self.requests@[j].id@ != request_id@,
            decreases n - i,
        {
            if self.requests[i].id == *request_id {
                proof {
                    let pairs = old(self).request_pairs();
                    assert(pairs[i as int].0 == request_id@);
                    assert(exists|j: int| 0 <= j < pairs.len() && pairs[j].0 == request_id@);
                    lemma_pairs_to_map_domain(pairs, request_id@);
                }
                return Err(EmailError::Conflict);
            }
            i += 1;
        }
        proof {
            lemma_pairs_to_map_domain(old(self).request_pairs(), request_id@);
        }
        let stored_command = augment_command(&command, &account_code);
        let req = Request {
            id: request_id.clone(),
            email_address: email_address,
            command: stored_command,
            chain: chain,
            status: RequestStatus::Created,
            created_at: created_at,
        };
        let ghost new_view = req@;
        self.requests.push(req);
        proof {
            let oldp = old(self).request_pairs();
            assert(self.request_pairs() =~= oldp.push((request_id@, new_view)));
            lemma_pairs_to_map_push(oldp, request_id@, new_view);
            assert forall|x: int, y: int|
                0 <= x < self.request_pairs().len() && 0 <= y < self.request_pairs().len() && x
                    != y implies self.request_pairs()[x].0 != self.request_pairs()[y].0 by {
                if x < oldp.len() && y < oldp.len() {
                    assert(oldp[x].0 != oldp[y].0);
                } else if x < oldp.len() {
                    assert(old(self).requests@[x].id@ != request_id@);
                } else if y < oldp.len() {
                    assert(old(self).requests@[y].id@ != request_id@);
                }
            }
        }
        Ok(())
    }

    /// Advances the named request's status. Fails with `NotFound` when no
    /// request carries the identifier, and with `Conflict` when the requested
    /// transition is not one lifecycle step forward — a terminal request, in
    /// particular, never moves again. On failure nothing changes.
    pub fn update_status(&mut self, request_id: &String, new_status: RequestStatus) -> (r: Result<
        (),
        EmailError,
    >)
        requires
            old(self).wf(),
        ensures
            final(self).wf(),
            !old(self).requests_map().contains_key(request_id@) ==> (r matches Err(e)
                && e is NotFound) && *final(self) == *old(self),
            old(self).requests_map().contains_key(request_id@) && !advances(
                old(self).requests_map()[request_id@].status,
                new_status,
            ) ==> (r matches Err(e) && e is Conflict) && *final(self) == *old(self),
            old(self).requests_map().contains_key(request_id@) && is_terminal(
                old(self).requests_map()[request_id@].status,
            ) ==> r is Err,
            old(self).requests_map().contains_key(request_id@) && advances(
                old(self).requests_map()[request_id@].status,
                new_status,
            ) ==> r is Ok && final(self).requests_map() == old(self).requests_map().insert(
                request_id@,
                RequestView { status: new_status, ..old(self).requests_map()[request_id@] },
            ),
    {
        let n = self.requests.len();
        let mut i: usize = 0;
        while i < n
            invariant
                0 <= i <= n,
                *self == *old(self),
                self.wf(),
                n == self.requests@.len(),
                forall|j: int| 0 <= j < i ==> self.requests@[j].id@ != request_id@,
            decreases n - i,
        {
            if self.requests[i].id == *request_id {
                proof {
                    let pairs = old(self).request_pairs();
                    assert(pairs[i as int].0 == request_id@);
                    lemma_pairs_to_map_index(pairs, i as int);
                }
                if !status_advances(self.requests[i].status, new_status) {
                    return Err(EmailError::Conflict);
                }
                let ghost old_view = self.requests@[i as int]@;
                self.requests[i].status = new_status;
                proof {
                    let oldp = old(self).request_pairs();
                    let updated = RequestView { status: new_status, ..old_view };
                    assert(self.requests@[i as int]@ == updated);
                    assert(self.request_pairs() =~= oldp.update(
                        i as int,
                        (request_id@, updated),
                    ));
                    lemma_pairs_to_map_update(oldp, i as int, updated);
                    assert forall|x: int, y: int|
                        0 <= x < self.request_pairs().len() && 0 <= y
                            < self.request_pairs().len() && x != y implies self.request_pairs()[
                        x].0 != self.request_pairs()[y].0 by {
                        assert(oldp[x].0 != oldp[y].0);
                        assert(self.request_pairs()[x].0 == oldp[x].0);
                        assert(self.request_pairs()[y].0 == oldp[y].0);
                    }
                }
                return Ok(());
            }
            i += 1;
        }
        proof {
            lemma_pairs_to_map_domain(old(self).request_pairs(), request_id@);
        }
        Err(EmailError::NotFound)
    }

    /// The named request's current status, when it exists.
    pub fn get_status(&self, request_id: &String) -> (r: Option<RequestStatus>)
        requires
            self.wf(),
        ensures
            match r {
                Some(s) => self.requests_map().contains_key(request_id@) && self.requests_map()[
                    request_id@].status == s,
                None => !self.requests_map().contains_key(request_id@),
            },
    {
        let n = self.requests.len();
        let mut i: usize = 0;
        while i < n
            invariant
                0 <= i <= n,
                self.wf(),
                n == self.requests@.len(),
                forall|j: int| 0 <= j < i ==> self.requests@[j].id@ != request_id@,
            decreases n - i,
        {
            if self.requests[i].id == *request_id {
                proof {
                    let pairs = self.request_pairs();
                    assert(pairs[i as int].0 == request_id@);
                    lemma_pairs_to_map_index(pairs, i as int);
                }
                return Some(self.requests[i].status);
            }
            i += 1;
        }
        proof {
            lemma_pairs_to_map_domain(self.request_pairs(), request_id@);
        }
        None
    }
}

impl LifecycleStore {
    /// The named request's stored command text — already augmented with the
    /// account code qualifier — when the request exists; retained for audit.
    pub fn get_command(&self, request_id: &String) -> (r: Option<String>)
        requires
            self.wf(),
        ensures
            match r {
                Some(command) => self.requests_map().contains_key(request_id@)
                    && self.requests_map()[request_id@].command == command@,
                None => !self.requests_map().contains_key(request_id@),
            },
    {
        let n = self.requests.len();
        let mut i: usize = 0;
        while i < n
            invariant
                0 <= i <= n,
                self.wf(),
                n == self.requests@.len(),
                forall|j: int| 0 <= j < i ==> self.requests@[j].id@ != request_id@,
            decreases n - i,
        {
            if self.requests[i].id == *request_id {
                proof {
                    let pairs = self.request_pairs();
                    assert(pairs[i as int].0 == request_id@);
                    lemma_pairs_to_map_index(pairs, i as int);
                }
                return Some(self.requests[i].command.clone());
            }
            i += 1;
        }
        proof {
            lemma_pairs_to_map_domain(self.request_pairs(), request_id@);
        }
        None
    }
}

/// The executable image of `advances`.
pub fn status_advances(from: RequestStatus, to: RequestStatus) -> (r: bool)
    ensures
        r == advances(from, to),
{
    match (from, to) {
        (RequestStatus::Created, RequestStatus::EmailSent) => true,
        (RequestStatus::EmailSent, RequestStatus::Completed) => true,
        (RequestStatus::EmailSent, RequestStatus::Failed) => true,
        _ => false,
    }
}

/// A request's status sequence, observed over time — its status at creation
/// and after each accepted update — is always a (possibly partial) prefix of
/// `Created, EmailSent, Completed` or of `Created, EmailSent, Failed`: never
/// reordered, never repeated.
pub proof fn lemma_status_history_is_prefix(h: Seq<RequestStatus>)
    requires
        h.len() >= 1,
        h[0] is Created,
        forall|i: int, j: int|
            0 <= i && i + 1 == j && j < h.len() ==> advances(#[trigger] h[i], #[trigger] h[j]),
    ensures
        h.is_prefix_of(seq![RequestStatus::Created, RequestStatus::EmailSent, RequestStatus::Completed])
            || h.is_prefix_of(seq![RequestStatus::Created, RequestStatus::EmailSent, RequestStatus::Failed]),
{
    let c = seq![RequestStatus::Created, RequestStatus::EmailSent, RequestStatus::Completed];
    let f = seq![RequestStatus::Created, RequestStatus::EmailSent, RequestStatus::Failed];
    if h.len() >= 2 {
        assert(advances(h[0], h[1]));
        assert(h[1] is EmailSent);
    }
    if h.len() >= 3 {
        assert(advances(h[1], h[2]));
    }
    if h.len() >= 4 {
        assert(advances(h[2], h[3]));
        assert(false);
    }
    if h.len() == 1 {
        assert(h =~= c.subrange(0, 1));
    } else if h.len() == 2 {
        assert(h =~= c.subrange(0, 2));
    } else {
        if h[2] is Completed {
            assert(h =~= c.subrange(0, 3));
        } else {
            assert(h =~= f.subrange(0, 3));
        }
    }
}

} // verus!
