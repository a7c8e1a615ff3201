use vstd::prelude::*;

use crate::table::{OpTable, PeerTable};
use crate::types::{Admission, Command, Defect, Event, Outcome, PeerKey, Reaction, Resolution};

verus! {

/// Where the ticket of a waiting caller is recorded: the table and the key.
pub ghost enum Slot {
    Dial(Seq<u8>),
    ProviderQuery(u64),
    Provide(u64),
    ContentRequest(u64),
}

/// The abstract state of a session: one table per operation kind, the next
/// ticket to hand out, and the ledger of tickets that still wait.
pub ghost struct SessionView {
    pub dials: Map<Seq<u8>, u64>,
    pub queries: Map<u64, u64>,
    pub provides: Map<u64, u64>,
    pub requests: Map<u64, u64>,
    pub next_ticket: u64,
    pub waiting: Map<u64, Slot>,
}

impl SessionView {
    /// Whether `slot` is pending.
    pub open spec fn pending(self, slot: Slot) -> bool {
        match slot {
            Slot::Dial(k) => self.dials.contains_key(k),
            Slot::ProviderQuery(q) => self.queries.contains_key(q),
            Slot::Provide(q) => self.provides.contains_key(q),
            Slot::ContentRequest(r) => self.requests.contains_key(r),
        }
    }

    /// The ticket recorded under a pending `slot`.
    pub open spec fn ticket_at(self, slot: Slot) -> u64 {
        match slot {
            Slot::Dial(k) => self.dials[k],
            Slot::ProviderQuery(q) => self.queries[q],
            Slot::Provide(q) => self.provides[q],
            Slot::ContentRequest(r) => self.requests[r],
        }
    }

    /// The ledger: every table entry is a waiting ticket recorded under that
    /// very entry, and every waiting ticket was handed out and sits in the
    /// table that the ledger names. So no ticket waits twice, and a ticket
    /// handed out either waits in exactly one place or has been resolved.
    pub open spec fn wf(self) -> bool {
        &&& forall|k: Seq<u8>| #[trigger]
            self.dials.contains_key(k) ==> self.waiting.contains_key(self.dials[k])
                && self.waiting[self.dials[k]] == Slot::Dial(k)
        &&& forall|q: u64| #[trigger]
            self.queries.contains_key(q) ==> self.waiting.contains_key(self.queries[q])
                && self.waiting[self.queries[q]] == Slot::ProviderQuery(q)
        &&& forall|q: u64| #[trigger]
            self.provides.contains_key(q) ==> self.waiting.contains_key(self.provides[q])
                && self.waiting[self.provides[q]] == Slot::Provide(q)
        &&& forall|r: u64| #[trigger]
            self.requests.contains_key(r) ==> self.waiting.contains_key(self.requests[r])
                && self.waiting[self.requests[r]] == Slot::ContentRequest(r)
        &&& forall|t: u64| #[trigger]
            self.waiting.contains_key(t) ==> t < self.next_ticket && self.pending(self.waiting[t])
                && self.ticket_at(self.waiting[t]) == t
    }

    /// Ticket `t` was handed out and its caller has had its outcome.
    pub open spec fn resolved(self, t: u64) -> bool {
        t < self.next_ticket && !self.waiting.contains_key(t)
    }
}

/// The state after a ticket is handed out and resolved at once.
pub open spec fn skip_ticket(m: SessionView) -> SessionView {
    SessionView { next_ticket: (m.next_ticket + 1) as u64, ..m }
}

/// The state after the next ticket starts to wait under `slot`.
pub open spec fn enqueue(m: SessionView, slot: Slot) -> SessionView {
    let t = m.next_ticket;
    let n = SessionView { next_ticket: (t + 1) as u64, waiting: m.waiting.insert(t, slot), ..m };
    match slot {
        Slot::Dial(k) => SessionView { dials: m.dials.insert(k, t), ..n },
        Slot::ProviderQuery(q) => SessionView { queries: m.queries.insert(q, t), ..n },
        Slot::Provide(q) => SessionView { provides: m.provides.insert(q, t), ..n },
        Slot::ContentRequest(r) => SessionView { requests: m.requests.insert(r, t), ..n },
    }
}

/// The state after the ticket under `slot` is resolved.
pub open spec fn settle(m: SessionView, slot: Slot) -> SessionView {
    let n = SessionView { waiting: m.waiting.remove(m.ticket_at(slot)), ..m };
    match slot {
        Slot::Dial(k) => SessionView { dials: m.dials.remove(k), ..n },
        Slot::ProviderQuery(q) => SessionView { queries: m.queries.remove(q), ..n },
        Slot::Provide(q) => SessionView { provides: m.provides.remove(q), ..n },
        Slot::ContentRequest(r) => SessionView { requests: m.requests.remove(r), ..n },
    }
}

/// A command that waits under `slot` unless `slot` is taken, in which case
/// the caller gets `refusal` at once and the pending entry stays as it was.
pub open spec fn enqueue_or_refuse(m: SessionView, slot: Slot, refusal: Outcome) -> (
    SessionView,
    Admission,
) {
    if m.pending(slot) {
        (
            skip_ticket(m),
            Admission::Resolved(Resolution { ticket: m.next_ticket, outcome: refusal }),
        )
    } else {
        (enqueue(m, slot), Admission::Pending(m.next_ticket))
    }
}

/// The outcome of a listen from the network's immediate answer.
pub open spec fn listen_outcome(bound: Result<(), String>) -> Outcome {
    match bound {
        Ok(_) => Outcome::Listening,
        Err(reason) => Outcome::ListenFailed(reason),
    }
}

/// What the engine does on a command: the new state and its decision.
pub open spec fn command_step(m: SessionView, c: Command) -> (SessionView, Admission) {
    match c {
        Command::Listen { bound } => (
            skip_ticket(m),
            Admission::Resolved(
                Resolution { ticket: m.next_ticket, outcome: listen_outcome(bound) },
            ),
        ),
        Command::Dial { peer } => enqueue_or_refuse(m, Slot::Dial(peer@), Outcome::DialInProgress),
        Command::FindProviders { query } => enqueue_or_refuse(
            m,
            Slot::ProviderQuery(query),
            Outcome::DuplicateId,
        ),
        Command::StartProviding { query } => match query {
            Ok(q) => enqueue_or_refuse(m, Slot::Provide(q), Outcome::DuplicateId),
            Err(reason) => (
                skip_ticket(m),
                Admission::Resolved(
                    Resolution { ticket: m.next_ticket, outcome: Outcome::ProvideFailed(reason) },
                ),
            ),
        },
        Command::FetchContent { request } => enqueue_or_refuse(
            m,
            Slot::ContentRequest(request),
            Outcome::DuplicateId,
        ),
    }
}

/// Resolves the ticket under a pending `slot` with `outcome`.
pub open spec fn settle_with(m: SessionView, slot: Slot, outcome: Outcome) -> (
    SessionView,
    Reaction,
) {
    (settle(m, slot), Reaction::Resolve(Resolution { ticket: m.ticket_at(slot), outcome }))
}

/// What the engine does on a network event: the new state and its reaction.
pub open spec fn event_step(m: SessionView, e: Event) -> (SessionView, Reaction) {
    match e {
        Event::Connected { peer, as_dialer } => {
            if as_dialer && m.pending(Slot::Dial(peer@)) {
                settle_with(m, Slot::Dial(peer@), Outcome::Connected)
            } else {
                (m, Reaction::Nothing)
            }
        },
        Event::DialFailed { target, reason } => match target {
            Some(p) => {
                if m.pending(Slot::Dial(p@)) {
                    settle_with(m, Slot::Dial(p@), Outcome::DialFailed(reason))
                } else {
                    (m, Reaction::Nothing)
                }
            },
            None => (m, Reaction::Nothing),
        },
        Event::ProvideDone { query } => {
            if m.pending(Slot::Provide(query)) {
                settle_with(m, Slot::Provide(query), Outcome::Providing)
            } else {
                (m, Reaction::Defect(Defect::UnknownQuery(query)))
            }
        },
        Event::ProvidersFound { query, providers } => {
            let slot = Slot::ProviderQuery(query);
            if m.pending(slot) {
                (
                    settle(m, slot),
                    Reaction::ResolveAndFinish(
                        Resolution { ticket: m.ticket_at(slot), outcome: Outcome::Providers(providers) },
                        query,
                    ),
                )
            } else {
                (m, Reaction::Nothing)
            }
        },
        Event::ProvidersExhausted { query } => {
            if m.pending(Slot::ProviderQuery(query)) {
                settle_with(m, Slot::ProviderQuery(query), Outcome::NoProviders)
            } else {
                (m, Reaction::Nothing)
            }
        },
        Event::Response { request, payload } => {
            if m.pending(Slot::ContentRequest(request)) {
                settle_with(m, Slot::ContentRequest(request), Outcome::Content(payload))
            } else {
                (m, Reaction::Defect(Defect::UnknownRequest(request)))
            }
        },
        Event::RequestFailed { request, reason } => {
            if m.pending(Slot::ContentRequest(request)) {
                settle_with(m, Slot::ContentRequest(request), Outcome::FetchFailed(reason))
            } else {
                (m, Reaction::Defect(Defect::UnknownRequest(request)))
            }
        },
        Event::InboundRequest { key } => (m, Reaction::Forward(key)),
        Event::Informational => (m, Reaction::Nothing),
        Event::Unrecognized { description } => (
            m,
            Reaction::Defect(Defect::UnhandledEvent(description)),
        ),
    }
}

/// Handing out a ticket that is resolved at once keeps the ledger.
pub proof fn lemma_skip_ticket_wf(m: SessionView)
    requires
        m.wf(),
        m.next_ticket < u64::MAX,
    ensures
        skip_ticket(m).wf(),
{
}

/// A ticket that starts to wait under a free slot keeps the ledger.
pub proof fn lemma_enqueue_wf(m: SessionView, slot: Slot)
    requires
        m.wf(),
        !m.pending(slot),
        m.next_ticket < u64::MAX,
    ensures
        enqueue(m, slot).wf(),
        enqueue(m, slot).pending(slot),
        enqueue(m, slot).ticket_at(slot) == m.next_ticket,
{
    let n = enqueue(m, slot);
    assert(!m.waiting.contains_key(m.next_ticket));
    assert forall|t: u64| #[trigger] n.waiting.contains_key(t) implies t < n.next_ticket
        && n.pending(n.waiting[t]) && n.ticket_at(n.waiting[t]) == t by {
        if t != m.next_ticket {
            assert(m.waiting.contains_key(t));
            let s = m.waiting[t];
            assert(m.pending(s) && m.ticket_at(s) == t);
            assert(s != slot);
        }
    }
}

/// Resolving the ticket under a pending slot keeps the ledger.
pub proof fn lemma_settle_wf(m: SessionView, slot: Slot)
    requires
        m.wf(),
        m.pending(slot),
    ensures
        settle(m, slot).wf(),
        !settle(m, slot).pending(slot),
        m.waiting.contains_key(m.ticket_at(slot)),
        m.waiting[m.ticket_at(slot)] == slot,
        settle(m, slot).waiting == m.waiting.remove(m.ticket_at(slot)),
        settle(m, slot).next_ticket == m.next_ticket,
{
    let n = settle(m, slot);
    let gone = m.ticket_at(slot);
    match slot {
        Slot::Dial(k) => assert(m.dials.contains_key(k)),
        Slot::ProviderQuery(q) => assert(m.queries.contains_key(q)),
        Slot::Provide(q) => assert(m.provides.contains_key(q)),
        Slot::ContentRequest(r) => assert(m.requests.contains_key(r)),
    }
    assert forall|t: u64| #[trigger] n.waiting.contains_key(t) implies t < n.next_ticket
        && n.pending(n.waiting[t]) && n.ticket_at(n.waiting[t]) == t by {
        assert(m.waiting.contains_key(t));
        let s = m.waiting[t];
        assert(m.pending(s) && m.ticket_at(s) == t);
        assert(s != slot);
    }
    assert forall|k: Seq<u8>| #[trigger] n.dials.contains_key(k) implies n.waiting.contains_key(
        n.dials[k],
    ) && n.waiting[n.dials[k]] == Slot::Dial(k) by {
        assert(m.dials.contains_key(k));
        assert(Slot::Dial(k) != slot);
    }
    assert forall|q: u64| #[trigger] n.queries.contains_key(q) implies n.waiting.contains_key(
        n.queries[q],
    ) && n.waiting[n.queries[q]] == Slot::ProviderQuery(q) by {
        assert(m.queries.contains_key(q));
        assert(Slot::ProviderQuery(q) != slot);
    }
    assert forall|q: u64| #[trigger] n.provides.contains_key(q) implies n.waiting.contains_key(
        n.provides[q],
    ) && n.waiting[n.provides[q]] == Slot::Provide(q) by {
        assert(m.provides.contains_key(q));
        assert(Slot::Provide(q) != slot);
    }
    assert forall|r: u64| #[trigger] n.requests.contains_key(r) implies n.waiting.contains_key(
        n.requests[r],
    ) && n.waiting[n.requests[r]] == Slot::ContentRequest(r) by {
        assert(m.requests.contains_key(r));
        assert(Slot::ContentRequest(r) != slot);
    }
}


/// The session engine: the single owner of the pending-operation tables.
///
/// Every command gets a ticket, which stands for the caller's result channel.
/// The engine resolves each ticket exactly once: at once, or on the terminal
/// network event of the operation it waits on.
pub struct Session {
    dials: PeerTable,
    queries: OpTable,
    provides: OpTable,
    requests: OpTable,
    next_ticket: u64,
    waiting: Ghost<Map<u64, Slot>>,
}

impl View for Session {
    type V = SessionView;

    closed spec fn view(&self) -> SessionView {
        SessionView {
            dials: self.dials@,
            queries: self.queries@,
            provides: self.provides@,
            requests: self.requests@,
            next_ticket: self.next_ticket,
            waiting: self.waiting@,
        }
    }
}

impl Session {
    /// The session's invariant.
    pub open spec fn wf(&self) -> bool {
        self@.wf()
    }

    /// A session with nothing pending, whose first ticket is 0.
    pub fn new() -> (r: Session)
        ensures
            r.wf(),
            r@.next_ticket == 0,
            r@.dials == (Map::<Seq<u8>, u64>::empty()),
            r@.queries == (Map::<u64, u64>::empty()),
            r@.provides == (Map::<u64, u64>::empty()),
            r@.requests == (Map::<u64, u64>::empty()),
            r@.waiting == (Map::<u64, Slot>::empty()),
    {
        Session {
            dials: PeerTable::new(),
            queries: OpTable::new(),
            provides: OpTable::new(),
            requests: OpTable::new(),
            next_ticket: 0,
            waiting: Ghost(Map::empty()),
        }
    }

    /// Whether a ticket is left for another command.
    pub fn can_accept(&self) -> (r: bool)
        ensures
            r == (self@.next_ticket < u64::MAX),
    {
        self.next_ticket < u64::MAX
    }

    /// The ticket that the next command gets.
    pub fn next_ticket(&self) -> (r: u64)
        ensures
            r == self@.next_ticket,
    {
        self.next_ticket
    }

    /// Whether a dial to `peer` is pending.
    pub fn dial_pending(&self, peer: &PeerKey) -> (r: bool)
        ensures
            r == self@.pending(Slot::Dial(peer@)),
    {
        self.dials.contains(peer.bytes.as_slice())
    }

    /// Whether the get-providers query `query` is pending.
    pub fn query_pending(&self, query: u64) -> (r: bool)
        ensures
            r == self@.pending(Slot::ProviderQuery(query)),
    {
        self.queries.contains(query)
    }

    /// Whether the start-providing query `query` is pending.
    pub fn provide_pending(&self, query: u64) -> (r: bool)
        ensures
            r == self@.pending(Slot::Provide(query)),
    {
        self.provides.contains(query)
    }

    /// Whether the content request `request` is pending.
    pub fn request_pending(&self, request: u64) -> (r: bool)
        ensures
            r == self@.pending(Slot::ContentRequest(request)),
    {
        self.requests.contains(request)
    }

    /// Records the next ticket under the id of an operation of one kind, or
    /// resolves it at once with `DuplicateId` when that id is pending.
    fn enqueue_id(table: &mut OpTable, id: u64, ticket: u64) -> (r: Admission)
        ensures
            old(table)@.contains_key(id) ==> final(table)@ == old(table)@ && r == Admission::Resolved(
                Resolution { ticket, outcome: Outcome::DuplicateId },
            ),
            !old(table)@.contains_key(id) ==> final(table)@ == old(table)@.insert(id, ticket)
                && r == Admission::Pending(ticket),
    {
        match table.insert(id, ticket) {
            Ok(()) => Admission::Pending(ticket),
            Err(_) => Admission::Resolved(Resolution { ticket, outcome: Outcome::DuplicateId }),
        }
    }

    /// Decides on a command and hands out its ticket.
    ///
    /// A listen, and a start-providing that the DHT refused, are resolved at
    /// once from the network's answer. A dial waits
    /// unless a dial to the same peer is pending: then it is refused at once
    /// with `DialInProgress`, and the pending dial keeps its caller. A query or
    /// a request waits under the id that the network gave it, unless that id
    /// is pending: then it is refused at once with `DuplicateId`, and the
    /// pending entry is kept.
    pub fn handle_command(&mut self, cmd: Command) -> (r: Admission)
        requires
            old(self).wf(),
            old(self)@.next_ticket < u64::MAX,
        ensures
            final(self).wf(),
            (final(self)@, r) == command_step(old(self)@, cmd),
    {
        let ticket = self.next_ticket;
        let ghost m = self@;
        proof {
            lemma_skip_ticket_wf(m);
        }
        match cmd {
            Command::Listen { bound } => {
                self.next_ticket = ticket + 1;
                let outcome = match bound {
                    Ok(()) => Outcome::Listening,
                    Err(reason) => Outcome::ListenFailed(reason),
                };
                Admission::Resolved(Resolution { ticket, outcome })
            },
            Command::Dial { peer } => {
                let ghost key = peer@;
                match self.dials.insert(peer.bytes, ticket) {
                    Ok(()) => {
                        proof {
                            lemma_enqueue_wf(m, Slot::Dial(key));
                        }
                        self.waiting = Ghost(self.waiting@.insert(ticket, Slot::Dial(key)));
                        self.next_ticket = ticket + 1;
                        assert(self@ == enqueue(m, Slot::Dial(key)));
                        Admission::Pending(ticket)
                    },
                    Err(_) => {
                        self.next_ticket = ticket + 1;
                        assert(self@ == skip_ticket(m));
                        Admission::Resolved(Resolution { ticket, outcome: Outcome::DialInProgress })
                    },
                }
            },
            Command::FindProviders { query } => {
                let r = Session::enqueue_id(&mut self.queries, query, ticket);
                if let Admission::Pending(_) = r {
                    proof {
                        lemma_enqueue_wf(m, Slot::ProviderQuery(query));
                    }
                    self.waiting = Ghost(self.waiting@.insert(ticket, Slot::ProviderQuery(query)));
                }
                self.next_ticket = ticket + 1;
                r
            },
            Command::StartProviding { query } => match query {
                Ok(q) => {
                    let r = Session::enqueue_id(&mut self.provides, q, ticket);
                    if let Admission::Pending(_) = r {
                        proof {
                            lemma_enqueue_wf(m, Slot::Provide(q));
                        }
                        self.waiting = Ghost(self.waiting@.insert(ticket, Slot::Provide(q)));
                    }
                    self.next_ticket = ticket + 1;
                    r
                },
                Err(reason) => {
                    self.next_ticket = ticket + 1;
                    Admission::Resolved(Resolution { ticket, outcome: Outcome::ProvideFailed(reason) })
                },
            },
            Command::FetchContent { request } => {
                let r = Session::enqueue_id(&mut self.requests, request, ticket);
                if let Admission::Pending(_) = r {
                    proof {
                        lemma_enqueue_wf(m, Slot::ContentRequest(request));
                    }
                    self.waiting = Ghost(
                        self.waiting@.insert(ticket, Slot::ContentRequest(request)),
                    );
                }
                self.next_ticket = ticket + 1;
                r
            },
        }
    }

    /// Decides on a network event.
    ///
    /// A terminal event of a pending operation removes its entry and resolves
    /// the ticket that waited on it. A found batch of providers resolves the
    /// query with that batch and asks to stop the query: the first answer
    /// wins, and a later batch or the query's end finds no entry and does
    /// nothing. A query that ends with no provider found resolves with
    /// `NoProviders`. A dial event for a peer that no caller dials does
    /// nothing, as the DHT dials peers of its own. A start-providing
    /// completion, a response or a request failure that no entry waits on is
    /// a defect, as is an event of an unknown kind. An inbound request is
    /// forwarded to the application.
    pub fn handle_event(&mut self, event: Event) -> (r: Reaction)
        requires
            old(self).wf(),
        ensures
            final(self).wf(),
            (final(self)@, r) == event_step(old(self)@, event),
    {
        let ghost m = self@;
        match event {
            Event::Connected { peer, as_dialer } => {
                if as_dialer {
                    match self.dials.remove(peer.bytes.as_slice()) {
                        Some(t) => {
                            proof {
                                lemma_settle_wf(m, Slot::Dial(peer@));
                            }
                            self.waiting = Ghost(self.waiting@.remove(t));
                            assert(self@ == settle(m, Slot::Dial(peer@)));
                            Reaction::Resolve(Resolution { ticket: t, outcome: Outcome::Connected })
                        },
                        None => Reaction::Nothing,
                    }
                } else {
                    Reaction::Nothing
                }
            },
            Event::DialFailed { target, reason } => match target {
                Some(p) => match self.dials.remove(p.bytes.as_slice()) {
                    Some(t) => {
                        proof {
                            lemma_settle_wf(m, Slot::Dial(p@));
                        }
                        self.waiting = Ghost(self.waiting@.remove(t));
                        assert(self@ == settle(m, Slot::Dial(p@)));
                        Reaction::Resolve(
                            Resolution { ticket: t, outcome: Outcome::DialFailed(reason) },
                        )
                    },
                    None => Reaction::Nothing,
                },
                None => Reaction::Nothing,
            },
            Event::ProvideDone { query } => match self.provides.remove(query) {
                Some(t) => {
                    proof {
                        lemma_settle_wf(m, Slot::Provide(query));
                    }
                    self.waiting = Ghost(self.waiting@.remove(t));
                    assert(self@ == settle(m, Slot::Provide(query)));
                    Reaction::Resolve(Resolution { ticket: t, outcome: Outcome::Providing })
                },
                None => Reaction::Defect(Defect::UnknownQuery(query)),
            },
            Event::ProvidersFound { query, providers } => match self.queries.remove(query) {
                Some(t) => {
                    proof {
                        lemma_settle_wf(m, Slot::ProviderQuery(query));
                    }
                    self.waiting = Ghost(self.waiting@.remove(t));
                    assert(self@ == settle(m, Slot::ProviderQuery(query)));
                    Reaction::ResolveAndFinish(
                        Resolution { ticket: t, outcome: Outcome::Providers(providers) },
                        query,
                    )
                },
                None => Reaction::Nothing,
            },
            Event::ProvidersExhausted { query } => match self.queries.remove(query) {
                Some(t) => {
                    proof {
                        lemma_settle_wf(m, Slot::ProviderQuery(query));
                    }
                    self.waiting = Ghost(self.waiting@.remove(t));
                    assert(self@ == settle(m, Slot::ProviderQuery(query)));
                    Reaction::Resolve(Resolution { ticket: t, outcome: Outcome::NoProviders })
                },
                None => Reaction::Nothing,
            },
            Event::Response { request, payload } => match self.requests.remove(request) {
                Some(t) => {
                    proof {
                        lemma_settle_wf(m, Slot::ContentRequest(request));
                    }
                    self.waiting = Ghost(self.waiting@.remove(t));
                    assert(self@ == settle(m, Slot::ContentRequest(request)));
                    Reaction::Resolve(Resolution { ticket: t, outcome: Outcome::Content(payload) })
                },
                None => Reaction::Defect(Defect::UnknownRequest(request)),
            },
            Event::RequestFailed { request, reason } => match self.requests.remove(request) {
                Some(t) => {
                    proof {
                        lemma_settle_wf(m, Slot::ContentRequest(request));
                    }
                    self.waiting = Ghost(self.waiting@.remove(t));
                    assert(self@ == settle(m, Slot::ContentRequest(request)));
                    Reaction::Resolve(
                        Resolution { ticket: t, outcome: Outcome::FetchFailed(reason) },
                    )
                },
                None => Reaction::Defect(Defect::UnknownRequest(request)),
            },
            Event::InboundRequest { key } => Reaction::Forward(key),
            Event::Informational => Reaction::Nothing,
            Event::Unrecognized { description } => Reaction::Defect(
                Defect::UnhandledEvent(description),
            ),
        }
    }
}

} // verus!
