use vstd::prelude::*;

use crate::session::{
    command_step, event_step, lemma_enqueue_wf, lemma_settle_wf, lemma_skip_ticket_wf, SessionView,
    Slot,
};
use crate::types::{Admission, Command, Event, Outcome, PeerKey, Reaction, Resolution};

verus! {

/// The ticket that a decision on a command resolves, if it resolves one.
pub open spec fn admission_ticket(a: Admission) -> Option<u64> {
    match a {
        Admission::Resolved(r) => Some(r.ticket),
        Admission::Pending(_) => None,
    }
}

/// The ticket that a reaction to an event resolves, if it resolves one.
pub open spec fn reaction_ticket(r: Reaction) -> Option<u64> {
    match r {
        Reaction::Resolve(res) => Some(res.ticket),
        Reaction::ResolveAndFinish(res, _) => Some(res.ticket),
        _ => None,
    }
}

/// The entry that a command would occupy; one resolved at once from the
/// network's answer occupies none.
pub open spec fn command_slot(c: Command) -> Option<Slot> {
    match c {
        Command::Listen { .. } => None,
        Command::Dial { peer } => Some(Slot::Dial(peer@)),
        Command::FindProviders { query } => Some(Slot::ProviderQuery(query)),
        Command::StartProviding { query } => match query {
            Ok(q) => Some(Slot::Provide(q)),
            Err(_) => None,
        },
        Command::FetchContent { request } => Some(Slot::ContentRequest(request)),
    }
}

/// Whether `e` is a terminal event of the operation pending under `slot`:
/// success, failure or the end of the query.
pub open spec fn terminates(slot: Slot, e: Event) -> bool {
    match slot {
        Slot::Dial(k) => match e {
            Event::Connected { peer, as_dialer } => as_dialer && peer@ == k,
            Event::DialFailed { target, .. } => target matches Some(p) && p@ == k,
            _ => false,
        },
        Slot::ProviderQuery(q) => match e {
            Event::ProvidersFound { query, .. } => query == q,
            Event::ProvidersExhausted { query } => query == q,
            _ => false,
        },
        Slot::Provide(q) => match e {
            Event::ProvideDone { query } => query == q,
            _ => false,
        },
        Slot::ContentRequest(r) => match e {
            Event::Response { request, .. } => request == r,
            Event::RequestFailed { request, .. } => request == r,
            _ => false,
        },
    }
}

/// Every command's caller is accounted for: the command's ticket is the next
/// one, and it is either resolved at once or waits in the ledger; every
/// ticket that waited before still waits, and the ledger stays sound.
pub proof fn law_command_accounted(m: SessionView, c: Command)
    requires
        m.wf(),
        m.next_ticket < u64::MAX,
    ensures
        ({
            let (n, a) = command_step(m, c);
            &&& n.wf()
            &&& n.next_ticket == m.next_ticket + 1
            &&& match a {
                Admission::Resolved(r) => r.ticket == m.next_ticket && n.resolved(r.ticket),
                Admission::Pending(t) => t == m.next_ticket && n.waiting.contains_key(t),
            }
            &&& forall|t: u64| #[trigger]
                m.waiting.contains_key(t) ==> n.waiting.contains_key(t) && n.waiting[t]
                    == m.waiting[t]
        }),
{
    lemma_skip_ticket_wf(m);
    match command_slot(c) {
        Some(s) => {
            if !m.pending(s) {
                lemma_enqueue_wf(m, s);
            }
        },
        None => {},
    }
}

/// An event resolves at most one ticket, and only one that waited: every
/// other waiting ticket still waits, and no new ticket starts to wait.
pub proof fn law_event_resolves_at_most_one(m: SessionView, e: Event)
    requires
        m.wf(),
    ensures
        ({
            let (n, r) = event_step(m, e);
            &&& n.wf()
            &&& n.next_ticket == m.next_ticket
            &&& (reaction_ticket(r) matches Some(t) ==> m.waiting.contains_key(t) && n.resolved(t))
            &&& forall|t: u64| #[trigger]
                n.waiting.contains_key(t) <==> (m.waiting.contains_key(t) && reaction_ticket(r)
                    != Some(t))
        }),
{
    let (n, r) = event_step(m, e);
    match e {
        Event::Connected { peer, as_dialer } => {
            if as_dialer && m.pending(Slot::Dial(peer@)) {
                lemma_settle_wf(m, Slot::Dial(peer@));
            }
        },
        Event::DialFailed { target, reason } => {
            if let Some(p) = target {
                if m.pending(Slot::Dial(p@)) {
                    lemma_settle_wf(m, Slot::Dial(p@));
                }
            }
        },
        Event::ProvideDone { query } => {
            if m.pending(Slot::Provide(query)) {
                lemma_settle_wf(m, Slot::Provide(query));
            }
        },
        Event::ProvidersFound { query, providers } => {
            if m.pending(Slot::ProviderQuery(query)) {
                lemma_settle_wf(m, Slot::ProviderQuery(query));
            }
        },
        Event::ProvidersExhausted { query } => {
            if m.pending(Slot::ProviderQuery(query)) {
                lemma_settle_wf(m, Slot::ProviderQuery(query));
            }
        },
        Event::Response { request, payload } => {
            if m.pending(Slot::ContentRequest(request)) {
                lemma_settle_wf(m, Slot::ContentRequest(request));
            }
        },
        Event::RequestFailed { request, reason } => {
            if m.pending(Slot::ContentRequest(request)) {
                lemma_settle_wf(m, Slot::ContentRequest(request));
            }
        },
        _ => {},
    }
}

/// A resolved ticket is never resolved again: no later command or event
/// resolves it, and it stays resolved.
pub proof fn law_resolved_stays_resolved(m: SessionView, t: u64, c: Command, e: Event)
    requires
        m.wf(),
        m.resolved(t),
        m.next_ticket < u64::MAX,
    ensures
        admission_ticket(command_step(m, c).1) != Some(t),
        command_step(m, c).0.resolved(t),
        reaction_ticket(event_step(m, e).1) != Some(t),
        event_step(m, e).0.resolved(t),
{
    law_command_accounted(m, c);
    law_event_resolves_at_most_one(m, e);
}

/// The terminal event of a pending operation resolves the ticket that waits
/// on it, so each caller hears once the network ends its operation.
pub proof fn law_terminal_event_resolves(m: SessionView, t: u64, e: Event)
    requires
        m.wf(),
        m.waiting.contains_key(t),
        terminates(m.waiting[t], e),
    ensures
        reaction_ticket(event_step(m, e).1) == Some(t),
        event_step(m, e).0.resolved(t),
{
    law_event_resolves_at_most_one(m, e);
    let s = m.waiting[t];
    assert(m.pending(s) && m.ticket_at(s) == t);
}

/// A command whose entry is taken leaves that entry as it was: a second dial
/// to a peer is refused with `DialInProgress`, and a query or request under a
/// pending identifier with `DuplicateId`, each at once and on its own ticket.
pub proof fn law_taken_entry_kept(m: SessionView, c: Command)
    requires
        m.wf(),
        m.next_ticket < u64::MAX,
        command_slot(c) matches Some(s) && m.pending(s),
    ensures
        ({
            let (n, a) = command_step(m, c);
            let s = command_slot(c).unwrap();
            &&& n.dials == m.dials
            &&& n.queries == m.queries
            &&& n.provides == m.provides
            &&& n.requests == m.requests
            &&& n.waiting == m.waiting
            &&& a == Admission::Resolved(
                Resolution {
                    ticket: m.next_ticket,
                    outcome: if s is Dial {
                        Outcome::DialInProgress
                    } else {
                        Outcome::DuplicateId
                    },
                },
            )
        }),
{
}

/// First answer wins: a get-providers query whose first event is a batch of
/// providers resolves its caller with that batch and asks to stop the query;
/// the query's end, coming after, changes nothing and resolves nobody.
pub proof fn law_first_answer_wins(m: SessionView, query: u64, providers: Vec<PeerKey>)
    requires
        m.wf(),
        m.pending(Slot::ProviderQuery(query)),
    ensures
        ({
            let (m1, r1) = event_step(m, Event::ProvidersFound { query, providers });
            let (m2, r2) = event_step(m1, Event::ProvidersExhausted { query });
            &&& r1 == Reaction::ResolveAndFinish(
                Resolution { ticket: m.queries[query], outcome: Outcome::Providers(providers) },
                query,
            )
            &&& m1.resolved(m.queries[query])
            &&& r2 == Reaction::Nothing
            &&& m2 == m1
        }),
{
    lemma_settle_wf(m, Slot::ProviderQuery(query));
}

/// One dial per peer: of two dials to the same peer, the second is refused at
/// once while the first is pending, and the connection resolves the first
/// caller alone; afterwards both are resolved and no dial to the peer waits.
pub proof fn law_one_dial_per_peer(m: SessionView, peer: PeerKey)
    requires
        m.wf(),
        m.next_ticket < u64::MAX - 1,
        !m.pending(Slot::Dial(peer@)),
    ensures
        ({
            let (m1, a1) = command_step(m, Command::Dial { peer });
            let (m2, a2) = command_step(m1, Command::Dial { peer });
            let (m3, r3) = event_step(m2, Event::Connected { peer, as_dialer: true });
            &&& a1 == Admission::Pending(m.next_ticket)
            &&& a2 == Admission::Resolved(
                Resolution { ticket: (m.next_ticket + 1) as u64, outcome: Outcome::DialInProgress },
            )
            &&& r3 == Reaction::Resolve(
                Resolution { ticket: m.next_ticket, outcome: Outcome::Connected },
            )
            &&& m3.resolved(m.next_ticket)
            &&& m3.resolved((m.next_ticket + 1) as u64)
            &&& !m3.pending(Slot::Dial(peer@))
        }),
{
    let s = Slot::Dial(peer@);
    lemma_enqueue_wf(m, s);
    let (m1, a1) = command_step(m, Command::Dial { peer });
    lemma_skip_ticket_wf(m1);
    let (m2, a2) = command_step(m1, Command::Dial { peer });
    lemma_settle_wf(m2, s);
}

} // verus!
