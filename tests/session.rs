use jubjub::session::Session;
use jubjub::table::{OpTable, PeerTable};
use jubjub::types::{Admission, Command, Defect, Event, Outcome, PeerKey, Reaction, Resolution};

fn peer(b: u8) -> PeerKey {
    PeerKey { bytes: vec![b, b, b] }
}

fn pending(a: Admission) -> u64 {
    match a {
        Admission::Pending(t) => t,
        other => panic!("expected a pending ticket, got {:?}", other),
    }
}

#[test]
fn listen_resolves_at_once() {
    let mut s = Session::new();
    assert_eq!(
        s.handle_command(Command::Listen { bound: Ok(()) }),
        Admission::Resolved(Resolution { ticket: 0, outcome: Outcome::Listening })
    );
    assert_eq!(
        s.handle_command(Command::Listen { bound: Err("address in use".to_string()) }),
        Admission::Resolved(Resolution {
            ticket: 1,
            outcome: Outcome::ListenFailed("address in use".to_string())
        })
    );
    assert_eq!(s.next_ticket(), 2);
}

#[test]
fn found_providers_then_exhausted_resolves_once() {
    let mut s = Session::new();
    let t = pending(s.handle_command(Command::FindProviders { query: 5 }));
    let found = s.handle_event(Event::ProvidersFound { query: 5, providers: vec![peer(1), peer(2)] });
    assert_eq!(
        found,
        Reaction::ResolveAndFinish(
            Resolution { ticket: t, outcome: Outcome::Providers(vec![peer(1), peer(2)]) },
            5
        )
    );
    assert_eq!(s.handle_event(Event::ProvidersExhausted { query: 5 }), Reaction::Nothing);
    assert_eq!(
        s.handle_event(Event::ProvidersFound { query: 5, providers: vec![peer(3)] }),
        Reaction::Nothing
    );
    assert!(!s.query_pending(5));
}

#[test]
fn exhausted_without_providers_resolves_empty() {
    let mut s = Session::new();
    let t = pending(s.handle_command(Command::FindProviders { query: 9 }));
    assert_eq!(
        s.handle_event(Event::ProvidersExhausted { query: 9 }),
        Reaction::Resolve(Resolution { ticket: t, outcome: Outcome::NoProviders })
    );
}

#[test]
fn second_dial_to_pending_peer_is_refused() {
    let mut s = Session::new();
    let first = pending(s.handle_command(Command::Dial { peer: peer(1) }));
    assert_eq!(
        s.handle_command(Command::Dial { peer: peer(1) }),
        Admission::Resolved(Resolution { ticket: first + 1, outcome: Outcome::DialInProgress })
    );
    assert_eq!(
        s.handle_event(Event::Connected { peer: peer(1), as_dialer: true }),
        Reaction::Resolve(Resolution { ticket: first, outcome: Outcome::Connected })
    );
    assert!(!s.dial_pending(&peer(1)));
    assert_eq!(
        s.handle_event(Event::Connected { peer: peer(1), as_dialer: true }),
        Reaction::Nothing
    );
}

#[test]
fn dial_to_other_peer_is_independent() {
    let mut s = Session::new();
    let a = pending(s.handle_command(Command::Dial { peer: peer(1) }));
    let b = pending(s.handle_command(Command::Dial { peer: peer(2) }));
    assert_ne!(a, b);
    assert_eq!(
        s.handle_event(Event::DialFailed { target: Some(peer(2)), reason: "unreachable".to_string() }),
        Reaction::Resolve(Resolution { ticket: b, outcome: Outcome::DialFailed("unreachable".to_string()) })
    );
    assert!(s.dial_pending(&peer(1)));
}

#[test]
fn listener_side_connection_resolves_no_dial() {
    let mut s = Session::new();
    let _ = pending(s.handle_command(Command::Dial { peer: peer(4) }));
    assert_eq!(
        s.handle_event(Event::Connected { peer: peer(4), as_dialer: false }),
        Reaction::Nothing
    );
    assert_eq!(
        s.handle_event(Event::DialFailed { target: None, reason: "no peer".to_string() }),
        Reaction::Nothing
    );
    assert!(s.dial_pending(&peer(4)));
}

#[test]
fn duplicate_operation_id_is_refused_not_overwritten() {
    let mut s = Session::new();
    let t = pending(s.handle_command(Command::FetchContent { request: 3 }));
    assert_eq!(
        s.handle_command(Command::FetchContent { request: 3 }),
        Admission::Resolved(Resolution { ticket: t + 1, outcome: Outcome::DuplicateId })
    );
    assert_eq!(
        s.handle_event(Event::Response { request: 3, payload: vec![1, 2, 3] }),
        Reaction::Resolve(Resolution { ticket: t, outcome: Outcome::Content(vec![1, 2, 3]) })
    );
    let q = pending(s.handle_command(Command::StartProviding { query: Ok(8) }));
    assert_eq!(
        s.handle_command(Command::StartProviding { query: Ok(8) }),
        Admission::Resolved(Resolution { ticket: q + 1, outcome: Outcome::DuplicateId })
    );
    assert!(s.provide_pending(8));
}

#[test]
fn op_table_refuses_existing_id() {
    let mut t = OpTable::new();
    assert_eq!(t.insert(1, 10), Ok(()));
    assert_eq!(t.insert(1, 11), Err(10));
    assert_eq!(t.len(), 1);
    assert_eq!(t.remove(1), Some(10));
    assert_eq!(t.remove(1), None);
    assert!(!t.contains(1));
}

#[test]
fn peer_table_refuses_existing_peer() {
    let mut t = PeerTable::new();
    assert_eq!(t.insert(vec![7, 7], 1), Ok(()));
    assert_eq!(t.insert(vec![7, 7], 2), Err(1));
    assert_eq!(t.insert(vec![7, 8], 3), Ok(()));
    assert_eq!(t.len(), 2);
    assert!(t.contains(&[7, 8]));
    assert_eq!(t.remove(&[7, 7]), Some(1));
    assert_eq!(t.remove(&[7, 7]), None);
}

#[test]
fn unknown_ids_are_defects() {
    let mut s = Session::new();
    assert_eq!(
        s.handle_event(Event::Response { request: 42, payload: vec![] }),
        Reaction::Defect(Defect::UnknownRequest(42))
    );
    assert_eq!(
        s.handle_event(Event::RequestFailed { request: 43, reason: "timeout".to_string() }),
        Reaction::Defect(Defect::UnknownRequest(43))
    );
    assert_eq!(
        s.handle_event(Event::ProvideDone { query: 44 }),
        Reaction::Defect(Defect::UnknownQuery(44))
    );
    assert_eq!(
        s.handle_event(Event::Unrecognized { description: "expired listen address".to_string() }),
        Reaction::Defect(Defect::UnhandledEvent("expired listen address".to_string()))
    );
}

#[test]
fn inbound_request_is_forwarded() {
    let mut s = Session::new();
    assert_eq!(
        s.handle_event(Event::InboundRequest { key: "file.torrent".to_string() }),
        Reaction::Forward("file.torrent".to_string())
    );
    assert_eq!(s.handle_event(Event::Informational), Reaction::Nothing);
}

#[test]
fn request_failure_resolves_caller() {
    let mut s = Session::new();
    let t = pending(s.handle_command(Command::FetchContent { request: 1 }));
    assert_eq!(
        s.handle_event(Event::RequestFailed { request: 1, reason: "timeout".to_string() }),
        Reaction::Resolve(Resolution { ticket: t, outcome: Outcome::FetchFailed("timeout".to_string()) })
    );
    assert!(!s.request_pending(1));
}

#[test]
fn every_ticket_resolved_exactly_once() {
    let mut s = Session::new();
    let mut resolved: Vec<u64> = Vec::new();
    let mut note = |a: Admission, resolved: &mut Vec<u64>| {
        if let Admission::Resolved(r) = a {
            resolved.push(r.ticket);
        }
    };
    note(s.handle_command(Command::Listen { bound: Ok(()) }), &mut resolved);
    note(s.handle_command(Command::Dial { peer: peer(1) }), &mut resolved);
    note(s.handle_command(Command::Dial { peer: peer(1) }), &mut resolved);
    note(s.handle_command(Command::FindProviders { query: 1 }), &mut resolved);
    note(s.handle_command(Command::StartProviding { query: Ok(2) }), &mut resolved);
    note(s.handle_command(Command::FetchContent { request: 1 }), &mut resolved);
    let events = vec![
        Event::ProvidersFound { query: 1, providers: vec![peer(9)] },
        Event::Connected { peer: peer(1), as_dialer: true },
        Event::ProvidersExhausted { query: 1 },
        Event::ProvideDone { query: 2 },
        Event::Response { request: 1, payload: vec![5] },
        Event::Connected { peer: peer(1), as_dialer: true },
    ];
    for e in events {
        match s.handle_event(e) {
            Reaction::Resolve(r) | Reaction::ResolveAndFinish(r, _) => resolved.push(r.ticket),
            _ => {}
        }
    }
    resolved.sort();
    assert_eq!(resolved, (0..s.next_ticket()).collect::<Vec<u64>>());
}

#[test]
fn provide_then_find_on_another_engine() {
    // Two engines share a DHT, played here by the test: the provider record
    // that the first engine announces is what the second engine's query finds.
    let provider = peer(1);
    let mut announcer = Session::new();
    let mut seeker = Session::new();
    let key: Vec<u8> = b"content bytes".to_vec();
    let mut dht: Vec<(Vec<u8>, PeerKey)> = Vec::new();

    let t = pending(announcer.handle_command(Command::StartProviding { query: Ok(1) }));
    dht.push((key.clone(), provider.clone()));
    assert_eq!(
        announcer.handle_event(Event::ProvideDone { query: 1 }),
        Reaction::Resolve(Resolution { ticket: t, outcome: Outcome::Providing })
    );

    let u = pending(seeker.handle_command(Command::FindProviders { query: 1 }));
    let found: Vec<PeerKey> = dht.iter().filter(|(k, _)| *k == key).map(|(_, p)| p.clone()).collect();
    match seeker.handle_event(Event::ProvidersFound { query: 1, providers: found }) {
        Reaction::ResolveAndFinish(Resolution { ticket, outcome: Outcome::Providers(ps) }, 1) => {
            assert_eq!(ticket, u);
            assert!(ps.contains(&provider));
        }
        other => panic!("unexpected reaction {:?}", other),
    }
}

#[test]
fn unanswered_fetch_stays_pending() {
    let mut s = Session::new();
    let (tx, mut rx) = futures::channel::oneshot::channel::<Outcome>();
    let t = pending(s.handle_command(Command::FetchContent { request: 6 }));
    let mut waiting = vec![(t, tx)];
    for _ in 0..100 {
        assert_eq!(s.handle_event(Event::Informational), Reaction::Nothing);
    }
    // The deadline has passed with no terminal event: the caller still waits.
    assert!(s.request_pending(6));
    assert_eq!(rx.try_recv(), Ok(None));
    assert_eq!(waiting.len(), 1);
    waiting.clear();
}

#[test]
fn dropped_receiver_is_harmless() {
    let mut s = Session::new();
    let (tx, rx) = futures::channel::oneshot::channel::<Outcome>();
    let t = pending(s.handle_command(Command::FetchContent { request: 2 }));
    drop(rx);
    match s.handle_event(Event::Response { request: 2, payload: vec![9] }) {
        Reaction::Resolve(r) => {
            assert_eq!(r.ticket, t);
            assert!(tx.send(r.outcome).is_err());
        }
        other => panic!("unexpected reaction {:?}", other),
    }
    assert!(!s.request_pending(2));
    let again = pending(s.handle_command(Command::FetchContent { request: 2 }));
    assert_eq!(again, t + 1);
}

#[test]
fn refused_announcement_resolves_at_once() {
    let mut s = Session::new();
    assert_eq!(
        s.handle_command(Command::StartProviding { query: Err("store full".to_string()) }),
        Admission::Resolved(Resolution {
            ticket: 0,
            outcome: Outcome::ProvideFailed("store full".to_string())
        })
    );
    assert_eq!(s.next_ticket(), 1);
}
