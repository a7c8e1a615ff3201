use vstd::prelude::*;

verus! {

/// A network participant, by the byte form of its identity.
#[derive(Debug, Clone, PartialEq, Eq)]
pub struct PeerKey {
    pub bytes: Vec<u8>,
}

impl View for PeerKey {
    type V = Seq<u8>;

    open spec fn view(&self) -> Seq<u8> {
        self.bytes@
    }
}

/// What a caller receives when its operation ends.
#[derive(Debug, Clone, PartialEq, Eq)]
pub enum Outcome {
    /// The engine now listens on the address.
    Listening,
    /// The address could not be bound; the network's reason.
    ListenFailed(String),
    /// The peer is connected.
    Connected,
    /// The dial failed; the network's reason.
    DialFailed(String),
    /// A dial to the same peer was already pending: this one is refused and
    /// the earlier caller alone learns how the dial ends.
    DialInProgress,
    /// The content is announced in the DHT.
    Providing,
    /// The DHT refused to announce the content; its reason.
    ProvideFailed(String),
    /// The first batch of providers that the DHT query found.
    Providers(Vec<PeerKey>),
    /// The DHT query ended, or failed, without finding any provider.
    NoProviders,
    /// The peer answered the content request with these bytes.
    Content(Vec<u8>),
    /// The content request failed; the network's reason.
    FetchFailed(String),
    /// The network gave the operation an identifier that another pending
    /// operation of the same kind still holds: the operation is refused.
    DuplicateId,
}

/// The outcome owed to the caller holding `ticket`.
#[derive(Debug, Clone, PartialEq, Eq)]
pub struct Resolution {
    pub ticket: u64,
    pub outcome: Outcome,
}

/// A command from a caller, with what the network answered when the
/// operation was issued.
#[derive(Debug, PartialEq, Eq)]
pub enum Command {
    /// A listen, with the network's immediate answer.
    Listen { bound: Result<(), String> },
    /// A dial to `peer`; the network is asked only when the engine admits it.
    Dial { peer: PeerKey },
    /// A get-providers query that the DHT started under `query`.
    FindProviders { query: u64 },
    /// A start-providing query that the DHT started under an identifier, or
    /// the reason it refused to start one.
    StartProviding { query: Result<u64, String> },
    /// A content request that the network sent under `request`.
    FetchContent { request: u64 },
}

/// What the engine decides on a command.
#[derive(Debug, Clone, PartialEq, Eq)]
pub enum Admission {
    /// The caller's ticket is resolved at once.
    Resolved(Resolution),
    /// The caller's ticket waits for a terminal network event. For a dial,
    /// the network is to be asked now.
    Pending(u64),
}

/// An event of the network.
#[derive(Debug, Clone, PartialEq, Eq)]
pub enum Event {
    /// A connection to `peer` is up; `as_dialer` when this side dialled.
    Connected { peer: PeerKey, as_dialer: bool },
    /// A dial failed, refused at once or later; the dialled peer when known.
    DialFailed { target: Option<PeerKey>, reason: String },
    /// A start-providing query completed.
    ProvideDone { query: u64 },
    /// A get-providers query found a batch of providers.
    ProvidersFound { query: u64, providers: Vec<PeerKey> },
    /// A get-providers query ended, or failed, with no further record.
    ProvidersExhausted { query: u64 },
    /// The answer to an outbound content request.
    Response { request: u64, payload: Vec<u8> },
    /// An outbound content request failed.
    RequestFailed { request: u64, reason: String },
    /// A remote peer asks for the content under `key`.
    InboundRequest { key: String },
    /// An event that needs no action (a new listen address, a closed or an
    /// incoming connection, a sent response).
    Informational,
    /// An event of a kind that the engine does not know.
    Unrecognized { description: String },
}

/// A broken invariant: never a caller's error, always a bug to report.
#[derive(Debug, Clone, PartialEq, Eq)]
pub enum Defect {
    /// A start-providing event for a query that nobody waits on.
    UnknownQuery(u64),
    /// A response or failure for a request that nobody waits on.
    UnknownRequest(u64),
    /// An event of a kind that the engine does not handle.
    UnhandledEvent(String),
}

/// What the engine decides on a network event.
#[derive(Debug, Clone, PartialEq, Eq)]
pub enum Reaction {
    /// Nothing to do.
    Nothing,
    /// Deliver the resolution.
    Resolve(Resolution),
    /// Deliver the resolution, then stop the DHT query with this identifier.
    ResolveAndFinish(Resolution, u64),
    /// Hand the inbound request for this key to the application.
    Forward(String),
    /// Report the defect.
    Defect(Defect),
}

} // verus!
