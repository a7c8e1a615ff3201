use vstd::prelude::*;

verus! {

/// Pending operations of one kind: from the identifier that the network gave
/// an operation to the ticket of the caller waiting on it.
#[verifier::external_body]
pub struct OpTable {
    entries: hashbrown::HashMap<u64, u64>,
}

/// What an operation table holds.
pub uninterp spec fn op_entries(t: OpTable) -> Map<u64, u64>;

impl View for OpTable {
    type V = Map<u64, u64>;

    open spec fn view(&self) -> Map<u64, u64> {
        op_entries(*self)
    }
}

impl OpTable {
    /// Relies on hashbrown::HashMap::new: a new map holds no entry.
    #[verifier::external_body]
    fn raw_new() -> (r: OpTable)
        ensures
            op_entries(r) == (Map::<u64, u64>::empty()),
    {
        OpTable { entries: hashbrown::HashMap::new() }
    }

    /// Relies on hashbrown::HashMap::get: the value of the key's entry, if any.
    #[verifier::external_body]
    fn raw_get(&self, id: u64) -> (r: Option<u64>)
        ensures
            r == (if op_entries(*self).contains_key(id) {
                Some(op_entries(*self)[id])
            } else {
                None::<u64>
            }),
    {
        self.entries.get(&id).copied()
    }

    /// Relies on hashbrown::HashMap::insert: the key maps to the value
    /// afterwards, and the value it replaced, if any, is handed back.
    #[verifier::external_body]
    fn raw_insert(&mut self, id: u64, ticket: u64) -> (r: Option<u64>)
        ensures
            op_entries(*final(self)) == op_entries(*old(self)).insert(id, ticket),
            r == (if op_entries(*old(self)).contains_key(id) {
                Some(op_entries(*old(self))[id])
            } else {
                None::<u64>
            }),
    {
        self.entries.insert(id, ticket)
    }

    /// Relies on hashbrown::HashMap::remove: the key has no entry afterwards,
    /// and the value it had, if any, is handed back.
    #[verifier::external_body]
    fn raw_remove(&mut self, id: u64) -> (r: Option<u64>)
        ensures
            op_entries(*final(self)) == op_entries(*old(self)).remove(id),
            r == (if op_entries(*old(self)).contains_key(id) {
                Some(op_entries(*old(self))[id])
            } else {
                None::<u64>
            }),
    {
        self.entries.remove(&id)
    }

    /// Relies on hashbrown::HashMap::len: the number of entries.
    #[verifier::external_body]
    fn raw_len(&self) -> (r: usize)
        ensures
            r == op_entries(*self).len(),
    {
        self.entries.len()
    }

    /// A table with no pending operation.
    pub fn new() -> (t: OpTable)
        ensures
            t@ == (Map::<u64, u64>::empty()),
    {
        OpTable::raw_new()
    }

    /// Whether an operation with this identifier is pending.
    pub fn contains(&self, id: u64) -> (r: bool)
        ensures
            r == self@.contains_key(id),
    {
        self.raw_get(id).is_some()
    }

    /// Records that `ticket` waits on operation `id`. An identifier that is
    /// already pending is refused, with the ticket that waits on it, and the
    /// table is left as it was: an entry is never overwritten.
    pub fn insert(&mut self, id: u64, ticket: u64) -> (r: Result<(), u64>)
        ensures
            old(self)@.contains_key(id) ==> r == Err::<(), u64>(old(self)@[id])
                && final(self)@ == old(self)@,
            !old(self)@.contains_key(id) ==> r == Ok::<(), u64>(())
                && final(self)@ == old(self)@.insert(id, ticket),
    {
        match self.raw_get(id) {
            Some(waiting) => Err(waiting),
            None => {
                let _ = self.raw_insert(id, ticket);
                Ok(())
            },
        }
    }

    /// Takes the entry of operation `id` out of the table, if there is one.
    pub fn remove(&mut self, id: u64) -> (r: Option<u64>)
        ensures
            final(self)@ == old(self)@.remove(id),
            !old(self)@.contains_key(id) ==> final(self)@ == old(self)@,
            r == (if old(self)@.contains_key(id) {
                Some(old(self)@[id])
            } else {
                None::<u64>
            }),
    {
        let r = self.raw_remove(id);
        assert(!old(self)@.contains_key(id) ==> self@ =~= old(self)@);
        r
    }

    /// The number of pending operations.
    pub fn len(&self) -> (r: usize)
        ensures
            r == self@.len(),
    {
        self.raw_len()
    }
}


/// Pending dials: from the byte form of the peer being dialled to the ticket
/// of the caller waiting on the connection.
#[verifier::external_body]
pub struct PeerTable {
    entries: hashbrown::HashMap<Vec<u8>, u64>,
}

/// What a dial table holds.
pub uninterp spec fn peer_entries(t: PeerTable) -> Map<Seq<u8>, u64>;

impl View for PeerTable {
    type V = Map<Seq<u8>, u64>;

    open spec fn view(&self) -> Map<Seq<u8>, u64> {
        peer_entries(*self)
    }
}

impl PeerTable {
    /// Relies on hashbrown::HashMap::new: a new map holds no entry.
    #[verifier::external_body]
    fn raw_new() -> (r: PeerTable)
        ensures
            peer_entries(r) == (Map::<Seq<u8>, u64>::empty()),
    {
        PeerTable { entries: hashbrown::HashMap::new() }
    }

    /// Relies on hashbrown::HashMap::get: the value of the key's entry, if any.
    /// A `Vec<u8>` key and its slice hash and compare alike.
    #[verifier::external_body]
    fn raw_get(&self, peer: &[u8]) -> (r: Option<u64>)
        ensures
            r == (if peer_entries(*self).contains_key(peer@) {
                Some(peer_entries(*self)[peer@])
            } else {
                None::<u64>
            }),
    {
        self.entries.get(peer).copied()
    }

    /// Relies on hashbrown::HashMap::insert: the key maps to the value
    /// afterwards, and the value it replaced, if any, is handed back.
    #[verifier::external_body]
    fn raw_insert(&mut self, peer: Vec<u8>, ticket: u64) -> (r: Option<u64>)
        ensures
            peer_entries(*final(self)) == peer_entries(*old(self)).insert(peer@, ticket),
            r == (if peer_entries(*old(self)).contains_key(peer@) {
                Some(peer_entries(*old(self))[peer@])
            } else {
                None::<u64>
            }),
    {
        self.entries.insert(peer, ticket)
    }

    /// Relies on hashbrown::HashMap::remove: the key has no entry afterwards,
    /// and the value it had, if any, is handed back.
    #[verifier::external_body]
    fn raw_remove(&mut self, peer: &[u8]) -> (r: Option<u64>)
        ensures
            peer_entries(*final(self)) == peer_entries(*old(self)).remove(peer@),
            r == (if peer_entries(*old(self)).contains_key(peer@) {
                Some(peer_entries(*old(self))[peer@])
            } else {
                None::<u64>
            }),
    {
        self.entries.remove(peer)
    }

    /// Relies on hashbrown::HashMap::len: the number of entries.
    #[verifier::external_body]
    fn raw_len(&self) -> (r: usize)
        ensures
            r == peer_entries(*self).len(),
    {
        self.entries.len()
    }

    /// A table with no pending dial.
    pub fn new() -> (t: PeerTable)
        ensures
            t@ == (Map::<Seq<u8>, u64>::empty()),
    {
        PeerTable::raw_new()
    }

    /// Whether a dial to this peer is pending.
    pub fn contains(&self, peer: &[u8]) -> (r: bool)
        ensures
            r == self@.contains_key(peer@),
    {
        self.raw_get(peer).is_some()
    }

    /// Records that `ticket` waits on the dial to `peer`. A peer that is
    /// already being dialled is refused, with the ticket that waits on it,
    /// and the table is left as it was.
    pub fn insert(&mut self, peer: Vec<u8>, ticket: u64) -> (r: Result<(), u64>)
        ensures
            old(self)@.contains_key(peer@) ==> r == Err::<(), u64>(old(self)@[peer@])
                && final(self)@ == old(self)@,
            !old(self)@.contains_key(peer@) ==> r == Ok::<(), u64>(())
                && final(self)@ == old(self)@.insert(peer@, ticket),
    {
        match self.raw_get(peer.as_slice()) {
            Some(waiting) => Err(waiting),
            None => {
                let _ = self.raw_insert(peer, ticket);
                Ok(())
            },
        }
    }

    /// Takes the entry of the dial to `peer` out of the table, if there is one.
    pub fn remove(&mut self, peer: &[u8]) -> (r: Option<u64>)
        ensures
            final(self)@ == old(self)@.remove(peer@),
            !old(self)@.contains_key(peer@) ==> final(self)@ == old(self)@,
            r == (if old(self)@.contains_key(peer@) {
                Some(old(self)@[peer@])
            } else {
                None::<u64>
            }),
    {
        let r = self.raw_remove(peer);
        assert(!old(self)@.contains_key(peer@) ==> self@ =~= old(self)@);
        r
    }

    /// The number of pending dials.
    pub fn len(&self) -> (r: usize)
        ensures
            r == self@.len(),
    {
        self.raw_len()
    }
}

} // verus!
