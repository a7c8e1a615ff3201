use vstd::prelude::*;

verus! {

/// The number of bytes of a handshake on the wire.
pub const HANDSHAKE_LEN: usize = 68;

/// The opening message of a peer-wire connection.
#[derive(Debug, Clone, Copy, PartialEq, Eq)]
pub struct Handshake {
    pub len: u8,
    pub bittorent: [u8; 19],
    pub reserved: [u8; 8],
    pub info_hash: [u8; 20],
    pub peer_id: [u8; 20],
}

/// The protocol name, "BitTorrent protocol", as bytes.
pub open spec fn protocol_name() -> Seq<u8> {
    seq![66u8, 105, 116, 84, 111, 114, 114, 101, 110, 116, 32, 112, 114, 111, 116, 111, 99, 111, 108]
}

/// The bytes of a handshake on the wire: its fields in order.
pub open spec fn handshake_bytes(h: Handshake) -> Seq<u8> {
    seq![h.len] + h.bittorent@ + h.reserved@ + h.info_hash@ + h.peer_id@
}

/// Appends `src` to `out`.
fn push_all(out: &mut Vec<u8>, src: &[u8])
    ensures
        final(out)@ == old(out)@ + src@,
{
    let mut i: usize = 0;
    while i < src.len()
        invariant
            i <= src@.len(),
            out@ == old(out)@ + src@.subrange(0, i as int),
        decreases src@.len() - i,
    {
        out.push(src[i]);
        i = i + 1;
        assert(src@.subrange(0, i as int) == src@.subrange(0, i - 1) + seq![src@[i - 1]]);
    }
    assert(src@.subrange(0, i as int) == src@);
}

/// The `N` bytes of `src` that start at `at`.
fn take_array<const N: usize>(src: &[u8], at: usize) -> (r: [u8; N])
    requires
        at + N <= src@.len(),
    ensures
        r@ == src@.subrange(at as int, at + N),
{
    let mut r = [0u8; N];
    let n = src.len();
    let mut i: usize = 0;
    while i < N
        invariant
            n == src@.len(),
            at + N <= src@.len(),
            i <= N,
            r@.len() == N,
            forall|j: int| 0 <= j < i ==> r@[j] == src@[at + j],
        decreases N - i,
    {
        r[i] = src[at + i];
        i = i + 1;
    }
    assert(r@ == src@.subrange(at as int, at + N));
    r
}

impl Handshake {
    /// A handshake for the torrent `info_hash` from the peer `peer_id`, with
    /// the protocol name and no reserved bit set.
    pub fn new(info_hash: [u8; 20], peer_id: [u8; 20]) -> (r: Handshake)
        ensures
            r.len == 19,
            r.bittorent@ == protocol_name(),
            r.reserved@ == Seq::new(8, |i: int| 0u8),
            r.info_hash == info_hash,
            r.peer_id == peer_id,
    {
        let r = Handshake {
            len: 19,
            bittorent: [66u8, 105, 116, 84, 111, 114, 114, 101, 110, 116, 32, 112, 114, 111, 116, 111, 99, 111, 108],
            reserved: [0u8; 8],
            info_hash,
            peer_id,
        };
        assert(r.bittorent@ == protocol_name());
        assert(r.reserved@ == Seq::new(8, |i: int| 0u8));
        r
    }

    /// The handshake as sent on the wire.
    pub fn to_bytes(&self) -> (r: Vec<u8>)
        ensures
            r@ == handshake_bytes(*self),
            r@.len() == HANDSHAKE_LEN,
    {
        let mut out: Vec<u8> = Vec::new();
        out.push(self.len);
        push_all(&mut out, self.bittorent.as_slice());
        push_all(&mut out, self.reserved.as_slice());
        push_all(&mut out, self.info_hash.as_slice());
        push_all(&mut out, self.peer_id.as_slice());
        assert(out@ == handshake_bytes(*self));
        out
    }

    /// Reads a handshake from its wire form: any 68 bytes are one, laid out
    /// field by field; other lengths are none.
    pub fn from_bytes(bytes: &[u8]) -> (r: Option<Handshake>)
        ensures
            r is Some <==> bytes@.len() == HANDSHAKE_LEN,
            r matches Some(h) ==> handshake_bytes(h) == bytes@,
    {
        if bytes.len() != HANDSHAKE_LEN {
            return None;
        }
        let h = Handshake {
            len: bytes[0],
            bittorent: take_array(bytes, 1),
            reserved: take_array(bytes, 20),
            info_hash: take_array(bytes, 28),
            peer_id: take_array(bytes, 48),
        };
        assert(handshake_bytes(h) =~= bytes@);
        Some(h)
    }
}

/// Two handshakes with the same wire bytes are the same handshake, so
/// reading back what `to_bytes` wrote gives the handshake that was written.
pub proof fn law_handshake_round_trip(h: Handshake, g: Handshake)
    requires
        handshake_bytes(g) == handshake_bytes(h),
    ensures
        g == h,
{
    let b = handshake_bytes(h);
    let c = handshake_bytes(g);
    assert(b.subrange(1, 20) =~= h.bittorent@);
    assert(c.subrange(1, 20) =~= g.bittorent@);
    assert(b.subrange(20, 28) =~= h.reserved@);
    assert(c.subrange(20, 28) =~= g.reserved@);
    assert(b.subrange(28, 48) =~= h.info_hash@);
    assert(c.subrange(28, 48) =~= g.info_hash@);
    assert(b.subrange(48, 68) =~= h.peer_id@);
    assert(c.subrange(48, 68) =~= g.peer_id@);
    assert(b[0] == h.len && c[0] == g.len);
    assert(g.bittorent == h.bittorent);
    assert(g.reserved == h.reserved);
    assert(g.info_hash == h.info_hash);
    assert(g.peer_id == h.peer_id);
}

} // verus!
