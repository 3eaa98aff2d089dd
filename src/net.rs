use vstd::prelude::*;
use crate::input::InputState;
use crate::ring::RingBuf;

verus! {

/// Most peers in one session.
pub const MAX_PEERS: usize = 8;

/// How often this device sends its state for the current frame again, in
/// milliseconds, until every peer has it.
pub const REPEAT_EVERY_MS: u64 = 5;

/// A peer's network address.
pub type Addr = u64;

/// The input of one peer at one frame.
pub type FrameState = InputState;

#[verifier::external_type_specification]
#[verifier::external_body]
#[verifier::reject_recursive_types(T)]
pub struct ExHeaplessVec<T, const N: usize>(heapless::Vec<T, N>);

#[verifier::external_type_specification]
#[verifier::external_body]
pub struct ExHeaplessString<const N: usize>(heapless::String<N>);

/// The peers of a game, at most `MAX_PEERS`.
pub type Peers = heapless::Vec<FSPeer, 8>;

/// The outcome of adding a peer to a list: the peer comes back when the
/// list is full.
pub type PeerPut = Result<(), FSPeer>;

/// The peers that a list holds, in order.
pub uninterp spec fn peers_of(v: heapless::Vec<FSPeer, 8>) -> Seq<FSPeer>;

/// Relies on `heapless::Vec::new`: a new vector is empty.
#[verifier::external_body]
pub fn no_peers() -> (r: Peers)
    ensures
        peers_of(r).len() == 0,
{
    heapless::Vec::new()
}

/// Relies on `heapless::Vec::as_slice`: the slice holds the elements in
/// order, and a vector never holds more than its capacity.
#[verifier::external_body]
fn peer_count(v: &Peers) -> (r: usize)
    ensures
        r == peers_of(*v).len(),
        r <= MAX_PEERS,
{
    v.as_slice().len()
}

/// Relies on `heapless::Vec::as_slice`: the slice holds the elements in order.
#[verifier::external_body]
fn peer_at(v: &Peers, i: usize) -> (r: &FSPeer)
    requires
        i < peers_of(*v).len(),
    ensures
        *r == peers_of(*v)[i as int],
{
    &v.as_slice()[i]
}

/// Relies on `heapless::Vec::remove`: it takes out the element at `i` and
/// shifts the later ones down.
#[verifier::external_body]
fn take_peer(v: &mut Peers, i: usize) -> (r: FSPeer)
    requires
        i < peers_of(*old(v)).len(),
    ensures
        r == peers_of(*old(v))[i as int],
        peers_of(*final(v)) == peers_of(*old(v)).remove(i as int),
{
    v.remove(i)
}

/// Relies on `heapless::Vec::insert`: it puts the element at `i` and shifts
/// the later ones up, or hands it back when the vector is full.
#[verifier::external_body]
fn put_peer(v: &mut Peers, i: usize, p: FSPeer) -> (r: PeerPut)
    requires
        i <= peers_of(*old(v)).len(),
    ensures
        r is Ok == (peers_of(*old(v)).len() < MAX_PEERS),
        r is Ok ==> peers_of(*final(v)) == peers_of(*old(v)).insert(i as int, p),
        r is Err ==> r == PeerPut::Err(p) && peers_of(*final(v)) == peers_of(*old(v)),
{
    v.insert(i, p)
}

/// Relies on `heapless::Vec::push`: it appends the element, or hands it back
/// when the vector is full.
#[verifier::external_body]
fn push_peer(v: &mut Peers, p: FSPeer) -> (r: PeerPut)
    ensures
        r is Ok == (peers_of(*old(v)).len() < MAX_PEERS),
        r is Ok ==> peers_of(*final(v)) == peers_of(*old(v)).push(p),
        r is Err ==> r == PeerPut::Err(p) && peers_of(*final(v)) == peers_of(*old(v)),
{
    v.push(p)
}

/// A device met while connecting, before a game is picked.
pub struct Peer {
    /// `None` for this device.
    pub addr: Option<Addr>,
    pub name: heapless::String<16>,
}

/// The peers found by the connector. It lives while the launcher runs, and
/// its job is to start an app for everyone when someone picks one.
pub struct Connection {
    pub peers: heapless::Vec<Peer, 8>,
}

/// A peer in a game, with the states it sent for recent and coming frames.
pub struct FSPeer {
    /// `None` for this device.
    pub addr: Option<Addr>,
    pub name: heapless::String<16>,
    pub states: RingBuf<FrameState>,
}

/// Keeps the devices of a game on the same frame: the guest's `update` runs
/// only once every peer has a state for the current frame.
pub struct FrameSyncer {
    pub frame: u32,
    pub peers: Peers,
}

/// How many of `peers` have a state at `frame`.
pub open spec fn count_with_state(peers: Seq<FSPeer>, frame: int) -> nat
    decreases peers.len(),
{
    if peers.len() == 0 {
        0
    } else {
        count_with_state(peers.drop_last(), frame) + if peers.last().states.lookup(
            frame,
        ).is_some() {
            1nat
        } else {
            0
        }
    }
}

/// The index of the first peer in `peers` with no address.
pub open spec fn local_index(peers: Seq<FSPeer>) -> int
    decreases peers.len(),
{
    if peers.len() == 0 {
        0
    } else if peers[0].addr.is_none() {
        0
    } else {
        1 + local_index(peers.drop_first())
    }
}

impl FrameSyncer {
    /// The peers, in order.
    pub open spec fn peer_seq(&self) -> Seq<FSPeer> {
        peers_of(self.peers)
    }

    /// Every peer has a state at the current frame.
    pub open spec fn all_ready(&self) -> bool {
        forall|i: int|
            0 <= i < self.peer_seq().len() ==> (#[trigger] self.peer_seq()[i]).states.lookup(
                self.frame as int,
            ).is_some()
    }

    /// Every peer's buffer is at the syncer's frame.
    pub open spec fn in_step(&self) -> bool {
        forall|i: int|
            0 <= i < self.peer_seq().len() ==> (#[trigger] self.peer_seq()[i]).states.cursor()
                == self.frame as int
    }

    /// The number of peers.
    pub fn peer_count(&self) -> (r: usize)
        ensures
            r == self.peer_seq().len(),
            r <= MAX_PEERS,
    {
        peer_count(&self.peers)
    }

    /// The peer at index `i`.
    pub fn peer(&self, i: usize) -> (r: &FSPeer)
        requires
            i < self.peer_seq().len(),
        ensures
            *r == self.peer_seq()[i as int],
    {
        peer_at(&self.peers, i)
    }

    /// This device's state for the current frame, to send to the peers.
    pub fn local_state(&self) -> (r: Option<FrameState>)
        ensures
            r == if local_index(self.peer_seq()) < self.peer_seq().len() {
                self.peer_seq()[local_index(self.peer_seq())].states.lookup(
                    self.frame as int,
                )
            } else {
                None
            },
    {
        let me = self.local_peer() as usize;
        if me < peer_count(&self.peers) {
            peer_at(&self.peers, me).states.get(self.frame as usize)
        } else {
            None
        }
    }

    /// Whether to send this device's state again at `now`, when it was last
    /// sent at `last` (in milliseconds): only while some peer lacks a state
    /// for the current frame, and once `REPEAT_EVERY_MS` have passed.
    pub fn resend_due(&self, last: u64, now: u64) -> (r: bool)
        ensures
            r == (!self.all_ready() && now >= last && now - last >= REPEAT_EVERY_MS),
    {
        !self.ready() && now >= last && now - last >= REPEAT_EVERY_MS
    }

    /// True when every peer has a state for the current frame.
    pub fn ready(&self) -> (r: bool)
        ensures
            r == self.all_ready(),
    {
        let mut i: usize = 0;
        while i < peer_count(&self.peers)
            invariant
                i <= self.peer_seq().len(),
                forall|j: int|
                    0 <= j < i ==> (#[trigger] self.peer_seq()[j]).states.lookup(
                        self.frame as int,
                    ).is_some(),
            decreases self.peer_seq().len() - i,
        {
            let state = peer_at(&self.peers, i).states.get(self.frame as usize);
            if state.is_none() {
                return false;
            }
            i = i + 1;
        }
        true
    }

    /// Store the state that peer `peer` has at `frame`; the peer's buffer
    /// drops a frame too far from the current one.
    pub fn insert_state(&mut self, peer: usize, frame: u32, state: FrameState)
        requires
            peer < old(self).peer_seq().len(),
        ensures
            final(self).frame == old(self).frame,
            final(self).peer_seq().len() == old(self).peer_seq().len(),
            old(self).peer_seq()[peer as int].states.insert_result(
                &final(self).peer_seq()[peer as int].states,
                frame as usize,
                state,
            ),
            final(self).peer_seq()[peer as int].addr == old(self).peer_seq()[peer as int].addr,
            final(self).peer_seq()[peer as int].name == old(self).peer_seq()[peer as int].name,
            forall|j: int|
                0 <= j < old(self).peer_seq().len() && j != peer
                    ==> #[trigger] final(self).peer_seq()[j] == old(self).peer_seq()[j],
    {
        let _ = peer_count(&self.peers);
        let mut p = take_peer(&mut self.peers, peer);
        p.states.insert(frame as usize, state);
        let _ = put_peer(&mut self.peers, peer, p);
        assert(self.peer_seq() =~= old(self).peer_seq().update(peer as int, p));
    }

    /// Move to the next frame, with every peer's buffer in step.
    pub fn advance(&mut self)
        requires
            old(self).frame < u32::MAX,
            old(self).in_step(),
        ensures
            final(self).frame == old(self).frame + 1,
            final(self).in_step(),
            final(self).peer_seq().len() == old(self).peer_seq().len(),
            forall|j: int|
                0 <= j < old(self).peer_seq().len()
                    ==> #[trigger] old(self).peer_seq()[j].states.advance_result(
                    &final(self).peer_seq()[j].states,
                ) && final(self).peer_seq()[j].addr == old(self).peer_seq()[j].addr
                    && final(self).peer_seq()[j].name == old(self).peer_seq()[j].name,
    {
        let n = peer_count(&self.peers);
        let mut i: usize = 0;
        let mut done = no_peers();
        while i < n
            invariant
                n == old(self).peer_seq().len(),
                n <= MAX_PEERS,
                self.frame == old(self).frame,
                old(self).frame < u32::MAX,
                old(self).in_step(),
                i <= n,
                peers_of(done).len() == i,
                self.peer_seq().len() == n - i,
                forall|j: int|
                    0 <= j < n - i ==> #[trigger] self.peer_seq()[j] == old(self).peer_seq()[j + i],
                forall|j: int|
                    0 <= j < i ==> #[trigger] old(self).peer_seq()[j].states.advance_result(
                        &peers_of(done)[j].states,
                    ) && peers_of(done)[j].addr == old(self).peer_seq()[j].addr
                        && peers_of(done)[j].name == old(self).peer_seq()[j].name,
            decreases n - i,
        {
            let mut p = take_peer(&mut self.peers, 0);
            assert(p == old(self).peer_seq()[i as int]);
            assert(p.states.cursor() == old(self).frame as int);
            p.states.advance();
            let _ = push_peer(&mut done, p);
            i = i + 1;
        }
        self.peers = done;
        self.frame = self.frame + 1;
        assert forall|j: int| 0 <= j < self.peer_seq().len() implies (
        #[trigger] self.peer_seq()[j]).states.cursor() == self.frame as int by {
            assert(old(self).peer_seq()[j].states.cursor() == old(self).frame as int);
            assert(old(self).peer_seq()[j].states.advance_result(&self.peer_seq()[j].states));
        }
    }

    /// Store a state that arrived from the network: it goes to the peer with
    /// address `addr`, if there is one. Returns whether such a peer exists.
    pub fn receive(&mut self, addr: Addr, frame: u32, state: FrameState) -> (r: bool)
        ensures
            r == exists|j: int|
                0 <= j < old(self).peer_seq().len() && old(self).peer_seq()[j].addr == Some(addr),
            !r ==> final(self).peer_seq() == old(self).peer_seq(),
            r ==> exists|j: int|
                0 <= j < old(self).peer_seq().len() && old(self).peer_seq()[j].addr == Some(addr)
                    && old(self).peer_seq()[j].states.insert_result(
                    &final(self).peer_seq()[j].states,
                    frame as usize,
                    state,
                ) && forall|k: int|
                    0 <= k < old(self).peer_seq().len() && k != j
                        ==> #[trigger] final(self).peer_seq()[k] == old(self).peer_seq()[k],
            final(self).frame == old(self).frame,
            final(self).peer_seq().len() == old(self).peer_seq().len(),
    {
        let mut i: usize = 0;
        while i < peer_count(&self.peers)
            invariant
                self.peer_seq() == old(self).peer_seq(),
                self.frame == old(self).frame,
                i <= self.peer_seq().len(),
                forall|j: int| 0 <= j < i ==> self.peer_seq()[j].addr != Some(addr),
            decreases self.peer_seq().len() - i,
        {
            let found = match peer_at(&self.peers, i).addr {
                Some(a) => a == addr,
                None => false,
            };
            if found {
                self.insert_state(i, frame, state);
                assert(old(self).peer_seq()[i as int].addr == Some(addr));
                return true;
            }
            i = i + 1;
        }
        false
    }

    /// The index of this device among the peers.
    pub fn local_peer(&self) -> (r: u32)
        ensures
            r as int == local_index(self.peer_seq()),
    {
        let _ = peer_count(&self.peers);
        let mut i: usize = 0;
        assert(self.peer_seq().subrange(0, self.peer_seq().len() as int)
            =~= self.peer_seq());
        while i < peer_count(&self.peers)
            invariant
                i <= self.peer_seq().len() <= MAX_PEERS,
                forall|j: int| 0 <= j < i ==> self.peer_seq()[j].addr.is_some(),
                local_index(self.peer_seq()) == i + local_index(
                    self.peer_seq().subrange(i as int, self.peer_seq().len() as int),
                ),
            decreases self.peer_seq().len() - i,
        {
            if peer_at(&self.peers, i).addr.is_none() {
                return i as u32;
            }
            assert(self.peer_seq().subrange(i as int, self.peer_seq().len() as int).drop_first()
                =~= self.peer_seq().subrange(i + 1, self.peer_seq().len() as int));
            i = i + 1;
        }
        i as u32
    }
}

/// The frame syncer is ready exactly when the number of peers with a state
/// at the current frame is the number of peers.
pub proof fn lemma_ready_iff_all_counted(s: FrameSyncer)
    ensures
        s.all_ready() <==> count_with_state(s.peer_seq(), s.frame as int) == s.peer_seq().len(),
{
    lemma_count_bound(s.peer_seq(), s.frame as int);
}

proof fn lemma_count_bound(peers: Seq<FSPeer>, frame: int)
    ensures
        count_with_state(peers, frame) <= peers.len(),
        count_with_state(peers, frame) == peers.len() <==> forall|i: int|
            0 <= i < peers.len() ==> (#[trigger] peers[i]).states.lookup(frame).is_some(),
    decreases peers.len(),
{
    if peers.len() > 0 {
        let init = peers.drop_last();
        lemma_count_bound(init, frame);
        if count_with_state(peers, frame) == peers.len() {
            assert forall|i: int| 0 <= i < peers.len() implies (
            #[trigger] peers[i]).states.lookup(frame).is_some() by {
                if i < peers.len() - 1 {
                    assert(init[i] == peers[i]);
                }
            }
        }
        if forall|i: int| 0 <= i < peers.len() ==> (#[trigger] peers[i]).states.lookup(
            frame,
        ).is_some() {
            assert forall|i: int| 0 <= i < init.len() implies (#[trigger] init[i]).states.lookup(
                frame,
            ).is_some() by {
                assert(init[i] == peers[i]);
            }
            assert(peers[peers.len() - 1] == peers.last());
        }
    }
}

} // verus!
