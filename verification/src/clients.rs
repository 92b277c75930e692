//! The client registry: one slot per routing target above the local machine.
//!
//! Slots form a single index space.  The low indices, one per configured
//! peer, are *static*: they are reserved forever and merely emptied when
//! their client disconnects.  Indices above them are *dynamic*: they are
//! allocated on connection, reclaimed on disconnect, and the lowest vacant
//! index is always reused first.  Routing target `t` means the local machine
//! for `t == 0` and the client in slot `t - 1` otherwise.

use vstd::prelude::*;

verus! {

broadcast use vstd::seq_lib::lemma_seq_contains_after_push;

/// One slot of the registry.
///
/// `Vacant` is an index not allocated at all (only above the static range),
/// `Empty` a reserved static slot whose client is gone, and `Present` a
/// connected client, remembered by its peer address.
#[derive(Clone, Copy, Debug, PartialEq, Eq, Structural)]
pub enum ClientSlot {
    Vacant,
    Empty,
    Present { peer: u128 },
}

/// Whether slot `i` holds a connected client.
pub open spec fn slot_present(slots: Seq<ClientSlot>, i: int) -> bool {
    0 <= i < slots.len() && slots[i] is Present
}

/// Whether slot `i` is allocated (present or reserved).
pub open spec fn slot_occupied(slots: Seq<ClientSlot>, i: int) -> bool {
    0 <= i < slots.len() && !(slots[i] is Vacant)
}

/// The number of allocated slots; the rotation steps modulo this plus one.
pub open spec fn occupied_count(slots: Seq<ClientSlot>) -> nat
    decreases slots.len(),
{
    if slots.len() == 0 {
        0
    } else {
        occupied_count(slots.drop_last()) + (if slots.last() is Vacant { 0nat } else { 1nat })
    }
}

/// A registry never has more allocated slots than slots.
pub proof fn lemma_occupied_count_le_len(slots: Seq<ClientSlot>)
    ensures
        occupied_count(slots) <= slots.len(),
    decreases slots.len(),
{
    if slots.len() > 0 {
        lemma_occupied_count_le_len(slots.drop_last());
    }
}

/// Whether routing target `t` exists: the local machine always does, and a
/// remote target exactly when its slot holds a connected client.
pub open spec fn spec_target_exists(slots: Seq<ClientSlot>, t: int) -> bool {
    t == 0 || slot_present(slots, t - 1)
}

/// What the dead-client sweep leaves in one slot: a present client whose
/// channel closed is swept, to a reserved slot when static and out of the
/// registry when dynamic; every other slot stays.
pub open spec fn swept_slot(s: ClientSlot, closed: bool, is_static: bool) -> ClientSlot {
    if s is Present && closed {
        if is_static {
            ClientSlot::Empty
        } else {
            ClientSlot::Vacant
        }
    } else {
        s
    }
}

/// The whole registry after the dead-client sweep.
pub open spec fn spec_sweep(
    slots: Seq<ClientSlot>,
    closed: Seq<bool>,
    static_len: int,
) -> Seq<ClientSlot> {
    Seq::new(slots.len(), |i: int| swept_slot(slots[i], closed[i], i < static_len))
}

/// `k` is the lowest non-allocated index, taken as the slot count when every
/// slot is allocated.
pub open spec fn is_first_vacant(slots: Seq<ClientSlot>, k: int) -> bool {
    &&& 0 <= k <= slots.len()
    &&& forall|j: int| 0 <= j < k ==> !((#[trigger] slots[j]) is Vacant)
    &&& k < slots.len() ==> slots[k] is Vacant
}

/// `j` is the position of the first configured peer equal to `peer`.
pub open spec fn is_first_static_match(statics: Seq<u128>, peer: u128, j: int) -> bool {
    &&& 0 <= j < statics.len()
    &&& statics[j] == peer
    &&& forall|k: int| 0 <= k < j ==> statics[k] != peer
}

/// No configured peer equals `peer`.
pub open spec fn no_static_match(statics: Seq<u128>, peer: u128) -> bool {
    forall|j: int| 0 <= j < statics.len() ==> statics[j] != peer
}

/// The registry of remote clients.
#[derive(Clone, Debug)]
pub struct ClientRegistry {
    /// The slots; the first `static_peers.len()` are the static ones.
    pub slots: Vec<ClientSlot>,
    /// The configured peer of each static slot.
    pub static_peers: Vec<u128>,
}

impl ClientRegistry {
    /// The number of static slots.
    pub open spec fn static_len(self) -> int {
        self.static_peers@.len() as int
    }

    /// Structural soundness: static slots are never deallocated, dynamic
    /// slots never merely reserved.
    pub open spec fn wf(self) -> bool {
        &&& self.static_peers@.len() <= self.slots@.len()
        &&& forall|i: int|
            0 <= i < self.static_len() ==> !((#[trigger] self.slots@[i]) is Vacant)
        &&& forall|i: int|
            self.static_len() <= i < self.slots@.len()
                ==> !((#[trigger] self.slots@[i]) is Empty)
    }

    /// A registry with one reserved, empty slot per configured peer.
    pub fn new(static_peers: Vec<u128>) -> (r: ClientRegistry)
        ensures
            r.wf(),
            r.static_peers@ == static_peers@,
            r.slots@.len() == static_peers@.len(),
            forall|i: int| 0 <= i < r.slots@.len() ==> r.slots@[i] == ClientSlot::Empty,
    {
        let mut slots: Vec<ClientSlot> = Vec::new();
        let mut i: usize = 0;
        while i < static_peers.len()
            invariant
                i <= static_peers.len(),
                slots@.len() == i,
                forall|j: int| 0 <= j < i ==> slots@[j] == ClientSlot::Empty,
            decreases static_peers.len() - i,
        {
            slots.push(ClientSlot::Empty);
            i += 1;
        }
        ClientRegistry { slots, static_peers }
    }

    /// Whether slot `i` holds a connected client.
    pub fn is_present(&self, i: usize) -> (r: bool)
        ensures
            r == slot_present(self.slots@, i as int),
    {
        i < self.slots.len() && matches!(self.slots[i], ClientSlot::Present { .. })
    }

    /// Whether routing target `t` exists.
    pub fn target_exists(&self, t: usize) -> (r: bool)
        ensures
            r == spec_target_exists(self.slots@, t as int),
    {
        t == 0 || self.is_present(t - 1)
    }

    /// The number of allocated slots.
    #[verifier::loop_isolation(false)]
    pub fn occupied_len(&self) -> (r: usize)
        ensures
            r == occupied_count(self.slots@),
    {
        let mut count: usize = 0;
        let mut i: usize = 0;
        while i < self.slots.len()
            invariant
                i <= self.slots.len(),
                count == occupied_count(self.slots@.take(i as int)),
                count <= i,
            decreases self.slots.len() - i,
        {
            proof {
                assert(self.slots@.take(i + 1).drop_last() =~= self.slots@.take(i as int));
            }
            if !matches!(self.slots[i], ClientSlot::Vacant) {
                count += 1;
            }
            i += 1;
        }
        proof {
            assert(self.slots@.take(self.slots@.len() as int) =~= self.slots@);
        }
        count
    }

    /// Place a connecting client.  A configured peer whose reserved slot is
    /// free goes there; anyone else (including a configured peer whose slot
    /// is still held) gets the lowest vacant slot, or a fresh one.
    #[verifier::loop_isolation(false)]
    pub fn connect(&mut self, peer: u128) -> (idx: usize)
        requires
            old(self).wf(),
            old(self).slots@.len() < usize::MAX,
        ensures
            final(self).wf(),
            final(self).static_peers@ == old(self).static_peers@,
            idx < final(self).slots@.len(),
            final(self).slots@ == (if (idx as int) < old(self).slots@.len() {
                old(self).slots@.update(idx as int, (ClientSlot::Present { peer }))
            } else {
                old(self).slots@.push((ClientSlot::Present { peer }))
            }),
            forall|j: int|
                is_first_static_match(old(self).static_peers@, peer, j) ==> (
                    if old(self).slots@[j] is Empty {
                        idx == j
                    } else {
                        is_first_vacant(old(self).slots@, idx as int)
                    }
                ),
            no_static_match(old(self).static_peers@, peer)
                ==> is_first_vacant(old(self).slots@, idx as int),
    {
        let mut j: usize = 0;
        while j < self.static_peers.len()
            invariant
                *self == *old(self),
                j <= self.static_peers.len(),
                forall|k: int| 0 <= k < j ==> self.static_peers@[k] != peer,
            decreases self.static_peers.len() - j,
        {
            if self.static_peers[j] == peer {
                if matches!(self.slots[j], ClientSlot::Empty) {
                    self.slots.set(j, ClientSlot::Present { peer });
                    return j;
                }
                return self.insert_dynamic(peer);
            }
            j += 1;
        }
        self.insert_dynamic(peer)
    }

    /// Put a client into the lowest vacant slot, growing the vector when
    /// every slot is allocated.
    #[verifier::loop_isolation(false)]
    fn insert_dynamic(&mut self, peer: u128) -> (idx: usize)
        requires
            old(self).wf(),
            old(self).slots@.len() < usize::MAX,
        ensures
            final(self).wf(),
            final(self).static_peers@ == old(self).static_peers@,
            idx < final(self).slots@.len(),
            is_first_vacant(old(self).slots@, idx as int),
            final(self).slots@ == (if (idx as int) < old(self).slots@.len() {
                old(self).slots@.update(idx as int, (ClientSlot::Present { peer }))
            } else {
                old(self).slots@.push((ClientSlot::Present { peer }))
            }),
    {
        let mut i: usize = 0;
        while i < self.slots.len()
            invariant
                *self == *old(self),
                i <= self.slots.len(),
                forall|k: int| 0 <= k < i ==> !((#[trigger] self.slots@[k]) is Vacant),
            decreases self.slots.len() - i,
        {
            if matches!(self.slots[i], ClientSlot::Vacant) {
                self.slots.set(i, ClientSlot::Present { peer });
                return i;
            }
            i += 1;
        }
        let idx = self.slots.len();
        self.slots.push(ClientSlot::Present { peer });
        idx
    }

    /// Empty every slot whose client's channel has closed.  `closed[i]` says
    /// whether the client in slot `i`, if any, is gone; a swept static slot
    /// stays reserved while a swept dynamic slot is deallocated.
    #[verifier::loop_isolation(false)]
    pub fn sweep(&mut self, closed: &Vec<bool>)
        requires
            old(self).wf(),
            closed@.len() == old(self).slots@.len(),
        ensures
            final(self).wf(),
            final(self).static_peers@ == old(self).static_peers@,
            final(self).slots@.len() == old(self).slots@.len(),
            forall|i: int|
                0 <= i < old(self).slots@.len()
                    ==> #[trigger] final(self).slots@[i] == swept_slot(
                        old(self).slots@[i],
                        closed@[i],
                        i < old(self).static_len(),
                    ),
            final(self).slots@ == spec_sweep(
                old(self).slots@,
                closed@,
                old(self).static_len(),
            ),
    {
        let ghost orig = *self;
        let static_len = self.static_peers.len();
        let mut i: usize = 0;
        while i < self.slots.len()
            invariant
                i <= orig.slots@.len(),
                self.slots@.len() == orig.slots@.len(),
                self.static_peers@ == orig.static_peers@,
                forall|k: int|
                    i <= k < orig.slots@.len()
                        ==> #[trigger] self.slots@[k] == orig.slots@[k],
                forall|k: int|
                    0 <= k < i ==> #[trigger] self.slots@[k] == swept_slot(
                        orig.slots@[k],
                        closed@[k],
                        k < orig.static_len(),
                    ),
            decreases self.slots.len() - i,
        {
            if matches!(self.slots[i], ClientSlot::Present { .. }) && closed[i] {
                if i < static_len {
                    self.slots.set(i, ClientSlot::Empty);
                } else {
                    self.slots.set(i, ClientSlot::Vacant);
                }
            }
            i += 1;
        }
        proof {
            assert(self.slots@ =~= spec_sweep(orig.slots@, closed@, orig.static_len()));
        }
    }

    /// Drop the client in slot `i` after its channel failed: a static slot
    /// is emptied, a dynamic one deallocated.
    pub fn disconnect(&mut self, i: usize)
        requires
            old(self).wf(),
            i < old(self).slots@.len(),
        ensures
            final(self).wf(),
            final(self).static_peers@ == old(self).static_peers@,
            final(self).slots@ == old(self).slots@.update(
                i as int,
                if (i as int) < old(self).static_len() {
                    ClientSlot::Empty
                } else {
                    ClientSlot::Vacant
                },
            ),
    {
        if i < self.static_peers.len() {
            self.slots.set(i, ClientSlot::Empty);
        } else {
            self.slots.set(i, ClientSlot::Vacant);
        }
    }

    /// The slots holding connected clients, in ascending order.
    #[verifier::loop_isolation(false)]
    pub fn present_indices(&self) -> (r: Vec<usize>)
        ensures
            forall|k: int| 0 <= k < r@.len() ==> slot_present(self.slots@, r@[k] as int),
            forall|i: int|
                slot_present(self.slots@, i) ==> r@.contains(i as usize),
            forall|k1: int, k2: int| 0 <= k1 < k2 < r@.len() ==> r@[k1] < r@[k2],
    {
        let mut out: Vec<usize> = Vec::new();
        let mut i: usize = 0;
        while i < self.slots.len()
            invariant
                i <= self.slots.len(),
                forall|k: int| 0 <= k < out@.len() ==> slot_present(self.slots@, out@[k] as int),
                forall|k: int| 0 <= k < out@.len() ==> out@[k] < i,
                forall|j: int|
                    0 <= j < i && slot_present(self.slots@, j) ==> out@.contains(j as usize),
                forall|k1: int, k2: int| 0 <= k1 < k2 < out@.len() ==> out@[k1] < out@[k2],
            decreases self.slots.len() - i,
        {
            if matches!(self.slots[i], ClientSlot::Present { .. }) {
                let ghost before = out@;
                out.push(i);
                proof {
                    assert(out@ == before.push(i));
                    assert(out@.contains(i));
                    assert(forall|j: int|
                        0 <= j < i && slot_present(self.slots@, j)
                            ==> out@.contains(j as usize)) by {
                        assert(forall|j: int|
                            0 <= j < i && slot_present(self.slots@, j)
                                ==> before.contains(j as usize));
                    }
                }
            }
            i += 1;
        }
        out
    }
}

} // verus!
