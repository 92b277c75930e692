//! The receiving side's replay decisions.
//!
//! A client decodes the update stream and keeps one synthetic device per
//! announced identifier.  The loop around this module owns the socket and
//! the platform writers; it feeds every decoded update in here and performs
//! the returned action: build a writer, replay an event on one, tear one
//! down, or answer a ping.  An event for an unknown identifier is ignored,
//! not fatal, to tolerate teardown races.

use vstd::prelude::*;

use crate::event::Event;
use crate::update::Update;

verus! {

broadcast use vstd::seq_lib::lemma_seq_contains_after_push;

/// What the loop must do with one update.
pub enum ReplayAction {
    /// Build a synthetic device from this announcement and store it under
    /// its identifier.
    Build { update: Update },
    /// Replay the event on the device stored under `id`.
    Replay { id: usize, event: Event },
    /// Drop the device stored under `id`.
    Teardown { id: usize },
    /// Answer the ping promptly.
    Pong,
    /// Nothing: the event named an identifier this mirror does not hold.
    Ignore,
}

/// The replay state: which identifiers currently have a device.
pub struct Replayer {
    known: Vec<usize>,
}

impl View for Replayer {
    type V = Set<usize>;

    closed spec fn view(&self) -> Set<usize> {
        Set::new(|id: usize| self.known@.contains(id))
    }
}

impl Replayer {
    /// A mirror holding no devices.
    pub fn new() -> (r: Replayer)
        ensures
            r@ == Set::<usize>::empty(),
    {
        let r = Replayer { known: Vec::new() };
        proof {
            assert(r@ =~= Set::<usize>::empty());
        }
        r
    }

    /// Whether an identifier has a device.
    pub fn knows(&self, id: usize) -> (r: bool)
        ensures
            r == self@.contains(id),
    {
        let mut i: usize = 0;
        while i < self.known.len()
            invariant
                i <= self.known.len(),
                forall|j: int| 0 <= j < i ==> self.known@[j] != id,
            decreases self.known.len() - i,
        {
            if self.known[i] == id {
                return true;
            }
            i += 1;
        }
        false
    }

    /// Record an identifier.
    fn insert(&mut self, id: usize)
        ensures
            final(self)@ == old(self)@.insert(id),
    {
        if !self.knows(id) {
            self.known.push(id);
        }
        proof {
            assert(self@ =~= old(self)@.insert(id));
        }
    }

    /// Forget an identifier.
    fn remove(&mut self, id: usize)
        ensures
            final(self)@ == old(self)@.remove(id),
    {
        let mut kept: Vec<usize> = Vec::new();
        let mut i: usize = 0;
        while i < self.known.len()
            invariant
                i <= self.known.len(),
                forall|k: usize| #[trigger] kept@.contains(k)
                    <==> (self.known@.take(i as int).contains(k) && k != id),
            decreases self.known.len() - i,
        {
            let item = self.known[i];
            proof {
                assert(self.known@.take(i + 1)
                    =~= self.known@.take(i as int).push(self.known@[i as int]));
            }
            if item != id {
                kept.push(item);
            }
            i += 1;
        }
        proof {
            assert(self.known@.take(self.known@.len() as int) =~= self.known@);
        }
        self.known = kept;
        proof {
            assert(self@ =~= old(self)@.remove(id));
        }
    }

    /// Decide what one update means for this mirror, and move the mirror
    /// accordingly: an announcement records the identifier, a teardown
    /// forgets it, an event reaches only a known identifier, a ping earns a
    /// pong.
    pub fn on_update(&mut self, update: Update) -> (r: ReplayAction)
        ensures
            match update {
                Update::CreateDevice { id, .. } => final(self)@ == old(self)@.insert(id) && (
                r matches ReplayAction::Build { update: u2 } && u2 == update),
                Update::DestroyDevice { id } => final(self)@ == old(self)@.remove(id) && r == (
                ReplayAction::Teardown { id }),
                Update::Event { id, event } => final(self)@ == old(self)@ && r == (
                if old(self)@.contains(id) {
                    ReplayAction::Replay { id, event }
                } else {
                    ReplayAction::Ignore
                }),
                Update::Ping => final(self)@ == old(self)@ && r == ReplayAction::Pong,
            },
    {
        match &update {
            Update::CreateDevice { id, .. } => {
                let id = *id;
                self.insert(id);
                ReplayAction::Build { update }
            },
            Update::DestroyDevice { id } => {
                let id = *id;
                self.remove(id);
                ReplayAction::Teardown { id }
            },
            Update::Event { id, event } => {
                let id = *id;
                let event = *event;
                if self.knows(id) {
                    ReplayAction::Replay { id, event }
                } else {
                    ReplayAction::Ignore
                }
            },
            Update::Ping => ReplayAction::Pong,
        }
    }
}

} // verus!
