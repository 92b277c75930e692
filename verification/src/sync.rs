//! Synchronization boundaries between batches of input primitives.

use vstd::prelude::*;

verus! {

/// A commit barrier.  `All` closes an ordinary batch and makes a writer
/// flush everything buffered so far; `Mt` separates multitouch packets.
#[derive(Clone, Copy, Debug, PartialEq, Eq, Structural)]
pub enum SyncEvent {
    All,
    Mt,
}

impl SyncEvent {
    /// The raw event code of this barrier.
    pub open spec fn code(self) -> u16 {
        match self {
            SyncEvent::All => 0,
            SyncEvent::Mt => 2,
        }
    }

    /// The barrier a raw event code names, if any.
    pub open spec fn of_code(code: u16) -> Option<SyncEvent> {
        match code {
            0u16 => Some(SyncEvent::All),
            2u16 => Some(SyncEvent::Mt),
            _ => None,
        }
    }

    /// Raw code of this barrier; total on the closed set.
    pub fn to_raw(&self) -> (r: Option<u16>)
        ensures
            r == Some(self.code()),
    {
        let code: u16 = match self {
            SyncEvent::All => 0,
            SyncEvent::Mt => 2,
        };

        Some(code)
    }

    /// Barrier named by a raw code, or `None` for a code outside the set.
    pub fn from_raw(code: u16) -> (r: Option<SyncEvent>)
        ensures
            r == SyncEvent::of_code(code),
    {
        match code {
            0 => Some(SyncEvent::All),
            2 => Some(SyncEvent::Mt),
            _ => None,
        }
    }
}

/// Every barrier round-trips through its raw code.
pub proof fn lemma_sync_code_round_trip(sync: SyncEvent)
    ensures
        SyncEvent::of_code(sync.code()) == Some(sync),
{
}

} // verus!
