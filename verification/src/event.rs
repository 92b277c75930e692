//! A single input primitive as captured from, or replayed to, a device.

use vstd::prelude::*;

use crate::abs::AbsEvent;
use crate::key::KeyEvent;
use crate::rel::RelEvent;
use crate::sync::SyncEvent;

verus! {

/// One input primitive: a key or button change, a relative delta, an
/// absolute position, or a synchronization barrier.
#[derive(Clone, Copy, Debug, PartialEq, Eq, Structural)]
pub enum Event {
    Key(KeyEvent),
    Rel(RelEvent),
    Abs(AbsEvent),
    Sync(SyncEvent),
}

} // verus!
