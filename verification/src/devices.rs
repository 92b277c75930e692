//! The device registry: one record per captured physical device.
//!
//! Records live in a dense slot table.  A new device takes the lowest free
//! index, so identifiers stay small; an unplugged device frees its slot only
//! after every connected client has been told to tear the mirror down, which
//! is why removal is a separate, explicit step.

use vstd::prelude::*;

use crate::abs::{AbsAxis, AbsInfo};
use crate::key::Key;
use crate::rel::RelAxis;

verus! {

/// Identity and capability set of one physical device, as captured when it
/// appeared.  The name is an opaque byte string.
#[derive(Clone, Debug)]
pub struct Device {
    pub name: Vec<u8>,
    pub vendor: u16,
    pub product: u16,
    pub version: u16,
    pub rel: Vec<RelAxis>,
    pub abs: Vec<(AbsAxis, AbsInfo)>,
    pub keys: Vec<Key>,
    pub delay: Option<i32>,
    pub period: Option<i32>,
}

/// A device's key auto-repeat settings, in milliseconds.
#[derive(Clone, Copy, Debug, PartialEq, Eq, Structural)]
pub struct Repeat {
    pub delay: Option<i32>,
    pub period: Option<i32>,
}

/// The mathematical image of a device record.
pub struct DeviceView {
    pub name: Seq<u8>,
    pub vendor: u16,
    pub product: u16,
    pub version: u16,
    pub rel: Seq<RelAxis>,
    pub abs: Seq<(AbsAxis, AbsInfo)>,
    pub keys: Seq<Key>,
    pub delay: Option<i32>,
    pub period: Option<i32>,
}

impl View for Device {
    type V = DeviceView;

    open spec fn view(&self) -> DeviceView {
        DeviceView {
            name: self.name@,
            vendor: self.vendor,
            product: self.product,
            version: self.version,
            rel: self.rel@,
            abs: self.abs@,
            keys: self.keys@,
            delay: self.delay,
            period: self.period,
        }
    }
}

/// An element-for-element copy of a vector of plain values.
pub fn copy_vec<T: Copy>(v: &Vec<T>) -> (r: Vec<T>)
    ensures
        r@ == v@,
{
    let mut r: Vec<T> = Vec::new();
    let mut i: usize = 0;
    while i < v.len()
        invariant
            i <= v@.len(),
            r@ == v@.take(i as int),
        decreases v.len() - i,
    {
        r.push(v[i]);
        i += 1;
    }
    proof {
        assert(r@ =~= v@);
    }
    r
}

/// Whether slot `i` holds a live device.
pub open spec fn device_live(slots: Seq<Option<Device>>, i: int) -> bool {
    0 <= i < slots.len() && slots[i] is Some
}

/// The set of identifiers of live devices.
pub open spec fn live_ids(slots: Seq<Option<Device>>) -> Set<int> {
    Set::new(|i: int| device_live(slots, i))
}

/// `k` is the lowest free index, taken as the slot count when every slot is
/// live.
pub open spec fn is_first_free(slots: Seq<Option<Device>>, k: int) -> bool {
    &&& 0 <= k <= slots.len()
    &&& forall|j: int| 0 <= j < k ==> (#[trigger] slots[j]) is Some
    &&& k < slots.len() ==> slots[k] is None
}

/// The registry of captured devices.
#[derive(Clone, Debug)]
pub struct DeviceRegistry {
    pub slots: Vec<Option<Device>>,
}

impl DeviceRegistry {
    /// An empty registry.
    pub fn new() -> (r: DeviceRegistry)
        ensures
            r.slots@.len() == 0,
    {
        DeviceRegistry { slots: Vec::new() }
    }

    /// Whether `id` names a live device.
    pub fn is_live(&self, id: usize) -> (r: bool)
        ensures
            r == device_live(self.slots@, id as int),
    {
        id < self.slots.len() && self.slots[id].is_some()
    }

    /// The identifier the next registration will take: the lowest free one.
    #[verifier::loop_isolation(false)]
    pub fn vacant_key(&self) -> (id: usize)
        ensures
            is_first_free(self.slots@, id as int),
    {
        let mut i: usize = 0;
        while i < self.slots.len()
            invariant
                i <= self.slots@.len(),
                forall|j: int| 0 <= j < i ==> (#[trigger] self.slots@[j]) is Some,
            decreases self.slots.len() - i,
        {
            if self.slots[i].is_none() {
                return i;
            }
            i += 1;
        }
        i
    }

    /// Register a device under the lowest free identifier.
    #[verifier::loop_isolation(false)]
    pub fn insert(&mut self, device: Device) -> (id: usize)
        requires
            old(self).slots@.len() < usize::MAX,
        ensures
            is_first_free(old(self).slots@, id as int),
            final(self).slots@ == (if (id as int) < old(self).slots@.len() {
                old(self).slots@.update(id as int, Some(device))
            } else {
                old(self).slots@.push(Some(device))
            }),
            device_live(final(self).slots@, id as int),
            live_ids(final(self).slots@) == live_ids(old(self).slots@).insert(id as int),
    {
        let mut i: usize = 0;
        while i < self.slots.len()
            invariant
                *self == *old(self),
                i <= self.slots@.len(),
                forall|j: int| 0 <= j < i ==> (#[trigger] self.slots@[j]) is Some,
            decreases self.slots.len() - i,
        {
            if self.slots[i].is_none() {
                self.slots.set(i, Some(device));
                proof {
                    assert(live_ids(self.slots@)
                        =~= live_ids(old(self).slots@).insert(i as int));
                }
                return i;
            }
            i += 1;
        }
        let id = self.slots.len();
        self.slots.push(Some(device));
        proof {
            assert(live_ids(self.slots@)
                =~= live_ids(old(self).slots@).insert(id as int));
        }
        id
    }

    /// Free the slot of a destroyed device.
    pub fn remove(&mut self, id: usize)
        requires
            device_live(old(self).slots@, id as int),
        ensures
            final(self).slots@ == old(self).slots@.update(id as int, None::<Device>),
            live_ids(final(self).slots@) == live_ids(old(self).slots@).remove(id as int),
    {
        self.slots.set(id, None);
        proof {
            assert(live_ids(self.slots@) =~= live_ids(old(self).slots@).remove(id as int));
        }
    }

    /// The record of a live device.
    pub fn get(&self, id: usize) -> (r: &Device)
        requires
            device_live(self.slots@, id as int),
        ensures
            Some(*r) == self.slots@[id as int],
    {
        self.slots[id].as_ref().unwrap()
    }
}

} // verus!
