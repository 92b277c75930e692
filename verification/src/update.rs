//! The top-level message a server sends to a connected client.

use vstd::prelude::*;

use crate::abs::{AbsAxis, AbsInfo};
use crate::devices::{copy_vec, Device, DeviceView};
use crate::event::Event;
use crate::key::Key;
use crate::rel::RelAxis;

verus! {

/// A message of the update stream.
///
/// `CreateDevice` asks the client to build a synthetic device mirroring the
/// capabilities carried; `DestroyDevice` to tear it down; `Event` to replay
/// one input primitive on it; `Ping` to answer promptly with a pong.
#[derive(Clone, Debug)]
pub enum Update {
    CreateDevice {
        id: usize,
        name: Vec<u8>,
        vendor: u16,
        product: u16,
        version: u16,
        rel: Vec<RelAxis>,
        abs: Vec<(AbsAxis, AbsInfo)>,
        keys: Vec<Key>,
        delay: Option<i32>,
        period: Option<i32>,
    },
    DestroyDevice { id: usize },
    Event { id: usize, event: Event },
    Ping,
}

/// The mathematical image of an update.
pub enum UpdateView {
    CreateDevice { id: int, dev: DeviceView },
    DestroyDevice { id: int },
    Event { id: int, event: Event },
    Ping,
}

impl View for Update {
    type V = UpdateView;

    open spec fn view(&self) -> UpdateView {
        match self {
            Update::CreateDevice {
                id,
                name,
                vendor,
                product,
                version,
                rel,
                abs,
                keys,
                delay,
                period,
            } => UpdateView::CreateDevice {
                id: *id as int,
                dev: DeviceView {
                    name: name@,
                    vendor: *vendor,
                    product: *product,
                    version: *version,
                    rel: rel@,
                    abs: abs@,
                    keys: keys@,
                    delay: *delay,
                    period: *period,
                },
            },
            Update::DestroyDevice { id } => UpdateView::DestroyDevice { id: *id as int },
            Update::Event { id, event } => UpdateView::Event { id: *id as int, event: *event },
            Update::Ping => UpdateView::Ping,
        }
    }
}

/// The update announcing device `id` with the capabilities of `device`.
pub fn create_update(id: usize, device: &Device) -> (u: Update)
    ensures
        u@ == (UpdateView::CreateDevice { id: id as int, dev: device@ }),
{
    Update::CreateDevice {
        id,
        name: copy_vec(&device.name),
        vendor: device.vendor,
        product: device.product,
        version: device.version,
        rel: copy_vec(&device.rel),
        abs: copy_vec(&device.abs),
        keys: copy_vec(&device.keys),
        delay: device.delay,
        period: device.period,
    }
}

} // verus!
