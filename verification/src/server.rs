//! The switching core: the single owner of the device registry, the client
//! registry and the switching state.
//!
//! The surrounding server loop owns the sockets, channels and timers; on
//! every occurrence — a connection accepted, a device discovered, an event
//! captured, a send failed — it calls one handler here, applies the returned
//! decision, and feeds any failure back in.  Everything the loop may not
//! decide for itself is decided, and proved, here.

use vstd::prelude::*;

use crate::clients::{
    is_first_static_match, is_first_vacant, no_static_match, slot_present, spec_sweep,
    spec_target_exists, ClientRegistry, ClientSlot,
};
use crate::devices::{copy_vec, device_live, is_first_free, live_ids, Device, DeviceRegistry};
use crate::event::Event;
use crate::key::Key;
use crate::keyset::KeySet;
use crate::switch::{
    spec_discards, spec_press, spec_route_target, spec_step, switch_wf, GotoEntry, Route,
    SwitchState, SwitchView,
};
use crate::sync::SyncEvent;
use crate::update::{create_update, Update, UpdateView};
use crate::Error;

verus! {

/// One configured client: its address, and an optional chord that jumps
/// straight to it.
pub struct ClientConfig {
    pub addr: u128,
    pub goto_keys: Option<Vec<Key>>,
}

/// How a device read ended.  An unplugged device reports a broken pipe;
/// anything else is an unexpected failure of the input layer.
#[derive(Clone, Copy, Debug, PartialEq, Eq, Structural)]
pub enum InputErrorKind {
    BrokenPipe,
    Other,
}

/// The outcome of the non-blocking write-back of one event to its source
/// device.
#[derive(Clone, Copy, Debug, PartialEq, Eq, Structural)]
pub enum LocalSend {
    Delivered,
    Closed,
    Full,
}

/// An unplugged device is torn down and the server carries on; any other
/// device failure is fatal.
pub fn device_error_is_unplug(kind: InputErrorKind) -> (r: bool)
    ensures
        r == (kind is BrokenPipe),
{
    matches!(kind, InputErrorKind::BrokenPipe)
}

/// What a local write-back outcome means: a full queue is the fatal
/// overflow, a closed channel only a dying device and is ignored.
pub fn local_send_outcome(status: LocalSend) -> (r: Result<(), Error>)
    ensures
        r is Err <==> status is Full,
        r matches Err(e) ==> e == Error::Overflow,
        r matches Ok(o) ==> o == (),
{
    match status {
        LocalSend::Full => Err(Error::Overflow),
        LocalSend::Delivered => Ok(()),
        LocalSend::Closed => Ok(()),
    }
}

/// The jump chord of the server itself, as a scan entry: target `0`.
pub open spec fn spec_server_goto(server: Option<Vec<Key>>) -> Seq<(Set<Key>, int)> {
    match server {
        Some(v) => seq![(v@.to_set(), 0int)],
        None => Seq::empty(),
    }
}

/// The jump chords of the first `upto` configured clients, in order; the
/// client at position `i` is routing target `i + 1`.
pub open spec fn spec_client_gotos(configs: Seq<ClientConfig>, upto: int) -> Seq<(Set<Key>, int)>
    decreases upto,
{
    if upto <= 0 {
        Seq::empty()
    } else {
        spec_client_gotos(configs, upto - 1) + (match configs[upto - 1].goto_keys {
            Some(v) => seq![(v@.to_set(), upto)],
            None => Seq::empty(),
        })
    }
}

/// The announcements of every live device among the first `upto` slots, in
/// identifier order.
pub open spec fn spec_snapshot(slots: Seq<Option<Device>>, upto: int) -> Seq<UpdateView>
    decreases upto,
{
    if upto <= 0 {
        Seq::empty()
    } else {
        spec_snapshot(slots, upto - 1) + (match slots[upto - 1] {
            Some(d) => seq![(UpdateView::CreateDevice { id: upto - 1, dev: d@ })],
            None => Seq::empty(),
        })
    }
}

/// The switching core's state.
pub struct Core {
    pub devices: DeviceRegistry,
    pub clients: ClientRegistry,
    pub switch: SwitchState,
}

impl Core {
    /// Soundness of the whole core: both registries and the switching state
    /// are sound, and the active target exists.
    pub open spec fn wf(self) -> bool {
        &&& self.clients.wf()
        &&& switch_wf(self.switch@)
        &&& spec_target_exists(self.clients.slots@, self.switch@.current)
    }

    /// A core for the given configuration: no devices, one reserved slot per
    /// configured client, routing to the local machine.  The jump chords are
    /// scanned with the server's own first, then each client's in
    /// configuration order.
    pub fn new(
        switch_keys: Vec<Key>,
        propagate_switch_keys: bool,
        server_goto_keys: Option<Vec<Key>>,
        client_configs: Vec<ClientConfig>,
    ) -> (r: Core)
        requires
            switch_keys@.len() > 0,
            server_goto_keys matches Some(v) ==> v@.len() > 0,
            forall|i: int|
                0 <= i < client_configs@.len() ==> ((#[trigger] client_configs@[i]).goto_keys
                    matches Some(v) ==> v@.len() > 0),
        ensures
            r.wf(),
            r.devices.slots@.len() == 0,
            r.clients.slots@.len() == client_configs@.len(),
            r.clients.static_peers@ == client_configs@.map_values(|c: ClientConfig| c.addr),
            forall|i: int|
                0 <= i < r.clients.slots@.len() ==> r.clients.slots@[i] == ClientSlot::Empty,
            r.switch@.current == 0,
            r.switch@.previous == 0,
            r.switch@.changed == false,
            r.switch@.pressed == Set::<Key>::empty(),
            r.switch@.switch_keys == switch_keys@.to_set(),
            r.switch@.propagate_switch_keys == propagate_switch_keys,
            r.switch@.goto_keys == spec_server_goto(server_goto_keys) + spec_client_gotos(
                client_configs@,
                client_configs@.len() as int,
            ),
    {
        let ghost expected_server = spec_server_goto(server_goto_keys);
        let mut goto_entries: Vec<GotoEntry> = Vec::new();
        match server_goto_keys {
            Some(keys) => {
                proof {
                    assert(keys@.to_set().contains(keys@[0]));
                }
                goto_entries.push(GotoEntry { keys: KeySet::from_vec(keys), target: 0 });
                proof {
                    assert(goto_entries@.map_values(|e: GotoEntry| (e.keys@, e.target as int))
                        =~= expected_server);
                }
            },
            None => {
                proof {
                    assert(goto_entries@.map_values(|e: GotoEntry| (e.keys@, e.target as int))
                        =~= expected_server);
                }
            },
        }

        let mut static_peers: Vec<u128> = Vec::new();
        let mut i: usize = 0;
        while i < client_configs.len()
            invariant
                i <= client_configs@.len(),
                static_peers@ == client_configs@.take(i as int).map_values(
                    |c: ClientConfig| c.addr,
                ),
                goto_entries@.map_values(|e: GotoEntry| (e.keys@, e.target as int))
                    == expected_server + spec_client_gotos(client_configs@, i as int),
                forall|k: int|
                    0 <= k < goto_entries@.len() ==> (#[trigger] goto_entries@[k]).keys@
                        != Set::<Key>::empty(),
                forall|i2: int|
                    0 <= i2 < client_configs@.len()
                        ==> ((#[trigger] client_configs@[i2]).goto_keys matches Some(v)
                            ==> v@.len() > 0),
            decreases client_configs.len() - i,
        {
            let config = &client_configs[i];
            static_peers.push(config.addr);
            proof {
                assert(static_peers@ =~= client_configs@.take(i + 1).map_values(
                    |c: ClientConfig| c.addr,
                ));
            }
            match &config.goto_keys {
                Some(v) => {
                    proof {
                        assert(v@.to_set().contains(v@[0]));
                    }
                    let ghost prev = goto_entries@;
                    let keys = KeySet::from_vec(copy_vec(v));
                    let ghost keys_view = keys@;
                    goto_entries.push(GotoEntry { keys, target: i + 1 });
                    proof {
                        let f = |e: GotoEntry| (e.keys@, e.target as int);
                        assert(goto_entries@ == prev.push(goto_entries@.last()));
                        assert(goto_entries@.last().keys@ == keys_view);
                        assert(goto_entries@.map_values(f)
                            =~= prev.map_values(f).push((keys_view, i + 1 as int)));
                        assert(spec_client_gotos(client_configs@, i + 1)
                            == spec_client_gotos(client_configs@, i as int)
                                + seq![(v@.to_set(), i + 1 as int)]);
                        assert(keys_view == v@.to_set());
                        assert(goto_entries@.map_values(f)
                            =~= expected_server + spec_client_gotos(client_configs@, i + 1));
                    }
                },
                None => {
                    proof {
                        assert(goto_entries@.map_values(|e: GotoEntry| (e.keys@, e.target as int))
                            =~= expected_server + spec_client_gotos(client_configs@, i + 1));
                    }
                },
            }
            i += 1;
        }
        proof {
            assert(client_configs@.take(client_configs@.len() as int) =~= client_configs@);
            assert(switch_keys@.to_set().contains(switch_keys@[0]));
        }

        let switch = SwitchState::new(
            KeySet::from_vec(switch_keys),
            goto_entries,
            propagate_switch_keys,
        );
        let clients = ClientRegistry::new(static_peers);
        let devices = DeviceRegistry::new();
        Core { devices, clients, switch }
    }

    /// The announcements of every live device, in identifier order: what a
    /// freshly accepted client must receive before any event.
    fn snapshot(&self) -> (r: Vec<Update>)
        ensures
            r@.map_values(|u: Update| u@) == spec_snapshot(
                self.devices.slots@,
                self.devices.slots@.len() as int,
            ),
    {
        let mut out: Vec<Update> = Vec::new();
        let mut i: usize = 0;
        while i < self.devices.slots.len()
            invariant
                i <= self.devices.slots@.len(),
                out@.map_values(|u: Update| u@) == spec_snapshot(self.devices.slots@, i as int),
            decreases self.devices.slots.len() - i,
        {
            match self.devices.slots[i].as_ref() {
                Some(device) => {
                    out.push(create_update(i, device));
                    proof {
                        assert(out@.map_values(|u: Update| u@)
                            =~= spec_snapshot(self.devices.slots@, i + 1));
                    }
                },
                None => {
                    proof {
                        assert(out@.map_values(|u: Update| u@)
                            =~= spec_snapshot(self.devices.slots@, i + 1));
                    }
                },
            }
            i += 1;
        }
        out
    }

    /// The slots holding connected clients, ascending: the recipients of a
    /// broadcast.
    pub fn present_clients(&self) -> (r: Vec<usize>)
        ensures
            forall|k: int| 0 <= k < r@.len() ==> slot_present(self.clients.slots@, r@[k] as int),
            forall|i: int| slot_present(self.clients.slots@, i) ==> r@.contains(i as usize),
            forall|k1: int, k2: int| 0 <= k1 < k2 < r@.len() ==> r@[k1] < r@[k2],
    {
        self.clients.present_indices()
    }

    /// A new connection was accepted.  Dead clients are swept first and the
    /// active target reset if its slot was swept; the caller learns the slot
    /// the newcomer got and the announcements to send it before anything
    /// else.  `closed[i]` says whether the client in slot `i`, if any, is
    /// known dead.
    pub fn on_accept(&mut self, peer: u128, closed: &Vec<bool>) -> (r: (usize, Vec<Update>))
        requires
            old(self).wf(),
            closed@.len() == old(self).clients.slots@.len(),
            old(self).clients.slots@.len() < usize::MAX,
        ensures
            final(self).wf(),
            final(self).devices == old(self).devices,
            final(self).clients.static_peers@ == old(self).clients.static_peers@,
            ({
                let swept = spec_sweep(
                    old(self).clients.slots@,
                    closed@,
                    old(self).clients.static_len(),
                );
                &&& final(self).clients.slots@ == (if (r.0 as int) < swept.len() {
                    swept.update(r.0 as int, (ClientSlot::Present { peer }))
                } else {
                    swept.push((ClientSlot::Present { peer }))
                })
                &&& forall|j: int|
                    is_first_static_match(old(self).clients.static_peers@, peer, j) ==> (
                    if swept[j] is Empty {
                        r.0 == j
                    } else {
                        is_first_vacant(swept, r.0 as int)
                    })
                &&& (no_static_match(old(self).clients.static_peers@, peer) ==> is_first_vacant(
                    swept,
                    r.0 as int,
                ))
                &&& final(self).switch@ == (SwitchView {
                    current: if spec_target_exists(swept, old(self).switch@.current) {
                        old(self).switch@.current
                    } else {
                        0
                    },
                    ..old(self).switch@
                })
            }),
            r.1@.map_values(|u: Update| u@) == spec_snapshot(
                old(self).devices.slots@,
                old(self).devices.slots@.len() as int,
            ),
    {
        self.clients.sweep(closed);
        if self.switch.current > 0 && !self.clients.is_present(self.switch.current - 1) {
            self.switch.current = 0;
        }
        let snapshot = self.snapshot();
        let idx = self.clients.connect(peer);
        (idx, snapshot)
    }

    /// A new device appeared with the given record.  It gets the lowest free
    /// identifier; the caller broadcasts the returned announcement to every
    /// present client, then starts the device's capture task.
    pub fn on_new_device(&mut self, device: Device) -> (r: (usize, Update))
        requires
            old(self).wf(),
            old(self).devices.slots@.len() < usize::MAX,
        ensures
            final(self).wf(),
            final(self).clients == old(self).clients,
            final(self).switch == old(self).switch,
            is_first_free(old(self).devices.slots@, r.0 as int),
            final(self).devices.slots@ == (if (r.0 as int) < old(self).devices.slots@.len() {
                old(self).devices.slots@.update(r.0 as int, Some(device))
            } else {
                old(self).devices.slots@.push(Some(device))
            }),
            device_live(final(self).devices.slots@, r.0 as int),
            live_ids(final(self).devices.slots@) == live_ids(old(self).devices.slots@).insert(
                r.0 as int,
            ),
            r.1@ == (UpdateView::CreateDevice { id: r.0 as int, dev: device@ }),
    {
        let id = self.devices.vacant_key();
        let update = create_update(id, &device);
        let id2 = self.devices.insert(device);
        proof {
            if id != id2 {
                if id < id2 {
                    assert(self.devices.slots@[id as int] is Some);
                } else {
                    assert(old(self).devices.slots@[id2 as int] is Some);
                }
            }
        }
        (id2, update)
    }

    /// An event arrived from live device `id`: run the switching machine and
    /// say where the event goes.  The caller delivers: locally by a
    /// non-blocking write back to the source device, remotely by a send to
    /// the target's queue, feeding a failure into `on_client_send_failed`.
    pub fn on_device_event(&mut self, id: usize, event: &Event) -> (r: Route)
        requires
            old(self).wf(),
            device_live(old(self).devices.slots@, id as int),
            old(self).clients.slots@.len() < usize::MAX,
        ensures
            final(self).wf(),
            final(self).devices == old(self).devices,
            final(self).clients == old(self).clients,
            final(self).switch@ == spec_step(old(self).switch@, old(self).clients.slots@, *event),
            spec_discards(old(self).switch@, *event) ==> r is Discard,
            !spec_discards(old(self).switch@, *event) ==> (r matches Route::Deliver {
                target,
                events,
            } && target as int == spec_route_target(old(self).switch@, *event) && events@ == (
            if spec_press(old(self).switch@, *event) {
                seq![*event, Event::Sync(SyncEvent::All)]
            } else {
                seq![*event]
            })),
    {
        self.switch.on_event(&self.clients, event)
    }

    /// Device `id` reported a broken pipe: it was unplugged.  Its record is
    /// freed; the caller broadcasts the returned teardown message to every
    /// present client.
    pub fn on_device_broken(&mut self, id: usize) -> (u: Update)
        requires
            old(self).wf(),
            device_live(old(self).devices.slots@, id as int),
        ensures
            final(self).wf(),
            final(self).clients == old(self).clients,
            final(self).switch == old(self).switch,
            final(self).devices.slots@ == old(self).devices.slots@.update(
                id as int,
                None::<Device>,
            ),
            live_ids(final(self).devices.slots@) == live_ids(old(self).devices.slots@).remove(
                id as int,
            ),
            u@ == (UpdateView::DestroyDevice { id: id as int }),
    {
        self.devices.remove(id);
        Update::DestroyDevice { id }
    }

    /// Sending to routing target `target` failed: its client is gone.  The
    /// slot is swept, and routing falls back to the local machine when the
    /// dead client was the active target.
    pub fn on_client_send_failed(&mut self, target: usize)
        requires
            old(self).wf(),
            1 <= target,
            target - 1 < old(self).clients.slots@.len(),
        ensures
            final(self).wf(),
            final(self).devices == old(self).devices,
            final(self).clients.static_peers@ == old(self).clients.static_peers@,
            final(self).clients.slots@ == old(self).clients.slots@.update(
                target - 1,
                if target - 1 < old(self).clients.static_len() {
                    ClientSlot::Empty
                } else {
                    ClientSlot::Vacant
                },
            ),
            final(self).switch@ == (SwitchView {
                current: if old(self).switch@.current == target {
                    0
                } else {
                    old(self).switch@.current
                },
                ..old(self).switch@
            }),
    {
        self.clients.disconnect(target - 1);
        if self.switch.current == target {
            self.switch.current = 0;
        }
    }
}

} // verus!
