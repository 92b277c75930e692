//! Scenario tests for the switching core.

use rkvm_core::clients::ClientSlot;
use rkvm_core::devices::Device;
use rkvm_core::event::Event;
use rkvm_core::key::{Key, KeyEvent, Keyboard};
use rkvm_core::rel::{RelAxis, RelEvent};
use rkvm_core::server::{
    device_error_is_unplug, local_send_outcome, ClientConfig, Core, InputErrorKind, LocalSend,
};
use rkvm_core::switch::Route;
use rkvm_core::sync::SyncEvent;
use rkvm_core::update::Update;
use rkvm_core::Error;

fn key_event(key: Keyboard, down: bool) -> Event {
    Event::Key(KeyEvent {
        key: Key::Key(key),
        down,
    })
}

fn sample_device(name: &[u8]) -> Device {
    Device {
        name: name.to_vec(),
        vendor: 0x1234,
        product: 0x5678,
        version: 1,
        rel: vec![RelAxis::X, RelAxis::Y],
        abs: vec![],
        keys: vec![Key::Key(Keyboard::A)],
        delay: Some(250),
        period: Some(33),
    }
}

fn deliver_target(route: &Route) -> Option<usize> {
    match route {
        Route::Deliver { target, .. } => Some(*target),
        Route::Discard => None,
    }
}

#[test]
fn single_client_rotate() {
    // One static client; the chord LeftCtrl+RightCtrl rotates, chord events
    // are not propagated.
    let mut core = Core::new(
        vec![Key::Key(Keyboard::LeftCtrl), Key::Key(Keyboard::RightCtrl)],
        false,
        None,
        vec![ClientConfig {
            addr: 0x0a00_0001,
            goto_keys: None,
        }],
    );

    let (idx, snapshot) = core.on_accept(0x0a00_0001, &vec![false]);
    assert_eq!(idx, 0);
    assert!(snapshot.is_empty());

    let (id, update) = core.on_new_device(sample_device(b"kbd"));
    assert_eq!(id, 0);
    assert!(matches!(update, Update::CreateDevice { id: 0, .. }));

    // The chord goes down: both events are swallowed, and the second one
    // switches to the client.
    assert!(matches!(
        core.on_device_event(0, &key_event(Keyboard::LeftCtrl, true)),
        Route::Discard
    ));
    assert_eq!(core.switch.current, 0);
    assert!(matches!(
        core.on_device_event(0, &key_event(Keyboard::RightCtrl, true)),
        Route::Discard
    ));
    assert_eq!(core.switch.current, 1);

    // The chord releases; a mouse move then reaches the client.
    core.on_device_event(0, &key_event(Keyboard::LeftCtrl, false));
    core.on_device_event(0, &key_event(Keyboard::RightCtrl, false));
    let route = core.on_device_event(
        0,
        &Event::Rel(RelEvent {
            axis: RelAxis::X,
            value: 5,
        }),
    );
    match route {
        Route::Deliver { target, events } => {
            assert_eq!(target, 1);
            assert_eq!(events.len(), 1);
            assert!(matches!(
                events[0],
                Event::Rel(RelEvent {
                    axis: RelAxis::X,
                    value: 5
                })
            ));
        }
        Route::Discard => panic!("a plain event must be delivered"),
    }

    // The chord again: back to the local machine, and events route locally.
    core.on_device_event(0, &key_event(Keyboard::LeftCtrl, true));
    core.on_device_event(0, &key_event(Keyboard::RightCtrl, true));
    assert_eq!(core.switch.current, 0);
    core.on_device_event(0, &key_event(Keyboard::LeftCtrl, false));
    core.on_device_event(0, &key_event(Keyboard::RightCtrl, false));
    let route = core.on_device_event(
        0,
        &Event::Rel(RelEvent {
            axis: RelAxis::Y,
            value: -2,
        }),
    );
    assert_eq!(deliver_target(&route), Some(0));
}

#[test]
fn goto_direct_jump() {
    // Client A in slot 0 (target 1), client B in slot 1 (target 2); F1 jumps
    // to the server, F2 to client B.
    let mut core = Core::new(
        vec![Key::Key(Keyboard::LeftCtrl)],
        false,
        Some(vec![Key::Key(Keyboard::F1)]),
        vec![
            ClientConfig {
                addr: 1,
                goto_keys: None,
            },
            ClientConfig {
                addr: 2,
                goto_keys: Some(vec![Key::Key(Keyboard::F2)]),
            },
        ],
    );
    let (a, _) = core.on_accept(1, &vec![false, false]);
    assert_eq!(a, 0);
    let (b, _) = core.on_accept(2, &vec![false, false]);
    assert_eq!(b, 1);
    let (id, _) = core.on_new_device(sample_device(b"kbd"));

    // Rotate to target 1 first.
    core.on_device_event(id, &key_event(Keyboard::LeftCtrl, true));
    assert_eq!(core.switch.current, 1);
    core.on_device_event(id, &key_event(Keyboard::LeftCtrl, false));

    // F2 jumps straight to client B, bypassing the rotation order.
    core.on_device_event(id, &key_event(Keyboard::F2, true));
    assert_eq!(core.switch.current, 2);
    core.on_device_event(id, &key_event(Keyboard::F2, false));

    // F1 jumps to the server.
    core.on_device_event(id, &key_event(Keyboard::F1, true));
    assert_eq!(core.switch.current, 0);
}

#[test]
fn disconnect_during_active() {
    // Two static clients, the second active; its send fails.
    let mut core = Core::new(
        vec![Key::Key(Keyboard::LeftCtrl)],
        false,
        None,
        vec![
            ClientConfig {
                addr: 1,
                goto_keys: None,
            },
            ClientConfig {
                addr: 2,
                goto_keys: Some(vec![Key::Key(Keyboard::F2)]),
            },
        ],
    );
    core.on_accept(1, &vec![false, false]);
    core.on_accept(2, &vec![false, false]);
    let (id, _) = core.on_new_device(sample_device(b"kbd"));

    core.on_device_event(id, &key_event(Keyboard::F2, true));
    assert_eq!(core.switch.current, 2);
    core.on_device_event(id, &key_event(Keyboard::F2, false));

    core.on_client_send_failed(2);
    assert_eq!(core.switch.current, 0);
    assert_eq!(core.clients.slots[1], ClientSlot::Empty);

    // The next event routes locally.
    let route = core.on_device_event(
        id,
        &Event::Rel(RelEvent {
            axis: RelAxis::X,
            value: 1,
        }),
    );
    assert_eq!(deliver_target(&route), Some(0));
}

#[test]
fn overflow_is_fatal() {
    // A full local write-back queue is the fatal overflow; a closed one is
    // only a dying device.
    assert_eq!(local_send_outcome(LocalSend::Full), Err(Error::Overflow));
    assert_eq!(local_send_outcome(LocalSend::Delivered), Ok(()));
    assert_eq!(local_send_outcome(LocalSend::Closed), Ok(()));
}

#[test]
fn device_error_policy() {
    assert!(device_error_is_unplug(InputErrorKind::BrokenPipe));
    assert!(!device_error_is_unplug(InputErrorKind::Other));
}

#[test]
fn hot_plug_broadcast() {
    // Two clients connected; a new device is announced to both, under one
    // identifier, before any event mentions it.
    let mut core = Core::new(
        vec![Key::Key(Keyboard::LeftCtrl)],
        false,
        None,
        vec![
            ClientConfig {
                addr: 1,
                goto_keys: None,
            },
            ClientConfig {
                addr: 2,
                goto_keys: None,
            },
        ],
    );
    core.on_accept(1, &vec![false, false]);
    core.on_accept(2, &vec![false, false]);

    let recipients = core.present_clients();
    assert_eq!(recipients, vec![0, 1]);

    let (id, update) = core.on_new_device(sample_device(b"tablet"));
    assert_eq!(id, 0);
    match &update {
        Update::CreateDevice {
            id: uid,
            name,
            vendor,
            ..
        } => {
            assert_eq!(*uid, 0);
            assert_eq!(name.as_slice(), b"tablet");
            assert_eq!(*vendor, 0x1234);
        }
        _ => panic!("a new device must be announced"),
    }

    // A later connection receives the same announcement in its snapshot.
    let (_, snapshot) = core.on_accept(3, &vec![false, false]);
    assert_eq!(snapshot.len(), 1);
    assert!(matches!(snapshot[0], Update::CreateDevice { id: 0, .. }));
}

#[test]
fn at_most_one_switch_per_combo() {
    // While part of the chord stays held, the target changes exactly once,
    // and chord key-ups drain to the pre-switch target.
    let mut core = Core::new(
        vec![Key::Key(Keyboard::LeftCtrl), Key::Key(Keyboard::RightCtrl)],
        true,
        None,
        vec![ClientConfig {
            addr: 7,
            goto_keys: None,
        }],
    );
    core.on_accept(7, &vec![false]);
    let (id, _) = core.on_new_device(sample_device(b"kbd"));

    let r1 = core.on_device_event(id, &key_event(Keyboard::LeftCtrl, true));
    assert_eq!(deliver_target(&r1), Some(0));
    let r2 = core.on_device_event(id, &key_event(Keyboard::RightCtrl, true));
    // The switch-press itself still goes to the pre-switch target, followed
    // by a commit barrier.
    match r2 {
        Route::Deliver { target, events } => {
            assert_eq!(target, 0);
            assert_eq!(events.len(), 2);
            assert!(matches!(events[1], Event::Sync(SyncEvent::All)));
        }
        Route::Discard => panic!("propagation is on"),
    }
    assert_eq!(core.switch.current, 1);

    // Re-pressing part of the chord while it drains changes nothing.
    let r3 = core.on_device_event(id, &key_event(Keyboard::RightCtrl, false));
    assert_eq!(deliver_target(&r3), Some(0));
    assert_eq!(core.switch.current, 1);
    core.on_device_event(id, &key_event(Keyboard::RightCtrl, true));
    assert_eq!(core.switch.current, 1);

    // Only after the chord fully releases can it switch again.
    core.on_device_event(id, &key_event(Keyboard::LeftCtrl, false));
    core.on_device_event(id, &key_event(Keyboard::RightCtrl, false));
    core.on_device_event(id, &key_event(Keyboard::LeftCtrl, true));
    core.on_device_event(id, &key_event(Keyboard::RightCtrl, true));
    assert_eq!(core.switch.current, 0);
}

#[test]
fn propagation_flag_suppresses_chord_events() {
    let mut core = Core::new(
        vec![Key::Key(Keyboard::LeftCtrl)],
        false,
        None,
        vec![ClientConfig {
            addr: 9,
            goto_keys: None,
        }],
    );
    core.on_accept(9, &vec![false]);
    let (id, _) = core.on_new_device(sample_device(b"kbd"));

    // Every chord event is swallowed; a non-chord key is delivered.
    assert!(matches!(
        core.on_device_event(id, &key_event(Keyboard::LeftCtrl, true)),
        Route::Discard
    ));
    assert!(matches!(
        core.on_device_event(id, &key_event(Keyboard::LeftCtrl, false)),
        Route::Discard
    ));
    let route = core.on_device_event(id, &key_event(Keyboard::A, true));
    assert!(matches!(route, Route::Deliver { .. }));
}

#[test]
fn mirror_tracks_registry() {
    // A client's mirror — snapshot plus creations minus destructions —
    // matches the live set, and an identifier is reused only after its
    // teardown was broadcast.
    let mut core = Core::new(
        vec![Key::Key(Keyboard::LeftCtrl)],
        false,
        None,
        vec![ClientConfig {
            addr: 4,
            goto_keys: None,
        }],
    );
    core.on_accept(4, &vec![false]);

    let mut mirror: std::collections::BTreeSet<usize> = std::collections::BTreeSet::new();
    let mut apply = |mirror: &mut std::collections::BTreeSet<usize>, u: &Update| match u {
        Update::CreateDevice { id, .. } => {
            mirror.insert(*id);
        }
        Update::DestroyDevice { id } => {
            mirror.remove(id);
        }
        _ => {}
    };

    let (a, ua) = core.on_new_device(sample_device(b"one"));
    apply(&mut mirror, &ua);
    let (b, ub) = core.on_new_device(sample_device(b"two"));
    apply(&mut mirror, &ub);
    assert_eq!(a, 0);
    assert_eq!(b, 1);
    assert_eq!(mirror.iter().copied().collect::<Vec<_>>(), vec![0, 1]);

    let ud = core.on_device_broken(a);
    apply(&mut mirror, &ud);
    assert_eq!(mirror.iter().copied().collect::<Vec<_>>(), vec![1]);
    assert!(!core.devices.is_live(0));
    assert!(core.devices.is_live(1));

    // The freed identifier is reissued only now, after the teardown.
    let (c, uc) = core.on_new_device(sample_device(b"three"));
    apply(&mut mirror, &uc);
    assert_eq!(c, 0);
    assert_eq!(mirror.iter().copied().collect::<Vec<_>>(), vec![0, 1]);
    assert!(core.devices.is_live(0));
}

#[test]
fn stale_static_slot_gets_dynamic() {
    // A configured peer reconnecting while its slot is still held is given
    // a fresh dynamic slot.
    let mut core = Core::new(
        vec![Key::Key(Keyboard::LeftCtrl)],
        false,
        None,
        vec![ClientConfig {
            addr: 5,
            goto_keys: None,
        }],
    );
    let (first, _) = core.on_accept(5, &vec![false]);
    assert_eq!(first, 0);
    let (second, _) = core.on_accept(5, &vec![false]);
    assert_eq!(second, 1);

    // Once the stale slot is swept, the reserved slot is used again.
    let (third, _) = core.on_accept(5, &vec![true, true]);
    assert_eq!(third, 0);
}

#[test]
fn rotation_skips_absent_targets() {
    // Two reserved slots but only the second client is connected: the
    // rotation passes over the empty slot.
    let mut core = Core::new(
        vec![Key::Key(Keyboard::LeftCtrl)],
        false,
        None,
        vec![
            ClientConfig {
                addr: 1,
                goto_keys: None,
            },
            ClientConfig {
                addr: 2,
                goto_keys: None,
            },
        ],
    );
    core.on_accept(2, &vec![false, false]);
    let (id, _) = core.on_new_device(sample_device(b"kbd"));

    core.on_device_event(id, &key_event(Keyboard::LeftCtrl, true));
    assert_eq!(core.switch.current, 2);
    core.on_device_event(id, &key_event(Keyboard::LeftCtrl, false));

    // And with nobody connected at all, the rotation lands back home.
    core.on_client_send_failed(2);
    core.on_device_event(id, &key_event(Keyboard::LeftCtrl, true));
    assert_eq!(core.switch.current, 0);
}

#[test]
fn dead_jump_target_is_ignored() {
    // A fully held jump chord whose target has no client switches nothing.
    let mut core = Core::new(
        vec![Key::Key(Keyboard::LeftCtrl)],
        false,
        None,
        vec![ClientConfig {
            addr: 1,
            goto_keys: Some(vec![Key::Key(Keyboard::F2)]),
        }],
    );
    let (id, _) = core.on_new_device(sample_device(b"kbd"));
    core.on_device_event(id, &key_event(Keyboard::F2, true));
    assert_eq!(core.switch.current, 0);
    core.on_device_event(id, &key_event(Keyboard::F2, false));

    // Once the client connects, the same chord jumps.
    core.on_accept(1, &vec![false]);
    core.on_device_event(id, &key_event(Keyboard::F2, true));
    assert_eq!(core.switch.current, 1);
}
