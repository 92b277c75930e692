//! Tests for the replay loop, the writer, and the raw code tables.

use rkvm_core::abs::{AbsAxis, AbsEvent, AbsInfo, ToolType};
use rkvm_core::event::Event;
use rkvm_core::key::{Button, Key, KeyEvent, Keyboard};
use rkvm_core::normalizer::AxisNormalizer;
use rkvm_core::rel::{RelAxis, RelEvent};
use rkvm_core::replay::{ReplayAction, Replayer};
use rkvm_core::sync::SyncEvent;
use rkvm_core::update::Update;
use rkvm_core::writer::{
    map_button, map_key_to_scancode, Input, WriterWindows, KEYEVENTF_EXTENDEDKEY, KEYEVENTF_KEYUP,
    KEYEVENTF_SCANCODE, MOUSEEVENTF_ABSOLUTE, MOUSEEVENTF_LEFTDOWN, MOUSEEVENTF_MOVE,
    MOUSEEVENTF_VIRTUALDESK, MOUSEEVENTF_WHEEL, MOUSEEVENTF_XUP,
};

#[test]
fn replay_dispatch() {
    let mut replayer = Replayer::new();
    let create = Update::CreateDevice {
        id: 5,
        name: b"kbd".to_vec(),
        vendor: 1,
        product: 2,
        version: 3,
        rel: vec![],
        abs: vec![],
        keys: vec![],
        delay: None,
        period: None,
    };
    match replayer.on_update(create) {
        ReplayAction::Build { update } => {
            assert!(matches!(update, Update::CreateDevice { id: 5, .. }));
        }
        _ => panic!("an announcement builds a device"),
    }
    assert!(replayer.knows(5));

    let event = Event::Sync(SyncEvent::All);
    match replayer.on_update(Update::Event { id: 5, event }) {
        ReplayAction::Replay { id, event: e } => {
            assert_eq!(id, 5);
            assert_eq!(e, event);
        }
        _ => panic!("a known identifier replays"),
    }

    // An unknown identifier is ignored, not fatal.
    assert!(matches!(
        replayer.on_update(Update::Event { id: 6, event }),
        ReplayAction::Ignore
    ));

    assert!(matches!(
        replayer.on_update(Update::Ping),
        ReplayAction::Pong
    ));

    assert!(matches!(
        replayer.on_update(Update::DestroyDevice { id: 5 }),
        ReplayAction::Teardown { id: 5 }
    ));
    assert!(!replayer.knows(5));
    assert!(matches!(
        replayer.on_update(Update::Event { id: 5, event }),
        ReplayAction::Ignore
    ));
}

#[test]
fn scancode_table() {
    assert_eq!(map_key_to_scancode(&Keyboard::A), Some((0x1E, false)));
    assert_eq!(map_key_to_scancode(&Keyboard::LeftCtrl), Some((0x1D, false)));
    assert_eq!(map_key_to_scancode(&Keyboard::RightCtrl), Some((0x1D, true)));
    assert_eq!(map_key_to_scancode(&Keyboard::Up), Some((0x48, true)));
    assert_eq!(map_key_to_scancode(&Keyboard::KpEnter), Some((0x1C, true)));
    assert_eq!(map_key_to_scancode(&Keyboard::Mute), None);
}

#[test]
fn button_table() {
    assert_eq!(map_button(&Button::Left, &true), Some((MOUSEEVENTF_LEFTDOWN, 0)));
    assert_eq!(map_button(&Button::Extra, &false), Some((MOUSEEVENTF_XUP, 2)));
    assert_eq!(map_button(&Button::Forward, &true), None);
}

#[test]
fn writer_batches_until_sync() {
    let mut writer = WriterWindows::builder()
        .rel(&vec![RelAxis::X, RelAxis::Y, RelAxis::Wheel])
        .abs(&vec![])
        .build();
    assert!(!writer.hi_wheel);

    let none = writer.write(&Event::Key(KeyEvent {
        key: Key::Key(Keyboard::A),
        down: true,
    }));
    assert!(none.is_empty());
    let none = writer.write(&Event::Rel(RelEvent {
        axis: RelAxis::X,
        value: 7,
    }));
    assert!(none.is_empty());
    let none = writer.write(&Event::Rel(RelEvent {
        axis: RelAxis::Wheel,
        value: -1,
    }));
    assert!(none.is_empty());

    let batch = writer.write(&Event::Sync(SyncEvent::All));
    assert_eq!(batch.len(), 3);
    assert_eq!(
        batch[0],
        Input::Keyboard {
            scan: 0x1E,
            flags: KEYEVENTF_SCANCODE,
        }
    );
    assert_eq!(
        batch[1],
        Input::Mouse {
            dx: 7,
            dy: 0,
            data: 0,
            flags: MOUSEEVENTF_MOVE,
        }
    );
    // A coarse wheel tick scales by 120 and wraps negative deltas into the
    // unsigned data field.
    assert_eq!(
        batch[2],
        Input::Mouse {
            dx: 0,
            dy: 0,
            data: (-120i32) as u32,
            flags: MOUSEEVENTF_WHEEL,
        }
    );

    // The buffer is empty again.
    let batch = writer.write(&Event::Sync(SyncEvent::All));
    assert!(batch.is_empty());
}

#[test]
fn writer_key_up_flags() {
    let mut writer = WriterWindows::builder().build();
    writer.write(&Event::Key(KeyEvent {
        key: Key::Key(Keyboard::RightAlt),
        down: false,
    }));
    let batch = writer.write(&Event::Sync(SyncEvent::All));
    assert_eq!(
        batch,
        vec![Input::Keyboard {
            scan: 0x38,
            flags: KEYEVENTF_SCANCODE | KEYEVENTF_KEYUP | KEYEVENTF_EXTENDEDKEY,
        }]
    );
}

#[test]
fn writer_high_resolution_wheel() {
    // With a high-resolution wheel the coarse events are dropped and the
    // fine ones pass through unscaled.
    let mut writer = WriterWindows::builder()
        .rel(&vec![RelAxis::Wheel, RelAxis::WheelHiRes])
        .build();
    assert!(writer.hi_wheel);
    writer.write(&Event::Rel(RelEvent {
        axis: RelAxis::Wheel,
        value: 1,
    }));
    writer.write(&Event::Rel(RelEvent {
        axis: RelAxis::WheelHiRes,
        value: 30,
    }));
    let batch = writer.write(&Event::Sync(SyncEvent::All));
    assert_eq!(batch.len(), 1);
    assert_eq!(
        batch[0],
        Input::Mouse {
            dx: 0,
            dy: 0,
            data: 30,
            flags: MOUSEEVENTF_WHEEL,
        }
    );
}

#[test]
fn writer_absolute_position() {
    let mut writer = WriterWindows::builder()
        .abs(&vec![(
            AbsAxis::X,
            AbsInfo {
                min: 0,
                max: 100,
                fuzz: 0,
                flat: 0,
                resolution: 0,
            },
        )])
        .build();
    writer.write(&Event::Abs(AbsEvent::Axis {
        axis: AbsAxis::X,
        value: 50,
    }));
    // An axis nobody announced is dropped.
    writer.write(&Event::Abs(AbsEvent::Axis {
        axis: AbsAxis::Y,
        value: 50,
    }));
    writer.write(&Event::Abs(AbsEvent::MtToolType {
        value: ToolType::Pen,
    }));
    let batch = writer.write(&Event::Sync(SyncEvent::All));
    assert_eq!(batch.len(), 1);
    assert_eq!(
        batch[0],
        Input::Mouse {
            dx: (50 * 65535 - 0) / 100,
            dy: 0,
            data: 0,
            flags: MOUSEEVENTF_MOVE | MOUSEEVENTF_ABSOLUTE | MOUSEEVENTF_VIRTUALDESK,
        }
    );
}

#[test]
fn normalizer_scales() {
    let normalizer = AxisNormalizer::new(0, 100);
    assert_eq!(normalizer.normalize(50), (50 * 65535) / 100);
    assert_eq!(normalizer.normalize(0), 0);
    assert_eq!(normalizer.normalize(100), 65535);
    // A degenerate range collapses to zero.
    let flat = AxisNormalizer::new(7, 7);
    assert_eq!(flat.normalize(7), 0);
}

#[test]
fn key_codes_round_trip() {
    assert_eq!(Key::from_raw(30), Some(Key::Key(Keyboard::A)));
    assert_eq!(Key::from_raw(0x110), Some(Key::Button(Button::Left)));
    assert_eq!(Key::from_raw(0xFFFF), None);
    assert_eq!(Key::Key(Keyboard::A).to_raw(), Some(30));
    assert_eq!(Key::Button(Button::Task).to_raw(), Some(0x117));

    for code in 0u16..0x200 {
        if let Some(key) = Key::from_raw(code) {
            assert_eq!(key.to_raw(), Some(code));
        }
    }
}

#[test]
fn axis_codes_round_trip() {
    assert_eq!(RelAxis::from_raw(8), Some(RelAxis::Wheel));
    assert_eq!(RelAxis::from_raw(10), None);
    assert_eq!(RelAxis::Wheel.to_raw(), Some(8));

    assert_eq!(AbsAxis::from_raw(0x2f), Some(AbsAxis::MtSlot));
    assert_eq!(AbsAxis::from_raw(0x0b), None);
    assert_eq!(AbsAxis::MtToolY.to_raw(), Some(0x3c));

    assert_eq!(SyncEvent::from_raw(0), Some(SyncEvent::All));
    assert_eq!(SyncEvent::from_raw(1), None);
    assert_eq!(SyncEvent::Mt.to_raw(), Some(2));

    assert_eq!(ToolType::from_raw(10), Some(ToolType::Dial));
    assert_eq!(ToolType::from_raw(3), None);
    assert_eq!(ToolType::Palm.to_raw(), 2);
}
