//! Tests for the authentication handshake and the wire codec.

use rkvm_core::abs::{AbsAxis, AbsEvent, AbsInfo, ToolType};
use rkvm_core::auth::{AuthChallenge, AuthResponse};
use rkvm_core::event::Event;
use rkvm_core::key::{Key, KeyEvent, Keyboard};
use rkvm_core::proto::{
    get_auth_status, get_event, get_pong, get_update, get_version, put_auth_status, put_event,
    put_pong, put_update, put_version, AuthStatus, Version,
};
use rkvm_core::rel::{RelAxis, RelEvent};
use rkvm_core::session::{
    auth_verdict, check_version, generate_challenge, select_outbound, verdict_gate, ClientError,
};
use rkvm_core::sync::SyncEvent;
use rkvm_core::update::Update;

#[test]
fn auth_round_trip() {
    let challenge = AuthChallenge {
        salt: (0u8..32).collect(),
        nonce: (100u8..116).collect(),
    };
    let password = b"correct horse".to_vec();
    let response = AuthResponse::generate(&password, &challenge);
    assert!(response.verify(&challenge, &password));

    // A response from another password, or against another challenge, does
    // not pass.
    let wrong = AuthResponse::generate(&b"wrong pony".to_vec(), &challenge);
    assert!(!wrong.verify(&challenge, &password));
    let other_challenge = AuthChallenge {
        salt: (1u8..33).collect(),
        nonce: (100u8..116).collect(),
    };
    let stale = AuthResponse::generate(&password, &other_challenge);
    assert!(!stale.verify(&challenge, &password));
}

#[test]
fn auth_digest_is_real() {
    // With an empty salt and nonce, the response is the digest of the
    // password alone; pin one well-known digest so a wrapper handing its
    // input back would fail.
    let challenge = AuthChallenge {
        salt: vec![],
        nonce: vec![],
    };
    let response = AuthResponse::generate(&b"abc".to_vec(), &challenge);
    let expected: [u8; 32] = [
        0xba, 0x78, 0x16, 0xbf, 0x8f, 0x01, 0xcf, 0xea, 0x41, 0x41, 0x40, 0xde, 0x5d, 0xae, 0x22,
        0x23, 0xb0, 0x03, 0x61, 0xa3, 0x96, 0x17, 0x7a, 0x9c, 0xb4, 0x10, 0xff, 0x61, 0xf2, 0x00,
        0x15, 0xad,
    ];
    assert_eq!(response.hash.as_slice(), &expected);
}

#[test]
fn auth_failure_closes_session() {
    // The wrong password earns the failed verdict and the session ends with
    // the authentication error.
    let challenge = match generate_challenge() {
        Ok(challenge) => challenge,
        Err(_) => panic!("randomness must be available here"),
    };
    assert_eq!(challenge.salt.len(), 32);
    assert_eq!(challenge.nonce.len(), 16);

    let password = b"right".to_vec();
    let presented = AuthResponse::generate(&b"not right".to_vec(), &challenge);
    let verdict = auth_verdict(&presented, &challenge, &password);
    assert_eq!(verdict, AuthStatus::Failed);
    assert_eq!(verdict_gate(verdict), Err(ClientError::Auth));

    let good = AuthResponse::generate(&password, &challenge);
    let verdict = auth_verdict(&good, &challenge, &password);
    assert_eq!(verdict, AuthStatus::Passed);
    assert_eq!(verdict_gate(verdict), Ok(()));
}

#[test]
fn challenges_are_fresh() {
    let a = generate_challenge().expect("randomness must be available here");
    let b = generate_challenge().expect("randomness must be available here");
    assert!(a.salt != b.salt || a.nonce != b.nonce);
}

#[test]
fn version_gate() {
    let current = Version::current();
    assert_eq!(check_version(current), Ok(()));

    let older = Version {
        major: current.major,
        minor: current.minor,
        patch: current.patch.wrapping_add(1),
    };
    match check_version(older) {
        Err(ClientError::Version { server, client }) => {
            assert_eq!(server, current);
            assert_eq!(client, older);
        }
        other => panic!("a version mismatch must be refused, got {:?}", other),
    }
}

#[test]
fn ping_outranks_updates() {
    let queued = Some(Update::DestroyDevice { id: 3 });
    match select_outbound(true, queued) {
        Some(Update::Ping) => {}
        other => panic!("the ping timer must win, got {:?}", other),
    }
    match select_outbound(false, Some(Update::DestroyDevice { id: 3 })) {
        Some(Update::DestroyDevice { id: 3 }) => {}
        other => panic!("without a tick the queue drains, got {:?}", other),
    }
    assert!(select_outbound(false, None).is_none());
}

#[test]
fn version_codec_round_trip() {
    let v = Version {
        major: 1,
        minor: 0x1234,
        patch: 0xFFEE,
    };
    let mut buf = Vec::new();
    put_version(&mut buf, &v);
    assert_eq!(buf.len(), 6);
    assert_eq!(buf[2], 0x34);
    assert_eq!(buf[3], 0x12);
    let (decoded, pos) = get_version(&buf, 0).expect("an encoded version decodes");
    assert_eq!(decoded, v);
    assert_eq!(pos, 6);

    // A truncated buffer is refused.
    buf.pop();
    assert!(get_version(&buf, 0).is_none());
}

#[test]
fn auth_status_codec() {
    let mut buf = Vec::new();
    put_auth_status(&mut buf, AuthStatus::Passed);
    put_auth_status(&mut buf, AuthStatus::Failed);
    let (s1, p1) = get_auth_status(&buf, 0).unwrap();
    let (s2, p2) = get_auth_status(&buf, p1).unwrap();
    assert_eq!(s1, AuthStatus::Passed);
    assert_eq!(s2, AuthStatus::Failed);
    assert_eq!(p2, 2);

    // An unknown verdict tag is a decode error.
    assert!(get_auth_status(&vec![9], 0).is_none());
}

#[test]
fn pong_codec() {
    let mut buf = Vec::new();
    put_pong(&mut buf);
    assert_eq!(get_pong(&buf, 0), Some(1));
    assert!(get_pong(&vec![5], 0).is_none());
}

#[test]
fn event_codec_round_trip() {
    let events = vec![
        Event::Key(KeyEvent {
            key: Key::Key(Keyboard::A),
            down: true,
        }),
        Event::Key(KeyEvent {
            key: Key::Button(rkvm_core::key::Button::Left),
            down: false,
        }),
        Event::Rel(RelEvent {
            axis: RelAxis::Wheel,
            value: -3,
        }),
        Event::Abs(AbsEvent::Axis {
            axis: AbsAxis::X,
            value: 12345,
        }),
        Event::Abs(AbsEvent::MtToolType {
            value: ToolType::Pen,
        }),
        Event::Sync(SyncEvent::All),
    ];
    let mut buf = Vec::new();
    for event in &events {
        put_event(&mut buf, event);
    }
    let mut pos = 0;
    for event in &events {
        let (decoded, next) = get_event(&buf, pos).expect("an encoded event decodes");
        assert_eq!(decoded, *event);
        pos = next;
    }
    assert_eq!(pos, buf.len());

    // An unknown event tag is a decode error.
    assert!(get_event(&vec![200], 0).is_none());
    // An unknown key code is a decode error.
    assert!(get_event(&vec![0, 0xFF, 0xFF, 1], 0).is_none());
}

#[test]
fn update_codec_round_trip() {
    let updates = vec![
        Update::CreateDevice {
            id: 7,
            name: b"mouse\0".to_vec(),
            vendor: 0x046D,
            product: 0xC52B,
            version: 0x0111,
            rel: vec![RelAxis::X, RelAxis::Y, RelAxis::Wheel],
            abs: vec![(
                AbsAxis::X,
                AbsInfo {
                    min: 0,
                    max: 65535,
                    fuzz: 0,
                    flat: 0,
                    resolution: -1,
                },
            )],
            keys: vec![Key::Key(Keyboard::A), Key::Button(rkvm_core::key::Button::Left)],
            delay: Some(250),
            period: None,
        },
        Update::Event {
            id: 7,
            event: Event::Rel(RelEvent {
                axis: RelAxis::X,
                value: 5,
            }),
        },
        Update::Ping,
        Update::DestroyDevice { id: 7 },
    ];
    let mut buf = Vec::new();
    for update in &updates {
        put_update(&mut buf, update);
    }
    let mut pos = 0;
    for update in &updates {
        let (decoded, next) = get_update(&buf, pos).expect("an encoded update decodes");
        match (&decoded, update) {
            (
                Update::CreateDevice {
                    id: a,
                    name: an,
                    vendor: av,
                    product: ap,
                    version: ave,
                    rel: ar,
                    abs: aa,
                    keys: ak,
                    delay: ad,
                    period: ape,
                },
                Update::CreateDevice {
                    id: b,
                    name: bn,
                    vendor: bv,
                    product: bp,
                    version: bve,
                    rel: br,
                    abs: ba,
                    keys: bk,
                    delay: bd,
                    period: bpe,
                },
            ) => {
                assert_eq!(a, b);
                assert_eq!(an, bn);
                assert_eq!(av, bv);
                assert_eq!(ap, bp);
                assert_eq!(ave, bve);
                assert_eq!(ar, br);
                assert_eq!(aa.len(), ba.len());
                assert_eq!(aa[0].0, ba[0].0);
                assert_eq!(aa[0].1.min, ba[0].1.min);
                assert_eq!(aa[0].1.max, ba[0].1.max);
                assert_eq!(aa[0].1.resolution, ba[0].1.resolution);
                assert_eq!(ak, bk);
                assert_eq!(ad, bd);
                assert_eq!(ape, bpe);
            }
            (Update::Event { id: a, event: ae }, Update::Event { id: b, event: be }) => {
                assert_eq!(a, b);
                assert_eq!(ae, be);
            }
            (Update::Ping, Update::Ping) => {}
            (Update::DestroyDevice { id: a }, Update::DestroyDevice { id: b }) => {
                assert_eq!(a, b);
            }
            _ => panic!("an update must decode to its own shape"),
        }
        pos = next;
    }
    assert_eq!(pos, buf.len());

    // An unknown update tag is a decode error.
    assert!(get_update(&vec![9], 0).is_none());
}
