//! Typed message encoding and decoding.
//!
//! Each message of the protocol — the version triple exchanged first, the
//! authentication messages, the pong, and the update stream — is
//! self-delimiting: enums travel as a tag byte (or the raw code of the
//! closed event sets) followed by their payload, and an unknown tag is a
//! decode error.  Every decoder is proved to match its mathematical
//! definition exactly, and each encoding decodes back to what was encoded.

use vstd::prelude::*;

use crate::abs::{AbsAxis, AbsEvent, AbsInfo, ToolType};
use crate::devices::DeviceView;
use crate::event::Event;
use crate::key::{Key, KeyEvent};
use crate::rel::{RelAxis, RelEvent};
use crate::sync::SyncEvent;
use crate::update::{Update, UpdateView};
use crate::wire::{
    dec_i32, dec_raw, dec_u16, dec_u32, dec_u64, dec_u8, enc_i32, enc_u16, enc_u32, enc_u64,
    get_i32, get_raw, get_u16, get_u32, get_u64, get_u8, put_i32, put_u16, put_u32, put_u64,
    lemma_i32_round_trip, lemma_raw_round_trip, lemma_sub_piece, lemma_u16_round_trip,
    lemma_u32_round_trip, lemma_u64_round_trip,
};

verus! {

/// The protocol version triple.  Both ends exchange theirs first, and any
/// mismatch with the compiled-in version ends the session.
#[derive(Clone, Copy, Debug, PartialEq, Eq, Structural)]
pub struct Version {
    pub major: u16,
    pub minor: u16,
    pub patch: u16,
}

pub const VERSION_MAJOR: u16 = 0;

pub const VERSION_MINOR: u16 = 5;

pub const VERSION_PATCH: u16 = 4;

impl Version {
    /// The version this build speaks.
    pub open spec fn spec_current() -> Version {
        Version { major: VERSION_MAJOR, minor: VERSION_MINOR, patch: VERSION_PATCH }
    }

    /// The version this build speaks.
    pub fn current() -> (v: Version)
        ensures
            v == Version::spec_current(),
    {
        Version { major: VERSION_MAJOR, minor: VERSION_MINOR, patch: VERSION_PATCH }
    }
}

/// The bytes of a version triple.
pub open spec fn enc_version(v: Version) -> Seq<u8> {
    enc_u16(v.major) + enc_u16(v.minor) + enc_u16(v.patch)
}

/// A version triple read at `pos`.
pub open spec fn dec_version(b: Seq<u8>, pos: int) -> Option<(Version, int)> {
    match dec_u16(b, pos) {
        Some((major, p1)) => match dec_u16(b, p1) {
            Some((minor, p2)) => match dec_u16(b, p2) {
                Some((patch, p3)) => Some((Version { major, minor, patch }, p3)),
                None => None,
            },
            None => None,
        },
        None => None,
    }
}

/// Append the six bytes of a version triple.
pub fn put_version(out: &mut Vec<u8>, v: &Version)
    ensures
        final(out)@ == old(out)@ + enc_version(*v),
{
    put_u16(out, v.major);
    put_u16(out, v.minor);
    put_u16(out, v.patch);
    proof {
        assert(out@ =~= old(out)@ + enc_version(*v));
    }
}

/// Read a version triple.
pub fn get_version(b: &Vec<u8>, pos: usize) -> (r: Option<(Version, usize)>)
    ensures
        match r {
            Some(p) => dec_version(b@, pos as int) == Some((p.0, p.1 as int)),
            None => dec_version(b@, pos as int) is None,
        },
{
    match get_u16(b, pos) {
        Some((major, p1)) => match get_u16(b, p1) {
            Some((minor, p2)) => match get_u16(b, p2) {
                Some((patch, p3)) => Some((Version { major, minor, patch }, p3)),
                None => None,
            },
            None => None,
        },
        None => None,
    }
}

/// A version triple decodes back from its encoding.
pub proof fn lemma_version_round_trip(b: Seq<u8>, pos: int, v: Version)
    requires
        0 <= pos,
        pos + 6 <= b.len(),
        b.subrange(pos, pos + 6) == enc_version(v),
    ensures
        dec_version(b, pos) == Some((v, pos + 6)),
{
    let e = enc_version(v);
    lemma_sub_piece(b, pos, e, 0, 2);
    lemma_sub_piece(b, pos, e, 2, 4);
    lemma_sub_piece(b, pos, e, 4, 6);
    assert(e.subrange(0, 2) =~= enc_u16(v.major));
    assert(e.subrange(2, 4) =~= enc_u16(v.minor));
    assert(e.subrange(4, 6) =~= enc_u16(v.patch));
    lemma_u16_round_trip(b, pos, v.major);
    lemma_u16_round_trip(b, pos + 2, v.minor);
    lemma_u16_round_trip(b, pos + 4, v.patch);
}

/// The server's verdict on an authentication response.
#[derive(Clone, Copy, Debug, PartialEq, Eq, Structural)]
pub enum AuthStatus {
    Passed,
    Failed,
}

/// The byte of a verdict.
pub open spec fn enc_auth_status(s: AuthStatus) -> Seq<u8> {
    match s {
        AuthStatus::Passed => seq![0u8],
        AuthStatus::Failed => seq![1u8],
    }
}

/// A verdict read at `pos`.
pub open spec fn dec_auth_status(b: Seq<u8>, pos: int) -> Option<(AuthStatus, int)> {
    match dec_u8(b, pos) {
        Some((tag, p)) => if tag == 0 {
            Some((AuthStatus::Passed, p))
        } else if tag == 1 {
            Some((AuthStatus::Failed, p))
        } else {
            None
        },
        None => None,
    }
}

/// Append the byte of a verdict.
pub fn put_auth_status(out: &mut Vec<u8>, s: AuthStatus)
    ensures
        final(out)@ == old(out)@ + enc_auth_status(s),
{
    match s {
        AuthStatus::Passed => out.push(0),
        AuthStatus::Failed => out.push(1),
    }
    proof {
        assert(out@ =~= old(out)@ + enc_auth_status(s));
    }
}

/// Read a verdict.
pub fn get_auth_status(b: &Vec<u8>, pos: usize) -> (r: Option<(AuthStatus, usize)>)
    ensures
        match r {
            Some(p) => dec_auth_status(b@, pos as int) == Some((p.0, p.1 as int)),
            None => dec_auth_status(b@, pos as int) is None,
        },
{
    match get_u8(b, pos) {
        Some((tag, p)) => if tag == 0 {
            Some((AuthStatus::Passed, p))
        } else if tag == 1 {
            Some((AuthStatus::Failed, p))
        } else {
            None
        },
        None => None,
    }
}

/// A verdict decodes back from its encoding.
pub proof fn lemma_auth_status_round_trip(b: Seq<u8>, pos: int, s: AuthStatus)
    requires
        0 <= pos,
        pos + 1 <= b.len(),
        b.subrange(pos, pos + 1) == enc_auth_status(s),
    ensures
        dec_auth_status(b, pos) == Some((s, pos + 1)),
{
    assert(b[pos] == enc_auth_status(s)[0]);
}

/// The byte of a pong, the prompt answer to a ping.
pub open spec fn enc_pong() -> Seq<u8> {
    seq![0u8]
}

/// A pong read at `pos`: the position past it.
pub open spec fn dec_pong(b: Seq<u8>, pos: int) -> Option<int> {
    match dec_u8(b, pos) {
        Some((tag, p)) => if tag == 0 {
            Some(p)
        } else {
            None
        },
        None => None,
    }
}

/// Append the byte of a pong.
pub fn put_pong(out: &mut Vec<u8>)
    ensures
        final(out)@ == old(out)@ + enc_pong(),
{
    out.push(0);
    proof {
        assert(out@ =~= old(out)@ + enc_pong());
    }
}

/// Read a pong.
pub fn get_pong(b: &Vec<u8>, pos: usize) -> (r: Option<usize>)
    ensures
        match r {
            Some(p) => dec_pong(b@, pos as int) == Some(p as int),
            None => dec_pong(b@, pos as int) is None,
        },
{
    match get_u8(b, pos) {
        Some((tag, p)) => if tag == 0 {
            Some(p)
        } else {
            None
        },
        None => None,
    }
}

/// The bytes of one input primitive: a tag byte, then the raw code of the
/// closed enumeration member, then any value.
pub open spec fn enc_event(ev: Event) -> Seq<u8> {
    match ev {
        Event::Key(ke) => seq![0u8] + enc_u16(ke.key.code()) + seq![
            (if ke.down {
                1u8
            } else {
                0u8
            }),
        ],
        Event::Rel(re) => seq![1u8] + enc_u16(re.axis.code()) + enc_i32(re.value),
        Event::Abs(ae) => match ae {
            AbsEvent::Axis { axis, value } => seq![2u8, 0u8] + enc_u16(axis.code()) + enc_i32(
                value,
            ),
            AbsEvent::MtToolType { value } => seq![2u8, 1u8] + enc_u16(value.code()),
        },
        Event::Sync(se) => seq![3u8] + enc_u16(se.code()),
    }
}

/// One input primitive read at `pos`.
pub open spec fn dec_event(b: Seq<u8>, pos: int) -> Option<(Event, int)> {
    match dec_u8(b, pos) {
        Some((tag, p)) => if tag == 0 {
            match dec_u16(b, p) {
                Some((code, p1)) => match Key::of_code(code) {
                    Some(key) => match dec_u8(b, p1) {
                        Some((d, p2)) => if d == 0 || d == 1 {
                            Some((Event::Key(KeyEvent { key, down: d == 1 }), p2))
                        } else {
                            None
                        },
                        None => None,
                    },
                    None => None,
                },
                None => None,
            }
        } else if tag == 1 {
            match dec_u16(b, p) {
                Some((code, p1)) => match RelAxis::of_code(code) {
                    Some(axis) => match dec_i32(b, p1) {
                        Some((value, p2)) => Some((Event::Rel(RelEvent { axis, value }), p2)),
                        None => None,
                    },
                    None => None,
                },
                None => None,
            }
        } else if tag == 2 {
            match dec_u8(b, p) {
                Some((sub, p1)) => if sub == 0 {
                    match dec_u16(b, p1) {
                        Some((code, p2)) => match AbsAxis::of_code(code) {
                            Some(axis) => match dec_i32(b, p2) {
                                Some((value, p3)) => Some(
                                    (Event::Abs(AbsEvent::Axis { axis, value }), p3),
                                ),
                                None => None,
                            },
                            None => None,
                        },
                        None => None,
                    }
                } else if sub == 1 {
                    match dec_u16(b, p1) {
                        Some((code, p2)) => match ToolType::of_code(code) {
                            Some(value) => Some((Event::Abs(AbsEvent::MtToolType { value }), p2)),
                            None => None,
                        },
                        None => None,
                    }
                } else {
                    None
                },
                None => None,
            }
        } else if tag == 3 {
            match dec_u16(b, p) {
                Some((code, p1)) => match SyncEvent::of_code(code) {
                    Some(se) => Some((Event::Sync(se), p1)),
                    None => None,
                },
                None => None,
            }
        } else {
            None
        },
        None => None,
    }
}

/// Append the bytes of one input primitive.
pub fn put_event(out: &mut Vec<u8>, ev: &Event)
    ensures
        final(out)@ == old(out)@ + enc_event(*ev),
{
    match ev {
        Event::Key(ke) => {
            out.push(0);
            put_u16(out, ke.key.to_raw().unwrap());
            out.push(if ke.down {
                1
            } else {
                0
            });
        },
        Event::Rel(re) => {
            out.push(1);
            put_u16(out, re.axis.to_raw().unwrap());
            put_i32(out, re.value);
        },
        Event::Abs(ae) => match ae {
            AbsEvent::Axis { axis, value } => {
                out.push(2);
                out.push(0);
                put_u16(out, axis.to_raw().unwrap());
                put_i32(out, *value);
            },
            AbsEvent::MtToolType { value } => {
                out.push(2);
                out.push(1);
                put_u16(out, value.to_raw());
            },
        },
        Event::Sync(se) => {
            out.push(3);
            put_u16(out, se.to_raw().unwrap());
        },
    }
    proof {
        assert(out@ =~= old(out)@ + enc_event(*ev));
    }
}

/// Read one input primitive.
pub fn get_event(b: &Vec<u8>, pos: usize) -> (r: Option<(Event, usize)>)
    ensures
        match r {
            Some(p) => dec_event(b@, pos as int) == Some((p.0, p.1 as int)),
            None => dec_event(b@, pos as int) is None,
        },
{
    match get_u8(b, pos) {
        Some((tag, p)) => {
            if tag == 0 {
                match get_u16(b, p) {
                    Some((code, p1)) => match Key::from_raw(code) {
                        Some(key) => match get_u8(b, p1) {
                            Some((d, p2)) => if d == 0 || d == 1 {
                                Some((Event::Key(KeyEvent { key, down: d == 1 }), p2))
                            } else {
                                None
                            },
                            None => None,
                        },
                        None => None,
                    },
                    None => None,
                }
            } else if tag == 1 {
                match get_u16(b, p) {
                    Some((code, p1)) => match RelAxis::from_raw(code) {
                        Some(axis) => match get_i32(b, p1) {
                            Some((value, p2)) => Some((Event::Rel(RelEvent { axis, value }), p2)),
                            None => None,
                        },
                        None => None,
                    },
                    None => None,
                }
            } else if tag == 2 {
                match get_u8(b, p) {
                    Some((sub, p1)) => if sub == 0 {
                        match get_u16(b, p1) {
                            Some((code, p2)) => match AbsAxis::from_raw(code) {
                                Some(axis) => match get_i32(b, p2) {
                                    Some((value, p3)) => Some(
                                        (Event::Abs(AbsEvent::Axis { axis, value }), p3),
                                    ),
                                    None => None,
                                },
                                None => None,
                            },
                            None => None,
                        }
                    } else if sub == 1 {
                        match get_u16(b, p1) {
                            Some((code, p2)) => match ToolType::from_raw(code) {
                                Some(value) => Some(
                                    (Event::Abs(AbsEvent::MtToolType { value }), p2),
                                ),
                                None => None,
                            },
                            None => None,
                        }
                    } else {
                        None
                    },
                    None => None,
                }
            } else if tag == 3 {
                match get_u16(b, p) {
                    Some((code, p1)) => match SyncEvent::from_raw(code) {
                        Some(se) => Some((Event::Sync(se), p1)),
                        None => None,
                    },
                    None => None,
                }
            } else {
                None
            }
        },
        None => None,
    }
}

/// One input primitive decodes back from its encoding.
#[verifier::rlimit(40)]
#[verifier::spinoff_prover]
pub proof fn lemma_event_round_trip(b: Seq<u8>, pos: int, ev: Event)
    requires
        0 <= pos,
        pos + enc_event(ev).len() <= b.len(),
        b.subrange(pos, pos + enc_event(ev).len()) == enc_event(ev),
    ensures
        dec_event(b, pos) == Some((ev, pos + enc_event(ev).len())),
{
    let e = enc_event(ev);
    assert(b[pos] == e[0]) by {
        lemma_sub_piece(b, pos, e, 0, 1);
        assert(b.subrange(pos, pos + 1)[0] == b[pos]);
    }
    match ev {
        Event::Key(ke) => {
            lemma_sub_piece(b, pos, e, 1, 3);
            assert(e.subrange(1, 3) =~= enc_u16(ke.key.code()));
            lemma_u16_round_trip(b, pos + 1, ke.key.code());
            crate::key::lemma_key_code_round_trip(ke.key);
            lemma_sub_piece(b, pos, e, 3, 4);
            assert(b[pos + 3] == e[3]) by {
                assert(b.subrange(pos + 3, pos + 4)[0] == b[pos + 3]);
            }
        },
        Event::Rel(re) => {
            lemma_sub_piece(b, pos, e, 1, 3);
            assert(e.subrange(1, 3) =~= enc_u16(re.axis.code()));
            lemma_u16_round_trip(b, pos + 1, re.axis.code());
            crate::rel::lemma_rel_axis_code_round_trip(re.axis);
            lemma_sub_piece(b, pos, e, 3, 7);
            assert(e.subrange(3, 7) =~= enc_i32(re.value));
            lemma_i32_round_trip(b, pos + 3, re.value);
        },
        Event::Abs(ae) => match ae {
            AbsEvent::Axis { axis, value } => {
                assert(b[pos + 1] == e[1]) by {
                    lemma_sub_piece(b, pos, e, 1, 2);
                    assert(b.subrange(pos + 1, pos + 2)[0] == b[pos + 1]);
                }
                lemma_sub_piece(b, pos, e, 2, 4);
                assert(e.subrange(2, 4) =~= enc_u16(axis.code()));
                lemma_u16_round_trip(b, pos + 2, axis.code());
                crate::abs::lemma_abs_axis_code_round_trip(axis);
                lemma_sub_piece(b, pos, e, 4, 8);
                assert(e.subrange(4, 8) =~= enc_i32(value));
                lemma_i32_round_trip(b, pos + 4, value);
            },
            AbsEvent::MtToolType { value } => {
                assert(b[pos + 1] == e[1]) by {
                    lemma_sub_piece(b, pos, e, 1, 2);
                    assert(b.subrange(pos + 1, pos + 2)[0] == b[pos + 1]);
                }
                lemma_sub_piece(b, pos, e, 2, 4);
                assert(e.subrange(2, 4) =~= enc_u16(value.code()));
                lemma_u16_round_trip(b, pos + 2, value.code());
                crate::abs::lemma_tool_type_code_round_trip(value);
            },
        },
        Event::Sync(se) => {
            lemma_sub_piece(b, pos, e, 1, 3);
            assert(e.subrange(1, 3) =~= enc_u16(se.code()));
            lemma_u16_round_trip(b, pos + 1, se.code());
            crate::sync::lemma_sync_code_round_trip(se);
        },
    }
}


/// The bytes of a list of relative axes, one raw code each.
pub open spec fn enc_rel_list(items: Seq<RelAxis>) -> Seq<u8>
    decreases items.len(),
{
    if items.len() == 0 {
        Seq::empty()
    } else {
        enc_rel_list(items.drop_last()) + enc_u16(items.last().code())
    }
}

/// The bytes of one absolute axis and its range.
pub open spec fn enc_abs_item(item: (AbsAxis, AbsInfo)) -> Seq<u8> {
    enc_u16(item.0.code()) + enc_i32(item.1.min) + enc_i32(item.1.max) + enc_i32(item.1.fuzz)
        + enc_i32(item.1.flat) + enc_i32(item.1.resolution)
}

/// The bytes of a list of absolute axes with their ranges.
pub open spec fn enc_abs_list(items: Seq<(AbsAxis, AbsInfo)>) -> Seq<u8>
    decreases items.len(),
{
    if items.len() == 0 {
        Seq::empty()
    } else {
        enc_abs_list(items.drop_last()) + enc_abs_item(items.last())
    }
}

/// The bytes of a list of keys, one raw code each.
pub open spec fn enc_key_list(items: Seq<Key>) -> Seq<u8>
    decreases items.len(),
{
    if items.len() == 0 {
        Seq::empty()
    } else {
        enc_key_list(items.drop_last()) + enc_u16(items.last().code())
    }
}

/// The bytes of an optional value: a presence byte, then the value.
pub open spec fn enc_opt_i32(o: Option<i32>) -> Seq<u8> {
    match o {
        None => seq![0u8],
        Some(x) => seq![1u8] + enc_i32(x),
    }
}

/// Whether an update fits the wire limits: its identifier is a machine
/// index and each list length fits the 32-bit prefix.
pub open spec fn update_enc_wf(u: UpdateView) -> bool {
    match u {
        UpdateView::CreateDevice { id, dev } => {
            &&& 0 <= id <= usize::MAX
            &&& dev.name.len() <= u32::MAX
            &&& dev.rel.len() <= u32::MAX
            &&& dev.abs.len() <= u32::MAX
            &&& dev.keys.len() <= u32::MAX
        },
        UpdateView::DestroyDevice { id } => 0 <= id <= usize::MAX,
        UpdateView::Event { id, .. } => 0 <= id <= usize::MAX,
        UpdateView::Ping => true,
    }
}

/// The identity part of a device announcement: name, vendor, product,
/// version.
pub open spec fn enc_dev_identity(dev: DeviceView) -> Seq<u8> {
    enc_u32(dev.name.len() as u32) + dev.name + enc_u16(dev.vendor) + enc_u16(dev.product)
        + enc_u16(dev.version)
}

/// The axis capabilities of a device announcement.
pub open spec fn enc_dev_axes(dev: DeviceView) -> Seq<u8> {
    enc_u32(dev.rel.len() as u32) + enc_rel_list(dev.rel) + enc_u32(dev.abs.len() as u32)
        + enc_abs_list(dev.abs)
}

/// The key capabilities and auto-repeat of a device announcement.
pub open spec fn enc_dev_keys(dev: DeviceView) -> Seq<u8> {
    enc_u32(dev.keys.len() as u32) + enc_key_list(dev.keys) + enc_opt_i32(dev.delay)
        + enc_opt_i32(dev.period)
}

/// The bytes of one update: a tag byte, then its payload.
pub open spec fn enc_update(u: UpdateView) -> Seq<u8> {
    match u {
        UpdateView::CreateDevice { id, dev } => seq![0u8] + enc_u64(id as u64) + enc_dev_identity(
            dev,
        ) + enc_dev_axes(dev) + enc_dev_keys(dev),
        UpdateView::DestroyDevice { id } => seq![1u8] + enc_u64(id as u64),
        UpdateView::Event { id, event } => seq![2u8] + enc_u64(id as u64) + enc_event(event),
        UpdateView::Ping => seq![3u8],
    }
}

/// A device identifier read at `pos`: a 64-bit value that must fit a
/// machine index.
pub open spec fn dec_id(b: Seq<u8>, pos: int) -> Option<(int, int)> {
    match dec_u64(b, pos) {
        Some((v, p)) => if v <= usize::MAX {
            Some((v as int, p))
        } else {
            None
        },
        None => None,
    }
}

/// `count` relative axes read at `pos`, appended to `acc`.
pub open spec fn dec_rel_list(b: Seq<u8>, pos: int, count: nat, acc: Seq<RelAxis>) -> Option<
    (Seq<RelAxis>, int),
>
    decreases count,
{
    if count == 0 {
        Some((acc, pos))
    } else {
        match dec_u16(b, pos) {
            Some((code, p)) => match RelAxis::of_code(code) {
                Some(axis) => dec_rel_list(b, p, (count - 1) as nat, acc.push(axis)),
                None => None,
            },
            None => None,
        }
    }
}

/// One absolute axis and its range read at `pos`.
pub open spec fn dec_abs_item(b: Seq<u8>, pos: int) -> Option<((AbsAxis, AbsInfo), int)> {
    match dec_u16(b, pos) {
        Some((code, p)) => match AbsAxis::of_code(code) {
            Some(axis) => match dec_i32(b, p) {
                Some((min, p1)) => match dec_i32(b, p1) {
                    Some((max, p2)) => match dec_i32(b, p2) {
                        Some((fuzz, p3)) => match dec_i32(b, p3) {
                            Some((flat, p4)) => match dec_i32(b, p4) {
                                Some((resolution, p5)) => Some(
                                    (
                                        (
                                            axis,
                                            AbsInfo { min, max, fuzz, flat, resolution },
                                        ),
                                        p5,
                                    ),
                                ),
                                None => None,
                            },
                            None => None,
                        },
                        None => None,
                    },
                    None => None,
                },
                None => None,
            },
            None => None,
        },
        None => None,
    }
}

/// `count` absolute axes read at `pos`, appended to `acc`.
pub open spec fn dec_abs_list(
    b: Seq<u8>,
    pos: int,
    count: nat,
    acc: Seq<(AbsAxis, AbsInfo)>,
) -> Option<(Seq<(AbsAxis, AbsInfo)>, int)>
    decreases count,
{
    if count == 0 {
        Some((acc, pos))
    } else {
        match dec_abs_item(b, pos) {
            Some((item, p)) => dec_abs_list(b, p, (count - 1) as nat, acc.push(item)),
            None => None,
        }
    }
}

/// `count` keys read at `pos`, appended to `acc`.
pub open spec fn dec_key_list(b: Seq<u8>, pos: int, count: nat, acc: Seq<Key>) -> Option<
    (Seq<Key>, int),
>
    decreases count,
{
    if count == 0 {
        Some((acc, pos))
    } else {
        match dec_u16(b, pos) {
            Some((code, p)) => match Key::of_code(code) {
                Some(key) => dec_key_list(b, p, (count - 1) as nat, acc.push(key)),
                None => None,
            },
            None => None,
        }
    }
}

/// An optional value read at `pos`.
pub open spec fn dec_opt_i32(b: Seq<u8>, pos: int) -> Option<(Option<i32>, int)> {
    match dec_u8(b, pos) {
        Some((tag, p)) => if tag == 0 {
            Some((None, p))
        } else if tag == 1 {
            match dec_i32(b, p) {
                Some((x, p1)) => Some((Some(x), p1)),
                None => None,
            }
        } else {
            None
        },
        None => None,
    }
}

/// A device announcement's payload read at `pos`.
pub open spec fn dec_create(b: Seq<u8>, pos: int) -> Option<(UpdateView, int)> {
    match dec_id(b, pos) {
        Some((id, p)) => match dec_u32(b, p) {
            Some((name_len, p1)) => match dec_raw(b, p1, name_len as int) {
                Some((name, p2)) => match dec_u16(b, p2) {
                    Some((vendor, p3)) => match dec_u16(b, p3) {
                        Some((product, p4)) => match dec_u16(b, p4) {
                            Some((version, p5)) => match dec_u32(b, p5) {
                                Some((rel_len, p6)) => match dec_rel_list(
                                    b,
                                    p6,
                                    rel_len as nat,
                                    Seq::empty(),
                                ) {
                                    Some((rel, p7)) => match dec_u32(b, p7) {
                                        Some((abs_len, p8)) => match dec_abs_list(
                                            b,
                                            p8,
                                            abs_len as nat,
                                            Seq::empty(),
                                        ) {
                                            Some((abs, p9)) => match dec_u32(b, p9) {
                                                Some((keys_len, p10)) => match dec_key_list(
                                                    b,
                                                    p10,
                                                    keys_len as nat,
                                                    Seq::empty(),
                                                ) {
                                                    Some((keys, p11)) => match dec_opt_i32(
                                                        b,
                                                        p11,
                                                    ) {
                                                        Some((delay, p12)) => match dec_opt_i32(
                                                            b,
                                                            p12,
                                                        ) {
                                                            Some((period, p13)) => Some(
                                                                (
                                                                    UpdateView::CreateDevice {
                                                                        id,
                                                                        dev: DeviceView {
                                                                            name,
                                                                            vendor,
                                                                            product,
                                                                            version,
                                                                            rel,
                                                                            abs,
                                                                            keys,
                                                                            delay,
                                                                            period,
                                                                        },
                                                                    },
                                                                    p13,
                                                                ),
                                                            ),
                                                            None => None,
                                                        },
                                                        None => None,
                                                    },
                                                    None => None,
                                                },
                                                None => None,
                                            },
                                            None => None,
                                        },
                                        None => None,
                                    },
                                    None => None,
                                },
                                None => None,
                            },
                            None => None,
                        },
                        None => None,
                    },
                    None => None,
                },
                None => None,
            },
            None => None,
        },
        None => None,
    }
}

/// One update read at `pos`.
pub open spec fn dec_update(b: Seq<u8>, pos: int) -> Option<(UpdateView, int)> {
    match dec_u8(b, pos) {
        Some((tag, p)) => if tag == 0 {
            dec_create(b, p)
        } else if tag == 1 {
            match dec_id(b, p) {
                Some((id, p1)) => Some((UpdateView::DestroyDevice { id }, p1)),
                None => None,
            }
        } else if tag == 2 {
            match dec_id(b, p) {
                Some((id, p1)) => match dec_event(b, p1) {
                    Some((event, p2)) => Some((UpdateView::Event { id, event }, p2)),
                    None => None,
                },
                None => None,
            }
        } else if tag == 3 {
            Some((UpdateView::Ping, p))
        } else {
            None
        },
        None => None,
    }
}

/// Append raw bytes.
pub fn put_raw(out: &mut Vec<u8>, v: &Vec<u8>)
    ensures
        final(out)@ == old(out)@ + v@,
{
    let mut i: usize = 0;
    while i < v.len()
        invariant
            i <= v@.len(),
            out@ == old(out)@ + v@.take(i as int),
        decreases v.len() - i,
    {
        out.push(v[i]);
        proof {
            assert(out@ =~= old(out)@ + v@.take(i + 1));
        }
        i += 1;
    }
    proof {
        assert(out@ =~= old(out)@ + v@);
    }
}

/// Append a list of relative axes.
fn put_rel_list(out: &mut Vec<u8>, items: &Vec<RelAxis>)
    ensures
        final(out)@ == old(out)@ + enc_rel_list(items@),
{
    let mut i: usize = 0;
    while i < items.len()
        invariant
            i <= items@.len(),
            out@ == old(out)@ + enc_rel_list(items@.take(i as int)),
        decreases items.len() - i,
    {
        proof {
            assert(items@.take(i + 1).drop_last() =~= items@.take(i as int));
        }
        put_u16(out, items[i].to_raw().unwrap());
        proof {
            assert(out@ =~= old(out)@ + enc_rel_list(items@.take(i + 1)));
        }
        i += 1;
    }
    proof {
        assert(items@.take(items@.len() as int) =~= items@);
    }
}

/// Append a list of absolute axes with their ranges.
fn put_abs_list(out: &mut Vec<u8>, items: &Vec<(AbsAxis, AbsInfo)>)
    ensures
        final(out)@ == old(out)@ + enc_abs_list(items@),
{
    let mut i: usize = 0;
    while i < items.len()
        invariant
            i <= items@.len(),
            out@ == old(out)@ + enc_abs_list(items@.take(i as int)),
        decreases items.len() - i,
    {
        proof {
            assert(items@.take(i + 1).drop_last() =~= items@.take(i as int));
        }
        let (axis, info) = items[i];
        put_u16(out, axis.to_raw().unwrap());
        put_i32(out, info.min);
        put_i32(out, info.max);
        put_i32(out, info.fuzz);
        put_i32(out, info.flat);
        put_i32(out, info.resolution);
        proof {
            assert(out@ =~= old(out)@ + enc_abs_list(items@.take(i + 1)));
        }
        i += 1;
    }
    proof {
        assert(items@.take(items@.len() as int) =~= items@);
    }
}

/// Append a list of keys.
fn put_key_list(out: &mut Vec<u8>, items: &Vec<Key>)
    ensures
        final(out)@ == old(out)@ + enc_key_list(items@),
{
    let mut i: usize = 0;
    while i < items.len()
        invariant
            i <= items@.len(),
            out@ == old(out)@ + enc_key_list(items@.take(i as int)),
        decreases items.len() - i,
    {
        proof {
            assert(items@.take(i + 1).drop_last() =~= items@.take(i as int));
        }
        put_u16(out, items[i].to_raw().unwrap());
        proof {
            assert(out@ =~= old(out)@ + enc_key_list(items@.take(i + 1)));
        }
        i += 1;
    }
    proof {
        assert(items@.take(items@.len() as int) =~= items@);
    }
}

/// Append an optional value.
fn put_opt_i32(out: &mut Vec<u8>, o: &Option<i32>)
    ensures
        final(out)@ == old(out)@ + enc_opt_i32(*o),
{
    match o {
        None => out.push(0),
        Some(x) => {
            out.push(1);
            put_i32(out, *x);
        },
    }
    proof {
        assert(out@ =~= old(out)@ + enc_opt_i32(*o));
    }
}

/// Append the bytes of one update.
pub fn put_update(out: &mut Vec<u8>, u: &Update)
    requires
        update_enc_wf(u@),
    ensures
        final(out)@ == old(out)@ + enc_update(u@),
{
    match u {
        Update::CreateDevice { id, name, vendor, product, version, rel, abs, keys, delay, period } => {
            let ghost dev = u@->CreateDevice_dev;
            out.push(0);
            put_u64(out, *id as u64);
            let ghost base = out@;
            put_u32(out, name.len() as u32);
            put_raw(out, name);
            put_u16(out, *vendor);
            put_u16(out, *product);
            put_u16(out, *version);
            proof {
                assert(out@ =~= base + enc_dev_identity(dev));
            }
            let ghost base2 = out@;
            put_u32(out, rel.len() as u32);
            put_rel_list(out, rel);
            put_u32(out, abs.len() as u32);
            put_abs_list(out, abs);
            proof {
                assert(out@ =~= base2 + enc_dev_axes(dev));
            }
            let ghost base3 = out@;
            put_u32(out, keys.len() as u32);
            put_key_list(out, keys);
            put_opt_i32(out, delay);
            put_opt_i32(out, period);
            proof {
                assert(out@ =~= base3 + enc_dev_keys(dev));
                assert(out@ =~= old(out)@ + enc_update(u@));
            }
        },
        Update::DestroyDevice { id } => {
            out.push(1);
            put_u64(out, *id as u64);
        },
        Update::Event { id, event } => {
            out.push(2);
            put_u64(out, *id as u64);
            put_event(out, event);
        },
        Update::Ping => {
            out.push(3);
        },
    }
    proof {
        assert(out@ =~= old(out)@ + enc_update(u@));
    }
}

/// Read a device identifier.
pub fn get_id(b: &Vec<u8>, pos: usize) -> (r: Option<(usize, usize)>)
    ensures
        match r {
            Some(p) => dec_id(b@, pos as int) == Some((p.0 as int, p.1 as int)),
            None => dec_id(b@, pos as int) is None,
        },
{
    match get_u64(b, pos) {
        Some((v, p)) => if v <= usize::MAX as u64 {
            Some((v as usize, p))
        } else {
            None
        },
        None => None,
    }
}

/// Read a list of relative axes.
fn get_rel_list(b: &Vec<u8>, pos: usize, count: u32) -> (r: Option<(Vec<RelAxis>, usize)>)
    ensures
        match r {
            Some(p) => dec_rel_list(b@, pos as int, count as nat, Seq::empty()) == Some(
                (p.0@, p.1 as int),
            ),
            None => dec_rel_list(b@, pos as int, count as nat, Seq::empty()) is None,
        },
{
    let mut out: Vec<RelAxis> = Vec::new();
    let mut cur = pos;
    let mut i: u32 = 0;
    while i < count
        invariant
            i <= count,
            dec_rel_list(b@, pos as int, count as nat, Seq::empty()) == dec_rel_list(
                b@,
                cur as int,
                (count - i) as nat,
                out@,
            ),
        decreases count - i,
    {
        match get_u16(b, cur) {
            Some((code, p)) => match RelAxis::from_raw(code) {
                Some(axis) => {
                    out.push(axis);
                    cur = p;
                },
                None => {
                    return None;
                },
            },
            None => {
                return None;
            },
        }
        i += 1;
    }
    Some((out, cur))
}

/// Read a list of absolute axes with their ranges.
fn get_abs_list(b: &Vec<u8>, pos: usize, count: u32) -> (r: Option<
    (Vec<(AbsAxis, AbsInfo)>, usize),
>)
    ensures
        match r {
            Some(p) => dec_abs_list(b@, pos as int, count as nat, Seq::empty()) == Some(
                (p.0@, p.1 as int),
            ),
            None => dec_abs_list(b@, pos as int, count as nat, Seq::empty()) is None,
        },
{
    let mut out: Vec<(AbsAxis, AbsInfo)> = Vec::new();
    let mut cur = pos;
    let mut i: u32 = 0;
    while i < count
        invariant
            i <= count,
            dec_abs_list(b@, pos as int, count as nat, Seq::empty()) == dec_abs_list(
                b@,
                cur as int,
                (count - i) as nat,
                out@,
            ),
        decreases count - i,
    {
        match get_abs_entry(b, cur) {
            Some((item, p)) => {
                out.push(item);
                cur = p;
            },
            None => {
                return None;
            },
        }
        i += 1;
    }
    Some((out, cur))
}

/// Read one absolute axis and its range.
fn get_abs_entry(b: &Vec<u8>, pos: usize) -> (r: Option<((AbsAxis, AbsInfo), usize)>)
    ensures
        match r {
            Some(p) => dec_abs_item(b@, pos as int) == Some((p.0, p.1 as int)),
            None => dec_abs_item(b@, pos as int) is None,
        },
{
    match get_u16(b, pos) {
        Some((code, p)) => match AbsAxis::from_raw(code) {
            Some(axis) => match get_i32(b, p) {
                Some((min, p1)) => match get_i32(b, p1) {
                    Some((max, p2)) => match get_i32(b, p2) {
                        Some((fuzz, p3)) => match get_i32(b, p3) {
                            Some((flat, p4)) => match get_i32(b, p4) {
                                Some((resolution, p5)) => Some(
                                    ((axis, AbsInfo { min, max, fuzz, flat, resolution }), p5),
                                ),
                                None => None,
                            },
                            None => None,
                        },
                        None => None,
                    },
                    None => None,
                },
                None => None,
            },
            None => None,
        },
        None => None,
    }
}

/// Read a list of keys.
fn get_key_list(b: &Vec<u8>, pos: usize, count: u32) -> (r: Option<(Vec<Key>, usize)>)
    ensures
        match r {
            Some(p) => dec_key_list(b@, pos as int, count as nat, Seq::empty()) == Some(
                (p.0@, p.1 as int),
            ),
            None => dec_key_list(b@, pos as int, count as nat, Seq::empty()) is None,
        },
{
    let mut out: Vec<Key> = Vec::new();
    let mut cur = pos;
    let mut i: u32 = 0;
    while i < count
        invariant
            i <= count,
            dec_key_list(b@, pos as int, count as nat, Seq::empty()) == dec_key_list(
                b@,
                cur as int,
                (count - i) as nat,
                out@,
            ),
        decreases count - i,
    {
        match get_u16(b, cur) {
            Some((code, p)) => match Key::from_raw(code) {
                Some(key) => {
                    out.push(key);
                    cur = p;
                },
                None => {
                    return None;
                },
            },
            None => {
                return None;
            },
        }
        i += 1;
    }
    Some((out, cur))
}

/// Read an optional value.
fn get_opt_i32(b: &Vec<u8>, pos: usize) -> (r: Option<(Option<i32>, usize)>)
    ensures
        match r {
            Some(p) => dec_opt_i32(b@, pos as int) == Some((p.0, p.1 as int)),
            None => dec_opt_i32(b@, pos as int) is None,
        },
{
    match get_u8(b, pos) {
        Some((tag, p)) => if tag == 0 {
            Some((None, p))
        } else if tag == 1 {
            match get_i32(b, p) {
                Some((x, p1)) => Some((Some(x), p1)),
                None => None,
            }
        } else {
            None
        },
        None => None,
    }
}

/// Read one update.
pub fn get_update(b: &Vec<u8>, pos: usize) -> (r: Option<(Update, usize)>)
    ensures
        match r {
            Some(p) => dec_update(b@, pos as int) == Some((p.0@, p.1 as int)),
            None => dec_update(b@, pos as int) is None,
        },
{
    match get_u8(b, pos) {
        Some((tag, p)) => {
            if tag == 0 {
                match get_id(b, p) {
                    Some((id, p0)) => match get_u32(b, p0) {
                        Some((name_len, p1)) => match get_raw(b, p1, name_len as usize) {
                            Some((name, p2)) => match get_u16(b, p2) {
                                Some((vendor, p3)) => match get_u16(b, p3) {
                                    Some((product, p4)) => match get_u16(b, p4) {
                                        Some((version, p5)) => match get_u32(b, p5) {
                                            Some((rel_len, p6)) => match get_rel_list(
                                                b,
                                                p6,
                                                rel_len,
                                            ) {
                                                Some((rel, p7)) => match get_u32(b, p7) {
                                                    Some((abs_len, p8)) => match get_abs_list(
                                                        b,
                                                        p8,
                                                        abs_len,
                                                    ) {
                                                        Some((abs, p9)) => match get_u32(b, p9) {
                                                            Some((keys_len, p10)) => match
                                                                get_key_list(b, p10, keys_len) {
                                                                Some((keys, p11)) => match
                                                                    get_opt_i32(b, p11) {
                                                                    Some((delay, p12)) => match
                                                                        get_opt_i32(b, p12) {
                                                                        Some((period, p13)) =>
                                                                            Some(
                                                                            (
                                                                                Update::CreateDevice {
                                                                                    id,
                                                                                    name,
                                                                                    vendor,
                                                                                    product,
                                                                                    version,
                                                                                    rel,
                                                                                    abs,
                                                                                    keys,
                                                                                    delay,
                                                                                    period,
                                                                                },
                                                                                p13,
                                                                            ),
                                                                        ),
                                                                        None => None,
                                                                    },
                                                                    None => None,
                                                                },
                                                                None => None,
                                                            },
                                                            None => None,
                                                        },
                                                        None => None,
                                                    },
                                                    None => None,
                                                },
                                                None => None,
                                            },
                                            None => None,
                                        },
                                        None => None,
                                    },
                                    None => None,
                                },
                                None => None,
                            },
                            None => None,
                        },
                        None => None,
                    },
                    None => None,
                }
            } else if tag == 1 {
                match get_id(b, p) {
                    Some((id, p1)) => Some((Update::DestroyDevice { id }, p1)),
                    None => None,
                }
            } else if tag == 2 {
                match get_id(b, p) {
                    Some((id, p1)) => match get_event(b, p1) {
                        Some((event, p2)) => Some((Update::Event { id, event }, p2)),
                        None => None,
                    },
                    None => None,
                }
            } else if tag == 3 {
                Some((Update::Ping, p))
            } else {
                None
            }
        },
        None => None,
    }
}


/// A key list's encoding is two bytes per key.
proof fn lemma_enc_key_list_len(items: Seq<Key>)
    ensures
        enc_key_list(items).len() == 2 * items.len(),
    decreases items.len(),
{
    if items.len() > 0 {
        lemma_enc_key_list_len(items.drop_last());
    }
}

/// A key list's encoding starts with its first key.
proof fn lemma_enc_key_list_head(items: Seq<Key>)
    requires
        items.len() > 0,
    ensures
        enc_key_list(items) == enc_u16(items[0].code()) + enc_key_list(items.drop_first()),
    decreases items.len(),
{
    if items.len() == 1 {
        assert(items.drop_last() =~= Seq::<Key>::empty());
        assert(items.drop_first() =~= Seq::<Key>::empty());
        assert(items.last() == items[0]);
        assert(enc_u16(items[0].code()) + enc_key_list(items.drop_first())
            =~= enc_u16(items[0].code()));
    } else {
        lemma_enc_key_list_head(items.drop_last());
        assert(items.drop_last()[0] == items[0]);
        assert(items.drop_last().drop_first() =~= items.drop_first().drop_last());
        assert(items.drop_first().last() == items.last());
        assert(enc_u16(items[0].code()) + (enc_key_list(items.drop_first().drop_last())
            + enc_u16(items.last().code())) =~= (enc_u16(items[0].code()) + enc_key_list(
            items.drop_first().drop_last(),
        )) + enc_u16(items.last().code()));
    }
}

/// A key list decodes back from its encoding, appended to any accumulator.
proof fn lemma_key_list_round_trip(b: Seq<u8>, pos: int, items: Seq<Key>, acc: Seq<Key>)
    requires
        0 <= pos,
        pos + enc_key_list(items).len() <= b.len(),
        b.subrange(pos, pos + enc_key_list(items).len()) == enc_key_list(items),
    ensures
        dec_key_list(b, pos, items.len() as nat, acc) == Some(
            (acc + items, pos + enc_key_list(items).len()),
        ),
    decreases items.len(),
{
    lemma_enc_key_list_len(items);
    if items.len() == 0 {
        assert(acc + items =~= acc);
    } else {
        let e = enc_key_list(items);
        lemma_enc_key_list_head(items);
        lemma_enc_key_list_len(items.drop_first());
        lemma_sub_piece(b, pos, e, 0, 2);
        assert(e.subrange(0, 2) =~= enc_u16(items[0].code()));
        lemma_u16_round_trip(b, pos, items[0].code());
        crate::key::lemma_key_code_round_trip(items[0]);
        lemma_sub_piece(b, pos, e, 2, e.len() as int);
        assert(e.subrange(2, e.len() as int) =~= enc_key_list(items.drop_first()));
        lemma_key_list_round_trip(b, pos + 2, items.drop_first(), acc.push(items[0]));
        assert(acc.push(items[0]) + items.drop_first() =~= acc + items);
    }
}

/// A relative axis list's encoding is two bytes per axis.
proof fn lemma_enc_rel_list_len(items: Seq<RelAxis>)
    ensures
        enc_rel_list(items).len() == 2 * items.len(),
    decreases items.len(),
{
    if items.len() > 0 {
        lemma_enc_rel_list_len(items.drop_last());
    }
}

/// A relative axis list's encoding starts with its first axis.
proof fn lemma_enc_rel_list_head(items: Seq<RelAxis>)
    requires
        items.len() > 0,
    ensures
        enc_rel_list(items) == enc_u16(items[0].code()) + enc_rel_list(items.drop_first()),
    decreases items.len(),
{
    if items.len() == 1 {
        assert(items.drop_last() =~= Seq::<RelAxis>::empty());
        assert(items.drop_first() =~= Seq::<RelAxis>::empty());
        assert(items.last() == items[0]);
        assert(enc_u16(items[0].code()) + enc_rel_list(items.drop_first())
            =~= enc_u16(items[0].code()));
    } else {
        lemma_enc_rel_list_head(items.drop_last());
        assert(items.drop_last()[0] == items[0]);
        assert(items.drop_last().drop_first() =~= items.drop_first().drop_last());
        assert(items.drop_first().last() == items.last());
        assert(enc_u16(items[0].code()) + (enc_rel_list(items.drop_first().drop_last())
            + enc_u16(items.last().code())) =~= (enc_u16(items[0].code()) + enc_rel_list(
            items.drop_first().drop_last(),
        )) + enc_u16(items.last().code()));
    }
}

/// A relative axis list decodes back from its encoding.
proof fn lemma_rel_list_round_trip(b: Seq<u8>, pos: int, items: Seq<RelAxis>, acc: Seq<RelAxis>)
    requires
        0 <= pos,
        pos + enc_rel_list(items).len() <= b.len(),
        b.subrange(pos, pos + enc_rel_list(items).len()) == enc_rel_list(items),
    ensures
        dec_rel_list(b, pos, items.len() as nat, acc) == Some(
            (acc + items, pos + enc_rel_list(items).len()),
        ),
    decreases items.len(),
{
    lemma_enc_rel_list_len(items);
    if items.len() == 0 {
        assert(acc + items =~= acc);
    } else {
        let e = enc_rel_list(items);
        lemma_enc_rel_list_head(items);
        lemma_enc_rel_list_len(items.drop_first());
        lemma_sub_piece(b, pos, e, 0, 2);
        assert(e.subrange(0, 2) =~= enc_u16(items[0].code()));
        lemma_u16_round_trip(b, pos, items[0].code());
        crate::rel::lemma_rel_axis_code_round_trip(items[0]);
        lemma_sub_piece(b, pos, e, 2, e.len() as int);
        assert(e.subrange(2, e.len() as int) =~= enc_rel_list(items.drop_first()));
        lemma_rel_list_round_trip(b, pos + 2, items.drop_first(), acc.push(items[0]));
        assert(acc.push(items[0]) + items.drop_first() =~= acc + items);
    }
}

/// One absolute axis entry decodes back from its encoding.
proof fn lemma_abs_item_round_trip(b: Seq<u8>, pos: int, item: (AbsAxis, AbsInfo))
    requires
        0 <= pos,
        pos + 22 <= b.len(),
        b.subrange(pos, pos + 22) == enc_abs_item(item),
    ensures
        dec_abs_item(b, pos) == Some((item, pos + 22)),
{
    let e = enc_abs_item(item);
    lemma_sub_piece(b, pos, e, 0, 2);
    assert(e.subrange(0, 2) =~= enc_u16(item.0.code()));
    lemma_u16_round_trip(b, pos, item.0.code());
    crate::abs::lemma_abs_axis_code_round_trip(item.0);
    lemma_sub_piece(b, pos, e, 2, 6);
    assert(e.subrange(2, 6) =~= enc_i32(item.1.min));
    lemma_i32_round_trip(b, pos + 2, item.1.min);
    lemma_sub_piece(b, pos, e, 6, 10);
    assert(e.subrange(6, 10) =~= enc_i32(item.1.max));
    lemma_i32_round_trip(b, pos + 6, item.1.max);
    lemma_sub_piece(b, pos, e, 10, 14);
    assert(e.subrange(10, 14) =~= enc_i32(item.1.fuzz));
    lemma_i32_round_trip(b, pos + 10, item.1.fuzz);
    lemma_sub_piece(b, pos, e, 14, 18);
    assert(e.subrange(14, 18) =~= enc_i32(item.1.flat));
    lemma_i32_round_trip(b, pos + 14, item.1.flat);
    lemma_sub_piece(b, pos, e, 18, 22);
    assert(e.subrange(18, 22) =~= enc_i32(item.1.resolution));
    lemma_i32_round_trip(b, pos + 18, item.1.resolution);
}

/// An absolute axis list's encoding is 22 bytes per entry.
proof fn lemma_enc_abs_list_len(items: Seq<(AbsAxis, AbsInfo)>)
    ensures
        enc_abs_list(items).len() == 22 * items.len(),
    decreases items.len(),
{
    if items.len() > 0 {
        lemma_enc_abs_list_len(items.drop_last());
    }
}

/// An absolute axis list's encoding starts with its first entry.
proof fn lemma_enc_abs_list_head(items: Seq<(AbsAxis, AbsInfo)>)
    requires
        items.len() > 0,
    ensures
        enc_abs_list(items) == enc_abs_item(items[0]) + enc_abs_list(items.drop_first()),
    decreases items.len(),
{
    if items.len() == 1 {
        assert(items.drop_last() =~= Seq::<(AbsAxis, AbsInfo)>::empty());
        assert(items.drop_first() =~= Seq::<(AbsAxis, AbsInfo)>::empty());
        assert(items.last() == items[0]);
        assert(enc_abs_item(items[0]) + enc_abs_list(items.drop_first())
            =~= enc_abs_item(items[0]));
    } else {
        lemma_enc_abs_list_head(items.drop_last());
        assert(items.drop_last()[0] == items[0]);
        assert(items.drop_last().drop_first() =~= items.drop_first().drop_last());
        assert(items.drop_first().last() == items.last());
        assert(enc_abs_item(items[0]) + (enc_abs_list(items.drop_first().drop_last())
            + enc_abs_item(items.last())) =~= (enc_abs_item(items[0]) + enc_abs_list(
            items.drop_first().drop_last(),
        )) + enc_abs_item(items.last()));
    }
}

/// An absolute axis list decodes back from its encoding.
proof fn lemma_abs_list_round_trip(
    b: Seq<u8>,
    pos: int,
    items: Seq<(AbsAxis, AbsInfo)>,
    acc: Seq<(AbsAxis, AbsInfo)>,
)
    requires
        0 <= pos,
        pos + enc_abs_list(items).len() <= b.len(),
        b.subrange(pos, pos + enc_abs_list(items).len()) == enc_abs_list(items),
    ensures
        dec_abs_list(b, pos, items.len() as nat, acc) == Some(
            (acc + items, pos + enc_abs_list(items).len()),
        ),
    decreases items.len(),
{
    lemma_enc_abs_list_len(items);
    if items.len() == 0 {
        assert(acc + items =~= acc);
    } else {
        let e = enc_abs_list(items);
        lemma_enc_abs_list_head(items);
        lemma_enc_abs_list_len(items.drop_first());
        lemma_sub_piece(b, pos, e, 0, 22);
        assert(e.subrange(0, 22) =~= enc_abs_item(items[0]));
        lemma_abs_item_round_trip(b, pos, items[0]);
        lemma_sub_piece(b, pos, e, 22, e.len() as int);
        assert(e.subrange(22, e.len() as int) =~= enc_abs_list(items.drop_first()));
        lemma_abs_list_round_trip(b, pos + 22, items.drop_first(), acc.push(items[0]));
        assert(acc.push(items[0]) + items.drop_first() =~= acc + items);
    }
}

/// An optional value decodes back from its encoding.
proof fn lemma_opt_i32_round_trip(b: Seq<u8>, pos: int, o: Option<i32>)
    requires
        0 <= pos,
        pos + enc_opt_i32(o).len() <= b.len(),
        b.subrange(pos, pos + enc_opt_i32(o).len()) == enc_opt_i32(o),
    ensures
        dec_opt_i32(b, pos) == Some((o, pos + enc_opt_i32(o).len())),
{
    let e = enc_opt_i32(o);
    assert(b[pos] == e[0]) by {
        assert(b.subrange(pos, pos + e.len())[0] == b[pos]);
    }
    match o {
        None => {},
        Some(x) => {
            lemma_sub_piece(b, pos, e, 1, 5);
            assert(e.subrange(1, 5) =~= enc_i32(x));
            lemma_i32_round_trip(b, pos + 1, x);
        },
    }
}


/// The identity chunk of a device announcement decodes piecewise.
proof fn lemma_dev_identity_pieces(b: Seq<u8>, p: int, dev: DeviceView)
    requires
        0 <= p,
        dev.name.len() <= u32::MAX,
        p + enc_dev_identity(dev).len() <= b.len(),
        b.subrange(p, p + enc_dev_identity(dev).len()) == enc_dev_identity(dev),
    ensures
        enc_dev_identity(dev).len() == 10 + dev.name.len(),
        dec_u32(b, p) == Some((dev.name.len() as u32, p + 4)),
        dec_raw(b, p + 4, dev.name.len() as int) == Some((dev.name, p + 4 + dev.name.len())),
        dec_u16(b, p + 4 + dev.name.len()) == Some((dev.vendor, p + 6 + dev.name.len())),
        dec_u16(b, p + 6 + dev.name.len()) == Some((dev.product, p + 8 + dev.name.len())),
        dec_u16(b, p + 8 + dev.name.len()) == Some((dev.version, p + 10 + dev.name.len())),
{
    let e = enc_dev_identity(dev);
    let n = dev.name.len() as int;
    lemma_sub_piece(b, p, e, 0, 4);
    assert(e.subrange(0, 4) =~= enc_u32(dev.name.len() as u32));
    lemma_u32_round_trip(b, p, dev.name.len() as u32);
    lemma_sub_piece(b, p, e, 4, 4 + n);
    assert(e.subrange(4, 4 + n) =~= dev.name);
    lemma_raw_round_trip(b, p + 4, dev.name);
    lemma_sub_piece(b, p, e, 4 + n, 6 + n);
    assert(e.subrange(4 + n, 6 + n) =~= enc_u16(dev.vendor));
    lemma_u16_round_trip(b, p + 4 + n, dev.vendor);
    lemma_sub_piece(b, p, e, 6 + n, 8 + n);
    assert(e.subrange(6 + n, 8 + n) =~= enc_u16(dev.product));
    lemma_u16_round_trip(b, p + 6 + n, dev.product);
    lemma_sub_piece(b, p, e, 8 + n, 10 + n);
    assert(e.subrange(8 + n, 10 + n) =~= enc_u16(dev.version));
    lemma_u16_round_trip(b, p + 8 + n, dev.version);
}

/// The axis chunk of a device announcement decodes piecewise.
proof fn lemma_dev_axes_pieces(b: Seq<u8>, p: int, dev: DeviceView)
    requires
        0 <= p,
        dev.rel.len() <= u32::MAX,
        dev.abs.len() <= u32::MAX,
        p + enc_dev_axes(dev).len() <= b.len(),
        b.subrange(p, p + enc_dev_axes(dev).len()) == enc_dev_axes(dev),
    ensures
        enc_dev_axes(dev).len() == 8 + 2 * dev.rel.len() + 22 * dev.abs.len(),
        dec_u32(b, p) == Some((dev.rel.len() as u32, p + 4)),
        dec_rel_list(b, p + 4, dev.rel.len(), Seq::empty()) == Some(
            (dev.rel, p + 4 + 2 * dev.rel.len()),
        ),
        dec_u32(b, p + 4 + 2 * dev.rel.len()) == Some(
            (dev.abs.len() as u32, p + 8 + 2 * dev.rel.len()),
        ),
        dec_abs_list(b, p + 8 + 2 * dev.rel.len(), dev.abs.len(), Seq::empty()) == Some(
            (dev.abs, p + 8 + 2 * dev.rel.len() + 22 * dev.abs.len()),
        ),
{
    let e = enc_dev_axes(dev);
    lemma_enc_rel_list_len(dev.rel);
    lemma_enc_abs_list_len(dev.abs);
    let rl = 2 * dev.rel.len() as int;
    let al = 22 * dev.abs.len() as int;
    lemma_sub_piece(b, p, e, 0, 4);
    assert(e.subrange(0, 4) =~= enc_u32(dev.rel.len() as u32));
    lemma_u32_round_trip(b, p, dev.rel.len() as u32);
    lemma_sub_piece(b, p, e, 4, 4 + rl);
    assert(e.subrange(4, 4 + rl) =~= enc_rel_list(dev.rel));
    lemma_rel_list_round_trip(b, p + 4, dev.rel, Seq::empty());
    assert(Seq::<RelAxis>::empty() + dev.rel =~= dev.rel);
    lemma_sub_piece(b, p, e, 4 + rl, 8 + rl);
    assert(e.subrange(4 + rl, 8 + rl) =~= enc_u32(dev.abs.len() as u32));
    lemma_u32_round_trip(b, p + 4 + rl, dev.abs.len() as u32);
    lemma_sub_piece(b, p, e, 8 + rl, 8 + rl + al);
    assert(e.subrange(8 + rl, 8 + rl + al) =~= enc_abs_list(dev.abs));
    lemma_abs_list_round_trip(b, p + 8 + rl, dev.abs, Seq::empty());
    assert(Seq::<(AbsAxis, AbsInfo)>::empty() + dev.abs =~= dev.abs);
}

/// The key and auto-repeat chunk of a device announcement decodes
/// piecewise.
proof fn lemma_dev_keys_pieces(b: Seq<u8>, p: int, dev: DeviceView)
    requires
        0 <= p,
        dev.keys.len() <= u32::MAX,
        p + enc_dev_keys(dev).len() <= b.len(),
        b.subrange(p, p + enc_dev_keys(dev).len()) == enc_dev_keys(dev),
    ensures
        enc_dev_keys(dev).len() == 4 + 2 * dev.keys.len() + enc_opt_i32(dev.delay).len()
            + enc_opt_i32(dev.period).len(),
        dec_u32(b, p) == Some((dev.keys.len() as u32, p + 4)),
        dec_key_list(b, p + 4, dev.keys.len(), Seq::empty()) == Some(
            (dev.keys, p + 4 + 2 * dev.keys.len()),
        ),
        dec_opt_i32(b, p + 4 + 2 * dev.keys.len()) == Some(
            (dev.delay, p + 4 + 2 * dev.keys.len() + enc_opt_i32(dev.delay).len()),
        ),
        dec_opt_i32(b, p + 4 + 2 * dev.keys.len() + enc_opt_i32(dev.delay).len()) == Some(
            (
                dev.period,
                p + 4 + 2 * dev.keys.len() + enc_opt_i32(dev.delay).len() + enc_opt_i32(
                    dev.period,
                ).len(),
            ),
        ),
{
    let e = enc_dev_keys(dev);
    lemma_enc_key_list_len(dev.keys);
    let kl = 2 * dev.keys.len() as int;
    let dl = enc_opt_i32(dev.delay).len() as int;
    let pl = enc_opt_i32(dev.period).len() as int;
    lemma_sub_piece(b, p, e, 0, 4);
    assert(e.subrange(0, 4) =~= enc_u32(dev.keys.len() as u32));
    lemma_u32_round_trip(b, p, dev.keys.len() as u32);
    lemma_sub_piece(b, p, e, 4, 4 + kl);
    assert(e.subrange(4, 4 + kl) =~= enc_key_list(dev.keys));
    lemma_key_list_round_trip(b, p + 4, dev.keys, Seq::empty());
    assert(Seq::<Key>::empty() + dev.keys =~= dev.keys);
    lemma_sub_piece(b, p, e, 4 + kl, 4 + kl + dl);
    assert(e.subrange(4 + kl, 4 + kl + dl) =~= enc_opt_i32(dev.delay));
    lemma_opt_i32_round_trip(b, p + 4 + kl, dev.delay);
    lemma_sub_piece(b, p, e, 4 + kl + dl, 4 + kl + dl + pl);
    assert(e.subrange(4 + kl + dl, 4 + kl + dl + pl) =~= enc_opt_i32(dev.period));
    lemma_opt_i32_round_trip(b, p + 4 + kl + dl, dev.period);
}

/// A device identifier decodes back from its encoding.
proof fn lemma_id_round_trip(b: Seq<u8>, pos: int, id: int)
    requires
        0 <= pos,
        0 <= id <= usize::MAX,
        pos + 8 <= b.len(),
        b.subrange(pos, pos + 8) == enc_u64(id as u64),
    ensures
        dec_id(b, pos) == Some((id, pos + 8)),
{
    lemma_u64_round_trip(b, pos, id as u64);
}


/// A device announcement's payload decodes back from its encoding.
#[verifier::rlimit(100)]
#[verifier::spinoff_prover]
proof fn lemma_create_round_trip(b: Seq<u8>, p: int, id: int, dev: DeviceView)
    requires
        0 <= p,
        0 <= id <= usize::MAX,
        dev.name.len() <= u32::MAX,
        dev.rel.len() <= u32::MAX,
        dev.abs.len() <= u32::MAX,
        dev.keys.len() <= u32::MAX,
        p + 8 + enc_dev_identity(dev).len() + enc_dev_axes(dev).len() + enc_dev_keys(dev).len()
            <= b.len(),
        b.subrange(
            p,
            p + 8 + enc_dev_identity(dev).len() + enc_dev_axes(dev).len() + enc_dev_keys(
                dev,
            ).len(),
        ) == enc_u64(id as u64) + enc_dev_identity(dev) + enc_dev_axes(dev) + enc_dev_keys(dev),
    ensures
        dec_create(b, p) == Some(
            (
                UpdateView::CreateDevice { id, dev },
                p + 8 + enc_dev_identity(dev).len() + enc_dev_axes(dev).len() + enc_dev_keys(
                    dev,
                ).len(),
            ),
        ),
{
    let e = enc_u64(id as u64) + enc_dev_identity(dev) + enc_dev_axes(dev) + enc_dev_keys(dev);
    let li = enc_dev_identity(dev).len() as int;
    let la = enc_dev_axes(dev).len() as int;
    let lk = enc_dev_keys(dev).len() as int;
    lemma_sub_piece(b, p, e, 0, 8);
    assert(e.subrange(0, 8) =~= enc_u64(id as u64));
    lemma_id_round_trip(b, p, id);
    lemma_sub_piece(b, p, e, 8, 8 + li);
    assert(e.subrange(8, 8 + li) =~= enc_dev_identity(dev));
    lemma_dev_identity_pieces(b, p + 8, dev);
    lemma_sub_piece(b, p, e, 8 + li, 8 + li + la);
    assert(e.subrange(8 + li, 8 + li + la) =~= enc_dev_axes(dev));
    lemma_dev_axes_pieces(b, p + 8 + li, dev);
    lemma_sub_piece(b, p, e, 8 + li + la, 8 + li + la + lk);
    assert(e.subrange(8 + li + la, 8 + li + la + lk) =~= enc_dev_keys(dev));
    lemma_dev_keys_pieces(b, p + 8 + li + la, dev);
}

/// An announcement update decodes back from its encoding.
#[verifier::rlimit(100)]
#[verifier::spinoff_prover]
proof fn lemma_update_rt_create(b: Seq<u8>, pos: int, id: int, dev: DeviceView)
    requires
        update_enc_wf((UpdateView::CreateDevice { id, dev })),
        0 <= pos,
        pos + enc_update((UpdateView::CreateDevice { id, dev })).len() <= b.len(),
        b.subrange(pos, pos + enc_update((UpdateView::CreateDevice { id, dev })).len())
            == enc_update((UpdateView::CreateDevice { id, dev })),
    ensures
        dec_update(b, pos) == Some(
            (
                (UpdateView::CreateDevice { id, dev }),
                pos + enc_update((UpdateView::CreateDevice { id, dev })).len(),
            ),
        ),
{
    let e = enc_update((UpdateView::CreateDevice { id, dev }));
    assert(b[pos] == e[0]) by {
        assert(b.subrange(pos, pos + e.len())[0] == b[pos]);
    }
    lemma_sub_piece(b, pos, e, 1, e.len() as int);
    assert(e.subrange(1, e.len() as int) =~= enc_u64(id as u64) + enc_dev_identity(dev)
        + enc_dev_axes(dev) + enc_dev_keys(dev));
    lemma_create_round_trip(b, pos + 1, id, dev);
}

/// A teardown update decodes back from its encoding.
proof fn lemma_update_rt_destroy(b: Seq<u8>, pos: int, id: int)
    requires
        0 <= id <= usize::MAX,
        0 <= pos,
        pos + 9 <= b.len(),
        b.subrange(pos, pos + 9) == enc_update((UpdateView::DestroyDevice { id })),
    ensures
        dec_update(b, pos) == Some(((UpdateView::DestroyDevice { id }), pos + 9)),
{
    let e = enc_update((UpdateView::DestroyDevice { id }));
    assert(b[pos] == e[0]) by {
        assert(b.subrange(pos, pos + e.len())[0] == b[pos]);
    }
    lemma_sub_piece(b, pos, e, 1, 9);
    assert(e.subrange(1, 9) =~= enc_u64(id as u64));
    lemma_id_round_trip(b, pos + 1, id);
}

/// An event update decodes back from its encoding.
proof fn lemma_update_rt_event(b: Seq<u8>, pos: int, id: int, event: Event)
    requires
        0 <= id <= usize::MAX,
        0 <= pos,
        pos + enc_update((UpdateView::Event { id, event })).len() <= b.len(),
        b.subrange(pos, pos + enc_update((UpdateView::Event { id, event })).len()) == enc_update(
            (UpdateView::Event { id, event }),
        ),
    ensures
        dec_update(b, pos) == Some(
            (
                (UpdateView::Event { id, event }),
                pos + enc_update((UpdateView::Event { id, event })).len(),
            ),
        ),
{
    let e = enc_update((UpdateView::Event { id, event }));
    assert(b[pos] == e[0]) by {
        assert(b.subrange(pos, pos + e.len())[0] == b[pos]);
    }
    lemma_sub_piece(b, pos, e, 1, 9);
    assert(e.subrange(1, 9) =~= enc_u64(id as u64));
    lemma_id_round_trip(b, pos + 1, id);
    lemma_sub_piece(b, pos, e, 9, 9 + enc_event(event).len() as int);
    assert(e.subrange(9, 9 + enc_event(event).len() as int) =~= enc_event(event));
    lemma_event_round_trip(b, pos + 9, event);
}

/// Every update decodes back from its encoding: the codec loses nothing.
pub proof fn lemma_update_round_trip(b: Seq<u8>, pos: int, u: UpdateView)
    requires
        update_enc_wf(u),
        0 <= pos,
        pos + enc_update(u).len() <= b.len(),
        b.subrange(pos, pos + enc_update(u).len()) == enc_update(u),
    ensures
        dec_update(b, pos) == Some((u, pos + enc_update(u).len())),
{
    match u {
        UpdateView::CreateDevice { id, dev } => {
            lemma_update_rt_create(b, pos, id, dev);
        },
        UpdateView::DestroyDevice { id } => {
            lemma_update_rt_destroy(b, pos, id);
        },
        UpdateView::Event { id, event } => {
            lemma_update_rt_event(b, pos, id, event);
        },
        UpdateView::Ping => {
            let e = enc_update(u);
            assert(b[pos] == e[0]) by {
                assert(b.subrange(pos, pos + e.len())[0] == b[pos]);
            }
        },
    }
}

} // verus!
