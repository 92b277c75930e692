//! Core logic of a networked keyboard/video/mouse switch.
//!
//! A server captures raw input events from its local devices and routes each
//! one either back to the local machine or to one of several remote clients
//! over an authenticated connection.  This crate holds the verified heart of
//! that server: the input event model, the wire codec, the authentication
//! handshake, the device and client registries, and the switching state
//! machine that decides where every event goes.  The unverified binary around
//! it performs the actual socket, timer and device I/O and consults this
//! crate for every decision.

pub mod abs;
pub mod auth;
pub mod clients;
pub mod devices;
pub mod event;
pub mod key;
pub mod keyset;
pub mod mirror;
pub mod normalizer;
pub mod proto;
pub mod rel;
pub mod replay;
pub mod server;
pub mod session;
pub mod switch;
pub mod sync;
pub mod update;
pub mod wire;
pub mod writer;

use vstd::prelude::*;

verus! {

/// A top-level failure of the switching core.
///
/// `Network` stands for an I/O failure on the listening socket, `Input` for a
/// fatal failure of a device, and `Overflow` for a full local write-back
/// queue, which the design treats as unrecoverable.
#[derive(Clone, Copy, Debug, PartialEq, Eq, Structural)]
pub enum Error {
    Network,
    Input,
    Overflow,
}

} // verus!
