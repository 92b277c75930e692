//! The per-client connection task's decisions.
//!
//! One task serves one accepted socket: it exchanges versions, runs the
//! challenge–response authentication, then drains the client's update queue
//! onto the socket while pinging on a timer.  The socket, timer and queue
//! live in the surrounding binary; every decision along that path — whether
//! the version passes, what verdict the response earns, whether the session
//! goes on, and what to send next — is made here.

use vstd::prelude::*;

use crate::auth::{spec_verify, AuthChallenge, AuthResponse};
use crate::proto::{AuthStatus, Version};
use crate::update::Update;

verus! {

/// Seconds between pings; a connected client must answer each promptly.
pub const PING_INTERVAL_SECS: u64 = 5;

/// Seconds allowed for the TLS accept.
pub const TLS_TIMEOUT_SECS: u64 = 10;

/// Seconds allowed for each inbound message.
pub const READ_TIMEOUT_SECS: u64 = 10;

/// Seconds allowed for each outbound message.
pub const WRITE_TIMEOUT_SECS: u64 = 10;

/// Why a client session ended.
#[derive(Clone, Copy, Debug, PartialEq, Eq, Structural)]
pub enum ClientError {
    /// The socket failed or timed out.
    Io,
    /// The client speaks another protocol version.
    Version { server: Version, client: Version },
    /// The client presented the wrong password.
    Auth,
    /// The system's randomness source failed.
    Rand,
}

/// Relies on rand's `OsRng`: on success the buffer is filled with
/// operating-system randomness, so nothing holds of the bytes but their
/// number; a failure of the randomness source comes back as `None`.
#[verifier::external_body]
fn os_random_bytes(n: usize) -> (r: Option<Vec<u8>>)
    ensures
        r matches Some(v) ==> v@.len() == n,
{
    let mut buf = vec![0u8; n];
    match rand::RngCore::try_fill_bytes(&mut rand::rngs::OsRng, buf.as_mut_slice()) {
        Ok(()) => Some(buf),
        Err(_) => None,
    }
}

/// A fresh challenge: 32 random salt bytes and 16 random nonce bytes, or
/// the randomness failure.
pub fn generate_challenge() -> (r: Result<AuthChallenge, ClientError>)
    ensures
        r matches Ok(c) ==> c.wf(),
        r matches Err(e) ==> e == ClientError::Rand,
{
    let salt = match os_random_bytes(32) {
        Some(salt) => salt,
        None => {
            return Err(ClientError::Rand);
        },
    };
    let nonce = match os_random_bytes(16) {
        Some(nonce) => nonce,
        None => {
            return Err(ClientError::Rand);
        },
    };
    Ok(AuthChallenge { salt, nonce })
}

/// The version gate: only the exact version this build speaks may go on.
pub fn check_version(client: Version) -> (r: Result<(), ClientError>)
    ensures
        r is Ok <==> client == Version::spec_current(),
        r matches Err(e) ==> e == (ClientError::Version {
            server: Version::spec_current(),
            client,
        }),
{
    let server = Version::current();
    if client == server {
        Ok(())
    } else {
        Err(ClientError::Version { server, client })
    }
}

/// The verdict on a presented response: passed exactly when it verifies
/// against the challenge and password.
pub fn auth_verdict(
    response: &AuthResponse,
    challenge: &AuthChallenge,
    password: &Vec<u8>,
) -> (r: AuthStatus)
    ensures
        r is Passed <==> spec_verify(response.hash@, password@, challenge.salt@, challenge.nonce@),
{
    if response.verify(challenge, password) {
        AuthStatus::Passed
    } else {
        AuthStatus::Failed
    }
}

/// A failed authentication ends the session with the authentication
/// error; only a passed one lets it go on.
pub fn verdict_gate(status: AuthStatus) -> (r: Result<(), ClientError>)
    ensures
        r is Ok <==> status is Passed,
        r matches Err(e) ==> e == ClientError::Auth,
{
    match status {
        AuthStatus::Passed => Ok(()),
        AuthStatus::Failed => Err(ClientError::Auth),
    }
}

/// What the session sends next.  The ping timer always wins over queued
/// updates, so a flood of events cannot starve the keepalive; without a
/// tick the next queued update goes out, and an exhausted queue ends the
/// session cleanly.
pub fn select_outbound(tick_ready: bool, queued: Option<Update>) -> (r: Option<Update>)
    ensures
        tick_ready ==> (r matches Some(u) && u@ is Ping),
        !tick_ready ==> r == queued,
{
    if tick_ready {
        Some(Update::Ping)
    } else {
        queued
    }
}

} // verus!
