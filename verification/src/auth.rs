//! The challenge–response authentication.
//!
//! After the version exchange the server sends a random salt and nonce; the
//! client answers with the digest of its password followed by both, and the
//! server compares that against the digest it computes itself.  The digest
//! function is named, not restated: every claim below is relative to the
//! digest of the concatenated message.

use vstd::prelude::*;

verus! {

/// The SHA-256 digest of a byte string, as the outside implementation
/// computes it: a function of the bytes alone.
pub uninterp spec fn sha256_of(data: Seq<u8>) -> Seq<u8>;

/// Relies on sha2's `Digest::digest` for `Sha256`: the digest depends on
/// the input bytes alone and is 32 bytes long.
#[verifier::external_body]
fn sha256(data: &Vec<u8>) -> (r: Vec<u8>)
    ensures
        r@ == sha256_of(data@),
        r@.len() == 32,
{
    let digest = <sha2::Sha256 as sha2::Digest>::digest(data.as_slice());
    digest.as_slice().to_vec()
}

/// The server's challenge: a random salt and nonce.
#[derive(Clone, Debug)]
pub struct AuthChallenge {
    pub salt: Vec<u8>,
    pub nonce: Vec<u8>,
}

impl AuthChallenge {
    /// A challenge carries a 32-byte salt and a 16-byte nonce.
    pub open spec fn wf(self) -> bool {
        self.salt@.len() == 32 && self.nonce@.len() == 16
    }
}

/// The client's answer: a digest.
#[derive(Clone, Debug)]
pub struct AuthResponse {
    pub hash: Vec<u8>,
}

/// The bytes both sides digest: the password, then the salt, then the
/// nonce.
pub open spec fn auth_message(password: Seq<u8>, salt: Seq<u8>, nonce: Seq<u8>) -> Seq<u8> {
    password + salt + nonce
}

/// The digest a holder of `password` answers the challenge with.
pub open spec fn spec_response(password: Seq<u8>, salt: Seq<u8>, nonce: Seq<u8>) -> Seq<u8> {
    sha256_of(auth_message(password, salt, nonce))
}

/// Whether a presented digest passes for this password and challenge.
pub open spec fn spec_verify(
    hash: Seq<u8>,
    password: Seq<u8>,
    salt: Seq<u8>,
    nonce: Seq<u8>,
) -> bool {
    hash == spec_response(password, salt, nonce)
}

impl AuthResponse {
    /// The answer to `challenge` for a holder of `password`.
    pub fn generate(password: &Vec<u8>, challenge: &AuthChallenge) -> (r: AuthResponse)
        ensures
            r.hash@ == spec_response(password@, challenge.salt@, challenge.nonce@),
    {
        let mut message: Vec<u8> = Vec::new();
        let mut i: usize = 0;
        while i < password.len()
            invariant
                i <= password@.len(),
                message@ == password@.take(i as int),
            decreases password.len() - i,
        {
            message.push(password[i]);
            i += 1;
        }
        let mut j: usize = 0;
        while j < challenge.salt.len()
            invariant
                j <= challenge.salt@.len(),
                message@ == password@ + challenge.salt@.take(j as int),
            decreases challenge.salt.len() - j,
        {
            proof {
                assert((password@ + challenge.salt@.take(j as int)).push(challenge.salt@[j as int])
                    =~= password@ + challenge.salt@.take(j + 1));
            }
            message.push(challenge.salt[j]);
            j += 1;
        }
        let mut k: usize = 0;
        while k < challenge.nonce.len()
            invariant
                k <= challenge.nonce@.len(),
                message@ == password@ + challenge.salt@ + challenge.nonce@.take(k as int),
            decreases challenge.nonce.len() - k,
        {
            proof {
                assert((password@ + challenge.salt@ + challenge.nonce@.take(k as int)).push(
                    challenge.nonce@[k as int],
                ) =~= password@ + challenge.salt@ + challenge.nonce@.take(k + 1));
            }
            message.push(challenge.nonce[k]);
            k += 1;
        }
        proof {
            assert(password@.take(password@.len() as int) =~= password@);
            assert(challenge.salt@.take(challenge.salt@.len() as int) =~= challenge.salt@);
            assert(challenge.nonce@.take(challenge.nonce@.len() as int) =~= challenge.nonce@);
            assert(message@ =~= auth_message(password@, challenge.salt@, challenge.nonce@));
        }
        AuthResponse { hash: sha256(&message) }
    }

    /// Whether this response is the one a holder of `password` generates
    /// for `challenge`.
    pub fn verify(&self, challenge: &AuthChallenge, password: &Vec<u8>) -> (r: bool)
        ensures
            r == spec_verify(self.hash@, password@, challenge.salt@, challenge.nonce@),
    {
        let expected = AuthResponse::generate(password, challenge);
        bytes_eq(&self.hash, &expected.hash)
    }
}

/// Whether two byte strings hold the same bytes.
fn bytes_eq(a: &Vec<u8>, b: &Vec<u8>) -> (r: bool)
    ensures
        r == (a@ == b@),
{
    if a.len() != b.len() {
        return false;
    }
    let mut i: usize = 0;
    while i < a.len()
        invariant
            i <= a@.len(),
            a@.len() == b@.len(),
            forall|j: int| 0 <= j < i ==> a@[j] == b@[j],
        decreases a.len() - i,
    {
        if a[i] != b[i] {
            return false;
        }
        i += 1;
    }
    proof {
        assert(a@ =~= b@);
    }
    true
}

/// The authentication round trip: a response passes for a password and
/// challenge exactly when it is the digest that this password and challenge
/// produce — the response generated from them, and no other digest.  That
/// two *different* passwords give different digests is the hash's collision
/// resistance, which no statement about the named digest can supply.
pub proof fn lemma_auth_round_trip(password: Seq<u8>, salt: Seq<u8>, nonce: Seq<u8>)
    ensures
        spec_verify(spec_response(password, salt, nonce), password, salt, nonce),
        forall|hash: Seq<u8>|
            spec_verify(hash, password, salt, nonce) ==> hash == spec_response(
                password,
                salt,
                nonce,
            ),
{
}

} // verus!
