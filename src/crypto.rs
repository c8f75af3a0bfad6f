//! The cryptographic primitives: a Blake2b digest of variable length and
//! ed25519 signatures whose internal hashing is Blake2b as well.
use vstd::prelude::*;
use blake2::digest::{Update, VariableOutput};
use blake2::{Blake2b512, Blake2bVar};
use ed25519_dalek::hazmat::{raw_sign, raw_verify, ExpandedSecretKey};
use ed25519_dalek::VerifyingKey;
use crate::types::{PubKey, Signature};

verus! {

/// The unkeyed Blake2b digest of `msg` with an output of `len` bytes.
pub uninterp spec fn blake2b_of(len: nat, msg: Seq<u8>) -> Seq<u8>;

/// The ed25519 public key of an expanded secret key.
pub uninterp spec fn ed25519_public_of(expanded: Seq<u8>) -> Seq<u8>;

/// The ed25519 signature of `msg` under an expanded secret key.
pub uninterp spec fn ed25519_signature_of(expanded: Seq<u8>, msg: Seq<u8>) -> Seq<u8>;

/// Whether ed25519 verification accepts `sig` on `msg` under `key`.
pub uninterp spec fn ed25519_accepts(key: Seq<u8>, msg: Seq<u8>, sig: Seq<u8>) -> bool;

/// Relies on blake2's `Blake2bVar`: the digest of `msg` with `len` output
/// bytes, which `Blake2bVar::new` accepts from 1 to 64.
#[verifier::external_body]
fn blake2b(len: usize, msg: &[u8]) -> (r: Vec<u8>)
    requires
        1 <= len <= 64,
    ensures
        r@ == blake2b_of(len as nat, msg@),
        r@.len() == len,
{
    let mut hasher = Blake2bVar::new(len).unwrap();
    hasher.update(msg);
    let mut out = vec![0u8; len];
    hasher.finalize_variable(&mut out).unwrap();
    out
}

/// The 32-byte Blake2b digest of `msg`.
pub fn digest32(msg: &[u8]) -> (r: [u8; 32])
    ensures
        r@ == blake2b_of(32, msg@),
{
    let v = blake2b(32, msg);
    let mut out = [0u8; 32];
    let mut i: usize = 0;
    while i < 32
        invariant
            0 <= i <= 32,
            v@.len() == 32,
            forall|j: int| 0 <= j < i ==> out@[j] == v@[j],
        decreases 32 - i,
    {
        out[i] = v[i];
        i = i + 1;
    }
    assert(out@ =~= v@);
    out
}

/// The 8-byte Blake2b digest of `msg`.
pub fn digest8(msg: &[u8]) -> (r: [u8; 8])
    ensures
        r@ == blake2b_of(8, msg@),
{
    let v = blake2b(8, msg);
    let mut out = [0u8; 8];
    let mut i: usize = 0;
    while i < 8
        invariant
            0 <= i <= 8,
            v@.len() == 8,
            forall|j: int| 0 <= j < i ==> out@[j] == v@[j],
        decreases 8 - i,
    {
        out[i] = v[i];
        i = i + 1;
    }
    assert(out@ =~= v@);
    out
}

/// The 64-byte Blake2b digest of a secret key, its expanded form.
fn expand_secret(secret: &[u8; 32]) -> (r: [u8; 64])
    ensures
        r@ == blake2b_of(64, secret@),
{
    let v = blake2b(64, secret);
    let mut out = [0u8; 64];
    let mut i: usize = 0;
    while i < 64
        invariant
            0 <= i <= 64,
            v@.len() == 64,
            forall|j: int| 0 <= j < i ==> out@[j] == v@[j],
        decreases 64 - i,
    {
        out[i] = v[i];
        i = i + 1;
    }
    assert(out@ =~= v@);
    out
}

/// Relies on ed25519_dalek's `ExpandedSecretKey::from_bytes` and
/// `VerifyingKey::from`: the public key of an expanded secret key.
#[verifier::external_body]
fn ed25519_public(expanded: &[u8; 64]) -> (r: [u8; 32])
    ensures
        r@ == ed25519_public_of(expanded@),
{
    VerifyingKey::from(&ExpandedSecretKey::from_bytes(expanded)).to_bytes()
}

/// Relies on ed25519_dalek's `hazmat::raw_sign` with Blake2b-512 as its
/// digest: the signature of `msg` under an expanded secret key.
#[verifier::external_body]
fn ed25519_sign(expanded: &[u8; 64], msg: &[u8]) -> (r: [u8; 64])
    ensures
        r@ == ed25519_signature_of(expanded@, msg@),
{
    let esk = ExpandedSecretKey::from_bytes(expanded);
    let vk = VerifyingKey::from(&esk);
    raw_sign::<Blake2b512>(&esk, msg, &vk).to_bytes()
}

/// Relies on ed25519_dalek's `VerifyingKey::from_bytes` and
/// `hazmat::raw_verify` with Blake2b-512 as its digest: whether `sig` is a
/// signature of `msg` under `key`; a key that is no curve point is refused.
#[verifier::external_body]
fn ed25519_verify(key: &[u8; 32], msg: &[u8], sig: &[u8; 64]) -> (r: bool)
    ensures
        r == ed25519_accepts(key@, msg@, sig@),
{
    match VerifyingKey::from_bytes(key) {
        Ok(vk) => raw_verify::<Blake2b512>(&vk, msg, &ed25519_dalek::Signature::from_bytes(sig)).is_ok(),
        Err(_) => false,
    }
}

/// Whether `sig` is a valid signature of `msg` under the account key `key`.
pub open spec fn signature_valid(key: PubKey, msg: Seq<u8>, sig: Signature) -> bool {
    ed25519_accepts(key.0@, msg, sig.0@)
}

/// Checks `sig` on `msg` under `key`.
pub fn verify_signature(key: &PubKey, msg: &[u8], sig: &Signature) -> (r: bool)
    ensures
        r == signature_valid(*key, msg@, *sig),
{
    ed25519_verify(&key.0, msg, &sig.0)
}

/// A signing key: a 32-byte secret and the public key derived from it.
#[derive(Debug, Clone, Copy)]
pub struct Keypair {
    pub secret: [u8; 32],
    pub public: PubKey,
}

impl Keypair {
    /// Whether `public` is the key that `secret` derives.
    pub open spec fn wf(self) -> bool {
        self.public.0@ == ed25519_public_of(blake2b_of(64, self.secret@))
    }

    /// The keypair of a secret; the secret is expanded with Blake2b-512.
    pub fn from_secret(secret: [u8; 32]) -> (r: Keypair)
        ensures
            r.secret == secret,
            r.wf(),
    {
        let expanded = expand_secret(&secret);
        Keypair { secret, public: PubKey(ed25519_public(&expanded)) }
    }

    /// The signature of `msg` under this key.
    pub fn sign(&self, msg: &[u8]) -> (r: Signature)
        ensures
            r.0@ == ed25519_signature_of(blake2b_of(64, self.secret@), msg@),
    {
        let expanded = expand_secret(&self.secret);
        Signature(ed25519_sign(&expanded, msg))
    }
}

} // verus!
