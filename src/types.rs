//! Plain values of the ledger: digests, keys, signatures, nonces and amounts.
use vstd::prelude::*;
use byteorder::{ByteOrder, LE};

verus! {

/// A 32-byte block digest, the identifier of a block.
pub type Hash = [u8; 32];

/// Work digests above this value prove enough work.
pub const RAI_WORK_THRESHOLD: u64 = 0xffffffc000000000;

/// Number of a little-endian byte string.
pub open spec fn le_value(b: Seq<u8>) -> nat
    decreases b.len(),
{
    if b.len() == 0 {
        0
    } else {
        b[0] as nat + 256 * le_value(b.drop_first())
    }
}

/// The `len` lowest bytes of `n`, little-endian.
pub open spec fn le_bytes(n: nat, len: nat) -> Seq<u8>
    decreases len,
{
    if len == 0 {
        Seq::empty()
    } else {
        seq![(n % 256) as u8] + le_bytes(n / 256, (len - 1) as nat)
    }
}

/// Relies on byteorder's `LE::read_u64`: the number of the first eight bytes, little-endian.
#[verifier::external_body]
fn read_u64_le(b: &[u8; 8]) -> (r: u64)
    ensures
        r as nat == le_value(b@),
{
    LE::read_u64(b)
}

/// Relies on byteorder's `LE::write_u64`: the eight bytes of `n`, little-endian.
#[verifier::external_body]
pub(crate) fn write_u64_le(n: u64) -> (r: [u8; 8])
    ensures
        r@ == le_bytes(n as nat, 8),
{
    let mut b = [0u8; 8];
    LE::write_u64(&mut b, n);
    b
}

/// Relies on byteorder's `LE::write_u128`: the sixteen bytes of `n`, little-endian.
#[verifier::external_body]
pub(crate) fn write_u128_le(n: u128) -> (r: [u8; 16])
    ensures
        r@ == le_bytes(n as nat, 16),
{
    let mut b = [0u8; 16];
    LE::write_u128(&mut b, n);
    b
}

/// Appends `b` to `v`.
pub(crate) fn append_bytes(v: &mut Vec<u8>, b: &[u8])
    ensures
        final(v)@ == old(v)@ + b@,
{
    let mut i: usize = 0;
    while i < b.len()
        invariant
            0 <= i <= b@.len(),
            v@ == old(v)@ + b@.subrange(0, i as int),
        decreases b@.len() - i,
    {
        v.push(b[i]);
        i = i + 1;
        assert(b@.subrange(0, i as int) =~= b@.subrange(0, i - 1) .push(b@[i - 1]));
    }
    assert(b@.subrange(0, b@.len() as int) =~= b@);
}

/// Whether two digests are byte for byte equal.
pub fn same_hash(a: &Hash, b: &Hash) -> (r: bool)
    ensures
        r == (a@ == b@),
{
    let mut i: usize = 0;
    while i < 32
        invariant
            0 <= i <= 32,
            forall|j: int| 0 <= j < i ==> a@[j] == b@[j],
        decreases 32 - i,
    {
        if a[i] != b[i] {
            return false;
        }
        i = i + 1;
    }
    assert(a@ =~= b@);
    true
}

/// A 32-byte ed25519 public key; it also names an account.
#[derive(Debug, PartialEq, Eq, Clone, Copy, Hash)]
pub struct PubKey(pub [u8; 32]);

impl PubKey {
    /// Whether two keys are byte for byte equal.
    pub fn same(&self, other: &PubKey) -> (r: bool)
        ensures
            r == (self.0@ == other.0@),
    {
        same_hash(&self.0, &other.0)
    }
}

impl From<[u8; 32]> for PubKey {
    fn from(key: [u8; 32]) -> (r: PubKey) {
        PubKey(key)
    }
}

impl vstd::std_specs::convert::FromSpecImpl<[u8; 32]> for PubKey {
    open spec fn obeys_from_spec() -> bool {
        true
    }

    open spec fn from_spec(key: [u8; 32]) -> PubKey {
        PubKey(key)
    }
}

/// A 64-byte ed25519 signature over a block digest.
#[derive(Debug, Clone, Copy)]
pub struct Signature(pub [u8; 64]);

impl Default for Signature {
    fn default() -> (r: Signature)
        ensures
            forall|i: int| 0 <= i < 64 ==> r.0@[i] == 0,
    {
        Signature([0u8; 64])
    }
}

impl From<[u8; 64]> for Signature {
    fn from(sig: [u8; 64]) -> (r: Signature) {
        Signature(sig)
    }
}

impl vstd::std_specs::convert::FromSpecImpl<[u8; 64]> for Signature {
    open spec fn obeys_from_spec() -> bool {
        true
    }

    open spec fn from_spec(sig: [u8; 64]) -> Signature {
        Signature(sig)
    }
}

/// A proof-of-work nonce.
#[derive(Debug, Clone, Copy, PartialEq, Eq, Structural)]
pub struct Work(pub u64);

impl Default for Work {
    fn default() -> (r: Work)
        ensures
            r.0 == 0,
    {
        Work(0)
    }
}

impl Work {
    /// The nonce's eight bytes, little-endian.
    pub fn to_bytes(&self) -> (r: [u8; 8])
        ensures
            r@ == le_bytes(self.0 as nat, 8),
    {
        write_u64_le(self.0)
    }
}

/// An 8-byte work digest.
#[derive(Debug, Clone, Copy)]
pub struct WorkHash(pub [u8; 8]);

impl WorkHash {
    /// The digest read as a little-endian number.
    pub open spec fn value(self) -> nat {
        le_value(self.0@)
    }

    /// Whether the digest proves enough work: its little-endian value is
    /// strictly above the threshold.
    pub fn verify(&self) -> (r: bool)
        ensures
            r == (self.value() > RAI_WORK_THRESHOLD as nat),
    {
        let w: u64 = read_u64_le(&self.0);
        w > RAI_WORK_THRESHOLD
    }
}

/// An amount held by an account.
#[derive(Debug, Clone, Copy, PartialEq, Eq, PartialOrd, Ord, Structural)]
pub struct Balance(pub u128);

impl Balance {
    /// The amount's sixteen bytes, little-endian.
    pub fn to_bytes(&self) -> (r: [u8; 16])
        ensures
            r@ == le_bytes(self.0 as nat, 16),
    {
        write_u128_le(self.0)
    }

    /// The sum, or `None` where it would not fit.
    pub fn checked_add(self, rhs: Balance) -> (r: Option<Balance>)
        ensures
            r == (if self.0 + rhs.0 <= u128::MAX { Some(Balance((self.0 + rhs.0) as u128)) } else { None::<Balance> }),
    {
        match self.0.checked_add(rhs.0) {
            Some(v) => Some(Balance(v)),
            None => None,
        }
    }

    /// The difference, or `None` where `rhs` is the larger.
    pub fn checked_sub(self, rhs: Balance) -> (r: Option<Balance>)
        ensures
            r == (if rhs.0 <= self.0 { Some(Balance((self.0 - rhs.0) as u128)) } else { None::<Balance> }),
    {
        if rhs.0 <= self.0 {
            Some(Balance(self.0 - rhs.0))
        } else {
            None
        }
    }
}

} // verus!
