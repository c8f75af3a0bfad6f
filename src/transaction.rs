//! Blocks: the four variants, their canonical digest, their proof of work and
//! the checks each variant must pass against the ledger.
use vstd::prelude::*;
use crate::blockstorage::{BlockStorage, LedgerModel};
use crate::crypto::{blake2b_of, digest32, digest8, signature_valid, verify_signature, Keypair};
use crate::errors::Failure;
use crate::types::{append_bytes, le_bytes, le_value, Balance, PubKey, Signature, Work, WorkHash, RAI_WORK_THRESHOLD};

verus! {

/// The work digest of a nonce for a block with the given work element.
pub open spec fn work_digest(work: Work, element: Seq<u8>) -> Seq<u8> {
    blake2b_of(8, le_bytes(work.0 as nat, 8) + element)
}

/// Whether a nonce is valid work for a block with the given work element.
pub open spec fn work_valid(work: Work, element: Seq<u8>) -> bool {
    le_value(work_digest(work, element)) > RAI_WORK_THRESHOLD as nat
}

/// The work digest of `work` bound to `element`: Blake2b with eight output
/// bytes over the nonce's bytes followed by the element.
pub fn work_hash(work: Work, element: &[u8]) -> (r: WorkHash)
    ensures
        r.0@ == work_digest(work, element@),
{
    let mut msg: Vec<u8> = Vec::new();
    append_bytes(&mut msg, &work.to_bytes());
    append_bytes(&mut msg, element);
    WorkHash(digest8(msg.as_slice()))
}

/// A block with a canonical digest over its semantic fields.
pub trait RaiHash {
    /// The bytes that are hashed: the semantic fields, never work or signature.
    spec fn hash_bytes(&self) -> Seq<u8>;

    /// The semantic fields, concatenated in their canonical order.
    fn hash_elements(&self) -> (r: Vec<u8>)
        ensures
            r@ == self.hash_bytes(),
    ;

    /// The block's 32-byte Blake2b digest.
    fn hash(&self) -> (r: crate::types::Hash)
        ensures
            r@ == blake2b_of(32, self.hash_bytes()),
    {
        let e = self.hash_elements();
        digest32(e.as_slice())
    }
}

/// A block that carries a proof of work bound to one of its own fields.
pub trait RaiWork {
    /// The field the work is bound to.
    spec fn work_element_bytes(&self) -> Seq<u8>;

    /// The nonce the block carries.
    spec fn work_nonce(&self) -> Work;

    fn work_element(&self) -> (r: &[u8])
        ensures
            r@ == self.work_element_bytes(),
    ;

    fn work_value(&self) -> (r: Work)
        ensures
            r == self.work_nonce(),
    ;

    /// The work digest a candidate nonce would have on this block.
    fn work_calculate(&self, work: Work) -> (r: WorkHash)
        ensures
            r.0@ == work_digest(work, self.work_element_bytes()),
    {
        work_hash(work, self.work_element())
    }

    /// The work digest of the nonce the block carries.
    fn work_validate(&self) -> (r: WorkHash)
        ensures
            r.0@ == work_digest(self.work_nonce(), self.work_element_bytes()),
    {
        self.work_calculate(self.work_value())
    }

    /// Succeeds exactly when the carried nonce is valid work.
    fn verify_work(&self) -> (r: Result<(), Failure>)
        ensures
            r == (if work_valid(self.work_nonce(), self.work_element_bytes()) {
                Ok::<(), Failure>(())
            } else {
                Err(Failure::Work)
            }),
    {
        if self.work_validate().verify() {
            Ok(())
        } else {
            Err(Failure::Work)
        }
    }
}

/// The first block of an account's chain.
#[derive(Debug, Clone, Copy)]
pub struct OpenTransaction {
    pub account: PubKey,
    pub source: crate::types::Hash,
    pub representative: PubKey,
    pub work: Work,
    pub signature: Signature,
}

/// A transfer out of the sender's account; `balance` is what the sender holds after it.
#[derive(Debug, Clone, Copy)]
pub struct SendTransaction {
    pub previous: crate::types::Hash,
    pub balance: Balance,
    pub destination: PubKey,
    pub work: Work,
    pub signature: Signature,
}

/// The receipt of a send into the receiver's account.
#[derive(Debug, Clone, Copy)]
pub struct ReceiveTransaction {
    pub previous: crate::types::Hash,
    pub source: crate::types::Hash,
    pub work: Work,
    pub signature: Signature,
}

/// A change of the account's representative.
#[derive(Debug, Clone, Copy)]
pub struct ChangeTransaction {
    pub previous: crate::types::Hash,
    pub representative: PubKey,
    pub work: Work,
    pub signature: Signature,
}

/// A block of any variant.
#[derive(Debug, Clone, Copy)]
pub enum Transaction {
    Open(OpenTransaction),
    Send(SendTransaction),
    Receive(ReceiveTransaction),
    Change(ChangeTransaction),
}

/// The digest of a block.
pub open spec fn block_hash(t: Transaction) -> Seq<u8> {
    blake2b_of(32, t.hash_bytes())
}

impl RaiHash for OpenTransaction {
    open spec fn hash_bytes(&self) -> Seq<u8> {
        self.source@ + self.representative.0@ + self.account.0@
    }

    fn hash_elements(&self) -> (r: Vec<u8>) {
        let mut v: Vec<u8> = Vec::new();
        append_bytes(&mut v, &self.source);
        append_bytes(&mut v, &self.representative.0);
        append_bytes(&mut v, &self.account.0);
        v
    }
}

impl RaiHash for SendTransaction {
    open spec fn hash_bytes(&self) -> Seq<u8> {
        self.previous@ + self.destination.0@ + le_bytes(self.balance.0 as nat, 16)
    }

    fn hash_elements(&self) -> (r: Vec<u8>) {
        let mut v: Vec<u8> = Vec::new();
        append_bytes(&mut v, &self.previous);
        append_bytes(&mut v, &self.destination.0);
        append_bytes(&mut v, &self.balance.to_bytes());
        v
    }
}

impl RaiHash for ReceiveTransaction {
    open spec fn hash_bytes(&self) -> Seq<u8> {
        self.previous@ + self.source@
    }

    fn hash_elements(&self) -> (r: Vec<u8>) {
        let mut v: Vec<u8> = Vec::new();
        append_bytes(&mut v, &self.previous);
        append_bytes(&mut v, &self.source);
        v
    }
}

impl RaiHash for ChangeTransaction {
    open spec fn hash_bytes(&self) -> Seq<u8> {
        self.previous@ + self.representative.0@
    }

    fn hash_elements(&self) -> (r: Vec<u8>) {
        let mut v: Vec<u8> = Vec::new();
        append_bytes(&mut v, &self.previous);
        append_bytes(&mut v, &self.representative.0);
        v
    }
}

impl RaiHash for Transaction {
    open spec fn hash_bytes(&self) -> Seq<u8> {
        match self {
            Transaction::Open(o) => o.hash_bytes(),
            Transaction::Send(s) => s.hash_bytes(),
            Transaction::Receive(r) => r.hash_bytes(),
            Transaction::Change(c) => c.hash_bytes(),
        }
    }

    fn hash_elements(&self) -> (r: Vec<u8>) {
        match self {
            Transaction::Open(o) => o.hash_elements(),
            Transaction::Send(s) => s.hash_elements(),
            Transaction::Receive(r) => r.hash_elements(),
            Transaction::Change(c) => c.hash_elements(),
        }
    }
}

impl RaiWork for OpenTransaction {
    open spec fn work_element_bytes(&self) -> Seq<u8> {
        self.account.0@
    }

    open spec fn work_nonce(&self) -> Work {
        self.work
    }

    fn work_element(&self) -> (r: &[u8]) {
        &self.account.0
    }

    fn work_value(&self) -> (r: Work) {
        self.work
    }
}

impl RaiWork for SendTransaction {
    open spec fn work_element_bytes(&self) -> Seq<u8> {
        self.previous@
    }

    open spec fn work_nonce(&self) -> Work {
        self.work
    }

    fn work_element(&self) -> (r: &[u8]) {
        &self.previous
    }

    fn work_value(&self) -> (r: Work) {
        self.work
    }
}

impl RaiWork for ReceiveTransaction {
    open spec fn work_element_bytes(&self) -> Seq<u8> {
        self.previous@
    }

    open spec fn work_nonce(&self) -> Work {
        self.work
    }

    fn work_element(&self) -> (r: &[u8]) {
        &self.previous
    }

    fn work_value(&self) -> (r: Work) {
        self.work
    }
}

impl RaiWork for ChangeTransaction {
    open spec fn work_element_bytes(&self) -> Seq<u8> {
        self.previous@
    }

    open spec fn work_nonce(&self) -> Work {
        self.work
    }

    fn work_element(&self) -> (r: &[u8]) {
        &self.previous
    }

    fn work_value(&self) -> (r: Work) {
        self.work
    }
}

impl RaiWork for Transaction {
    open spec fn work_element_bytes(&self) -> Seq<u8> {
        match self {
            Transaction::Open(o) => o.work_element_bytes(),
            Transaction::Send(s) => s.work_element_bytes(),
            Transaction::Receive(r) => r.work_element_bytes(),
            Transaction::Change(c) => c.work_element_bytes(),
        }
    }

    open spec fn work_nonce(&self) -> Work {
        match self {
            Transaction::Open(o) => o.work,
            Transaction::Send(s) => s.work,
            Transaction::Receive(r) => r.work,
            Transaction::Change(c) => c.work,
        }
    }

    fn work_element(&self) -> (r: &[u8]) {
        match self {
            Transaction::Open(o) => o.work_element(),
            Transaction::Send(s) => s.work_element(),
            Transaction::Receive(r) => r.work_element(),
            Transaction::Change(c) => c.work_element(),
        }
    }

    fn work_value(&self) -> (r: Work) {
        match self {
            Transaction::Open(o) => o.work,
            Transaction::Send(s) => s.work,
            Transaction::Receive(r) => r.work,
            Transaction::Change(c) => c.work,
        }
    }
}

} // verus!

verus! {

/// The outcome of checking a block's `source`: it must be an unspent send to `owner`.
pub open spec fn source_outcome(m: LedgerModel, source: crate::types::Hash, owner: PubKey) -> Result<(), Failure> {
    match m.lookup(source@) {
        None => Err(Failure::Missing),
        Some(Transaction::Send(s)) => {
            if s.destination.0@ != owner.0@ {
                Err(Failure::Invalid)
            } else if !m.unspent.contains(source@) {
                Err(Failure::Received)
            } else {
                Ok(())
            }
        },
        Some(_) => Err(Failure::Invalid),
    }
}

/// The outcome of checking a chained block's signature: the signer is the
/// account that owns `previous`.
pub open spec fn signer_outcome(m: LedgerModel, previous: crate::types::Hash, msg: Seq<u8>, sig: Signature) -> Result<PubKey, Failure> {
    match m.key_of(previous@) {
        None => Err(Failure::Missing),
        Some(k) => if signature_valid(k, msg, sig) {
            Ok(k)
        } else {
            Err(Failure::Signature)
        },
    }
}

impl Transaction {
    /// The block this one extends; an open block extends none.
    pub open spec fn previous_hash(self) -> Option<crate::types::Hash> {
        match self {
            Transaction::Open(_) => None,
            Transaction::Send(s) => Some(s.previous),
            Transaction::Receive(r) => Some(r.previous),
            Transaction::Change(c) => Some(c.previous),
        }
    }

    pub fn previous(&self) -> (r: Option<crate::types::Hash>)
        ensures
            r == self.previous_hash(),
    {
        match self {
            Transaction::Open(_) => None,
            Transaction::Send(s) => Some(s.previous),
            Transaction::Receive(r) => Some(r.previous),
            Transaction::Change(c) => Some(c.previous),
        }
    }

    /// What checking this block against ledger `m` yields: the first failed
    /// check of its variant, in the variant's order, or success.
    pub open spec fn verify_outcome(self, m: LedgerModel) -> Result<(), Failure> {
        match self {
            Transaction::Open(o) => {
                if !signature_valid(o.account, blake2b_of(32, o.hash_bytes()), o.signature) {
                    Err(Failure::Signature)
                } else if !work_valid(o.work, o.account.0@) {
                    Err(Failure::Work)
                } else {
                    source_outcome(m, o.source, o.account)
                }
            },
            Transaction::Send(s) => {
                if !work_valid(s.work, s.previous@) {
                    Err(Failure::Work)
                } else {
                    match signer_outcome(m, s.previous, blake2b_of(32, s.hash_bytes()), s.signature) {
                        Err(e) => Err(e),
                        Ok(_) => match m.balance(s.previous@) {
                            None => Err(Failure::Unreachable),
                            Some(b) => if s.balance.0 > b.0 {
                                Err(Failure::OverSend)
                            } else {
                                Ok(())
                            },
                        },
                    }
                }
            },
            Transaction::Receive(r) => {
                if !work_valid(r.work, r.previous@) {
                    Err(Failure::Work)
                } else {
                    match signer_outcome(m, r.previous, blake2b_of(32, r.hash_bytes()), r.signature) {
                        Err(e) => Err(e),
                        Ok(k) => source_outcome(m, r.source, k),
                    }
                }
            },
            Transaction::Change(c) => {
                match signer_outcome(m, c.previous, blake2b_of(32, c.hash_bytes()), c.signature) {
                    Err(e) => Err(e),
                    Ok(_) => if !work_valid(c.work, c.previous@) {
                        Err(Failure::Work)
                    } else {
                        Ok(())
                    },
                }
            },
        }
    }

    /// Checks this block against the ledger, without changing it.
    pub fn verify<S: BlockStorage>(&self, storage: &S) -> (r: Result<(), Failure>)
        requires
            storage.inv(),
        ensures
            r == self.verify_outcome(storage.ledger()),
    {
        match self {
            Transaction::Open(o) => o.verify(storage),
            Transaction::Send(s) => s.verify(storage),
            Transaction::Receive(r) => r.verify(storage),
            Transaction::Change(c) => c.verify(storage),
        }
    }
}

/// Checks `signature` on the digest `msg` under the key that owns `previous`.
fn verify_chained_sig<S: BlockStorage>(storage: &S, previous: &crate::types::Hash, msg: &crate::types::Hash, signature: &Signature) -> (r: Result<PubKey, Failure>)
    requires
        storage.inv(),
    ensures
        r == signer_outcome(storage.ledger(), *previous, msg@, *signature),
{
    match storage.find_key(previous) {
        None => Err(Failure::Missing),
        Some(key) => if verify_signature(&key, msg, signature) {
            Ok(key)
        } else {
            Err(Failure::Signature)
        },
    }
}

/// Checks that `source` is an unspent send to `owner`.
fn verify_source<S: BlockStorage>(storage: &S, source: &crate::types::Hash, owner: &PubKey) -> (r: Result<(), Failure>)
    requires
        storage.inv(),
    ensures
        r == source_outcome(storage.ledger(), *source, *owner),
{
    match storage.lookup(source) {
        None => Err(Failure::Missing),
        Some(Transaction::Send(s)) => {
            if !s.destination.same(owner) {
                Err(Failure::Invalid)
            } else if storage.is_unspent(source) {
                Ok(())
            } else {
                Err(Failure::Received)
            }
        },
        Some(_) => Err(Failure::Invalid),
    }
}

impl OpenTransaction {
    /// An open block for `key`'s account receiving `source`, signed by `key`,
    /// with its work left at zero. The representative defaults to the account.
    pub fn new_without_work(key: &Keypair, source: crate::types::Hash, rep: Option<PubKey>) -> (r: Self)
        ensures
            r.account == key.public,
            r.source == source,
            r.representative == (match rep { Some(p) => p, None => key.public }),
            r.work.0 == 0,
            r.signature.0@ == crate::crypto::ed25519_signature_of(blake2b_of(64, key.secret@), blake2b_of(32, r.hash_bytes())),
    {
        let representative = match rep {
            Some(p) => p,
            None => key.public,
        };
        let mut o = OpenTransaction {
            account: key.public,
            source,
            representative,
            work: Work::default(),
            signature: Signature::default(),
        };
        let h = o.hash();
        o.signature = key.sign(&h);
        o
    }

    /// Checks signature, work and source, in that order.
    pub fn verify<S: BlockStorage>(&self, storage: &S) -> (r: Result<(), Failure>)
        requires
            storage.inv(),
        ensures
            r == Transaction::Open(*self).verify_outcome(storage.ledger()),
    {
        match self.verify_sig() {
            Err(e) => return Err(e),
            Ok(()) => {},
        }
        match self.verify_work() {
            Err(e) => return Err(e),
            Ok(()) => {},
        }
        self.verify_parent(storage)
    }

    /// Checks that the source is an unspent send to this account.
    pub(crate) fn verify_parent<S: BlockStorage>(&self, storage: &S) -> (r: Result<(), Failure>)
        requires
            storage.inv(),
        ensures
            r == source_outcome(storage.ledger(), self.source, self.account),
    {
        verify_source(storage, &self.source, &self.account)
    }

    /// Checks the signature against the block's own account.
    pub(crate) fn verify_sig(&self) -> (r: Result<(), Failure>)
        ensures
            r is Ok <==> signature_valid(self.account, blake2b_of(32, self.hash_bytes()), self.signature),
            r is Err ==> r == Err::<(), Failure>(Failure::Signature),
    {
        let h = self.hash();
        if verify_signature(&self.account, &h, &self.signature) {
            Ok(())
        } else {
            Err(Failure::Signature)
        }
    }
}

impl SendTransaction {
    /// A send block extending `previous`, signed by `key`, with its work left at zero.
    pub fn new_without_work(key: &Keypair, previous: crate::types::Hash, balance: Balance, destination: PubKey) -> (r: Self)
        ensures
            r.previous == previous,
            r.balance == balance,
            r.destination == destination,
            r.work.0 == 0,
            r.signature.0@ == crate::crypto::ed25519_signature_of(blake2b_of(64, key.secret@), blake2b_of(32, r.hash_bytes())),
    {
        let mut o = SendTransaction {
            previous,
            balance,
            destination,
            work: Work::default(),
            signature: Signature::default(),
        };
        let h = o.hash();
        o.signature = key.sign(&h);
        o
    }

    /// Checks work, signature and balance, in that order.
    pub fn verify<S: BlockStorage>(&self, storage: &S) -> (r: Result<(), Failure>)
        requires
            storage.inv(),
        ensures
            r == Transaction::Send(*self).verify_outcome(storage.ledger()),
    {
        match self.verify_work() {
            Err(e) => return Err(e),
            Ok(()) => {},
        }
        match self.verify_sig(storage) {
            Err(e) => return Err(e),
            Ok(_) => {},
        }
        self.verify_balance(storage)
    }

    /// Checks the signature against the owner of `previous`, and returns that owner.
    pub(crate) fn verify_sig<S: BlockStorage>(&self, storage: &S) -> (r: Result<PubKey, Failure>)
        requires
            storage.inv(),
        ensures
            r == signer_outcome(storage.ledger(), self.previous, blake2b_of(32, self.hash_bytes()), self.signature),
    {
        let h = self.hash();
        verify_chained_sig(storage, &self.previous, &h, &self.signature)
    }

    /// Checks that the send leaves no more than the account held.
    pub fn verify_balance<S: BlockStorage>(&self, storage: &S) -> (r: Result<(), Failure>)
        requires
            storage.inv(),
        ensures
            r == (match storage.ledger().balance(self.previous@) {
                None => Err(Failure::Unreachable),
                Some(b) => if self.balance.0 > b.0 {
                    Err(Failure::OverSend)
                } else {
                    Ok(())
                },
            }),
    {
        match storage.find_balance(&self.previous) {
            None => Err(Failure::Unreachable),
            Some(bal) => if self.balance.0 > bal.0 {
                Err(Failure::OverSend)
            } else {
                Ok(())
            },
        }
    }
}

impl ReceiveTransaction {
    /// A receive block extending `previous` and claiming `source`, signed by
    /// `key`, with its work left at zero.
    pub fn new_without_work(key: &Keypair, previous: crate::types::Hash, source: crate::types::Hash) -> (r: Self)
        ensures
            r.previous == previous,
            r.source == source,
            r.work.0 == 0,
            r.signature.0@ == crate::crypto::ed25519_signature_of(blake2b_of(64, key.secret@), blake2b_of(32, r.hash_bytes())),
    {
        let mut o = ReceiveTransaction { previous, source, work: Work::default(), signature: Signature::default() };
        let h = o.hash();
        o.signature = key.sign(&h);
        o
    }

    /// Checks work, signature and source, in that order.
    pub fn verify<S: BlockStorage>(&self, storage: &S) -> (r: Result<(), Failure>)
        requires
            storage.inv(),
        ensures
            r == Transaction::Receive(*self).verify_outcome(storage.ledger()),
    {
        match self.verify_work() {
            Err(e) => return Err(e),
            Ok(()) => {},
        }
        let pubkey = match self.verify_sig(storage) {
            Err(e) => return Err(e),
            Ok(k) => k,
        };
        self.verify_parent(storage, pubkey)
    }

    /// Checks that the source is an unspent send to `pubkey`.
    pub fn verify_parent<S: BlockStorage>(&self, storage: &S, pubkey: PubKey) -> (r: Result<(), Failure>)
        requires
            storage.inv(),
        ensures
            r == source_outcome(storage.ledger(), self.source, pubkey),
    {
        verify_source(storage, &self.source, &pubkey)
    }

    /// Checks the signature against the owner of `previous`, and returns that owner.
    pub(crate) fn verify_sig<S: BlockStorage>(&self, storage: &S) -> (r: Result<PubKey, Failure>)
        requires
            storage.inv(),
        ensures
            r == signer_outcome(storage.ledger(), self.previous, blake2b_of(32, self.hash_bytes()), self.signature),
    {
        let h = self.hash();
        verify_chained_sig(storage, &self.previous, &h, &self.signature)
    }
}

impl ChangeTransaction {
    /// A change block extending `previous`, signed by `key`, with its work left at zero.
    pub fn new_without_work(key: &Keypair, previous: crate::types::Hash, rep: PubKey) -> (r: Self)
        ensures
            r.previous == previous,
            r.representative == rep,
            r.work.0 == 0,
            r.signature.0@ == crate::crypto::ed25519_signature_of(blake2b_of(64, key.secret@), blake2b_of(32, r.hash_bytes())),
    {
        let mut o = ChangeTransaction { previous, representative: rep, work: Work::default(), signature: Signature::default() };
        let h = o.hash();
        o.signature = key.sign(&h);
        o
    }

    /// Checks signature and work, in that order.
    pub fn verify<S: BlockStorage>(&self, storage: &S) -> (r: Result<(), Failure>)
        requires
            storage.inv(),
        ensures
            r == Transaction::Change(*self).verify_outcome(storage.ledger()),
    {
        match self.verify_sig(storage) {
            Err(e) => return Err(e),
            Ok(_) => {},
        }
        self.verify_work()
    }

    /// Checks the signature against the owner of `previous`, and returns that owner.
    pub(crate) fn verify_sig<S: BlockStorage>(&self, storage: &S) -> (r: Result<PubKey, Failure>)
        requires
            storage.inv(),
        ensures
            r == signer_outcome(storage.ledger(), self.previous, blake2b_of(32, self.hash_bytes()), self.signature),
    {
        let h = self.hash();
        verify_chained_sig(storage, &self.previous, &h, &self.signature)
    }
}

impl From<OpenTransaction> for Transaction {
    fn from(o: OpenTransaction) -> (r: Transaction) {
        Transaction::Open(o)
    }
}

impl vstd::std_specs::convert::FromSpecImpl<OpenTransaction> for Transaction {
    open spec fn obeys_from_spec() -> bool {
        true
    }

    open spec fn from_spec(o: OpenTransaction) -> Transaction {
        Transaction::Open(o)
    }
}

impl From<SendTransaction> for Transaction {
    fn from(s: SendTransaction) -> (r: Transaction) {
        Transaction::Send(s)
    }
}

impl vstd::std_specs::convert::FromSpecImpl<SendTransaction> for Transaction {
    open spec fn obeys_from_spec() -> bool {
        true
    }

    open spec fn from_spec(s: SendTransaction) -> Transaction {
        Transaction::Send(s)
    }
}

impl From<ReceiveTransaction> for Transaction {
    fn from(r: ReceiveTransaction) -> (t: Transaction) {
        Transaction::Receive(r)
    }
}

impl vstd::std_specs::convert::FromSpecImpl<ReceiveTransaction> for Transaction {
    open spec fn obeys_from_spec() -> bool {
        true
    }

    open spec fn from_spec(r: ReceiveTransaction) -> Transaction {
        Transaction::Receive(r)
    }
}

impl From<ChangeTransaction> for Transaction {
    fn from(c: ChangeTransaction) -> (r: Transaction) {
        Transaction::Change(c)
    }
}

impl vstd::std_specs::convert::FromSpecImpl<ChangeTransaction> for Transaction {
    open spec fn obeys_from_spec() -> bool {
        true
    }

    open spec fn from_spec(c: ChangeTransaction) -> Transaction {
        Transaction::Change(c)
    }
}

} // verus!

verus! {

impl Transaction {
    /// The same block carrying another nonce and signature.
    pub open spec fn resealed(self, work: Work, signature: Signature) -> Transaction {
        match self {
            Transaction::Open(o) => Transaction::Open(OpenTransaction { work, signature, ..o }),
            Transaction::Send(s) => Transaction::Send(SendTransaction { work, signature, ..s }),
            Transaction::Receive(r) => Transaction::Receive(ReceiveTransaction { work, signature, ..r }),
            Transaction::Change(c) => Transaction::Change(ChangeTransaction { work, signature, ..c }),
        }
    }
}

/// A block's digest covers neither its work nor its signature: replacing
/// both leaves the digest as it was.
pub proof fn lemma_hash_ignores_work_and_signature(t: Transaction, work: Work, signature: Signature)
    ensures
        block_hash(t.resealed(work, signature)) == block_hash(t),
{
}

} // verus!
