//! The ledger: every block indexed by its digest with the balance its account
//! held after it, the head of each account's chain, and the sends not yet
//! received. Blocks enter only through [`BlockStorage::insert`].
use vstd::prelude::*;
use crate::errors::Failure;
use crate::transaction::{block_hash, OpenTransaction, RaiHash, Transaction};
use crate::types::{same_hash, Balance, PubKey};

verus! {

/// The ledger as a mathematical value; digests and keys by their bytes.
pub struct LedgerModel {
    /// Each block by its digest, with the balance of its account after it.
    pub txs: Map<Seq<u8>, (Transaction, Balance)>,
    /// The digest of the last block of each account.
    pub heads: Map<Seq<u8>, Seq<u8>>,
    /// The digests of the sends not yet received.
    pub unspent: Set<Seq<u8>>,
}

impl LedgerModel {
    pub open spec fn lookup(self, h: Seq<u8>) -> Option<Transaction> {
        if self.txs.contains_key(h) {
            Some(self.txs[h].0)
        } else {
            None
        }
    }

    pub open spec fn balance(self, h: Seq<u8>) -> Option<Balance> {
        if self.txs.contains_key(h) {
            Some(self.txs[h].1)
        } else {
            None
        }
    }

    /// The open block reached from `h` by following at most `fuel` links to
    /// previous blocks.
    pub open spec fn open_within(self, h: Seq<u8>, fuel: nat) -> Option<OpenTransaction>
        decreases fuel,
    {
        match self.lookup(h) {
            None => None,
            Some(Transaction::Open(o)) => Some(o),
            Some(t) => if fuel == 0 {
                None
            } else {
                self.open_within(t.previous_hash().unwrap()@, (fuel - 1) as nat)
            },
        }
    }

    /// The open block at the root of the chain that holds `h`. A walk that
    /// takes more steps than there are blocks has met a cycle and finds none.
    pub open spec fn open_of(self, h: Seq<u8>) -> Option<OpenTransaction> {
        self.open_within(h, self.txs.dom().len())
    }

    /// The account that owns the chain holding `h`.
    pub open spec fn key_of(self, h: Seq<u8>) -> Option<PubKey> {
        match self.open_of(h) {
            Some(o) => Some(o.account),
            None => None,
        }
    }

    /// Whether `parent` is the current head of `key`'s account; `None` means
    /// the account has no block yet.
    pub open spec fn head_is(self, key: PubKey, parent: Option<crate::types::Hash>) -> bool {
        match parent {
            None => !self.heads.contains_key(key.0@),
            Some(p) => self.heads.contains_key(key.0@) && self.heads[key.0@] == p@,
        }
    }

    /// The amount moved by the send `source`: the balance before it less the
    /// balance after it.
    pub open spec fn sent_amount(self, source: Seq<u8>) -> Result<Balance, Failure> {
        match self.balance(source) {
            None => Err(Failure::Unreachable),
            Some(after) => match self.lookup(source) {
                Some(Transaction::Send(s)) => match self.balance(s.previous@) {
                    None => Err(Failure::Unreachable),
                    Some(before) => if after.0 <= before.0 {
                        Ok(Balance((before.0 - after.0) as u128))
                    } else {
                        Err(Failure::Unreachable)
                    },
                },
                _ => Err(Failure::Invalid),
            },
        }
    }

    /// For a block that passed its checks: the balance of its account after
    /// it, the account that owns it, and the head that account must have.
    pub open spec fn settle(self, tx: Transaction) -> Result<(Balance, PubKey, Option<crate::types::Hash>), Failure> {
        match tx {
            Transaction::Open(o) => match self.sent_amount(o.source@) {
                Err(e) => Err(e),
                Ok(amount) => Ok((amount, o.account, None)),
            },
            Transaction::Receive(r) => match self.sent_amount(r.source@) {
                Err(e) => Err(e),
                Ok(amount) => match self.balance(r.previous@) {
                    None => Err(Failure::Unreachable),
                    Some(b) => if b.0 + amount.0 > u128::MAX {
                        Err(Failure::Unreachable)
                    } else {
                        match self.key_of(r.previous@) {
                            None => Err(Failure::Unreachable),
                            Some(k) => Ok((Balance((b.0 + amount.0) as u128), k, Some(r.previous))),
                        }
                    },
                },
            },
            Transaction::Send(s) => match self.key_of(s.previous@) {
                None => Err(Failure::Unreachable),
                Some(k) => Ok((s.balance, k, Some(s.previous))),
            },
            Transaction::Change(c) => match self.balance(c.previous@) {
                None => Err(Failure::Unreachable),
                Some(b) => match self.key_of(c.previous@) {
                    None => Err(Failure::Unreachable),
                    Some(k) => Ok((b, k, Some(c.previous))),
                },
            },
        }
    }

    /// Whether inserting `tx` succeeds, and if so the balance and owner it
    /// is recorded with: its checks pass, it extends its account's head, and
    /// its digest is new.
    pub open spec fn acceptance(self, tx: Transaction) -> Result<(Balance, PubKey), Failure> {
        match tx.verify_outcome(self) {
            Err(e) => Err(e),
            Ok(_) => match self.settle(tx) {
                Err(e) => Err(e),
                Ok((bal, key, parent)) => if !self.head_is(key, parent) {
                    Err(Failure::Fork)
                } else if self.txs.contains_key(block_hash(tx)) {
                    Err(Failure::Duplicate)
                } else {
                    Ok((bal, key))
                },
            },
        }
    }

    /// The ledger after `tx` is recorded with balance `bal` in `key`'s account.
    pub open spec fn commit(self, tx: Transaction, bal: Balance, key: PubKey) -> LedgerModel {
        let h = block_hash(tx);
        LedgerModel {
            txs: self.txs.insert(h, (tx, bal)),
            heads: self.heads.insert(key.0@, h),
            unspent: match tx {
                Transaction::Send(_) => self.unspent.insert(h),
                Transaction::Open(o) => self.unspent.remove(o.source@),
                Transaction::Receive(r) => self.unspent.remove(r.source@),
                Transaction::Change(_) => self.unspent,
            },
        }
    }

    /// The ledger that holds only a genesis open block with its balance.
    pub open spec fn genesis(block: OpenTransaction, bal: Balance) -> LedgerModel {
        let h = block_hash(Transaction::Open(block));
        LedgerModel {
            txs: Map::empty().insert(h, (Transaction::Open(block), bal)),
            heads: Map::empty().insert(block.account.0@, h),
            unspent: Set::empty(),
        }
    }
}

/// A store of blocks that can be queried and extended.
pub trait BlockStorage {
    /// The ledger the store holds.
    spec fn ledger(&self) -> LedgerModel;

    /// The store's internal invariant.
    spec fn inv(&self) -> bool;

    /// The block with digest `hash`.
    fn lookup(&self, hash: &crate::types::Hash) -> (r: Option<Transaction>)
        requires
            self.inv(),
        ensures
            r == self.ledger().lookup(hash@),
    ;

    /// The last block of `pubkey`'s account; `None` where it has none.
    fn find_head(&self, pubkey: &PubKey) -> (r: Option<crate::types::Hash>)
        requires
            self.inv(),
        ensures
            r is Some <==> self.ledger().heads.contains_key(pubkey.0@),
            r matches Some(h) ==> h@ == self.ledger().heads[pubkey.0@],
    ;

    /// The open block at the root of the chain that holds `hash`.
    fn find_open(&self, hash: &crate::types::Hash) -> (r: Option<OpenTransaction>)
        requires
            self.inv(),
        ensures
            r == self.ledger().open_of(hash@),
    ;

    /// The account that signed the block `hash`.
    fn find_key(&self, hash: &crate::types::Hash) -> (r: Option<PubKey>)
        requires
            self.inv(),
        ensures
            r == self.ledger().key_of(hash@),
    {
        match self.find_open(hash) {
            Some(o) => Some(o.account),
            None => None,
        }
    }

    /// The balance of the account right after the block `hash`.
    fn find_balance(&self, hash: &crate::types::Hash) -> (r: Option<Balance>)
        requires
            self.inv(),
        ensures
            r == self.ledger().balance(hash@),
    ;

    /// Whether `hash` is a send not yet received.
    fn is_unspent(&self, hash: &crate::types::Hash) -> (r: bool)
        requires
            self.inv(),
        ensures
            r == self.ledger().unspent.contains(hash@),
    ;

}

/// The map that a list of key and value pairs describes; later pairs win.
pub open spec fn pairs_map<V>(s: Seq<(Seq<u8>, V)>) -> Map<Seq<u8>, V>
    decreases s.len(),
{
    if s.len() == 0 {
        Map::empty()
    } else {
        pairs_map(s.drop_last()).insert(s.last().0, s.last().1)
    }
}

/// The set of the digests in a list.
pub open spec fn hash_set(s: Seq<crate::types::Hash>) -> Set<Seq<u8>> {
    Set::new(|x: Seq<u8>| exists|i: int| 0 <= i < s.len() && s[i]@ == x)
}

proof fn lemma_pairs_last<V>(s: Seq<(Seq<u8>, V)>, k: Seq<u8>, i: int)
    requires
        0 <= i < s.len(),
        s[i].0 == k,
        forall|j: int| i < j < s.len() ==> s[j].0 != k,
    ensures
        pairs_map(s).contains_key(k),
        pairs_map(s)[k] == s[i].1,
    decreases s.len(),
{
    if i < s.len() - 1 {
        lemma_pairs_last(s.drop_last(), k, i);
    }
}

proof fn lemma_pairs_absent<V>(s: Seq<(Seq<u8>, V)>, k: Seq<u8>)
    requires
        forall|j: int| 0 <= j < s.len() ==> s[j].0 != k,
    ensures
        !pairs_map(s).contains_key(k),
    decreases s.len(),
{
    if s.len() > 0 {
        lemma_pairs_absent(s.drop_last(), k);
    }
}

proof fn lemma_pairs_len<V>(s: Seq<(Seq<u8>, V)>)
    requires
        forall|i: int, j: int| 0 <= i < j < s.len() ==> s[i].0 != s[j].0,
    ensures
        pairs_map(s).dom().finite(),
        pairs_map(s).dom().len() == s.len(),
    decreases s.len(),
{
    if s.len() > 0 {
        let t = s.drop_last();
        lemma_pairs_len(t);
        lemma_pairs_absent(t, s.last().0);
    }
}

proof fn lemma_pairs_push<V>(s: Seq<(Seq<u8>, V)>, p: (Seq<u8>, V))
    ensures
        pairs_map(s.push(p)) == pairs_map(s).insert(p.0, p.1),
{
    assert(s.push(p).drop_last() =~= s);
}

struct Entry {
    hash: crate::types::Hash,
    block: Transaction,
    balance: Balance,
}

struct HeadEntry {
    account: PubKey,
    hash: crate::types::Hash,
}

/// An in-memory ledger. Blocks and heads are kept in insertion order; a
/// later head of an account replaces the earlier ones.
pub struct Storage {
    entries: Vec<Entry>,
    heads: Vec<HeadEntry>,
    unspent: Vec<crate::types::Hash>,
}

impl Storage {
    spec fn entry_pairs(self) -> Seq<(Seq<u8>, (Transaction, Balance))> {
        self.entries@.map_values(|e: Entry| (e.hash@, (e.block, e.balance)))
    }

    spec fn head_pairs(self) -> Seq<(Seq<u8>, Seq<u8>)> {
        self.heads@.map_values(|h: HeadEntry| (h.account.0@, h.hash@))
    }

    /// A ledger seeded with a genesis open block and the balance it holds.
    /// The genesis block is not checked: it has no predecessor.
    pub fn new(genesis: OpenTransaction, balance: Balance) -> (r: Storage)
        ensures
            r.inv(),
            r.ledger() == LedgerModel::genesis(genesis, balance),
    {
        let hash = genesis.hash();
        let mut entries: Vec<Entry> = Vec::new();
        entries.push(Entry { hash, block: Transaction::Open(genesis), balance });
        let mut heads: Vec<HeadEntry> = Vec::new();
        heads.push(HeadEntry { account: genesis.account, hash });
        let s = Storage { entries, heads, unspent: Vec::new() };
        proof {
            assert(s.entry_pairs() =~= Seq::<(Seq<u8>, (Transaction, Balance))>::empty().push((hash@, (Transaction::Open(genesis), balance))));
            lemma_pairs_push(Seq::<(Seq<u8>, (Transaction, Balance))>::empty(), (hash@, (Transaction::Open(genesis), balance)));
            assert(s.head_pairs() =~= Seq::<(Seq<u8>, Seq<u8>)>::empty().push((genesis.account.0@, hash@)));
            lemma_pairs_push(Seq::<(Seq<u8>, Seq<u8>)>::empty(), (genesis.account.0@, hash@));
            assert(pairs_map(Seq::<(Seq<u8>, (Transaction, Balance))>::empty()) == Map::<Seq<u8>, (Transaction, Balance)>::empty());
            assert(pairs_map(Seq::<(Seq<u8>, Seq<u8>)>::empty()) == Map::<Seq<u8>, Seq<u8>>::empty());
            assert(hash_set(s.unspent@) =~= Set::empty());
        }
        s
    }

    /// The position of the last entry with digest `hash`.
    fn entry_index(&self, hash: &crate::types::Hash) -> (r: Option<usize>)
        ensures
            match r {
                Some(i) => i < self.entries@.len() && self.entries@[i as int].hash@ == hash@
                    && forall|j: int| i < j < self.entries@.len() ==> self.entries@[j].hash@ != hash@,
                None => forall|j: int| 0 <= j < self.entries@.len() ==> self.entries@[j].hash@ != hash@,
            },
    {
        let mut i: usize = self.entries.len();
        while i > 0
            invariant
                i <= self.entries@.len(),
                forall|j: int| i <= j < self.entries@.len() ==> self.entries@[j].hash@ != hash@,
            decreases i,
        {
            i = i - 1;
            if same_hash(&self.entries[i].hash, hash) {
                return Some(i);
            }
        }
        None
    }

    proof fn lemma_entry_found(self, hash: Seq<u8>, i: int)
        requires
            0 <= i < self.entries@.len(),
            self.entries@[i].hash@ == hash,
            forall|j: int| i < j < self.entries@.len() ==> self.entries@[j].hash@ != hash,
        ensures
            self.ledger().txs.contains_key(hash),
            self.ledger().txs[hash] == (self.entries@[i].block, self.entries@[i].balance),
    {
        lemma_pairs_last(self.entry_pairs(), hash, i);
    }

    proof fn lemma_entry_absent(self, hash: Seq<u8>)
        requires
            forall|j: int| 0 <= j < self.entries@.len() ==> self.entries@[j].hash@ != hash,
        ensures
            !self.ledger().txs.contains_key(hash),
    {
        lemma_pairs_absent(self.entry_pairs(), hash);
    }

    /// The account's head, searched from the latest record back.
    fn head_index(&self, account: &PubKey) -> (r: Option<usize>)
        ensures
            match r {
                Some(i) => i < self.heads@.len() && self.heads@[i as int].account.0@ == account.0@
                    && forall|j: int| i < j < self.heads@.len() ==> self.heads@[j].account.0@ != account.0@,
                None => forall|j: int| 0 <= j < self.heads@.len() ==> self.heads@[j].account.0@ != account.0@,
            },
    {
        let mut i: usize = self.heads.len();
        while i > 0
            invariant
                i <= self.heads@.len(),
                forall|j: int| i <= j < self.heads@.len() ==> self.heads@[j].account.0@ != account.0@,
            decreases i,
        {
            i = i - 1;
            if self.heads[i].account.same(account) {
                return Some(i);
            }
        }
        None
    }

    /// Removes every copy of `hash` from the unspent list.
    fn remove_unspent(&mut self, hash: &crate::types::Hash)
        ensures
            final(self).entries == old(self).entries,
            final(self).heads == old(self).heads,
            hash_set(final(self).unspent@) == hash_set(old(self).unspent@).remove(hash@),
    {
        let mut kept: Vec<crate::types::Hash> = Vec::new();
        let mut i: usize = 0;
        while i < self.unspent.len()
            invariant
                i <= self.unspent@.len(),
                forall|k: int| 0 <= k < kept@.len() ==> kept@[k]@ != hash@
                    && exists|j: int| 0 <= j < i && self.unspent@[j]@ == #[trigger] kept@[k]@,
                forall|j: int| 0 <= j < i && (#[trigger] self.unspent@[j])@ != hash@
                    ==> exists|k: int| 0 <= k < kept@.len() && kept@[k]@ == self.unspent@[j]@,
            decreases self.unspent@.len() - i,
        {
            let ghost old_kept = kept@;
            let u = self.unspent[i];
            if !same_hash(&u, hash) {
                kept.push(u);
            }
            proof {
                assert forall|j: int| 0 <= j < i + 1 && (#[trigger] self.unspent@[j])@ != hash@
                    implies exists|k: int| 0 <= k < kept@.len() && kept@[k]@ == self.unspent@[j]@ by {
                    if j < i {
                        let k = choose|k: int| 0 <= k < old_kept.len() && old_kept[k]@ == self.unspent@[j]@;
                        assert(kept@[k] == old_kept[k]);
                    } else {
                        assert(kept@[kept@.len() - 1]@ == self.unspent@[j]@);
                    }
                }
                assert forall|k: int| 0 <= k < kept@.len() implies kept@[k]@ != hash@
                    && exists|j: int| 0 <= j < i + 1 && self.unspent@[j]@ == #[trigger] kept@[k]@ by {
                    if k < old_kept.len() {
                        assert(kept@[k] == old_kept[k]);
                    } else {
                        assert(self.unspent@[i as int]@ == kept@[k]@);
                    }
                }
            }
            i = i + 1;
        }
        let ghost before = self.unspent@;
        self.unspent = kept;
        assert(hash_set(self.unspent@) =~= hash_set(before).remove(hash@)) by {
            assert forall|x: Seq<u8>| hash_set(self.unspent@).contains(x) implies hash_set(before).remove(hash@).contains(x) by {
                let k = choose|k: int| 0 <= k < self.unspent@.len() && self.unspent@[k]@ == x;
            }
            assert forall|x: Seq<u8>| hash_set(before).remove(hash@).contains(x) implies hash_set(self.unspent@).contains(x) by {
                let j = choose|j: int| 0 <= j < before.len() && before[j]@ == x;
                assert(before[j]@ != hash@);
            }
        }
    }

    /// The balance, owner and required head of a block that passed its checks.
    fn settle(&self, tx: &Transaction) -> (r: Result<(Balance, PubKey, Option<crate::types::Hash>), Failure>)
        requires
            self.inv(),
        ensures
            r == self.ledger().settle(*tx),
    {
        match tx {
            Transaction::Open(o) => match self.sent_amount(&o.source) {
                Err(e) => Err(e),
                Ok(amount) => Ok((amount, o.account, None)),
            },
            Transaction::Receive(r) => match self.sent_amount(&r.source) {
                Err(e) => Err(e),
                Ok(amount) => match self.find_balance(&r.previous) {
                    None => Err(Failure::Unreachable),
                    Some(b) => match b.checked_add(amount) {
                        None => Err(Failure::Unreachable),
                        Some(bal) => match self.find_key(&r.previous) {
                            None => Err(Failure::Unreachable),
                            Some(k) => Ok((bal, k, Some(r.previous))),
                        },
                    },
                },
            },
            Transaction::Send(s) => match self.find_key(&s.previous) {
                None => Err(Failure::Unreachable),
                Some(k) => Ok((s.balance, k, Some(s.previous))),
            },
            Transaction::Change(c) => match self.find_balance(&c.previous) {
                None => Err(Failure::Unreachable),
                Some(b) => match self.find_key(&c.previous) {
                    None => Err(Failure::Unreachable),
                    Some(k) => Ok((b, k, Some(c.previous))),
                },
            },
        }
    }

    /// The amount moved by the send `source`.
    fn sent_amount(&self, source: &crate::types::Hash) -> (r: Result<Balance, Failure>)
        requires
            self.inv(),
        ensures
            r == self.ledger().sent_amount(source@),
    {
        let after = match self.find_balance(source) {
            None => return Err(Failure::Unreachable),
            Some(b) => b,
        };
        let prev = match self.lookup(source) {
            Some(Transaction::Send(s)) => s.previous,
            _ => return Err(Failure::Invalid),
        };
        match self.find_balance(&prev) {
            None => Err(Failure::Unreachable),
            Some(before) => match before.checked_sub(after) {
                None => Err(Failure::Unreachable),
                Some(amount) => Ok(amount),
            },
        }
    }
}

fn head_matches(head: Option<crate::types::Hash>, parent: Option<crate::types::Hash>) -> (r: bool)
    ensures
        r == (match (head, parent) {
            (None, None) => true,
            (Some(h), Some(p)) => h@ == p@,
            _ => false,
        }),
{
    match (head, parent) {
        (None, None) => true,
        (Some(h), Some(p)) => same_hash(&h, &p),
        _ => false,
    }
}

impl BlockStorage for Storage {
    closed spec fn ledger(&self) -> LedgerModel {
        LedgerModel {
            txs: pairs_map(self.entry_pairs()),
            heads: pairs_map(self.head_pairs()),
            unspent: hash_set(self.unspent@),
        }
    }

    closed spec fn inv(&self) -> bool {
        forall|i: int, j: int| 0 <= i < j < self.entries@.len() ==> self.entries@[i].hash@ != self.entries@[j].hash@
    }

    fn lookup(&self, hash: &crate::types::Hash) -> (r: Option<Transaction>) {
        match self.entry_index(hash) {
            Some(i) => {
                proof { self.lemma_entry_found(hash@, i as int); }
                Some(self.entries[i].block)
            },
            None => {
                proof { self.lemma_entry_absent(hash@); }
                None
            },
        }
    }

    fn find_head(&self, pubkey: &PubKey) -> (r: Option<crate::types::Hash>) {
        match self.head_index(pubkey) {
            Some(i) => {
                proof { lemma_pairs_last(self.head_pairs(), pubkey.0@, i as int); }
                Some(self.heads[i].hash)
            },
            None => {
                proof { lemma_pairs_absent(self.head_pairs(), pubkey.0@); }
                None
            },
        }
    }

    fn find_open(&self, hash: &crate::types::Hash) -> (r: Option<OpenTransaction>) {
        proof { lemma_pairs_len(self.entry_pairs()); }
        let mut cur: crate::types::Hash = *hash;
        let mut fuel: usize = self.entries.len();
        loop
            invariant
                self.inv(),
                self.ledger().open_within(cur@, fuel as nat) == self.ledger().open_of(hash@),
            decreases fuel,
        {
            match self.lookup(&cur) {
                None => return None,
                Some(Transaction::Open(o)) => return Some(o),
                Some(t) => {
                    if fuel == 0 {
                        return None;
                    }
                    cur = match t.previous() {
                        Some(p) => p,
                        None => return None,
                    };
                    fuel = fuel - 1;
                },
            }
        }
    }

    fn find_balance(&self, hash: &crate::types::Hash) -> (r: Option<Balance>) {
        match self.entry_index(hash) {
            Some(i) => {
                proof { self.lemma_entry_found(hash@, i as int); }
                Some(self.entries[i].balance)
            },
            None => {
                proof { self.lemma_entry_absent(hash@); }
                None
            },
        }
    }

    fn is_unspent(&self, hash: &crate::types::Hash) -> (r: bool) {
        let mut i: usize = 0;
        while i < self.unspent.len()
            invariant
                i <= self.unspent@.len(),
                forall|j: int| 0 <= j < i ==> self.unspent@[j]@ != hash@,
            decreases self.unspent@.len() - i,
        {
            if same_hash(&self.unspent[i], hash) {
                return true;
            }
            i = i + 1;
        }
        false
    }
}

impl Storage {
    /// Checks `tx` and records it; on failure nothing changes.
    pub fn insert(&mut self, tx: Transaction) -> (r: Result<(), Failure>)
        requires
            old(self).inv(),
        ensures
            final(self).inv(),
            match old(self).ledger().acceptance(tx) {
                Ok((bal, key)) => r is Ok && final(self).ledger() == old(self).ledger().commit(tx, bal, key),
                Err(e) => r == Err::<(), Failure>(e) && final(self).ledger() == old(self).ledger(),
            },
    {
        match tx.verify(&*self) {
            Err(e) => return Err(e),
            Ok(()) => {},
        }
        let (bal, key, parent) = match self.settle(&tx) {
            Err(e) => return Err(e),
            Ok(v) => v,
        };
        if !head_matches(self.find_head(&key), parent) {
            return Err(Failure::Fork);
        }
        let hash = tx.hash();
        match self.entry_index(&hash) {
            Some(i) => {
                proof { self.lemma_entry_found(hash@, i as int); }
                return Err(Failure::Duplicate);
            },
            None => {
                proof { self.lemma_entry_absent(hash@); }
            },
        }
        let ghost old_entries = self.entry_pairs();
        let ghost old_heads = self.head_pairs();
        let ghost old_unspent = self.unspent@;
        self.entries.push(Entry { hash, block: tx, balance: bal });
        self.heads.push(HeadEntry { account: key, hash });
        proof {
            assert(self.entry_pairs() =~= old_entries.push((hash@, (tx, bal))));
            lemma_pairs_push(old_entries, (hash@, (tx, bal)));
            assert(self.head_pairs() =~= old_heads.push((key.0@, hash@)));
            lemma_pairs_push(old_heads, (key.0@, hash@));
        }
        match tx {
            Transaction::Send(_) => {
                self.unspent.push(hash);
                proof {
                    assert(hash_set(self.unspent@) =~= hash_set(old_unspent).insert(hash@)) by {
                        assert(self.unspent@[self.unspent@.len() - 1]@ == hash@);
                        assert forall|x: Seq<u8>| hash_set(old_unspent).contains(x) implies hash_set(self.unspent@).contains(x) by {
                            let j = choose|j: int| 0 <= j < old_unspent.len() && old_unspent[j]@ == x;
                            assert(self.unspent@[j] == old_unspent[j]);
                        }
                    }
                }
            },
            Transaction::Open(o) => self.remove_unspent(&o.source),
            Transaction::Receive(r) => self.remove_unspent(&r.source),
            Transaction::Change(_) => {},
        }
        Ok(())
    }
}

} // verus!

verus! {

/// An open block is received once: after it has been inserted, inserting it
/// again fails with `Received`.
pub proof fn lemma_open_received_once(m: LedgerModel, o: OpenTransaction)
    requires
        m.acceptance(Transaction::Open(o)) is Ok,
    ensures
        ({
            let (bal, key) = m.acceptance(Transaction::Open(o))->Ok_0;
            m.commit(Transaction::Open(o), bal, key).acceptance(Transaction::Open(o)) == Err::<(Balance, PubKey), Failure>(Failure::Received)
        }),
{
    let t = Transaction::Open(o);
    let (bal, key) = m.acceptance(t)->Ok_0;
    let m2 = m.commit(t, bal, key);
    assert(m.txs.contains_key(o.source@));
    assert(block_hash(t) != o.source@);
    assert(m2.lookup(o.source@) == m.lookup(o.source@));
    assert(!m2.unspent.contains(o.source@));
}

/// A block that passes its checks but does not extend its account's head
/// is refused with `Fork`.
pub proof fn lemma_fork_refused(m: LedgerModel, tx: Transaction)
    requires
        tx.verify_outcome(m) is Ok,
        m.settle(tx) is Ok,
        !m.head_is(m.settle(tx)->Ok_0.1, m.settle(tx)->Ok_0.2),
    ensures
        m.acceptance(tx) == Err::<(Balance, PubKey), Failure>(Failure::Fork),
{
}

/// A well-signed send with valid work that declares more than its account
/// holds is refused with `OverSend`.
pub proof fn lemma_over_send_refused(m: LedgerModel, s: crate::transaction::SendTransaction)
    requires
        crate::transaction::work_valid(s.work, s.previous@),
        crate::transaction::signer_outcome(m, s.previous, crate::crypto::blake2b_of(32, s.hash_bytes()), s.signature) is Ok,
        m.balance(s.previous@) matches Some(b) && s.balance.0 > b.0,
    ensures
        m.acceptance(Transaction::Send(s)) == Err::<(Balance, PubKey), Failure>(Failure::OverSend),
{
}

/// An inserted block can be looked up by its digest, and the block found
/// has that digest.
pub proof fn lemma_inserted_block_found(m: LedgerModel, tx: Transaction)
    requires
        m.acceptance(tx) is Ok,
    ensures
        ({
            let (bal, key) = m.acceptance(tx)->Ok_0;
            let m2 = m.commit(tx, bal, key);
            m2.lookup(block_hash(tx)) == Some(tx) && block_hash(m2.lookup(block_hash(tx))->Some_0) == block_hash(tx)
                && m2.heads[key.0@] == block_hash(tx)
        }),
{
}

/// Inserting an open block credits the new account with exactly the amount
/// its source send moved, and makes that send spent.
pub proof fn lemma_open_credits_sent_amount(m: LedgerModel, o: OpenTransaction)
    requires
        m.acceptance(Transaction::Open(o)) is Ok,
    ensures
        ({
            let (bal, key) = m.acceptance(Transaction::Open(o))->Ok_0;
            let m2 = m.commit(Transaction::Open(o), bal, key);
            m.sent_amount(o.source@) == Ok::<Balance, Failure>(bal) && key == o.account
                && m2.balance(block_hash(Transaction::Open(o))) == Some(bal)
                && !m2.unspent.contains(o.source@)
        }),
{
}

} // verus!
