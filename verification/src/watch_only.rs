//! The records of the watch-only wallet and its in-memory database.
//!
//! Being in memory, the database is volatile: everything is lost when it
//! is dropped. It serves tests and the integration framework.

use vstd::prelude::*;
use crate::table::{Keyed, Table};

verus! {

/// A transaction output: the transaction's id and the output's position in it.
#[derive(Clone, Copy, Debug, PartialEq, Eq)]
pub struct OutPoint {
    pub txid: [u8; 32],
    pub vout: u32,
}

/// A copy of a vector of plain values.
pub fn copy_vec<T: Copy>(v: &Vec<T>) -> (r: Vec<T>)
    ensures
        r@ == v@,
{
    let mut out: Vec<T> = Vec::new();
    let mut i: usize = 0;
    while i < v.len()
        invariant
            i <= v@.len(),
            out@ == v@.subrange(0, i as int),
        decreases v@.len() - i,
    {
        out.push(v[i]);
        i += 1;
        assert(out@ =~= v@.subrange(0, i as int));
    }
    assert(v@.subrange(0, v@.len() as int) =~= v@);
    out
}

/// An address the wallet watches, with what it knows about it.
#[derive(Debug)]
pub struct CachedAddress {
    /// The hash of the address's script, by which it is found.
    pub script_hash: [u8; 32],
    pub balance: u64,
    pub script: Vec<u8>,
    pub transactions: Vec<[u8; 32]>,
    pub utxos: Vec<OutPoint>,
}

/// The contents of a [`CachedAddress`].
pub struct CachedAddressView {
    pub script_hash: Seq<u8>,
    pub balance: u64,
    pub script: Seq<u8>,
    pub transactions: Seq<[u8; 32]>,
    pub utxos: Seq<OutPoint>,
}

impl View for CachedAddress {
    type V = CachedAddressView;

    open spec fn view(&self) -> CachedAddressView {
        CachedAddressView {
            script_hash: self.script_hash@,
            balance: self.balance,
            script: self.script@,
            transactions: self.transactions@,
            utxos: self.utxos@,
        }
    }
}

impl Keyed for CachedAddress {
    open spec fn key_of(v: CachedAddressView) -> Seq<u8> {
        v.script_hash
    }

    fn key(&self) -> (k: [u8; 32]) {
        self.script_hash
    }

    fn duplicate(&self) -> (r: Self) {
        CachedAddress {
            script_hash: self.script_hash,
            balance: self.balance,
            script: copy_vec(&self.script),
            transactions: copy_vec(&self.transactions),
            utxos: copy_vec(&self.utxos),
        }
    }
}

/// A transaction that concerns the wallet.
#[derive(Debug)]
pub struct CachedTransaction {
    /// The transaction, consensus-encoded.
    pub tx: Vec<u8>,
    pub height: u32,
    /// The encoded proof that the transaction is in its block, when known.
    pub merkle_block: Option<Vec<u8>>,
    /// The transaction's id, by which it is found.
    pub hash: [u8; 32],
    pub position: u32,
}

/// The contents of a [`CachedTransaction`].
pub struct CachedTransactionView {
    pub tx: Seq<u8>,
    pub height: u32,
    pub merkle_block: Option<Seq<u8>>,
    pub hash: Seq<u8>,
    pub position: u32,
}

impl View for CachedTransaction {
    type V = CachedTransactionView;

    open spec fn view(&self) -> CachedTransactionView {
        CachedTransactionView {
            tx: self.tx@,
            height: self.height,
            merkle_block: match self.merkle_block {
                Some(m) => Some(m@),
                None => None,
            },
            hash: self.hash@,
            position: self.position,
        }
    }
}

impl Keyed for CachedTransaction {
    open spec fn key_of(v: CachedTransactionView) -> Seq<u8> {
        v.hash
    }

    fn key(&self) -> (k: [u8; 32]) {
        self.hash
    }

    fn duplicate(&self) -> (r: Self) {
        CachedTransaction {
            tx: copy_vec(&self.tx),
            height: self.height,
            merkle_block: match &self.merkle_block {
                Some(m) => Some(copy_vec(m)),
                None => None,
            },
            hash: self.hash,
            position: self.position,
        }
    }
}

/// Counters about the wallet.
#[derive(Clone, Copy, Debug, PartialEq, Eq)]
pub struct Stats {
    pub address_count: usize,
    pub transaction_count: usize,
    pub utxo_count: usize,
    pub cache_height: u32,
    pub txo_count: usize,
    pub balance: u64,
    pub derivation_index: u32,
}

/// Counters of zero.
pub open spec fn zero_stats() -> Stats {
    Stats {
        address_count: 0,
        transaction_count: 0,
        utxo_count: 0,
        cache_height: 0,
        txo_count: 0,
        balance: 0,
        derivation_index: 0,
    }
}

impl Default for Stats {
    fn default() -> (r: Self)
        ensures
            r == zero_stats(),
    {
        Stats {
            address_count: 0,
            transaction_count: 0,
            utxo_count: 0,
            cache_height: 0,
            txo_count: 0,
            balance: 0,
            derivation_index: 0,
        }
    }
}

/// A failure of the in-memory database.
#[derive(Debug)]
pub enum MemoryDatabaseError {
    /// Another thread panicked while holding the database; holds the panic's message.
    PoisonedLock(String),
}

impl MemoryDatabaseError {
    /// The rendered message of the error.
    pub open spec fn rendered(&self) -> Seq<char> {
        match self {
            MemoryDatabaseError::PoisonedLock(e) => "Poisoned lock: "@ + e@,
        }
    }

    /// Renders the error.
    pub fn to_string(&self) -> (s: String)
        ensures
            s@ == self.rendered(),
    {
        match self {
            MemoryDatabaseError::PoisonedLock(e) => {
                let mut s = String::from_str("Poisoned lock: ");
                s.append(e.as_str());
                s
            },
        }
    }

    /// The failure this error wraps: none, for it describes a bad request
    /// or a broken lock rather than wrapping a lower-level failure.
    pub fn source(&self) -> (r: Option<()>)
        ensures
            r is None,
    {
        None
    }
}

/// What the in-memory database holds.
pub struct MemoryDatabaseView {
    /// The watched addresses, by script hash.
    pub addresses: Map<Seq<u8>, CachedAddressView>,
    /// The wallet's transactions, by id.
    pub transactions: Map<Seq<u8>, CachedTransactionView>,
    pub stats: Stats,
    /// The height the addresses are cached to.
    pub height: u32,
    /// The wallet's descriptors, in the order they were added.
    pub descriptors: Seq<Seq<char>>,
}

impl MemoryDatabaseView {
    /// An empty database.
    pub open spec fn empty() -> MemoryDatabaseView {
        MemoryDatabaseView {
            addresses: Map::empty(),
            transactions: Map::empty(),
            stats: zero_stats(),
            height: 0,
            descriptors: Seq::empty(),
        }
    }

    /// The database after saving `a`: it is stored under its script hash,
    /// replacing any address with that hash.
    pub open spec fn save(self, a: CachedAddressView) -> MemoryDatabaseView {
        MemoryDatabaseView { addresses: self.addresses.insert(a.script_hash, a), ..self }
    }

    /// The database after updating with `a`: the address with its script
    /// hash is replaced; nothing changes when there is none.
    pub open spec fn update(self, a: CachedAddressView) -> MemoryDatabaseView {
        if self.addresses.contains_key(a.script_hash) {
            self.save(a)
        } else {
            self
        }
    }

    /// The database after saving transaction `t` under its id.
    pub open spec fn save_transaction(self, t: CachedTransactionView) -> MemoryDatabaseView {
        MemoryDatabaseView { transactions: self.transactions.insert(t.hash, t), ..self }
    }

    /// The database after adding a descriptor.
    pub open spec fn save_descriptor(self, d: Seq<char>) -> MemoryDatabaseView {
        MemoryDatabaseView { descriptors: self.descriptors.push(d), ..self }
    }

    /// The database after recording the cache height.
    pub open spec fn set_cache_height(self, h: u32) -> MemoryDatabaseView {
        MemoryDatabaseView { height: h, ..self }
    }

    /// The database after recording the counters.
    pub open spec fn save_stats(self, s: Stats) -> MemoryDatabaseView {
        MemoryDatabaseView { stats: s, ..self }
    }
}

/// An in-memory database for the watch-only wallet.
#[derive(Debug)]
pub struct MemoryDatabase {
    addresses: Table<CachedAddress>,
    transactions: Table<CachedTransaction>,
    stats: Stats,
    height: u32,
    descriptors: Vec<String>,
}

impl View for MemoryDatabase {
    type V = MemoryDatabaseView;

    closed spec fn view(&self) -> MemoryDatabaseView {
        MemoryDatabaseView {
            addresses: self.addresses.contents(),
            transactions: self.transactions.contents(),
            stats: self.stats,
            height: self.height,
            descriptors: self.descriptors@.map_values(|d: String| d@),
        }
    }
}

impl MemoryDatabase {
    /// Creates an empty database.
    pub fn new() -> (db: Self)
        ensures
            db@ == MemoryDatabaseView::empty(),
    {
        let db = MemoryDatabase {
            addresses: Table::new(),
            transactions: Table::new(),
            stats: Stats::default(),
            height: 0,
            descriptors: Vec::new(),
        };
        assert(db@.descriptors =~= Seq::<Seq<char>>::empty());
        db
    }

    /// All watched addresses, each once, in no particular order.
    pub fn load(&self) -> (r: Vec<CachedAddress>)
        ensures
            forall|i: int|
                0 <= i < r@.len() ==> self@.addresses.contains_key((#[trigger] r@[i])@.script_hash)
                    && self@.addresses[r@[i]@.script_hash] == r@[i]@,
            forall|i: int, j: int|
                0 <= i < j < r@.len() ==> (#[trigger] r@[i])@.script_hash != (
                #[trigger] r@[j])@.script_hash,
            forall|k: Seq<u8>|
                #[trigger] self@.addresses.contains_key(k) ==> exists|i: int|
                    0 <= i < r@.len() && (#[trigger] r@[i])@.script_hash == k,
    {
        self.addresses.values()
    }

    /// Saves an address, replacing the one with the same script hash.
    pub fn save(&mut self, address: &CachedAddress)
        ensures
            final(self)@ == old(self)@.save(address@),
    {
        self.addresses.insert(address.duplicate());
    }

    /// Replaces the address with the same script hash; an address that is
    /// not saved yet is not added.
    pub fn update(&mut self, address: &CachedAddress)
        ensures
            final(self)@ == old(self)@.update(address@),
    {
        self.addresses.replace_existing(address.duplicate());
    }

    /// The height the addresses are cached to.
    pub fn get_cache_height(&self) -> (h: u32)
        ensures
            h == self@.height,
    {
        self.height
    }

    /// Records the height the addresses are cached to.
    pub fn set_cache_height(&mut self, height: u32)
        ensures
            final(self)@ == old(self)@.set_cache_height(height),
    {
        self.height = height;
    }

    /// Adds a descriptor.
    pub fn save_descriptor(&mut self, descriptor: &str)
        ensures
            final(self)@ == old(self)@.save_descriptor(descriptor@),
    {
        self.descriptors.push(descriptor.to_owned());
        assert(self@.descriptors =~= old(self)@.descriptors.push(descriptor@));
    }

    /// The descriptors, in the order they were added.
    pub fn get_descriptors(&self) -> (r: Vec<String>)
        ensures
            r@.map_values(|d: String| d@) == self@.descriptors,
    {
        let mut out: Vec<String> = Vec::new();
        let mut i: usize = 0;
        while i < self.descriptors.len()
            invariant
                i <= self.descriptors@.len(),
                out@.len() == i,
                forall|j: int| 0 <= j < i ==> (#[trigger] out@[j])@ == self.descriptors@[j]@,
            decreases self.descriptors@.len() - i,
        {
            out.push(self.descriptors[i].clone());
            i += 1;
        }
        assert(out@.map_values(|d: String| d@) =~= self@.descriptors);
        out
    }

    /// The transaction with id `txid`, if saved.
    pub fn get_transaction(&self, txid: &[u8; 32]) -> (r: Option<CachedTransaction>)
        ensures
            match r {
                Some(t) => self@.transactions.contains_key(txid@) && t@ == self@.transactions[txid@],
                None => !self@.transactions.contains_key(txid@),
            },
    {
        self.transactions.get(txid)
    }

    /// Saves a transaction under its id, replacing the one with that id.
    pub fn save_transaction(&mut self, tx: &CachedTransaction)
        ensures
            final(self)@ == old(self)@.save_transaction(tx@),
    {
        self.transactions.insert(tx.duplicate());
    }

    /// The ids of all saved transactions, each once, in no particular order.
    pub fn list_transactions(&self) -> (r: Vec<[u8; 32]>)
        ensures
            forall|i: int| 0 <= i < r@.len() ==> self@.transactions.contains_key(#[trigger] r@[i]@),
            forall|i: int, j: int| 0 <= i < j < r@.len() ==> (#[trigger] r@[i])@ != (#[trigger] r@[j])@,
            forall|k: Seq<u8>|
                #[trigger] self@.transactions.contains_key(k) ==> exists|i: int|
                    0 <= i < r@.len() && (#[trigger] r@[i])@ == k,
    {
        self.transactions.keys()
    }

    /// The wallet's counters.
    pub fn get_stats(&self) -> (s: Stats)
        ensures
            s == self@.stats,
    {
        self.stats
    }

    /// Records the wallet's counters.
    pub fn save_stats(&mut self, stats: &Stats)
        ensures
            final(self)@ == old(self)@.save_stats(*stats),
    {
        self.stats = *stats;
    }
}

impl Default for MemoryDatabase {
    fn default() -> (db: Self)
        ensures
            db@ == MemoryDatabaseView::empty(),
    {
        MemoryDatabase::new()
    }
}

/// A saved address is what a later read finds under its script hash, and
/// saving it leaves every other address as it was.
pub proof fn lemma_save_then_read(db: MemoryDatabaseView, a: CachedAddressView, k: Seq<u8>)
    ensures
        db.save(a).addresses.contains_key(a.script_hash),
        db.save(a).addresses[a.script_hash] == a,
        k != a.script_hash ==> db.save(a).addresses.contains_key(k) == db.addresses.contains_key(k),
        k != a.script_hash && db.addresses.contains_key(k) ==> db.save(a).addresses[k]
            == db.addresses[k],
{
}

/// An update never adds an address: after it, the saved script hashes
/// are those that were saved before.
pub proof fn lemma_update_keeps_addresses(db: MemoryDatabaseView, a: CachedAddressView)
    ensures
        db.update(a).addresses.dom() == db.addresses.dom(),
        db.addresses.contains_key(a.script_hash) ==> db.update(a).addresses[a.script_hash] == a,
{
    if db.addresses.contains_key(a.script_hash) {
        assert(db.update(a).addresses.dom() =~= db.addresses.dom());
    }
}

/// A saved transaction is what a later read finds under its id.
pub proof fn lemma_save_transaction_then_read(db: MemoryDatabaseView, t: CachedTransactionView)
    ensures
        db.save_transaction(t).transactions.contains_key(t.hash),
        db.save_transaction(t).transactions[t.hash] == t,
        db.save_transaction(t).addresses == db.addresses,
{
}

/// The cache height read back is the last one recorded, and the counters
/// read back are the last ones saved.
pub proof fn lemma_height_and_stats_read_back(db: MemoryDatabaseView, h: u32, s: Stats)
    ensures
        db.set_cache_height(h).height == h,
        db.save_stats(s).stats == s,
        db.set_cache_height(h).addresses == db.addresses,
        db.save_stats(s).transactions == db.transactions,
{
}

/// Descriptors come back in the order they were added, the new one last.
pub proof fn lemma_descriptors_append(db: MemoryDatabaseView, d: Seq<char>)
    ensures
        db.save_descriptor(d).descriptors.len() == db.descriptors.len() + 1,
        db.save_descriptor(d).descriptors.last() == d,
        db.save_descriptor(d).descriptors.subrange(0, db.descriptors.len() as int)
            == db.descriptors,
{
    assert(db.save_descriptor(d).descriptors.subrange(0, db.descriptors.len() as int)
        =~= db.descriptors);
}


/// Saving a transaction keeps every other saved transaction: for any id
/// other than the saved one, the database holds a transaction under it
/// after the save exactly when it did before, and the same one. Saving
/// touches neither the addresses nor the other records.
pub proof fn lemma_save_transaction_keeps_others(
    db: MemoryDatabaseView,
    t: CachedTransactionView,
    k: Seq<u8>,
)
    requires
        k != t.hash,
    ensures
        db.save_transaction(t).transactions.contains_key(k) == db.transactions.contains_key(k),
        db.transactions.contains_key(k) ==> db.save_transaction(t).transactions[k]
            == db.transactions[k],
        db.save_transaction(t).transactions.dom() == db.transactions.dom().insert(t.hash),
        db.save_transaction(t).height == db.height,
        db.save_transaction(t).stats == db.stats,
        db.save_transaction(t).descriptors == db.descriptors,
{
    assert(db.save_transaction(t).transactions.dom() =~= db.transactions.dom().insert(t.hash));
}

/// Two saves of transactions with different ids keep both: each is read
/// back under its own id, whichever was saved first.
pub proof fn lemma_two_transactions_both_kept(
    db: MemoryDatabaseView,
    a: CachedTransactionView,
    b: CachedTransactionView,
)
    requires
        a.hash != b.hash,
    ensures
        db.save_transaction(a).save_transaction(b).transactions.contains_key(a.hash),
        db.save_transaction(a).save_transaction(b).transactions[a.hash] == a,
        db.save_transaction(a).save_transaction(b).transactions.contains_key(b.hash),
        db.save_transaction(a).save_transaction(b).transactions[b.hash] == b,
        db.save_transaction(a).save_transaction(b).transactions
            == db.save_transaction(b).save_transaction(a).transactions,
{
    lemma_save_transaction_then_read(db, a);
    lemma_save_transaction_keeps_others(db.save_transaction(a), b, a.hash);
    lemma_save_transaction_then_read(db.save_transaction(a), b);
    assert(db.save_transaction(a).save_transaction(b).transactions
        =~= db.save_transaction(b).save_transaction(a).transactions);
}

} // verus!
