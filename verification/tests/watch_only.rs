use floresta::watch_only::{CachedAddress, CachedTransaction, MemoryDatabase, MemoryDatabaseError, OutPoint, Stats};

fn address(tag: u8, balance: u64) -> CachedAddress {
    CachedAddress {
        script_hash: [tag; 32],
        balance,
        script: vec![0x51],
        transactions: vec![[tag; 32]],
        utxos: vec![OutPoint { txid: [tag; 32], vout: 0 }],
    }
}

#[test]
fn saved_addresses_load_back() {
    let mut db = MemoryDatabase::new();
    assert!(db.load().is_empty());
    db.save(&address(1, 10));
    db.save(&address(2, 20));
    db.save(&address(1, 30));
    let mut loaded: Vec<(u8, u64)> = db.load().iter().map(|a| (a.script_hash[0], a.balance)).collect();
    loaded.sort();
    assert_eq!(loaded, vec![(1, 30), (2, 20)]);
}

#[test]
fn update_only_touches_saved_addresses() {
    let mut db = MemoryDatabase::new();
    db.update(&address(1, 10));
    assert!(db.load().is_empty());
    db.save(&address(1, 10));
    db.update(&address(1, 11));
    let loaded = db.load();
    assert_eq!(loaded.len(), 1);
    assert_eq!(loaded[0].balance, 11);
}

#[test]
fn transactions_heights_descriptors_and_stats() {
    let mut db = MemoryDatabase::new();
    let tx = CachedTransaction { tx: vec![1, 2], height: 7, merkle_block: None, hash: [9; 32], position: 3 };
    assert!(db.get_transaction(&[9; 32]).is_none());
    db.save_transaction(&tx);
    let got = db.get_transaction(&[9; 32]).unwrap();
    assert_eq!((got.tx, got.height, got.position), (vec![1, 2], 7, 3));
    assert_eq!(db.list_transactions(), vec![[9; 32]]);

    assert_eq!(db.get_cache_height(), 0);
    db.set_cache_height(12);
    assert_eq!(db.get_cache_height(), 12);

    db.save_descriptor("wpkh(a)");
    db.save_descriptor("wpkh(b)");
    assert_eq!(db.get_descriptors(), vec!["wpkh(a)".to_string(), "wpkh(b)".to_string()]);

    assert_eq!(db.get_stats(), Stats::default());
    let stats = Stats { address_count: 1, transaction_count: 2, utxo_count: 3, cache_height: 4, txo_count: 5, balance: 6, derivation_index: 7 };
    db.save_stats(&stats);
    assert_eq!(db.get_stats(), stats);
}

#[test]
fn poisoned_lock_message() {
    let e = MemoryDatabaseError::PoisonedLock("boom".to_string());
    assert_eq!(e.to_string(), "Poisoned lock: boom");
}
