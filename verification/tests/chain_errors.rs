use floresta::chain_error::{BlockValidationErrors, BlockchainError, ChainWorkOverflow, DatabaseError, ErrorSource, TransactionError, UtreexoLeafError};
use floresta::watch_only::OutPoint;

#[test]
fn preserves_source_chain_through_transaction_error() {
    let inner = TransactionError {
        txid: [0u8; 32],
        error: BlockValidationErrors::NotEnoughMoney,
    };
    let err = BlockchainError::TransactionError(inner);

    let source = err.source().expect("TransactionError must expose a source");
    let tx = match source {
        ErrorSource::TransactionError(tx) => tx,
        _ => panic!("TransactionError must expose a source"),
    };
    assert_eq!(
        tx.to_string(),
        TransactionError {
            txid: [0u8; 32],
            error: BlockValidationErrors::NotEnoughMoney,
        }
        .to_string()
    );

    let root = tx.source();
    assert_eq!(
        root.to_string(),
        BlockValidationErrors::NotEnoughMoney.to_string()
    );
}

#[test]
fn preserves_source_chain_through_block_validation() {
    let err = BlockchainError::BlockValidation(BlockValidationErrors::BadMerkleRoot);

    let source = err.source().expect("BlockValidation must expose a source");
    match source {
        ErrorSource::BlockValidation(e) => assert_eq!(
            e.to_string(),
            BlockValidationErrors::BadMerkleRoot.to_string()
        ),
        _ => panic!("BlockValidation must expose a source"),
    }
}

#[test]
fn domain_variants_have_no_source() {
    assert!(BlockchainError::BlockNotPresent.source().is_none());
    assert!(BlockchainError::ChainNotInitialized.source().is_none());
    assert!(BlockchainError::Unsupported("get_tx").source().is_none());
}

#[test]
fn transaction_error_renders_txid_as_bitcoin_does() {
    let mut txid = [0u8; 32];
    txid[0] = 0xab;
    let e = TransactionError { txid, error: BlockValidationErrors::DuplicateInput };
    assert_eq!(
        e.to_string(),
        "Transaction 00000000000000000000000000000000000000000000000000000000000000ab is invalid: This transaction has duplicate inputs"
    );
}

#[test]
fn validation_messages() {
    assert_eq!(BlockValidationErrors::BadMerkleRoot.to_string(), "Wrong merkle root");
    assert_eq!(BlockValidationErrors::ScriptValidationError("bad sig".to_string()).to_string(), "bad sig");
    assert_eq!(BlockValidationErrors::InvalidCoinbase("x".to_string()).to_string(), "Invalid coinbase: \"x\"");
    let utxo = BlockValidationErrors::UtxoNotFound(OutPoint { txid: [0u8; 32], vout: 1 });
    assert_eq!(
        utxo.to_string(),
        "Utxo referenced by OutPoint { txid: 0000000000000000000000000000000000000000000000000000000000000000, vout: 1 } not found"
    );
}

struct DiskFull;

impl DatabaseError for DiskFull {
    fn describe(&self) -> String {
        "disk full".to_string()
    }

    fn debug_describe(&self) -> String {
        "DiskFull".to_string()
    }
}

#[test]
fn blockchain_error_messages() {
    assert_eq!(BlockchainError::BlockNotPresent.to_string(), "The block is not present in the ChainState");
    assert_eq!(
        BlockchainError::BlockValidation(BlockValidationErrors::BadBip34).to_string(),
        "Failed to validate the block: BIP34 commitment mismatch"
    );
    assert_eq!(BlockchainError::Unsupported("get_tx").to_string(), "Operation not supported: get_tx");
    assert_eq!(BlockchainError::InvalidTip("stale".to_string()).to_string(), "The ChainState's tip is invalid: stale");
    assert_eq!(
        BlockchainError::from_database_error(DiskFull).to_string(),
        "Error whilst interacting with the the ChainState: disk full"
    );
    assert_eq!(
        BlockchainError::from(DiskFull).to_string(),
        "Error whilst interacting with the the ChainState: disk full"
    );
    assert!(BlockchainError::from(DiskFull).source().is_none());
    assert_eq!(
        BlockchainError::UtreexoLeaf(UtreexoLeafError { reason: "no script".to_string() }).to_string(),
        "Failed to reconstruct a scriptpubkey from Compact Leaf Data: no script"
    );
    assert_eq!(BlockchainError::from(ChainWorkOverflow).to_string(), "A ChainState operation overflowed");
    assert!(matches!(BlockchainError::from(ChainWorkOverflow).source(), Some(ErrorSource::OperationOverflow(_))));
    let acc = BlockchainError::from(rustreexo::stump::StumpError::RootsMismatch);
    assert!(acc.to_string().starts_with("Error whilst interacting with the accumulator: "));
    assert!(acc.source().is_none());
}

#[test]
fn blockchain_error_debug_forms() {
    assert_eq!(BlockchainError::BlockNotPresent.debug_string(), "BlockNotPresent");
    assert_eq!(
        BlockchainError::BlockValidation(BlockValidationErrors::BadBip34).debug_string(),
        "BlockValidation(BadBip34)"
    );
    assert_eq!(
        BlockchainError::InvalidTip("st\"ale".to_string()).debug_string(),
        "InvalidTip(\"st\\\"ale\")"
    );
    assert_eq!(BlockchainError::Unsupported("get_tx").debug_string(), "Unsupported(\"get_tx\")");
    assert_eq!(BlockchainError::from(DiskFull).debug_string(), "Database(DiskFull)");
    let utxo = BlockValidationErrors::UtxoNotFound(OutPoint { txid: [0u8; 32], vout: 17 });
    assert_eq!(
        utxo.debug_string(),
        "UtxoNotFound(OutPoint { txid: 0000000000000000000000000000000000000000000000000000000000000000, vout: 17 })"
    );
}

#[test]
fn outpoint_rendering_matches_bitcoin_debug() {
    let mut txid = [0u8; 32];
    txid[0] = 0xab;
    txid[31] = 0x01;
    let rendered = BlockValidationErrors::UtxoNotFound(OutPoint { txid, vout: 4294967295 }).to_string();
    let theirs = format!(
        "{:?}",
        bitcoin::OutPoint { txid: <bitcoin::Txid as bitcoin::hashes::Hash>::from_byte_array(txid), vout: 4294967295 }
    );
    assert_eq!(rendered, format!("Utxo referenced by {} not found", theirs));
}

#[test]
fn transaction_error_debug_form() {
    let mut txid = [0u8; 32];
    txid[0] = 0xab;
    let e = TransactionError { txid, error: BlockValidationErrors::InvalidCoinbase("x".to_string()) };
    assert_eq!(
        e.debug_string(),
        "TransactionError { txid: 00000000000000000000000000000000000000000000000000000000000000ab, error: InvalidCoinbase(\"x\") }"
    );
    let leaf = UtreexoLeafError { reason: "no script".to_string() };
    assert_eq!(BlockchainError::UtreexoLeaf(leaf).debug_string(), "UtreexoLeaf(UtreexoLeafError { reason: \"no script\" })");
    assert_eq!(
        BlockchainError::OperationOverflow(ChainWorkOverflow).debug_string(),
        "OperationOverflow(ChainWorkOverflow)"
    );
}
