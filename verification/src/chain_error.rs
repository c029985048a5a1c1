//! Errors of the chain backend: block and transaction validation failures,
//! and the top-level error that wraps them.

use vstd::prelude::*;
use crate::text::{debug_quoted, debug_str, decimal, push_decimal};
use crate::watch_only::OutPoint;
use crate::network::{hex_digits, push_hex_digits};

verus! {

/// Two lower-case hexadecimal digits for each byte, the last byte first.
pub open spec fn reversed_hex(bytes: Seq<u8>) -> Seq<char>
    decreases bytes.len(),
{
    if bytes.len() == 0 {
        Seq::empty()
    } else {
        reversed_hex(bytes.drop_first()) + hex_digits(bytes[0] as nat, 2)
    }
}

/// How a transaction id is displayed: its bytes in reverse order, in
/// lower-case hexadecimal, as `bitcoin::Txid` displays it.
pub open spec fn txid_text(txid: Seq<u8>) -> Seq<char> {
    reversed_hex(txid)
}

/// How an outpoint reads in debug output, as `bitcoin::OutPoint`'s
/// derived `Debug` writes it: the transaction id as displayed, then the
/// output index in decimal.
pub open spec fn outpoint_debug_text(txid: Seq<u8>, vout: u32) -> Seq<char> {
    "OutPoint { txid: "@ + txid_text(txid) + ", vout: "@ + decimal(vout as nat) + " }"@
}

/// Renders a transaction id as it is displayed.
fn txid_to_string(txid: &[u8; 32]) -> (r: String)
    ensures
        r@ == txid_text(txid@),
{
    let mut s = String::new();
    let mut i: usize = 32;
    assert(txid@.skip(32) =~= Seq::<u8>::empty());
    while i > 0
        invariant
            i <= 32,
            txid@.len() == 32,
            s@ == reversed_hex(txid@.skip(i as int)),
        decreases i,
    {
        let b = txid[i - 1];
        push_hex_digits(&mut s, b as u64, 2);
        assert(txid@.skip(i - 1).drop_first() =~= txid@.skip(i as int));
        i -= 1;
    }
    assert(txid@.skip(0) =~= txid@);
    s
}

/// Renders an outpoint as `bitcoin::OutPoint`'s `Debug` does.
fn outpoint_debug(outpoint: &OutPoint) -> (r: String)
    ensures
        r@ == outpoint_debug_text(outpoint.txid@, outpoint.vout),
{
    let mut s = String::from_str("OutPoint { txid: ");
    let t = txid_to_string(&outpoint.txid);
    s.append(t.as_str());
    s.append(", vout: ");
    push_decimal(&mut s, outpoint.vout as u64);
    s.append(" }");
    s
}

/// A failure of a storage backend of the chain.
pub trait DatabaseError: Send + Sync {
    /// What went wrong, for a human.
    fn describe(&self) -> String;

    /// How the failure reads in debug output.
    fn debug_describe(&self) -> String;
}

/// A failure of block validation that is not tied to one transaction, or
/// the rule that a transaction broke.
#[derive(Debug)]
pub enum BlockValidationErrors {
    BlockDoesntExtendTip,
    InvalidCoinbase(String),
    UtxoNotFound(OutPoint),
    ScriptValidationError(String),
    NullPrevOut,
    EmptyInputs,
    EmptyOutputs,
    ScriptError,
    BlockTooBig,
    TooManyCoins,
    NotEnoughPow,
    BadMerkleRoot,
    BadWitnessCommitment,
    NotEnoughMoney,
    FirstTxIsNotCoinbase,
    BadCoinbaseOutValue,
    EmptyBlock,
    BlockExtendsAnOrphanChain,
    BadBip34,
    InvalidUtreexoProof,
    CoinbaseNotMatured,
    NonFinalTransaction,
    UnspendableUTXO,
    BIP94TimeWarp,
    DuplicateInput,
}

impl BlockValidationErrors {
    /// How the error reads in debug output, as a derived `Debug` writes it.
    pub open spec fn debug_rendered(&self) -> Seq<char> {
        match self {
            BlockValidationErrors::BlockDoesntExtendTip => "BlockDoesntExtendTip"@,
            BlockValidationErrors::NullPrevOut => "NullPrevOut"@,
            BlockValidationErrors::EmptyInputs => "EmptyInputs"@,
            BlockValidationErrors::EmptyOutputs => "EmptyOutputs"@,
            BlockValidationErrors::ScriptError => "ScriptError"@,
            BlockValidationErrors::BlockTooBig => "BlockTooBig"@,
            BlockValidationErrors::TooManyCoins => "TooManyCoins"@,
            BlockValidationErrors::NotEnoughPow => "NotEnoughPow"@,
            BlockValidationErrors::BadMerkleRoot => "BadMerkleRoot"@,
            BlockValidationErrors::BadWitnessCommitment => "BadWitnessCommitment"@,
            BlockValidationErrors::NotEnoughMoney => "NotEnoughMoney"@,
            BlockValidationErrors::FirstTxIsNotCoinbase => "FirstTxIsNotCoinbase"@,
            BlockValidationErrors::BadCoinbaseOutValue => "BadCoinbaseOutValue"@,
            BlockValidationErrors::EmptyBlock => "EmptyBlock"@,
            BlockValidationErrors::BlockExtendsAnOrphanChain => "BlockExtendsAnOrphanChain"@,
            BlockValidationErrors::BadBip34 => "BadBip34"@,
            BlockValidationErrors::InvalidUtreexoProof => "InvalidUtreexoProof"@,
            BlockValidationErrors::CoinbaseNotMatured => "CoinbaseNotMatured"@,
            BlockValidationErrors::NonFinalTransaction => "NonFinalTransaction"@,
            BlockValidationErrors::UnspendableUTXO => "UnspendableUTXO"@,
            BlockValidationErrors::BIP94TimeWarp => "BIP94TimeWarp"@,
            BlockValidationErrors::DuplicateInput => "DuplicateInput"@,
            BlockValidationErrors::InvalidCoinbase(e) => "InvalidCoinbase("@ + debug_quoted(e@) + ")"@,
            BlockValidationErrors::ScriptValidationError(e) => "ScriptValidationError("@ + debug_quoted(e@) + ")"@,
            BlockValidationErrors::UtxoNotFound(o) => "UtxoNotFound("@ + outpoint_debug_text(o.txid@, o.vout) + ")"@,
        }
    }

    /// Renders the error as a derived `Debug` does.
    pub fn debug_string(&self) -> (s: String)
        ensures
            s@ == self.debug_rendered(),
    {
        match self {
            BlockValidationErrors::BlockDoesntExtendTip => String::from_str("BlockDoesntExtendTip"),
            BlockValidationErrors::NullPrevOut => String::from_str("NullPrevOut"),
            BlockValidationErrors::EmptyInputs => String::from_str("EmptyInputs"),
            BlockValidationErrors::EmptyOutputs => String::from_str("EmptyOutputs"),
            BlockValidationErrors::ScriptError => String::from_str("ScriptError"),
            BlockValidationErrors::BlockTooBig => String::from_str("BlockTooBig"),
            BlockValidationErrors::TooManyCoins => String::from_str("TooManyCoins"),
            BlockValidationErrors::NotEnoughPow => String::from_str("NotEnoughPow"),
            BlockValidationErrors::BadMerkleRoot => String::from_str("BadMerkleRoot"),
            BlockValidationErrors::BadWitnessCommitment => String::from_str("BadWitnessCommitment"),
            BlockValidationErrors::NotEnoughMoney => String::from_str("NotEnoughMoney"),
            BlockValidationErrors::FirstTxIsNotCoinbase => String::from_str("FirstTxIsNotCoinbase"),
            BlockValidationErrors::BadCoinbaseOutValue => String::from_str("BadCoinbaseOutValue"),
            BlockValidationErrors::EmptyBlock => String::from_str("EmptyBlock"),
            BlockValidationErrors::BlockExtendsAnOrphanChain => String::from_str("BlockExtendsAnOrphanChain"),
            BlockValidationErrors::BadBip34 => String::from_str("BadBip34"),
            BlockValidationErrors::InvalidUtreexoProof => String::from_str("InvalidUtreexoProof"),
            BlockValidationErrors::CoinbaseNotMatured => String::from_str("CoinbaseNotMatured"),
            BlockValidationErrors::NonFinalTransaction => String::from_str("NonFinalTransaction"),
            BlockValidationErrors::UnspendableUTXO => String::from_str("UnspendableUTXO"),
            BlockValidationErrors::BIP94TimeWarp => String::from_str("BIP94TimeWarp"),
            BlockValidationErrors::DuplicateInput => String::from_str("DuplicateInput"),
            BlockValidationErrors::InvalidCoinbase(e) => {
                let mut s = String::from_str("InvalidCoinbase(");
                let t = debug_str(e.as_str());
                s.append(t.as_str());
                s.append(")");
                s
            },
            BlockValidationErrors::ScriptValidationError(e) => {
                let mut s = String::from_str("ScriptValidationError(");
                let t = debug_str(e.as_str());
                s.append(t.as_str());
                s.append(")");
                s
            },
            BlockValidationErrors::UtxoNotFound(e) => {
                let mut s = String::from_str("UtxoNotFound(");
                let t = outpoint_debug(e);
                s.append(t.as_str());
                s.append(")");
                s
            },
        }
    }

    /// The rendered message of the error.
    pub open spec fn rendered(&self) -> Seq<char> {
        match self {
            BlockValidationErrors::BlockDoesntExtendTip =>
                "This block doesn't build directly on the tip"@,
            BlockValidationErrors::ScriptValidationError(e) => e@,
            BlockValidationErrors::UtxoNotFound(o) => "Utxo referenced by "@ + outpoint_debug_text(
                o.txid@,
                o.vout,
            ) + " not found"@,
            BlockValidationErrors::NullPrevOut =>
                "This transaction has a null PrevOut but it's not coinbase"@,
            BlockValidationErrors::EmptyInputs => "This transaction has no inputs"@,
            BlockValidationErrors::EmptyOutputs => "This transaction has no outputs"@,
            BlockValidationErrors::BlockTooBig => "Block too big"@,
            BlockValidationErrors::InvalidCoinbase(e) => "Invalid coinbase: "@ + debug_quoted(e@),
            BlockValidationErrors::TooManyCoins => "Moving more coins that exists"@,
            BlockValidationErrors::ScriptError =>
                "Script does not follow size requirements of 2>= and <=520"@,
            BlockValidationErrors::NotEnoughPow => "This block doesn't have enough proof-of-work"@,
            BlockValidationErrors::BadMerkleRoot => "Wrong merkle root"@,
            BlockValidationErrors::BadWitnessCommitment => "Wrong witness commitment"@,
            BlockValidationErrors::NotEnoughMoney => "A transaction spends more than it should"@,
            BlockValidationErrors::FirstTxIsNotCoinbase =>
                "The first transaction in a block isn't a coinbase"@,
            BlockValidationErrors::BadCoinbaseOutValue =>
                "Coinbase claims more bitcoins than it should"@,
            BlockValidationErrors::EmptyBlock =>
                "This block is empty (doesn't have a coinbase tx)"@,
            BlockValidationErrors::BlockExtendsAnOrphanChain =>
                "This block extends a chain we don't have the ancestors"@,
            BlockValidationErrors::BadBip34 => "BIP34 commitment mismatch"@,
            BlockValidationErrors::InvalidUtreexoProof => "Invalid proof"@,
            BlockValidationErrors::CoinbaseNotMatured => "Coinbase not matured yet"@,
            BlockValidationErrors::NonFinalTransaction =>
                "Block contains a non-final transaction"@,
            BlockValidationErrors::UnspendableUTXO =>
                "Attempts to spend unspendable UTXO that was overwritten by the historical BIP30 violation"@,
            BlockValidationErrors::BIP94TimeWarp => "BIP94 time warp detected"@,
            BlockValidationErrors::DuplicateInput => "This transaction has duplicate inputs"@,
        }
    }

    /// Renders the error.
    pub fn to_string(&self) -> (s: String)
        ensures
            s@ == self.rendered(),
    {
        match self {
            BlockValidationErrors::BlockDoesntExtendTip => String::from_str(
                "This block doesn't build directly on the tip",
            ),
            BlockValidationErrors::ScriptValidationError(e) => e.clone(),
            BlockValidationErrors::UtxoNotFound(o) => {
                let mut s = String::from_str("Utxo referenced by ");
                let t = outpoint_debug(o);
                s.append(t.as_str());
                s.append(" not found");
                s
            },
            BlockValidationErrors::NullPrevOut => String::from_str(
                "This transaction has a null PrevOut but it's not coinbase",
            ),
            BlockValidationErrors::EmptyInputs => String::from_str("This transaction has no inputs"),
            BlockValidationErrors::EmptyOutputs => String::from_str(
                "This transaction has no outputs",
            ),
            BlockValidationErrors::BlockTooBig => String::from_str("Block too big"),
            BlockValidationErrors::InvalidCoinbase(e) => {
                let mut s = String::from_str("Invalid coinbase: ");
                let t = debug_str(e.as_str());
                s.append(t.as_str());
                s
            },
            BlockValidationErrors::TooManyCoins => String::from_str("Moving more coins that exists"),
            BlockValidationErrors::ScriptError => String::from_str(
                "Script does not follow size requirements of 2>= and <=520",
            ),
            BlockValidationErrors::NotEnoughPow => String::from_str(
                "This block doesn't have enough proof-of-work",
            ),
            BlockValidationErrors::BadMerkleRoot => String::from_str("Wrong merkle root"),
            BlockValidationErrors::BadWitnessCommitment => String::from_str(
                "Wrong witness commitment",
            ),
            BlockValidationErrors::NotEnoughMoney => String::from_str(
                "A transaction spends more than it should",
            ),
            BlockValidationErrors::FirstTxIsNotCoinbase => String::from_str(
                "The first transaction in a block isn't a coinbase",
            ),
            BlockValidationErrors::BadCoinbaseOutValue => String::from_str(
                "Coinbase claims more bitcoins than it should",
            ),
            BlockValidationErrors::EmptyBlock => String::from_str(
                "This block is empty (doesn't have a coinbase tx)",
            ),
            BlockValidationErrors::BlockExtendsAnOrphanChain => String::from_str(
                "This block extends a chain we don't have the ancestors",
            ),
            BlockValidationErrors::BadBip34 => String::from_str("BIP34 commitment mismatch"),
            BlockValidationErrors::InvalidUtreexoProof => String::from_str("Invalid proof"),
            BlockValidationErrors::CoinbaseNotMatured => String::from_str(
                "Coinbase not matured yet",
            ),
            BlockValidationErrors::NonFinalTransaction => String::from_str(
                "Block contains a non-final transaction",
            ),
            BlockValidationErrors::UnspendableUTXO => String::from_str(
                "Attempts to spend unspendable UTXO that was overwritten by the historical BIP30 violation",
            ),
            BlockValidationErrors::BIP94TimeWarp => String::from_str("BIP94 time warp detected"),
            BlockValidationErrors::DuplicateInput => String::from_str(
                "This transaction has duplicate inputs",
            ),
        }
    }
}

/// A transaction of a block that broke a validation rule.
#[derive(Debug)]
pub struct TransactionError {
    /// The id of the transaction.
    pub txid: [u8; 32],
    /// The rule it broke.
    pub error: BlockValidationErrors,
}

impl TransactionError {
    /// How the error reads in debug output, as a derived `Debug` writes it.
    pub open spec fn debug_rendered(&self) -> Seq<char> {
        "TransactionError { txid: "@ + txid_text(self.txid@) + ", error: "@ + self.error.debug_rendered() + " }"@
    }

    /// Renders the error as a derived `Debug` does.
    pub fn debug_string(&self) -> (s: String)
        ensures
            s@ == self.debug_rendered(),
    {
        let mut s = String::from_str("TransactionError { txid: ");
        let t = txid_to_string(&self.txid);
        s.append(t.as_str());
        s.append(", error: ");
        let e = self.error.debug_string();
        s.append(e.as_str());
        s.append(" }");
        s
    }

    /// The rendered message of the error.
    pub open spec fn rendered(&self) -> Seq<char> {
        "Transaction "@ + txid_text(self.txid@) + " is invalid: "@ + self.error.rendered()
    }

    /// Renders the error.
    pub fn to_string(&self) -> (s: String)
        ensures
            s@ == self.rendered(),
    {
        let mut s = String::from_str("Transaction ");
        let t = txid_to_string(&self.txid);
        s.append(t.as_str());
        s.append(" is invalid: ");
        let e = self.error.to_string();
        s.append(e.as_str());
        s
    }

    /// The rule that made the transaction invalid.
    pub fn source(&self) -> (r: &BlockValidationErrors)
        ensures
            r == &self.error,
    {
        &self.error
    }
}

#[verifier::external_type_specification]
#[verifier::external_body]
pub struct ExStumpError(rustreexo::stump::StumpError);

/// Renders an accumulator error with `rustreexo`'s `Debug`; nothing is
/// stated of the text.
#[verifier::external_body]
fn stump_error_debug(e: &rustreexo::stump::StumpError) -> String {
    format!("{:?}", e)
}

/// A compact leaf from which no script could be rebuilt.
#[derive(Debug)]
pub struct UtreexoLeafError {
    /// What was wrong with the leaf.
    pub reason: String,
}

impl UtreexoLeafError {
    /// How the error reads in debug output, as a derived `Debug` writes it.
    pub open spec fn debug_rendered(&self) -> Seq<char> {
        "UtreexoLeafError { reason: "@ + debug_quoted(self.reason@) + " }"@
    }

    /// Renders the error as a derived `Debug` does.
    pub fn debug_string(&self) -> (s: String)
        ensures
            s@ == self.debug_rendered(),
    {
        let mut s = String::from_str("UtreexoLeafError { reason: ");
        let t = debug_str(self.reason.as_str());
        s.append(t.as_str());
        s.append(" }");
        s
    }
}

/// A chain-work computation that went past the 256-bit work type.
#[derive(Debug)]
pub struct ChainWorkOverflow;

/// An error of the chain backend: the highest-level error of the chain.
pub enum BlockchainError {
    /// The block is not present in the chain state.
    BlockNotPresent,
    /// The block is an orphan or is invalid.
    OrphanOrInvalidBlock,
    /// The block failed validation.
    BlockValidation(BlockValidationErrors),
    /// The block holds an invalid transaction.
    TransactionError(TransactionError),
    /// The Utreexo proof for the block is invalid.
    InvalidUtreexoProof,
    /// The accumulator refused an operation.
    AccumulatorError(rustreexo::stump::StumpError),
    /// A script could not be rebuilt from a compact leaf.
    UtreexoLeaf(UtreexoLeafError),
    /// The chain store failed.
    Database(Box<dyn DatabaseError>),
    /// The chain state is not initialized.
    ChainNotInitialized,
    /// The chain state's tip is invalid; holds why.
    InvalidTip(String),
    /// The chain state's validation index is invalid.
    BadValidationIndex,
    /// A chain-work computation overflowed.
    OperationOverflow(ChainWorkOverflow),
    /// This backend does not support the operation; holds its name.
    Unsupported(&'static str),
}

impl BlockchainError {
    /// How the error reads in debug output, as a derived `Debug` writes it,
    /// where `inner` is the debug form of a wrapped accumulator or store
    /// failure (unused for other variants).
    pub open spec fn debug_rendered(&self, inner: Seq<char>) -> Seq<char> {
        match self {
            BlockchainError::BlockNotPresent => "BlockNotPresent"@,
            BlockchainError::OrphanOrInvalidBlock => "OrphanOrInvalidBlock"@,
            BlockchainError::InvalidUtreexoProof => "InvalidUtreexoProof"@,
            BlockchainError::ChainNotInitialized => "ChainNotInitialized"@,
            BlockchainError::BadValidationIndex => "BadValidationIndex"@,
            BlockchainError::BlockValidation(e) => "BlockValidation("@ + e.debug_rendered() + ")"@,
            BlockchainError::TransactionError(e) => "TransactionError("@ + e.debug_rendered() + ")"@,
            BlockchainError::AccumulatorError(_) => "AccumulatorError("@ + inner + ")"@,
            BlockchainError::UtreexoLeaf(e) => "UtreexoLeaf("@ + e.debug_rendered() + ")"@,
            BlockchainError::Database(_) => "Database("@ + inner + ")"@,
            BlockchainError::InvalidTip(e) => "InvalidTip("@ + debug_quoted(e@) + ")"@,
            BlockchainError::OperationOverflow(_) => "OperationOverflow(ChainWorkOverflow)"@,
            BlockchainError::Unsupported(op) => "Unsupported("@ + debug_quoted(op@) + ")"@,
        }
    }

    /// Renders the error as a derived `Debug` does.
    pub fn debug_string(&self) -> (s: String)
        ensures
            exists|inner: Seq<char>| s@ == self.debug_rendered(inner),
            !self.renders_opaque() ==> s@ == self.debug_rendered(Seq::empty()),
    {
        let s = match self {
            BlockchainError::BlockNotPresent => String::from_str("BlockNotPresent"),
            BlockchainError::OrphanOrInvalidBlock => String::from_str("OrphanOrInvalidBlock"),
            BlockchainError::InvalidUtreexoProof => String::from_str("InvalidUtreexoProof"),
            BlockchainError::ChainNotInitialized => String::from_str("ChainNotInitialized"),
            BlockchainError::BadValidationIndex => String::from_str("BadValidationIndex"),
            BlockchainError::BlockValidation(e) => {
                let mut s = String::from_str("BlockValidation(");
                let t = e.debug_string();
                s.append(t.as_str());
                s.append(")");
                assert(s@ == self.debug_rendered(t@));
                s
            },
            BlockchainError::TransactionError(e) => {
                let mut s = String::from_str("TransactionError(");
                let t = e.debug_string();
                s.append(t.as_str());
                s.append(")");
                assert(s@ == self.debug_rendered(t@));
                s
            },
            BlockchainError::AccumulatorError(e) => {
                let mut s = String::from_str("AccumulatorError(");
                let t = stump_error_debug(e);
                s.append(t.as_str());
                s.append(")");
                assert(s@ == self.debug_rendered(t@));
                s
            },
            BlockchainError::UtreexoLeaf(e) => {
                let mut s = String::from_str("UtreexoLeaf(");
                let t = e.debug_string();
                s.append(t.as_str());
                s.append(")");
                assert(s@ == self.debug_rendered(t@));
                s
            },
            BlockchainError::Database(e) => {
                let mut s = String::from_str("Database(");
                let t = e.debug_describe();
                s.append(t.as_str());
                s.append(")");
                assert(s@ == self.debug_rendered(t@));
                s
            },
            BlockchainError::InvalidTip(e) => {
                let mut s = String::from_str("InvalidTip(");
                let t = debug_str(e.as_str());
                s.append(t.as_str());
                s.append(")");
                assert(s@ == self.debug_rendered(t@));
                s
            },
            BlockchainError::Unsupported(e) => {
                let mut s = String::from_str("Unsupported(");
                let t = debug_str(e);
                s.append(t.as_str());
                s.append(")");
                assert(s@ == self.debug_rendered(t@));
                s
            },
            BlockchainError::OperationOverflow(_) => String::from_str("OperationOverflow(ChainWorkOverflow)"),
        };
        proof {
            if !self.renders_opaque() {
                assert(s@ == self.debug_rendered(Seq::empty()));
            }
        }
        s
    }

    /// The rendered message of the error, where `inner` is the rendering of
    /// the wrapped accumulator or database error (unused for other variants).
    pub open spec fn rendered(&self, inner: Seq<char>) -> Seq<char> {
        match self {
            BlockchainError::BlockNotPresent => "The block is not present in the ChainState"@,
            BlockchainError::OrphanOrInvalidBlock => "The block was orphaned or is invalid"@,
            BlockchainError::BlockValidation(e) => "Failed to validate the block: "@ + e.rendered(),
            BlockchainError::TransactionError(e) => "The block contains invalid transaction(s): "@
                + e.rendered(),
            BlockchainError::InvalidUtreexoProof => "The Utreexo proof for this block is invalid"@,
            BlockchainError::AccumulatorError(_) =>
                "Error whilst interacting with the accumulator: "@ + inner,
            BlockchainError::UtreexoLeaf(e) =>
                "Failed to reconstruct a scriptpubkey from Compact Leaf Data: "@ + e.reason@,
            BlockchainError::Database(_) => "Error whilst interacting with the the ChainState: "@
                + inner,
            BlockchainError::ChainNotInitialized => "The ChainState is not initialized"@,
            BlockchainError::InvalidTip(e) => "The ChainState's tip is invalid: "@ + e@,
            BlockchainError::BadValidationIndex => "The ChainState's validation index is invalid"@,
            BlockchainError::OperationOverflow(_) => "A ChainState operation overflowed"@,
            BlockchainError::Unsupported(op) => "Operation not supported: "@ + op@,
        }
    }

    /// Whether the rendering depends on a wrapped error whose text is not known here.
    pub open spec fn renders_opaque(&self) -> bool {
        self is AccumulatorError || self is Database
    }

    /// Renders the error.
    pub fn to_string(&self) -> (s: String)
        ensures
            exists|inner: Seq<char>| s@ == self.rendered(inner),
            !self.renders_opaque() ==> s@ == self.rendered(Seq::empty()),
    {
        let s = match self {
            BlockchainError::BlockNotPresent => String::from_str(
                "The block is not present in the ChainState",
            ),
            BlockchainError::OrphanOrInvalidBlock => String::from_str(
                "The block was orphaned or is invalid",
            ),
            BlockchainError::BlockValidation(e) => {
                let mut s = String::from_str("Failed to validate the block: ");
                let t = e.to_string();
                s.append(t.as_str());
                s
            },
            BlockchainError::TransactionError(e) => {
                let mut s = String::from_str("The block contains invalid transaction(s): ");
                let t = e.to_string();
                s.append(t.as_str());
                s
            },
            BlockchainError::InvalidUtreexoProof => String::from_str(
                "The Utreexo proof for this block is invalid",
            ),
            BlockchainError::AccumulatorError(e) => {
                let mut s = String::from_str("Error whilst interacting with the accumulator: ");
                let t = stump_error_debug(e);
                s.append(t.as_str());
                assert(s@ == self.rendered(t@));
                s
            },
            BlockchainError::UtreexoLeaf(e) => {
                let mut s = String::from_str(
                    "Failed to reconstruct a scriptpubkey from Compact Leaf Data: ",
                );
                s.append(e.reason.as_str());
                s
            },
            BlockchainError::Database(e) => {
                let mut s = String::from_str("Error whilst interacting with the the ChainState: ");
                let t = e.describe();
                s.append(t.as_str());
                assert(s@ == self.rendered(t@));
                s
            },
            BlockchainError::ChainNotInitialized => String::from_str(
                "The ChainState is not initialized",
            ),
            BlockchainError::InvalidTip(e) => {
                let mut s = String::from_str("The ChainState's tip is invalid: ");
                s.append(e.as_str());
                s
            },
            BlockchainError::BadValidationIndex => String::from_str(
                "The ChainState's validation index is invalid",
            ),
            BlockchainError::OperationOverflow(_) => String::from_str(
                "A ChainState operation overflowed",
            ),
            BlockchainError::Unsupported(op) => {
                let mut s = String::from_str("Operation not supported: ");
                s.append(op);
                s
            },
        };
        proof {
            if !self.renders_opaque() {
                assert(s@ == self.rendered(Seq::empty()));
            }
        }
        s
    }

    /// The wrapped failure, for the variants that wrap one whose cause can
    /// be followed: a validation failure, an invalid transaction, a bad
    /// compact leaf or a chain-work overflow.
    pub fn source(&self) -> (r: Option<ErrorSource<'_>>)
        ensures
            match self {
                BlockchainError::BlockValidation(e) => r == Some(ErrorSource::BlockValidation(e)),
                BlockchainError::TransactionError(e) => r == Some(
                    ErrorSource::TransactionError(e),
                ),
                BlockchainError::UtreexoLeaf(e) => r == Some(ErrorSource::UtreexoLeaf(e)),
                BlockchainError::OperationOverflow(e) => r == Some(
                    ErrorSource::OperationOverflow(e),
                ),
                _ => r is None,
            },
    {
        match self {
            BlockchainError::BlockValidation(e) => Some(ErrorSource::BlockValidation(e)),
            BlockchainError::TransactionError(e) => Some(ErrorSource::TransactionError(e)),
            BlockchainError::UtreexoLeaf(e) => Some(ErrorSource::UtreexoLeaf(e)),
            BlockchainError::OperationOverflow(e) => Some(ErrorSource::OperationOverflow(e)),
            BlockchainError::BlockNotPresent
            | BlockchainError::OrphanOrInvalidBlock
            | BlockchainError::InvalidUtreexoProof
            | BlockchainError::AccumulatorError(_)
            | BlockchainError::Database(_)
            | BlockchainError::ChainNotInitialized
            | BlockchainError::InvalidTip(_)
            | BlockchainError::BadValidationIndex
            | BlockchainError::Unsupported(_) => None,
        }
    }

    /// Wraps a failure of the chain store.
    pub fn from_database_error<T: DatabaseError + 'static>(value: T) -> (r: BlockchainError)
        ensures
            r is Database,
    {
        BlockchainError::Database(Box::new(value))
    }
}

/// The failure wrapped by a [`BlockchainError`], from which its cause can be followed.
#[derive(Debug)]
pub enum ErrorSource<'a> {
    BlockValidation(&'a BlockValidationErrors),
    TransactionError(&'a TransactionError),
    UtreexoLeaf(&'a UtreexoLeafError),
    OperationOverflow(&'a ChainWorkOverflow),
}

impl<T: DatabaseError + 'static> From<T> for BlockchainError {
    /// Wraps a failure of the chain store.
    fn from(value: T) -> (r: BlockchainError)
        ensures
            r is Database,
    {
        BlockchainError::from_database_error(value)
    }
}

impl<T: DatabaseError + 'static> vstd::std_specs::convert::FromSpecImpl<T> for BlockchainError {
    /// The boxed store failure has no spec value to name here; the
    /// conversion's own `ensures` states that it yields a `Database` error.
    open spec fn obeys_from_spec() -> bool {
        false
    }

    open spec fn from_spec(value: T) -> BlockchainError {
        vstd::pervasive::arbitrary()
    }
}

impl From<ChainWorkOverflow> for BlockchainError {
    fn from(e: ChainWorkOverflow) -> (r: BlockchainError) {
        BlockchainError::OperationOverflow(e)
    }
}

impl vstd::std_specs::convert::FromSpecImpl<ChainWorkOverflow> for BlockchainError {
    open spec fn obeys_from_spec() -> bool {
        true
    }

    open spec fn from_spec(e: ChainWorkOverflow) -> BlockchainError {
        BlockchainError::OperationOverflow(e)
    }
}

impl From<TransactionError> for BlockchainError {
    fn from(e: TransactionError) -> (r: BlockchainError) {
        BlockchainError::TransactionError(e)
    }
}

impl vstd::std_specs::convert::FromSpecImpl<TransactionError> for BlockchainError {
    open spec fn obeys_from_spec() -> bool {
        true
    }

    open spec fn from_spec(e: TransactionError) -> BlockchainError {
        BlockchainError::TransactionError(e)
    }
}

impl From<BlockValidationErrors> for BlockchainError {
    fn from(e: BlockValidationErrors) -> (r: BlockchainError) {
        BlockchainError::BlockValidation(e)
    }
}

impl vstd::std_specs::convert::FromSpecImpl<BlockValidationErrors> for BlockchainError {
    open spec fn obeys_from_spec() -> bool {
        true
    }

    open spec fn from_spec(e: BlockValidationErrors) -> BlockchainError {
        BlockchainError::BlockValidation(e)
    }
}

impl From<rustreexo::stump::StumpError> for BlockchainError {
    fn from(e: rustreexo::stump::StumpError) -> (r: BlockchainError) {
        BlockchainError::AccumulatorError(e)
    }
}

impl vstd::std_specs::convert::FromSpecImpl<rustreexo::stump::StumpError> for BlockchainError {
    open spec fn obeys_from_spec() -> bool {
        true
    }

    open spec fn from_spec(e: rustreexo::stump::StumpError) -> BlockchainError {
        BlockchainError::AccumulatorError(e)
    }
}

} // verus!
