//! The on-disk layout of the flat compact-filter store.
//!
//! The filter file starts with the height the store has reached (a
//! little-endian `u32`), followed by one record per filter: the block
//! height and the filter length as little-endian `u32`s, then the filter
//! bytes. A companion index file holds, for every block height that is a
//! multiple of [`CHECKPOINT_INTERVAL`], the file offset of that block's
//! record as a little-endian `u64`, at position `(height / interval) * 8`.

use vstd::prelude::*;
use vstd::bytes::*;
use vstd::slice::slice_subrange;
use crate::text::{debug_quoted, debug_str, decimal, push_decimal};

verus! {

/// The largest filter, in bytes, that the store accepts.
pub const MAX_FILTER_SIZE: u32 = 1_000_000;

/// Every block height that is a multiple of this has an index entry.
pub const CHECKPOINT_INTERVAL: u32 = 50_000;

/// The size of one index entry, in bytes.
pub const INDEX_ENTRY_SIZE: u64 = 8;

/// The size of the height header at the start of the filter file, in bytes.
pub const HEIGHT_HEADER_SIZE: u64 = 4;

/// The size of the header of one filter record, in bytes.
pub const RECORD_HEADER_SIZE: usize = 8;

#[verifier::external_type_specification]
#[verifier::external_body]
pub struct ExIoError(std::io::Error);

#[verifier::external_type_specification]
#[verifier::external_body]
pub struct ExBip158Error(bitcoin::bip158::Error);

/// A failure of a compact-filter store.
#[derive(Debug)]
pub enum IterableFilterStoreError {
    /// Reading or writing the store failed.
    Io(std::io::Error),
    /// Another thread panicked while holding the store.
    PoisonedLock,
    /// The filter is larger than [`MAX_FILTER_SIZE`].
    OversizedBlockFilter,
    /// The chain does not know the block at `height`; holds the chain's message.
    BlockNotFound { height: u32, source: String },
    /// A stored filter could not be read.
    Filter(bitcoin::bip158::Error),
    /// A stored filter declares more elements than a filter can be matched
    /// with, or is longer than a record can hold.
    MalformedFilter,
}

/// Renders an I/O error with `std`'s `Debug`; nothing is stated of the text.
#[verifier::external_body]
pub(crate) fn io_error_debug(e: &std::io::Error) -> String {
    format!("{:?}", e)
}

/// Renders a filter failure with `bitcoin`'s derived `Debug`; nothing is
/// stated of the text.
#[verifier::external_body]
fn bip158_error_debug(e: &bitcoin::bip158::Error) -> String {
    format!("{:?}", e)
}

impl IterableFilterStoreError {
    /// Whether the debug form shows a wrapped I/O or filter failure, whose
    /// text is not stated here.
    pub open spec fn debug_opaque(&self) -> bool {
        self is Io || self is Filter
    }

    /// How the error reads in debug output, as a derived `Debug` writes it,
    /// where `inner` is the debug form of a wrapped I/O or filter failure
    /// (unused for other variants).
    pub open spec fn debug_rendered(&self, inner: Seq<char>) -> Seq<char> {
        match self {
            IterableFilterStoreError::Io(_) => "Io("@ + inner + ")"@,
            IterableFilterStoreError::PoisonedLock => "PoisonedLock"@,
            IterableFilterStoreError::OversizedBlockFilter => "OversizedBlockFilter"@,
            IterableFilterStoreError::BlockNotFound { height, source } => "BlockNotFound { height: "@
                + decimal(*height as nat) + ", source: "@ + debug_quoted(source@) + " }"@,
            IterableFilterStoreError::Filter(_) => "Filter("@ + inner + ")"@,
            IterableFilterStoreError::MalformedFilter => "MalformedFilter"@,
        }
    }

    /// Renders the error as a derived `Debug` does.
    pub fn debug_string(&self) -> (s: String)
        ensures
            exists|inner: Seq<char>| s@ == self.debug_rendered(inner),
            !self.debug_opaque() ==> s@ == self.debug_rendered(Seq::empty()),
    {
        let s = match self {
            IterableFilterStoreError::Io(e) => {
                let mut s = String::from_str("Io(");
                let t = io_error_debug(e);
                s.append(t.as_str());
                s.append(")");
                assert(s@ == self.debug_rendered(t@));
                s
            },
            IterableFilterStoreError::PoisonedLock => String::from_str("PoisonedLock"),
            IterableFilterStoreError::OversizedBlockFilter => String::from_str("OversizedBlockFilter"),
            IterableFilterStoreError::BlockNotFound { height, source } => {
                let mut s = String::from_str("BlockNotFound { height: ");
                push_decimal(&mut s, *height as u64);
                s.append(", source: ");
                let t = debug_str(source.as_str());
                s.append(t.as_str());
                s.append(" }");
                s
            },
            IterableFilterStoreError::Filter(e) => {
                let mut s = String::from_str("Filter(");
                let t = bip158_error_debug(e);
                s.append(t.as_str());
                s.append(")");
                assert(s@ == self.debug_rendered(t@));
                s
            },
            IterableFilterStoreError::MalformedFilter => String::from_str("MalformedFilter"),
        };
        proof {
            if !self.debug_opaque() {
                assert(s@ == self.debug_rendered(Seq::empty()));
            }
        }
        s
    }
}

/// `n` truncated to its low 32 bits, as `as u32` does.
pub open spec fn low32(n: nat) -> nat {
    n % 0x1_0000_0000
}

/// The bytes of one filter record.
pub open spec fn record_bytes(height: u32, content: Seq<u8>) -> Seq<u8> {
    spec_u32_to_le_bytes(height) + spec_u32_to_le_bytes(low32(content.len()) as u32) + content
}

/// Whether a filter of `len` bytes is refused; the length is taken as a `u32`.
pub open spec fn oversized(len: nat) -> bool {
    low32(len) > MAX_FILTER_SIZE
}

/// The first record at the start of `buf`, with the number of bytes it
/// takes, or `None` when `buf` is too short to hold a whole record.
pub open spec fn first_record(buf: Seq<u8>) -> Option<(u32, Seq<u8>, nat)> {
    if buf.len() < 8 {
        None
    } else {
        let height = spec_u32_from_le_bytes(buf.subrange(0, 4));
        let len = spec_u32_from_le_bytes(buf.subrange(4, 8)) as int;
        if buf.len() < 8 + len {
            None
        } else {
            Some((height, buf.subrange(8, 8 + len), (8 + len) as nat))
        }
    }
}

/// The index position of a block's record, for a height that has one.
pub open spec fn checkpoint_slot(height: u32) -> Option<u64> {
    if height % CHECKPOINT_INTERVAL == 0 {
        Some(((height / CHECKPOINT_INTERVAL) * 8) as u64)
    } else {
        None
    }
}

/// The index position that a rescan from `start_height` reads: that of the
/// last checkpoint at or below it, the height taken as a `u32`.
pub open spec fn rescan_slot(start_height: Option<usize>) -> u64 {
    let start: int = match start_height {
        Some(h) => low32(h as nat) as int,
        None => 0,
    };
    (((start - start % (CHECKPOINT_INTERVAL as int)) / (CHECKPOINT_INTERVAL as int)) * 8) as u64
}

/// Encodes a filter as a record for the block at `height`; filters larger
/// than [`MAX_FILTER_SIZE`] are refused.
pub fn encode_filter_record(content: &[u8], height: u32) -> (r: Result<
    Vec<u8>,
    IterableFilterStoreError,
>)
    ensures
        oversized(content@.len()) ==> r matches Err(IterableFilterStoreError::OversizedBlockFilter),
        !oversized(content@.len()) ==> (r matches Ok(bytes) && bytes@ == record_bytes(
            height,
            content@,
        )),
{
    let n = content.len();
    let length = n as u32;
    assert(length == (n as u64) % 0x1_0000_0000) by (bit_vector)
        requires
            length == n as u32,
    ;
    if length > MAX_FILTER_SIZE {
        return Err(IterableFilterStoreError::OversizedBlockFilter);
    }
    let mut out = u32_to_le_bytes(height);
    let mut len_bytes = u32_to_le_bytes(length);
    let mut body = vstd::slice::slice_to_vec(content);
    out.append(&mut len_bytes);
    out.append(&mut body);
    Ok(out)
}

/// Decodes the record at the start of `buf`, with the number of bytes it
/// takes; `None` when `buf` ends before the record does.
pub fn decode_filter_record(buf: &[u8]) -> (r: Option<(u32, Vec<u8>, usize)>)
    ensures
        match first_record(buf@) {
            None => r is None,
            Some((h, content, n)) => r matches Some((h2, c2, n2)) && h2 == h && c2@ == content
                && n2 == n,
        },
{
    if buf.len() < RECORD_HEADER_SIZE {
        return None;
    }
    let height = u32_from_le_bytes(slice_subrange(buf, 0, 4));
    let length = u32_from_le_bytes(slice_subrange(buf, 4, 8)) as usize;
    if buf.len() - 8 < length {
        return None;
    }
    let content = vstd::slice::slice_to_vec(slice_subrange(buf, 8, 8 + length));
    Some((height, content, 8 + length))
}

/// The height of the block header and the filter length of a record,
/// from its first eight bytes.
pub fn decode_record_header(header: &[u8]) -> (r: (u32, u32))
    requires
        header@.len() == RECORD_HEADER_SIZE,
    ensures
        r.0 == spec_u32_from_le_bytes(header@.subrange(0, 4)),
        r.1 == spec_u32_from_le_bytes(header@.subrange(4, 8)),
{
    (
        u32_from_le_bytes(slice_subrange(header, 0, 4)),
        u32_from_le_bytes(slice_subrange(header, 4, 8)),
    )
}

/// The height header written at the start of the filter file.
pub fn encode_height(height: u32) -> (r: Vec<u8>)
    ensures
        r@ == spec_u32_to_le_bytes(height),
{
    u32_to_le_bytes(height)
}

/// The height recorded in the first four bytes of the filter file, or
/// `None` when the file is shorter than that.
pub fn decode_height(buf: &[u8]) -> (r: Option<u32>)
    ensures
        buf@.len() < 4 ==> r is None,
        buf@.len() >= 4 ==> r == Some(spec_u32_from_le_bytes(buf@.subrange(0, 4))),
{
    if buf.len() < 4 {
        None
    } else {
        Some(u32_from_le_bytes(slice_subrange(buf, 0, 4)))
    }
}

/// An index entry: the file offset of a record.
pub fn encode_index_entry(offset: u64) -> (r: Vec<u8>)
    ensures
        r@ == spec_u64_to_le_bytes(offset),
{
    u64_to_le_bytes(offset)
}

/// The file offset held by an index entry.
pub fn decode_index_entry(entry: &[u8]) -> (r: u64)
    requires
        entry@.len() == INDEX_ENTRY_SIZE,
    ensures
        r == spec_u64_from_le_bytes(entry@),
{
    u64_from_le_bytes(entry)
}

/// The index position of the record of the block at `height`, when its
/// height is a multiple of [`CHECKPOINT_INTERVAL`].
pub fn checkpoint_index_position(height: u32) -> (r: Option<u64>)
    ensures
        r == checkpoint_slot(height),
{
    if height % CHECKPOINT_INTERVAL == 0 {
        let slot = (height / CHECKPOINT_INTERVAL) as u64 * INDEX_ENTRY_SIZE;
        Some(slot)
    } else {
        None
    }
}

/// The index position that a rescan from `start_height` reads; no height
/// means the start of the chain, and the height is taken as a `u32`.
pub fn rescan_index_position(start_height: Option<usize>) -> (r: u64)
    ensures
        r == rescan_slot(start_height),
{
    let start: u32 = match start_height {
        Some(h) => {
            let s = h as u32;
            assert(s == (h as u64) % 0x1_0000_0000) by (bit_vector)
                requires
                    s == h as u32,
            ;
            s
        },
        None => 0,
    };
    let checkpoint = start - (start % CHECKPOINT_INTERVAL);
    (checkpoint / CHECKPOINT_INTERVAL) as u64 * INDEX_ENTRY_SIZE
}

/// A record read back from where it was written gives the filter and
/// height that were written, and its length tells where the next record
/// starts.
pub proof fn lemma_record_round_trip(height: u32, content: Seq<u8>, rest: Seq<u8>)
    requires
        content.len() <= MAX_FILTER_SIZE,
    ensures
        !oversized(content.len()),
        first_record(record_bytes(height, content) + rest) == Some(
            (height, content, (8 + content.len()) as nat),
        ),
{
    lemma_auto_spec_u32_to_from_le_bytes();
    let len32 = low32(content.len()) as u32;
    assert(len32 == content.len());
    let buf = record_bytes(height, content) + rest;
    assert(buf.subrange(0, 4) =~= spec_u32_to_le_bytes(height));
    assert(buf.subrange(4, 8) =~= spec_u32_to_le_bytes(len32));
    assert(buf.subrange(8, 8 + content.len() as int) =~= content);
}

/// The height header reads back as the height that was written.
pub proof fn lemma_height_round_trip(height: u32, rest: Seq<u8>)
    ensures
        spec_u32_from_le_bytes((spec_u32_to_le_bytes(height) + rest).subrange(0, 4)) == height,
{
    lemma_auto_spec_u32_to_from_le_bytes();
    assert((spec_u32_to_le_bytes(height) + rest).subrange(0, 4) =~= spec_u32_to_le_bytes(height));
}

/// An index entry reads back as the offset that was written.
pub proof fn lemma_index_entry_round_trip(offset: u64)
    ensures
        spec_u64_from_le_bytes(spec_u64_to_le_bytes(offset)) == offset,
{
    lemma_auto_spec_u64_to_from_le_bytes();
}

/// A rescan from any height reads the index entry of the last checkpoint
/// at or below that height, and a rescan from a checkpoint reads that
/// checkpoint's own entry.
pub proof fn lemma_rescan_reads_checkpoint(start_height: usize)
    requires
        start_height <= u32::MAX,
    ensures
        checkpoint_slot(
            (start_height as int - start_height as int % (CHECKPOINT_INTERVAL as int)) as u32,
        ) == Some(rescan_slot(Some(start_height))),
        start_height as int % (CHECKPOINT_INTERVAL as int) == 0 ==> checkpoint_slot(
            start_height as u32,
        ) == Some(rescan_slot(Some(start_height))),
{
    let s = start_height as int;
    assert(low32(s as nat) == s);
    let c = s - s % 50000;
    assert(c % 50000 == 0) by (nonlinear_arith)
        requires
            c == s - s % 50000,
            s >= 0,
    ;
}

/// The bytes of a file after writing `bytes` at position `pos`: what lay
/// there is overwritten, the file grows as needed, and a gap between its
/// old end and `pos` reads as zeros.
pub open spec fn write_at(file: Seq<u8>, pos: nat, bytes: Seq<u8>) -> Seq<u8> {
    let head = if pos <= file.len() {
        file.take(pos as int)
    } else {
        file + Seq::new((pos - file.len()) as nat, |i: int| 0u8)
    };
    let tail = if pos + bytes.len() <= file.len() {
        file.skip((pos + bytes.len()) as int)
    } else {
        Seq::empty()
    };
    head + bytes + tail
}

/// After the filter of a checkpoint block is stored (its record appended
/// at the end of the filter file, the record's offset written to the
/// block's index entry), a rescan that starts at that block reads back
/// from the index the offset of that record, and the record found there is
/// the block's height and filter.
pub proof fn lemma_rescan_finds_stored_checkpoint(
    file: Seq<u8>,
    index: Seq<u8>,
    height: u32,
    content: Seq<u8>,
)
    requires
        height % CHECKPOINT_INTERVAL == 0,
        content.len() <= MAX_FILTER_SIZE,
        file.len() <= u64::MAX,
    ensures
        ({
            let slot = checkpoint_slot(height).unwrap();
            let new_index = write_at(index, slot as nat, spec_u64_to_le_bytes(file.len() as u64));
            let new_file = file + record_bytes(height, content);
            let read_slot = rescan_slot(Some(height as usize));
            &&& read_slot == slot
            &&& spec_u64_from_le_bytes(new_index.subrange(read_slot as int, read_slot + 8))
                == file.len()
            &&& first_record(new_file.skip(file.len() as int)) == Some(
                (height, content, (8 + content.len()) as nat),
            )
        }),
{
    let slot = checkpoint_slot(height).unwrap();
    let entry = spec_u64_to_le_bytes(file.len() as u64);
    lemma_auto_spec_u64_to_from_le_bytes();
    assert(entry.len() == 8);
    let new_index = write_at(index, slot as nat, entry);
    assert(new_index.subrange(slot as int, slot + 8) =~= entry);
    lemma_rescan_reads_checkpoint(height as usize);
    assert(height as int % (CHECKPOINT_INTERVAL as int) == 0);
    lemma_record_round_trip(height, content, Seq::empty());
    let new_file = file + record_bytes(height, content);
    assert(new_file.skip(file.len() as int) =~= record_bytes(height, content) + Seq::<u8>::empty());
}

} // verus!
