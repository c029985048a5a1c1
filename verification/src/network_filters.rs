//! Compact block filters for the whole chain, kept in a filter store.

use vstd::prelude::*;
use vstd::bytes::*;
use vstd::slice::slice_subrange;
use crate::filter_store::{low32, rescan_slot, IterableFilterStoreError};

verus! {

#[verifier::external_type_specification]
#[verifier::external_body]
pub struct ExBlockFilter(bitcoin::bip158::BlockFilter);

/// Storage for compact block filters, read back in height order.
pub trait IterableFilterStore {
    /// What [`iter`](Self::iter) hands out.
    type I: Iterator<Item = (u32, bitcoin::bip158::BlockFilter)>;

    /// Records the height the store has reached.
    fn set_height(&self, height: u32) -> Result<(), IterableFilterStoreError>;

    /// The height the store has reached.
    fn get_height(&self) -> Result<u32, IterableFilterStoreError>;

    /// The stored filters with their block heights, from the checkpoint at
    /// or below `start_height`.
    fn iter(&self, start_height: Option<usize>) -> Result<Self::I, IterableFilterStoreError>;

    /// Stores the filter of the block at `height`.
    fn put_filter(
        &self,
        block_filter: bitcoin::bip158::BlockFilter,
        height: u32,
    ) -> Result<(), IterableFilterStoreError>;
}

/// The compact block filters of the network, over a filter store.
pub struct NetworkFilters<Storage: IterableFilterStore> {
    filters: Storage,
}

/// A block height as the store's `iter` takes it.
pub open spec fn widen_height(start_height: Option<u32>) -> Option<usize> {
    match start_height {
        Some(n) => Some(n as usize),
        None => None,
    }
}

impl<Storage: IterableFilterStore> NetworkFilters<Storage> {
    /// The underlying store.
    pub closed spec fn store(&self) -> Storage {
        self.filters
    }

    /// Wraps a filter store, setting its height to zero when it cannot
    /// report one yet; fails only when that initial height cannot be written.
    pub fn new(filters: Storage) -> (r: Result<Self, IterableFilterStoreError>)
        ensures
            r matches Ok(nf) ==> nf.store() == filters,
            r is Ok ==> (exists|g: Result<u32, IterableFilterStoreError>|
                call_ensures(Storage::get_height, (&filters,), g) && g is Ok) || ((exists|
                g: Result<u32, IterableFilterStoreError>,
            | call_ensures(Storage::get_height, (&filters,), g) && g is Err) && (exists|
                s: Result<(), IterableFilterStoreError>,
            | call_ensures(Storage::set_height, (&filters, 0u32), s) && s is Ok)),
            r matches Err(e) ==> (exists|g: Result<u32, IterableFilterStoreError>|
                call_ensures(Storage::get_height, (&filters,), g) && g is Err) && call_ensures(
                Storage::set_height,
                (&filters, 0u32),
                Err::<(), IterableFilterStoreError>(e),
            ),
            (forall|g: Result<u32, IterableFilterStoreError>|
                call_ensures(Storage::get_height, (&filters,), g) ==> g is Ok) ==> r is Ok,
            (forall|s: Result<(), IterableFilterStoreError>|
                call_ensures(Storage::set_height, (&filters, 0u32), s) ==> s is Ok) ==> r is Ok,
    {
        let current = filters.get_height();
        if current.is_err() {
            match filters.set_height(0) {
                Ok(()) => {},
                Err(e) => {
                    return Err(e);
                },
            }
        }
        Ok(NetworkFilters { filters })
    }

    /// Stores the filter of the block at `height`: the outcome is the
    /// store's own for that filter and height.
    pub fn push_filter(&self, filter: bitcoin::bip158::BlockFilter, height: u32) -> (r: Result<
        (),
        IterableFilterStoreError,
    >)
        ensures
            call_ensures(Storage::put_filter, (&self.store(), filter, height), r),
    {
        self.filters.put_filter(filter, height)
    }

    /// The height the store has reached, as the store reports it.
    pub fn get_height(&self) -> (r: Result<u32, IterableFilterStoreError>)
        ensures
            call_ensures(Storage::get_height, (&self.store(),), r),
    {
        self.filters.get_height()
    }

    /// Records the height the store has reached: the outcome is the
    /// store's own for that height.
    pub fn save_height(&self, height: u32) -> (r: Result<(), IterableFilterStoreError>)
        ensures
            call_ensures(Storage::set_height, (&self.store(), height), r),
    {
        self.filters.set_height(height)
    }

    /// The stored filters, from the checkpoint at or below `start_height`:
    /// what the store's `iter` gives for that height, widened to `usize`.
    pub fn filters_from(&self, start_height: Option<u32>) -> (r: Result<
        Storage::I,
        IterableFilterStoreError,
    >)
        ensures
            call_ensures(Storage::iter, (&self.store(), widen_height(start_height)), r),
    {
        let start = match start_height {
            Some(n) => Some(n as usize),
            None => None,
        };
        self.filters.iter(start)
    }
}

/// Whether a BIP-158 filter with these bytes, for the block with this hash,
/// matches any of the queried elements (`None` when the filter cannot be read).
pub uninterp spec fn bip158_match_any(
    content: Seq<u8>,
    block_hash: Seq<u8>,
    query: Seq<Seq<u8>>,
) -> Option<bool>;

/// BIP-158's Golomb-Rice modulus `M`, by which a filter's element count
/// is multiplied when it is matched.
pub const BIP158_M: u64 = 784931;

/// The element count at the start of a filter, as `bitcoin` decodes it: a
/// compact-size integer (one byte below `0xfd`, or a marker byte followed
/// by a little-endian `u16`, `u32` or `u64`); zero when the bytes end too
/// early or the encoding is not minimal.
pub open spec fn filter_element_count(content: Seq<u8>) -> nat {
    if content.len() == 0 {
        0
    } else if content[0] == 0xff {
        if content.len() < 9 {
            0
        } else {
            let x = spec_u64_from_le_bytes(content.subrange(1, 9));
            if x < 0x1_0000_0000 {
                0
            } else {
                x as nat
            }
        }
    } else if content[0] == 0xfe {
        if content.len() < 5 {
            0
        } else {
            let x = spec_u32_from_le_bytes(content.subrange(1, 5));
            if x < 0x1_0000 {
                0
            } else {
                x as nat
            }
        }
    } else if content[0] == 0xfd {
        if content.len() < 3 {
            0
        } else {
            let x = spec_u16_from_le_bytes(content.subrange(1, 3));
            if x < 0xfd {
                0
            } else {
                x as nat
            }
        }
    } else {
        content[0] as nat
    }
}

/// Whether `bitcoin` can match a filter with these bytes without an
/// arithmetic overflow: its element count times [`BIP158_M`] fits in a
/// `u64`, and it is no longer than a record can hold.
pub open spec fn filter_matchable(content: Seq<u8>) -> bool {
    filter_element_count(content) * (BIP158_M as nat) <= u64::MAX && content.len() <= u32::MAX
}

/// The element count at the start of a filter.
pub fn element_count(content: &[u8]) -> (n: u64)
    ensures
        n == filter_element_count(content@),
{
    if content.len() == 0 {
        return 0;
    }
    let tag = content[0];
    if tag == 0xff {
        if content.len() < 9 {
            0
        } else {
            let x = u64_from_le_bytes(slice_subrange(content, 1, 9));
            if x < 0x1_0000_0000 {
                0
            } else {
                x
            }
        }
    } else if tag == 0xfe {
        if content.len() < 5 {
            0
        } else {
            let x = u32_from_le_bytes(slice_subrange(content, 1, 5));
            if x < 0x1_0000 {
                0
            } else {
                x as u64
            }
        }
    } else if tag == 0xfd {
        if content.len() < 3 {
            0
        } else {
            let x = u16_from_le_bytes(slice_subrange(content, 1, 3));
            if x < 0xfd {
                0
            } else {
                x as u64
            }
        }
    } else {
        tag as u64
    }
}

/// Whether a filter with these bytes can be matched.
pub fn is_matchable(content: &[u8]) -> (b: bool)
    ensures
        b == filter_matchable(content@),
{
    let n = element_count(content);
    let fits = n.checked_mul(BIP158_M).is_some();
    fits && content.len() as u64 <= u32::MAX as u64
}

/// Tests a BIP-158 filter against a query with `BlockFilter::match_any` of
/// the `bitcoin` crate; its outcome depends on the filter bytes, the block
/// hash and the query alone. `match_any` multiplies the filter's element
/// count by [`BIP158_M`] and adds up decoded gaps without overflow checks,
/// so the filter must be matchable.
#[verifier::external_body]
fn filter_match_any(content: &[u8], block_hash: &[u8; 32], query: &Vec<Vec<u8>>) -> (r: Result<
    bool,
    bitcoin::bip158::Error,
>)
    requires
        filter_matchable(content@),
    ensures
        match bip158_match_any(content@, block_hash@, query.deep_view()) {
            Some(b) => r matches Ok(x) && x == b,
            None => r is Err,
        },
{
    let filter = bitcoin::bip158::BlockFilter::new(content);
    let hash = <bitcoin::BlockHash as bitcoin::hashes::Hash>::from_byte_array(*block_hash);
    filter.match_any(&hash, query.iter().map(|q| q.as_slice()))
}

/// One step of a filter scan over the stored filter of the block at
/// `height`: `block_hash` is what the chain answered for that height. A
/// block the chain does not know ends the scan with
/// [`BlockNotFound`](IterableFilterStoreError::BlockNotFound) carrying the
/// chain's message; a matching filter adds the block's hash to `blocks`.
/// A filter that cannot be matched ends the scan with
/// [`MalformedFilter`](IterableFilterStoreError::MalformedFilter). The
/// result says whether the scan goes on: it stops once `height` reaches
/// `stop_height`.
pub fn match_filter(
    height: u32,
    block_hash: Result<[u8; 32], String>,
    filter: &[u8],
    query: &Vec<Vec<u8>>,
    stop_height: Option<u32>,
    blocks: &mut Vec<[u8; 32]>,
) -> (r: Result<bool, IterableFilterStoreError>)
    ensures
        match block_hash {
            Err(msg) => (r matches Err(IterableFilterStoreError::BlockNotFound { height: h, source })
                && h == height && source == msg) && final(blocks)@ == old(blocks)@,
            Ok(hash) => if !filter_matchable(filter@) {
                r matches Err(IterableFilterStoreError::MalformedFilter) && final(blocks)@
                    == old(blocks)@
            } else {
                match bip158_match_any(filter@, hash@, query.deep_view()) {
                None => r matches Err(IterableFilterStoreError::Filter(_)) && final(blocks)@
                    == old(blocks)@,
                Some(m) => r == Ok::<bool, IterableFilterStoreError>(
                    !(stop_height matches Some(s) && height >= s),
                ) && final(blocks)@ == (if m {
                    old(blocks)@.push(hash)
                } else {
                    old(blocks)@
                }),
                }
            },
        },
{
    let hash = match block_hash {
        Ok(hash) => hash,
        Err(source) => {
            return Err(IterableFilterStoreError::BlockNotFound { height, source });
        },
    };
    if !is_matchable(filter) {
        return Err(IterableFilterStoreError::MalformedFilter);
    }
    match filter_match_any(filter, &hash, query) {
        Ok(true) => blocks.push(hash),
        Ok(false) => {},
        Err(e) => {
            return Err(IterableFilterStoreError::Filter(e));
        },
    }
    match stop_height {
        Some(stop_at) => Ok(height < stop_at),
        None => Ok(true),
    }
}


/// A filter is refused as unmatchable only when matching it would
/// overflow: it is matchable exactly when its element count times
/// [`BIP158_M`] fits in a `u64` and its length fits in a `u32`.
pub proof fn lemma_matchable_iff_no_overflow(content: Seq<u8>)
    ensures
        filter_matchable(content) <==> (filter_element_count(content) * 784931 <= 0xffff_ffff_ffff_ffff
            && content.len() <= 0xffff_ffff),
{
}

/// Every filter that a record can hold and whose element count fits in a
/// `u32` is matchable: the count times [`BIP158_M`] is then below 2^52.
pub proof fn lemma_u32_counts_are_matchable(content: Seq<u8>)
    requires
        filter_element_count(content) <= 0xffff_ffff,
        content.len() <= 0xffff_ffff,
    ensures
        filter_matchable(content),
{
    let n = filter_element_count(content);
    assert(n * 784931 <= 0xffff_ffff * 784931) by (nonlinear_arith)
        requires
            n <= 0xffff_ffff,
    ;
}

/// A rescan from a given height starts at the checkpoint at or below it:
/// the height is handed to the store unchanged, and the flat store then
/// reads the index slot of the checkpoint `h - h % 50000`, which lies at
/// most 49,999 blocks below `h`.
pub proof fn lemma_filters_from_starts_at_checkpoint(h: u32)
    ensures
        widen_height(Some(h)) == Some(h as usize),
        rescan_slot(widen_height(Some(h))) == ((h - h % 50000) / 50000) * 8,
        h - h % 50000 <= h < h - h % 50000 + 50000,
        (h - h % 50000) % 50000 == 0,
{
    assert(low32(h as nat) == h as nat);
}

} // verus!
