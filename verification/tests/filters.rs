use floresta::filter_store::{
    checkpoint_index_position, decode_filter_record, decode_height, decode_index_entry,
    decode_record_header, encode_filter_record, encode_height, encode_index_entry,
    rescan_index_position, IterableFilterStoreError, MAX_FILTER_SIZE,
};
use floresta::network_filters::{element_count, is_matchable, match_filter};

#[test]
fn test_filter_store() {
    let mut file = encode_height(1);
    assert_eq!(decode_height(&file), Some(1));
    assert_eq!(decode_height(&[]), None);

    let record = encode_filter_record(&[10, 11, 12, 13], 1).ok().unwrap();
    file.extend_from_slice(&record);

    let (height, filter, used) = decode_filter_record(&file[4..]).unwrap();
    assert_eq!((height, filter), (1, vec![10, 11, 12, 13]));
    assert_eq!(decode_filter_record(&file[4 + used..]), None);
}

#[test]
fn propagates_oversized_block_filter() {
    let oversized = vec![0_u8; (MAX_FILTER_SIZE as usize) + 1];
    let err = encode_filter_record(&oversized, 1).unwrap_err();

    assert!(matches!(
        err,
        IterableFilterStoreError::OversizedBlockFilter
    ));
    assert!(encode_filter_record(&vec![0_u8; MAX_FILTER_SIZE as usize], 1).is_ok());
}

#[test]
fn propagates_block_not_found_from_chain() {
    let mut blocks = Vec::new();
    let err = match_filter(
        1,
        Err("this chain has no blocks".to_string()),
        &[1, 2, 3, 4],
        &vec![vec![1, 2, 3, 4]],
        None,
        &mut blocks,
    )
    .unwrap_err();

    match err {
        IterableFilterStoreError::BlockNotFound { height, source } => {
            assert_eq!(height, 1);
            assert!(!source.is_empty(), "the chain's own message must be preserved");
        }
        _ => panic!("expected BlockNotFound"),
    }
    assert!(blocks.is_empty());
}

#[test]
fn record_layout_is_little_endian() {
    let record = encode_filter_record(&[9], 0x0102_0304).ok().unwrap();
    assert_eq!(record, vec![4, 3, 2, 1, 1, 0, 0, 0, 9]);
    assert_eq!(decode_record_header(&record[..8]), (0x0102_0304, 1));
    assert_eq!(decode_filter_record(&record[..8]), None);
    assert_eq!(encode_index_entry(4), vec![4, 0, 0, 0, 0, 0, 0, 0]);
    assert_eq!(decode_index_entry(&encode_index_entry(123_456_789)), 123_456_789);
}

#[test]
fn checkpoints_every_fifty_thousand_blocks() {
    assert_eq!(checkpoint_index_position(0), Some(0));
    assert_eq!(checkpoint_index_position(50_000), Some(8));
    assert_eq!(checkpoint_index_position(150_000), Some(24));
    assert_eq!(checkpoint_index_position(150_001), None);
    assert_eq!(rescan_index_position(None), 0);
    assert_eq!(rescan_index_position(Some(149_999)), 16);
    assert_eq!(rescan_index_position(Some(150_000)), 24);
}

fn genesis_filter() -> (Vec<u8>, [u8; 32], Vec<u8>) {
    let genesis = bitcoin::constants::genesis_block(bitcoin::Network::Bitcoin);
    let filter = bitcoin::bip158::BlockFilter::new_script_filter(&genesis, |o| {
        Err::<bitcoin::ScriptBuf, _>(bitcoin::bip158::Error::UtxoMissing(*o))
    })
    .unwrap();
    let script = genesis.txdata[0].output[0].script_pubkey.to_bytes();
    (filter.content, <bitcoin::BlockHash as bitcoin::hashes::Hash>::to_byte_array(genesis.block_hash()), script)
}

#[test]
fn matching_filter_collects_the_block() {
    let (filter, hash, script) = genesis_filter();
    let mut blocks = Vec::new();
    let go_on = match_filter(0, Ok(hash), &filter, &vec![script.clone()], None, &mut blocks).ok().unwrap();
    assert!(go_on);
    assert_eq!(blocks, vec![hash]);

    let stop = match_filter(5, Ok(hash), &filter, &vec![vec![0xde, 0xad]], Some(5), &mut blocks).ok().unwrap();
    assert!(!stop);
    assert_eq!(blocks.len(), 1);
}

#[test]
fn rescan_finds_stored_checkpoint() {
    let mut file = encode_height(50_000);
    let mut index = encode_index_entry(4);
    let offset = file.len() as u64;

    let slot = checkpoint_index_position(50_000).unwrap() as usize;
    index.resize(slot, 0);
    index.extend_from_slice(&encode_index_entry(offset));
    file.extend_from_slice(&encode_filter_record(&[7, 7, 7], 50_000).ok().unwrap());

    let read_slot = rescan_index_position(Some(50_000)) as usize;
    assert_eq!(read_slot, slot);
    let start = decode_index_entry(&index[read_slot..read_slot + 8]) as usize;
    assert_eq!(start, 4);
    let (height, filter, _) = decode_filter_record(&file[start..]).unwrap();
    assert_eq!((height, filter), (50_000, vec![7, 7, 7]));
}

#[test]
fn filter_with_an_oversized_count_is_malformed() {
    let filter = [0xffu8; 9];
    assert_eq!(element_count(&filter), u64::MAX);
    assert!(!is_matchable(&filter));
    let mut blocks = Vec::new();
    let err = match_filter(3, Ok([7u8; 32]), &filter, &vec![vec![1, 2]], None, &mut blocks).unwrap_err();
    assert!(matches!(err, IterableFilterStoreError::MalformedFilter));
    assert!(blocks.is_empty());
}

#[test]
fn element_count_reads_compact_sizes() {
    assert_eq!(element_count(&[]), 0);
    assert_eq!(element_count(&[0x05, 0xaa]), 5);
    assert_eq!(element_count(&[0xfd, 0x00, 0x01]), 256);
    assert_eq!(element_count(&[0xfd, 0x10, 0x00]), 0);
    assert_eq!(element_count(&[0xfe, 0x00, 0x00, 0x01, 0x00]), 65536);
    assert_eq!(element_count(&[0xfe, 0x01]), 0);
    assert!(is_matchable(&[0xfd, 0x00, 0x01]));
}
