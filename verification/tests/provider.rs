//! Tests of the L1 origin lookup.

use std::sync::Arc;

use alloy_transport::{TransportError, TransportErrorKind};
use sequencer_origin::header::Header;
use sequencer_origin::origin::{L1OriginSelectorError, PreparedL1Origin};
use sequencer_origin::primitives::{same_hash, BlockInfo, B256};
use sequencer_origin::provider::{
    DelayedL1OriginSelectorProvider, HeaderStep, L1OriginSelectorProvider, OriginLookup,
    PendingOrigin,
};
use sequencer_origin::receipt::{Eip658Value, Log, Receipt};

fn from_alloy(header: &alloy_consensus::Header) -> Header {
    Header {
        parent_hash: header.parent_hash.0,
        ommers_hash: header.ommers_hash.0,
        beneficiary: header.beneficiary.0 .0,
        state_root: header.state_root.0,
        transactions_root: header.transactions_root.0,
        receipts_root: header.receipts_root.0,
        logs_bloom: header.logs_bloom.0 .0,
        difficulty: header.difficulty.to_be_bytes(),
        number: header.number,
        gas_limit: header.gas_limit,
        gas_used: header.gas_used,
        timestamp: header.timestamp,
        extra_data: header.extra_data.to_vec(),
        mix_hash: header.mix_hash.0,
        nonce: header.nonce.0,
        base_fee_per_gas: header.base_fee_per_gas,
        withdrawals_root: header.withdrawals_root.map(|root| root.0),
        blob_gas_used: header.blob_gas_used,
        excess_blob_gas: header.excess_blob_gas,
        parent_beacon_block_root: header.parent_beacon_block_root.map(|root| root.0),
        requests_hash: header.requests_hash.map(|hash| hash.0),
    }
}

fn header_at(number: u64) -> Header {
    from_alloy(&alloy_consensus::Header { number, timestamp: 12 * number, ..Default::default() })
}

fn receipt(gas: u64) -> Receipt {
    Receipt {
        status: Eip658Value::Eip658(true),
        cumulative_gas_used: gas,
        logs: vec![Log { address: [7; 20], topics: vec![[1; 32], [2; 32]], data: vec![3, 4] }],
    }
}

fn head(number: u64) -> Option<BlockInfo> {
    Some(BlockInfo { hash: [9; 32], number, parent_hash: [8; 32], timestamp: number.wrapping_mul(12) })
}

fn pending(step: HeaderStep) -> PendingOrigin {
    match step {
        HeaderStep::FetchReceipts(pending) => pending,
        HeaderStep::Finished(end) => panic!("the lookup ended with {end:?}"),
    }
}

fn finished(step: HeaderStep) -> Result<Option<PreparedL1Origin>, L1OriginSelectorError> {
    match step {
        HeaderStep::Finished(end) => end,
        HeaderStep::FetchReceipts(pending) => panic!("the lookup goes on with {pending:?}"),
    }
}

fn provider_message(error: L1OriginSelectorError) -> String {
    match error {
        L1OriginSelectorError::Provider(error) => error.to_string(),
        L1OriginSelectorError::ReceiptsUnavailable(hash) => panic!("no receipts of {hash:?}"),
    }
}

fn transport_error() -> TransportError {
    TransportErrorKind::backend_gone()
}

#[test]
fn header_hash_of_the_ethereum_genesis_block() {
    let header = Header {
        state_root: "d7f8974fb5ac78d9ac099b9ad5018bedc2ce0a72dad1827a1709da30580f0544"
            .parse::<alloy_primitives::B256>()
            .unwrap()
            .0,
        difficulty: alloy_primitives::U256::from(17_179_869_184u64).to_be_bytes(),
        gas_limit: 5000,
        extra_data: "11bbe8db4e347b4e8c937c1c8370e4b5ed33adb3db69cbdb7a38e1e50b1b82fa"
            .parse::<alloy_primitives::Bytes>()
            .unwrap()
            .to_vec(),
        nonce: [0, 0, 0, 0, 0, 0, 0, 0x42],
        ..header_at(0)
    };
    let expected = "d4e56740f876aef8c010b86a40d5f56745a118d0906a34e69aec8c0db1cb8fa3"
        .parse::<alloy_primitives::B256>()
        .unwrap();
    assert_eq!(header.hash_slow(), expected.0);
}

#[test]
fn header_hash_covers_every_field() {
    let full = Header {
        parent_hash: [1; 32],
        ommers_hash: [2; 32],
        beneficiary: [3; 20],
        state_root: [4; 32],
        transactions_root: [5; 32],
        receipts_root: [6; 32],
        logs_bloom: [7; 256],
        difficulty: [8; 32],
        number: 9,
        gas_limit: 10,
        gas_used: 11,
        timestamp: 12,
        extra_data: vec![13],
        mix_hash: [14; 32],
        nonce: [15; 8],
        base_fee_per_gas: Some(16),
        withdrawals_root: Some([17; 32]),
        blob_gas_used: Some(18),
        excess_blob_gas: Some(19),
        parent_beacon_block_root: Some([20; 32]),
        requests_hash: Some([21; 32]),
    };
    let reference = alloy_consensus::Header {
        parent_hash: [1; 32].into(),
        ommers_hash: [2; 32].into(),
        beneficiary: [3; 20].into(),
        state_root: [4; 32].into(),
        transactions_root: [5; 32].into(),
        receipts_root: [6; 32].into(),
        logs_bloom: [7; 256].into(),
        difficulty: alloy_primitives::U256::from_be_bytes([8; 32]),
        number: 9,
        gas_limit: 10,
        gas_used: 11,
        timestamp: 12,
        extra_data: vec![13].into(),
        mix_hash: [14; 32].into(),
        nonce: [15; 8].into(),
        base_fee_per_gas: Some(16),
        withdrawals_root: Some([17; 32].into()),
        blob_gas_used: Some(18),
        excess_blob_gas: Some(19),
        parent_beacon_block_root: Some([20; 32].into()),
        requests_hash: Some([21; 32].into()),
    };
    assert_eq!(from_alloy(&reference), full);
    assert_eq!(full.clone(), full);
    assert_eq!(full.hash_slow(), reference.hash_slow().0);
    assert_ne!(full.hash_slow(), Header { requests_hash: None, ..full.clone() }.hash_slow());
    assert_ne!(full.hash_slow(), Header { extra_data: vec![], ..full.clone() }.hash_slow());
}

#[test]
fn hashes_are_compared_byte_by_byte() {
    let mut other: B256 = [5; 32];
    assert!(same_hash(&[5; 32], &other));
    other[31] = 6;
    assert!(!same_hash(&[5; 32], &other));
}

#[test]
fn lookup_by_hash_finds_the_block() {
    let header = header_at(7);
    let hash = header.hash_slow();
    let provider = DelayedL1OriginSelectorProvider::new(None, 10);
    let lookup = provider.prepared_by_hash(hash);
    assert_eq!(lookup, OriginLookup::ByHash(hash));
    let pending = pending(lookup.header_fetched(Ok(Some(header.clone()))));
    assert_eq!(pending.hash, hash);
    let origin =
        pending.receipts_fetched(Ok(Some(vec![Some(receipt(1)), Some(receipt(2))]))).unwrap();
    assert_eq!(
        origin,
        Some(PreparedL1Origin { hash, header, receipts: Arc::new(vec![receipt(1), receipt(2)]) })
    );
}

#[test]
fn lookup_by_hash_drops_a_header_with_another_hash() {
    let hash = header_at(7).hash_slow();
    let end = finished(OriginLookup::ByHash(hash).header_fetched(Ok(Some(header_at(8)))));
    assert_eq!(end.unwrap(), None);
}

#[test]
fn lookup_without_a_header_comes_back_empty() {
    assert_eq!(finished(OriginLookup::ByHash([1; 32]).header_fetched(Ok(None))).unwrap(), None);
    assert_eq!(finished(OriginLookup::ByNumber(1).header_fetched(Ok(None))).unwrap(), None);
}

#[test]
fn lookup_by_number_finds_the_block() {
    let header = header_at(7);
    let hash = header.hash_slow();
    let provider = DelayedL1OriginSelectorProvider::new(head(17), 10);
    let lookup = provider.prepared_by_number(7).unwrap();
    let pending = pending(lookup.header_fetched(Ok(Some(header.clone()))));
    assert_eq!(pending, PendingOrigin { hash, header: header.clone() });
    let origin = pending.receipts_fetched(Ok(Some(vec![]))).unwrap();
    assert_eq!(origin, Some(PreparedL1Origin { hash, header, receipts: Arc::new(vec![]) }));
}

#[test]
fn lookup_by_number_rejects_a_header_at_another_number() {
    let end = finished(OriginLookup::ByNumber(7).header_fetched(Ok(Some(header_at(8)))));
    assert_eq!(
        provider_message(end.unwrap_err()),
        "L1 RPC returned a header at the wrong block number"
    );
}

#[test]
fn sealed_headers_are_judged_by_the_given_hash() {
    let header = header_at(7);
    let step = OriginLookup::ByHash([1; 32]).header_sealed(header.clone(), [1; 32]);
    assert_eq!(pending(step), PendingOrigin { hash: [1; 32], header: header.clone() });
    let step = OriginLookup::ByHash([1; 32]).header_sealed(header.clone(), [2; 32]);
    assert_eq!(finished(step).unwrap(), None);
    let step = OriginLookup::ByNumber(7).header_sealed(header.clone(), [2; 32]);
    assert_eq!(pending(step), PendingOrigin { hash: [2; 32], header });
}

#[test]
fn missing_receipts_are_an_error_that_names_the_block() {
    let pending = PendingOrigin { hash: [4; 32], header: header_at(7) };
    let error = pending.receipts_fetched(Ok(None)).unwrap_err();
    assert!(matches!(error, L1OriginSelectorError::ReceiptsUnavailable(hash) if hash == [4; 32]));
}

#[test]
fn a_receipt_that_cannot_be_converted_is_an_error() {
    let entries = vec![Some(receipt(1)), None, Some(receipt(2))];
    let error = DelayedL1OriginSelectorProvider::receipts_by_hash(Ok(Some(entries))).unwrap_err();
    assert_eq!(provider_message(error), "failed to convert RPC receipts");
    let pending = PendingOrigin { hash: [4; 32], header: header_at(7) };
    let error = pending.receipts_fetched(Ok(Some(vec![None]))).unwrap_err();
    assert_eq!(provider_message(error), "failed to convert RPC receipts");
}

#[test]
fn receipts_keep_their_order() {
    let entries = vec![Some(receipt(3)), Some(receipt(1)), Some(receipt(2))];
    let receipts = DelayedL1OriginSelectorProvider::receipts_by_hash(Ok(Some(entries))).unwrap();
    assert_eq!(receipts, Some(vec![receipt(3), receipt(1), receipt(2)]));
    assert_eq!(DelayedL1OriginSelectorProvider::receipts_by_hash(Ok(None)).unwrap(), None);
}

#[test]
fn transport_failures_come_out() {
    let expected = transport_error().to_string();
    let end = finished(OriginLookup::ByHash([1; 32]).header_fetched(Err(transport_error())));
    assert_eq!(provider_message(end.unwrap_err()), expected);
    let end = finished(OriginLookup::ByNumber(1).header_fetched(Err(transport_error())));
    assert_eq!(provider_message(end.unwrap_err()), expected);
    let pending = PendingOrigin { hash: [4; 32], header: header_at(7) };
    let error = pending.receipts_fetched(Err(transport_error())).unwrap_err();
    assert_eq!(provider_message(error), expected);
}

#[test]
fn chain_view_is_the_hash_of_the_head() {
    assert_eq!(DelayedL1OriginSelectorProvider::new(head(3), 1).chain_view(), Some([9; 32]));
    assert_eq!(DelayedL1OriginSelectorProvider::new(None, 1).chain_view(), None);
}

#[test]
fn without_a_head_nothing_is_looked_up_by_number() {
    for depth in [0, 1] {
        let provider = DelayedL1OriginSelectorProvider::new(None, depth);
        assert_eq!(provider.prepared_by_number(0), None);
        assert_eq!(provider.prepared_by_number(5), None);
    }
}

#[test]
fn lookups_by_number_wait_for_confirmations() {
    let provider = DelayedL1OriginSelectorProvider::new(head(100), 4);
    assert_eq!(provider.prepared_by_number(96), Some(OriginLookup::ByNumber(96)));
    assert_eq!(provider.prepared_by_number(97), None);
    let later = DelayedL1OriginSelectorProvider::new(head(101), 4);
    assert_eq!(later.prepared_by_number(96), Some(OriginLookup::ByNumber(96)));
    assert_eq!(later.prepared_by_number(97), Some(OriginLookup::ByNumber(97)));
}

#[test]
fn genesis_and_depth_zero_are_not_delayed() {
    let provider = DelayedL1OriginSelectorProvider::new(head(1), 4);
    assert_eq!(provider.prepared_by_number(0), Some(OriginLookup::ByNumber(0)));
    assert_eq!(provider.prepared_by_number(1), None);
    let provider = DelayedL1OriginSelectorProvider::new(head(1), 0);
    assert_eq!(provider.prepared_by_number(500), Some(OriginLookup::ByNumber(500)));
}

#[test]
fn the_largest_head_is_delayed_like_any_other() {
    let provider = DelayedL1OriginSelectorProvider::new(head(u64::MAX - 1), u64::MAX);
    assert_eq!(provider.prepared_by_number(1), None);
    let provider = DelayedL1OriginSelectorProvider::new(head(u64::MAX), u64::MAX);
    assert_eq!(provider.prepared_by_number(1), None);
    assert_eq!(provider.prepared_by_number(2), None);
    assert_eq!(provider.prepared_by_number(0), Some(OriginLookup::ByNumber(0)));
    let provider = DelayedL1OriginSelectorProvider::new(head(u64::MAX), 1);
    assert_eq!(provider.prepared_by_number(u64::MAX), None);
    assert_eq!(
        provider.prepared_by_number(u64::MAX - 1),
        Some(OriginLookup::ByNumber(u64::MAX - 1))
    );
}

#[test]
fn shown_blocks_reach_down_and_stay_shown() {
    for number in 0..40 {
        for depth in 0..6 {
            for height in 0..40 {
                let provider = DelayedL1OriginSelectorProvider::new(head(height), depth);
                let shown = provider.prepared_by_number(number).is_some();
                assert_eq!(shown, number == 0 || depth == 0 || number + depth <= height);
                if shown && number > 0 {
                    assert!(provider.prepared_by_number(number - 1).is_some());
                }
                if shown {
                    let later = DelayedL1OriginSelectorProvider::new(head(height + 1), depth);
                    assert!(later.prepared_by_number(number).is_some());
                }
            }
        }
    }
}
