//! Tests of the prefetched chain provider.

use std::sync::Arc;
use std::time::Duration;

use sequencer_origin::header::Header;
use sequencer_origin::origin::PreparedL1Origin;
use sequencer_origin::prefetched_chain_provider::{
    AlloyChainProviderError, FallbackCall, FallbackFailure, FallbackOutcome, FallbackRequest,
    FetchKind, Lookup, PipelineError, PipelineErrorKind, PrefetchedChainProvider,
    PrefetchedChainProviderError,
};
use sequencer_origin::provider::{HeaderStep, OriginLookup};
use sequencer_origin::receipt::{Eip658Value, Log, Receipt};

fn header_at(number: u64, timestamp: u64) -> Header {
    let empty = alloy_consensus::Header::default();
    Header {
        parent_hash: empty.parent_hash.0,
        ommers_hash: empty.ommers_hash.0,
        beneficiary: empty.beneficiary.0 .0,
        state_root: empty.state_root.0,
        transactions_root: empty.transactions_root.0,
        receipts_root: empty.receipts_root.0,
        logs_bloom: empty.logs_bloom.0 .0,
        difficulty: [0; 32],
        number,
        gas_limit: 0,
        gas_used: 0,
        timestamp,
        extra_data: vec![],
        mix_hash: [0; 32],
        nonce: [0; 8],
        base_fee_per_gas: None,
        withdrawals_root: None,
        blob_gas_used: None,
        excess_blob_gas: None,
        parent_beacon_block_root: None,
        requests_hash: None,
    }
}

fn default_receipt() -> Receipt {
    Receipt { status: Eip658Value::Eip658(true), cumulative_gas_used: 0, logs: vec![] }
}

/// What only the fallback of these tests knows.
#[derive(Debug, PartialEq, Eq)]
enum Kind {
    Reset,
    Eof,
}

type Error = PrefetchedChainProviderError<u32, Kind>;
type FallbackError = AlloyChainProviderError<u32, Kind>;
type Outcome<T> = FallbackOutcome<T, u32, Kind>;

fn failure(message: &str) -> FallbackFailure<u32, Kind> {
    FallbackFailure { error: 503, message: message.to_string(), pipeline_kind: PipelineErrorKind::Other(Kind::Reset) }
}

fn zero_hash_text() -> String {
    format!("0x{}", "00".repeat(32))
}

#[test]
fn test_matching_origin_serves_header_and_receipts() {
    let header = header_at(7, 84);
    let hash = header.hash_slow();
    let reference =
        alloy_consensus::Header { number: 7, timestamp: 84, ..Default::default() }.hash_slow();
    assert_eq!(hash, reference.0);
    let receipts = Arc::new(vec![default_receipt()]);
    let origin =
        PreparedL1Origin { hash, header: header.clone(), receipts: Arc::clone(&receipts) };
    let provider = PrefetchedChainProvider::new(Some(&origin), Duration::from_millis(1));

    assert_eq!(provider.header_by_hash(hash), Lookup::Buffered(header));
    assert_eq!(provider.receipts_by_hash(hash), Lookup::Buffered((*receipts).clone()));
}

#[test]
fn test_fallback_timeout_is_temporary() {
    let error =
        PrefetchedChainProvider::bounded_fallback(Outcome::<()>::TimedOut).unwrap_err();
    let kind: PipelineErrorKind<Kind> = error.into();

    assert!(matches!(kind, PipelineErrorKind::Temporary(_)));
}

#[test]
fn test_missing_fallback_receipts_are_temporary() {
    let kind: PipelineErrorKind<Kind> =
        Error::ReceiptsUnavailable([0; 32]).into();

    assert!(matches!(kind, PipelineErrorKind::Temporary(_)));
}

#[test]
fn served_receipts_are_whole() {
    let mut receipt = default_receipt();
    receipt.status = Eip658Value::PostState([6; 32]);
    receipt.cumulative_gas_used = 21_000;
    receipt.logs = vec![
        Log { address: [1; 20], topics: vec![[2; 32], [3; 32]], data: vec![4, 5] },
        Log { address: [6; 20], topics: vec![], data: vec![] },
    ];
    let receipts = vec![receipt, default_receipt()];
    let origin = PreparedL1Origin {
        hash: [1; 32],
        header: header_at(1, 12),
        receipts: Arc::new(receipts.clone()),
    };
    let provider = PrefetchedChainProvider::new(Some(&origin), Duration::ZERO);
    assert_eq!(provider.receipts_by_hash([1; 32]), Lookup::Buffered(receipts));
}

#[test]
fn other_blocks_go_to_the_fallback() {
    let origin = PreparedL1Origin {
        hash: [1; 32],
        header: header_at(1, 12),
        receipts: Arc::new(vec![]),
    };
    let timeout = Duration::from_millis(250);
    for origin in [None, Some(&origin)] {
        let provider = PrefetchedChainProvider::new(origin, timeout);
        assert_eq!(
            provider.header_by_hash([2; 32]),
            Lookup::Fallback(FallbackRequest {
                call: FallbackCall::HeaderByHash([2; 32]),
                kind: FetchKind::ByHash,
                timeout,
            })
        );
        assert_eq!(
            provider.receipts_by_hash([2; 32]),
            Lookup::Fallback(FallbackRequest {
                call: FallbackCall::ReceiptsByHash([2; 32]),
                kind: FetchKind::Receipts,
                timeout,
            })
        );
    }
}

#[test]
fn block_info_requests_always_go_to_the_fallback() {
    let origin = PreparedL1Origin {
        hash: [1; 32],
        header: header_at(1, 12),
        receipts: Arc::new(vec![]),
    };
    let timeout = Duration::from_secs(3);
    let provider = PrefetchedChainProvider::new(Some(&origin), timeout);
    assert_eq!(
        provider.block_info_by_number(1),
        FallbackRequest {
            call: FallbackCall::BlockInfoByNumber(1),
            kind: FetchKind::ByNumber,
            timeout,
        }
    );
    assert_eq!(
        provider.block_info_and_transactions_by_hash([1; 32]),
        FallbackRequest {
            call: FallbackCall::BlockInfoAndTransactionsByHash([1; 32]),
            kind: FetchKind::ByHash,
            timeout,
        }
    );
}

#[test]
fn fetch_kinds_have_labels() {
    assert_eq!(FetchKind::ByHash.label(), "by_hash");
    assert_eq!(FetchKind::ByNumber.label(), "by_number");
    assert_eq!(FetchKind::Receipts.label(), "receipts");
}

#[test]
fn answers_of_the_fallback_are_handed_on() {
    assert_eq!(
        PrefetchedChainProvider::bounded_fallback(Outcome::Answered(Ok(5))),
        Ok(5)
    );
    let error = FallbackError::BlockNotFound(failure("no block"));
    assert_eq!(
        PrefetchedChainProvider::bounded_fallback(Outcome::<u8>::Answered(Err(error))),
        Err(Error::Fallback(FallbackError::BlockNotFound(
            failure("no block")
        )))
    );
}

#[test]
fn unknown_block_means_unavailable_receipts() {
    let unknown = FallbackError::BlockNotFound(failure("no block"));
    assert_eq!(
        PrefetchedChainProvider::receipts_from_fallback(
            [3; 32],
            Outcome::<Vec<Receipt>>::Answered(Err(unknown))
        ),
        Err(Error::ReceiptsUnavailable([3; 32]))
    );
    let other = FallbackError::Other(failure("broken"));
    assert_eq!(
        PrefetchedChainProvider::receipts_from_fallback(
            [3; 32],
            Outcome::<Vec<Receipt>>::Answered(Err(other))
        ),
        Err(Error::Fallback(FallbackError::Other(failure(
            "broken"
        ))))
    );
    assert_eq!(
        PrefetchedChainProvider::receipts_from_fallback(
            [3; 32],
            Outcome::<Vec<Receipt>>::TimedOut
        ),
        Err(Error::Timeout)
    );
    assert_eq!(
        PrefetchedChainProvider::receipts_from_fallback(
            [3; 32],
            Outcome::Answered(Ok(vec![default_receipt()]))
        ),
        Ok(vec![default_receipt()])
    );
}

#[test]
fn errors_have_messages() {
    assert_eq!(
        Error::Timeout.to_string(),
        "timed out fetching L1 data from fallback provider"
    );
    assert_eq!(
        Error::ReceiptsUnavailable([0; 32]).to_string(),
        format!("receipts unavailable for L1 origin: {}", zero_hash_text())
    );
    let mut hash = [0; 32];
    hash[0] = 0x1f;
    hash[31] = 0xa9;
    assert_eq!(
        Error::ReceiptsUnavailable(hash).to_string(),
        format!("receipts unavailable for L1 origin: 0x1f{}a9", "00".repeat(30))
    );
    let error: Error =
        FallbackError::Other(failure("broken")).into();
    assert_eq!(error.to_string(), "broken");
}

#[test]
fn pipeline_kinds_have_messages() {
    assert_eq!(
        PipelineErrorKind::from(Error::Timeout),
        PipelineErrorKind::Temporary(PipelineError::Provider(
            "L1 fallback lookup timed out".to_string()
        ))
    );
    assert_eq!(
        PipelineErrorKind::from(Error::ReceiptsUnavailable([0xbe; 32])),
        PipelineErrorKind::Temporary(PipelineError::Provider(format!(
            "L1 origin receipts unavailable: 0x{}",
            "be".repeat(32)
        )))
    );
    let failed = FallbackError::Other(failure("broken"));
    assert_eq!(
        PipelineErrorKind::from(Error::Fallback(failed)),
        PipelineErrorKind::Other(Kind::Reset)
    );
    let unknown = FallbackError::BlockNotFound(FallbackFailure {
        pipeline_kind: PipelineErrorKind::Temporary(PipelineError::Other(Kind::Eof)),
        ..failure("no block")
    });
    assert_eq!(
        PipelineErrorKind::from(Error::Fallback(unknown)),
        PipelineErrorKind::Temporary(PipelineError::Other(Kind::Eof))
    );
}

#[test]
fn found_origins_are_served() {
    let header = header_at(9, 108);
    let hash = header.hash_slow();
    let step = OriginLookup::ByNumber(9).header_fetched(Ok(Some(header.clone())));
    let HeaderStep::FetchReceipts(pending) = step else { panic!("the lookup is over") };
    let origin = pending.receipts_fetched(Ok(Some(vec![Some(default_receipt())]))).unwrap();
    let provider = PrefetchedChainProvider::new(origin.as_ref(), Duration::ZERO);
    let Lookup::Buffered(served) = provider.header_by_hash(hash) else { panic!("not served") };
    assert_eq!(served, header);
    assert_eq!(served.hash_slow(), hash);
    assert_eq!(provider.receipts_by_hash(hash), Lookup::Buffered(vec![default_receipt()]));
}

#[test]
fn messages_tell_hashes_apart() {
    let mut texts: Vec<String> = Vec::new();
    for byte in 0..=255 {
        for at in [0, 17, 31] {
            let mut hash = [0; 32];
            hash[at] = byte;
            let text = Error::ReceiptsUnavailable(hash).to_string();
            assert_eq!(text, format!(
                "receipts unavailable for L1 origin: 0x{}{byte:02x}{}",
                "00".repeat(at),
                "00".repeat(31 - at)
            ));
            texts.push(text);
        }
    }
    texts.sort();
    texts.dedup();
    assert_eq!(texts.len(), 3 * 255 + 1);
}

#[test]
fn requests_are_closed_by_what_they_asked() {
    let provider = PrefetchedChainProvider::new(None, Duration::ZERO);
    let unknown =
        || Outcome::<()>::Answered(Err(FallbackError::BlockNotFound(failure("no block"))));
    let handed_on = Err(Error::Fallback(FallbackError::BlockNotFound(failure("no block"))));

    let Lookup::Fallback(receipts) = provider.receipts_by_hash([3; 32]) else {
        panic!("nothing is prepared")
    };
    assert_eq!(receipts.close(unknown()), Err(Error::ReceiptsUnavailable([3; 32])));
    assert_eq!(receipts.close(Outcome::<()>::TimedOut), Err(Error::Timeout));
    assert_eq!(receipts.close(Outcome::Answered(Ok(7))), Ok(7));

    let Lookup::Fallback(header) = provider.header_by_hash([3; 32]) else {
        panic!("nothing is prepared")
    };
    assert_eq!(header.close(unknown()), handed_on);
    assert_eq!(provider.block_info_by_number(3).close(unknown()), handed_on);
    assert_eq!(provider.block_info_and_transactions_by_hash([3; 32]).close(unknown()), handed_on);
    assert_eq!(header.close(Outcome::<()>::TimedOut), Err(Error::Timeout));
    assert_eq!(header.close(Outcome::Answered(Ok(7))), Ok(7));
}
