//! What calls of the library give, in terms of what goes in and what comes out.
//!
//! Each law speaks of arbitrary calls: whatever a call with these arguments may return, the
//! returned value stands in the stated relation to the arguments.

use crate::config::{whole_seconds, NonZeroU64, SequencerConfig, SequencerSyncMode};
use crate::header::{header_hash, Header, HeaderView};
use crate::origin::{L1OriginSelectorError, PreparedL1Origin};
use crate::prefetched_chain_provider::{
    AlloyChainProviderError, FallbackCall, FallbackOutcome, FallbackRequest, FetchKind, Lookup,
    PipelineError, PipelineErrorKind, PrefetchedChainProvider, PrefetchedChainProviderError,
};
use crate::primitives::{hex_text, same_hash, BlockInfo, B256};
use crate::provider::{
    DelayedL1OriginSelectorProvider, HeaderStep, L1OriginSelectorProvider, OriginLookup,
    PendingOrigin,
};
use crate::receipt::{clone_receipts, collect_receipts, receipt_views, Log, Receipt};
use crate::transport::custom_transport_error;
use alloy_transport::TransportError;
use std::time::Duration;
use vstd::prelude::*;

verus! {

// Contents.
/// The contents of a header are its fields, every one of them.
pub proof fn law_header_contents_are_its_fields(header: Header)
    ensures
        header@.parent_hash == header.parent_hash,
        header@.ommers_hash == header.ommers_hash,
        header@.beneficiary == header.beneficiary,
        header@.state_root == header.state_root,
        header@.transactions_root == header.transactions_root,
        header@.receipts_root == header.receipts_root,
        header@.logs_bloom == header.logs_bloom,
        header@.difficulty == header.difficulty,
        header@.number == header.number,
        header@.gas_limit == header.gas_limit,
        header@.gas_used == header.gas_used,
        header@.timestamp == header.timestamp,
        header@.extra_data == header.extra_data@,
        header@.mix_hash == header.mix_hash,
        header@.nonce == header.nonce,
        header@.base_fee_per_gas == header.base_fee_per_gas,
        header@.withdrawals_root == header.withdrawals_root,
        header@.blob_gas_used == header.blob_gas_used,
        header@.excess_blob_gas == header.excess_blob_gas,
        header@.parent_beacon_block_root == header.parent_beacon_block_root,
        header@.requests_hash == header.requests_hash,
{
}

/// The contents of a log are its address, its topics in order and its data.
pub proof fn law_log_contents_are_its_fields(log: Log)
    ensures
        log@.address == log.address,
        log@.topics == log.topics@,
        log@.data == log.data@,
{
}

/// The contents of a receipt are its status, its gas and its logs in order.
pub proof fn law_receipt_contents_are_its_fields(receipt: Receipt)
    ensures
        receipt@.status == receipt.status,
        receipt@.cumulative_gas_used == receipt.cumulative_gas_used,
        receipt@.logs.len() == receipt.logs@.len(),
        forall|i: int|
            0 <= i < receipt.logs@.len() ==> #[trigger] receipt@.logs[i] == receipt.logs@[i]@,
{
}

/// The contents of a list of receipts are those of each receipt, in order.
pub proof fn law_receipt_list_contents(receipts: Seq<Receipt>)
    ensures
        receipt_views(receipts).len() == receipts.len(),
        forall|i: int|
            0 <= i < receipts.len() ==> #[trigger] receipt_views(receipts)[i] == receipts[i]@,
{
}

/// The contents of an origin are its hash, its header and its receipts in order.
pub proof fn law_origin_contents_are_its_fields(origin: PreparedL1Origin)
    ensures
        origin@.hash == origin.hash,
        origin@.header == origin.header@,
        origin@.receipts.len() == origin.receipts@.len(),
        forall|i: int|
            0 <= i < origin.receipts@.len() ==> #[trigger] origin@.receipts[i]
                == origin.receipts@[i]@,
        origin.well_formed() <==> origin.hash == header_hash(origin.header@),
{
}

/// A copied header has the value of every field.
pub proof fn law_copied_headers_are_alike(header: Header, copy: Header)
    requires
        call_ensures(<Header as Clone>::clone, (&header,), copy),
    ensures
        copy.parent_hash == header.parent_hash,
        copy.ommers_hash == header.ommers_hash,
        copy.beneficiary == header.beneficiary,
        copy.state_root == header.state_root,
        copy.transactions_root == header.transactions_root,
        copy.receipts_root == header.receipts_root,
        copy.logs_bloom == header.logs_bloom,
        copy.difficulty == header.difficulty,
        copy.number == header.number,
        copy.gas_limit == header.gas_limit,
        copy.gas_used == header.gas_used,
        copy.timestamp == header.timestamp,
        copy.extra_data@ == header.extra_data@,
        copy.mix_hash == header.mix_hash,
        copy.nonce == header.nonce,
        copy.base_fee_per_gas == header.base_fee_per_gas,
        copy.withdrawals_root == header.withdrawals_root,
        copy.blob_gas_used == header.blob_gas_used,
        copy.excess_blob_gas == header.excess_blob_gas,
        copy.parent_beacon_block_root == header.parent_beacon_block_root,
        copy.requests_hash == header.requests_hash,
{
    law_header_contents_are_its_fields(header);
    law_header_contents_are_its_fields(copy);
}

/// The hash of a header is that of its fields, every one of them.
pub proof fn law_header_hash_is_of_all_fields(header: Header, hash: B256)
    requires
        call_ensures(Header::hash_slow, (&header,), hash),
    ensures
        hash == header_hash(
            (HeaderView {
                parent_hash: header.parent_hash,
                ommers_hash: header.ommers_hash,
                beneficiary: header.beneficiary,
                state_root: header.state_root,
                transactions_root: header.transactions_root,
                receipts_root: header.receipts_root,
                logs_bloom: header.logs_bloom,
                difficulty: header.difficulty,
                number: header.number,
                gas_limit: header.gas_limit,
                gas_used: header.gas_used,
                timestamp: header.timestamp,
                extra_data: header.extra_data@,
                mix_hash: header.mix_hash,
                nonce: header.nonce,
                base_fee_per_gas: header.base_fee_per_gas,
                withdrawals_root: header.withdrawals_root,
                blob_gas_used: header.blob_gas_used,
                excess_blob_gas: header.excess_blob_gas,
                parent_beacon_block_root: header.parent_beacon_block_root,
                requests_hash: header.requests_hash,
            }),
        ),
{
}

/// A copied log has the same address, topics and data.
pub proof fn law_copied_logs_are_alike(log: Log, copy: Log)
    requires
        call_ensures(<Log as Clone>::clone, (&log,), copy),
    ensures
        copy.address == log.address,
        copy.topics@ == log.topics@,
        copy.data@ == log.data@,
{
    law_log_contents_are_its_fields(log);
    law_log_contents_are_its_fields(copy);
}

/// Receipts with the same contents have the same status, gas and logs, log by log.
proof fn lemma_receipts_alike(receipt: Receipt, copy: Receipt)
    requires
        copy@ == receipt@,
    ensures
        copy.status == receipt.status,
        copy.cumulative_gas_used == receipt.cumulative_gas_used,
        copy.logs@.len() == receipt.logs@.len(),
        forall|i: int|
            0 <= i < receipt.logs@.len() ==> {
                &&& (#[trigger] copy.logs@[i]).address == receipt.logs@[i].address
                &&& copy.logs@[i].topics@ == receipt.logs@[i].topics@
                &&& copy.logs@[i].data@ == receipt.logs@[i].data@
            },
{
    law_receipt_contents_are_its_fields(receipt);
    law_receipt_contents_are_its_fields(copy);
    assert forall|i: int| 0 <= i < receipt.logs@.len() implies {
        &&& (#[trigger] copy.logs@[i]).address == receipt.logs@[i].address
        &&& copy.logs@[i].topics@ == receipt.logs@[i].topics@
        &&& copy.logs@[i].data@ == receipt.logs@[i].data@
    } by {
        assert(copy@.logs[i] == receipt@.logs[i]);
        assert(copy@.logs[i] == copy.logs@[i]@);
        assert(receipt@.logs[i] == receipt.logs@[i]@);
        law_log_contents_are_its_fields(copy.logs@[i]);
        law_log_contents_are_its_fields(receipt.logs@[i]);
    }
}

/// A copied receipt has the same status, gas and logs, log by log.
pub proof fn law_copied_receipts_are_alike(receipt: Receipt, copy: Receipt)
    requires
        call_ensures(<Receipt as Clone>::clone, (&receipt,), copy),
    ensures
        copy.status == receipt.status,
        copy.cumulative_gas_used == receipt.cumulative_gas_used,
        copy.logs@.len() == receipt.logs@.len(),
        forall|i: int|
            0 <= i < receipt.logs@.len() ==> {
                &&& (#[trigger] copy.logs@[i]).address == receipt.logs@[i].address
                &&& copy.logs@[i].topics@ == receipt.logs@[i].topics@
                &&& copy.logs@[i].data@ == receipt.logs@[i].data@
            },
{
    lemma_receipts_alike(receipt, copy);
}

/// A copied list of receipts has the same receipts in the same places.
pub proof fn law_copied_receipt_lists_are_alike(receipts: Vec<Receipt>, copy: Vec<Receipt>)
    requires
        call_ensures(clone_receipts, (&receipts,), copy),
    ensures
        copy@.len() == receipts@.len(),
        forall|i: int| 0 <= i < receipts@.len() ==> (#[trigger] copy@[i])@ == receipts@[i]@,
{
    law_receipt_list_contents(receipts@);
    law_receipt_list_contents(copy@);
    assert forall|i: int| 0 <= i < receipts@.len() implies (#[trigger] copy@[i])@
        == receipts@[i]@ by {
        assert(receipt_views(copy@)[i] == receipt_views(receipts@)[i]);
    }
}

// Receipts of an RPC reply.
/// Receipts are collected whatever they hold, so long as each of them is there, and come out in
/// the order in which they came in.
pub proof fn law_all_converted_receipts_are_kept(
    receipts: Seq<Receipt>,
    entries: Vec<Option<Receipt>>,
    collected: Option<Vec<Receipt>>,
)
    requires
        entries@ == receipts.map_values(|receipt: Receipt| Some(receipt)),
        call_ensures(collect_receipts, (entries,), collected),
    ensures
        collected matches Some(kept) && kept@ == receipts,
{
    assert forall|i: int| 0 <= i < entries@.len() implies entries@[i] == Some(receipts[i]) by {}
    assert(collected->0@ =~= receipts);
}

/// One missing receipt is enough for none to be collected.
pub proof fn law_one_missing_receipt_fails_the_rest(
    entries: Vec<Option<Receipt>>,
    missing: int,
    collected: Option<Vec<Receipt>>,
)
    requires
        0 <= missing < entries@.len(),
        entries@[missing] is None,
        call_ensures(collect_receipts, (entries,), collected),
    ensures
        collected is None,
{
}

/// Where each receipt of a reply is there, the reply stands for exactly these receipts.
pub proof fn law_complete_replies_give_their_receipts(
    receipts: Seq<Receipt>,
    entries: Vec<Option<Receipt>>,
    result: Result<Option<Vec<Receipt>>, L1OriginSelectorError>,
)
    requires
        entries@ == receipts.map_values(|receipt: Receipt| Some(receipt)),
        call_ensures(
            DelayedL1OriginSelectorProvider::receipts_by_hash,
            (Ok::<_, TransportError>(Some(entries)),),
            result,
        ),
    ensures
        result matches Ok(Some(kept)) && kept@ == receipts,
{
    assert forall|i: int| 0 <= i < entries@.len() implies entries@[i] == Some(receipts[i]) by {}
    assert(result->Ok_0->0@ =~= receipts);
}

/// A reply without complete receipts gives none: a missing receipt is a conversion error, a
/// missing list is empty, and a transport failure is handed on.
pub proof fn law_incomplete_replies_give_no_receipts(
    reply: Result<Option<Vec<Option<Receipt>>>, TransportError>,
    result: Result<Option<Vec<Receipt>>, L1OriginSelectorError>,
)
    requires
        call_ensures(DelayedL1OriginSelectorProvider::receipts_by_hash, (reply,), result),
    ensures
        reply matches Err(error) ==> result == Err::<Option<Vec<Receipt>>, _>(
            L1OriginSelectorError::Provider(error),
        ),
        reply matches Ok(None) ==> result == Ok::<_, L1OriginSelectorError>(None::<Vec<Receipt>>),
        reply matches Ok(Some(entries)) ==> ((exists|i: int|
            0 <= i < entries@.len() && (#[trigger] entries@[i]) is None) <==> result == Err::<
            Option<Vec<Receipt>>,
            _,
        >(
            L1OriginSelectorError::Provider(
                custom_transport_error("failed to convert RPC receipts"@),
            ),
        )),
{
}

// Lookups.
/// A header goes on to its receipts exactly when it is what was asked for: the right hash by hash,
/// the right number by number. The lookup then keeps that header and the hash that came with it.
/// Any other header ends the lookup: empty by hash, an error by number.
pub proof fn law_only_wanted_headers_go_on(
    lookup: OriginLookup,
    header: Header,
    hash: B256,
    step: HeaderStep,
)
    requires
        call_ensures(OriginLookup::header_sealed, (lookup, header, hash), step),
    ensures
        step matches HeaderStep::FetchReceipts(pending) ==> {
            &&& pending.hash == hash
            &&& pending.header == header
        },
        lookup matches OriginLookup::ByHash(wanted) ==> {
            &&& step is FetchReceipts <==> hash == wanted
            &&& step matches HeaderStep::Finished(end) ==> end == Ok::<_, L1OriginSelectorError>(
                None::<PreparedL1Origin>,
            )
        },
        lookup matches OriginLookup::ByNumber(wanted) ==> {
            &&& step is FetchReceipts <==> header.number == wanted
            &&& step matches HeaderStep::Finished(end) ==> end == Err::<
                Option<PreparedL1Origin>,
                _,
            >(
                L1OriginSelectorError::Provider(
                    custom_transport_error(
                        "L1 RPC returned a header at the wrong block number"@,
                    ),
                ),
            )
        },
{
}

/// The receipts that are asked for are those of the block that was found: the hash is that of the
/// header that the RPC returned, and that block is the one that was asked for.
pub proof fn law_receipts_are_asked_of_the_found_block(
    lookup: OriginLookup,
    reply: Result<Option<Header>, TransportError>,
    step: HeaderStep,
)
    requires
        call_ensures(OriginLookup::header_fetched, (lookup, reply), step),
    ensures
        step matches HeaderStep::FetchReceipts(pending) ==> {
            &&& reply == Ok::<_, TransportError>(Some(pending.header))
            &&& pending.hash == header_hash(pending.header@)
            &&& lookup matches OriginLookup::ByHash(wanted) ==> pending.hash == wanted
            &&& lookup matches OriginLookup::ByNumber(wanted) ==> pending.header.number == wanted
        },
        step is FetchReceipts <==> {
            &&& reply matches Ok(Some(header))
            &&& lookup matches OriginLookup::ByHash(wanted) ==> header_hash(header@) == wanted
            &&& lookup matches OriginLookup::ByNumber(wanted) ==> header.number == wanted
        },
{
}

/// A lookup that ends at the header request ends with the transport's failure, empty where there is
/// no such block or one with another hash, and with an error where the number is another.
pub proof fn law_lookups_that_end_at_the_header(
    lookup: OriginLookup,
    reply: Result<Option<Header>, TransportError>,
    end: Result<Option<PreparedL1Origin>, L1OriginSelectorError>,
)
    requires
        call_ensures(OriginLookup::header_fetched, (lookup, reply), HeaderStep::Finished(end)),
    ensures
        !(end matches Ok(Some(_))),
        !(end matches Err(L1OriginSelectorError::ReceiptsUnavailable(_))),
        reply matches Err(error) ==> end == Err::<Option<PreparedL1Origin>, _>(
            L1OriginSelectorError::Provider(error),
        ),
        reply matches Ok(None) ==> end matches Ok(None),
        reply matches Ok(Some(_)) ==> match lookup {
            OriginLookup::ByHash(_) => end matches Ok(None),
            OriginLookup::ByNumber(_) => end == Err::<Option<PreparedL1Origin>, _>(
                L1OriginSelectorError::Provider(
                    custom_transport_error(
                        "L1 RPC returned a header at the wrong block number"@,
                    ),
                ),
            ),
        },
{
}

/// An origin is made of the hash and the header that wait for receipts and of the receipts that
/// came, one for one and in order. It is made whenever each receipt is there.
pub proof fn law_origins_are_made_of_what_was_fetched(
    pending: PendingOrigin,
    reply: Result<Option<Vec<Option<Receipt>>>, TransportError>,
    result: Result<Option<PreparedL1Origin>, L1OriginSelectorError>,
)
    requires
        call_ensures(PendingOrigin::receipts_fetched, (pending, reply), result),
    ensures
        result matches Ok(Some(origin)) ==> {
            &&& origin.hash == pending.hash
            &&& origin.header == pending.header
            &&& reply matches Ok(Some(entries))
            &&& entries@.len() == origin.receipts@.len()
            &&& forall|i: int|
                0 <= i < entries@.len() ==> #[trigger] entries@[i] == Some(origin.receipts@[i])
        },
        result matches Ok(Some(_)) <==> {
            &&& reply matches Ok(Some(entries))
            &&& forall|i: int| 0 <= i < entries@.len() ==> (#[trigger] entries@[i]) is Some
        },
        !(result matches Ok(None)),
{
}

/// Without receipts the lookup fails: a missing list names the block that waits for it, a missing
/// receipt is a conversion error, and a transport failure is handed on.
pub proof fn law_lookups_fail_without_receipts(
    pending: PendingOrigin,
    reply: Result<Option<Vec<Option<Receipt>>>, TransportError>,
    result: Result<Option<PreparedL1Origin>, L1OriginSelectorError>,
)
    requires
        call_ensures(PendingOrigin::receipts_fetched, (pending, reply), result),
    ensures
        reply matches Err(error) ==> result == Err::<Option<PreparedL1Origin>, _>(
            L1OriginSelectorError::Provider(error),
        ),
        result matches Err(L1OriginSelectorError::ReceiptsUnavailable(hash)) ==> hash
            == pending.hash,
        result matches Err(L1OriginSelectorError::ReceiptsUnavailable(_)) <==> reply matches Ok(
            None,
        ),
        reply matches Ok(Some(entries)) ==> ((exists|i: int|
            0 <= i < entries@.len() && (#[trigger] entries@[i]) is None) <==> result == Err::<
            Option<PreparedL1Origin>,
            _,
        >(
            L1OriginSelectorError::Provider(
                custom_transport_error("failed to convert RPC receipts"@),
            ),
        )),
{
}

/// From request to origin: the origin is the block that was asked for, its hash is the hash of its
/// header, and its receipts are those that came for that very hash, whatever they hold.
pub proof fn law_whole_lookups_prepare_the_requested_block(
    lookup: OriginLookup,
    header_reply: Result<Option<Header>, TransportError>,
    pending: PendingOrigin,
    receipts: Seq<Receipt>,
    entries: Vec<Option<Receipt>>,
    result: Result<Option<PreparedL1Origin>, L1OriginSelectorError>,
)
    requires
        call_ensures(
            OriginLookup::header_fetched,
            (lookup, header_reply),
            HeaderStep::FetchReceipts(pending),
        ),
        entries@ == receipts.map_values(|receipt: Receipt| Some(receipt)),
        call_ensures(
            PendingOrigin::receipts_fetched,
            (pending, Ok::<_, TransportError>(Some(entries))),
            result,
        ),
    ensures
        result matches Ok(Some(origin)) && {
            &&& header_reply == Ok::<_, TransportError>(Some(origin.header))
            &&& origin.hash == header_hash(origin.header@)
            &&& origin.hash == pending.hash
            &&& origin.receipts@ == receipts
            &&& lookup matches OriginLookup::ByHash(wanted) ==> origin.hash == wanted
            &&& lookup matches OriginLookup::ByNumber(wanted) ==> origin.header.number == wanted
        },
{
    law_receipts_are_asked_of_the_found_block(
        lookup,
        header_reply,
        HeaderStep::FetchReceipts(pending),
    );
    law_origins_are_made_of_what_was_fetched(
        pending,
        Ok::<_, TransportError>(Some(entries)),
        result,
    );
    assert forall|i: int| 0 <= i < entries@.len() implies entries@[i] == Some(receipts[i]) by {}
    assert(result->Ok_0->0.receipts@ =~= receipts);
}

// The delayed provider.
/// A provider reports the hash of the head that it was made with, whatever the confirmation depth,
/// and nothing where it was made without one.
pub proof fn law_chain_view_is_the_head(
    head: Option<BlockInfo>,
    depth: u64,
    provider: DelayedL1OriginSelectorProvider,
    view: Option<B256>,
)
    requires
        call_ensures(DelayedL1OriginSelectorProvider::new, (head, depth), provider),
        call_ensures(
            <DelayedL1OriginSelectorProvider as L1OriginSelectorProvider>::chain_view,
            (&provider,),
            view,
        ),
    ensures
        head matches Some(block) ==> view == Some(block.hash),
        head is None ==> view is None,
{
}

/// Of two providers with the same head hash the chain view is the same, though they differ in all
/// else.
pub proof fn law_chain_view_follows_the_head_hash(
    left: DelayedL1OriginSelectorProvider,
    right: DelayedL1OriginSelectorProvider,
)
    ensures
        left.head() matches Some(head) ==> left.head_hash() == Some(head.hash),
        left.head() is None ==> left.head_hash() is None,
        left.head() is Some && right.head() is Some ==> (left.head_hash() == right.head_hash()
            <==> left.head()->0.hash == right.head()->0.hash),
{
}

/// A lookup by hash asks for that hash, whatever the head and the confirmation depth.
pub proof fn law_lookups_by_hash_are_not_delayed(
    provider: DelayedL1OriginSelectorProvider,
    hash: B256,
    lookup: OriginLookup,
)
    requires
        call_ensures(
            <DelayedL1OriginSelectorProvider as L1OriginSelectorProvider>::prepared_by_hash,
            (&provider, hash),
            lookup,
        ),
    ensures
        lookup == OriginLookup::ByHash(hash),
{
}

/// A lookup by number asks for that number. It starts exactly where a head has been seen and the
/// block is the genesis block, or there is no confirmation depth, or the head is at least that many
/// blocks above it.
pub proof fn law_lookups_by_number_are_delayed(
    head: Option<BlockInfo>,
    depth: u64,
    provider: DelayedL1OriginSelectorProvider,
    number: u64,
    lookup: Option<OriginLookup>,
)
    requires
        call_ensures(DelayedL1OriginSelectorProvider::new, (head, depth), provider),
        call_ensures(
            <DelayedL1OriginSelectorProvider as L1OriginSelectorProvider>::prepared_by_number,
            (&provider, number),
            lookup,
        ),
    ensures
        lookup matches Some(started) ==> started == OriginLookup::ByNumber(number),
        lookup is Some <==> {
            &&& head matches Some(block)
            &&& number == 0 || depth == 0 || block.number - number >= depth
        },
{
}

// The prefetched chain provider.
/// A header request is served from the prepared origin exactly when the hash asked for is the one
/// recorded in the origin, and then with that origin's header. In every other case the fallback is
/// asked for the header of that very hash, under the timeout that the provider was made with.
pub proof fn law_header_requests_ask_for_the_hash(
    origin: Option<&PreparedL1Origin>,
    timeout: Duration,
    provider: PrefetchedChainProvider,
    hash: B256,
    lookup: Lookup<Header>,
)
    requires
        call_ensures(PrefetchedChainProvider::new, (origin, timeout), provider),
        call_ensures(PrefetchedChainProvider::header_by_hash, (&provider, hash), lookup),
    ensures
        lookup is Buffered <==> (origin matches Some(prepared) && prepared.hash == hash),
        lookup matches Lookup::Buffered(header) ==> header@ == origin->0.header@,
        lookup matches Lookup::Fallback(request) ==> {
            &&& request.call == FallbackCall::HeaderByHash(hash)
            &&& request.kind == FetchKind::ByHash
            &&& request.timeout == timeout
        },
{
}

/// A receipts request is served from the prepared origin exactly when the hash asked for is the one
/// recorded in the origin, and then with that origin's receipts, one for one and in order. In every
/// other case the fallback is asked for the receipts of that very hash, under the timeout that the
/// provider was made with.
pub proof fn law_receipts_requests_ask_for_the_hash(
    origin: Option<&PreparedL1Origin>,
    timeout: Duration,
    provider: PrefetchedChainProvider,
    hash: B256,
    lookup: Lookup<Vec<Receipt>>,
)
    requires
        call_ensures(PrefetchedChainProvider::new, (origin, timeout), provider),
        call_ensures(PrefetchedChainProvider::receipts_by_hash, (&provider, hash), lookup),
    ensures
        lookup is Buffered <==> (origin matches Some(prepared) && prepared.hash == hash),
        lookup matches Lookup::Buffered(receipts) ==> {
            &&& receipts@.len() == origin->0.receipts@.len()
            &&& forall|i: int|
                0 <= i < receipts@.len() ==> (#[trigger] receipts@[i])@
                    == origin->0.receipts@[i]@
        },
        lookup matches Lookup::Fallback(request) ==> {
            &&& request.call == FallbackCall::ReceiptsByHash(hash)
            &&& request.kind == FetchKind::Receipts
            &&& request.timeout == timeout
        },
{
    if let Lookup::Buffered(receipts) = lookup {
        law_receipt_list_contents(receipts@);
        law_receipt_list_contents(origin->0.receipts@);
        assert forall|i: int| 0 <= i < receipts@.len() implies (#[trigger] receipts@[i])@
            == origin->0.receipts@[i]@ by {
            assert(receipt_views(receipts@)[i] == receipt_views(origin->0.receipts@)[i]);
        }
    }
}

/// Requests for block info always go to the fallback, for the block that was asked for, under the
/// timeout that the provider was made with.
pub proof fn law_block_info_requests_ask_for_the_block(
    origin: Option<&PreparedL1Origin>,
    timeout: Duration,
    provider: PrefetchedChainProvider,
    number: u64,
    by_number: FallbackRequest,
    hash: B256,
    by_hash: FallbackRequest,
)
    requires
        call_ensures(PrefetchedChainProvider::new, (origin, timeout), provider),
        call_ensures(
            PrefetchedChainProvider::block_info_by_number,
            (&provider, number),
            by_number,
        ),
        call_ensures(
            PrefetchedChainProvider::block_info_and_transactions_by_hash,
            (&provider, hash),
            by_hash,
        ),
    ensures
        by_number.call == FallbackCall::BlockInfoByNumber(number),
        by_number.kind == FetchKind::ByNumber,
        by_number.timeout == timeout,
        by_hash.call == FallbackCall::BlockInfoAndTransactionsByHash(hash),
        by_hash.kind == FetchKind::ByHash,
        by_hash.timeout == timeout,
{
}

/// The bounded fallback hands on what was answered in time, value or failure, and reports a timeout
/// where nothing was.
pub proof fn law_fallback_outcomes_are_handed_on<T, E, K>(
    outcome: FallbackOutcome<T, E, K>,
    answer: Result<T, PrefetchedChainProviderError<E, K>>,
)
    requires
        call_ensures(
            PrefetchedChainProvider::bounded_fallback::<T, E, K>,
            (outcome,),
            answer,
        ),
    ensures
        outcome is TimedOut ==> answer == Err::<T, _>(PrefetchedChainProviderError::<E, K>::Timeout),
        outcome matches FallbackOutcome::Answered(Ok(value)) ==> answer == Ok::<
            T,
            PrefetchedChainProviderError<E, K>,
        >(value),
        outcome matches FallbackOutcome::Answered(Err(error)) ==> answer == Err::<T, _>(
            PrefetchedChainProviderError::Fallback(error),
        ),
{
}

/// The outcome of a receipts request is handed on, except that a block that the fallback does not
/// know is reported as unavailable receipts of the hash that was asked for.
pub proof fn law_receipts_outcomes_are_handed_on<T, E, K>(
    hash: B256,
    outcome: FallbackOutcome<T, E, K>,
    answer: Result<T, PrefetchedChainProviderError<E, K>>,
)
    requires
        call_ensures(
            PrefetchedChainProvider::receipts_from_fallback::<T, E, K>,
            (hash, outcome),
            answer,
        ),
    ensures
        outcome is TimedOut ==> answer == Err::<T, _>(PrefetchedChainProviderError::<E, K>::Timeout),
        outcome matches FallbackOutcome::Answered(Ok(value)) ==> answer == Ok::<
            T,
            PrefetchedChainProviderError<E, K>,
        >(value),
        outcome matches FallbackOutcome::Answered(Err(AlloyChainProviderError::BlockNotFound(_)))
            ==> answer == Err::<T, _>(
            PrefetchedChainProviderError::<E, K>::ReceiptsUnavailable(hash),
        ),
        outcome matches FallbackOutcome::Answered(Err(AlloyChainProviderError::Other(failure)))
            ==> answer == Err::<T, _>(
            PrefetchedChainProviderError::Fallback(AlloyChainProviderError::Other(failure)),
        ),
{
}

/// A closed request hands on the outcome. Only where receipts were asked for is an unknown block
/// reported as unavailable receipts, of the hash in the request.
pub proof fn law_closed_requests_hand_on_the_outcome<T, E, K>(
    request: FallbackRequest,
    outcome: FallbackOutcome<T, E, K>,
    answer: Result<T, PrefetchedChainProviderError<E, K>>,
)
    requires
        call_ensures(FallbackRequest::close::<T, E, K>, (&request, outcome), answer),
    ensures
        outcome is TimedOut ==> answer == Err::<T, _>(PrefetchedChainProviderError::<E, K>::Timeout),
        outcome matches FallbackOutcome::Answered(Ok(value)) ==> answer == Ok::<
            T,
            PrefetchedChainProviderError<E, K>,
        >(value),
        outcome matches FallbackOutcome::Answered(Err(AlloyChainProviderError::Other(failure)))
            ==> answer == Err::<T, _>(
            PrefetchedChainProviderError::Fallback(AlloyChainProviderError::Other(failure)),
        ),
        outcome matches FallbackOutcome::Answered(
            Err(AlloyChainProviderError::BlockNotFound(failure)),
        ) ==> answer == Err::<T, _>(
            match request.call {
                FallbackCall::ReceiptsByHash(hash) => PrefetchedChainProviderError::<
                    E,
                    K,
                >::ReceiptsUnavailable(hash),
                _ => PrefetchedChainProviderError::Fallback(
                    AlloyChainProviderError::BlockNotFound(failure),
                ),
            },
        ),
{
}

/// A receipts request that is closed with an unknown block names the hash that the request was
/// made for, whatever origin is prepared.
pub proof fn law_unavailable_receipts_are_those_asked_for<T, E, K>(
    provider: PrefetchedChainProvider,
    hash: B256,
    request: FallbackRequest,
    outcome: FallbackOutcome<T, E, K>,
    answer: Result<T, PrefetchedChainProviderError<E, K>>,
)
    requires
        call_ensures(
            PrefetchedChainProvider::receipts_by_hash,
            (&provider, hash),
            Lookup::Fallback(request),
        ),
        call_ensures(FallbackRequest::close::<T, E, K>, (&request, outcome), answer),
    ensures
        answer matches Err(PrefetchedChainProviderError::ReceiptsUnavailable(_)) <==> outcome
            matches FallbackOutcome::Answered(Err(AlloyChainProviderError::BlockNotFound(_))),
        answer matches Err(PrefetchedChainProviderError::ReceiptsUnavailable(named)) ==> named
            == hash,
{
}

/// An origin that a lookup prepared is served under the hash of its header and under no other.
pub proof fn law_prepared_origins_serve_their_own_hash(
    lookup: OriginLookup,
    header_reply: Result<Option<Header>, TransportError>,
    pending: PendingOrigin,
    receipts_reply: Result<Option<Vec<Option<Receipt>>>, TransportError>,
    origin: PreparedL1Origin,
    timeout: Duration,
    provider: PrefetchedChainProvider,
    hash: B256,
    header: Lookup<Header>,
    receipts: Lookup<Vec<Receipt>>,
)
    requires
        call_ensures(
            OriginLookup::header_fetched,
            (lookup, header_reply),
            HeaderStep::FetchReceipts(pending),
        ),
        call_ensures(
            PendingOrigin::receipts_fetched,
            (pending, receipts_reply),
            Ok::<_, L1OriginSelectorError>(Some(origin)),
        ),
        call_ensures(PrefetchedChainProvider::new, (Some(&origin), timeout), provider),
        call_ensures(PrefetchedChainProvider::header_by_hash, (&provider, hash), header),
        call_ensures(PrefetchedChainProvider::receipts_by_hash, (&provider, hash), receipts),
    ensures
        header is Buffered <==> hash == header_hash(header_reply->Ok_0->0@),
        receipts is Buffered <==> hash == header_hash(header_reply->Ok_0->0@),
        header matches Lookup::Buffered(served) ==> {
            &&& served@ == header_reply->Ok_0->0@
            &&& header_hash(served@) == hash
        },
        receipts matches Lookup::Buffered(served) ==> {
            &&& served@.len() == receipts_reply->Ok_0->0@.len()
            &&& forall|i: int|
                0 <= i < served@.len() ==> (#[trigger] served@[i])@
                    == receipts_reply->Ok_0->0@[i]->0@
        },
{
    law_receipts_are_asked_of_the_found_block(
        lookup,
        header_reply,
        HeaderStep::FetchReceipts(pending),
    );
    law_origins_are_made_of_what_was_fetched(
        pending,
        receipts_reply,
        Ok::<_, L1OriginSelectorError>(Some(origin)),
    );
    law_header_requests_ask_for_the_hash(Some(&origin), timeout, provider, hash, header);
    law_receipts_requests_ask_for_the_hash(Some(&origin), timeout, provider, hash, receipts);
    if let Lookup::Buffered(served) = receipts {
        let entries = receipts_reply->Ok_0->0;
        assert forall|i: int| 0 <= i < served@.len() implies (#[trigger] served@[i])@
            == entries@[i]->0@ by {
            assert(entries@[i] == Some(origin.receipts@[i]));
        }
    }
}

// Errors.
/// The message of an error is the fallback's own for a failed fallback, and otherwise says what
/// happened and to which block.
pub proof fn law_messages_say_what_happened<E, K>(
    error: PrefetchedChainProviderError<E, K>,
    text: String,
)
    requires
        call_ensures(PrefetchedChainProviderError::<E, K>::to_string, (&error,), text),
    ensures
        error matches PrefetchedChainProviderError::Fallback(
            AlloyChainProviderError::BlockNotFound(failure),
        ) ==> text@ == failure.message@,
        error matches PrefetchedChainProviderError::Fallback(
            AlloyChainProviderError::Other(failure),
        ) ==> text@ == failure.message@,
        error is Timeout ==> text@ == "timed out fetching L1 data from fallback provider"@,
        error matches PrefetchedChainProviderError::ReceiptsUnavailable(hash) ==> text@
            == "receipts unavailable for L1 origin: "@ + hex_text(hash),
{
}

/// The pipeline treats a failed fallback as the fallback says, and is told to try again, and why,
/// on a timeout and on unavailable receipts.
pub proof fn law_pipeline_kinds_follow_the_error<E, K>(
    error: PrefetchedChainProviderError<E, K>,
    kind: PipelineErrorKind<K>,
)
    requires
        call_ensures(
            <PipelineErrorKind<K> as From<PrefetchedChainProviderError<E, K>>>::from,
            (error,),
            kind,
        ),
    ensures
        error matches PrefetchedChainProviderError::Fallback(
            AlloyChainProviderError::BlockNotFound(failure),
        ) ==> kind == failure.pipeline_kind,
        error matches PrefetchedChainProviderError::Fallback(
            AlloyChainProviderError::Other(failure),
        ) ==> kind == failure.pipeline_kind,
        error is Timeout ==> {
            &&& kind matches PipelineErrorKind::Temporary(PipelineError::Provider(message))
            &&& message@ == "L1 fallback lookup timed out"@
        },
        error matches PrefetchedChainProviderError::ReceiptsUnavailable(hash) ==> {
            &&& kind matches PipelineErrorKind::Temporary(PipelineError::Provider(message))
            &&& message@ == "L1 origin receipts unavailable: "@ + hex_text(hash)
        },
{
}

/// A failure of the fallback is wrapped as it is.
pub proof fn law_fallback_failures_are_wrapped<E, K>(
    error: AlloyChainProviderError<E, K>,
    wrapped: PrefetchedChainProviderError<E, K>,
)
    requires
        call_ensures(
            <PrefetchedChainProviderError<E, K> as From<AlloyChainProviderError<E, K>>>::from,
            (error,),
            wrapped,
        ),
    ensures
        wrapped == PrefetchedChainProviderError::Fallback(error),
{
}

/// A kind of request is labelled by what it fetches.
pub proof fn law_labels_name_what_is_fetched(kind: FetchKind, label: &'static str)
    requires
        call_ensures(FetchKind::label, (kind,), label),
    ensures
        kind is ByHash ==> label@ == "by_hash"@,
        kind is ByNumber ==> label@ == "by_number"@,
        kind is Receipts ==> label@ == "receipts"@,
{
}

// Hash text.
/// The text of a hash starts with `0x` and spells each byte by its high and its low digit.
pub proof fn law_hash_text_spells_the_bytes(hash: B256, at: int)
    requires
        0 <= at < 32,
    ensures
        hex_text(hash).len() == 66,
        hex_text(hash)[0] == '0',
        hex_text(hash)[1] == 'x',
        hex_text(hash)[2 * at + 2] == "0123456789abcdef"@[hash[at] as int / 16],
        hex_text(hash)[2 * at + 3] == "0123456789abcdef"@[hash[at] as int % 16],
{
    reveal_strlit("0123456789abcdef");
    let high = 2 * at + 2;
    let low = 2 * at + 3;
    assert((high - 2) / 2 == at && high % 2 == 0);
    assert((low - 2) / 2 == at && low % 2 == 1);
}

// Configuration.
/// A sync mode is written as its two lowercase letters.
pub proof fn law_modes_are_written_in_lowercase(mode: SequencerSyncMode, text: String)
    requires
        call_ensures(SequencerSyncMode::to_string, (&mode,), text),
    ensures
        mode == SequencerSyncMode::Cl ==> text@ == seq!['c', 'l'],
        mode == SequencerSyncMode::El ==> text@ == seq!['e', 'l'],
{
    reveal_strlit("cl");
    reveal_strlit("el");
}

/// The default configuration is that of a running, normal sequencer that syncs from the consensus
/// layer, without a conductor, with a conductor timeout of one second and no confirmation delay.
pub proof fn law_default_is_a_normal_sequencer(config: SequencerConfig)
    requires
        call_ensures(<SequencerConfig as Default>::default, (), config),
    ensures
        !config.sequencer_stopped,
        !config.sequencer_recovery_mode,
        config.shadow_blocks_per_cycle is None,
        config.sequencer_sync_mode == SequencerSyncMode::Cl,
        config.conductor_rpc_url is None,
        !config.conductor_binary_commit,
        config.conductor_rpc_timeout == whole_seconds(1),
        config.l1_conf_delay == 0,
{
}

/// Exactly the execution-layer mode completes sync from the execution layer, and it is not the
/// default.
pub proof fn law_only_the_el_mode_is_el(
    mode: SequencerSyncMode,
    el: bool,
    default: SequencerSyncMode,
)
    requires
        call_ensures(SequencerSyncMode::is_el, (mode,), el),
        call_ensures(<SequencerSyncMode as Default>::default, (), default),
    ensures
        el <==> mode == SequencerSyncMode::El,
        el ==> mode != default,
        !el ==> mode == default,
{
}

/// A number of blocks is taken exactly when it is not zero, and comes back as it was given.
pub proof fn law_numbers_of_blocks_come_back(
    value: u64,
    taken: Option<NonZeroU64>,
    returned: u64,
)
    requires
        call_ensures(NonZeroU64::new, (value,), taken),
        taken matches Some(number) ==> call_ensures(NonZeroU64::get, (number,), returned),
    ensures
        taken is Some <==> value != 0,
        taken is Some ==> returned == value,
{
}

/// A copied configuration is the same in every field.
pub proof fn law_copied_configs_are_the_same(config: SequencerConfig, copy: SequencerConfig)
    requires
        call_ensures(<SequencerConfig as Clone>::clone, (&config,), copy),
    ensures
        copy == config,
{
}

/// Hashes are the same exactly when they are alike in each byte.
pub proof fn law_hashes_are_compared_in_each_byte(left: B256, right: B256, same: bool)
    requires
        call_ensures(same_hash, (&left, &right), same),
    ensures
        same <==> forall|i: int| 0 <= i < 32 ==> #[trigger] left[i] == right[i],
{
    if forall|i: int| 0 <= i < 32 ==> #[trigger] left[i] == right[i] {
        assert(left =~= right);
    }
}

} // verus!
