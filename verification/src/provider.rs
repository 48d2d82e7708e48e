//! L1 provider interfaces and implementations for origin selection.
//!
//! A lookup alternates requests to the L1 RPC and decisions. The decisions stand here: a lookup
//! starts as an [`OriginLookup`], which asks for a header; the reply leads to a
//! [`PendingOrigin`], which asks for receipts, or ends the lookup.

use crate::header::{header_hash, Header};
use crate::origin::{L1OriginSelectorError, PreparedL1Origin};
use crate::primitives::{same_hash, BlockInfo, B256};
use crate::receipt::{all_present, collect_receipts, Receipt};
use crate::transport::custom_transport_error;
use alloy_transport::{TransportError, TransportErrorKind};
use std::sync::Arc;
use vstd::prelude::*;

verus! {

/// A lookup that waits for the header of a block.
#[derive(Debug, Clone, Copy, PartialEq, Eq)]
pub enum OriginLookup {
    /// The block with this hash is wanted.
    ByHash(B256),
    /// The block at this number is wanted.
    ByNumber(u64),
}

/// A lookup that waits for the receipts of a block.
#[derive(Debug, PartialEq, Eq)]
pub struct PendingOrigin {
    /// The hash of the block whose receipts are wanted.
    pub hash: B256,
    /// The header of the block.
    pub header: Header,
}

/// Where a lookup stands once the header request has been answered.
#[derive(Debug)]
pub enum HeaderStep {
    /// The receipts of the block are to be fetched.
    FetchReceipts(PendingOrigin),
    /// The lookup is over.
    Finished(Result<Option<PreparedL1Origin>, L1OriginSelectorError>),
}

/// The error for a header at another number than the one asked for.
pub open spec fn wrong_number_error() -> L1OriginSelectorError {
    L1OriginSelectorError::Provider(
        custom_transport_error("L1 RPC returned a header at the wrong block number"@),
    )
}

/// The error for a block with a receipt that could not be converted.
pub open spec fn conversion_error() -> L1OriginSelectorError {
    L1OriginSelectorError::Provider(custom_transport_error("failed to convert RPC receipts"@))
}

impl OriginLookup {
    /// Whether a header with the given block hash is the one that was asked for.
    pub open spec fn is_answered_by(self, header: Header, hash: B256) -> bool {
        match self {
            OriginLookup::ByHash(wanted) => hash == wanted,
            OriginLookup::ByNumber(wanted) => header.number == wanted,
        }
    }

    /// How the lookup ends when the header is not the one that was asked for.
    pub open spec fn mismatch(self) -> Result<Option<PreparedL1Origin>, L1OriginSelectorError> {
        match self {
            OriginLookup::ByHash(_) => Ok(None),
            OriginLookup::ByNumber(_) => Err(wrong_number_error()),
        }
    }

    /// Where the lookup goes on a header with the given block hash.
    pub open spec fn step_on_header(self, header: Header, hash: B256) -> HeaderStep {
        if self.is_answered_by(header, hash) {
            HeaderStep::FetchReceipts(PendingOrigin { hash, header })
        } else {
            HeaderStep::Finished(self.mismatch())
        }
    }

    /// Where the lookup goes on a reply to the header request.
    pub open spec fn step_on_reply(
        self,
        reply: Result<Option<Header>, TransportError>,
    ) -> HeaderStep {
        match reply {
            Err(error) => HeaderStep::Finished(Err(L1OriginSelectorError::Provider(error))),
            Ok(None) => HeaderStep::Finished(Ok(None)),
            Ok(Some(header)) => self.step_on_header(header, header_hash(header@)),
        }
    }

    /// Whether `result` is how the whole lookup ends on the replies to its two requests.
    ///
    /// Where the lookup is over after the header request, no receipts are asked for, and
    /// `receipts_reply` is of no account.
    pub open spec fn ends_with(
        self,
        header_reply: Result<Option<Header>, TransportError>,
        receipts_reply: Result<Option<Vec<Option<Receipt>>>, TransportError>,
        result: Result<Option<PreparedL1Origin>, L1OriginSelectorError>,
    ) -> bool {
        match self.step_on_reply(header_reply) {
            HeaderStep::FetchReceipts(pending) => pending.ends_with(receipts_reply, result),
            HeaderStep::Finished(end) => result == end,
        }
    }

    /// Continues the lookup with a header and its block hash.
    ///
    /// A header with another hash than the one asked for is dropped, as if there were none. A
    /// header at another number than the one asked for is an error.
    pub fn header_sealed(self, header: Header, hash: B256) -> (step: HeaderStep)
        ensures
            step == self.step_on_header(header, hash),
    {
        match self {
            OriginLookup::ByHash(wanted) => {
                if !same_hash(&hash, &wanted) {
                    return HeaderStep::Finished(Ok(None));
                }
            },
            OriginLookup::ByNumber(wanted) => {
                if header.number != wanted {
                    return HeaderStep::Finished(
                        Err(
                            L1OriginSelectorError::Provider(
                                TransportErrorKind::custom_str(
                                    "L1 RPC returned a header at the wrong block number",
                                ),
                            ),
                        ),
                    );
                }
            },
        }
        HeaderStep::FetchReceipts(PendingOrigin { hash, header })
    }

    /// Continues the lookup with the reply to the header request.
    pub fn header_fetched(self, reply: Result<Option<Header>, TransportError>) -> (step: HeaderStep)
        ensures
            step == self.step_on_reply(reply),
    {
        match reply {
            Err(error) => HeaderStep::Finished(Err(L1OriginSelectorError::Provider(error))),
            Ok(None) => HeaderStep::Finished(Ok(None)),
            Ok(Some(header)) => {
                let hash = header.hash_slow();
                self.header_sealed(header, hash)
            },
        }
    }
}

impl PendingOrigin {
    /// Whether `result` is how the lookup ends on a reply to the receipts request.
    pub open spec fn ends_with(
        self,
        reply: Result<Option<Vec<Option<Receipt>>>, TransportError>,
        result: Result<Option<PreparedL1Origin>, L1OriginSelectorError>,
    ) -> bool {
        match reply {
            Err(error) => result == Err::<Option<PreparedL1Origin>, _>(
                L1OriginSelectorError::Provider(error),
            ),
            Ok(None) => result == Err::<Option<PreparedL1Origin>, _>(
                L1OriginSelectorError::ReceiptsUnavailable(self.hash),
            ),
            Ok(Some(entries)) => if all_present(entries@) {
                &&& result matches Ok(Some(origin))
                &&& origin.hash == self.hash
                &&& origin.header == self.header
                &&& origin.receipts@ == entries@.map_values(|entry: Option<Receipt>| entry->0)
            } else {
                result == Err::<Option<PreparedL1Origin>, _>(conversion_error())
            },
        }
    }

    /// Ends the lookup with the reply to the receipts request.
    pub fn receipts_fetched(
        self,
        reply: Result<Option<Vec<Option<Receipt>>>, TransportError>,
    ) -> (result: Result<Option<PreparedL1Origin>, L1OriginSelectorError>)
        ensures
            self.ends_with(reply, result),
    {
        match DelayedL1OriginSelectorProvider::receipts_by_hash(reply) {
            Err(error) => Err(error),
            Ok(None) => Err(L1OriginSelectorError::ReceiptsUnavailable(self.hash)),
            Ok(Some(receipts)) => Ok(
                Some(
                    PreparedL1Origin {
                        hash: self.hash,
                        header: self.header,
                        receipts: Arc::new(receipts),
                    },
                ),
            ),
        }
    }
}

/// Prepared L1 origin provider interface.
pub trait L1OriginSelectorProvider {
    /// The hash of the latest observed L1 head.
    spec fn head_hash(&self) -> Option<B256>;

    /// Whether the block at `number` may be looked up.
    spec fn shows(&self, number: u64) -> bool;

    /// Returns the latest observed L1 head hash, used to identify the canonical chain view.
    fn chain_view(&self) -> (hash: Option<B256>)
        ensures
            hash == self.head_hash(),
    ;

    /// Starts the lookup of an origin by its hash.
    fn prepared_by_hash(&self, hash: B256) -> (lookup: OriginLookup)
        ensures
            lookup == OriginLookup::ByHash(hash),
    ;

    /// Starts the lookup of an origin by its number.
    ///
    /// Where there is no lookup to start, the request is answered as empty.
    fn prepared_by_number(&self, number: u64) -> (lookup: Option<OriginLookup>)
        ensures
            lookup == (if self.shows(number) {
                Some(OriginLookup::ByNumber(number))
            } else {
                None
            }),
    ;
}

/// A provider that delays the view of the L1 chain by a configurable amount of blocks.
#[derive(Debug)]
pub struct DelayedL1OriginSelectorProvider {
    /// The L1 head, where one has been observed.
    l1_head: Option<BlockInfo>,
    /// The confirmation depth to delay the view of the L1 chain.
    confirmation_depth: u64,
}

/// Whether the block at `number` counts as `depth` blocks below the head at `head`.
///
/// The genesis block always does, and without a depth every block does.
pub open spec fn confirmed(number: u64, depth: u64, head: u64) -> bool {
    ||| number == 0
    ||| depth == 0
    ||| number + depth <= head
}

impl DelayedL1OriginSelectorProvider {
    /// The L1 head of the provider.
    pub closed spec fn head(self) -> Option<BlockInfo> {
        self.l1_head
    }

    /// The confirmation depth of the provider.
    pub closed spec fn depth(self) -> u64 {
        self.confirmation_depth
    }

    /// Whether `result` is the answer to a request for the block with this hash, on the replies of
    /// the RPC.
    pub open spec fn prepares_by_hash(
        self,
        hash: B256,
        header_reply: Result<Option<Header>, TransportError>,
        receipts_reply: Result<Option<Vec<Option<Receipt>>>, TransportError>,
        result: Result<Option<PreparedL1Origin>, L1OriginSelectorError>,
    ) -> bool {
        OriginLookup::ByHash(hash).ends_with(header_reply, receipts_reply, result)
    }

    /// Whether `result` is the answer to a request for the block at this number, on the replies of
    /// the RPC.
    ///
    /// A block that is not shown is not looked up: the answer is empty, and the replies are of no
    /// account.
    pub open spec fn prepares_by_number(
        self,
        number: u64,
        header_reply: Result<Option<Header>, TransportError>,
        receipts_reply: Result<Option<Vec<Option<Receipt>>>, TransportError>,
        result: Result<Option<PreparedL1Origin>, L1OriginSelectorError>,
    ) -> bool {
        if self.shows(number) {
            OriginLookup::ByNumber(number).ends_with(header_reply, receipts_reply, result)
        } else {
            result == Ok::<_, L1OriginSelectorError>(None::<PreparedL1Origin>)
        }
    }

    /// Creates a new [`DelayedL1OriginSelectorProvider`].
    pub fn new(l1_head: Option<BlockInfo>, confirmation_depth: u64) -> (provider: Self)
        ensures
            provider.head() == l1_head,
            provider.depth() == confirmation_depth,
    {
        Self { l1_head, confirmation_depth }
    }

    /// Turns the reply to a receipts request into receipts.
    ///
    /// An entry of the reply is missing where the RPC receipt could not be converted.
    pub fn receipts_by_hash(
        reply: Result<Option<Vec<Option<Receipt>>>, TransportError>,
    ) -> (result: Result<Option<Vec<Receipt>>, L1OriginSelectorError>)
        ensures
            match reply {
                Err(error) => result == Err::<Option<Vec<Receipt>>, _>(
                    L1OriginSelectorError::Provider(error),
                ),
                Ok(None) => result == Ok::<_, L1OriginSelectorError>(None::<Vec<Receipt>>),
                Ok(Some(entries)) => if all_present(entries@) {
                    &&& result matches Ok(Some(receipts))
                    &&& receipts@ == entries@.map_values(|entry: Option<Receipt>| entry->0)
                } else {
                    result == Err::<Option<Vec<Receipt>>, _>(conversion_error())
                },
            },
    {
        match reply {
            Err(error) => Err(L1OriginSelectorError::Provider(error)),
            Ok(None) => Ok(None),
            Ok(Some(entries)) => match collect_receipts(entries) {
                Some(receipts) => Ok(Some(receipts)),
                None => Err(
                    L1OriginSelectorError::Provider(
                        TransportErrorKind::custom_str("failed to convert RPC receipts"),
                    ),
                ),
            },
        }
    }
}

impl L1OriginSelectorProvider for DelayedL1OriginSelectorProvider {
    open spec fn head_hash(&self) -> Option<B256> {
        match self.head() {
            Some(head) => Some(head.hash),
            None => None,
        }
    }

    open spec fn shows(&self, number: u64) -> bool {
        &&& self.head() matches Some(head)
        &&& confirmed(number, self.depth(), head.number)
    }

    fn chain_view(&self) -> (hash: Option<B256>) {
        match &self.l1_head {
            Some(head) => Some(head.hash),
            None => None,
        }
    }

    fn prepared_by_hash(&self, hash: B256) -> (lookup: OriginLookup) {
        // By-hash lookups are not delayed, as they're direct indexes.
        OriginLookup::ByHash(hash)
    }

    fn prepared_by_number(&self, number: u64) -> (lookup: Option<OriginLookup>) {
        match &self.l1_head {
            // Without an observed head, a by-number result cannot be tied to a canonical chain
            // view or checked against the confirmation delay.
            None => None,
            Some(head) => {
                let deep_enough = match number.checked_add(self.confirmation_depth) {
                    Some(confirmed_at) => confirmed_at <= head.number,
                    None => false,
                };
                if number == 0 || self.confirmation_depth == 0 || deep_enough {
                    Some(OriginLookup::ByNumber(number))
                } else {
                    None
                }
            },
        }
    }
}

/// A lookup finds an origin exactly when the RPC returned a header that was asked for and all of
/// its receipts. The origin is then made of that header, its hash and those receipts, and is the
/// block that was asked for.
pub proof fn law_lookup_finds_the_requested_block(
    lookup: OriginLookup,
    header_reply: Result<Option<Header>, TransportError>,
    receipts_reply: Result<Option<Vec<Option<Receipt>>>, TransportError>,
    result: Result<Option<PreparedL1Origin>, L1OriginSelectorError>,
)
    requires
        lookup.ends_with(header_reply, receipts_reply, result),
    ensures
        result matches Ok(Some(_)) <==> {
            &&& header_reply matches Ok(Some(header))
            &&& lookup.is_answered_by(header, header_hash(header@))
            &&& receipts_reply matches Ok(Some(entries))
            &&& all_present(entries@)
        },
        result matches Ok(Some(origin)) ==> {
            &&& origin.well_formed()
            &&& header_reply == Ok::<_, TransportError>(Some(origin.header))
            &&& origin.receipts@ == receipts_reply->Ok_0->0@.map_values(
                |entry: Option<Receipt>| entry->0,
            )
            &&& lookup matches OriginLookup::ByHash(hash) ==> origin.hash == hash
            &&& lookup matches OriginLookup::ByNumber(number) ==> origin.header.number == number
        },
{
}

/// A request by hash gives an origin only for the block with that hash, whatever the head and the
/// confirmation depth.
pub proof fn law_prepared_by_hash_is_the_requested_block(
    provider: DelayedL1OriginSelectorProvider,
    hash: B256,
    header_reply: Result<Option<Header>, TransportError>,
    receipts_reply: Result<Option<Vec<Option<Receipt>>>, TransportError>,
    result: Result<Option<PreparedL1Origin>, L1OriginSelectorError>,
)
    requires
        provider.prepares_by_hash(hash, header_reply, receipts_reply, result),
    ensures
        result matches Ok(Some(origin)) ==> {
            &&& origin.hash == hash
            &&& origin.well_formed()
        },
        result matches Ok(Some(_)) <==> {
            &&& header_reply matches Ok(Some(header))
            &&& header_hash(header@) == hash
            &&& receipts_reply matches Ok(Some(entries))
            &&& all_present(entries@)
        },
{
}

/// A request by number gives an origin only for the block at that number, and only where that
/// block is shown. Where it is not, the answer is empty whatever the RPC would reply.
pub proof fn law_prepared_by_number_is_delayed(
    provider: DelayedL1OriginSelectorProvider,
    number: u64,
    header_reply: Result<Option<Header>, TransportError>,
    receipts_reply: Result<Option<Vec<Option<Receipt>>>, TransportError>,
    result: Result<Option<PreparedL1Origin>, L1OriginSelectorError>,
)
    requires
        provider.prepares_by_number(number, header_reply, receipts_reply, result),
    ensures
        !provider.shows(number) ==> result == Ok::<_, L1OriginSelectorError>(
            None::<PreparedL1Origin>,
        ),
        result matches Ok(Some(origin)) ==> {
            &&& provider.shows(number)
            &&& origin.header.number == number
            &&& origin.well_formed()
        },
        result matches Ok(Some(_)) <==> {
            &&& provider.shows(number)
            &&& header_reply matches Ok(Some(header))
            &&& header.number == number
            &&& receipts_reply matches Ok(Some(entries))
            &&& all_present(entries@)
        },
{
}

/// A lookup comes back empty exactly when the RPC knew no such block, or when a block was asked
/// for by its hash and the RPC returned one with another hash.
pub proof fn law_lookup_comes_back_empty(
    lookup: OriginLookup,
    header_reply: Result<Option<Header>, TransportError>,
    receipts_reply: Result<Option<Vec<Option<Receipt>>>, TransportError>,
    result: Result<Option<PreparedL1Origin>, L1OriginSelectorError>,
)
    requires
        lookup.ends_with(header_reply, receipts_reply, result),
    ensures
        result matches Ok(None) <==> {
            ||| header_reply matches Ok(None)
            ||| {
                &&& lookup matches OriginLookup::ByHash(hash)
                &&& header_reply matches Ok(Some(header))
                &&& header_hash(header@) != hash
            }
        },
{
}

/// A lookup reports unavailable receipts exactly when the RPC returned a header that was asked
/// for and no receipts, and the error names the block.
pub proof fn law_missing_receipts_are_reported(
    lookup: OriginLookup,
    header_reply: Result<Option<Header>, TransportError>,
    receipts_reply: Result<Option<Vec<Option<Receipt>>>, TransportError>,
    result: Result<Option<PreparedL1Origin>, L1OriginSelectorError>,
)
    requires
        lookup.ends_with(header_reply, receipts_reply, result),
    ensures
        result matches Err(L1OriginSelectorError::ReceiptsUnavailable(_)) <==> {
            &&& header_reply matches Ok(Some(header))
            &&& lookup.is_answered_by(header, header_hash(header@))
            &&& receipts_reply matches Ok(None)
        },
        result matches Err(L1OriginSelectorError::ReceiptsUnavailable(hash)) ==> {
            &&& hash == header_hash(header_reply->Ok_0->0@)
            &&& lookup matches OriginLookup::ByHash(wanted) ==> hash == wanted
        },
{
}

/// A failure of the transport ends a lookup and comes out as it went in.
pub proof fn law_transport_failures_come_out(
    lookup: OriginLookup,
    header_reply: Result<Option<Header>, TransportError>,
    receipts_reply: Result<Option<Vec<Option<Receipt>>>, TransportError>,
    result: Result<Option<PreparedL1Origin>, L1OriginSelectorError>,
)
    requires
        lookup.ends_with(header_reply, receipts_reply, result),
    ensures
        header_reply matches Err(error) ==> result == Err::<Option<PreparedL1Origin>, _>(
            L1OriginSelectorError::Provider(error),
        ),
        ({
            &&& header_reply matches Ok(Some(header))
            &&& lookup.is_answered_by(header, header_hash(header@))
        }) ==> (receipts_reply matches Err(error) ==> result == Err::<
            Option<PreparedL1Origin>,
            _,
        >(L1OriginSelectorError::Provider(error))),
{
}

/// A block above genesis that a delayed provider shows lies at least the confirmation depth below
/// the head, and every such block is shown.
pub proof fn law_shown_blocks_are_confirmed(
    provider: DelayedL1OriginSelectorProvider,
    number: u64,
)
    requires
        number > 0,
        provider.depth() > 0,
    ensures
        provider.shows(number) <==> {
            &&& provider.head() matches Some(head)
            &&& head.number - number >= provider.depth()
        },
{
}

/// A provider that has seen no head shows no block by number.
pub proof fn law_no_head_shows_nothing(provider: DelayedL1OriginSelectorProvider, number: u64)
    requires
        provider.head() is None,
    ensures
        !provider.shows(number),
        provider.head_hash() is None,
{
}

/// A provider that has seen a head shows the genesis block, and without a confirmation depth it
/// shows every block.
pub proof fn law_genesis_is_shown(provider: DelayedL1OriginSelectorProvider, number: u64)
    requires
        provider.head() is Some,
    ensures
        provider.shows(0),
        provider.depth() == 0 ==> provider.shows(number),
{
}

/// Where a block is shown, so are all the blocks below it.
pub proof fn law_shown_blocks_reach_down(
    provider: DelayedL1OriginSelectorProvider,
    number: u64,
    lower: u64,
)
    requires
        provider.shows(number),
        lower <= number,
    ensures
        provider.shows(lower),
{
}

/// A block that is shown stays so as the head advances and as the confirmation depth shrinks.
pub proof fn law_shown_blocks_stay_shown(
    before: DelayedL1OriginSelectorProvider,
    after: DelayedL1OriginSelectorProvider,
    number: u64,
)
    requires
        before.shows(number),
        after.head() matches Some(head) && head.number >= before.head()->0.number,
        after.depth() <= before.depth(),
    ensures
        after.shows(number),
{
}

} // verus!
