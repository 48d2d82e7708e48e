//! Chain provider for prefetched sequencer origins.
//!
//! Requests that the prepared origin answers are served from it. All others go to an RPC fallback
//! under a timeout: a [`FallbackRequest`] says what to ask and how long to wait, and the
//! [`FallbackOutcome`] is turned into the answer here.

use crate::header::{header_hash, Header};
use crate::origin::{L1OriginSelectorError, PreparedL1Origin};
use crate::primitives::{hash_text, hex_text, same_hash, B256};
use crate::provider::OriginLookup;
use crate::receipt::{clone_receipts, receipt_views, Receipt};
use alloy_transport::TransportError;
use std::time::Duration;
use vstd::prelude::*;
use vstd::string::*;

verus! {

/// An error of the derivation pipeline.
///
/// `K` stands for the errors that only the fallback provider knows.
#[derive(Debug, PartialEq, Eq)]
pub enum PipelineError<K> {
    /// A chain provider failed, with its message.
    Provider(String),
    /// The fallback provider reported another error.
    Other(K),
}

/// How the derivation pipeline treats an error.
///
/// `K` stands for the errors and kinds that only the fallback provider knows.
#[derive(Debug, PartialEq, Eq)]
pub enum PipelineErrorKind<K> {
    /// The step is to be tried again.
    Temporary(PipelineError<K>),
    /// The fallback provider asks for another treatment.
    Other(K),
}

/// A failed request to the fallback provider.
#[derive(Debug, PartialEq, Eq)]
pub struct FallbackFailure<E, K> {
    /// The error, carried as it came.
    pub error: E,
    /// The message of the error.
    pub message: String,
    /// How the derivation pipeline is to treat the error.
    pub pipeline_kind: PipelineErrorKind<K>,
}

/// Error of the fallback provider.
#[derive(Debug, PartialEq, Eq)]
pub enum AlloyChainProviderError<E, K> {
    /// There is no such block.
    BlockNotFound(FallbackFailure<E, K>),
    /// The request failed otherwise.
    Other(FallbackFailure<E, K>),
}

impl<E, K> AlloyChainProviderError<E, K> {
    /// The failed request.
    pub open spec fn failure(self) -> FallbackFailure<E, K> {
        match self {
            AlloyChainProviderError::BlockNotFound(failure) => failure,
            AlloyChainProviderError::Other(failure) => failure,
        }
    }
}

/// Error returned by [`PrefetchedChainProvider`].
#[derive(Debug, PartialEq, Eq)]
pub enum PrefetchedChainProviderError<E, K> {
    /// The RPC fallback failed.
    Fallback(AlloyChainProviderError<E, K>),
    /// The bounded RPC fallback timed out.
    Timeout,
    /// The requested block exists but its receipts are not available yet.
    ReceiptsUnavailable(B256),
}

impl<E, K> PrefetchedChainProviderError<E, K> {
    /// The message of the error.
    pub open spec fn message(self) -> Seq<char> {
        match self {
            PrefetchedChainProviderError::Fallback(error) => error.failure().message@,
            PrefetchedChainProviderError::Timeout =>
                "timed out fetching L1 data from fallback provider"@,
            PrefetchedChainProviderError::ReceiptsUnavailable(hash) =>
                "receipts unavailable for L1 origin: "@ + hex_text(hash),
        }
    }

    /// Writes the message of the error.
    pub fn to_string(&self) -> (text: String)
        ensures
            text@ == self.message(),
    {
        match self {
            PrefetchedChainProviderError::Fallback(error) => match error {
                AlloyChainProviderError::BlockNotFound(failure) => failure.message.clone(),
                AlloyChainProviderError::Other(failure) => failure.message.clone(),
            },
            PrefetchedChainProviderError::Timeout =>
                "timed out fetching L1 data from fallback provider".to_owned(),
            PrefetchedChainProviderError::ReceiptsUnavailable(hash) => {
                let mut text = "receipts unavailable for L1 origin: ".to_owned();
                text.append(hash_text(hash).as_str());
                text
            },
        }
    }

    /// Whether the pipeline treats the error as `kind`.
    pub open spec fn is_treated_as(self, kind: PipelineErrorKind<K>) -> bool {
        match self {
            PrefetchedChainProviderError::Fallback(error) => kind == error.failure().pipeline_kind,
            PrefetchedChainProviderError::Timeout => {
                &&& kind matches PipelineErrorKind::Temporary(PipelineError::Provider(message))
                &&& message@ == "L1 fallback lookup timed out"@
            },
            PrefetchedChainProviderError::ReceiptsUnavailable(hash) => {
                &&& kind matches PipelineErrorKind::Temporary(PipelineError::Provider(message))
                &&& message@ == "L1 origin receipts unavailable: "@ + hex_text(hash)
            },
        }
    }
}

impl<E, K> From<AlloyChainProviderError<E, K>> for PrefetchedChainProviderError<E, K> {
    fn from(error: AlloyChainProviderError<E, K>) -> (wrapped: Self) {
        PrefetchedChainProviderError::Fallback(error)
    }
}

impl<E, K> vstd::std_specs::convert::FromSpecImpl<AlloyChainProviderError<E, K>> for PrefetchedChainProviderError<E, K> {
    open spec fn obeys_from_spec() -> bool {
        true
    }

    open spec fn from_spec(error: AlloyChainProviderError<E, K>) -> Self {
        PrefetchedChainProviderError::Fallback(error)
    }
}

impl<E, K> From<PrefetchedChainProviderError<E, K>> for PipelineErrorKind<K> {
    fn from(error: PrefetchedChainProviderError<E, K>) -> (kind: Self)
        ensures
            error.is_treated_as(kind),
    {
        match error {
            PrefetchedChainProviderError::Fallback(error) => match error {
                AlloyChainProviderError::BlockNotFound(failure) => failure.pipeline_kind,
                AlloyChainProviderError::Other(failure) => failure.pipeline_kind,
            },
            PrefetchedChainProviderError::Timeout => PipelineErrorKind::Temporary(
                PipelineError::Provider("L1 fallback lookup timed out".to_owned()),
            ),
            PrefetchedChainProviderError::ReceiptsUnavailable(hash) => {
                let mut message = "L1 origin receipts unavailable: ".to_owned();
                message.append(hash_text(&hash).as_str());
                PipelineErrorKind::Temporary(PipelineError::Provider(message))
            },
        }
    }
}

impl<E, K> vstd::std_specs::convert::FromSpecImpl<PrefetchedChainProviderError<E, K>> for PipelineErrorKind<K> {
    open spec fn obeys_from_spec() -> bool {
        false
    }

    open spec fn from_spec(error: PrefetchedChainProviderError<E, K>) -> Self {
        arbitrary()
    }
}

/// What a fallback request fetches, as logs and metrics name it.
#[derive(Debug, Clone, Copy, PartialEq, Eq)]
pub enum FetchKind {
    /// A block, by its hash.
    ByHash,
    /// A block, by its number.
    ByNumber,
    /// The receipts of a block.
    Receipts,
}

impl FetchKind {
    /// The label of the kind.
    pub open spec fn name(self) -> Seq<char> {
        match self {
            FetchKind::ByHash => "by_hash"@,
            FetchKind::ByNumber => "by_number"@,
            FetchKind::Receipts => "receipts"@,
        }
    }

    /// Returns the label of the kind.
    pub fn label(self) -> (label: &'static str)
        ensures
            label@ == self.name(),
    {
        match self {
            FetchKind::ByHash => "by_hash",
            FetchKind::ByNumber => "by_number",
            FetchKind::Receipts => "receipts",
        }
    }
}

/// A question to the fallback provider.
#[derive(Debug, Clone, Copy, PartialEq, Eq)]
pub enum FallbackCall {
    /// The header of the block with this hash.
    HeaderByHash(B256),
    /// The place of the block at this number.
    BlockInfoByNumber(u64),
    /// The receipts of the block with this hash.
    ReceiptsByHash(B256),
    /// The place and the transactions of the block with this hash.
    BlockInfoAndTransactionsByHash(B256),
}

/// A question to the fallback provider, with the time it may take.
#[derive(Debug, PartialEq, Eq)]
pub struct FallbackRequest {
    /// The question.
    pub call: FallbackCall,
    /// What the question fetches.
    pub kind: FetchKind,
    /// How long to wait for the answer.
    pub timeout: Duration,
}

/// What became of a question to the fallback provider.
#[derive(Debug, PartialEq, Eq)]
pub enum FallbackOutcome<T, E, K> {
    /// No answer came in time.
    TimedOut,
    /// The provider answered in time.
    Answered(Result<T, AlloyChainProviderError<E, K>>),
}

impl FallbackRequest {
    /// The answer to the request that an outcome of the fallback stands for.
    pub open spec fn answer_on<T, E, K>(
        self,
        outcome: FallbackOutcome<T, E, K>,
    ) -> Result<T, PrefetchedChainProviderError<E, K>> {
        match self.call {
            FallbackCall::ReceiptsByHash(hash) => PrefetchedChainProvider::fallback_receipts(
                hash,
                outcome,
            ),
            _ => PrefetchedChainProvider::fallback_answer(outcome),
        }
    }

    /// Turns the outcome of the fallback into the answer to the request.
    pub fn close<T, E, K>(
        &self,
        outcome: FallbackOutcome<T, E, K>,
    ) -> (answer: Result<T, PrefetchedChainProviderError<E, K>>)
        ensures
            answer == self.answer_on(outcome),
    {
        match self.call {
            FallbackCall::ReceiptsByHash(hash) => PrefetchedChainProvider::receipts_from_fallback(
                hash,
                outcome,
            ),
            _ => PrefetchedChainProvider::bounded_fallback(outcome),
        }
    }
}

/// Where a request is answered from.
#[derive(Debug, PartialEq, Eq)]
pub enum Lookup<T> {
    /// The prepared origin answers the request.
    Buffered(T),
    /// The fallback provider is to be asked.
    Fallback(FallbackRequest),
}

impl<T> Lookup<T> {
    /// The answer to the request, where `outcome` is what became of the fallback.
    ///
    /// Where the prepared origin answers, the fallback is not asked, and `outcome` is of no
    /// account.
    pub open spec fn answer_on<E, K>(
        self,
        outcome: FallbackOutcome<T, E, K>,
    ) -> Result<T, PrefetchedChainProviderError<E, K>> {
        match self {
            Lookup::Buffered(value) => Ok(value),
            Lookup::Fallback(request) => request.answer_on(outcome),
        }
    }
}

/// Serves matching header and receipt requests from the selected prepared origin.
#[derive(Debug)]
pub struct PrefetchedChainProvider<'a> {
    origin: Option<&'a PreparedL1Origin>,
    fallback_timeout: Duration,
}

impl<'a> PrefetchedChainProvider<'a> {
    /// The selected prepared origin.
    pub closed spec fn origin(self) -> Option<&'a PreparedL1Origin> {
        self.origin
    }

    /// How long the fallback provider may take.
    pub closed spec fn fallback_timeout(self) -> Duration {
        self.fallback_timeout
    }

    /// Whether the selected prepared origin is the block with this hash.
    pub open spec fn holds(self, hash: B256) -> bool {
        &&& self.origin() matches Some(origin)
        &&& origin.hash == hash
    }

    /// Whether `lookup` is where the header of the block with this hash comes from.
    pub open spec fn looks_up_header(self, hash: B256, lookup: Lookup<Header>) -> bool {
        if self.holds(hash) {
            &&& lookup matches Lookup::Buffered(header)
            &&& header@ == self.origin()->0.header@
        } else {
            lookup == Lookup::<Header>::Fallback(
                FallbackRequest {
                    call: FallbackCall::HeaderByHash(hash),
                    kind: FetchKind::ByHash,
                    timeout: self.fallback_timeout(),
                },
            )
        }
    }

    /// Whether `lookup` is where the receipts of the block with this hash come from.
    pub open spec fn looks_up_receipts(self, hash: B256, lookup: Lookup<Vec<Receipt>>) -> bool {
        if self.holds(hash) {
            &&& lookup matches Lookup::Buffered(receipts)
            &&& receipt_views(receipts@) == receipt_views(self.origin()->0.receipts@)
        } else {
            lookup == Lookup::<Vec<Receipt>>::Fallback(
                FallbackRequest {
                    call: FallbackCall::ReceiptsByHash(hash),
                    kind: FetchKind::Receipts,
                    timeout: self.fallback_timeout(),
                },
            )
        }
    }

    /// Creates a provider with a bounded RPC fallback.
    pub fn new(origin: Option<&'a PreparedL1Origin>, fallback_timeout: Duration) -> (provider: Self)
        ensures
            provider.origin() == origin,
            provider.fallback_timeout() == fallback_timeout,
    {
        Self { origin, fallback_timeout }
    }

    /// The answer that an outcome of the fallback stands for.
    pub open spec fn fallback_answer<T, E, K>(
        outcome: FallbackOutcome<T, E, K>,
    ) -> Result<T, PrefetchedChainProviderError<E, K>> {
        match outcome {
            FallbackOutcome::TimedOut => Err(PrefetchedChainProviderError::Timeout),
            FallbackOutcome::Answered(Ok(value)) => Ok(value),
            FallbackOutcome::Answered(Err(error)) => Err(
                PrefetchedChainProviderError::Fallback(error),
            ),
        }
    }

    /// The answer to a receipts request that an outcome of the fallback stands for.
    pub open spec fn fallback_receipts<T, E, K>(
        hash: B256,
        outcome: FallbackOutcome<T, E, K>,
    ) -> Result<T, PrefetchedChainProviderError<E, K>> {
        if outcome matches FallbackOutcome::Answered(
            Err(AlloyChainProviderError::BlockNotFound(_)),
        ) {
            Err(PrefetchedChainProviderError::ReceiptsUnavailable(hash))
        } else {
            Self::fallback_answer(outcome)
        }
    }

    /// Whether `answer` is the answer to a request for the header of the block with this hash,
    /// where `outcome` is what became of the fallback.
    pub open spec fn answers_header<E, K>(
        self,
        hash: B256,
        outcome: FallbackOutcome<Header, E, K>,
        answer: Result<Header, PrefetchedChainProviderError<E, K>>,
    ) -> bool {
        if self.holds(hash) {
            &&& answer matches Ok(header)
            &&& header@ == self.origin()->0.header@
        } else {
            answer == Self::fallback_answer(outcome)
        }
    }

    /// Whether `answer` is the answer to a request for the receipts of the block with this hash,
    /// where `outcome` is what became of the fallback.
    pub open spec fn answers_receipts<E, K>(
        self,
        hash: B256,
        outcome: FallbackOutcome<Vec<Receipt>, E, K>,
        answer: Result<Vec<Receipt>, PrefetchedChainProviderError<E, K>>,
    ) -> bool {
        if self.holds(hash) {
            &&& answer matches Ok(receipts)
            &&& receipt_views(receipts@) == receipt_views(self.origin()->0.receipts@)
        } else {
            answer == Self::fallback_receipts(hash, outcome)
        }
    }

    /// Turns the outcome of the fallback into the answer.
    pub fn bounded_fallback<T, E, K>(
        outcome: FallbackOutcome<T, E, K>,
    ) -> (answer: Result<T, PrefetchedChainProviderError<E, K>>)
        ensures
            answer == Self::fallback_answer(outcome),
    {
        match outcome {
            FallbackOutcome::TimedOut => Err(PrefetchedChainProviderError::Timeout),
            FallbackOutcome::Answered(Ok(value)) => Ok(value),
            FallbackOutcome::Answered(Err(error)) => Err(
                PrefetchedChainProviderError::Fallback(error),
            ),
        }
    }

    /// Looks up the header of the block with this hash.
    pub fn header_by_hash(&self, hash: B256) -> (lookup: Lookup<Header>)
        ensures
            self.looks_up_header(hash, lookup),
    {
        if let Some(origin) = self.origin {
            if same_hash(&origin.hash, &hash) {
                return Lookup::Buffered(origin.header.clone());
            }
        }
        Lookup::Fallback(
            FallbackRequest {
                call: FallbackCall::HeaderByHash(hash),
                kind: FetchKind::ByHash,
                timeout: self.fallback_timeout,
            },
        )
    }

    /// Looks up the place of the block at this number.
    pub fn block_info_by_number(&self, number: u64) -> (request: FallbackRequest)
        ensures
            request.call == FallbackCall::BlockInfoByNumber(number),
            request.kind == FetchKind::ByNumber,
            request.timeout == self.fallback_timeout(),
    {
        FallbackRequest {
            call: FallbackCall::BlockInfoByNumber(number),
            kind: FetchKind::ByNumber,
            timeout: self.fallback_timeout,
        }
    }

    /// Looks up the receipts of the block with this hash.
    pub fn receipts_by_hash(&self, hash: B256) -> (lookup: Lookup<Vec<Receipt>>)
        ensures
            self.looks_up_receipts(hash, lookup),
    {
        if let Some(origin) = self.origin {
            if same_hash(&origin.hash, &hash) {
                return Lookup::Buffered(clone_receipts(&origin.receipts));
            }
        }
        Lookup::Fallback(
            FallbackRequest {
                call: FallbackCall::ReceiptsByHash(hash),
                kind: FetchKind::Receipts,
                timeout: self.fallback_timeout,
            },
        )
    }

    /// Turns the outcome of the fallback into the receipts of the block with this hash.
    ///
    /// A block that the fallback does not know exists all the same: its receipts are not available
    /// yet.
    pub fn receipts_from_fallback<T, E, K>(
        hash: B256,
        outcome: FallbackOutcome<T, E, K>,
    ) -> (answer: Result<T, PrefetchedChainProviderError<E, K>>)
        ensures
            answer == Self::fallback_receipts(hash, outcome),
    {
        match Self::bounded_fallback(outcome) {
            Err(
                PrefetchedChainProviderError::Fallback(AlloyChainProviderError::BlockNotFound(_)),
            ) => Err(PrefetchedChainProviderError::ReceiptsUnavailable(hash)),
            answer => answer,
        }
    }

    /// Looks up the place and the transactions of the block with this hash.
    pub fn block_info_and_transactions_by_hash(&self, hash: B256) -> (request: FallbackRequest)
        ensures
            request.call == FallbackCall::BlockInfoAndTransactionsByHash(hash),
            request.kind == FetchKind::ByHash,
            request.timeout == self.fallback_timeout(),
    {
        FallbackRequest {
            call: FallbackCall::BlockInfoAndTransactionsByHash(hash),
            kind: FetchKind::ByHash,
            timeout: self.fallback_timeout,
        }
    }
}

/// Header and receipts requests are answered without the fallback exactly when they ask for the
/// prepared origin, and the answers are then that origin's header and receipts.
pub proof fn law_matching_origin_serves_header_and_receipts(
    provider: PrefetchedChainProvider,
    hash: B256,
    header: Lookup<Header>,
    receipts: Lookup<Vec<Receipt>>,
)
    requires
        provider.looks_up_header(hash, header),
        provider.looks_up_receipts(hash, receipts),
    ensures
        header is Buffered <==> provider.holds(hash),
        receipts is Buffered <==> provider.holds(hash),
        header matches Lookup::Buffered(value) ==> value@ == provider.origin()->0@.header,
        receipts matches Lookup::Buffered(value) ==> receipt_views(value@)
            == provider.origin()->0@.receipts,
{
}

/// A provider without a prepared origin answers nothing by itself.
pub proof fn law_no_origin_serves_nothing(
    provider: PrefetchedChainProvider,
    hash: B256,
    header: Lookup<Header>,
    receipts: Lookup<Vec<Receipt>>,
)
    requires
        provider.origin() is None,
        provider.looks_up_header(hash, header),
        provider.looks_up_receipts(hash, receipts),
    ensures
        header is Fallback,
        receipts is Fallback,
{
}

/// An origin that a lookup found, once it is the prepared origin, serves its header and its
/// receipts under its hash, and the served header has that hash.
pub proof fn law_found_origin_is_served(
    lookup: OriginLookup,
    header_reply: Result<Option<Header>, TransportError>,
    receipts_reply: Result<Option<Vec<Option<Receipt>>>, TransportError>,
    origin: PreparedL1Origin,
    provider: PrefetchedChainProvider,
    header: Lookup<Header>,
    receipts: Lookup<Vec<Receipt>>,
)
    requires
        lookup.ends_with(
            header_reply,
            receipts_reply,
            Ok::<_, L1OriginSelectorError>(Some(origin)),
        ),
        provider.origin() == Some(&origin),
        provider.looks_up_header(origin.hash, header),
        provider.looks_up_receipts(origin.hash, receipts),
    ensures
        header matches Lookup::Buffered(value) && {
            &&& value@ == header_reply->Ok_0->0@
            &&& header_hash(value@) == origin.hash
        },
        receipts matches Lookup::Buffered(value) && receipt_views(value@) == receipt_views(
            receipts_reply->Ok_0->0@.map_values(|entry: Option<Receipt>| entry->0),
        ),
        lookup matches OriginLookup::ByHash(hash) ==> origin.hash == hash,
{
}

/// The errors that the provider itself raises are temporary to the pipeline. A failure of the
/// fallback is treated as the fallback says.
pub proof fn law_own_errors_are_temporary<E, K>(
    error: PrefetchedChainProviderError<E, K>,
    kind: PipelineErrorKind<K>,
)
    requires
        error.is_treated_as(kind),
    ensures
        error !is Fallback ==> kind matches PipelineErrorKind::Temporary(
            PipelineError::Provider(_),
        ),
        error matches PrefetchedChainProviderError::Fallback(inner) ==> kind
            == inner.failure().pipeline_kind,
{
}

/// A receipts request that falls back reports unavailable receipts exactly when the fallback does
/// not know the block, and then names the block that was asked for. It never reports an unknown
/// block, and the pipeline is to try again.
pub proof fn law_unknown_block_means_unavailable_receipts<T, E, K>(
    hash: B256,
    outcome: FallbackOutcome<T, E, K>,
    answer: Result<T, PrefetchedChainProviderError<E, K>>,
    kind: PipelineErrorKind<K>,
)
    requires
        answer == PrefetchedChainProvider::fallback_receipts(hash, outcome),
        answer matches Err(error) ==> error.is_treated_as(kind),
    ensures
        answer matches Err(PrefetchedChainProviderError::ReceiptsUnavailable(_)) <==> outcome
            matches FallbackOutcome::Answered(Err(AlloyChainProviderError::BlockNotFound(_))),
        answer matches Err(PrefetchedChainProviderError::ReceiptsUnavailable(named)) ==> {
            &&& named == hash
            &&& kind is Temporary
        },
        !(answer matches Err(
            PrefetchedChainProviderError::Fallback(AlloyChainProviderError::BlockNotFound(_)),
        )),
{
}

/// A timeout is reported exactly when the fallback did not answer in time, and the pipeline is to
/// try again.
pub proof fn law_timeouts_are_temporary<T, E, K>(
    outcome: FallbackOutcome<T, E, K>,
    answer: Result<T, PrefetchedChainProviderError<E, K>>,
    kind: PipelineErrorKind<K>,
)
    requires
        answer == PrefetchedChainProvider::fallback_answer(outcome),
        answer matches Err(error) ==> error.is_treated_as(kind),
    ensures
        answer matches Err(PrefetchedChainProviderError::Timeout) <==> outcome is TimedOut,
        outcome is TimedOut ==> kind is Temporary,
{
}

/// A header request, closed by its own lookup, gives the header of the prepared origin where that
/// is the block asked for, and otherwise what the fallback answered: its header, its failure, or a
/// timeout. It never reports unavailable receipts.
pub proof fn law_header_requests_are_answered<E, K>(
    provider: PrefetchedChainProvider,
    hash: B256,
    lookup: Lookup<Header>,
    outcome: FallbackOutcome<Header, E, K>,
)
    requires
        provider.looks_up_header(hash, lookup),
    ensures
        provider.answers_header(hash, outcome, lookup.answer_on(outcome)),
        lookup.answer_on(outcome) matches Err(PrefetchedChainProviderError::Timeout) <==> {
            &&& !provider.holds(hash)
            &&& outcome is TimedOut
        },
        lookup.answer_on(outcome) matches Err(PrefetchedChainProviderError::Fallback(_)) <==> {
            &&& !provider.holds(hash)
            &&& outcome matches FallbackOutcome::Answered(Err(_))
        },
        !(lookup.answer_on(outcome) matches Err(
            PrefetchedChainProviderError::ReceiptsUnavailable(_),
        )),
{
}

/// A receipts request, closed by its own lookup, gives the receipts of the prepared origin where
/// that is the block asked for, and otherwise what the fallback answered, except that a block that
/// the fallback does not know is reported as unavailable receipts of the block asked for.
pub proof fn law_receipts_requests_are_answered<E, K>(
    provider: PrefetchedChainProvider,
    hash: B256,
    lookup: Lookup<Vec<Receipt>>,
    outcome: FallbackOutcome<Vec<Receipt>, E, K>,
)
    requires
        provider.looks_up_receipts(hash, lookup),
    ensures
        provider.answers_receipts(hash, outcome, lookup.answer_on(outcome)),
        lookup.answer_on(outcome) matches Err(PrefetchedChainProviderError::Timeout) <==> {
            &&& !provider.holds(hash)
            &&& outcome is TimedOut
        },
        lookup.answer_on(outcome) matches Err(
            PrefetchedChainProviderError::ReceiptsUnavailable(_),
        ) <==> {
            &&& !provider.holds(hash)
            &&& outcome matches FallbackOutcome::Answered(
                Err(AlloyChainProviderError::BlockNotFound(_)),
            )
        },
        lookup.answer_on(outcome) matches Err(
            PrefetchedChainProviderError::ReceiptsUnavailable(named),
        ) ==> named == hash,
        lookup.answer_on(outcome) matches Err(PrefetchedChainProviderError::Fallback(_)) <==> {
            &&& !provider.holds(hash)
            &&& outcome matches FallbackOutcome::Answered(Err(AlloyChainProviderError::Other(_)))
        },
{
}

/// A request for block info is answered as the fallback answered.
pub proof fn law_block_info_requests_are_answered<T, E, K>(
    request: FallbackRequest,
    outcome: FallbackOutcome<T, E, K>,
)
    requires
        request.call is BlockInfoByNumber || request.call is BlockInfoAndTransactionsByHash,
    ensures
        request.answer_on(outcome) == PrefetchedChainProvider::fallback_answer(outcome),
{
}

} // verus!
