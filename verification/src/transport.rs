//! Failures of the L1 RPC transport.

use alloy_transport::TransportError;
use vstd::prelude::*;

verus! {

/// The error of `alloy_transport`, carried as it came.
#[verifier::external_type_specification]
#[verifier::external_body]
#[verifier::reject_recursive_types(E)]
#[verifier::reject_recursive_types(ErrResp)]
pub struct ExRpcError<E, ErrResp>(alloy_transport::RpcError<E, ErrResp>);

/// The transport part of an `alloy_transport` error.
#[verifier::external_type_specification]
#[verifier::external_body]
pub struct ExTransportErrorKind(alloy_transport::TransportErrorKind);

/// The server's part of an `alloy_transport` error.
#[verifier::external_type_specification]
#[verifier::external_body]
pub struct ExRawValue(serde_json::value::RawValue);

/// The error that `alloy_transport::TransportErrorKind::custom_str` makes of a message.
pub uninterp spec fn custom_transport_error(message: Seq<char>) -> TransportError;

/// `alloy_transport::TransportErrorKind::custom_str`.
///
/// Claimed of it: the error is determined by the message.
pub assume_specification[ alloy_transport::TransportErrorKind::custom_str ](err: &str) -> (error:
    TransportError)
    ensures
        error == custom_transport_error(err@),
;

} // verus!
