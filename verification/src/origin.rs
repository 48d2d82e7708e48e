//! Prepared L1 origins.

use crate::header::{header_hash, Header, HeaderView};
use crate::primitives::B256;
use crate::receipt::{receipt_views, Receipt, ReceiptView};
use alloy_transport::TransportError;
use std::sync::Arc;
use vstd::prelude::*;

verus! {

/// An L1 block with all that the sequencer needs to build on it.
#[derive(Debug, PartialEq, Eq)]
pub struct PreparedL1Origin {
    /// The block hash.
    pub hash: B256,
    /// The block header.
    pub header: Header,
    /// The receipts of the block, in order.
    pub receipts: Arc<Vec<Receipt>>,
}

/// The contents of a [`PreparedL1Origin`].
pub struct PreparedL1OriginView {
    pub hash: B256,
    pub header: HeaderView,
    pub receipts: Seq<ReceiptView>,
}

impl View for PreparedL1Origin {
    type V = PreparedL1OriginView;

    open spec fn view(&self) -> PreparedL1OriginView {
        PreparedL1OriginView {
            hash: self.hash,
            header: self.header@,
            receipts: receipt_views(self.receipts@),
        }
    }
}

impl PreparedL1Origin {
    /// The recorded hash is the hash of the header.
    pub open spec fn well_formed(self) -> bool {
        self.hash == header_hash(self.header@)
    }
}

/// Error of an L1 origin lookup.
#[derive(Debug)]
pub enum L1OriginSelectorError {
    /// The L1 provider failed.
    Provider(TransportError),
    /// The block exists but its receipts are not available.
    ReceiptsUnavailable(B256),
}

} // verus!
