//! The chain provider's contract: its error taxonomy and the consistency
//! checks a provider must apply to the backend's answers.
//!
//! A provider resolves a [`BlockId`] to a backend selector, dispatches the
//! call, and normalizes the answer. The dispatch itself is network I/O and
//! lives outside this crate; everything decided before and after the call —
//! selector conversion, error classification, and the pending/confirmed
//! consistency rule — is here.

use vstd::prelude::*;

use crate::backend;
use crate::chain::{BlockHash, BlockId, GlobalBlockId};
use crate::felt::spec_zero;
use crate::transcode::{body_maps, pending_header_maps, spec_block_header, spec_status_to_proto};
use crate::wire;

verus! {

/// The one capability every provider error exposes to its callers: whether
/// the error means "the block was not found". Callers branch on this alone —
/// a block not yet produced is retried, everything else is a hard failure —
/// and treat all other detail as opaque.
pub trait ProviderError {
    /// Which errors of this type mean "the block was not found".
    spec fn spec_is_block_not_found(&self) -> bool;

    /// True exactly of the "block not found" classification.
    fn is_block_not_found(&self) -> (r: bool)
        ensures
            r == self.spec_is_block_not_found(),
    ;
}

/// The structured error codes the JSON-RPC backend answers with.
#[derive(Debug, Clone, Copy, PartialEq, Eq, Structural)]
pub enum RpcErrorCode {
    FailedToReceiveTransaction,
    ContractNotFound,
    BlockNotFound,
    TransactionHashNotFound,
    InvalidTransactionIndex,
    ClassHashNotFound,
    PageSizeTooBig,
    NoBlocks,
    InvalidContinuationToken,
    TooManyKeysInFilter,
    ContractError,
    InvalidContractClass,
    ClassAlreadyDeclared,
}

/// A failed backend call as the classification sees it: either a structured
/// RPC error code, or any other client-side failure (transport, decoding, a
/// malformed answer).
#[derive(Debug, Clone, Copy, PartialEq, Eq, Structural)]
pub enum BackendCallError {
    Rpc(RpcErrorCode),
    Other,
}

/// The error taxonomy of the HTTP provider.
#[derive(Debug, Clone, Copy, PartialEq, Eq, Structural)]
pub enum HttpProviderError {
    /// The queried block was not found; callers may retry later.
    BlockNotFound,
    /// The gateway configuration could not be parsed.
    Configuration,
    /// The gateway URL could not be parsed.
    Url,
    /// Any other backend failure, wrapped and opaque to callers.
    Provider,
    /// The backend answered with a pending block to a non-pending query.
    UnexpectedPendingBlock,
    /// The backend answered with a non-pending block to a pending query.
    ExpectedPendingBlock,
    /// The queried block identifier held a malformed hash.
    InvalidBlockId,
    /// A block hash of the wrong size was encountered.
    InvalidBlockHash,
}

/// How a failed backend call is classified: the dedicated "block not found"
/// code keeps its meaning, and every other failure is wrapped as an opaque
/// provider error.
pub open spec fn spec_classify_backend_error(e: BackendCallError) -> HttpProviderError {
    if e matches BackendCallError::Rpc(c) && c is BlockNotFound {
        HttpProviderError::BlockNotFound
    } else {
        HttpProviderError::Provider
    }
}

impl HttpProviderError {
    /// Classify a failed backend call.
    pub fn from_provider_error(error: BackendCallError) -> (r: HttpProviderError)
        ensures
            r == spec_classify_backend_error(error),
    {
        match error {
            BackendCallError::Rpc(RpcErrorCode::BlockNotFound) => HttpProviderError::BlockNotFound,
            _ => HttpProviderError::Provider,
        }
    }
}

impl ProviderError for HttpProviderError {
    open spec fn spec_is_block_not_found(&self) -> bool {
        *self is BlockNotFound
    }

    fn is_block_not_found(&self) -> (r: bool) {
        match self {
            HttpProviderError::BlockNotFound => true,
            _ => false,
        }
    }
}

/// Resolve a block identifier to the backend's selector shape, classifying a
/// malformed hash as [`HttpProviderError::InvalidBlockId`]. This is the step
/// a provider takes before dispatching a block or state-update query.
pub fn resolve_block_id(id: &BlockId) -> (r: Result<
    crate::chain::BackendBlockSelector,
    HttpProviderError,
>)
    ensures
        match id {
            BlockId::Latest => r matches Ok(s) && s is Latest,
            BlockId::Pending => r matches Ok(s) && s is Pending,
            BlockId::Hash(h) => {
                &&& h@.len() <= 32 ==> (r matches Ok(s)
                    && s matches crate::chain::BackendBlockSelector::Hash(fe) && fe@
                    == crate::felt::spec_canonical(h@))
                &&& h@.len() > 32 ==> (r matches Err(e) && e is InvalidBlockId)
            },
            BlockId::Number(n) => r matches Ok(s) && (s
                matches crate::chain::BackendBlockSelector::Number(m) && m == n),
        },
{
    match id.to_backend_selector() {
        Ok(selector) => Ok(selector),
        Err(_) => Err(HttpProviderError::InvalidBlockId),
    }
}

/// Turn the head lookup's answer into the global identifier of the head
/// block: its number paired with its hash.
pub fn head_from_response(head: backend::BlockHashAndNumber) -> (r: GlobalBlockId)
    ensures
        r.number == head.block_number,
        r.hash@ == head.block_hash@,
{
    let backend::BlockHashAndNumber { block_hash, block_number } = head;
    GlobalBlockId::new(block_number, BlockHash::new(block_hash.into_bytes()))
}

/// Normalize a block lookup's answer against the identifier that was queried,
/// enforcing the pending/confirmed consistency rule.
///
/// A pending query answered with a confirmed block fails with
/// [`HttpProviderError::ExpectedPendingBlock`]; a non-pending query answered
/// with a pending block — the pending variant, or a confirmed variant still
/// carrying pending status — fails with
/// [`HttpProviderError::UnexpectedPendingBlock`]. Misleading data is never
/// returned: a pending query yields exactly the pending status and the
/// sentinel header, and a non-pending query never yields pending status.
pub fn block_from_response(id: &BlockId, response: backend::MaybePendingBlockWithTxs) -> (r: Result<
    (wire::BlockStatus, wire::BlockHeader, wire::BlockBody),
    HttpProviderError,
>)
    ensures
        match response {
            backend::MaybePendingBlockWithTxs::Block(b) => {
                &&& (id is Pending) ==> (r matches Err(e) && e is ExpectedPendingBlock)
                &&& (!(id is Pending) && b.status is Pending) ==> (r matches Err(e)
                    && e is UnexpectedPendingBlock)
                &&& (!(id is Pending) && !(b.status is Pending)) ==> (r matches Ok(t) && {
                    &&& t.0 == spec_status_to_proto(b.status)
                    &&& t.1 == spec_block_header(b)
                    &&& body_maps(b.transactions@, t.2)
                })
            },
            backend::MaybePendingBlockWithTxs::PendingBlock(p) => {
                &&& !(id is Pending) ==> (r matches Err(e) && e is UnexpectedPendingBlock)
                &&& (id is Pending) ==> (r matches Ok(t) && {
                    &&& t.0 is Pending
                    &&& pending_header_maps(p, t.1)
                    &&& body_maps(p.transactions@, t.2)
                })
            },
        },
        r matches Ok(t) ==> ((id is Pending) <==> (t.0 is Pending)),
        r matches Ok(t) ==> (id is Pending ==> {
            &&& t.1.block_hash matches Some(z) && z@ == spec_zero()
            &&& t.1.block_number == u64::MAX
            &&& t.1.new_root is None
        }),
{
    match response {
        backend::MaybePendingBlockWithTxs::Block(block) => {
            if id.is_pending() {
                return Err(HttpProviderError::ExpectedPendingBlock);
            }
            match block.status {
                backend::BlockStatus::Pending => Err(HttpProviderError::UnexpectedPendingBlock),
                _ => Ok(block.to_proto()),
            }
        },
        backend::MaybePendingBlockWithTxs::PendingBlock(block) => {
            if !id.is_pending() {
                return Err(HttpProviderError::UnexpectedPendingBlock);
            }
            Ok(block.to_proto())
        },
    }
}

} // verus!
