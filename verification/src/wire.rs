//! The canonical wire schema.
//!
//! These are the shapes the adapter produces for its downstream callers:
//! block status and header, the block body with its transactions, transaction
//! receipts, and state updates. Every numeric chain value is a canonical
//! [`FieldElement`](crate::felt::FieldElement); a field that a pending block
//! does not have yet is carried as an explicit absence or a documented
//! sentinel, never as a partial value.

use vstd::prelude::*;

use crate::felt::FieldElement;

verus! {

/// Where a block stands in the chain's confirmation pipeline.
#[derive(Debug, Clone, Copy, PartialEq, Eq, Structural)]
pub enum BlockStatus {
    /// Still open: the block has not been sealed yet.
    Pending,
    /// Accepted by the L2 sequencer.
    AcceptedOnL2,
    /// Proven and accepted on L1.
    AcceptedOnL1,
    /// Rejected by the chain.
    Rejected,
}

/// A point in time, carried as seconds and nanoseconds.
#[derive(Debug, Clone, Copy, PartialEq, Eq, Structural)]
pub struct Timestamp {
    pub seconds: i64,
    pub nanos: i32,
}

/// The header of a block.
///
/// For a pending block the hash is the all-zero sentinel, the number is the
/// maximum-integer sentinel, and the new state root is absent.
#[derive(Debug, Clone, PartialEq, Eq)]
pub struct BlockHeader {
    pub block_hash: Option<FieldElement>,
    pub parent_block_hash: Option<FieldElement>,
    pub block_number: u64,
    pub sequencer_address: Option<FieldElement>,
    pub new_root: Option<FieldElement>,
    pub timestamp: Option<Timestamp>,
}

/// The shared fields every transaction kind carries.
#[derive(Debug, Clone, PartialEq, Eq)]
pub struct TransactionMeta {
    pub hash: Option<FieldElement>,
    pub max_fee: Option<FieldElement>,
    pub signature: Vec<FieldElement>,
    pub nonce: Option<FieldElement>,
    pub version: u64,
}

/// An invoke transaction addressed by contract and entry point.
#[derive(Debug, Clone, PartialEq, Eq)]
pub struct InvokeTransactionV0 {
    pub contract_address: Option<FieldElement>,
    pub entry_point_selector: Option<FieldElement>,
    pub calldata: Vec<FieldElement>,
}

/// An invoke transaction addressed by sender.
#[derive(Debug, Clone, PartialEq, Eq)]
pub struct InvokeTransactionV1 {
    pub sender_address: Option<FieldElement>,
    pub calldata: Vec<FieldElement>,
}

/// A transaction deploying a contract.
#[derive(Debug, Clone, PartialEq, Eq)]
pub struct DeployTransaction {
    pub class_hash: Option<FieldElement>,
    pub contract_address_salt: Option<FieldElement>,
    pub constructor_calldata: Vec<FieldElement>,
}

/// A transaction declaring a contract class.
#[derive(Debug, Clone, PartialEq, Eq)]
pub struct DeclareTransaction {
    pub class_hash: Option<FieldElement>,
    pub sender_address: Option<FieldElement>,
}

/// A transaction carrying an L1 to L2 message.
#[derive(Debug, Clone, PartialEq, Eq)]
pub struct L1HandlerTransaction {
    pub contract_address: Option<FieldElement>,
    pub entry_point_selector: Option<FieldElement>,
    pub calldata: Vec<FieldElement>,
}

/// A transaction deploying an account contract.
#[derive(Debug, Clone, PartialEq, Eq)]
pub struct DeployAccountTransaction {
    pub contract_address_salt: Option<FieldElement>,
    pub class_hash: Option<FieldElement>,
    pub constructor_calldata: Vec<FieldElement>,
}

/// The kind-specific payload of a transaction.
#[derive(Debug, Clone, PartialEq, Eq)]
pub enum TransactionVariant {
    InvokeV0(InvokeTransactionV0),
    InvokeV1(InvokeTransactionV1),
    Deploy(DeployTransaction),
    Declare(DeclareTransaction),
    L1Handler(L1HandlerTransaction),
    DeployAccount(DeployAccountTransaction),
}

/// A transaction: the shared meta fields and the kind-specific payload.
#[derive(Debug, Clone, PartialEq, Eq)]
pub struct Transaction {
    pub meta: Option<TransactionMeta>,
    pub transaction: Option<TransactionVariant>,
}

/// The ordered transactions of one block; a transaction's index in the block
/// is its position here.
#[derive(Debug, Clone, PartialEq, Eq)]
pub struct BlockBody {
    pub transactions: Vec<Transaction>,
}

/// A message a transaction emitted from L2 towards L1.
#[derive(Debug, Clone, PartialEq, Eq)]
pub struct L2ToL1Message {
    pub to_address: Option<FieldElement>,
    pub payload: Vec<FieldElement>,
}

/// An event a transaction emitted.
#[derive(Debug, Clone, PartialEq, Eq)]
pub struct Event {
    pub from_address: Option<FieldElement>,
    pub keys: Vec<FieldElement>,
    pub data: Vec<FieldElement>,
}

/// The receipt of one transaction.
///
/// `contract_address` is populated only for deploy and deploy-account
/// receipts. `transaction_index` is always recorded as 0 for receipts sourced
/// from a backend that does not report the position.
#[derive(Debug, Clone, PartialEq, Eq)]
pub struct TransactionReceipt {
    pub transaction_index: u64,
    pub transaction_hash: Option<FieldElement>,
    pub actual_fee: Option<FieldElement>,
    pub l2_to_l1_messages: Vec<L2ToL1Message>,
    pub events: Vec<Event>,
    pub contract_address: Option<FieldElement>,
}

/// One updated storage cell of a contract.
#[derive(Debug, Clone, PartialEq, Eq)]
pub struct StorageEntry {
    pub key: Option<FieldElement>,
    pub value: Option<FieldElement>,
}

/// The storage cells one contract changed.
#[derive(Debug, Clone, PartialEq, Eq)]
pub struct StorageDiff {
    pub contract_address: Option<FieldElement>,
    pub storage_entries: Vec<StorageEntry>,
}

/// A newly declared contract class.
#[derive(Debug, Clone, PartialEq, Eq)]
pub struct DeclaredContract {
    pub class_hash: Option<FieldElement>,
}

/// A newly deployed contract.
#[derive(Debug, Clone, PartialEq, Eq)]
pub struct DeployedContract {
    pub contract_address: Option<FieldElement>,
    pub class_hash: Option<FieldElement>,
}

/// A contract's nonce after the block.
#[derive(Debug, Clone, PartialEq, Eq)]
pub struct NonceUpdate {
    pub contract_address: Option<FieldElement>,
    pub nonce: Option<FieldElement>,
}

/// Everything one block changed in the chain's state.
#[derive(Debug, Clone, PartialEq, Eq)]
pub struct StateDiff {
    pub storage_diffs: Vec<StorageDiff>,
    pub declared_contracts: Vec<DeclaredContract>,
    pub deployed_contracts: Vec<DeployedContract>,
    pub nonces: Vec<NonceUpdate>,
}

/// A state update: the roots before and after one block, and the diff.
#[derive(Debug, Clone, PartialEq, Eq)]
pub struct StateUpdate {
    pub new_root: Option<FieldElement>,
    pub old_root: Option<FieldElement>,
    pub state_diff: Option<StateDiff>,
}

} // verus!
