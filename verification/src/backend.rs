//! The shapes of the JSON-RPC chain backend's responses.
//!
//! One type per response shape the provider consumes: the head lookup, the
//! confirmed and the pending block with full transactions, every transaction
//! kind, every receipt kind (confirmed and pending), and the state update.
//! Each holds, as plain canonical values, exactly the fields the
//! normalization reads.

use vstd::prelude::*;

use crate::felt::FieldElement;

verus! {

/// The head lookup's answer: the most recent accepted block's number and hash.
#[derive(Debug, Clone, PartialEq, Eq)]
pub struct BlockHashAndNumber {
    pub block_hash: FieldElement,
    pub block_number: u64,
}

/// Where the backend says a block stands.
#[derive(Debug, Clone, Copy, PartialEq, Eq, Structural)]
pub enum BlockStatus {
    Pending,
    AcceptedOnL2,
    AcceptedOnL1,
    Rejected,
}

/// An invoke transaction addressed by contract and entry point.
#[derive(Debug, Clone, PartialEq, Eq)]
pub struct InvokeTransactionV0 {
    pub transaction_hash: FieldElement,
    pub max_fee: FieldElement,
    pub signature: Vec<FieldElement>,
    pub nonce: FieldElement,
    pub contract_address: FieldElement,
    pub entry_point_selector: FieldElement,
    pub calldata: Vec<FieldElement>,
}

/// An invoke transaction addressed by sender.
#[derive(Debug, Clone, PartialEq, Eq)]
pub struct InvokeTransactionV1 {
    pub transaction_hash: FieldElement,
    pub max_fee: FieldElement,
    pub signature: Vec<FieldElement>,
    pub nonce: FieldElement,
    pub sender_address: FieldElement,
    pub calldata: Vec<FieldElement>,
}

/// The two wire versions of an invoke transaction.
#[derive(Debug, Clone, PartialEq, Eq)]
pub enum InvokeTransaction {
    V0(InvokeTransactionV0),
    V1(InvokeTransactionV1),
}

/// A legacy deploy transaction; it predates fees, signatures and nonces.
#[derive(Debug, Clone, PartialEq, Eq)]
pub struct DeployTransaction {
    pub transaction_hash: FieldElement,
    pub version: u64,
    pub class_hash: FieldElement,
    pub contract_address_salt: FieldElement,
    pub constructor_calldata: Vec<FieldElement>,
}

/// A transaction declaring a contract class.
#[derive(Debug, Clone, PartialEq, Eq)]
pub struct DeclareTransaction {
    pub transaction_hash: FieldElement,
    pub max_fee: FieldElement,
    pub signature: Vec<FieldElement>,
    pub nonce: FieldElement,
    pub version: u64,
    pub class_hash: FieldElement,
    pub sender_address: FieldElement,
}

/// A transaction the L1 core contract handed to the chain; it predates fees,
/// signatures and nonces.
#[derive(Debug, Clone, PartialEq, Eq)]
pub struct L1HandlerTransaction {
    pub transaction_hash: FieldElement,
    pub version: u64,
    pub contract_address: FieldElement,
    pub entry_point_selector: FieldElement,
    pub calldata: Vec<FieldElement>,
}

/// A transaction deploying an account contract.
#[derive(Debug, Clone, PartialEq, Eq)]
pub struct DeployAccountTransaction {
    pub transaction_hash: FieldElement,
    pub max_fee: FieldElement,
    pub signature: Vec<FieldElement>,
    pub nonce: FieldElement,
    pub version: u64,
    pub contract_address_salt: FieldElement,
    pub class_hash: FieldElement,
    pub constructor_calldata: Vec<FieldElement>,
}

/// A transaction as the backend reports it: one of the five kinds.
#[derive(Debug, Clone, PartialEq, Eq)]
pub enum Transaction {
    Invoke(InvokeTransaction),
    Deploy(DeployTransaction),
    Declare(DeclareTransaction),
    L1Handler(L1HandlerTransaction),
    DeployAccount(DeployAccountTransaction),
}

/// A confirmed block with its full transactions.
#[derive(Debug, Clone, PartialEq, Eq)]
pub struct BlockWithTxs {
    pub status: BlockStatus,
    pub block_hash: FieldElement,
    pub parent_hash: FieldElement,
    pub block_number: u64,
    pub sequencer_address: FieldElement,
    pub new_root: FieldElement,
    pub timestamp: u64,
    pub transactions: Vec<Transaction>,
}

/// The pending block with its full transactions; it has no hash, no number
/// and no new state root yet.
#[derive(Debug, Clone, PartialEq, Eq)]
pub struct PendingBlockWithTxs {
    pub parent_hash: FieldElement,
    pub sequencer_address: FieldElement,
    pub timestamp: u64,
    pub transactions: Vec<Transaction>,
}

/// A block lookup's answer: either a confirmed or the pending block.
#[derive(Debug, Clone, PartialEq, Eq)]
pub enum MaybePendingBlockWithTxs {
    Block(BlockWithTxs),
    PendingBlock(PendingBlockWithTxs),
}

/// A message a transaction emitted from L2 towards L1.
#[derive(Debug, Clone, PartialEq, Eq)]
pub struct MsgToL1 {
    pub to_address: FieldElement,
    pub payload: Vec<FieldElement>,
}

/// An event a transaction emitted.
#[derive(Debug, Clone, PartialEq, Eq)]
pub struct Event {
    pub from_address: FieldElement,
    pub keys: Vec<FieldElement>,
    pub data: Vec<FieldElement>,
}

/// The receipt of a confirmed invoke transaction.
#[derive(Debug, Clone, PartialEq, Eq)]
pub struct InvokeTransactionReceipt {
    pub transaction_hash: FieldElement,
    pub actual_fee: FieldElement,
    pub messages_sent: Vec<MsgToL1>,
    pub events: Vec<Event>,
}

/// The receipt of a confirmed L1 handler transaction.
#[derive(Debug, Clone, PartialEq, Eq)]
pub struct L1HandlerTransactionReceipt {
    pub transaction_hash: FieldElement,
    pub actual_fee: FieldElement,
    pub messages_sent: Vec<MsgToL1>,
    pub events: Vec<Event>,
}

/// The receipt of a confirmed declare transaction.
#[derive(Debug, Clone, PartialEq, Eq)]
pub struct DeclareTransactionReceipt {
    pub transaction_hash: FieldElement,
    pub actual_fee: FieldElement,
    pub messages_sent: Vec<MsgToL1>,
    pub events: Vec<Event>,
}

/// The receipt of a confirmed deploy transaction; it names the deployed
/// contract.
#[derive(Debug, Clone, PartialEq, Eq)]
pub struct DeployTransactionReceipt {
    pub transaction_hash: FieldElement,
    pub actual_fee: FieldElement,
    pub messages_sent: Vec<MsgToL1>,
    pub events: Vec<Event>,
    pub contract_address: FieldElement,
}

/// The receipt of a confirmed deploy-account transaction; it names the
/// deployed account contract.
#[derive(Debug, Clone, PartialEq, Eq)]
pub struct DeployAccountTransactionReceipt {
    pub transaction_hash: FieldElement,
    pub actual_fee: FieldElement,
    pub messages_sent: Vec<MsgToL1>,
    pub events: Vec<Event>,
    pub contract_address: FieldElement,
}

/// A confirmed transaction's receipt: one of the five kinds.
#[derive(Debug, Clone, PartialEq, Eq)]
pub enum TransactionReceipt {
    Invoke(InvokeTransactionReceipt),
    L1Handler(L1HandlerTransactionReceipt),
    Declare(DeclareTransactionReceipt),
    Deploy(DeployTransactionReceipt),
    DeployAccount(DeployAccountTransactionReceipt),
}

/// The receipt of a pending invoke transaction.
#[derive(Debug, Clone, PartialEq, Eq)]
pub struct PendingInvokeTransactionReceipt {
    pub transaction_hash: FieldElement,
    pub actual_fee: FieldElement,
    pub messages_sent: Vec<MsgToL1>,
    pub events: Vec<Event>,
}

/// The receipt of a pending L1 handler transaction.
#[derive(Debug, Clone, PartialEq, Eq)]
pub struct PendingL1HandlerTransactionReceipt {
    pub transaction_hash: FieldElement,
    pub actual_fee: FieldElement,
    pub messages_sent: Vec<MsgToL1>,
    pub events: Vec<Event>,
}

/// The receipt of a pending declare transaction.
#[derive(Debug, Clone, PartialEq, Eq)]
pub struct PendingDeclareTransactionReceipt {
    pub transaction_hash: FieldElement,
    pub actual_fee: FieldElement,
    pub messages_sent: Vec<MsgToL1>,
    pub events: Vec<Event>,
}

/// The receipt of a pending deploy transaction; it names the deployed
/// contract.
#[derive(Debug, Clone, PartialEq, Eq)]
pub struct PendingDeployTransactionReceipt {
    pub transaction_hash: FieldElement,
    pub actual_fee: FieldElement,
    pub messages_sent: Vec<MsgToL1>,
    pub events: Vec<Event>,
    pub contract_address: FieldElement,
}

/// The receipt of a pending deploy-account transaction; it names the deployed
/// account contract.
#[derive(Debug, Clone, PartialEq, Eq)]
pub struct PendingDeployAccountTransactionReceipt {
    pub transaction_hash: FieldElement,
    pub actual_fee: FieldElement,
    pub messages_sent: Vec<MsgToL1>,
    pub events: Vec<Event>,
    pub contract_address: FieldElement,
}

/// A pending transaction's receipt: one of the five kinds.
#[derive(Debug, Clone, PartialEq, Eq)]
pub enum PendingTransactionReceipt {
    Invoke(PendingInvokeTransactionReceipt),
    L1Handler(PendingL1HandlerTransactionReceipt),
    Declare(PendingDeclareTransactionReceipt),
    Deploy(PendingDeployTransactionReceipt),
    DeployAccount(PendingDeployAccountTransactionReceipt),
}

/// A receipt lookup's answer: a confirmed or a pending receipt.
#[derive(Debug, Clone, PartialEq, Eq)]
pub enum MaybePendingTransactionReceipt {
    Receipt(TransactionReceipt),
    PendingReceipt(PendingTransactionReceipt),
}

/// One updated storage cell of a contract.
#[derive(Debug, Clone, PartialEq, Eq)]
pub struct StorageEntry {
    pub key: FieldElement,
    pub value: FieldElement,
}

/// The storage cells one contract changed.
#[derive(Debug, Clone, PartialEq, Eq)]
pub struct ContractStorageDiffItem {
    pub address: FieldElement,
    pub storage_entries: Vec<StorageEntry>,
}

/// A newly deployed contract.
#[derive(Debug, Clone, PartialEq, Eq)]
pub struct DeployedContractItem {
    pub address: FieldElement,
    pub class_hash: FieldElement,
}

/// A contract's nonce after the block.
#[derive(Debug, Clone, PartialEq, Eq)]
pub struct NonceUpdate {
    pub contract_address: FieldElement,
    pub nonce: FieldElement,
}

/// Everything one block changed in the chain's state.
#[derive(Debug, Clone, PartialEq, Eq)]
pub struct StateDiff {
    pub storage_diffs: Vec<ContractStorageDiffItem>,
    pub declared_contract_hashes: Vec<FieldElement>,
    pub deployed_contracts: Vec<DeployedContractItem>,
    pub nonces: Vec<NonceUpdate>,
}

/// A state update lookup's answer.
#[derive(Debug, Clone, PartialEq, Eq)]
pub struct StateUpdate {
    pub new_root: FieldElement,
    pub old_root: FieldElement,
    pub state_diff: StateDiff,
}

} // verus!
