//! The protocol normalizer: pure mappings from the backend's response shapes
//! into the canonical wire schema.
//!
//! Every mapping is total over its input type and stated exactly: each
//! executable `to_proto` returns precisely the value its spec-level mirror
//! describes. A transaction kind that predates an explicit fee, signature or
//! nonce gets the documented defaults (absent fee, empty signature, absent
//! nonce) rather than leaving the meta fields open.

use vstd::prelude::*;

use crate::backend;
use crate::felt::{spec_zero, FieldElement};
use crate::wire;

verus! {

/// The wire status of a backend-reported status, name for name.
pub open spec fn spec_status_to_proto(s: backend::BlockStatus) -> wire::BlockStatus {
    match s {
        backend::BlockStatus::Pending => wire::BlockStatus::Pending,
        backend::BlockStatus::AcceptedOnL2 => wire::BlockStatus::AcceptedOnL2,
        backend::BlockStatus::AcceptedOnL1 => wire::BlockStatus::AcceptedOnL1,
        backend::BlockStatus::Rejected => wire::BlockStatus::Rejected,
    }
}

impl backend::BlockStatus {
    /// Map the backend's block status onto the wire status.
    pub fn to_proto(self) -> (r: wire::BlockStatus)
        ensures
            r == spec_status_to_proto(self),
    {
        match self {
            backend::BlockStatus::Pending => wire::BlockStatus::Pending,
            backend::BlockStatus::AcceptedOnL2 => wire::BlockStatus::AcceptedOnL2,
            backend::BlockStatus::AcceptedOnL1 => wire::BlockStatus::AcceptedOnL1,
            backend::BlockStatus::Rejected => wire::BlockStatus::Rejected,
        }
    }
}

/// The wire transaction an invoke-v0 transaction maps to.
pub open spec fn spec_invoke_v0_to_proto(t: backend::InvokeTransactionV0) -> wire::Transaction {
    wire::Transaction {
        meta: Some(
            wire::TransactionMeta {
                hash: Some(t.transaction_hash),
                max_fee: Some(t.max_fee),
                signature: t.signature,
                nonce: Some(t.nonce),
                version: 0,
            },
        ),
        transaction: Some(
            wire::TransactionVariant::InvokeV0(
                wire::InvokeTransactionV0 {
                    contract_address: Some(t.contract_address),
                    entry_point_selector: Some(t.entry_point_selector),
                    calldata: t.calldata,
                },
            ),
        ),
    }
}

/// The wire transaction an invoke-v1 transaction maps to.
pub open spec fn spec_invoke_v1_to_proto(t: backend::InvokeTransactionV1) -> wire::Transaction {
    wire::Transaction {
        meta: Some(
            wire::TransactionMeta {
                hash: Some(t.transaction_hash),
                max_fee: Some(t.max_fee),
                signature: t.signature,
                nonce: Some(t.nonce),
                version: 0,
            },
        ),
        transaction: Some(
            wire::TransactionVariant::InvokeV1(
                wire::InvokeTransactionV1 {
                    sender_address: Some(t.sender_address),
                    calldata: t.calldata,
                },
            ),
        ),
    }
}

/// How a deploy transaction maps onto the wire shape: no fee, signature or
/// nonce existed for this kind, so the meta carries the defaults — absent
/// fee, empty signature, absent nonce — while the version is preserved.
pub open spec fn deploy_maps(t: backend::DeployTransaction, r: wire::Transaction) -> bool {
    &&& r.meta matches Some(m) && {
        &&& m.hash == Some(t.transaction_hash)
        &&& m.max_fee is None
        &&& m.signature@ == Seq::<FieldElement>::empty()
        &&& m.nonce is None
        &&& m.version == t.version
    }
    &&& r.transaction == Some(
        wire::TransactionVariant::Deploy(
            wire::DeployTransaction {
                class_hash: Some(t.class_hash),
                contract_address_salt: Some(t.contract_address_salt),
                constructor_calldata: t.constructor_calldata,
            },
        ),
    )
}

/// The wire transaction a declare transaction maps to.
pub open spec fn spec_declare_to_proto(t: backend::DeclareTransaction) -> wire::Transaction {
    wire::Transaction {
        meta: Some(
            wire::TransactionMeta {
                hash: Some(t.transaction_hash),
                max_fee: Some(t.max_fee),
                signature: t.signature,
                nonce: Some(t.nonce),
                version: t.version,
            },
        ),
        transaction: Some(
            wire::TransactionVariant::Declare(
                wire::DeclareTransaction {
                    class_hash: Some(t.class_hash),
                    sender_address: Some(t.sender_address),
                },
            ),
        ),
    }
}

/// How an L1 handler transaction maps onto the wire shape: no fee, signature
/// or nonce existed for this kind, so the meta carries the defaults — absent
/// fee, empty signature, absent nonce — while the version is preserved.
pub open spec fn l1_handler_maps(t: backend::L1HandlerTransaction, r: wire::Transaction) -> bool {
    &&& r.meta matches Some(m) && {
        &&& m.hash == Some(t.transaction_hash)
        &&& m.max_fee is None
        &&& m.signature@ == Seq::<FieldElement>::empty()
        &&& m.nonce is None
        &&& m.version == t.version
    }
    &&& r.transaction == Some(
        wire::TransactionVariant::L1Handler(
            wire::L1HandlerTransaction {
                contract_address: Some(t.contract_address),
                entry_point_selector: Some(t.entry_point_selector),
                calldata: t.calldata,
            },
        ),
    )
}

/// The wire transaction a deploy-account transaction maps to.
pub open spec fn spec_deploy_account_to_proto(
    t: backend::DeployAccountTransaction,
) -> wire::Transaction {
    wire::Transaction {
        meta: Some(
            wire::TransactionMeta {
                hash: Some(t.transaction_hash),
                max_fee: Some(t.max_fee),
                signature: t.signature,
                nonce: Some(t.nonce),
                version: t.version,
            },
        ),
        transaction: Some(
            wire::TransactionVariant::DeployAccount(
                wire::DeployAccountTransaction {
                    contract_address_salt: Some(t.contract_address_salt),
                    class_hash: Some(t.class_hash),
                    constructor_calldata: t.constructor_calldata,
                },
            ),
        ),
    }
}

/// How any backend transaction maps onto the wire shape, kind by kind.
pub open spec fn transaction_maps(t: backend::Transaction, r: wire::Transaction) -> bool {
    match t {
        backend::Transaction::Invoke(backend::InvokeTransaction::V0(v0)) => r
            == spec_invoke_v0_to_proto(v0),
        backend::Transaction::Invoke(backend::InvokeTransaction::V1(v1)) => r
            == spec_invoke_v1_to_proto(v1),
        backend::Transaction::Deploy(d) => deploy_maps(d, r),
        backend::Transaction::Declare(d) => r == spec_declare_to_proto(d),
        backend::Transaction::L1Handler(l) => l1_handler_maps(l, r),
        backend::Transaction::DeployAccount(d) => r == spec_deploy_account_to_proto(d),
    }
}

/// The hash a backend transaction carries, whatever its kind.
pub open spec fn spec_transaction_hash(t: backend::Transaction) -> FieldElement {
    match t {
        backend::Transaction::Invoke(backend::InvokeTransaction::V0(v0)) => v0.transaction_hash,
        backend::Transaction::Invoke(backend::InvokeTransaction::V1(v1)) => v1.transaction_hash,
        backend::Transaction::Deploy(d) => d.transaction_hash,
        backend::Transaction::Declare(d) => d.transaction_hash,
        backend::Transaction::L1Handler(l) => l.transaction_hash,
        backend::Transaction::DeployAccount(d) => d.transaction_hash,
    }
}

impl backend::InvokeTransactionV0 {
    /// Map an invoke-v0 transaction onto the wire shape.
    pub fn to_proto(self) -> (r: wire::Transaction)
        ensures
            r == spec_invoke_v0_to_proto(self),
    {
        let backend::InvokeTransactionV0 {
            transaction_hash,
            max_fee,
            signature,
            nonce,
            contract_address,
            entry_point_selector,
            calldata,
        } = self;
        wire::Transaction {
            meta: Some(
                wire::TransactionMeta {
                    hash: Some(transaction_hash),
                    max_fee: Some(max_fee),
                    signature,
                    nonce: Some(nonce),
                    version: 0,
                },
            ),
            transaction: Some(
                wire::TransactionVariant::InvokeV0(
                    wire::InvokeTransactionV0 {
                        contract_address: Some(contract_address),
                        entry_point_selector: Some(entry_point_selector),
                        calldata,
                    },
                ),
            ),
        }
    }
}

impl backend::InvokeTransactionV1 {
    /// Map an invoke-v1 transaction onto the wire shape.
    pub fn to_proto(self) -> (r: wire::Transaction)
        ensures
            r == spec_invoke_v1_to_proto(self),
    {
        let backend::InvokeTransactionV1 {
            transaction_hash,
            max_fee,
            signature,
            nonce,
            sender_address,
            calldata,
        } = self;
        wire::Transaction {
            meta: Some(
                wire::TransactionMeta {
                    hash: Some(transaction_hash),
                    max_fee: Some(max_fee),
                    signature,
                    nonce: Some(nonce),
                    version: 0,
                },
            ),
            transaction: Some(
                wire::TransactionVariant::InvokeV1(
                    wire::InvokeTransactionV1 { sender_address: Some(sender_address), calldata },
                ),
            ),
        }
    }
}

impl backend::DeployTransaction {
    /// Map a deploy transaction onto the wire shape, filling the meta fields
    /// this kind predates with their defaults.
    pub fn to_proto(self) -> (r: wire::Transaction)
        ensures
            deploy_maps(self, r),
    {
        let backend::DeployTransaction {
            transaction_hash,
            version,
            class_hash,
            contract_address_salt,
            constructor_calldata,
        } = self;
        wire::Transaction {
            meta: Some(
                wire::TransactionMeta {
                    hash: Some(transaction_hash),
                    max_fee: None,
                    signature: Vec::new(),
                    nonce: None,
                    version,
                },
            ),
            transaction: Some(
                wire::TransactionVariant::Deploy(
                    wire::DeployTransaction {
                        class_hash: Some(class_hash),
                        contract_address_salt: Some(contract_address_salt),
                        constructor_calldata,
                    },
                ),
            ),
        }
    }
}

impl backend::DeclareTransaction {
    /// Map a declare transaction onto the wire shape.
    pub fn to_proto(self) -> (r: wire::Transaction)
        ensures
            r == spec_declare_to_proto(self),
    {
        let backend::DeclareTransaction {
            transaction_hash,
            max_fee,
            signature,
            nonce,
            version,
            class_hash,
            sender_address,
        } = self;
        wire::Transaction {
            meta: Some(
                wire::TransactionMeta {
                    hash: Some(transaction_hash),
                    max_fee: Some(max_fee),
                    signature,
                    nonce: Some(nonce),
                    version,
                },
            ),
            transaction: Some(
                wire::TransactionVariant::Declare(
                    wire::DeclareTransaction {
                        class_hash: Some(class_hash),
                        sender_address: Some(sender_address),
                    },
                ),
            ),
        }
    }
}

impl backend::L1HandlerTransaction {
    /// Map an L1 handler transaction onto the wire shape, filling the meta
    /// fields this kind predates with their defaults.
    pub fn to_proto(self) -> (r: wire::Transaction)
        ensures
            l1_handler_maps(self, r),
    {
        let backend::L1HandlerTransaction {
            transaction_hash,
            version,
            contract_address,
            entry_point_selector,
            calldata,
        } = self;
        wire::Transaction {
            meta: Some(
                wire::TransactionMeta {
                    hash: Some(transaction_hash),
                    max_fee: None,
                    signature: Vec::new(),
                    nonce: None,
                    version,
                },
            ),
            transaction: Some(
                wire::TransactionVariant::L1Handler(
                    wire::L1HandlerTransaction {
                        contract_address: Some(contract_address),
                        entry_point_selector: Some(entry_point_selector),
                        calldata,
                    },
                ),
            ),
        }
    }
}

impl backend::DeployAccountTransaction {
    /// Map a deploy-account transaction onto the wire shape.
    pub fn to_proto(self) -> (r: wire::Transaction)
        ensures
            r == spec_deploy_account_to_proto(self),
    {
        let backend::DeployAccountTransaction {
            transaction_hash,
            max_fee,
            signature,
            nonce,
            version,
            contract_address_salt,
            class_hash,
            constructor_calldata,
        } = self;
        wire::Transaction {
            meta: Some(
                wire::TransactionMeta {
                    hash: Some(transaction_hash),
                    max_fee: Some(max_fee),
                    signature,
                    nonce: Some(nonce),
                    version,
                },
            ),
            transaction: Some(
                wire::TransactionVariant::DeployAccount(
                    wire::DeployAccountTransaction {
                        contract_address_salt: Some(contract_address_salt),
                        class_hash: Some(class_hash),
                        constructor_calldata,
                    },
                ),
            ),
        }
    }
}

impl backend::Transaction {
    /// Map any backend transaction onto the wire shape, kind by kind.
    pub fn to_proto(self) -> (r: wire::Transaction)
        ensures
            transaction_maps(self, r),
    {
        match self {
            backend::Transaction::Invoke(backend::InvokeTransaction::V0(v0)) => v0.to_proto(),
            backend::Transaction::Invoke(backend::InvokeTransaction::V1(v1)) => v1.to_proto(),
            backend::Transaction::Deploy(d) => d.to_proto(),
            backend::Transaction::Declare(d) => d.to_proto(),
            backend::Transaction::L1Handler(l) => l.to_proto(),
            backend::Transaction::DeployAccount(d) => d.to_proto(),
        }
    }
}

/// Law: the transaction mapping covers every kind. Whatever the kind, the
/// mapped transaction carries a meta and a payload, and the meta's hash is the
/// input's hash. The kinds that predate an explicit fee, signature and nonce
/// (deploy and L1 handler) carry the documented defaults — absent fee, empty
/// signature, absent nonce — while their version field is preserved.
pub proof fn lemma_transaction_coverage(t: backend::Transaction, r: wire::Transaction)
    requires
        transaction_maps(t, r),
    ensures
        r.transaction is Some,
        r.meta matches Some(m) && m.hash == Some(spec_transaction_hash(t)),
        t matches backend::Transaction::Deploy(d) ==> (r.meta matches Some(m) && {
            &&& m.max_fee is None
            &&& m.signature@.len() == 0
            &&& m.nonce is None
            &&& m.version == d.version
        }),
        t matches backend::Transaction::L1Handler(l) ==> (r.meta matches Some(m) && {
            &&& m.max_fee is None
            &&& m.signature@.len() == 0
            &&& m.nonce is None
            &&& m.version == l.version
        }),
{
}

/// The wire message an L2-to-L1 message maps to.
pub open spec fn spec_msg_to_proto(m: backend::MsgToL1) -> wire::L2ToL1Message {
    wire::L2ToL1Message { to_address: Some(m.to_address), payload: m.payload }
}

impl backend::MsgToL1 {
    /// Map an emitted L2-to-L1 message onto the wire shape.
    pub fn to_proto(self) -> (r: wire::L2ToL1Message)
        ensures
            r == spec_msg_to_proto(self),
    {
        let backend::MsgToL1 { to_address, payload } = self;
        wire::L2ToL1Message { to_address: Some(to_address), payload }
    }
}

/// The wire event an emitted event maps to.
pub open spec fn spec_event_to_proto(e: backend::Event) -> wire::Event {
    wire::Event { from_address: Some(e.from_address), keys: e.keys, data: e.data }
}

impl backend::Event {
    /// Map an emitted event onto the wire shape.
    pub fn to_proto(self) -> (r: wire::Event)
        ensures
            r == spec_event_to_proto(self),
    {
        let backend::Event { from_address, keys, data } = self;
        wire::Event { from_address: Some(from_address), keys, data }
    }
}

fn msgs_to_proto(msgs: Vec<backend::MsgToL1>) -> (r: Vec<wire::L2ToL1Message>)
    ensures
        r@.len() == msgs@.len(),
        forall|i: int| 0 <= i < msgs@.len() ==> r@[i] == spec_msg_to_proto(msgs@[i]),
{
    let ghost orig = msgs@;
    let mut msgs = msgs;
    let mut out: Vec<wire::L2ToL1Message> = Vec::new();
    proof {
        assert(orig.subrange(0, orig.len() as int) =~= orig);
    }
    while msgs.len() > 0
        invariant
            out@.len() + msgs@.len() == orig.len(),
            msgs@ == orig.subrange(out@.len() as int, orig.len() as int),
            forall|i: int| 0 <= i < out@.len() ==> out@[i] == spec_msg_to_proto(orig[i]),
        decreases msgs@.len(),
    {
        let ghost k = out@.len() as int;
        let m = msgs.remove(0);
        proof {
            assert(msgs@ =~= orig.subrange(k + 1, orig.len() as int));
        }
        out.push(m.to_proto());
    }
    out
}

fn events_to_proto(events: Vec<backend::Event>) -> (r: Vec<wire::Event>)
    ensures
        r@.len() == events@.len(),
        forall|i: int| 0 <= i < events@.len() ==> r@[i] == spec_event_to_proto(events@[i]),
{
    let ghost orig = events@;
    let mut events = events;
    let mut out: Vec<wire::Event> = Vec::new();
    proof {
        assert(orig.subrange(0, orig.len() as int) =~= orig);
    }
    while events.len() > 0
        invariant
            out@.len() + events@.len() == orig.len(),
            events@ == orig.subrange(out@.len() as int, orig.len() as int),
            forall|i: int| 0 <= i < out@.len() ==> out@[i] == spec_event_to_proto(orig[i]),
        decreases events@.len(),
    {
        let ghost k = out@.len() as int;
        let e = events.remove(0);
        proof {
            assert(events@ =~= orig.subrange(k + 1, orig.len() as int));
        }
        out.push(e.to_proto());
    }
    out
}

/// How a receipt's parameters map onto the wire receipt: the index is always
/// recorded as 0 (the backend does not report the position), the hash and the
/// fee are wrapped, the messages and the events are mapped in order, and the
/// deployed-contract address is carried exactly as given.
pub open spec fn receipt_maps(
    hash: FieldElement,
    fee: FieldElement,
    msgs: Seq<backend::MsgToL1>,
    events: Seq<backend::Event>,
    contract_address: Option<FieldElement>,
    r: wire::TransactionReceipt,
) -> bool {
    &&& r.transaction_index == 0
    &&& r.transaction_hash == Some(hash)
    &&& r.actual_fee == Some(fee)
    &&& r.l2_to_l1_messages@.len() == msgs.len()
    &&& forall|i: int| 0 <= i < msgs.len() ==> r.l2_to_l1_messages@[i] == spec_msg_to_proto(msgs[i])
    &&& r.events@.len() == events.len()
    &&& forall|i: int| 0 <= i < events.len() ==> r.events@[i] == spec_event_to_proto(events[i])
    &&& r.contract_address == contract_address
}

/// Assemble one wire receipt. Every receipt kind goes through here: a kind
/// differs from the others only in the parameters it supplies, and only the
/// deploy kinds supply a contract address.
pub fn assemble_receipt(
    transaction_hash: FieldElement,
    actual_fee: FieldElement,
    messages_sent: Vec<backend::MsgToL1>,
    events: Vec<backend::Event>,
    contract_address: Option<FieldElement>,
) -> (r: wire::TransactionReceipt)
    ensures
        receipt_maps(transaction_hash, actual_fee, messages_sent@, events@, contract_address, r),
{
    let l2_to_l1_messages = msgs_to_proto(messages_sent);
    let events = events_to_proto(events);
    wire::TransactionReceipt {
        transaction_index: 0,
        transaction_hash: Some(transaction_hash),
        actual_fee: Some(actual_fee),
        l2_to_l1_messages,
        events,
        contract_address,
    }
}

impl backend::InvokeTransactionReceipt {
    /// Map a confirmed invoke receipt onto the wire shape.
    pub fn to_proto(self) -> (r: wire::TransactionReceipt)
        ensures
            receipt_maps(
                self.transaction_hash,
                self.actual_fee,
                self.messages_sent@,
                self.events@,
                None,
                r,
            ),
    {
        let backend::InvokeTransactionReceipt { transaction_hash, actual_fee, messages_sent, events }
            = self;
        assemble_receipt(transaction_hash, actual_fee, messages_sent, events, None)
    }
}

impl backend::L1HandlerTransactionReceipt {
    /// Map a confirmed L1 handler receipt onto the wire shape.
    pub fn to_proto(self) -> (r: wire::TransactionReceipt)
        ensures
            receipt_maps(
                self.transaction_hash,
                self.actual_fee,
                self.messages_sent@,
                self.events@,
                None,
                r,
            ),
    {
        let backend::L1HandlerTransactionReceipt {
            transaction_hash,
            actual_fee,
            messages_sent,
            events,
        } = self;
        assemble_receipt(transaction_hash, actual_fee, messages_sent, events, None)
    }
}

impl backend::DeclareTransactionReceipt {
    /// Map a confirmed declare receipt onto the wire shape.
    pub fn to_proto(self) -> (r: wire::TransactionReceipt)
        ensures
            receipt_maps(
                self.transaction_hash,
                self.actual_fee,
                self.messages_sent@,
                self.events@,
                None,
                r,
            ),
    {
        let backend::DeclareTransactionReceipt {
            transaction_hash,
            actual_fee,
            messages_sent,
            events,
        } = self;
        assemble_receipt(transaction_hash, actual_fee, messages_sent, events, None)
    }
}

impl backend::DeployTransactionReceipt {
    /// Map a confirmed deploy receipt onto the wire shape; it is one of the
    /// two kinds that populate the deployed-contract address.
    pub fn to_proto(self) -> (r: wire::TransactionReceipt)
        ensures
            receipt_maps(
                self.transaction_hash,
                self.actual_fee,
                self.messages_sent@,
                self.events@,
                Some(self.contract_address),
                r,
            ),
    {
        let backend::DeployTransactionReceipt {
            transaction_hash,
            actual_fee,
            messages_sent,
            events,
            contract_address,
        } = self;
        assemble_receipt(transaction_hash, actual_fee, messages_sent, events, Some(contract_address))
    }
}

impl backend::DeployAccountTransactionReceipt {
    /// Map a confirmed deploy-account receipt onto the wire shape; it is one
    /// of the two kinds that populate the deployed-contract address.
    pub fn to_proto(self) -> (r: wire::TransactionReceipt)
        ensures
            receipt_maps(
                self.transaction_hash,
                self.actual_fee,
                self.messages_sent@,
                self.events@,
                Some(self.contract_address),
                r,
            ),
    {
        let backend::DeployAccountTransactionReceipt {
            transaction_hash,
            actual_fee,
            messages_sent,
            events,
            contract_address,
        } = self;
        assemble_receipt(transaction_hash, actual_fee, messages_sent, events, Some(contract_address))
    }
}

impl backend::PendingInvokeTransactionReceipt {
    /// Map a pending invoke receipt onto the wire shape.
    pub fn to_proto(self) -> (r: wire::TransactionReceipt)
        ensures
            receipt_maps(
                self.transaction_hash,
                self.actual_fee,
                self.messages_sent@,
                self.events@,
                None,
                r,
            ),
    {
        let backend::PendingInvokeTransactionReceipt {
            transaction_hash,
            actual_fee,
            messages_sent,
            events,
        } = self;
        assemble_receipt(transaction_hash, actual_fee, messages_sent, events, None)
    }
}

impl backend::PendingL1HandlerTransactionReceipt {
    /// Map a pending L1 handler receipt onto the wire shape.
    pub fn to_proto(self) -> (r: wire::TransactionReceipt)
        ensures
            receipt_maps(
                self.transaction_hash,
                self.actual_fee,
                self.messages_sent@,
                self.events@,
                None,
                r,
            ),
    {
        let backend::PendingL1HandlerTransactionReceipt {
            transaction_hash,
            actual_fee,
            messages_sent,
            events,
        } = self;
        assemble_receipt(transaction_hash, actual_fee, messages_sent, events, None)
    }
}

impl backend::PendingDeclareTransactionReceipt {
    /// Map a pending declare receipt onto the wire shape.
    pub fn to_proto(self) -> (r: wire::TransactionReceipt)
        ensures
            receipt_maps(
                self.transaction_hash,
                self.actual_fee,
                self.messages_sent@,
                self.events@,
                None,
                r,
            ),
    {
        let backend::PendingDeclareTransactionReceipt {
            transaction_hash,
            actual_fee,
            messages_sent,
            events,
        } = self;
        assemble_receipt(transaction_hash, actual_fee, messages_sent, events, None)
    }
}

impl backend::PendingDeployTransactionReceipt {
    /// Map a pending deploy receipt onto the wire shape; it is one of the two
    /// kinds that populate the deployed-contract address.
    pub fn to_proto(self) -> (r: wire::TransactionReceipt)
        ensures
            receipt_maps(
                self.transaction_hash,
                self.actual_fee,
                self.messages_sent@,
                self.events@,
                Some(self.contract_address),
                r,
            ),
    {
        let backend::PendingDeployTransactionReceipt {
            transaction_hash,
            actual_fee,
            messages_sent,
            events,
            contract_address,
        } = self;
        assemble_receipt(transaction_hash, actual_fee, messages_sent, events, Some(contract_address))
    }
}

impl backend::PendingDeployAccountTransactionReceipt {
    /// Map a pending deploy-account receipt onto the wire shape; it is one of
    /// the two kinds that populate the deployed-contract address.
    pub fn to_proto(self) -> (r: wire::TransactionReceipt)
        ensures
            receipt_maps(
                self.transaction_hash,
                self.actual_fee,
                self.messages_sent@,
                self.events@,
                Some(self.contract_address),
                r,
            ),
    {
        let backend::PendingDeployAccountTransactionReceipt {
            transaction_hash,
            actual_fee,
            messages_sent,
            events,
            contract_address,
        } = self;
        assemble_receipt(transaction_hash, actual_fee, messages_sent, events, Some(contract_address))
    }
}

/// How a confirmed receipt of any kind maps onto the wire receipt.
pub open spec fn confirmed_receipt_maps(
    x: backend::TransactionReceipt,
    r: wire::TransactionReceipt,
) -> bool {
    match x {
        backend::TransactionReceipt::Invoke(t) => receipt_maps(
            t.transaction_hash,
            t.actual_fee,
            t.messages_sent@,
            t.events@,
            None,
            r,
        ),
        backend::TransactionReceipt::L1Handler(t) => receipt_maps(
            t.transaction_hash,
            t.actual_fee,
            t.messages_sent@,
            t.events@,
            None,
            r,
        ),
        backend::TransactionReceipt::Declare(t) => receipt_maps(
            t.transaction_hash,
            t.actual_fee,
            t.messages_sent@,
            t.events@,
            None,
            r,
        ),
        backend::TransactionReceipt::Deploy(t) => receipt_maps(
            t.transaction_hash,
            t.actual_fee,
            t.messages_sent@,
            t.events@,
            Some(t.contract_address),
            r,
        ),
        backend::TransactionReceipt::DeployAccount(t) => receipt_maps(
            t.transaction_hash,
            t.actual_fee,
            t.messages_sent@,
            t.events@,
            Some(t.contract_address),
            r,
        ),
    }
}

/// How a pending receipt of any kind maps onto the wire receipt.
pub open spec fn pending_receipt_maps(
    x: backend::PendingTransactionReceipt,
    r: wire::TransactionReceipt,
) -> bool {
    match x {
        backend::PendingTransactionReceipt::Invoke(t) => receipt_maps(
            t.transaction_hash,
            t.actual_fee,
            t.messages_sent@,
            t.events@,
            None,
            r,
        ),
        backend::PendingTransactionReceipt::L1Handler(t) => receipt_maps(
            t.transaction_hash,
            t.actual_fee,
            t.messages_sent@,
            t.events@,
            None,
            r,
        ),
        backend::PendingTransactionReceipt::Declare(t) => receipt_maps(
            t.transaction_hash,
            t.actual_fee,
            t.messages_sent@,
            t.events@,
            None,
            r,
        ),
        backend::PendingTransactionReceipt::Deploy(t) => receipt_maps(
            t.transaction_hash,
            t.actual_fee,
            t.messages_sent@,
            t.events@,
            Some(t.contract_address),
            r,
        ),
        backend::PendingTransactionReceipt::DeployAccount(t) => receipt_maps(
            t.transaction_hash,
            t.actual_fee,
            t.messages_sent@,
            t.events@,
            Some(t.contract_address),
            r,
        ),
    }
}

/// How a receipt lookup's answer, confirmed or pending, maps onto the wire.
pub open spec fn any_receipt_maps(
    x: backend::MaybePendingTransactionReceipt,
    r: wire::TransactionReceipt,
) -> bool {
    match x {
        backend::MaybePendingTransactionReceipt::Receipt(c) => confirmed_receipt_maps(c, r),
        backend::MaybePendingTransactionReceipt::PendingReceipt(p) => pending_receipt_maps(p, r),
    }
}

impl backend::TransactionReceipt {
    /// Map a confirmed receipt of any kind onto the wire shape.
    pub fn to_proto(self) -> (r: wire::TransactionReceipt)
        ensures
            confirmed_receipt_maps(self, r),
            r.transaction_index == 0,
            (r.contract_address is Some) <==> (self is Deploy || self is DeployAccount),
    {
        match self {
            backend::TransactionReceipt::Invoke(t) => t.to_proto(),
            backend::TransactionReceipt::L1Handler(t) => t.to_proto(),
            backend::TransactionReceipt::Declare(t) => t.to_proto(),
            backend::TransactionReceipt::Deploy(t) => t.to_proto(),
            backend::TransactionReceipt::DeployAccount(t) => t.to_proto(),
        }
    }
}

impl backend::PendingTransactionReceipt {
    /// Map a pending receipt of any kind onto the wire shape.
    pub fn to_proto(self) -> (r: wire::TransactionReceipt)
        ensures
            pending_receipt_maps(self, r),
            r.transaction_index == 0,
            (r.contract_address is Some) <==> (self is Deploy || self is DeployAccount),
    {
        match self {
            backend::PendingTransactionReceipt::Invoke(t) => t.to_proto(),
            backend::PendingTransactionReceipt::L1Handler(t) => t.to_proto(),
            backend::PendingTransactionReceipt::Declare(t) => t.to_proto(),
            backend::PendingTransactionReceipt::Deploy(t) => t.to_proto(),
            backend::PendingTransactionReceipt::DeployAccount(t) => t.to_proto(),
        }
    }
}

impl backend::MaybePendingTransactionReceipt {
    /// Map a receipt lookup's answer onto the wire shape, confirmed or
    /// pending alike.
    pub fn to_proto(self) -> (r: wire::TransactionReceipt)
        ensures
            any_receipt_maps(self, r),
            r.transaction_index == 0,
    {
        match self {
            backend::MaybePendingTransactionReceipt::Receipt(c) => c.to_proto(),
            backend::MaybePendingTransactionReceipt::PendingReceipt(p) => p.to_proto(),
        }
    }
}

/// Law: only the deploy and the deploy-account receipts populate the
/// deployed-contract address, and they populate it with the input's address;
/// every other kind leaves it absent. This holds of confirmed and pending
/// receipts alike.
pub proof fn lemma_receipt_contract_address(
    x: backend::MaybePendingTransactionReceipt,
    r: wire::TransactionReceipt,
)
    requires
        any_receipt_maps(x, r),
    ensures
        match x {
            backend::MaybePendingTransactionReceipt::Receipt(c) => match c {
                backend::TransactionReceipt::Deploy(t) => r.contract_address == Some(
                    t.contract_address,
                ),
                backend::TransactionReceipt::DeployAccount(t) => r.contract_address == Some(
                    t.contract_address,
                ),
                _ => r.contract_address is None,
            },
            backend::MaybePendingTransactionReceipt::PendingReceipt(p) => match p {
                backend::PendingTransactionReceipt::Deploy(t) => r.contract_address == Some(
                    t.contract_address,
                ),
                backend::PendingTransactionReceipt::DeployAccount(t) => r.contract_address == Some(
                    t.contract_address,
                ),
                _ => r.contract_address is None,
            },
        },
{
}

/// The wire entry an updated storage cell maps to.
pub open spec fn spec_entry_to_proto(e: backend::StorageEntry) -> wire::StorageEntry {
    wire::StorageEntry { key: Some(e.key), value: Some(e.value) }
}

impl backend::StorageEntry {
    /// Map one updated storage cell onto the wire shape.
    pub fn to_proto(self) -> (r: wire::StorageEntry)
        ensures
            r == spec_entry_to_proto(self),
    {
        let backend::StorageEntry { key, value } = self;
        wire::StorageEntry { key: Some(key), value: Some(value) }
    }
}

/// The wire record a declared class hash maps to.
pub open spec fn spec_declared_to_proto(class_hash: FieldElement)
    -> wire::DeclaredContract {
    wire::DeclaredContract { class_hash: Some(class_hash) }
}

/// The wire record a newly deployed contract maps to.
pub open spec fn spec_deployed_to_proto(d: backend::DeployedContractItem)
    -> wire::DeployedContract {
    wire::DeployedContract { contract_address: Some(d.address), class_hash: Some(d.class_hash) }
}

impl backend::DeployedContractItem {
    /// Map one newly deployed contract onto the wire shape.
    pub fn to_proto(self) -> (r: wire::DeployedContract)
        ensures
            r == spec_deployed_to_proto(self),
    {
        let backend::DeployedContractItem { address, class_hash } = self;
        wire::DeployedContract { contract_address: Some(address), class_hash: Some(class_hash) }
    }
}

/// The wire record a nonce update maps to.
pub open spec fn spec_nonce_to_proto(n: backend::NonceUpdate) -> wire::NonceUpdate {
    wire::NonceUpdate { contract_address: Some(n.contract_address), nonce: Some(n.nonce) }
}

impl backend::NonceUpdate {
    /// Map one nonce update onto the wire shape.
    pub fn to_proto(self) -> (r: wire::NonceUpdate)
        ensures
            r == spec_nonce_to_proto(self),
    {
        let backend::NonceUpdate { contract_address, nonce } = self;
        wire::NonceUpdate { contract_address: Some(contract_address), nonce: Some(nonce) }
    }
}

/// How one contract's storage diff maps onto the wire shape: the address is
/// wrapped and the entries are mapped in order.
pub open spec fn storage_diff_maps(
    b: backend::ContractStorageDiffItem,
    w: wire::StorageDiff,
) -> bool {
    &&& w.contract_address == Some(b.address)
    &&& w.storage_entries@.len() == b.storage_entries@.len()
    &&& forall|i: int|
        0 <= i < b.storage_entries@.len() ==> w.storage_entries@[i] == spec_entry_to_proto(
            b.storage_entries@[i],
        )
}

fn entries_to_proto(entries: Vec<backend::StorageEntry>) -> (r: Vec<wire::StorageEntry>)
    ensures
        r@.len() == entries@.len(),
        forall|i: int| 0 <= i < entries@.len() ==> r@[i] == spec_entry_to_proto(entries@[i]),
{
    let ghost orig = entries@;
    let mut entries = entries;
    let mut out: Vec<wire::StorageEntry> = Vec::new();
    proof {
        assert(orig.subrange(0, orig.len() as int) =~= orig);
    }
    while entries.len() > 0
        invariant
            out@.len() + entries@.len() == orig.len(),
            entries@ == orig.subrange(out@.len() as int, orig.len() as int),
            forall|i: int| 0 <= i < out@.len() ==> out@[i] == spec_entry_to_proto(orig[i]),
        decreases entries@.len(),
    {
        let ghost k = out@.len() as int;
        let e = entries.remove(0);
        proof {
            assert(entries@ =~= orig.subrange(k + 1, orig.len() as int));
        }
        out.push(e.to_proto());
    }
    out
}

impl backend::ContractStorageDiffItem {
    /// Map one contract's storage diff onto the wire shape.
    pub fn to_proto(self) -> (r: wire::StorageDiff)
        ensures
            storage_diff_maps(self, r),
    {
        let backend::ContractStorageDiffItem { address, storage_entries } = self;
        let storage_entries = entries_to_proto(storage_entries);
        wire::StorageDiff { contract_address: Some(address), storage_entries }
    }
}

/// How a full state diff maps onto the wire shape: each of the four lists is
/// mapped in order, nothing reordered, nothing dropped.
pub open spec fn state_diff_maps(b: backend::StateDiff, w: wire::StateDiff) -> bool {
    &&& w.storage_diffs@.len() == b.storage_diffs@.len()
    &&& forall|i: int|
        0 <= i < b.storage_diffs@.len() ==> storage_diff_maps(
            b.storage_diffs@[i],
            w.storage_diffs@[i],
        )
    &&& w.declared_contracts@.len() == b.declared_contract_hashes@.len()
    &&& forall|i: int|
        0 <= i < b.declared_contract_hashes@.len() ==> w.declared_contracts@[i]
            == spec_declared_to_proto(b.declared_contract_hashes@[i])
    &&& w.deployed_contracts@.len() == b.deployed_contracts@.len()
    &&& forall|i: int|
        0 <= i < b.deployed_contracts@.len() ==> w.deployed_contracts@[i] == spec_deployed_to_proto(
            b.deployed_contracts@[i],
        )
    &&& w.nonces@.len() == b.nonces@.len()
    &&& forall|i: int|
        0 <= i < b.nonces@.len() ==> w.nonces@[i] == spec_nonce_to_proto(b.nonces@[i])
}

fn storage_diffs_to_proto(diffs: Vec<backend::ContractStorageDiffItem>) -> (r: Vec<
    wire::StorageDiff,
>)
    ensures
        r@.len() == diffs@.len(),
        forall|i: int| 0 <= i < diffs@.len() ==> storage_diff_maps(diffs@[i], r@[i]),
{
    let ghost orig = diffs@;
    let mut diffs = diffs;
    let mut out: Vec<wire::StorageDiff> = Vec::new();
    proof {
        assert(orig.subrange(0, orig.len() as int) =~= orig);
    }
    while diffs.len() > 0
        invariant
            out@.len() + diffs@.len() == orig.len(),
            diffs@ == orig.subrange(out@.len() as int, orig.len() as int),
            forall|i: int| 0 <= i < out@.len() ==> storage_diff_maps(orig[i], out@[i]),
        decreases diffs@.len(),
    {
        let ghost k = out@.len() as int;
        let d = diffs.remove(0);
        proof {
            assert(diffs@ =~= orig.subrange(k + 1, orig.len() as int));
        }
        out.push(d.to_proto());
    }
    out
}

fn declared_to_proto(hashes: Vec<FieldElement>) -> (r: Vec<wire::DeclaredContract>)
    ensures
        r@.len() == hashes@.len(),
        forall|i: int| 0 <= i < hashes@.len() ==> r@[i] == spec_declared_to_proto(hashes@[i]),
{
    let ghost orig = hashes@;
    let mut hashes = hashes;
    let mut out: Vec<wire::DeclaredContract> = Vec::new();
    proof {
        assert(orig.subrange(0, orig.len() as int) =~= orig);
    }
    while hashes.len() > 0
        invariant
            out@.len() + hashes@.len() == orig.len(),
            hashes@ == orig.subrange(out@.len() as int, orig.len() as int),
            forall|i: int| 0 <= i < out@.len() ==> out@[i] == spec_declared_to_proto(orig[i]),
        decreases hashes@.len(),
    {
        let ghost k = out@.len() as int;
        let h = hashes.remove(0);
        proof {
            assert(hashes@ =~= orig.subrange(k + 1, orig.len() as int));
        }
        out.push(wire::DeclaredContract { class_hash: Some(h) });
    }
    out
}

fn deployed_to_proto(items: Vec<backend::DeployedContractItem>) -> (r: Vec<wire::DeployedContract>)
    ensures
        r@.len() == items@.len(),
        forall|i: int| 0 <= i < items@.len() ==> r@[i] == spec_deployed_to_proto(items@[i]),
{
    let ghost orig = items@;
    let mut items = items;
    let mut out: Vec<wire::DeployedContract> = Vec::new();
    proof {
        assert(orig.subrange(0, orig.len() as int) =~= orig);
    }
    while items.len() > 0
        invariant
            out@.len() + items@.len() == orig.len(),
            items@ == orig.subrange(out@.len() as int, orig.len() as int),
            forall|i: int| 0 <= i < out@.len() ==> out@[i] == spec_deployed_to_proto(orig[i]),
        decreases items@.len(),
    {
        let ghost k = out@.len() as int;
        let d = items.remove(0);
        proof {
            assert(items@ =~= orig.subrange(k + 1, orig.len() as int));
        }
        out.push(d.to_proto());
    }
    out
}

fn nonces_to_proto(nonces: Vec<backend::NonceUpdate>) -> (r: Vec<wire::NonceUpdate>)
    ensures
        r@.len() == nonces@.len(),
        forall|i: int| 0 <= i < nonces@.len() ==> r@[i] == spec_nonce_to_proto(nonces@[i]),
{
    let ghost orig = nonces@;
    let mut nonces = nonces;
    let mut out: Vec<wire::NonceUpdate> = Vec::new();
    proof {
        assert(orig.subrange(0, orig.len() as int) =~= orig);
    }
    while nonces.len() > 0
        invariant
            out@.len() + nonces@.len() == orig.len(),
            nonces@ == orig.subrange(out@.len() as int, orig.len() as int),
            forall|i: int| 0 <= i < out@.len() ==> out@[i] == spec_nonce_to_proto(orig[i]),
        decreases nonces@.len(),
    {
        let ghost k = out@.len() as int;
        let n = nonces.remove(0);
        proof {
            assert(nonces@ =~= orig.subrange(k + 1, orig.len() as int));
        }
        out.push(n.to_proto());
    }
    out
}

/// How a state update maps onto the wire shape: both roots wrapped, and the
/// diff mapped completely — a state update is never partially populated.
pub open spec fn state_update_maps(b: backend::StateUpdate, w: wire::StateUpdate) -> bool {
    &&& w.new_root == Some(b.new_root)
    &&& w.old_root == Some(b.old_root)
    &&& w.state_diff matches Some(d) && state_diff_maps(b.state_diff, d)
}

impl backend::StateDiff {
    /// Map a full state diff onto the wire shape.
    pub fn to_proto(self) -> (r: wire::StateDiff)
        ensures
            state_diff_maps(self, r),
    {
        let backend::StateDiff {
            storage_diffs,
            declared_contract_hashes,
            deployed_contracts,
            nonces,
        } = self;
        wire::StateDiff {
            storage_diffs: storage_diffs_to_proto(storage_diffs),
            declared_contracts: declared_to_proto(declared_contract_hashes),
            deployed_contracts: deployed_to_proto(deployed_contracts),
            nonces: nonces_to_proto(nonces),
        }
    }
}

impl backend::StateUpdate {
    /// Map a state update onto the wire shape.
    pub fn to_proto(self) -> (r: wire::StateUpdate)
        ensures
            state_update_maps(self, r),
    {
        let backend::StateUpdate { new_root, old_root, state_diff } = self;
        wire::StateUpdate {
            new_root: Some(new_root),
            old_root: Some(old_root),
            state_diff: Some(state_diff.to_proto()),
        }
    }
}

/// The wire header a confirmed block maps to: every field is present.
pub open spec fn spec_block_header(b: backend::BlockWithTxs) -> wire::BlockHeader {
    wire::BlockHeader {
        block_hash: Some(b.block_hash),
        parent_block_hash: Some(b.parent_hash),
        block_number: b.block_number,
        sequencer_address: Some(b.sequencer_address),
        new_root: Some(b.new_root),
        timestamp: Some(wire::Timestamp { seconds: b.timestamp as i64, nanos: 0 }),
    }
}

/// How the pending block's header maps onto the wire shape: the hash is the
/// all-zero sentinel, the number is the maximum-integer sentinel, and the new
/// state root is absent — the block has none of the three yet.
pub open spec fn pending_header_maps(
    p: backend::PendingBlockWithTxs,
    h: wire::BlockHeader,
) -> bool {
    &&& h.block_hash matches Some(z) && z@ == spec_zero()
    &&& h.parent_block_hash == Some(p.parent_hash)
    &&& h.block_number == u64::MAX
    &&& h.sequencer_address == Some(p.sequencer_address)
    &&& h.new_root is None
    &&& h.timestamp == Some(wire::Timestamp { seconds: p.timestamp as i64, nanos: 0 })
}

/// How a block's transactions map onto the wire body: in order, one wire
/// transaction per backend transaction.
pub open spec fn body_maps(txs: Seq<backend::Transaction>, b: wire::BlockBody) -> bool {
    &&& b.transactions@.len() == txs.len()
    &&& forall|i: int| 0 <= i < txs.len() ==> transaction_maps(txs[i], b.transactions@[i])
}

fn transactions_to_proto(txs: Vec<backend::Transaction>) -> (r: Vec<wire::Transaction>)
    ensures
        r@.len() == txs@.len(),
        forall|i: int| 0 <= i < txs@.len() ==> transaction_maps(txs@[i], r@[i]),
{
    let ghost orig = txs@;
    let mut txs = txs;
    let mut out: Vec<wire::Transaction> = Vec::new();
    proof {
        assert(orig.subrange(0, orig.len() as int) =~= orig);
    }
    while txs.len() > 0
        invariant
            out@.len() + txs@.len() == orig.len(),
            txs@ == orig.subrange(out@.len() as int, orig.len() as int),
            forall|i: int| 0 <= i < out@.len() ==> transaction_maps(orig[i], out@[i]),
        decreases txs@.len(),
    {
        let ghost k = out@.len() as int;
        let t = txs.remove(0);
        proof {
            assert(txs@ =~= orig.subrange(k + 1, orig.len() as int));
        }
        out.push(t.to_proto());
    }
    out
}

impl backend::BlockWithTxs {
    /// Map a confirmed block onto the wire shape: its normalized status, its
    /// header with every field present, and its body in transaction order.
    pub fn to_proto(self) -> (r: (wire::BlockStatus, wire::BlockHeader, wire::BlockBody))
        ensures
            r.0 == spec_status_to_proto(self.status),
            r.1 == spec_block_header(self),
            body_maps(self.transactions@, r.2),
    {
        let backend::BlockWithTxs {
            status,
            block_hash,
            parent_hash,
            block_number,
            sequencer_address,
            new_root,
            timestamp,
            transactions,
        } = self;
        let header = wire::BlockHeader {
            block_hash: Some(block_hash),
            parent_block_hash: Some(parent_hash),
            block_number,
            sequencer_address: Some(sequencer_address),
            new_root: Some(new_root),
            timestamp: Some(
                wire::Timestamp { seconds: #[verifier::truncate] (timestamp as i64), nanos: 0 },
            ),
        };
        let body = wire::BlockBody { transactions: transactions_to_proto(transactions) };
        (status.to_proto(), header, body)
    }
}

impl backend::PendingBlockWithTxs {
    /// Map the pending block onto the wire shape: status pending by
    /// definition, the sentinel header, and the body in transaction order.
    pub fn to_proto(self) -> (r: (wire::BlockStatus, wire::BlockHeader, wire::BlockBody))
        ensures
            r.0 is Pending,
            pending_header_maps(self, r.1),
            body_maps(self.transactions@, r.2),
    {
        let backend::PendingBlockWithTxs { parent_hash, sequencer_address, timestamp, transactions }
            = self;
        let header = wire::BlockHeader {
            block_hash: Some(FieldElement::zero()),
            parent_block_hash: Some(parent_hash),
            block_number: u64::MAX,
            sequencer_address: Some(sequencer_address),
            new_root: None,
            timestamp: Some(
                wire::Timestamp { seconds: #[verifier::truncate] (timestamp as i64), nanos: 0 },
            ),
        };
        let body = wire::BlockBody { transactions: transactions_to_proto(transactions) };
        (wire::BlockStatus::Pending, header, body)
    }
}

} // verus!
