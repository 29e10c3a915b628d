use starknet_adapter::backend;
use starknet_adapter::chain::{BlockHash, BlockId};
use starknet_adapter::felt::FieldElement;
use starknet_adapter::provider::{
    block_from_response, head_from_response, resolve_block_id, BackendCallError,
    HttpProviderError, ProviderError, RpcErrorCode,
};
use starknet_adapter::wire;

fn fe(bytes: &[u8]) -> FieldElement {
    FieldElement::to_canonical(bytes).expect("input fits in 32 bytes")
}

fn confirmed_block(status: backend::BlockStatus, number: u64) -> backend::BlockWithTxs {
    backend::BlockWithTxs {
        status,
        block_hash: fe(&[1]),
        parent_hash: fe(&[2]),
        block_number: number,
        sequencer_address: fe(&[3]),
        new_root: fe(&[4]),
        timestamp: 1_600_000_000,
        transactions: vec![backend::Transaction::L1Handler(backend::L1HandlerTransaction {
            transaction_hash: fe(&[5]),
            version: 0,
            contract_address: fe(&[6]),
            entry_point_selector: fe(&[7]),
            calldata: vec![],
        })],
    }
}

fn pending_block() -> backend::PendingBlockWithTxs {
    backend::PendingBlockWithTxs {
        parent_hash: fe(&[8]),
        sequencer_address: fe(&[9]),
        timestamp: 1_700_000_000,
        transactions: vec![
            backend::Transaction::Deploy(backend::DeployTransaction {
                transaction_hash: fe(&[10]),
                version: 0,
                class_hash: fe(&[11]),
                contract_address_salt: fe(&[12]),
                constructor_calldata: vec![],
            }),
            backend::Transaction::Declare(backend::DeclareTransaction {
                transaction_hash: fe(&[13]),
                max_fee: fe(&[14]),
                signature: vec![],
                nonce: fe(&[15]),
                version: 1,
                class_hash: fe(&[16]),
                sender_address: fe(&[17]),
            }),
        ],
    }
}

#[test]
fn confirmed_query_maps_status_header_and_body() {
    let id = BlockId::Number(77);
    let response = backend::MaybePendingBlockWithTxs::Block(confirmed_block(
        backend::BlockStatus::AcceptedOnL2,
        77,
    ));
    let (status, header, body) = block_from_response(&id, response).expect("consistent answer");
    assert_eq!(status, wire::BlockStatus::AcceptedOnL2);
    assert_eq!(header.block_hash, Some(fe(&[1])));
    assert_eq!(header.parent_block_hash, Some(fe(&[2])));
    assert_eq!(header.block_number, 77);
    assert_eq!(header.sequencer_address, Some(fe(&[3])));
    assert_eq!(header.new_root, Some(fe(&[4])));
    let ts = header.timestamp.expect("timestamp is always present");
    assert_eq!(ts.seconds, 1_600_000_000);
    assert_eq!(ts.nanos, 0);
    assert_eq!(body.transactions.len(), 1);
    let meta = body.transactions[0].meta.clone().expect("meta is always present");
    assert_eq!(meta.hash, Some(fe(&[5])));
}

#[test]
fn pending_query_yields_the_sentinel_header() {
    let id = BlockId::Pending;
    let response = backend::MaybePendingBlockWithTxs::PendingBlock(pending_block());
    let (status, header, body) = block_from_response(&id, response).expect("consistent answer");
    assert_eq!(status, wire::BlockStatus::Pending);
    assert_eq!(header.block_hash, Some(FieldElement::zero()));
    assert_eq!(header.block_number, u64::MAX);
    assert_eq!(header.new_root, None);
    assert_eq!(header.parent_block_hash, Some(fe(&[8])));
    assert_eq!(header.sequencer_address, Some(fe(&[9])));
    assert_eq!(body.transactions.len(), 2);
    let first = body.transactions[0].meta.clone().expect("meta is always present");
    let second = body.transactions[1].meta.clone().expect("meta is always present");
    assert_eq!(first.hash, Some(fe(&[10])));
    assert_eq!(second.hash, Some(fe(&[13])));
}

#[test]
fn pending_query_answered_with_a_confirmed_block_is_rejected() {
    let id = BlockId::Pending;
    let response = backend::MaybePendingBlockWithTxs::Block(confirmed_block(
        backend::BlockStatus::AcceptedOnL2,
        100,
    ));
    assert_eq!(
        block_from_response(&id, response),
        Err(HttpProviderError::ExpectedPendingBlock)
    );
}

#[test]
fn non_pending_query_answered_with_the_pending_block_is_rejected() {
    let id = BlockId::Latest;
    let response = backend::MaybePendingBlockWithTxs::PendingBlock(pending_block());
    assert_eq!(
        block_from_response(&id, response),
        Err(HttpProviderError::UnexpectedPendingBlock)
    );
}

#[test]
fn confirmed_variant_still_carrying_pending_status_is_rejected() {
    let id = BlockId::Number(5);
    let response =
        backend::MaybePendingBlockWithTxs::Block(confirmed_block(backend::BlockStatus::Pending, 5));
    assert_eq!(
        block_from_response(&id, response),
        Err(HttpProviderError::UnexpectedPendingBlock)
    );
}

#[test]
fn head_lookup_answer_becomes_a_global_block_id() {
    let head = backend::BlockHashAndNumber {
        block_hash: fe(&[1, 2, 3, 4]),
        block_number: 123_456,
    };
    let id = head_from_response(head);
    assert_eq!(id.number, 123_456);
    assert_eq!(id.hash.as_bytes(), &fe(&[1, 2, 3, 4]).into_bytes());
}

#[test]
fn block_not_found_is_the_only_retryable_classification() {
    let not_found =
        HttpProviderError::from_provider_error(BackendCallError::Rpc(RpcErrorCode::BlockNotFound));
    assert_eq!(not_found, HttpProviderError::BlockNotFound);
    assert!(not_found.is_block_not_found());

    let other_code = HttpProviderError::from_provider_error(BackendCallError::Rpc(
        RpcErrorCode::ContractNotFound,
    ));
    assert_eq!(other_code, HttpProviderError::Provider);
    assert!(!other_code.is_block_not_found());

    let transport = HttpProviderError::from_provider_error(BackendCallError::Other);
    assert_eq!(transport, HttpProviderError::Provider);
    assert!(!transport.is_block_not_found());

    assert!(!HttpProviderError::UnexpectedPendingBlock.is_block_not_found());
    assert!(!HttpProviderError::ExpectedPendingBlock.is_block_not_found());
}

#[test]
fn resolving_an_oversized_hash_fails_with_invalid_block_id() {
    let id = BlockId::Hash(BlockHash::new(vec![1; 40]));
    assert_eq!(resolve_block_id(&id), Err(HttpProviderError::InvalidBlockId));
    assert!(resolve_block_id(&BlockId::Latest).is_ok());
}

#[test]
fn state_update_maps_all_four_diff_lists_in_order() {
    let update = backend::StateUpdate {
        new_root: fe(&[61]),
        old_root: fe(&[62]),
        state_diff: backend::StateDiff {
            storage_diffs: vec![backend::ContractStorageDiffItem {
                address: fe(&[63]),
                storage_entries: vec![
                    backend::StorageEntry {
                        key: fe(&[64]),
                        value: fe(&[65]),
                    },
                    backend::StorageEntry {
                        key: fe(&[66]),
                        value: fe(&[67]),
                    },
                ],
            }],
            declared_contract_hashes: vec![fe(&[68]), fe(&[69])],
            deployed_contracts: vec![backend::DeployedContractItem {
                address: fe(&[70]),
                class_hash: fe(&[71]),
            }],
            nonces: vec![backend::NonceUpdate {
                contract_address: fe(&[72]),
                nonce: fe(&[73]),
            }],
        },
    };
    let out = update.to_proto();
    assert_eq!(out.new_root, Some(fe(&[61])));
    assert_eq!(out.old_root, Some(fe(&[62])));
    let diff = out.state_diff.expect("the diff is always complete");
    assert_eq!(diff.storage_diffs.len(), 1);
    assert_eq!(diff.storage_diffs[0].contract_address, Some(fe(&[63])));
    assert_eq!(diff.storage_diffs[0].storage_entries.len(), 2);
    assert_eq!(diff.storage_diffs[0].storage_entries[0].key, Some(fe(&[64])));
    assert_eq!(
        diff.storage_diffs[0].storage_entries[1].value,
        Some(fe(&[67]))
    );
    assert_eq!(diff.declared_contracts.len(), 2);
    assert_eq!(diff.declared_contracts[0].class_hash, Some(fe(&[68])));
    assert_eq!(diff.declared_contracts[1].class_hash, Some(fe(&[69])));
    assert_eq!(diff.deployed_contracts.len(), 1);
    assert_eq!(diff.deployed_contracts[0].contract_address, Some(fe(&[70])));
    assert_eq!(diff.deployed_contracts[0].class_hash, Some(fe(&[71])));
    assert_eq!(diff.nonces.len(), 1);
    assert_eq!(diff.nonces[0].contract_address, Some(fe(&[72])));
    assert_eq!(diff.nonces[0].nonce, Some(fe(&[73])));
}
