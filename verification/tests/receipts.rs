use starknet_adapter::backend;
use starknet_adapter::felt::FieldElement;

fn fe(bytes: &[u8]) -> FieldElement {
    FieldElement::to_canonical(bytes).expect("input fits in 32 bytes")
}

fn messages() -> Vec<backend::MsgToL1> {
    vec![
        backend::MsgToL1 {
            to_address: fe(&[101]),
            payload: vec![fe(&[102]), fe(&[103])],
        },
        backend::MsgToL1 {
            to_address: fe(&[104]),
            payload: vec![],
        },
    ]
}

fn events() -> Vec<backend::Event> {
    vec![
        backend::Event {
            from_address: fe(&[111]),
            keys: vec![fe(&[112])],
            data: vec![fe(&[113]), fe(&[114])],
        },
        backend::Event {
            from_address: fe(&[115]),
            keys: vec![],
            data: vec![],
        },
    ]
}

#[test]
fn confirmed_invoke_receipt_has_no_contract_address() {
    let receipt = backend::TransactionReceipt::Invoke(backend::InvokeTransactionReceipt {
        transaction_hash: fe(&[1]),
        actual_fee: fe(&[2]),
        messages_sent: messages(),
        events: events(),
    });
    let out = receipt.to_proto();
    assert_eq!(out.transaction_index, 0);
    assert_eq!(out.transaction_hash, Some(fe(&[1])));
    assert_eq!(out.actual_fee, Some(fe(&[2])));
    assert_eq!(out.contract_address, None);
    assert_eq!(out.l2_to_l1_messages.len(), 2);
    assert_eq!(out.l2_to_l1_messages[0].to_address, Some(fe(&[101])));
    assert_eq!(
        out.l2_to_l1_messages[0].payload,
        vec![fe(&[102]), fe(&[103])]
    );
    assert_eq!(out.l2_to_l1_messages[1].to_address, Some(fe(&[104])));
    assert_eq!(out.events.len(), 2);
    assert_eq!(out.events[0].from_address, Some(fe(&[111])));
    assert_eq!(out.events[0].keys, vec![fe(&[112])]);
    assert_eq!(out.events[0].data, vec![fe(&[113]), fe(&[114])]);
    assert_eq!(out.events[1].from_address, Some(fe(&[115])));
}

#[test]
fn confirmed_l1_handler_and_declare_receipts_have_no_contract_address() {
    let l1 = backend::TransactionReceipt::L1Handler(backend::L1HandlerTransactionReceipt {
        transaction_hash: fe(&[3]),
        actual_fee: fe(&[4]),
        messages_sent: vec![],
        events: vec![],
    })
    .to_proto();
    assert_eq!(l1.contract_address, None);
    assert_eq!(l1.transaction_index, 0);

    let declare = backend::TransactionReceipt::Declare(backend::DeclareTransactionReceipt {
        transaction_hash: fe(&[5]),
        actual_fee: fe(&[6]),
        messages_sent: vec![],
        events: vec![],
    })
    .to_proto();
    assert_eq!(declare.contract_address, None);
    assert_eq!(declare.transaction_hash, Some(fe(&[5])));
}

#[test]
fn confirmed_deploy_receipts_carry_the_deployed_address() {
    let deploy = backend::TransactionReceipt::Deploy(backend::DeployTransactionReceipt {
        transaction_hash: fe(&[7]),
        actual_fee: fe(&[8]),
        messages_sent: vec![],
        events: vec![],
        contract_address: fe(&[9]),
    })
    .to_proto();
    assert_eq!(deploy.contract_address, Some(fe(&[9])));

    let account =
        backend::TransactionReceipt::DeployAccount(backend::DeployAccountTransactionReceipt {
            transaction_hash: fe(&[10]),
            actual_fee: fe(&[11]),
            messages_sent: vec![],
            events: vec![],
            contract_address: fe(&[12]),
        })
        .to_proto();
    assert_eq!(account.contract_address, Some(fe(&[12])));
}

#[test]
fn pending_receipts_follow_the_same_contract_address_rule() {
    let invoke =
        backend::PendingTransactionReceipt::Invoke(backend::PendingInvokeTransactionReceipt {
            transaction_hash: fe(&[21]),
            actual_fee: fe(&[22]),
            messages_sent: messages(),
            events: vec![],
        })
        .to_proto();
    assert_eq!(invoke.contract_address, None);
    assert_eq!(invoke.transaction_index, 0);
    assert_eq!(invoke.l2_to_l1_messages.len(), 2);

    let l1 = backend::PendingTransactionReceipt::L1Handler(
        backend::PendingL1HandlerTransactionReceipt {
            transaction_hash: fe(&[23]),
            actual_fee: fe(&[24]),
            messages_sent: vec![],
            events: vec![],
        },
    )
    .to_proto();
    assert_eq!(l1.contract_address, None);

    let declare =
        backend::PendingTransactionReceipt::Declare(backend::PendingDeclareTransactionReceipt {
            transaction_hash: fe(&[25]),
            actual_fee: fe(&[26]),
            messages_sent: vec![],
            events: vec![],
        })
        .to_proto();
    assert_eq!(declare.contract_address, None);

    let deploy =
        backend::PendingTransactionReceipt::Deploy(backend::PendingDeployTransactionReceipt {
            transaction_hash: fe(&[27]),
            actual_fee: fe(&[28]),
            messages_sent: vec![],
            events: vec![],
            contract_address: fe(&[29]),
        })
        .to_proto();
    assert_eq!(deploy.contract_address, Some(fe(&[29])));

    let account = backend::PendingTransactionReceipt::DeployAccount(
        backend::PendingDeployAccountTransactionReceipt {
            transaction_hash: fe(&[30]),
            actual_fee: fe(&[31]),
            messages_sent: vec![],
            events: vec![],
            contract_address: fe(&[32]),
        },
    )
    .to_proto();
    assert_eq!(account.contract_address, Some(fe(&[32])));
}

#[test]
fn receipt_lookup_answer_maps_both_variants() {
    let confirmed = backend::MaybePendingTransactionReceipt::Receipt(
        backend::TransactionReceipt::Invoke(backend::InvokeTransactionReceipt {
            transaction_hash: fe(&[41]),
            actual_fee: fe(&[42]),
            messages_sent: vec![],
            events: events(),
        }),
    )
    .to_proto();
    assert_eq!(confirmed.transaction_hash, Some(fe(&[41])));
    assert_eq!(confirmed.events.len(), 2);

    let pending = backend::MaybePendingTransactionReceipt::PendingReceipt(
        backend::PendingTransactionReceipt::Deploy(backend::PendingDeployTransactionReceipt {
            transaction_hash: fe(&[43]),
            actual_fee: fe(&[44]),
            messages_sent: vec![],
            events: vec![],
            contract_address: fe(&[45]),
        }),
    )
    .to_proto();
    assert_eq!(pending.transaction_hash, Some(fe(&[43])));
    assert_eq!(pending.contract_address, Some(fe(&[45])));
}
