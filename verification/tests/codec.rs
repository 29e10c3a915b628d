use starknet_adapter::chain::{BackendBlockSelector, BlockHash, BlockId, GlobalBlockId};
use starknet_adapter::felt::FieldElement;

fn fe(bytes: &[u8]) -> FieldElement {
    FieldElement::to_canonical(bytes).expect("input fits in 32 bytes")
}

#[test]
fn short_input_is_left_zero_padded() {
    let out = fe(&[1, 2, 3]).to_bytes();
    assert_eq!(out.len(), 32);
    assert!(out[..29].iter().all(|b| *b == 0));
    assert_eq!(&out[29..], &[1, 2, 3]);
}

#[test]
fn twenty_byte_hash_keeps_twelve_leading_zeros() {
    let input: Vec<u8> = (1..=20).collect();
    let out = fe(&input).to_bytes();
    assert_eq!(out.len(), 32);
    assert!(out[..12].iter().all(|b| *b == 0));
    assert_eq!(&out[12..], &input[..]);
}

#[test]
fn full_width_input_round_trips_unchanged() {
    let input: Vec<u8> = (0..32).map(|i| 255 - i).collect();
    let out = fe(&input).to_bytes();
    assert_eq!(out, input);
}

#[test]
fn empty_input_is_the_zero_element() {
    assert_eq!(fe(&[]), FieldElement::zero());
    assert!(FieldElement::zero().to_bytes().iter().all(|b| *b == 0));
}

#[test]
fn oversized_input_is_rejected() {
    assert!(FieldElement::to_canonical(&[0u8; 33]).is_err());
    assert!(FieldElement::to_canonical(&[7u8; 64]).is_err());
    assert!(FieldElement::to_canonical(&[0u8; 32]).is_ok());
}

#[test]
fn into_bytes_matches_to_bytes() {
    let element = fe(&[9, 9, 9]);
    let copied = element.to_bytes();
    assert_eq!(element.into_bytes(), copied);
}

#[test]
fn is_pending_only_for_the_pending_variant() {
    assert!(BlockId::Pending.is_pending());
    assert!(!BlockId::Latest.is_pending());
    assert!(!BlockId::Number(7).is_pending());
    assert!(!BlockId::Hash(BlockHash::new(vec![1; 32])).is_pending());
}

#[test]
fn selector_keeps_tags_and_numbers() {
    assert!(matches!(
        BlockId::Latest.to_backend_selector(),
        Ok(BackendBlockSelector::Latest)
    ));
    assert!(matches!(
        BlockId::Pending.to_backend_selector(),
        Ok(BackendBlockSelector::Pending)
    ));
    assert!(matches!(
        BlockId::Number(42).to_backend_selector(),
        Ok(BackendBlockSelector::Number(42))
    ));
}

#[test]
fn selector_canonicalizes_a_short_hash() {
    let id = BlockId::Hash(BlockHash::new(vec![5, 6]));
    match id.to_backend_selector() {
        Ok(BackendBlockSelector::Hash(h)) => assert_eq!(h, fe(&[5, 6])),
        other => panic!("expected a hash selector, got {:?}", other),
    }
}

#[test]
fn selector_rejects_an_oversized_hash() {
    let id = BlockId::Hash(BlockHash::new(vec![1; 33]));
    assert!(id.to_backend_selector().is_err());
}

#[test]
fn global_block_id_keeps_its_parts() {
    let hash = BlockHash::new(fe(&[1, 2]).into_bytes());
    let id = GlobalBlockId::new(900, hash.clone());
    assert_eq!(id.number, 900);
    assert_eq!(id.hash, hash);
}
