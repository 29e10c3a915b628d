//! Block identifiers.
//!
//! A query names the block it targets with a [`BlockId`]; the provider turns
//! it into the backend's own selector shape before dispatching the call. A
//! confirmed block, once fetched, is pinned down by a [`GlobalBlockId`].

use vstd::prelude::*;

use crate::felt::{spec_canonical, FieldElement, InvalidSize};

verus! {

/// A block hash as it arrives from the outside: a raw byte string that has
/// not yet been checked against the 32-byte canonical form.
#[derive(Debug, Clone, PartialEq, Eq)]
pub struct BlockHash {
    bytes: Vec<u8>,
}

impl View for BlockHash {
    type V = Seq<u8>;

    closed spec fn view(&self) -> Seq<u8> {
        self.bytes@
    }
}

impl BlockHash {
    /// Wrap a raw byte string as received.
    pub fn new(bytes: Vec<u8>) -> (r: BlockHash)
        ensures
            r@ == bytes@,
    {
        BlockHash { bytes }
    }

    /// The raw bytes of the hash.
    pub fn as_bytes(&self) -> (r: &Vec<u8>)
        ensures
            r@ == self@,
    {
        &self.bytes
    }

    /// Bring the hash into canonical field-element form; rejected when the
    /// raw bytes are longer than 32.
    pub fn to_field_element(&self) -> (r: Result<FieldElement, InvalidSize>)
        ensures
            self@.len() <= 32 ==> (r matches Ok(fe) && fe@ == spec_canonical(self@)),
            self@.len() > 32 ==> r is Err,
    {
        FieldElement::to_canonical(self.bytes.as_slice())
    }
}

/// The (block number, block hash) pair that identifies one confirmed block.
#[derive(Debug, Clone, PartialEq, Eq)]
pub struct GlobalBlockId {
    /// The height the block was accepted at.
    pub number: u64,
    /// The hash the block was sealed with.
    pub hash: BlockHash,
}

impl GlobalBlockId {
    /// Pair a block number with the hash it was sealed with.
    pub fn new(number: u64, hash: BlockHash) -> (r: GlobalBlockId)
        ensures
            r.number == number,
            r.hash@ == hash@,
    {
        GlobalBlockId { number, hash }
    }
}

/// Which block a query targets.
#[derive(Debug, Clone, PartialEq, Eq)]
pub enum BlockId {
    /// The most recent accepted block.
    Latest,
    /// The in-progress block that has not been sealed yet.
    Pending,
    /// The block with the given hash.
    Hash(BlockHash),
    /// The block at the given height.
    Number(u64),
}

/// The backend's own shape of a block selector: tag selectors for the latest
/// and the pending block, and a canonical hash or a height otherwise.
#[derive(Debug, Clone, PartialEq, Eq)]
pub enum BackendBlockSelector {
    Latest,
    Pending,
    Hash(FieldElement),
    Number(u64),
}

impl BlockId {
    /// True exactly of a query for the pending block.
    pub fn is_pending(&self) -> (r: bool)
        ensures
            r <==> self is Pending,
    {
        match self {
            BlockId::Pending => true,
            _ => false,
        }
    }

    /// Turn the identifier into the backend's selector shape. A hash is
    /// brought into canonical form first and rejected with the codec's size
    /// error when it does not fit.
    pub fn to_backend_selector(&self) -> (r: Result<BackendBlockSelector, InvalidSize>)
        ensures
            match self {
                BlockId::Latest => r matches Ok(s) && s is Latest,
                BlockId::Pending => r matches Ok(s) && s is Pending,
                BlockId::Hash(h) => {
                    &&& h@.len() <= 32 ==> (r matches Ok(s) && s matches BackendBlockSelector::Hash(
                        fe,
                    ) && fe@ == spec_canonical(h@))
                    &&& h@.len() > 32 ==> r is Err
                },
                BlockId::Number(n) => r matches Ok(s) && (s matches BackendBlockSelector::Number(m)
                    && m == n),
            },
    {
        match self {
            BlockId::Latest => Ok(BackendBlockSelector::Latest),
            BlockId::Pending => Ok(BackendBlockSelector::Pending),
            BlockId::Hash(hash) => {
                let fe = hash.to_field_element()?;
                Ok(BackendBlockSelector::Hash(fe))
            },
            BlockId::Number(number) => Ok(BackendBlockSelector::Number(*number)),
        }
    }
}

} // verus!
