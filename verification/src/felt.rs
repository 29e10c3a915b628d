//! Fixed-size field element codec.
//!
//! A field element is a 252-bit chain-native number carried on the wire as a
//! fixed 32-byte big-endian buffer. A shorter input byte string is left-padded
//! with zero bytes; a longer one is rejected with [`InvalidSize`].

use vstd::prelude::*;

verus! {

/// Error: the input byte string is longer than the 32 bytes a field element holds.
#[derive(Debug, Clone, Copy, PartialEq, Eq)]
pub struct InvalidSize;

/// A field element held in its canonical form: a 32-byte big-endian buffer.
#[derive(Debug, Clone, PartialEq, Eq)]
pub struct FieldElement {
    bytes: Vec<u8>,
}

/// The canonical 32-byte form of a byte string of length at most 32:
/// the string itself, left-padded with zero bytes to 32 bytes.
pub open spec fn spec_canonical(s: Seq<u8>) -> Seq<u8>
    recommends
        s.len() <= 32,
{
    Seq::new(32, |i: int| if i < 32 - s.len() { 0u8 } else { s[i - (32 - s.len())] })
}

/// The all-zero 32-byte buffer: the sentinel standing for an absent hash.
pub open spec fn spec_zero() -> Seq<u8> {
    Seq::new(32, |i: int| 0u8)
}

impl View for FieldElement {
    type V = Seq<u8>;

    closed spec fn view(&self) -> Seq<u8> {
        self.bytes@
    }
}

impl FieldElement {
    /// Well-formedness: a field element holds exactly 32 bytes.
    pub open spec fn wf(&self) -> bool {
        self@.len() == 32
    }

    /// Bring a big-endian byte string into canonical form: rejected when it is
    /// longer than 32 bytes, left-padded with zero bytes otherwise.
    pub fn to_canonical(bytes: &[u8]) -> (r: Result<FieldElement, InvalidSize>)
        ensures
            bytes@.len() <= 32 ==> (r matches Ok(fe) && fe@ == spec_canonical(bytes@)),
            bytes@.len() > 32 ==> r is Err,
            r matches Ok(fe) ==> fe.wf(),
    {
        let n = bytes.len();
        if n > 32 {
            return Err(InvalidSize);
        }
        let mut buf: Vec<u8> = Vec::new();
        let mut i: usize = 0;
        while i < 32 - n
            invariant
                n == bytes@.len() <= 32,
                i <= 32 - n,
                buf@.len() == i,
                forall|k: int| 0 <= k < i ==> buf@[k] == 0u8,
            decreases 32 - n - i,
        {
            buf.push(0u8);
            i = i + 1;
        }
        let mut j: usize = 0;
        while j < n
            invariant
                n == bytes@.len() <= 32,
                j <= n,
                buf@.len() == 32 - n + j,
                forall|k: int| 0 <= k < 32 - n ==> buf@[k] == 0u8,
                forall|k: int| 0 <= k < j ==> buf@[32 - n + k] == bytes@[k],
            decreases n - j,
        {
            buf.push(bytes[j]);
            j = j + 1;
        }
        proof {
            assert(buf@ =~= spec_canonical(bytes@));
        }
        Ok(FieldElement { bytes: buf })
    }

    /// The zero field element: the sentinel hash of a block that has none yet.
    pub fn zero() -> (r: FieldElement)
        ensures
            r@ == spec_zero(),
            r.wf(),
    {
        let mut buf: Vec<u8> = Vec::new();
        let mut i: usize = 0;
        while i < 32
            invariant
                i <= 32,
                buf@.len() == i,
                forall|k: int| 0 <= k < i ==> buf@[k] == 0u8,
            decreases 32 - i,
        {
            buf.push(0u8);
            i = i + 1;
        }
        proof {
            assert(buf@ =~= spec_zero());
        }
        FieldElement { bytes: buf }
    }

    /// Serialize back to the canonical buffer the element was built from.
    pub fn to_bytes(&self) -> (r: Vec<u8>)
        ensures
            r@ == self@,
    {
        let mut out: Vec<u8> = Vec::new();
        let mut i: usize = 0;
        while i < self.bytes.len()
            invariant
                i <= self.bytes@.len(),
                out@.len() == i,
                forall|k: int| 0 <= k < i ==> out@[k] == self.bytes@[k],
            decreases self.bytes@.len() - i,
        {
            out.push(self.bytes[i]);
            i = i + 1;
        }
        proof {
            assert(out@ =~= self@);
        }
        out
    }

    /// Serialize by giving the canonical buffer up.
    pub fn into_bytes(self) -> (r: Vec<u8>)
        ensures
            r@ == self@,
    {
        self.bytes
    }
}

/// Law: bringing a byte string of at most 32 bytes into canonical form and
/// serializing it again yields exactly the original, left-padded with zero
/// bytes to 32 bytes; the padding is all zero and the tail is the original.
pub proof fn lemma_canonical_round_trip(s: Seq<u8>)
    requires
        s.len() <= 32,
    ensures
        spec_canonical(s).len() == 32,
        spec_canonical(s).subrange(32 - s.len(), 32) == s,
        forall|i: int| 0 <= i < 32 - s.len() ==> spec_canonical(s)[i] == 0u8,
{
    assert(spec_canonical(s).subrange(32 - s.len(), 32) =~= s);
}

} // verus!
