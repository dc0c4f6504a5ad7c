//! Genetic payloads and the bitwise selection rule that combines them.

use vstd::prelude::*;

verus! {

/// A kitty's immutable genetic payload: 16 bytes, fixed at creation.
#[derive(Clone, Copy, Debug, PartialEq, Eq)]
pub struct Kitty(pub [u8; 16]);

impl View for Kitty {
    type V = Seq<u8>;

    open spec fn view(&self) -> Seq<u8> {
        self.0@
    }
}

/// The derived byte: each bit comes from `dna1` where the matching selector
/// bit is 1, and from `dna2` where it is 0.
pub open spec fn spec_combine_dna(dna1: u8, dna2: u8, selector: u8) -> u8 {
    (selector & dna1) | (!selector & dna2)
}

/// Combine one byte of each parent's payload under one selector byte.
pub fn combine_dna(dna1: u8, dna2: u8, selector: u8) -> (r: u8)
    ensures
        r == spec_combine_dna(dna1, dna2, selector),
{
    (selector & dna1) | (!selector & dna2)
}

/// Bit selection: every bit of the combined byte is taken from `dna1` where
/// the matching selector bit is 1, and from `dna2` where it is 0.
pub proof fn lemma_combine_dna_bits(dna1: u8, dna2: u8, selector: u8, i: u8)
    requires
        i < 8,
    ensures
        (spec_combine_dna(dna1, dna2, selector) >> i) & 1 == if ((selector >> i) & 1) == 1 {
            (dna1 >> i) & 1
        } else {
            (dna2 >> i) & 1
        },
{
    assert((((selector & dna1) | (!selector & dna2)) >> i) & 1 == if ((selector >> i) & 1) == 1 {
        (dna1 >> i) & 1
    } else {
        (dna2 >> i) & 1
    }) by (bit_vector)
        requires
            i < 8,
    ;
}

/// A child's whole payload: byte for byte the combination of the parents'
/// payloads under the selector.
pub open spec fn spec_child_dna(dna1: Seq<u8>, dna2: Seq<u8>, selector: Seq<u8>) -> Seq<u8> {
    Seq::new(dna1.len(), |i: int| spec_combine_dna(dna1[i], dna2[i], selector[i]))
}

/// Combine two 16-byte payloads under a 16-byte selector, byte by byte.
pub fn combine_dna_bytes(dna1: &[u8; 16], dna2: &[u8; 16], selector: &[u8; 16]) -> (r: [u8; 16])
    ensures
        r@ == spec_child_dna(dna1@, dna2@, selector@),
{
    let mut out: [u8; 16] = [0u8; 16];
    let mut i: usize = 0;
    while i < 16
        invariant
            i <= 16,
            forall|j: int| 0 <= j < i ==> out@[j] == spec_combine_dna(dna1@[j], dna2@[j], selector@[j]),
        decreases 16 - i,
    {
        out[i] = combine_dna(dna1[i], dna2[i], selector[i]);
        i = i + 1;
    }
    proof {
        assert(out@ =~= spec_child_dna(dna1@, dna2@, selector@));
    }
    out
}

} // verus!
