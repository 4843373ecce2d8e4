use vstd::prelude::*;

verus! {

/// A four-bit unsigned value: one segment of a trie path.
#[allow(non_camel_case_types)]
#[derive(Clone, Copy, Debug, PartialEq, Eq, Structural, PartialOrd, Ord, Hash)]
pub struct u4 {
    v: u8,
}

impl View for u4 {
    type V = u8;

    closed spec fn view(&self) -> u8 {
        self.v
    }
}

impl u4 {
    #[verifier::type_invariant]
    spec fn below_sixteen(self) -> bool {
        self.v < 16
    }

    /// Splits a byte into its low and its high nibble.
    pub fn split_le(n: u8) -> (r: (u4, u4))
        ensures
            r.0@ == n % 16,
            r.1@ == n / 16,
    {
        (u4 { v: n % 16 }, u4 { v: n / 16 })
    }

    pub fn as_u8(self) -> (r: u8)
        ensures
            r == self@,
    {
        self.v
    }

    /// Rebuilds a byte with `self` as its low nibble and `high` as its high one.
    pub fn combine(self, high: u4) -> (r: u8)
        ensures
            r == self@ + 16 * high@,
    {
        proof {
            use_type_invariant(self);
            use_type_invariant(high);
        }
        let h: u8 = high.v;
        assert((h << 4u8) == h * 16) by (bit_vector)
            requires
                h < 16,
        ;
        self.v + (h << 4u8)
    }

    /// Splitting a byte and combining its nibbles gives the byte back.
    pub proof fn lemma_split_combine(n: u8, lo: u4, hi: u4)
        requires
            lo@ == n % 16,
            hi@ == n / 16,
        ensures
            lo@ + 16 * hi@ == n,
    {
    }
}

} // verus!
