use vstd::prelude::*;

verus! {

/// 2^128, the weight of the high half of an [`Amount`].
pub open spec fn half_base() -> nat {
    0x1_0000_0000_0000_0000_0000_0000_0000_0000nat
}

/// A non-negative 256-bit quantity in the smallest unit of the settlement
/// currency, held as two 128-bit halves.
#[derive(Clone, Copy, Debug, PartialEq, Eq, Structural)]
pub struct Amount {
    hi: u128,
    lo: u128,
}

impl Amount {
    /// The number this amount stands for.
    pub closed spec fn value(&self) -> nat {
        self.hi as nat * half_base() + self.lo as nat
    }

    /// The amount `hi * 2^128 + lo`.
    pub fn from_parts(hi: u128, lo: u128) -> (r: Amount)
        ensures
            r.value() == hi as nat * half_base() + lo as nat,
            r.high() == hi,
            r.low() == lo,
    {
        Amount { hi, lo }
    }

    /// The amount `v`.
    pub fn from_u128(v: u128) -> (r: Amount)
        ensures
            r.value() == v as nat,
            r.high() == 0,
            r.low() == v,
    {
        Amount { hi: 0, lo: v }
    }

    pub closed spec fn high(&self) -> u128 {
        self.hi
    }

    pub closed spec fn low(&self) -> u128 {
        self.lo
    }

    /// The high 128 bits.
    #[verifier::when_used_as_spec(high)]
    pub fn high_bits(&self) -> (r: u128)
        ensures
            r == self.high(),
    {
        self.hi
    }

    /// The low 128 bits.
    #[verifier::when_used_as_spec(low)]
    pub fn low_bits(&self) -> (r: u128)
        ensures
            r == self.low(),
    {
        self.lo
    }

    /// Whether this amount is strictly below `other`.
    pub fn less_than(&self, other: &Amount) -> (r: bool)
        ensures
            r == (self.value() < other.value()),
    {
        if self.hi < other.hi {
            proof {
                lemma_lower_high_half(*self, *other);
            }
            true
        } else if self.hi > other.hi {
            proof {
                lemma_lower_high_half(*other, *self);
            }
            false
        } else {
            self.lo < other.lo
        }
    }
}

/// A smaller high half makes a smaller amount, whatever the low halves.
proof fn lemma_lower_high_half(a: Amount, b: Amount)
    requires
        a.hi < b.hi,
    ensures
        a.value() < b.value(),
{
    let base = half_base();
    let (ah, al, bh, bl) = (a.hi as nat, a.lo as nat, b.hi as nat, b.lo as nat);
    assert(al < base);
    assert(ah * base + al < bh * base + bl) by (nonlinear_arith)
        requires
            ah < bh,
            al < base,
    ;
}

} // verus!
