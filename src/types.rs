use vstd::prelude::*;

verus! {

/// One whole unit of native currency, in its smallest subunit.
pub const ONE_TVARA: u128 = 1_000_000_000_000;

/// A 32-byte account identity, held as its two 16-byte halves.
#[derive(Clone, Copy, Debug, PartialEq, Eq, Structural)]
pub struct ActorId {
    pub hi: u128,
    pub lo: u128,
}

impl ActorId {
    pub fn new(hi: u128, lo: u128) -> (r: ActorId)
        ensures
            r.hi == hi,
            r.lo == lo,
    {
        ActorId { hi, lo }
    }
}

/// An unsigned 256-bit ledger amount, held as its two 128-bit halves.
#[derive(Clone, Copy, Debug, PartialEq, Eq, Structural)]
pub struct U256 {
    pub hi: u128,
    pub lo: u128,
}

pub open spec fn pow128() -> int {
    0x1_0000_0000_0000_0000_0000_0000_0000_0000int
}

impl U256 {
    /// The number this amount stands for.
    pub open spec fn value(self) -> int {
        self.hi * pow128() + self.lo
    }

    pub fn from_u128(v: u128) -> (r: U256)
        ensures
            r == (U256 { hi: 0, lo: v }),
            r.value() == v,
    {
        U256 { hi: 0, lo: v }
    }

    /// `self < v`, read as numbers.
    pub fn lt_u128(&self, v: u128) -> (r: bool)
        ensures
            r == (self.value() < v),
    {
        proof {
            assert(self.hi >= 1 ==> self.hi * pow128() >= pow128()) by (nonlinear_arith);
        }
        self.hi == 0 && self.lo < v
    }

    /// The low 128 bits: the amount itself where it fits in `u128`, and
    /// the amount modulo 2^128 where it does not.
    pub fn as_u128(&self) -> (r: u128)
        ensures
            r == self.value() % pow128(),
            self.value() <= u128::MAX ==> r == self.value(),
    {
        proof {
            vstd::arithmetic::div_mod::lemma_fundamental_div_mod_converse(
                self.value(), pow128(), self.hi as int, self.lo as int);
        }
        self.lo
    }
}

} // verus!
