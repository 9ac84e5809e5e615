use vstd::prelude::*;

verus! {

/// Smallest threshold a policy may be registered with: 0.1 mm, in millionths of a millimetre.
pub const MIN_THRESHOLD_MICROS: u64 = 100_000;

/// Largest payout a policy may be registered with, in token units.
pub const MAX_PAYOUT: u64 = 200;

/// An identity handle: the wallet that receives a payout.
#[derive(Clone, Copy, Debug, PartialEq, Eq)]
pub struct Pubkey {
    pub bytes: [u8; 32],
}

/// A depth of rainfall, held exactly as a count of millionths of a millimetre.
#[derive(Clone, Copy, Debug, PartialEq, Eq)]
pub struct Millimetres {
    pub micros: u64,
}

impl Millimetres {
    pub fn from_micros(micros: u64) -> (r: Millimetres)
        ensures
            r.micros == micros,
    {
        Millimetres { micros }
    }

    pub fn zero() -> (r: Millimetres)
        ensures
            r.micros == 0,
    {
        Millimetres { micros: 0 }
    }

    /// Whether `self` is at least `other`: the inclusive comparison a trigger uses.
    pub fn at_least(&self, other: &Millimetres) -> (r: bool)
        ensures
            r == (self.micros >= other.micros),
    {
        self.micros >= other.micros
    }
}

} // verus!
