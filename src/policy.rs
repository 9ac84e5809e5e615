use vstd::prelude::*;
use crate::units::{Millimetres, Pubkey, MAX_PAYOUT, MIN_THRESHOLD_MICROS};

verus! {

/// The one stored policy record, with its settlement flag.
#[derive(Debug)]
pub struct InsuranceState {
    /// The wallet that receives the payout.
    pub delivery_company: Pubkey,
    /// The place whose rainfall is looked up.
    pub location: String,
    /// Rainfall at or above which the policy pays out.
    pub threshold_mm: Millimetres,
    /// Tokens released when the policy pays out.
    pub payout_amount: u64,
    /// Set once the payout has been made; never cleared.
    pub is_paid_out: bool,
    /// Credential for the rainfall data source.
    pub api_key: String,
}

impl InsuranceState {
    /// Both safety caps hold: the threshold is at least 0.1 mm and the payout at most 200.
    pub open spec fn caps_hold(&self) -> bool {
        self.threshold_mm.micros >= MIN_THRESHOLD_MICROS && self.payout_amount <= MAX_PAYOUT
    }

    /// The record before any registration: nothing stored, nothing paid.
    pub fn new() -> (r: InsuranceState)
        ensures
            forall|i: int| 0 <= i < 32 ==> r.delivery_company.bytes@[i] == 0u8,
            r.location@ == Seq::<char>::empty(),
            r.threshold_mm.micros == 0,
            r.payout_amount == 0,
            !r.is_paid_out,
            r.api_key@ == Seq::<char>::empty(),
    {
        InsuranceState {
            delivery_company: Pubkey { bytes: [0u8; 32] },
            location: String::new(),
            threshold_mm: Millimetres { micros: 0 },
            payout_amount: 0,
            is_paid_out: false,
            api_key: String::new(),
        }
    }
}

/// Emitted when a policy is registered.
#[derive(Clone, Debug, PartialEq, Eq)]
pub struct PolicyCreated {
    pub delivery_company: Pubkey,
    pub location: String,
    pub threshold_mm: Millimetres,
    pub payout: u64,
}

/// Emitted on every evaluation that obtained a reading, before the decision.
#[derive(Clone, Debug, PartialEq, Eq)]
pub struct WeatherChecked {
    pub location: String,
    pub rainfall_mm: Millimetres,
    pub threshold: Millimetres,
}

/// Emitted when the payout has been transferred.
#[derive(Clone, Copy, Debug, PartialEq, Eq)]
pub struct PolicyTriggered {
    pub delivery_company: Pubkey,
    pub rainfall_mm: Millimetres,
    pub payout: u64,
}

/// Emitted when the reading stays below the threshold.
#[derive(Clone, Copy, Debug, PartialEq, Eq)]
pub struct ConditionNotMet {
    pub rainfall_mm: Millimetres,
    pub threshold: Millimetres,
}

} // verus!
