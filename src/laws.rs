use vstd::prelude::*;
use crate::engine::{
    after_registration, after_settlement, evaluation_of, query_of, registration_error,
    registration_result, settlement_result, Assessment, Decision, EvaluationError, FetchFailed,
    PayoutOrder, RegistrationError, TransferFailed, WeatherQuery,
};
use crate::policy::{ConditionNotMet, InsuranceState, PolicyCreated, PolicyTriggered};
use crate::units::{Millimetres, Pubkey};

verus! {

/// Once a payout has been settled, the policy is settled for good: every later evaluation
/// fails with `AlreadySettled` before anything is fetched or transferred, a late settlement
/// is refused, a re-registration is refused, and none of them changes the record.
pub proof fn lemma_settlement_is_final(
    s: InsuranceState,
    order: PayoutOrder,
    transfer: Result<(), TransferFailed>,
    fetched: Result<Option<Millimetres>, FetchFailed>,
    later_order: PayoutOrder,
    later_transfer: Result<(), TransferFailed>,
    signer: Pubkey,
    location: String,
    threshold_mm: Millimetres,
    payout_amount: u64,
    api_key: String,
)
    requires
        settlement_result(s, order, transfer) is Ok,
    ensures
        ({
            let settled = after_settlement(s, transfer);
            &&& settled.is_paid_out
            &&& query_of(settled) == Err::<WeatherQuery, _>(
                EvaluationError::AlreadySettled,
            )
            &&& evaluation_of(settled, fetched) == Err::<Assessment, _>(
                EvaluationError::AlreadySettled,
            )
            &&& after_settlement(settled, later_transfer) == settled
            &&& settlement_result(settled, later_order, later_transfer) == Err::<
                PolicyTriggered,
                _,
            >(EvaluationError::AlreadySettled)
            &&& after_registration(settled, signer, location, threshold_mm, payout_amount, api_key)
                == settled
            &&& registration_result(settled, signer, location, threshold_mm, payout_amount) == Err::<
                PolicyCreated,
                _,
            >(RegistrationError::AlreadySettled)
        }),
{
}

/// A payout the ledger refuses leaves the policy unchanged and still eligible: the same
/// reading is judged the same way again, and a later transfer that goes through settles it.
pub proof fn lemma_refused_transfer_can_be_retried(
    s: InsuranceState,
    order: PayoutOrder,
    fetched: Result<Option<Millimetres>, FetchFailed>,
)
    requires
        !s.is_paid_out,
    ensures
        settlement_result(s, order, Err(TransferFailed)) == Err::<PolicyTriggered, _>(
            EvaluationError::PayoutError,
        ),
        after_settlement(s, Err(TransferFailed)) == s,
        !after_settlement(s, Err(TransferFailed)).is_paid_out,
        evaluation_of(after_settlement(s, Err(TransferFailed)), fetched) == evaluation_of(s, fetched),
        settlement_result(after_settlement(s, Err(TransferFailed)), order, Ok(())) is Ok,
        after_settlement(after_settlement(s, Err(TransferFailed)), Ok(())).is_paid_out,
{
}

/// The safety caps hold of every registered policy, and no operation breaks them.
pub proof fn lemma_caps_are_kept(
    s: InsuranceState,
    signer: Pubkey,
    location: String,
    threshold_mm: Millimetres,
    payout_amount: u64,
    api_key: String,
    transfer: Result<(), TransferFailed>,
)
    ensures
        registration_error(s, threshold_mm, payout_amount) is None ==> after_registration(
            s,
            signer,
            location,
            threshold_mm,
            payout_amount,
            api_key,
        ).caps_hold(),
        s.caps_hold() ==> after_registration(
            s,
            signer,
            location,
            threshold_mm,
            payout_amount,
            api_key,
        ).caps_hold(),
        s.caps_hold() ==> after_settlement(s, transfer).caps_hold(),
{
}

/// The trigger is inclusive: a reading exactly equal to the threshold leads to a payout.
pub proof fn lemma_reading_at_threshold_pays(s: InsuranceState)
    requires
        !s.is_paid_out,
    ensures
        evaluation_of(s, Ok(Some(s.threshold_mm))) matches Ok(a) && a.decision == Decision::Pay(
            PayoutOrder {
                beneficiary: s.delivery_company,
                amount: s.payout_amount,
                rainfall_mm: s.threshold_mm,
            },
        ),
{
}

/// A reading without a rainfall measurement counts as 0 mm, so under any registered
/// threshold it does not trigger, and the events report 0 mm.
pub proof fn lemma_missing_reading_is_no_rain(s: InsuranceState)
    requires
        !s.is_paid_out,
        s.caps_hold(),
    ensures
        evaluation_of(s, Ok(None)) matches Ok(a) && a.checked.rainfall_mm.micros == 0
            && a.decision == Decision::NotMet(
            ConditionNotMet { rainfall_mm: Millimetres { micros: 0 }, threshold: s.threshold_mm },
        ),
{
}

} // verus!
