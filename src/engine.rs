use vstd::prelude::*;
use crate::policy::{ConditionNotMet, InsuranceState, PolicyCreated, PolicyTriggered, WeatherChecked};
use crate::units::{Millimetres, Pubkey, MAX_PAYOUT, MIN_THRESHOLD_MICROS};

verus! {

/// Why a registration was refused.
#[derive(Clone, Copy, Debug, PartialEq, Eq)]
pub enum RegistrationError {
    /// The stored policy has already paid out and cannot be replaced.
    AlreadySettled,
    /// The threshold is below 0.1 mm.
    ThresholdTooLow,
    /// The payout is above 200 tokens.
    PayoutTooHigh,
}

/// The first guard that a registration fails, in the order they are checked.
pub open spec fn registration_error(
    s: InsuranceState,
    threshold_mm: Millimetres,
    payout_amount: u64,
) -> Option<RegistrationError> {
    if s.is_paid_out {
        Some(RegistrationError::AlreadySettled)
    } else if threshold_mm.micros < MIN_THRESHOLD_MICROS {
        Some(RegistrationError::ThresholdTooLow)
    } else if payout_amount > MAX_PAYOUT {
        Some(RegistrationError::PayoutTooHigh)
    } else {
        None
    }
}

/// The record a successful registration stores: a full overwrite, not yet paid out.
pub open spec fn registered(
    signer: Pubkey,
    location: String,
    threshold_mm: Millimetres,
    payout_amount: u64,
    api_key: String,
) -> InsuranceState {
    InsuranceState {
        delivery_company: signer,
        location,
        threshold_mm,
        payout_amount,
        is_paid_out: false,
        api_key,
    }
}

/// The stored record after a registration attempt: replaced on success, untouched on failure.
pub open spec fn after_registration(
    s: InsuranceState,
    signer: Pubkey,
    location: String,
    threshold_mm: Millimetres,
    payout_amount: u64,
    api_key: String,
) -> InsuranceState {
    if registration_error(s, threshold_mm, payout_amount) is Some {
        s
    } else {
        registered(signer, location, threshold_mm, payout_amount, api_key)
    }
}

/// What a registration attempt returns: its error, or the creation event.
pub open spec fn registration_result(
    s: InsuranceState,
    signer: Pubkey,
    location: String,
    threshold_mm: Millimetres,
    payout_amount: u64,
) -> Result<PolicyCreated, RegistrationError> {
    match registration_error(s, threshold_mm, payout_amount) {
        Some(e) => Err(e),
        None => Ok(
            PolicyCreated { delivery_company: signer, location, threshold_mm, payout: payout_amount },
        ),
    }
}

/// Registers (or replaces) the policy, with `signer` as the beneficiary.
pub fn setup_policy(
    state: &mut InsuranceState,
    signer: Pubkey,
    location: String,
    threshold_mm: Millimetres,
    payout_amount: u64,
    api_key: String,
) -> (r: Result<PolicyCreated, RegistrationError>)
    ensures
        *final(state) == after_registration(
            *old(state),
            signer,
            location,
            threshold_mm,
            payout_amount,
            api_key,
        ),
        r == registration_result(*old(state), signer, location, threshold_mm, payout_amount),
{
    if state.is_paid_out {
        return Err(RegistrationError::AlreadySettled);
    }
    if threshold_mm.micros < MIN_THRESHOLD_MICROS {
        return Err(RegistrationError::ThresholdTooLow);
    }
    if payout_amount > MAX_PAYOUT {
        return Err(RegistrationError::PayoutTooHigh);
    }
    let event_location = location.clone();
    state.delivery_company = signer;
    state.location = location;
    state.threshold_mm = threshold_mm;
    state.payout_amount = payout_amount;
    state.api_key = api_key;
    state.is_paid_out = false;
    Ok(
        PolicyCreated {
            delivery_company: signer,
            location: event_location,
            threshold_mm,
            payout: payout_amount,
        },
    )
}

/// Why an evaluation ended without settling the policy.
#[derive(Clone, Copy, Debug, PartialEq, Eq)]
pub enum EvaluationError {
    /// The policy has already paid out: nothing is fetched and nothing transferred.
    AlreadySettled,
    /// The rainfall data source could not be reached or answered with something unreadable.
    DataSourceError,
    /// The ledger refused the payout transfer; the policy stays eligible.
    PayoutError,
}

/// How an evaluation that went through ended.
#[derive(Clone, Copy, Debug, PartialEq, Eq)]
pub enum Outcome {
    Triggered,
    ConditionNotMet,
}

/// The data source failed: network, timeout or a malformed response.
#[derive(Clone, Copy, Debug, PartialEq, Eq)]
pub struct FetchFailed;

/// The ledger did not move the funds.
#[derive(Clone, Copy, Debug, PartialEq, Eq)]
pub struct TransferFailed;

/// What to ask the rainfall data source for.
#[derive(Clone, Debug, PartialEq, Eq)]
pub struct WeatherQuery {
    pub location: String,
    pub api_key: String,
}

/// A transfer the ledger is asked to make.
#[derive(Clone, Copy, Debug, PartialEq, Eq)]
pub struct PayoutOrder {
    pub beneficiary: Pubkey,
    pub amount: u64,
    pub rainfall_mm: Millimetres,
}

/// What follows a reading.
#[derive(Clone, Copy, Debug, PartialEq, Eq)]
pub enum Decision {
    /// The condition is met: transfer the payout, then settle.
    Pay(PayoutOrder),
    /// The condition is not met: nothing more happens.
    NotMet(ConditionNotMet),
}

/// A reading judged against the policy.
#[derive(Clone, Debug, PartialEq, Eq)]
pub struct Assessment {
    pub checked: WeatherChecked,
    pub decision: Decision,
}

/// The query an evaluation starts with, unless the policy has already paid out.
pub open spec fn query_of(s: InsuranceState) -> Result<WeatherQuery, EvaluationError> {
    if s.is_paid_out {
        Err(EvaluationError::AlreadySettled)
    } else {
        Ok(WeatherQuery { location: s.location, api_key: s.api_key })
    }
}

/// A missing measurement counts as no rain.
pub open spec fn reported_rainfall(reading: Option<Millimetres>) -> Millimetres {
    match reading {
        Some(mm) => mm,
        None => Millimetres { micros: 0 },
    }
}

/// The trigger condition: rainfall at or above the threshold.
pub open spec fn triggers(rainfall: Millimetres, threshold: Millimetres) -> bool {
    rainfall.micros >= threshold.micros
}

/// The judgement of a reading against the stored policy.
pub open spec fn assessment_of(s: InsuranceState, reading: Option<Millimetres>) -> Assessment {
    let rain = reported_rainfall(reading);
    Assessment {
        checked: WeatherChecked { location: s.location, rainfall_mm: rain, threshold: s.threshold_mm },
        decision: if triggers(rain, s.threshold_mm) {
            Decision::Pay(
                PayoutOrder { beneficiary: s.delivery_company, amount: s.payout_amount, rainfall_mm: rain },
            )
        } else {
            Decision::NotMet(ConditionNotMet { rainfall_mm: rain, threshold: s.threshold_mm })
        },
    }
}

/// What an evaluation decides once the data source has answered with `fetched`.
pub open spec fn evaluation_of(
    s: InsuranceState,
    fetched: Result<Option<Millimetres>, FetchFailed>,
) -> Result<Assessment, EvaluationError> {
    if s.is_paid_out {
        Err(EvaluationError::AlreadySettled)
    } else {
        match fetched {
            Err(_) => Err(EvaluationError::DataSourceError),
            Ok(reading) => Ok(assessment_of(s, reading)),
        }
    }
}

/// The stored record after the ledger answered a payout with `transfer`.
pub open spec fn after_settlement(s: InsuranceState, transfer: Result<(), TransferFailed>) -> InsuranceState {
    if !s.is_paid_out && transfer is Ok {
        InsuranceState { is_paid_out: true, ..s }
    } else {
        s
    }
}

/// What settling a payout returns, given the ledger's answer `transfer`.
pub open spec fn settlement_result(
    s: InsuranceState,
    order: PayoutOrder,
    transfer: Result<(), TransferFailed>,
) -> Result<PolicyTriggered, EvaluationError> {
    if s.is_paid_out {
        Err(EvaluationError::AlreadySettled)
    } else {
        match transfer {
            Err(_) => Err(EvaluationError::PayoutError),
            Ok(_) => Ok(
                PolicyTriggered {
                    delivery_company: s.delivery_company,
                    rainfall_mm: order.rainfall_mm,
                    payout: s.payout_amount,
                },
            ),
        }
    }
}

impl Decision {
    /// The outcome an evaluation reports once this decision is carried out.
    pub fn outcome(&self) -> (r: Outcome)
        ensures
            r == (match self {
                Decision::Pay(_) => Outcome::Triggered,
                Decision::NotMet(_) => Outcome::ConditionNotMet,
            }),
    {
        match self {
            Decision::Pay(_) => Outcome::Triggered,
            Decision::NotMet(_) => Outcome::ConditionNotMet,
        }
    }
}

/// Starts an evaluation: the query for the data source, or `AlreadySettled`.
pub fn weather_query(state: &InsuranceState) -> (r: Result<WeatherQuery, EvaluationError>)
    ensures
        r == query_of(*state),
{
    if state.is_paid_out {
        return Err(EvaluationError::AlreadySettled);
    }
    Ok(WeatherQuery { location: state.location.clone(), api_key: state.api_key.clone() })
}

/// The rainfall a reading reports, zero where it reports none.
pub fn rainfall_or_zero(reading: Option<Millimetres>) -> (r: Millimetres)
    ensures
        r == reported_rainfall(reading),
        reading is None ==> r.micros == 0,
{
    match reading {
        Some(mm) => mm,
        None => Millimetres::zero(),
    }
}

/// Judges the data source's answer against the policy: the event to emit and what follows.
/// The policy itself is not changed here.
pub fn check_weather_and_pay(
    state: &InsuranceState,
    fetched: Result<Option<Millimetres>, FetchFailed>,
) -> (r: Result<Assessment, EvaluationError>)
    ensures
        r == evaluation_of(*state, fetched),
{
    if state.is_paid_out {
        return Err(EvaluationError::AlreadySettled);
    }
    let reading = match fetched {
        Err(_) => {
            return Err(EvaluationError::DataSourceError);
        },
        Ok(reading) => reading,
    };
    let rain = rainfall_or_zero(reading);
    let checked = WeatherChecked {
        location: state.location.clone(),
        rainfall_mm: rain,
        threshold: state.threshold_mm,
    };
    let decision = if rain.at_least(&state.threshold_mm) {
        Decision::Pay(
            PayoutOrder {
                beneficiary: state.delivery_company,
                amount: state.payout_amount,
                rainfall_mm: rain,
            },
        )
    } else {
        Decision::NotMet(ConditionNotMet { rainfall_mm: rain, threshold: state.threshold_mm })
    };
    Ok(Assessment { checked, decision })
}

/// Records the ledger's answer to a payout order. The settlement flag is checked again,
/// so a policy is never paid twice; a refused transfer leaves the policy as it was.
pub fn settle_payout(
    state: &mut InsuranceState,
    order: &PayoutOrder,
    transfer: Result<(), TransferFailed>,
) -> (r: Result<PolicyTriggered, EvaluationError>)
    ensures
        *final(state) == after_settlement(*old(state), transfer),
        r == settlement_result(*old(state), *order, transfer),
{
    if state.is_paid_out {
        return Err(EvaluationError::AlreadySettled);
    }
    match transfer {
        Err(_) => Err(EvaluationError::PayoutError),
        Ok(_) => {
            state.is_paid_out = true;
            Ok(
                PolicyTriggered {
                    delivery_company: state.delivery_company,
                    rainfall_mm: order.rainfall_mm,
                    payout: state.payout_amount,
                },
            )
        },
    }
}

} // verus!
