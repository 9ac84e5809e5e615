//! A single weather-triggered insurance policy: registration with safety caps,
//! and a rainfall evaluation that releases a fixed payout at most once.
//!
//! An evaluation runs in steps around its two outside collaborators:
//! `weather_query` says what to ask the rainfall data source, `check_weather_and_pay`
//! judges its answer, and `settle_payout` records the ledger's answer to a payout order.

pub mod engine;
pub mod laws;
pub mod policy;
pub mod units;

pub use engine::{
    check_weather_and_pay, rainfall_or_zero, settle_payout, setup_policy, weather_query, Assessment,
    Decision, EvaluationError, FetchFailed, Outcome, PayoutOrder, RegistrationError, TransferFailed,
    WeatherQuery,
};
pub use policy::{ConditionNotMet, InsuranceState, PolicyCreated, PolicyTriggered, WeatherChecked};
pub use units::{Millimetres, Pubkey, MAX_PAYOUT, MIN_THRESHOLD_MICROS};
