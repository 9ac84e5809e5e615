use weather_insurance::{
    check_weather_and_pay, rainfall_or_zero, settle_payout, setup_policy, weather_query, Decision,
    EvaluationError, FetchFailed, InsuranceState, Millimetres, Outcome, PayoutOrder, Pubkey,
    RegistrationError, TransferFailed,
};

fn company() -> Pubkey {
    Pubkey { bytes: [7u8; 32] }
}

fn mm(micros: u64) -> Millimetres {
    Millimetres::from_micros(micros)
}

fn registered(threshold_micros: u64, payout: u64) -> InsuranceState {
    let mut state = InsuranceState::new();
    setup_policy(
        &mut state,
        company(),
        "Nairobi".to_string(),
        mm(threshold_micros),
        payout,
        "key".to_string(),
    )
    .unwrap();
    state
}

fn order_for(state: &InsuranceState, reading: Option<Millimetres>) -> PayoutOrder {
    let assessment = check_weather_and_pay(state, Ok(reading)).unwrap();
    match assessment.decision {
        Decision::Pay(order) => order,
        Decision::NotMet(_) => panic!("condition should be met"),
    }
}

#[test]
fn new_state_is_empty_and_unpaid() {
    let state = InsuranceState::new();
    assert!(!state.is_paid_out);
    assert_eq!(state.payout_amount, 0);
    assert_eq!(state.threshold_mm, mm(0));
    assert_eq!(state.location, "");
    assert_eq!(state.api_key, "");
}

#[test]
fn threshold_just_below_floor_is_refused() {
    let mut state = InsuranceState::new();
    let r = setup_policy(&mut state, company(), "Nairobi".to_string(), mm(99_999), 50, "k".to_string());
    assert_eq!(r, Err(RegistrationError::ThresholdTooLow));
    assert_eq!(state.location, "");
    assert_eq!(state.payout_amount, 0);
}

#[test]
fn threshold_at_floor_is_accepted() {
    let mut state = InsuranceState::new();
    let r = setup_policy(&mut state, company(), "Nairobi".to_string(), mm(100_000), 50, "k".to_string());
    assert!(r.is_ok());
    assert_eq!(state.threshold_mm, mm(100_000));
}

#[test]
fn payout_above_ceiling_is_refused() {
    let mut state = InsuranceState::new();
    let r = setup_policy(&mut state, company(), "Nairobi".to_string(), mm(5_000_000), 201, "k".to_string());
    assert_eq!(r, Err(RegistrationError::PayoutTooHigh));
    assert_eq!(state.payout_amount, 0);
}

#[test]
fn payout_at_ceiling_is_accepted() {
    let mut state = InsuranceState::new();
    let r = setup_policy(&mut state, company(), "Nairobi".to_string(), mm(5_000_000), 200, "k".to_string());
    assert!(r.is_ok());
    assert_eq!(state.payout_amount, 200);
}

#[test]
fn threshold_guard_comes_before_payout_guard() {
    let mut state = InsuranceState::new();
    let r = setup_policy(&mut state, company(), "Nairobi".to_string(), mm(0), 500, "k".to_string());
    assert_eq!(r, Err(RegistrationError::ThresholdTooLow));
}

#[test]
fn registration_overwrites_unpaid_policy() {
    let mut state = registered(5_000_000, 50);
    let other = Pubkey { bytes: [9u8; 32] };
    let r = setup_policy(&mut state, other, "Lagos".to_string(), mm(2_500_000), 120, "other".to_string());
    let created = r.unwrap();
    assert_eq!(created.delivery_company, other);
    assert_eq!(created.location, "Lagos");
    assert_eq!(created.threshold_mm, mm(2_500_000));
    assert_eq!(created.payout, 120);
    assert_eq!(state.delivery_company, other);
    assert_eq!(state.location, "Lagos");
    assert_eq!(state.threshold_mm, mm(2_500_000));
    assert_eq!(state.payout_amount, 120);
    assert_eq!(state.api_key, "other");
    assert!(!state.is_paid_out);
}

#[test]
fn settled_policy_cannot_be_registered_again() {
    let mut state = registered(5_000_000, 50);
    let order = order_for(&state, Some(mm(6_000_000)));
    settle_payout(&mut state, &order, Ok(())).unwrap();
    let r = setup_policy(&mut state, company(), "Lagos".to_string(), mm(200_000), 10, "k".to_string());
    assert_eq!(r, Err(RegistrationError::AlreadySettled));
    assert_eq!(state.location, "Nairobi");
    assert_eq!(state.payout_amount, 50);
    assert!(state.is_paid_out);
}

#[test]
fn query_carries_location_and_credential() {
    let state = registered(5_000_000, 50);
    let q = weather_query(&state).unwrap();
    assert_eq!(q.location, "Nairobi");
    assert_eq!(q.api_key, "key");
}

#[test]
fn reading_equal_to_threshold_triggers() {
    let state = registered(5_000_000, 50);
    let assessment = check_weather_and_pay(&state, Ok(Some(mm(5_000_000)))).unwrap();
    assert_eq!(assessment.checked.rainfall_mm, mm(5_000_000));
    assert_eq!(
        assessment.decision,
        Decision::Pay(PayoutOrder { beneficiary: company(), amount: 50, rainfall_mm: mm(5_000_000) })
    );
    assert_eq!(assessment.decision.outcome(), Outcome::Triggered);
}

#[test]
fn reading_just_below_threshold_does_not_trigger() {
    let state = registered(5_000_000, 50);
    let assessment = check_weather_and_pay(&state, Ok(Some(mm(4_999_999)))).unwrap();
    assert_eq!(assessment.decision.outcome(), Outcome::ConditionNotMet);
}

#[test]
fn missing_rain_data_counts_as_zero() {
    let state = registered(100_000, 50);
    let assessment = check_weather_and_pay(&state, Ok(None)).unwrap();
    assert_eq!(assessment.checked.rainfall_mm, mm(0));
    assert_eq!(assessment.checked.threshold, mm(100_000));
    match assessment.decision {
        Decision::NotMet(e) => {
            assert_eq!(e.rainfall_mm, mm(0));
            assert_eq!(e.threshold, mm(100_000));
        }
        Decision::Pay(_) => panic!("no rain must not trigger"),
    }
    assert!(!state.is_paid_out);
}

#[test]
fn rainfall_or_zero_keeps_a_reading() {
    assert_eq!(rainfall_or_zero(Some(mm(7_200_000))), mm(7_200_000));
    assert_eq!(rainfall_or_zero(None), mm(0));
}

#[test]
fn at_least_is_inclusive() {
    assert!(mm(5).at_least(&mm(5)));
    assert!(mm(6).at_least(&mm(5)));
    assert!(!mm(4).at_least(&mm(5)));
    assert_eq!(Millimetres::zero(), mm(0));
}

#[test]
fn data_source_failure_is_reported() {
    let state = registered(5_000_000, 50);
    let r = check_weather_and_pay(&state, Err(FetchFailed));
    assert_eq!(r, Err(EvaluationError::DataSourceError));
    assert!(!state.is_paid_out);
}

#[test]
fn refused_transfer_can_be_retried() {
    let mut state = registered(5_000_000, 50);
    let order = order_for(&state, Some(mm(6_000_000)));
    let r = settle_payout(&mut state, &order, Err(TransferFailed));
    assert_eq!(r, Err(EvaluationError::PayoutError));
    assert!(!state.is_paid_out);
    let retry = order_for(&state, Some(mm(6_000_000)));
    assert_eq!(retry, order);
    let event = settle_payout(&mut state, &retry, Ok(())).unwrap();
    assert_eq!(event.payout, 50);
    assert!(state.is_paid_out);
}

#[test]
fn settled_policy_refuses_every_later_evaluation() {
    let mut state = registered(5_000_000, 50);
    let order = order_for(&state, Some(mm(5_000_000)));
    settle_payout(&mut state, &order, Ok(())).unwrap();
    for _ in 0..3 {
        assert_eq!(weather_query(&state), Err(EvaluationError::AlreadySettled));
        assert_eq!(
            check_weather_and_pay(&state, Ok(Some(mm(9_000_000)))),
            Err(EvaluationError::AlreadySettled)
        );
        assert_eq!(settle_payout(&mut state, &order, Ok(())), Err(EvaluationError::AlreadySettled));
        assert!(state.is_paid_out);
    }
}

#[test]
fn nairobi_policy_pays_once() {
    let mut state = InsuranceState::new();
    let created = setup_policy(
        &mut state,
        company(),
        "Nairobi".to_string(),
        mm(5_000_000),
        50,
        "key".to_string(),
    )
    .unwrap();
    assert_eq!(created.delivery_company, company());
    assert_eq!(created.location, "Nairobi");
    assert_eq!(created.threshold_mm, mm(5_000_000));
    assert_eq!(created.payout, 50);

    weather_query(&state).unwrap();
    let assessment = check_weather_and_pay(&state, Ok(Some(mm(7_200_000)))).unwrap();
    assert_eq!(assessment.checked.location, "Nairobi");
    assert_eq!(assessment.checked.rainfall_mm, mm(7_200_000));
    assert_eq!(assessment.checked.threshold, mm(5_000_000));
    let order = match assessment.decision {
        Decision::Pay(order) => order,
        Decision::NotMet(_) => panic!("7.2 mm must trigger at 5.0 mm"),
    };
    assert_eq!(order.amount, 50);
    let triggered = settle_payout(&mut state, &order, Ok(())).unwrap();
    assert_eq!(triggered.delivery_company, company());
    assert_eq!(triggered.rainfall_mm, mm(7_200_000));
    assert_eq!(triggered.payout, 50);
    assert!(state.is_paid_out);

    assert_eq!(weather_query(&state), Err(EvaluationError::AlreadySettled));
}
