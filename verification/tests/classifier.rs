use ticket_rush::classifier::{
    classify, needs_triage, outcome_delay, routes_to_risk_verification, Outcome, STOCK_DEPLETED_DELAY_MS,
    THROTTLED_DELAY_MS,
};

#[test]
fn rate_limit_codes_retry_immediately() {
    for code in [100001, 429, 900001] {
        assert_eq!(classify(code), Outcome::RetryImmediate);
    }
}

#[test]
fn stock_depletion_retries_after_600_ms() {
    assert_eq!(classify(100009), Outcome::RetryAfterDelay(600));
    assert_eq!(outcome_delay(classify(100009)), 600);
    assert_eq!(STOCK_DEPLETED_DELAY_MS, 600);
}

#[test]
fn narrow_loss_retries_immediately() {
    assert_eq!(classify(211), Outcome::RetryImmediate);
}

#[test]
fn throttle_retries_after_4800_ms() {
    assert_eq!(classify(3), Outcome::RetryAfterDelay(4800));
    assert_eq!(outcome_delay(classify(3)), 4800);
    assert_eq!(THROTTLED_DELAY_MS, 4800);
}

#[test]
fn stale_token_codes_refresh_the_token() {
    for code in [100041, 100050, 900002] {
        assert_eq!(classify(code), Outcome::RefreshToken);
    }
}

#[test]
fn withdrawn_sale_codes_are_terminal() {
    for code in [100017, 100016, 100039] {
        assert_eq!(classify(code), Outcome::TerminalFailure);
    }
}

#[test]
fn configuration_codes_are_terminal() {
    for code in [1, 83000004, 100079, 100003, 100048, 209001] {
        assert_eq!(classify(code), Outcome::TerminalFailure);
    }
}

#[test]
fn internal_codes_are_terminal_and_flagged() {
    for code in [919, 999] {
        assert_eq!(classify(code), Outcome::TerminalFailure);
        assert!(needs_triage(code));
    }
}

#[test]
fn null_payload_code_retries_immediately() {
    assert_eq!(classify(737), Outcome::RetryImmediate);
    assert!(!needs_triage(737));
}

#[test]
fn unrecognized_codes_fail_safe_and_are_flagged() {
    for code in [0, 2, -1, 42, 100080, 100082, 412, i32::MAX, i32::MIN] {
        assert_eq!(classify(code), Outcome::TerminalFailure);
        assert!(needs_triage(code));
    }
}

#[test]
fn listed_codes_are_not_flagged_unless_internal() {
    for code in [
        100001, 429, 900001, 100009, 211, 3, 100041, 100050, 900002, 100017, 100016, 100039, 1,
        83000004, 100079, 100003, 100048, 209001, 737,
    ] {
        assert!(!needs_triage(code));
    }
}

#[test]
fn classify_is_deterministic() {
    for code in -500..500 {
        assert_eq!(classify(code), classify(code));
    }
    for code in [100001, 100009, 3, 100041, 83000004] {
        let first = classify(code);
        for _ in 0..10 {
            assert_eq!(classify(code), first);
        }
    }
}

#[test]
fn classify_never_switches_target_or_succeeds() {
    for code in -2000..2000 {
        let outcome = classify(code);
        assert_ne!(outcome, Outcome::SwitchTarget);
        assert_ne!(outcome, Outcome::TerminalSuccess);
    }
}

#[test]
fn only_401_routes_to_risk_verification() {
    assert!(routes_to_risk_verification(401));
    assert!(routes_to_risk_verification(-401));
    for code in [0, 400, 402, -400, 100001, 999] {
        assert!(!routes_to_risk_verification(code));
    }
}

#[test]
fn delay_of_other_outcomes_is_zero() {
    for outcome in [
        Outcome::RetryImmediate,
        Outcome::RefreshToken,
        Outcome::TerminalSuccess,
        Outcome::TerminalFailure,
        Outcome::SwitchTarget,
    ] {
        assert_eq!(outcome_delay(outcome), 0);
    }
    assert_eq!(outcome_delay(Outcome::RetryAfterDelay(17)), 17);
}
