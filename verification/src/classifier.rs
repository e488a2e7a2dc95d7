//! Fault classifier: maps a remote error code to what the acquisition state
//! machine does next.

use vstd::prelude::*;

verus! {

/// Pause after a momentary stock depletion, in milliseconds.
pub const STOCK_DEPLETED_DELAY_MS: u64 = 600;

/// Pause after the anti-abuse throttle answered, in milliseconds.
pub const THROTTLED_DELAY_MS: u64 = 4800;

/// What a remote failure code asks of the caller.
#[derive(Clone, Copy, Debug, PartialEq, Eq, Structural)]
pub enum Outcome {
    /// Try the same request again at once.
    RetryImmediate,
    /// Try the same request again after this many milliseconds.
    RetryAfterDelay(u64),
    /// The token is stale: go back to token acquisition.
    RefreshToken,
    /// The attempt is over and nothing went wrong on our side.
    TerminalSuccess,
    /// The attempt is over and cannot succeed.
    TerminalFailure,
    /// Give up this ticket type and move to the next one.
    SwitchTarget,
}

/// The classifier table. Every code that is not listed fails safe.
pub open spec fn classify_spec(code: int) -> Outcome {
    if code == 100001 || code == 429 || code == 900001 {
        Outcome::RetryImmediate
    } else if code == 100009 {
        Outcome::RetryAfterDelay(STOCK_DEPLETED_DELAY_MS)
    } else if code == 211 {
        Outcome::RetryImmediate
    } else if code == 3 {
        Outcome::RetryAfterDelay(THROTTLED_DELAY_MS)
    } else if code == 100041 || code == 100050 || code == 900002 {
        Outcome::RefreshToken
    } else if code == 737 {
        Outcome::RetryImmediate
    } else {
        Outcome::TerminalFailure
    }
}

/// Codes that the table names, as opposed to those that fall through to the
/// fail-safe row.
pub open spec fn is_listed_code(code: int) -> bool {
    code == 100001 || code == 429 || code == 900001 || code == 100009 || code == 211 || code == 3
        || code == 100041 || code == 100050 || code == 900002 || code == 100017 || code == 100016
        || code == 100039 || code == 1 || code == 83000004 || code == 100079 || code == 100003
        || code == 100048 || code == 209001 || code == 919 || code == 999 || code == 737
}

/// Codes whose appearance points at a defect or at an unknown remote state and
/// is worth a maintainer's attention: the internal contract violations and
/// everything the table does not name.
pub open spec fn needs_triage_spec(code: int) -> bool {
    code == 919 || code == 999 || !is_listed_code(code)
}

/// Whether a code on the token step asks for risk verification instead of
/// going through the table.
pub open spec fn is_risk_code(code: int) -> bool {
    code == 401 || code == -401
}

/// The delay that an outcome imposes before the next try, in milliseconds.
pub open spec fn outcome_delay_spec(outcome: Outcome) -> int {
    match outcome {
        Outcome::RetryAfterDelay(ms) => ms as int,
        _ => 0,
    }
}

/// Classifies a remote failure code.
pub fn classify(code: i32) -> (outcome: Outcome)
    ensures
        outcome == classify_spec(code as int),
{
    match code {
        100001 | 429 | 900001 => Outcome::RetryImmediate,
        100009 => Outcome::RetryAfterDelay(STOCK_DEPLETED_DELAY_MS),
        211 => Outcome::RetryImmediate,
        3 => Outcome::RetryAfterDelay(THROTTLED_DELAY_MS),
        100041 | 100050 | 900002 => Outcome::RefreshToken,
        100017 | 100016 | 100039 => Outcome::TerminalFailure,
        1 => Outcome::TerminalFailure,
        83000004 => Outcome::TerminalFailure,
        100079 | 100003 | 100048 => Outcome::TerminalFailure,
        209001 => Outcome::TerminalFailure,
        919 | 999 => Outcome::TerminalFailure,
        737 => Outcome::RetryImmediate,
        _ => Outcome::TerminalFailure,
    }
}

/// Says whether a code should be flagged for diagnostic logging.
pub fn needs_triage(code: i32) -> (flag: bool)
    ensures
        flag == needs_triage_spec(code as int),
{
    match code {
        919 | 999 => true,
        100001 | 429 | 900001 | 100009 | 211 | 3 | 100041 | 100050 | 900002 | 100017 | 100016
        | 100039 | 1 | 83000004 | 100079 | 100003 | 100048 | 209001 | 737 => false,
        _ => true,
    }
}

/// Says whether a token-step code routes to risk verification.
pub fn routes_to_risk_verification(code: i32) -> (risk: bool)
    ensures
        risk == is_risk_code(code as int),
{
    code == 401 || code == -401
}

/// The delay that an outcome imposes before the next try, in milliseconds.
pub fn outcome_delay(outcome: Outcome) -> (ms: u64)
    ensures
        ms == outcome_delay_spec(outcome),
{
    match outcome {
        Outcome::RetryAfterDelay(ms) => ms,
        _ => 0,
    }
}

/// The classifier only ever answers with a retry, a token refresh or a
/// terminal failure, and the only delays it hands out are the two fixed ones.
pub proof fn classify_range(code: int)
    ensures
        classify_spec(code) == Outcome::RetryImmediate
            || classify_spec(code) == Outcome::RetryAfterDelay(STOCK_DEPLETED_DELAY_MS)
            || classify_spec(code) == Outcome::RetryAfterDelay(THROTTLED_DELAY_MS)
            || classify_spec(code) == Outcome::RefreshToken
            || classify_spec(code) == Outcome::TerminalFailure,
        !is_listed_code(code) ==> classify_spec(code) == Outcome::TerminalFailure,
        outcome_delay_spec(classify_spec(code)) <= THROTTLED_DELAY_MS,
{
}

} // verus!
