//! The acquisition state machine, reduced to what decides its course: the
//! phase, the retry counters, and the kind of answer that came back. One
//! transition takes a signal and says what to do next. Tokens, order data and
//! result texts travel beside it (see `attempt`).

use vstd::prelude::*;
use crate::classifier::{classify, classify_spec, is_risk_code, outcome_delay, outcome_delay_spec, Outcome};

verus! {

/// Pause before token acquisition is tried again after risk verification.
pub const RISK_PAUSE_MS: u64 = 1_000;

/// Pause between two confirmations while scalping.
pub const LEAK_CONFIRM_PAUSE_MS: u64 = 300;

/// Pause before the order status is asked for again.
pub const FAKE_CHECK_PAUSE_MS: u64 = 500;

/// From this many failed order creations on, the next submission reports the
/// click as one on the "try again" button.
pub const RETRY_BUTTON_AFTER: u32 = 3;

/// The three ways to run a job.
#[derive(Clone, Copy, Debug, PartialEq, Eq, Structural)]
pub enum GrabMode {
    /// Wait for the sale to open, then attempt.
    Timed,
    /// Attempt at once.
    Direct,
    /// Poll the listing for inventory that came back, attempt what is on
    /// sale, and move from target to target.
    Leak,
}

pub open spec fn grab_mode_from_code_spec(code: u8) -> Option<GrabMode> {
    if code == 0 {
        Some(GrabMode::Timed)
    } else if code == 1 {
        Some(GrabMode::Direct)
    } else if code == 2 {
        Some(GrabMode::Leak)
    } else {
        None
    }
}

/// Reads the mode selector of a request. Unknown selectors give no mode.
pub fn grab_mode_from_code(code: u8) -> (mode: Option<GrabMode>)
    ensures
        mode == grab_mode_from_code_spec(code),
{
    match code {
        0 => Some(GrabMode::Timed),
        1 => Some(GrabMode::Direct),
        2 => Some(GrabMode::Leak),
        _ => None,
    }
}

/// The retry budgets of one job and the pause between order submissions.
#[derive(Clone, Copy, Debug, PartialEq, Eq, Structural)]
pub struct RetryBudget {
    pub max_token_retry: u32,
    pub max_confirm_retry: u32,
    pub max_order_retry: u32,
    pub max_fake_check_retry: u32,
    pub retry_interval_ms: u64,
}

#[derive(Clone, Copy, Debug, PartialEq, Eq, Structural)]
pub enum Phase {
    AcquireToken,
    RiskVerification,
    ConfirmOrder,
    CreateOrder,
    VerifyNotFake,
    Done,
}

/// Phase and retry counters of one attempt.
#[derive(Clone, Copy, Debug, PartialEq, Eq, Structural)]
pub struct Progress {
    pub phase: Phase,
    pub token_retry: u32,
    pub confirm_retry: u32,
    pub order_retry: u32,
    pub fake_retry: u32,
}

/// Why the order status could not be established.
#[derive(Clone, Copy, Debug, PartialEq, Eq, Structural)]
pub enum CheckFault {
    /// The request did not get through.
    Unreachable,
    /// The answer could not be read.
    Unparsable,
}

/// The kind of answer a collaborator gave.
#[derive(Clone, Copy, Debug, PartialEq, Eq, Structural)]
pub enum Signal {
    TokenGranted,
    /// The token was refused with this code.
    TokenRefused(i32),
    RiskPassed,
    RiskFailed,
    Confirmed,
    ConfirmFailed,
    OrderCreated,
    /// The order was rejected with this code.
    OrderRejected(i32),
    /// The order status is zero: the order is real.
    OrderGenuine,
    /// The order status is not zero: the order is a phantom.
    OrderFake,
    CheckFailed(CheckFault),
}

/// How an attempt ended.
#[derive(Clone, Copy, Debug, PartialEq, Eq, Structural)]
pub enum Ending {
    /// An order was placed and found genuine.
    Purchased,
    /// An order was placed; whether it is genuine could not be established
    /// within the budget, and it is presumed to stand.
    PresumedPlaced(CheckFault),
    /// The token was refused with this code, for good or once too often.
    TokenRefused(i32),
    /// Risk verification failed once too often.
    RiskUnsolved,
    /// Confirmation failed once too often.
    ConfirmExhausted,
    /// Order creation was retried once too often.
    OrderExhausted,
    /// The order was rejected for good with this code.
    OrderRefused(i32),
}

/// What the driver does after a transition.
#[derive(Clone, Copy, Debug, PartialEq, Eq, Structural)]
pub enum Transition {
    /// Carry out the work of this phase at once.
    Continue(Phase),
    /// Wait this many milliseconds, then carry out the work of the phase the
    /// attempt is in now.
    Retry(u64),
    /// Leave this ticket type and go on with the next.
    SwitchTarget,
    /// Report the result; the attempt is over.
    Done(Ending),
    /// The attempt was over already; nothing is to be done.
    Halted,
}

pub open spec fn ending_succeeds(ending: Ending) -> bool {
    ending is Purchased || ending is PresumedPlaced
}

/// A budget is spent when the failure that just happened, counted in,
/// reaches it.
pub open spec fn spent_spec(count: u32, max: u32) -> bool {
    count + 1 >= max
}

/// The sum of two pauses, capped at the end of the type.
pub open spec fn add_delay_spec(a: u64, b: u64) -> u64 {
    if a + b > u64::MAX {
        u64::MAX
    } else {
        (a + b) as u64
    }
}

pub open spec fn initial_progress() -> Progress {
    Progress {
        phase: Phase::AcquireToken,
        token_retry: 0,
        confirm_retry: 0,
        order_retry: 0,
        fake_retry: 0,
    }
}

/// The same attempt, over.
pub open spec fn finished(p: Progress) -> Progress {
    Progress { phase: Phase::Done, ..p }
}

/// A fresh attempt on the next target. Token refusals stay counted over the
/// whole job.
pub open spec fn next_target(token_retry: u32) -> Progress {
    Progress { token_retry, ..initial_progress() }
}

/// Whether an outcome lets the same request be tried again.
pub open spec fn is_retry(outcome: Outcome) -> bool {
    outcome is RetryImmediate || outcome is RetryAfterDelay
}

pub open spec fn on_token_refused(p: Progress, code: i32, budget: RetryBudget, mode: GrabMode) -> (
    Progress,
    Transition,
) {
    let outcome = classify_spec(code as int);
    let exhausted = spent_spec(p.token_retry, budget.max_token_retry);
    let counted = (p.token_retry + 1) as u32;
    if is_risk_code(code as int) {
        (Progress { phase: Phase::RiskVerification, ..p }, Transition::Continue(Phase::RiskVerification))
    } else if is_retry(outcome) || outcome is RefreshToken {
        if exhausted {
            (finished(p), Transition::Done(Ending::TokenRefused(code)))
        } else {
            (
                Progress { token_retry: counted, ..p },
                Transition::Retry(outcome_delay_spec(outcome) as u64),
            )
        }
    } else if mode is Leak && !exhausted {
        (next_target(counted), Transition::SwitchTarget)
    } else {
        (finished(p), Transition::Done(Ending::TokenRefused(code)))
    }
}

pub open spec fn on_risk_failed(p: Progress, budget: RetryBudget) -> (Progress, Transition) {
    if spent_spec(p.token_retry, budget.max_token_retry) {
        (finished(p), Transition::Done(Ending::RiskUnsolved))
    } else {
        (
            Progress { phase: Phase::AcquireToken, token_retry: (p.token_retry + 1) as u32, ..p },
            Transition::Retry(RISK_PAUSE_MS),
        )
    }
}

pub open spec fn on_confirm_failed(p: Progress, budget: RetryBudget, mode: GrabMode) -> (
    Progress,
    Transition,
) {
    if spent_spec(p.confirm_retry, budget.max_confirm_retry) {
        if mode is Leak {
            (next_target(p.token_retry), Transition::SwitchTarget)
        } else {
            (finished(p), Transition::Done(Ending::ConfirmExhausted))
        }
    } else {
        (
            Progress { confirm_retry: (p.confirm_retry + 1) as u32, ..p },
            if mode is Leak {
                Transition::Retry(LEAK_CONFIRM_PAUSE_MS)
            } else {
                Transition::Continue(Phase::ConfirmOrder)
            },
        )
    }
}

/// Another order creation with the same token and the same confirmation,
/// after `delay` milliseconds, if the budget allows one.
pub open spec fn on_order_retry(p: Progress, delay: u64, budget: RetryBudget, mode: GrabMode) -> (
    Progress,
    Transition,
) {
    if spent_spec(p.order_retry, budget.max_order_retry) {
        if mode is Leak {
            (next_target(p.token_retry), Transition::SwitchTarget)
        } else {
            (finished(p), Transition::Done(Ending::OrderExhausted))
        }
    } else {
        (
            Progress { phase: Phase::CreateOrder, order_retry: (p.order_retry + 1) as u32, ..p },
            Transition::Retry(delay),
        )
    }
}

pub open spec fn on_order_rejected(p: Progress, code: i32, budget: RetryBudget, mode: GrabMode) -> (
    Progress,
    Transition,
) {
    let outcome = classify_spec(code as int);
    if outcome is RefreshToken {
        (Progress { phase: Phase::AcquireToken, ..p }, Transition::Continue(Phase::AcquireToken))
    } else if outcome is TerminalFailure || outcome is TerminalSuccess {
        (finished(p), Transition::Done(Ending::OrderRefused(code)))
    } else {
        on_order_retry(
            p,
            add_delay_spec(outcome_delay_spec(outcome) as u64, budget.retry_interval_ms),
            budget,
            mode,
        )
    }
}

pub open spec fn on_check_failed(p: Progress, fault: CheckFault, budget: RetryBudget) -> (
    Progress,
    Transition,
) {
    if spent_spec(p.fake_retry, budget.max_fake_check_retry) {
        (finished(p), Transition::Done(Ending::PresumedPlaced(fault)))
    } else {
        (
            Progress { fake_retry: (p.fake_retry + 1) as u32, ..p },
            Transition::Retry(FAKE_CHECK_PAUSE_MS),
        )
    }
}

/// The transition table. A signal that the current phase does not wait for
/// changes nothing and asks for the work of the phase once more; after the
/// end nothing happens at all.
pub open spec fn transition_spec(p: Progress, signal: Signal, budget: RetryBudget, mode: GrabMode) -> (
    Progress,
    Transition,
) {
    match (p.phase, signal) {
        (Phase::Done, _) => (p, Transition::Halted),
        (Phase::AcquireToken, Signal::TokenGranted) => (
            Progress { phase: Phase::ConfirmOrder, confirm_retry: 0, ..p },
            Transition::Continue(Phase::ConfirmOrder),
        ),
        (Phase::AcquireToken, Signal::TokenRefused(code)) => on_token_refused(p, code, budget, mode),
        (Phase::RiskVerification, Signal::RiskPassed) => (
            Progress { phase: Phase::AcquireToken, ..p },
            Transition::Retry(RISK_PAUSE_MS),
        ),
        (Phase::RiskVerification, Signal::RiskFailed) => on_risk_failed(p, budget),
        (Phase::ConfirmOrder, Signal::Confirmed) => (
            Progress { phase: Phase::CreateOrder, order_retry: 0, ..p },
            Transition::Continue(Phase::CreateOrder),
        ),
        (Phase::ConfirmOrder, Signal::ConfirmFailed) => on_confirm_failed(p, budget, mode),
        (Phase::CreateOrder, Signal::OrderCreated) => (
            Progress { phase: Phase::VerifyNotFake, fake_retry: 0, ..p },
            Transition::Continue(Phase::VerifyNotFake),
        ),
        (Phase::CreateOrder, Signal::OrderRejected(code)) => on_order_rejected(p, code, budget, mode),
        (Phase::VerifyNotFake, Signal::OrderGenuine) => (
            finished(p),
            Transition::Done(Ending::Purchased),
        ),
        (Phase::VerifyNotFake, Signal::OrderFake) => on_order_retry(
            p,
            budget.retry_interval_ms,
            budget,
            mode,
        ),
        (Phase::VerifyNotFake, Signal::CheckFailed(fault)) => on_check_failed(p, fault, budget),
        _ => (p, Transition::Continue(p.phase)),
    }
}

/// Whether the next order submission reports its click as one on the "try
/// again" button.
pub open spec fn needs_retry_click_spec(p: Progress) -> bool {
    p.order_retry >= RETRY_BUTTON_AFTER
}

impl Progress {
    /// An attempt that has not begun.
    pub fn start() -> (p: Progress)
        ensures
            p == initial_progress(),
    {
        Progress {
            phase: Phase::AcquireToken,
            token_retry: 0,
            confirm_retry: 0,
            order_retry: 0,
            fake_retry: 0,
        }
    }

    /// Whether the attempt is over.
    pub fn is_done(&self) -> (done: bool)
        ensures
            done == (self.phase is Done),
    {
        matches!(self.phase, Phase::Done)
    }

    /// Whether the next order submission reports a click on "try again".
    pub fn needs_retry_click(&self) -> (retry: bool)
        ensures
            retry == needs_retry_click_spec(*self),
    {
        self.order_retry >= RETRY_BUTTON_AFTER
    }
}

fn spent(count: u32, max: u32) -> (s: bool)
    ensures
        s == spent_spec(count, max),
{
    max == 0 || count >= max - 1
}

/// Adds two pauses, capping the sum at the end of the type.
pub fn add_delay(a: u64, b: u64) -> (sum: u64)
    ensures
        sum == add_delay_spec(a, b),
{
    if a > u64::MAX - b {
        u64::MAX
    } else {
        a + b
    }
}

fn done_with(p: Progress, ending: Ending) -> (res: (Progress, Transition))
    ensures
        res == (finished(p), Transition::Done(ending)),
{
    (Progress { phase: Phase::Done, ..p }, Transition::Done(ending))
}

fn switch_target(token_retry: u32) -> (res: (Progress, Transition))
    ensures
        res == (next_target(token_retry), Transition::SwitchTarget),
{
    (
        Progress {
            phase: Phase::AcquireToken,
            token_retry,
            confirm_retry: 0,
            order_retry: 0,
            fake_retry: 0,
        },
        Transition::SwitchTarget,
    )
}

fn order_retry(p: Progress, delay: u64, budget: &RetryBudget, mode: GrabMode) -> (res: (
    Progress,
    Transition,
))
    ensures
        res == on_order_retry(p, delay, *budget, mode),
{
    if spent(p.order_retry, budget.max_order_retry) {
        match mode {
            GrabMode::Leak => switch_target(p.token_retry),
            _ => done_with(p, Ending::OrderExhausted),
        }
    } else {
        (
            Progress { phase: Phase::CreateOrder, order_retry: p.order_retry + 1, ..p },
            Transition::Retry(delay),
        )
    }
}

fn token_refused(p: Progress, code: i32, budget: &RetryBudget, mode: GrabMode) -> (res: (
    Progress,
    Transition,
))
    ensures
        res == on_token_refused(p, code, *budget, mode),
{
    if code == 401 || code == -401 {
        return (
            Progress { phase: Phase::RiskVerification, ..p },
            Transition::Continue(Phase::RiskVerification),
        );
    }
    let outcome = classify(code);
    let exhausted = spent(p.token_retry, budget.max_token_retry);
    match outcome {
        Outcome::RetryImmediate | Outcome::RetryAfterDelay(_) | Outcome::RefreshToken => {
            if exhausted {
                done_with(p, Ending::TokenRefused(code))
            } else {
                (
                    Progress { token_retry: p.token_retry + 1, ..p },
                    Transition::Retry(outcome_delay(outcome)),
                )
            }
        },
        _ => {
            match mode {
                GrabMode::Leak => {
                    if exhausted {
                        done_with(p, Ending::TokenRefused(code))
                    } else {
                        switch_target(p.token_retry + 1)
                    }
                },
                _ => done_with(p, Ending::TokenRefused(code)),
            }
        },
    }
}

fn risk_failed(p: Progress, budget: &RetryBudget) -> (res: (Progress, Transition))
    ensures
        res == on_risk_failed(p, *budget),
{
    if spent(p.token_retry, budget.max_token_retry) {
        done_with(p, Ending::RiskUnsolved)
    } else {
        (
            Progress { phase: Phase::AcquireToken, token_retry: p.token_retry + 1, ..p },
            Transition::Retry(RISK_PAUSE_MS),
        )
    }
}

fn confirm_failed(p: Progress, budget: &RetryBudget, mode: GrabMode) -> (res: (
    Progress,
    Transition,
))
    ensures
        res == on_confirm_failed(p, *budget, mode),
{
    if spent(p.confirm_retry, budget.max_confirm_retry) {
        match mode {
            GrabMode::Leak => switch_target(p.token_retry),
            _ => done_with(p, Ending::ConfirmExhausted),
        }
    } else {
        let counted = Progress { confirm_retry: p.confirm_retry + 1, ..p };
        match mode {
            GrabMode::Leak => (counted, Transition::Retry(LEAK_CONFIRM_PAUSE_MS)),
            _ => (counted, Transition::Continue(Phase::ConfirmOrder)),
        }
    }
}

fn order_rejected(p: Progress, code: i32, budget: &RetryBudget, mode: GrabMode) -> (res: (
    Progress,
    Transition,
))
    ensures
        res == on_order_rejected(p, code, *budget, mode),
{
    let outcome = classify(code);
    match outcome {
        Outcome::RefreshToken => (
            Progress { phase: Phase::AcquireToken, ..p },
            Transition::Continue(Phase::AcquireToken),
        ),
        Outcome::TerminalFailure | Outcome::TerminalSuccess => done_with(
            p,
            Ending::OrderRefused(code),
        ),
        _ => order_retry(
            p,
            add_delay(outcome_delay(outcome), budget.retry_interval_ms),
            budget,
            mode,
        ),
    }
}

fn check_failed(p: Progress, fault: CheckFault, budget: &RetryBudget) -> (res: (
    Progress,
    Transition,
))
    ensures
        res == on_check_failed(p, fault, *budget),
{
    if spent(p.fake_retry, budget.max_fake_check_retry) {
        done_with(p, Ending::PresumedPlaced(fault))
    } else {
        (Progress { fake_retry: p.fake_retry + 1, ..p }, Transition::Retry(FAKE_CHECK_PAUSE_MS))
    }
}

/// Takes one signal and says how the attempt goes on.
pub fn transition(p: Progress, signal: Signal, budget: &RetryBudget, mode: GrabMode) -> (res: (
    Progress,
    Transition,
))
    ensures
        res == transition_spec(p, signal, *budget, mode),
{
    match p.phase {
        Phase::Done => (p, Transition::Halted),
        Phase::AcquireToken => match signal {
            Signal::TokenGranted => (
                Progress { phase: Phase::ConfirmOrder, confirm_retry: 0, ..p },
                Transition::Continue(Phase::ConfirmOrder),
            ),
            Signal::TokenRefused(code) => token_refused(p, code, budget, mode),
            _ => (p, Transition::Continue(Phase::AcquireToken)),
        },
        Phase::RiskVerification => match signal {
            Signal::RiskPassed => (
                Progress { phase: Phase::AcquireToken, ..p },
                Transition::Retry(RISK_PAUSE_MS),
            ),
            Signal::RiskFailed => risk_failed(p, budget),
            _ => (p, Transition::Continue(Phase::RiskVerification)),
        },
        Phase::ConfirmOrder => match signal {
            Signal::Confirmed => (
                Progress { phase: Phase::CreateOrder, order_retry: 0, ..p },
                Transition::Continue(Phase::CreateOrder),
            ),
            Signal::ConfirmFailed => confirm_failed(p, budget, mode),
            _ => (p, Transition::Continue(Phase::ConfirmOrder)),
        },
        Phase::CreateOrder => match signal {
            Signal::OrderCreated => (
                Progress { phase: Phase::VerifyNotFake, fake_retry: 0, ..p },
                Transition::Continue(Phase::VerifyNotFake),
            ),
            Signal::OrderRejected(code) => order_rejected(p, code, budget, mode),
            _ => (p, Transition::Continue(Phase::CreateOrder)),
        },
        Phase::VerifyNotFake => match signal {
            Signal::OrderGenuine => done_with(p, Ending::Purchased),
            Signal::OrderFake => order_retry(p, budget.retry_interval_ms, budget, mode),
            Signal::CheckFailed(fault) => check_failed(p, fault, budget),
            _ => (p, Transition::Continue(Phase::VerifyNotFake)),
        },
    }
}

} // verus!
