//! The three mode strategies as one state machine over the acquisition state
//! machine: a timed job waits for the opening and then attempts, a direct job
//! attempts at once, and a scalping job polls the listing and goes through
//! its targets.

use vstd::prelude::*;
use crate::countdown::{
    begin_wait, begin_wait_spec, next_wait, next_wait_spec, seconds_to_millis, seconds_to_millis_spec,
    WaitState,
};
use crate::leak::{POLL_INTERVAL_MS, POLL_RETRY_MS};
use crate::machine::{
    grab_mode_from_code, grab_mode_from_code_spec, next_target, transition, transition_spec, Ending,
    GrabMode, Phase, Progress, RetryBudget, Signal, Transition,
};

verus! {

/// What a job is busy with.
#[derive(Clone, Copy, Debug, PartialEq, Eq, Structural)]
pub enum Stage {
    /// The countdown has been asked for.
    AwaitingCountdown,
    /// Asleep on the way to the opening; the wait goes on from here.
    Counting(WaitState),
    /// The listing has been asked for.
    Polling,
    /// Asleep between two polls.
    Resting,
    /// An attempt is under way.
    Attempting,
    /// The job is over.
    Finished,
}

/// Stage of a job and, while scalping, the target it is at among those of
/// the last listing.
#[derive(Clone, Copy, Debug, PartialEq, Eq, Structural)]
pub struct JobState {
    pub stage: Stage,
    pub cursor: usize,
    pub targets: usize,
}

/// What happened, as far as the course of the job depends on it.
#[derive(Clone, Copy, Debug, PartialEq, Eq, Structural)]
pub enum JobSignal {
    /// The countdown in seconds, or none if it could not be had.
    Countdown(Option<i64>),
    /// The sleep that was asked for is over.
    Woke,
    /// A listing arrived: whether the project can be scalped, and how many
    /// targets it has.
    Listing { supported: bool, targets: usize },
    ListingFailed,
    /// An answer for the attempt under way.
    Attempt(Signal),
}

/// How a job ended.
#[derive(Clone, Copy, Debug, PartialEq, Eq, Structural)]
pub enum JobEnding {
    /// Its attempt ended.
    Attempt(Ending),
    /// The time of the opening is unknown.
    CountdownUnavailable,
    /// The project has no real-name binding and cannot be scalped.
    LeakUnsupported,
    /// The request names a mode that does not exist.
    UnknownMode,
}

/// What the driver of a job does next.
#[derive(Clone, Copy, Debug, PartialEq, Eq, Structural)]
pub enum Directive {
    FetchCountdown,
    /// Sleep this many milliseconds, then signal `Woke`.
    Sleep(u64),
    FetchListing,
    /// After this many milliseconds, do the work of this phase of the
    /// attempt and signal the answer.
    Work { phase: Phase, delay_ms: u64 },
    /// Report the result; the job is over.
    Report(JobEnding),
    /// The job was over already.
    Stop,
    /// Nothing new: the answer that is outstanding is still awaited.
    Wait,
}

pub open spec fn job_start_spec(mode: GrabMode) -> (JobState, Directive) {
    match mode {
        GrabMode::Timed => (
            JobState { stage: Stage::AwaitingCountdown, cursor: 0, targets: 0 },
            Directive::FetchCountdown,
        ),
        GrabMode::Direct => (
            JobState { stage: Stage::Attempting, cursor: 0, targets: 0 },
            Directive::Work { phase: Phase::AcquireToken, delay_ms: 0 },
        ),
        GrabMode::Leak => (
            JobState { stage: Stage::Polling, cursor: 0, targets: 0 },
            Directive::FetchListing,
        ),
    }
}

/// How a job opens for the mode selector of a request: as the mode says,
/// or for a selector that names no mode, over at once with a report of
/// that.
pub open spec fn job_open_spec(code: u8) -> (JobState, Directive) {
    match grab_mode_from_code_spec(code) {
        Some(mode) => job_start_spec(mode),
        None => (
            JobState { stage: Stage::Finished, cursor: 0, targets: 0 },
            Directive::Report(JobEnding::UnknownMode),
        ),
    }
}

/// The mode a job runs in: the one the selector names. A job for a selector
/// that names none is over before it runs; it is filed as a direct one.
pub open spec fn mode_of_code(code: u8) -> GrabMode {
    match grab_mode_from_code_spec(code) {
        Some(mode) => mode,
        None => GrabMode::Direct,
    }
}

/// A step of the wait for the opening, or the start of the attempt if the
/// wait is over.
pub open spec fn enter_wait_spec(state: JobState, progress: Progress, wait: WaitState) -> (
    JobState,
    Progress,
    Directive,
) {
    match wait {
        WaitState::Open => (
            JobState { stage: Stage::Attempting, ..state },
            next_target(progress.token_retry),
            Directive::Work { phase: Phase::AcquireToken, delay_ms: 0 },
        ),
        WaitState::Counting(remaining) => (
            JobState { stage: Stage::Counting(next_wait_spec(remaining as int).next), ..state },
            progress,
            Directive::Sleep(next_wait_spec(remaining as int).sleep_ms),
        ),
    }
}

/// What a listing leads to: the end of the job if the project cannot be
/// scalped, a pause if nothing is on sale, an attempt on the first target
/// otherwise.
pub open spec fn on_listing_spec(state: JobState, progress: Progress, supported: bool, targets: usize) -> (
    JobState,
    Progress,
    Directive,
) {
    if !supported {
        (
            JobState { stage: Stage::Finished, ..state },
            progress,
            Directive::Report(JobEnding::LeakUnsupported),
        )
    } else if targets == 0 {
        (
            JobState { stage: Stage::Resting, cursor: 0, targets: 0 },
            progress,
            Directive::Sleep(POLL_INTERVAL_MS),
        )
    } else {
        (
            JobState { stage: Stage::Attempting, cursor: 0, targets },
            next_target(progress.token_retry),
            Directive::Work { phase: Phase::AcquireToken, delay_ms: 0 },
        )
    }
}

/// What a transition of the attempt means for the job. `progress` is where
/// the attempt stands after the transition.
pub open spec fn after_transition_spec(state: JobState, progress: Progress, outcome: Transition) -> (
    JobState,
    Directive,
) {
    match outcome {
        Transition::Continue(phase) => (state, Directive::Work { phase, delay_ms: 0 }),
        Transition::Retry(delay_ms) => (state, Directive::Work { phase: progress.phase, delay_ms }),
        Transition::Done(ending) => (
            JobState { stage: Stage::Finished, ..state },
            Directive::Report(JobEnding::Attempt(ending)),
        ),
        Transition::Halted => (JobState { stage: Stage::Finished, ..state }, Directive::Stop),
        Transition::SwitchTarget => if state.cursor + 1 < state.targets {
            (
                JobState { cursor: (state.cursor + 1) as usize, ..state },
                Directive::Work { phase: Phase::AcquireToken, delay_ms: 0 },
            )
        } else {
            (
                JobState { stage: Stage::Resting, cursor: 0, targets: 0 },
                Directive::Sleep(POLL_INTERVAL_MS),
            )
        },
    }
}

/// The course of a job: where it stands after a signal, where its attempt
/// stands, and what the driver does next. A signal that the stage does not
/// wait for changes nothing.
pub open spec fn job_step_spec(
    mode: GrabMode,
    state: JobState,
    progress: Progress,
    signal: JobSignal,
    budget: RetryBudget,
) -> (JobState, Progress, Directive) {
    match (state.stage, signal) {
        (Stage::Finished, _) => (state, progress, Directive::Stop),
        (Stage::AwaitingCountdown, JobSignal::Countdown(Some(seconds))) => enter_wait_spec(
            state,
            progress,
            begin_wait_spec(seconds_to_millis_spec(seconds as int)),
        ),
        (Stage::AwaitingCountdown, JobSignal::Countdown(None)) => (
            JobState { stage: Stage::Finished, ..state },
            progress,
            Directive::Report(JobEnding::CountdownUnavailable),
        ),
        (Stage::Counting(wait), JobSignal::Woke) => enter_wait_spec(state, progress, wait),
        (Stage::Polling, JobSignal::ListingFailed) => (
            JobState { stage: Stage::Resting, ..state },
            progress,
            Directive::Sleep(POLL_RETRY_MS),
        ),
        (Stage::Polling, JobSignal::Listing { supported, targets }) => on_listing_spec(
            state,
            progress,
            supported,
            targets,
        ),
        (Stage::Resting, JobSignal::Woke) => (
            JobState { stage: Stage::Polling, ..state },
            progress,
            Directive::FetchListing,
        ),
        (Stage::Attempting, JobSignal::Attempt(signal)) => {
            let step = transition_spec(progress, signal, budget, mode);
            let after = after_transition_spec(state, step.0, step.1);
            (after.0, step.0, after.1)
        },
        _ => (state, progress, Directive::Wait),
    }
}

/// The stages that a job of a given mode goes through.
pub open spec fn stage_fits_mode(mode: GrabMode, stage: Stage) -> bool {
    match mode {
        GrabMode::Timed => stage is AwaitingCountdown || stage is Counting || stage is Attempting
            || stage is Finished,
        GrabMode::Direct => stage is Attempting || stage is Finished,
        GrabMode::Leak => stage is Polling || stage is Resting || stage is Attempting
            || stage is Finished,
    }
}

/// Starts a job.
pub fn job_start(mode: GrabMode) -> (res: (JobState, Directive))
    ensures
        res == job_start_spec(mode),
{
    match mode {
        GrabMode::Timed => (
            JobState { stage: Stage::AwaitingCountdown, cursor: 0, targets: 0 },
            Directive::FetchCountdown,
        ),
        GrabMode::Direct => (
            JobState { stage: Stage::Attempting, cursor: 0, targets: 0 },
            Directive::Work { phase: Phase::AcquireToken, delay_ms: 0 },
        ),
        GrabMode::Leak => (
            JobState { stage: Stage::Polling, cursor: 0, targets: 0 },
            Directive::FetchListing,
        ),
    }
}

/// Opens a job for the mode selector of a request.
pub fn job_open(code: u8) -> (res: (GrabMode, JobState, Directive))
    ensures
        res.0 == mode_of_code(code),
        (res.1, res.2) == job_open_spec(code),
{
    match grab_mode_from_code(code) {
        Some(mode) => {
            let (state, directive) = job_start(mode);
            (mode, state, directive)
        },
        None => (
            GrabMode::Direct,
            JobState { stage: Stage::Finished, cursor: 0, targets: 0 },
            Directive::Report(JobEnding::UnknownMode),
        ),
    }
}

fn fresh_attempt(token_retry: u32) -> (p: Progress)
    ensures
        p == next_target(token_retry),
{
    Progress {
        phase: Phase::AcquireToken,
        token_retry,
        confirm_retry: 0,
        order_retry: 0,
        fake_retry: 0,
    }
}

fn enter_wait(state: JobState, progress: Progress, wait: WaitState) -> (res: (
    JobState,
    Progress,
    Directive,
))
    ensures
        res == enter_wait_spec(state, progress, wait),
{
    match wait {
        WaitState::Open => (
            JobState { stage: Stage::Attempting, ..state },
            fresh_attempt(progress.token_retry),
            Directive::Work { phase: Phase::AcquireToken, delay_ms: 0 },
        ),
        WaitState::Counting(_) => {
            let step = next_wait(wait);
            (
                JobState { stage: Stage::Counting(step.next), ..state },
                progress,
                Directive::Sleep(step.sleep_ms),
            )
        },
    }
}

/// Says what a listing leads to.
pub fn on_listing(state: JobState, progress: Progress, supported: bool, targets: usize) -> (res: (
    JobState,
    Progress,
    Directive,
))
    ensures
        res == on_listing_spec(state, progress, supported, targets),
{
    if !supported {
        (
            JobState { stage: Stage::Finished, ..state },
            progress,
            Directive::Report(JobEnding::LeakUnsupported),
        )
    } else if targets == 0 {
        (
            JobState { stage: Stage::Resting, cursor: 0, targets: 0 },
            progress,
            Directive::Sleep(POLL_INTERVAL_MS),
        )
    } else {
        (
            JobState { stage: Stage::Attempting, cursor: 0, targets },
            fresh_attempt(progress.token_retry),
            Directive::Work { phase: Phase::AcquireToken, delay_ms: 0 },
        )
    }
}

/// Says what a transition of the attempt means for the job.
pub fn after_transition(state: JobState, progress: Progress, outcome: Transition) -> (res: (
    JobState,
    Directive,
))
    ensures
        res == after_transition_spec(state, progress, outcome),
{
    match outcome {
        Transition::Continue(phase) => (state, Directive::Work { phase, delay_ms: 0 }),
        Transition::Retry(delay_ms) => (state, Directive::Work { phase: progress.phase, delay_ms }),
        Transition::Done(ending) => (
            JobState { stage: Stage::Finished, ..state },
            Directive::Report(JobEnding::Attempt(ending)),
        ),
        Transition::Halted => (JobState { stage: Stage::Finished, ..state }, Directive::Stop),
        Transition::SwitchTarget => {
            if state.targets > 0 && state.cursor < state.targets - 1 {
                (
                    JobState { cursor: state.cursor + 1, ..state },
                    Directive::Work { phase: Phase::AcquireToken, delay_ms: 0 },
                )
            } else {
                (
                    JobState { stage: Stage::Resting, cursor: 0, targets: 0 },
                    Directive::Sleep(POLL_INTERVAL_MS),
                )
            }
        },
    }
}

/// Takes one signal and says how the job goes on.
pub fn job_step(
    mode: GrabMode,
    state: JobState,
    progress: Progress,
    signal: JobSignal,
    budget: &RetryBudget,
) -> (res: (JobState, Progress, Directive))
    ensures
        res == job_step_spec(mode, state, progress, signal, *budget),
{
    match state.stage {
        Stage::Finished => (state, progress, Directive::Stop),
        Stage::AwaitingCountdown => match signal {
            JobSignal::Countdown(Some(seconds)) => enter_wait(
                state,
                progress,
                begin_wait(seconds_to_millis(seconds)),
            ),
            JobSignal::Countdown(None) => (
                JobState { stage: Stage::Finished, ..state },
                progress,
                Directive::Report(JobEnding::CountdownUnavailable),
            ),
            _ => (state, progress, Directive::Wait),
        },
        Stage::Counting(wait) => match signal {
            JobSignal::Woke => enter_wait(state, progress, wait),
            _ => (state, progress, Directive::Wait),
        },
        Stage::Polling => match signal {
            JobSignal::ListingFailed => (
                JobState { stage: Stage::Resting, ..state },
                progress,
                Directive::Sleep(POLL_RETRY_MS),
            ),
            JobSignal::Listing { supported, targets } => on_listing(
                state,
                progress,
                supported,
                targets,
            ),
            _ => (state, progress, Directive::Wait),
        },
        Stage::Resting => match signal {
            JobSignal::Woke => (
                JobState { stage: Stage::Polling, ..state },
                progress,
                Directive::FetchListing,
            ),
            _ => (state, progress, Directive::Wait),
        },
        Stage::Attempting => match signal {
            JobSignal::Attempt(inner) => {
                let (next, outcome) = transition(progress, inner, budget, mode);
                let (after, directive) = after_transition(state, next, outcome);
                (after, next, directive)
            },
            _ => (state, progress, Directive::Wait),
        },
    }
}

/// A job reports a result exactly when a signal takes it from a live stage
/// to the end while its attempt was live; once over, it stays over and
/// answers every signal with `Stop`.
pub proof fn job_reports_once(
    mode: GrabMode,
    state: JobState,
    progress: Progress,
    signal: JobSignal,
    budget: RetryBudget,
)
    ensures
        job_step_spec(mode, state, progress, signal, budget).2 is Report ==> (state.stage !is Finished
            && job_step_spec(mode, state, progress, signal, budget).0.stage is Finished),
        state.stage is Finished ==> job_step_spec(mode, state, progress, signal, budget) == (
            state,
            progress,
            Directive::Stop,
        ),
{
}

/// A job stays within the stages of its mode.
pub proof fn job_keeps_to_its_mode(
    mode: GrabMode,
    state: JobState,
    progress: Progress,
    signal: JobSignal,
    budget: RetryBudget,
)
    requires
        stage_fits_mode(mode, state.stage),
    ensures
        stage_fits_mode(mode, job_start_spec(mode).0.stage),
        stage_fits_mode(mode, job_step_spec(mode, state, progress, signal, budget).0.stage),
{
}

/// Polling a listing with nothing on sale changes nothing: no work on any
/// attempt is asked for, the job sleeps for the fixed interval and polls
/// again, and it stands where it stood, with its attempt untouched.
pub proof fn idle_poll_is_idempotent(mode: GrabMode, state: JobState, progress: Progress, budget: RetryBudget)
    requires
        state.stage is Polling,
        state.cursor == 0,
        state.targets == 0,
    ensures
        ({
            let listing = JobSignal::Listing { supported: true, targets: 0 };
            let rested = job_step_spec(mode, state, progress, listing, budget);
            let again = job_step_spec(mode, rested.0, rested.1, JobSignal::Woke, budget);
            &&& rested.2 == Directive::Sleep(POLL_INTERVAL_MS)
            &&& again.2 == Directive::FetchListing
            &&& again.0 == state
            &&& again.1 == progress
        }),
{
}

/// A timed job whose sale is open already goes on exactly as a direct job
/// starts.
pub proof fn open_sale_needs_no_wait(seconds: i64, progress: Progress, budget: RetryBudget)
    requires
        seconds <= 0,
        progress == next_target(0),
    ensures
        ({
            let timed = job_start_spec(GrabMode::Timed);
            let direct = job_start_spec(GrabMode::Direct);
            let opened = job_step_spec(
                GrabMode::Timed,
                timed.0,
                progress,
                JobSignal::Countdown(Some(seconds)),
                budget,
            );
            opened.0 == direct.0 && opened.1 == progress && opened.2 == direct.1
        }),
{
}

} // verus!
