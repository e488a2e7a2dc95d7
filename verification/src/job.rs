//! A ticket acquisition job: the mode strategy with everything it carries.
//! The driver feeds it what happened and carries out what it commands.

use vstd::prelude::*;
use vstd::string::StringExecFns;
use crate::attempt::{
    carries_after, is_consistent, result_of, signal_of, transition_of, Attempt, Event, Step,
};
use crate::config::retry_budget_spec;
use crate::leak::{leak_targets, leak_targets_spec, supports_leak, supports_leak_spec, Target};
use crate::machine::{grab_mode_from_code_spec, initial_progress, transition_spec, GrabMode, Phase, Transition};
use crate::modes::{
    after_transition, after_transition_spec, job_open, job_open_spec, job_start_spec, job_step,
    job_step_spec, mode_of_code, Directive, JobEnding, JobSignal, JobState, Stage,
};
use crate::taskmanager::{GrabTicketRequest, GrabTicketResult};
use crate::text::{decimal_spec, decimal_u64};
use crate::ticket::TicketInfo;
use crate::utils::{current_timestamp, random_in};

verus! {

/// What happened, with what came along.
pub enum JobEvent {
    /// The countdown in seconds, or none if it could not be had.
    Countdown(Option<i64>),
    /// The sleep that was asked for is over.
    Woke,
    /// The project's listing as it stands now.
    Listing(TicketInfo),
    /// The listing could not be had, for this reason.
    ListingFailed(String),
    /// An answer for the attempt under way.
    Attempt(Event),
}

/// What the driver does next.
pub enum Command {
    FetchCountdown,
    /// Sleep this many milliseconds, then report `Woke`.
    Sleep(u64),
    FetchListing,
    /// After this many milliseconds, do the work of this phase of the
    /// attempt and report the answer.
    Work { phase: Phase, delay_ms: u64 },
    /// Hand this result to the supervisor; the job is over.
    Report { ending: JobEnding, result: GrabTicketResult },
    /// The job was over already.
    Stop,
    /// Nothing new.
    Wait,
}

/// A job with its request data, its attempt and, while scalping, the targets
/// of the last listing.
pub struct Job {
    pub state: JobState,
    pub attempt: Attempt,
    pub project_id: String,
    pub screen_id: String,
    pub ticket_id: String,
    pub count: i16,
    pub is_hot: bool,
    pub id_bind: usize,
    pub skip_words: Option<Vec<String>>,
    pub targets: Vec<Target>,
}

/// The directive that a command stands for.
pub open spec fn directive_of(command: Command) -> Directive {
    match command {
        Command::FetchCountdown => Directive::FetchCountdown,
        Command::Sleep(ms) => Directive::Sleep(ms),
        Command::FetchListing => Directive::FetchListing,
        Command::Work { phase, delay_ms } => Directive::Work { phase, delay_ms },
        Command::Report { ending, .. } => Directive::Report(ending),
        Command::Stop => Directive::Stop,
        Command::Wait => Directive::Wait,
    }
}

/// The kind of an event, as the mode strategy sees it. Of a listing it sees
/// whether the project can be scalped and how many targets there are.
pub open spec fn job_signal_of(skip_words: Option<Vec<String>>, event: JobEvent) -> JobSignal {
    match event {
        JobEvent::Countdown(seconds) => JobSignal::Countdown(seconds),
        JobEvent::Woke => JobSignal::Woke,
        JobEvent::Listing(project) => JobSignal::Listing {
            supported: supports_leak_spec(project.id_bind),
            targets: leak_targets_spec(project, skip_words).len() as usize,
        },
        JobEvent::ListingFailed(_) => JobSignal::ListingFailed,
        JobEvent::Attempt(inner) => JobSignal::Attempt(signal_of(inner)),
    }
}

/// The message of a job that ended before any attempt.
pub open spec fn job_failure_message(ending: JobEnding) -> Seq<char> {
    match ending {
        JobEnding::CountdownUnavailable => "获取倒计时失败: 获取开始时间失败，项目信息为空"@,
        JobEnding::LeakUnsupported => "暂不支持抢非实名票捡漏模式"@,
        JobEnding::UnknownMode => "未知模式"@,
        JobEnding::Attempt(_) => Seq::empty(),
    }
}

/// A result that reports a failure with a message and nothing else.
pub open spec fn is_plain_failure(result: GrabTicketResult, task_id: Seq<char>, uid: i64, message: Seq<char>) -> bool {
    &&& result.task_id@ == task_id
    &&& result.uid == uid
    &&& !result.success
    &&& result.message@ == message
    &&& result.order_id is None
    &&& result.pay_token is None
    &&& result.confirm_result is None
    &&& result.pay_result is None
}

/// What a report says: for an attempt that ended, the result of that
/// attempt; for a job that ended before, a plain failure.
pub open spec fn report_of(
    result: GrabTicketResult,
    before: Job,
    event: JobEvent,
    ending: JobEnding,
) -> bool {
    match ending {
        JobEnding::Attempt(inner) => event matches JobEvent::Attempt(answer) && result_of(
            result,
            before.attempt,
            answer,
            inner,
        ),
        _ => is_plain_failure(
            result,
            before.attempt.task_id@,
            before.attempt.uid,
            job_failure_message(ending),
        ),
    }
}

/// How an event changes what the job carries. An answer for the attempt
/// under way changes the attempt as the attempt says. A listing that starts
/// a round of attempts replaces the targets and brings the project's
/// popularity flag and binding up to date. Nothing else changes but the
/// course of job and attempt.
pub open spec fn job_carries_after(before: Job, event: JobEvent, after: Job) -> bool {
    &&& after.project_id == before.project_id
    &&& after.screen_id == before.screen_id
    &&& after.ticket_id == before.ticket_id
    &&& after.count == before.count
    &&& after.skip_words == before.skip_words
    &&& if before.state.stage is Attempting && event is Attempt {
        carries_after(before.attempt, event->Attempt_0, after.attempt)
    } else {
        after.attempt == (Attempt { progress: after.attempt.progress, ..before.attempt })
    }
    &&& if before.state.stage is Polling && event is Listing && supports_leak_spec(
        event->Listing_0.id_bind,
    ) {
        &&& after.targets@ == leak_targets_spec(event->Listing_0, before.skip_words)
        &&& after.is_hot == event->Listing_0.hot_project
        &&& after.id_bind == event->Listing_0.id_bind
    } else {
        &&& after.targets == before.targets
        &&& after.is_hot == before.is_hot
        &&& after.id_bind == before.id_bind
    }
}

/// Whether a job is the one set up for a request: it stands where a job of
/// the request's mode opens, its attempt has not begun and carries nothing,
/// and it holds the request's data, with no targets yet.
pub open spec fn is_job_for(job: Job, request: GrabTicketRequest) -> bool {
    &&& job.attempt.mode == mode_of_code(request.grab_mode)
    &&& job.state == job_open_spec(request.grab_mode).0
    &&& job.attempt.progress == initial_progress()
    &&& job.attempt.budget == retry_budget_spec(request.config)
    &&& job.attempt.task_id == request.task_id
    &&& job.attempt.uid == request.uid
    &&& job.attempt.token@.len() == 0
    &&& job.attempt.ptoken@.len() == 0
    &&& job.attempt.confirm is None
    &&& job.attempt.risk is None
    &&& job.attempt.order_id == 0
    &&& job.attempt.pay_token@.len() == 0
    &&& is_consistent(job.attempt)
    &&& job.project_id == request.project_id
    &&& job.screen_id == request.screen_id
    &&& job.ticket_id == request.ticket_id
    &&& job.count == request.count
    &&& job.is_hot == request.is_hot
    &&& job.id_bind == request.id_bind
    &&& job.skip_words == request.skip_words
    &&& job.targets@.len() == 0
}

/// The target a scalping job is at, if it is at one.
pub open spec fn current_target_spec(job: Job) -> Option<Target> {
    if job.attempt.mode is Leak && job.state.stage is Attempting && job.state.cursor
        < job.targets@.len() {
        Some(job.targets@[job.state.cursor as int])
    } else {
        None
    }
}

fn plain_failure(task_id: &String, uid: i64, ending: JobEnding) -> (result: GrabTicketResult)
    requires
        !(ending is Attempt),
    ensures
        is_plain_failure(result, task_id@, uid, job_failure_message(ending)),
{
    let message = match ending {
        JobEnding::CountdownUnavailable => String::from_str(
            "获取倒计时失败: 获取开始时间失败，项目信息为空",
        ),
        JobEnding::UnknownMode => String::from_str("未知模式"),
        _ => String::from_str("暂不支持抢非实名票捡漏模式"),
    };
    GrabTicketResult {
        task_id: task_id.clone(),
        uid,
        success: false,
        message,
        order_id: None,
        pay_token: None,
        confirm_result: None,
        pay_result: None,
    }
}

impl JobEvent {
    /// The kind of the event, for a job with the given skip words. A listing
    /// with more targets than can be counted is not expected of any platform.
    fn plain_signal(&self) -> (signal: Option<JobSignal>)
        ensures
            match *self {
                JobEvent::Countdown(seconds) => signal == Some(JobSignal::Countdown(seconds)),
                JobEvent::Woke => signal == Some(JobSignal::Woke),
                JobEvent::ListingFailed(_) => signal == Some(JobSignal::ListingFailed),
                _ => signal is None,
            },
    {
        match self {
            JobEvent::Countdown(seconds) => Some(JobSignal::Countdown(*seconds)),
            JobEvent::Woke => Some(JobSignal::Woke),
            JobEvent::ListingFailed(_) => Some(JobSignal::ListingFailed),
            _ => None,
        }
    }
}

impl Job {
    /// Sets up the job for a request and says what the driver does first.
    /// For a request with a mode that does not exist, the job is over at
    /// once and the first command hands over its result, a failure.
    pub fn new(request: GrabTicketRequest) -> (started: (Job, Command))
        ensures
            is_job_for(started.0, request),
            directive_of(started.1) == job_open_spec(request.grab_mode).1,
            started.1 matches Command::Report { ending, result } ==> is_plain_failure(
                result,
                request.task_id@,
                request.uid,
                job_failure_message(ending),
            ),
    {
        let (mode, state, directive) = job_open(request.grab_mode);
        let budget = request.config.retry_budget();
        let job = Job {
            state,
            attempt: Attempt::new(request.task_id, request.uid, budget, mode),
            project_id: request.project_id,
            screen_id: request.screen_id,
            ticket_id: request.ticket_id,
            count: request.count,
            is_hot: request.is_hot,
            id_bind: request.id_bind,
            skip_words: request.skip_words,
            targets: Vec::new(),
        };
        let command = job.command_for(directive);
        (job, command)
    }

    /// Whether the job is over.
    pub fn is_finished(&self) -> (over: bool)
        ensures
            over == (self.state.stage is Finished),
    {
        matches!(self.state.stage, Stage::Finished)
    }

    /// The target a scalping job is at, if it is at one.
    pub fn current_target(&self) -> (target: Option<Target>)
        ensures
            target == current_target_spec(*self),
    {
        if matches!(self.attempt.mode, GrabMode::Leak) && matches!(self.state.stage, Stage::Attempting)
            && self.state.cursor < self.targets.len() {
            Some(self.targets[self.state.cursor])
        } else {
            None
        }
    }

    /// The showing and the ticket type to ask a token for: those of the
    /// target while scalping, those of the request otherwise.
    pub fn request_ids(&self) -> (ids: (String, String))
        ensures
            match current_target_spec(*self) {
                Some(target) => ids.0@ == decimal_spec(target.screen_id as int) && ids.1@
                    == decimal_spec(target.ticket_id as int),
                None => ids.0@ == self.screen_id@ && ids.1@ == self.ticket_id@,
            },
    {
        match self.current_target() {
            Some(target) => (decimal_u64(target.screen_id as u64), decimal_u64(target.ticket_id as u64)),
            None => (self.screen_id.clone(), self.ticket_id.clone()),
        }
    }

    /// Takes one event and says what the driver does next. The course follows
    /// the mode strategy; where the job ends, the command holds its one
    /// result.
    pub fn handle(&mut self, event: JobEvent) -> (command: Command)
        ensures
            (final(self).state, final(self).attempt.progress, directive_of(command)) == job_step_spec(
                old(self).attempt.mode,
                old(self).state,
                old(self).attempt.progress,
                job_signal_of(old(self).skip_words, event),
                old(self).attempt.budget,
            ),
            job_carries_after(*old(self), event, *final(self)),
            command matches Command::Report { ending, result } ==> report_of(
                result,
                *old(self),
                event,
                ending,
            ),
            is_consistent(old(self).attempt) ==> is_consistent(final(self).attempt),
    {
        match event.plain_signal() {
            Some(signal) => {
                let (state, progress, directive) = job_step(
                    self.attempt.mode,
                    self.state,
                    self.attempt.progress,
                    signal,
                    &self.attempt.budget,
                );
                self.state = state;
                self.attempt.progress = progress;
                self.command_for(directive)
            },
            None => match event {
                JobEvent::Listing(project) => {
                    if matches!(self.state.stage, Stage::Polling) {
                        let supported = supports_leak(project.id_bind);
                        let targets = leak_targets(&project, &self.skip_words);
                        let (state, progress, directive) = crate::modes::on_listing(
                            self.state,
                            self.attempt.progress,
                            supported,
                            targets.len(),
                        );
                        self.state = state;
                        self.attempt.progress = progress;
                        if supported {
                            self.targets = targets;
                            self.is_hot = project.hot_project;
                            self.id_bind = project.id_bind;
                        }
                        self.command_for(directive)
                    } else if self.is_finished() {
                        Command::Stop
                    } else {
                        Command::Wait
                    }
                },
                JobEvent::Attempt(answer) => {
                    if matches!(self.state.stage, Stage::Attempting) {
                        let step = self.attempt.advance(answer);
                        match step {
                            Step::Done { ending, result } => {
                                let (state, _) = after_transition(
                                    self.state,
                                    self.attempt.progress,
                                    Transition::Done(ending),
                                );
                                self.state = state;
                                Command::Report { ending: JobEnding::Attempt(ending), result }
                            },
                            Step::Continue(phase) => {
                                let (state, directive) = after_transition(
                                    self.state,
                                    self.attempt.progress,
                                    Transition::Continue(phase),
                                );
                                self.state = state;
                                self.command_for(directive)
                            },
                            Step::Retry(delay) => {
                                let (state, directive) = after_transition(
                                    self.state,
                                    self.attempt.progress,
                                    Transition::Retry(delay),
                                );
                                self.state = state;
                                self.command_for(directive)
                            },
                            Step::SwitchTarget => {
                                let (state, directive) = after_transition(
                                    self.state,
                                    self.attempt.progress,
                                    Transition::SwitchTarget,
                                );
                                self.state = state;
                                self.command_for(directive)
                            },
                            Step::Halted => {
                                let (state, directive) = after_transition(
                                    self.state,
                                    self.attempt.progress,
                                    Transition::Halted,
                                );
                                self.state = state;
                                self.command_for(directive)
                            },
                        }
                    } else if self.is_finished() {
                        Command::Stop
                    } else {
                        Command::Wait
                    }
                },
                _ => Command::Wait,
            },
        }
    }

    /// The command for a directive. A report here is one of a job that ended
    /// before any attempt.
    fn command_for(&self, directive: Directive) -> (command: Command)
        requires
            directive matches Directive::Report(ending) ==> !(ending is Attempt),
        ensures
            directive_of(command) == directive,
            command matches Command::Report { ending, result } ==> is_plain_failure(
                result,
                self.attempt.task_id@,
                self.attempt.uid,
                job_failure_message(ending),
            ),
    {
        match directive {
            Directive::FetchCountdown => Command::FetchCountdown,
            Directive::Sleep(ms) => Command::Sleep(ms),
            Directive::FetchListing => Command::FetchListing,
            Directive::Work { phase, delay_ms } => Command::Work { phase, delay_ms },
            Directive::Report(ending) => Command::Report {
                ending,
                result: plain_failure(&self.attempt.task_id, self.attempt.uid, ending),
            },
            Directive::Stop => Command::Stop,
            Directive::Wait => Command::Wait,
        }
    }
}

/// What a token generator is made from: the time the sale begins in seconds,
/// an offset, and a random salt.
#[derive(Clone, Copy, Debug, PartialEq, Eq, Structural)]
pub struct TokenSeed {
    pub sale_begin: i64,
    pub offset: i64,
    pub salt: i64,
}

/// The salt of a token generator is at least this.
pub const SALT_LOW: i64 = 2000;

/// The salt of a token generator stays below this.
pub const SALT_HIGH: i64 = 10000;

/// Whether a seed is one for a sale that begins at the given time: no
/// offset, and a salt within its range.
pub open spec fn is_seed_for(seed: TokenSeed, sale_begin: i64) -> bool {
    seed.sale_begin == sale_begin && seed.offset == 0 && SALT_LOW <= seed.salt < SALT_HIGH
}

/// Draws the seed of a token generator for a sale that begins at the given
/// time.
pub fn token_seed(sale_begin: i64) -> (seed: TokenSeed)
    ensures
        is_seed_for(seed, sale_begin),
{
    TokenSeed { sale_begin, offset: 0, salt: random_in(SALT_LOW, SALT_HIGH) }
}

/// Draws the seed of a fresh token generator for a target: the showing's
/// own sale start stands for the time the sale begins.
pub fn target_seed(target: Target) -> (seed: TokenSeed)
    ensures
        seed.offset == 0,
        SALT_LOW <= seed.salt < SALT_HIGH,
        target.sale_start <= i64::MAX ==> seed.sale_begin == target.sale_start,
        target.sale_start > i64::MAX ==> seed.sale_begin == i64::MAX,
{
    let wide: u64 = target.sale_start as u64;
    let sale_begin: i64 = if wide > i64::MAX as u64 {
        i64::MAX
    } else {
        wide as i64
    };
    token_seed(sale_begin)
}

/// A job that was set up, what its driver does first, and the seed of its
/// token generator.
pub struct GrabStart {
    pub job: Job,
    pub command: Command,
    pub seed: TokenSeed,
}

/// Where the sale begins for the seed of a job's token generator: at the
/// project's sale begin where the request brings project data; for a
/// request without them at the current time, or at zero if its mode does
/// not exist, so that such a request reads no clock.
pub open spec fn is_seed_begin(request: GrabTicketRequest, sale_begin: i64) -> bool {
    match request.project_info {
        Some(project) => sale_begin == project.sale_begin,
        None => grab_mode_from_code_spec(request.grab_mode) is None ==> sale_begin == 0,
    }
}

/// Sets up the job for a request: the mode strategy by the request's mode,
/// and a token generator seeded with the project's sale begin, or with the
/// current time where the request brings no project data. For a request with
/// a mode that does not exist, the job is over at once: its first command
/// hands over its one result, a failure, and nothing else is to be done.
pub fn handle_grab_ticket_request(request: GrabTicketRequest) -> (start: GrabStart)
    ensures
        is_job_for(start.job, request),
        directive_of(start.command) == job_open_spec(request.grab_mode).1,
        start.command matches Command::Report { ending, result } ==> is_plain_failure(
            result,
            request.task_id@,
            request.uid,
            job_failure_message(ending),
        ),
        request.grab_mode > 2 ==> {
            &&& start.job.state.stage is Finished
            &&& start.command matches Command::Report { ending, result }
            &&& ending == JobEnding::UnknownMode
            &&& is_plain_failure(result, request.task_id@, request.uid, "未知模式"@)
        },
        start.seed.offset == 0,
        SALT_LOW <= start.seed.salt < SALT_HIGH,
        is_seed_begin(request, start.seed.sale_begin),
{
    let known = request.grab_mode <= 2;
    let sale_begin: i64 = match &request.project_info {
        Some(project) => project.sale_begin,
        None => {
            if known {
                let now: u64 = current_timestamp();
                if now > i64::MAX as u64 {
                    i64::MAX
                } else {
                    now as i64
                }
            } else {
                0
            }
        },
    };
    let (job, command) = Job::new(request);
    GrabStart { job, command, seed: token_seed(sale_begin) }
}

} // verus!
