//! Countdown synchronizer: reconciles the platform's clock with the local one,
//! computes the time left until a sale opens, and paces the wait for it.

use vstd::prelude::*;
use vstd::string::StringExecFns;
use crate::ticket::TicketInfo;
use crate::utils::unix_epoch;

verus! {

/// A sale-begin timestamp above this is taken to be in milliseconds.
pub const MILLISECOND_THRESHOLD: i64 = 10_000_000_000;

/// While more than this is left, the wait proceeds in coarse steps.
pub const COARSE_THRESHOLD_MS: i64 = 20_000;

/// Length of a coarse step.
pub const COARSE_SLEEP_MS: u64 = 15_000;

/// While more than this is left, the wait proceeds in fine steps.
pub const FINE_THRESHOLD_MS: i64 = 1_300;

/// Length of a fine step.
pub const FINE_SLEEP_MS: u64 = 1_000;

/// Length of the last, short sleep before control returns.
pub const FINAL_SLEEP_MS: u64 = 800;

/// A sale-begin timestamp in seconds, whatever its resolution was.
pub open spec fn normalize_spec(ts: int) -> int {
    if ts > MILLISECOND_THRESHOLD {
        ts / 1000
    } else {
        ts
    }
}

/// The current time in seconds: the platform's, unless its clock endpoint
/// failed or answered zero, in which case the local clock stands in.
pub open spec fn resolve_now_spec(remote_now: Option<i64>, local_now: int) -> int {
    match remote_now {
        Some(t) => if t != 0 { t as int } else { local_now },
        None => local_now,
    }
}

/// Whether the platform's clock was usable.
pub open spec fn remote_clock_usable(remote_now: Option<i64>) -> bool {
    remote_now matches Some(t) && t != 0
}

pub open spec fn clamp_i64(v: int) -> int {
    if v < i64::MIN {
        i64::MIN as int
    } else if v > i64::MAX {
        i64::MAX as int
    } else {
        v
    }
}

/// Seconds from `now` until the sale opens. The difference of two in-range
/// timestamps that does not fit the result type is capped at its ends.
pub open spec fn remaining_spec(sale_begin_ts: int, now: int) -> int {
    clamp_i64(normalize_spec(sale_begin_ts) - now)
}

/// Brings a sale-begin timestamp to seconds.
pub fn normalize_sale_begin(sale_begin_ts: i64) -> (secs: i64)
    ensures
        secs == normalize_spec(sale_begin_ts as int),
{
    if sale_begin_ts > MILLISECOND_THRESHOLD {
        sale_begin_ts / 1000
    } else {
        sale_begin_ts
    }
}

/// Picks the clock to go by.
pub fn resolve_now(remote_now: Option<i64>, local_now: i64) -> (now: i64)
    ensures
        now == resolve_now_spec(remote_now, local_now as int),
{
    match remote_now {
        Some(t) => if t != 0 { t } else { local_now },
        None => local_now,
    }
}

fn clamp_to_i64(v: i128) -> (r: i64)
    ensures
        r == clamp_i64(v as int),
{
    if v < i64::MIN as i128 {
        i64::MIN
    } else if v > i64::MAX as i128 {
        i64::MAX
    } else {
        v as i64
    }
}

/// Seconds left until the sale opens, given what the platform's clock
/// endpoint answered (`None` for any failure) and the local wall clock.
pub fn remaining_seconds(sale_begin_ts: i64, remote_now: Option<i64>, local_now: i64) -> (left: i64)
    ensures
        left == remaining_spec(sale_begin_ts as int, resolve_now_spec(remote_now, local_now as int)),
        !remote_clock_usable(remote_now) ==> left == remaining_spec(
            sale_begin_ts as int,
            local_now as int,
        ),
{
    let begin: i64 = normalize_sale_begin(sale_begin_ts);
    let now: i64 = resolve_now(remote_now, local_now);
    clamp_to_i64(begin as i128 - now as i128)
}

/// Readings of the system clock up to this many seconds after the Unix
/// epoch lie well within the dates that chrono can represent.
pub const CHRONO_SAFE_SECONDS: u64 = 8_000_000_000_000;

/// Reads the local wall clock through `chrono::Utc::now` and
/// `DateTime::timestamp`, as whole seconds since the Unix epoch. Nothing is
/// claimed of the value: two calls may differ. chrono gives up on a system
/// clock that stands before the epoch or beyond the dates it can represent;
/// `local_seconds` asks the system clock first and calls this only within
/// that range.
#[verifier::external_body]
fn local_unix_seconds() -> (now: i64) {
    chrono::Utc::now().timestamp()
}

/// The local wall clock in whole seconds since the Unix epoch: chrono's
/// reading where the system clock stands within chrono's range, the system
/// clock's own beyond it, and zero for a clock that stands before the epoch.
fn local_seconds() -> (now: i64) {
    let system = std::time::SystemTime::now();
    match system.duration_since(unix_epoch()) {
        Ok(elapsed) => {
            let seconds: u64 = elapsed.as_secs();
            if seconds <= CHRONO_SAFE_SECONDS {
                local_unix_seconds()
            } else if seconds > i64::MAX as u64 {
                i64::MAX
            } else {
                seconds as i64
            }
        },
        Err(_) => 0,
    }
}

/// What is reported when the countdown is asked for without project data.
pub open spec fn missing_project_message() -> Seq<char> {
    "获取开始时间失败，项目信息为空"@
}

/// Seconds left until the sale of a project opens. Fails exactly when there
/// is no project data. With a usable platform clock the result is fixed by
/// the arguments; otherwise it is computed against some reading of the local
/// clock.
pub fn get_countdown(info: &Option<TicketInfo>, remote_now: Option<i64>) -> (res: Result<
    i64,
    String,
>)
    ensures
        info is None <==> res is Err,
        res matches Err(e) ==> e@ == missing_project_message(),
        (info is Some && remote_clock_usable(remote_now)) ==> res == Ok::<i64, String>(
            remaining_spec(info->Some_0.sale_begin as int, remote_now->Some_0 as int) as i64,
        ),
        (info is Some && !remote_clock_usable(remote_now)) ==> exists|local: i64|
            res == Ok::<i64, String>(
                #[trigger] remaining_spec(info->Some_0.sale_begin as int, local as int) as i64,
            ),
{
    match info {
        None => Err(String::from_str("获取开始时间失败，项目信息为空")),
        Some(project) => {
            match remote_now {
                Some(t) => {
                    if t != 0 {
                        return Ok(remaining_seconds(project.sale_begin, remote_now, 0));
                    }
                },
                None => {},
            }
            let local: i64 = local_seconds();
            let left: i64 = remaining_seconds(project.sale_begin, remote_now, local);
            assert(left == remaining_spec(project.sale_begin as int, local as int) as i64);
            Ok(left)
        },
    }
}

/// Where a wait for the opening stands.
#[derive(Clone, Copy, Debug, PartialEq, Eq, Structural)]
pub enum WaitState {
    /// This many milliseconds are still to go.
    Counting(i64),
    /// The wait is over.
    Open,
}

/// One step of the wait: sleep, then go on from `next`.
#[derive(Clone, Copy, Debug, PartialEq, Eq, Structural)]
pub struct WaitStep {
    pub sleep_ms: u64,
    pub next: WaitState,
}

/// A countdown in milliseconds, capped at the ends of the type.
pub open spec fn seconds_to_millis_spec(seconds: int) -> int {
    clamp_i64(seconds * 1000)
}

/// The wait starts only if the sale has not opened yet.
pub open spec fn begin_wait_spec(remaining_ms: int) -> WaitState {
    if remaining_ms > 0 {
        WaitState::Counting(remaining_ms as i64)
    } else {
        WaitState::Open
    }
}

/// The pacing policy: coarse steps while far away, fine steps when close,
/// and one short sleep at the end.
pub open spec fn next_wait_spec(remaining_ms: int) -> WaitStep {
    if remaining_ms > COARSE_THRESHOLD_MS {
        WaitStep {
            sleep_ms: COARSE_SLEEP_MS,
            next: WaitState::Counting((remaining_ms - COARSE_SLEEP_MS) as i64),
        }
    } else if remaining_ms > FINE_THRESHOLD_MS {
        WaitStep {
            sleep_ms: FINE_SLEEP_MS,
            next: WaitState::Counting((remaining_ms - FINE_SLEEP_MS) as i64),
        }
    } else {
        WaitStep { sleep_ms: FINAL_SLEEP_MS, next: WaitState::Open }
    }
}

/// The time slept in all, from a positive countdown to the opening.
pub open spec fn total_wait_spec(remaining_ms: int) -> int
    decreases remaining_ms,
{
    if remaining_ms > COARSE_THRESHOLD_MS {
        COARSE_SLEEP_MS + total_wait_spec(remaining_ms - COARSE_SLEEP_MS)
    } else if remaining_ms > FINE_THRESHOLD_MS {
        FINE_SLEEP_MS + total_wait_spec(remaining_ms - FINE_SLEEP_MS)
    } else {
        FINAL_SLEEP_MS as int
    }
}

/// Turns a countdown in seconds into milliseconds.
pub fn seconds_to_millis(seconds: i64) -> (ms: i64)
    ensures
        ms == seconds_to_millis_spec(seconds as int),
{
    clamp_to_i64(seconds as i128 * 1000)
}

/// Starts a wait from a countdown in milliseconds.
pub fn begin_wait(remaining_ms: i64) -> (state: WaitState)
    ensures
        state == begin_wait_spec(remaining_ms as int),
{
    if remaining_ms > 0 {
        WaitState::Counting(remaining_ms)
    } else {
        WaitState::Open
    }
}

/// Decides the next sleep of a wait and where the wait stands after it. An
/// open wait asks for no sleep and stays open.
pub fn next_wait(state: WaitState) -> (step: WaitStep)
    ensures
        state matches WaitState::Counting(r) ==> step == next_wait_spec(r as int),
        state is Open ==> step == (WaitStep { sleep_ms: 0, next: WaitState::Open }),
{
    match state {
        WaitState::Open => WaitStep { sleep_ms: 0, next: WaitState::Open },
        WaitState::Counting(r) => {
            if r > COARSE_THRESHOLD_MS {
                WaitStep { sleep_ms: COARSE_SLEEP_MS, next: WaitState::Counting(r - 15_000) }
            } else if r > FINE_THRESHOLD_MS {
                WaitStep { sleep_ms: FINE_SLEEP_MS, next: WaitState::Counting(r - 1_000) }
            } else {
                WaitStep { sleep_ms: FINAL_SLEEP_MS, next: WaitState::Open }
            }
        },
    }
}

/// A timestamp in milliseconds counts as the same instant in seconds: any
/// millisecond reading of a second above the threshold normalizes to that
/// second, and so gives the same countdown.
pub proof fn millisecond_normalization(seconds: int, millis: int, now: int)
    requires
        seconds * 1000 > MILLISECOND_THRESHOLD,
        seconds <= MILLISECOND_THRESHOLD,
        0 <= millis < 1000,
    ensures
        normalize_spec(seconds * 1000 + millis) == seconds,
        normalize_spec(seconds * 1000 + millis) == normalize_spec(seconds),
        remaining_spec(seconds * 1000 + millis, now) == remaining_spec(seconds, now),
{
}

/// Following the pacing policy from a countdown above the fine threshold
/// sleeps within half a second of the countdown; from a shorter positive one
/// it sleeps the final sleep only.
pub proof fn wait_accuracy(remaining_ms: int)
    requires
        remaining_ms > 0,
    ensures
        remaining_ms > FINE_THRESHOLD_MS ==> remaining_ms - 500 <= total_wait_spec(remaining_ms)
            < remaining_ms + 500,
        remaining_ms <= FINE_THRESHOLD_MS ==> total_wait_spec(remaining_ms) == FINAL_SLEEP_MS,
    decreases remaining_ms,
{
    if remaining_ms > COARSE_THRESHOLD_MS {
        wait_accuracy(remaining_ms - COARSE_SLEEP_MS);
    } else if remaining_ms > FINE_THRESHOLD_MS {
        wait_accuracy(remaining_ms - FINE_SLEEP_MS);
    }
}

/// The total time slept is what the steps of the policy add up to: the first
/// sleep, then the total from where that step leaves the wait.
pub proof fn total_wait_unfolds(remaining_ms: int)
    requires
        0 < remaining_ms <= i64::MAX,
    ensures
        total_wait_spec(remaining_ms) == next_wait_spec(remaining_ms).sleep_ms + (match next_wait_spec(
            remaining_ms,
        ).next {
            WaitState::Counting(r) => total_wait_spec(r as int),
            WaitState::Open => 0,
        }),
        next_wait_spec(remaining_ms).next matches WaitState::Counting(r) ==> 0 < r < remaining_ms,
{
}

/// When the platform's clock cannot be had, whether its endpoint failed or
/// answered zero, the local clock decides: the countdown is the plain
/// difference between the sale begin in seconds and the local reading,
/// wherever that difference fits the result type.
pub proof fn local_clock_fallback(sale_begin_ts: i64, remote_now: Option<i64>, local_now: i64)
    requires
        !remote_clock_usable(remote_now),
        i64::MIN <= normalize_spec(sale_begin_ts as int) - local_now <= i64::MAX,
    ensures
        resolve_now_spec(remote_now, local_now as int) == local_now,
        remaining_spec(sale_begin_ts as int, resolve_now_spec(remote_now, local_now as int))
            == normalize_spec(sale_begin_ts as int) - local_now,
        sale_begin_ts <= MILLISECOND_THRESHOLD ==> remaining_spec(
            sale_begin_ts as int,
            resolve_now_spec(remote_now, local_now as int),
        ) == sale_begin_ts - local_now,
{
}

} // verus!
