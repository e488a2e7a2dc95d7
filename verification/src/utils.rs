//! Small helpers: random strings, the default user agent, the wall clock.

use vstd::prelude::*;
use vstd::string::StringExecFns;
use rand::Rng;

verus! {

/// A point in time of the system clock. The engine only ever asks how far
/// such a point lies after the Unix epoch.
#[verifier::external_type_specification]
#[verifier::external_body]
pub struct ExSystemTime(std::time::SystemTime);

/// What `SystemTime::duration_since` answers when the other point lies
/// later.
#[verifier::external_type_specification]
#[verifier::external_body]
pub struct ExSystemTimeError(std::time::SystemTimeError);

/// `SystemTime::now`: the current reading of the system clock. Nothing is
/// claimed of it.
pub assume_specification[ std::time::SystemTime::now ]() -> (now: std::time::SystemTime)
;

/// `SystemTime::duration_since`: the time elapsed from an earlier point to
/// this one, or an error if the other point is the later one. Nothing is
/// claimed of either.
pub assume_specification[ std::time::SystemTime::duration_since ](
    later: &std::time::SystemTime,
    earlier: std::time::SystemTime,
) -> (elapsed: Result<std::time::Duration, std::time::SystemTimeError>)
;

/// `Duration::as_secs`: the whole seconds of a duration. Nothing is claimed
/// of the number.
pub assume_specification[ std::time::Duration::as_secs ](duration: &std::time::Duration) -> (seconds:
    u64)
;

/// `Duration::as_millis`: the whole milliseconds of a duration. Nothing is
/// claimed of the number.
pub assume_specification[ std::time::Duration::as_millis ](duration: &std::time::Duration) -> (millis:
    u128)
;

/// The constant `std::time::UNIX_EPOCH`.
#[verifier::external_body]
pub(crate) fn unix_epoch() -> (epoch: std::time::SystemTime) {
    std::time::UNIX_EPOCH
}

/// Whether a character is an ASCII letter or digit.
pub open spec fn is_ascii_alphanumeric(c: char) -> bool {
    ('a' <= c && c <= 'z') || ('A' <= c && c <= 'Z') || ('0' <= c && c <= '9')
}

/// A string of the given length, each character drawn by
/// `rand::distributions::Alphanumeric` from the thread-local generator. The
/// distribution yields ASCII letters and digits only; which ones is left
/// open.
#[verifier::external_body]
pub fn generate_random_string(length: usize) -> (text: String)
    ensures
        text@.len() == length,
        forall|i: int| 0 <= i < length ==> is_ascii_alphanumeric(#[trigger] text@[i]),
{
    rand::thread_rng().sample_iter(&rand::distributions::Alphanumeric).take(length).map(
        char::from,
    ).collect()
}

/// A number drawn by `Rng::gen_range` from the thread-local generator, at
/// least `low` and below `high`. The generator refuses an empty range.
#[verifier::external_body]
pub(crate) fn random_in(low: i64, high: i64) -> (drawn: i64)
    requires
        low < high,
    ensures
        low <= drawn < high,
{
    rand::thread_rng().gen_range(low..high)
}

/// What every default user agent starts with.
pub open spec fn user_agent_prefix() -> Seq<char> {
    "Mozilla/5.0 (Windows NT 10.0; Win64; x64) AppleWebKit/537.36 (KHTML, like Gecko) Chrome/134.0.0.0 Safari/537.36 Edg/134.0.0.0 "@
}

/// Length of the random tail of a default user agent.
pub const USER_AGENT_TAIL: usize = 8;

/// A user agent for a fresh session: a fixed browser signature followed by
/// eight random letters and digits.
pub fn default_user_agent() -> (agent: String)
    ensures
        agent@.len() == user_agent_prefix().len() + USER_AGENT_TAIL,
        agent@.subrange(0, user_agent_prefix().len() as int) == user_agent_prefix(),
        forall|i: int|
            user_agent_prefix().len() <= i < agent@.len() ==> is_ascii_alphanumeric(#[trigger] agent@[i]),
{
    let tail = generate_random_string(USER_AGENT_TAIL);
    let mut agent = String::from_str(
        "Mozilla/5.0 (Windows NT 10.0; Win64; x64) AppleWebKit/537.36 (KHTML, like Gecko) Chrome/134.0.0.0 Safari/537.36 Edg/134.0.0.0 ",
    );
    let ghost prefix = agent@;
    agent.append(tail.as_str());
    proof {
        assert(agent@ =~= prefix + tail@);
        assert(agent@.subrange(0, prefix.len() as int) =~= prefix);
        assert forall|i: int| prefix.len() <= i < agent@.len() implies is_ascii_alphanumeric(
            #[trigger] agent@[i],
        ) by {
            assert(agent@[i] == tail@[i - prefix.len()]);
        }
    }
    agent
}

/// Whole seconds since the Unix epoch by the system clock; zero if the clock
/// stands before the epoch.
pub fn current_timestamp() -> (seconds: u64) {
    let now = std::time::SystemTime::now();
    match now.duration_since(unix_epoch()) {
        Ok(elapsed) => elapsed.as_secs(),
        Err(_) => 0,
    }
}

/// Whole milliseconds since the Unix epoch by the system clock; zero if the
/// clock stands before the epoch, and the largest number of the type if the
/// count does not fit it.
pub fn current_millis() -> (millis: u64) {
    let now = std::time::SystemTime::now();
    match now.duration_since(unix_epoch()) {
        Ok(elapsed) => {
            let wide: u128 = elapsed.as_millis();
            if wide > u64::MAX as u128 {
                u64::MAX
            } else {
                wide as u64
            }
        },
        Err(_) => 0,
    }
}

} // verus!
