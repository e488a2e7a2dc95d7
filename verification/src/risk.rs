//! Risk verification: what the answers of the risk endpoints mean, and
//! which solver a challenge goes to.

use vstd::prelude::*;
use vstd::string::StringExecFns;
use crate::attempt::Event;
use crate::protocol::message_or_unknown;
use crate::text::{decimal_i64, decimal_spec, joined};
use crate::ticket::TokenRiskParam;

verus! {

/// The kind of challenge that asks for clicks on characters.
pub const CLICK_CAPTCHA: usize = 33;

/// The kind of challenge that asks for a slider to be moved.
pub const SLIDE_CAPTCHA: usize = 32;

/// How often the remote solver is asked for its result.
pub const REMOTE_SOLVER_POLLS: u32 = 20;

/// Pause between two questions to the remote solver.
pub const REMOTE_SOLVER_PAUSE_MS: u64 = 1_000;

/// The answer of the risk-registration endpoint, as far as it was readable.
pub struct RegisterReply {
    pub code: Option<i64>,
    pub message: Option<String>,
    pub captcha_type: Option<String>,
    pub gt: Option<String>,
    pub challenge: Option<String>,
    pub token: Option<String>,
}

/// A challenge for the solver.
pub struct Challenge {
    pub gt: String,
    pub challenge: String,
    pub token: String,
}

/// The answer of the risk-validation endpoint, as far as it was readable.
pub struct ValidateReply {
    pub code: Option<i64>,
    pub message: Option<String>,
    pub is_valid: Option<bool>,
}

/// Where a challenge is solved.
#[derive(Clone, Copy, Debug, PartialEq, Eq, Structural)]
pub enum SolverRoute {
    /// By the click solver that runs in this process.
    LocalClick,
    /// By the recognition service.
    Remote,
}

/// What the driver of the remote solver does after an answer.
#[derive(Clone, Copy, Debug, PartialEq, Eq, Structural)]
pub enum PollStep {
    /// The solution is there.
    Solved,
    /// Ask again after this many milliseconds.
    Again(u64),
    /// Give up.
    TimedOut,
}

/// A code as the platform's JSON shows it: the number, or `null`.
pub open spec fn code_text(code: Option<i64>) -> Seq<char> {
    match code {
        Some(c) => decimal_spec(c as int),
        None => "null"@,
    }
}

pub open spec fn field_text(field: Option<String>) -> Seq<char> {
    match field {
        Some(text) => text@,
        None => Seq::empty(),
    }
}

/// Why a registration answer yields no challenge, if it yields none: a code
/// that is not zero, a kind of challenge other than `geetest`, or a
/// challenge with a part missing.
pub open spec fn register_failure(reply: RegisterReply) -> Option<Seq<char>> {
    if reply.code != Some(0i64) {
        Some(
            "风控请求失败: "@ + message_or_unknown(reply.message) + " (code: "@ + code_text(reply.code)
                + ")"@,
        )
    } else if field_text(reply.captcha_type) != "geetest"@ {
        Some("不支持的验证码类型: "@ + field_text(reply.captcha_type))
    } else if field_text(reply.gt).len() == 0 || field_text(reply.challenge).len() == 0 || field_text(
        reply.token,
    ).len() == 0 {
        Some("获取验证码参数失败"@)
    } else {
        None
    }
}

/// Why a validation answer does not pass, if it does not: a code that is
/// not zero, or a verdict that is absent or negative.
pub open spec fn validate_failure(reply: ValidateReply) -> Option<Seq<char>> {
    if reply.code != Some(0i64) {
        Some(
            "验证失败: "@ + message_or_unknown(reply.message) + " (code: "@ + code_text(reply.code)
                + ")"@,
        )
    } else if reply.is_valid != Some(true) {
        Some("验证未通过"@)
    } else {
        None
    }
}

/// Which solver a challenge goes to, or why it goes to none. Mode 0 solves
/// in this process, and only challenges that ask for clicks; mode 1 hands
/// every challenge to the recognition service.
pub open spec fn solver_route_spec(mode: usize, kind: usize, has_click: bool, has_slide: bool) -> Result<
    SolverRoute,
    Seq<char>,
> {
    if mode == 0 {
        if kind == SLIDE_CAPTCHA {
            if has_slide {
                Err("本地打码暂不支持三代滑块"@)
            } else {
                Err("本地打码需要传入slide对象"@)
            }
        } else if kind == CLICK_CAPTCHA {
            if has_click {
                Ok(SolverRoute::LocalClick)
            } else {
                Err("本地打码需要传入click对象"@)
            }
        } else {
            Err("无效的验证码类型"@)
        }
    } else if mode == 1 {
        Ok(SolverRoute::Remote)
    } else {
        Err("无效的验证码模式"@)
    }
}

/// What follows the `asked`-th answer of the remote solver.
pub open spec fn poll_step_spec(asked: u32, solved: bool) -> PollStep {
    if solved {
        PollStep::Solved
    } else if asked >= REMOTE_SOLVER_POLLS {
        PollStep::TimedOut
    } else {
        PollStep::Again(REMOTE_SOLVER_PAUSE_MS)
    }
}

fn text_of_code(code: Option<i64>) -> (text: String)
    ensures
        text@ == code_text(code),
{
    match code {
        Some(c) => decimal_i64(c),
        None => String::from_str("null"),
    }
}

fn coded_failure(head: &str, message: Option<String>, code: Option<i64>) -> (text: String)
    ensures
        text@ == head@ + message_or_unknown(message) + " (code: "@ + code_text(code) + ")"@,
{
    let shown = match message {
        Some(m) => m,
        None => String::from_str("未知错误"),
    };
    let a = joined(String::from_str(head), shown.as_str());
    let b = joined(a, " (code: ");
    let number = text_of_code(code);
    let c = joined(b, number.as_str());
    joined(c, ")")
}

fn is_zero(code: Option<i64>) -> (zero: bool)
    ensures
        zero == (code == Some(0i64)),
{
    match code {
        Some(c) => c == 0,
        None => false,
    }
}

fn or_empty(field: Option<String>) -> (text: String)
    ensures
        text@ == field_text(field),
{
    match field {
        Some(text) => text,
        None => String::new(),
    }
}

/// The challenge data of a refusal, as JSON text. A refusal without them
/// cannot be verified.
pub fn risk_payload(param: &TokenRiskParam) -> (payload: Result<String, String>)
    ensures
        match param.risk_param {
            Some(raw) => payload matches Ok(text) && text@ == raw@,
            None => payload matches Err(reason) && reason@ == "风控参数为空"@,
        },
{
    match &param.risk_param {
        Some(raw) => Ok(raw.clone()),
        None => Err(String::from_str("风控参数为空")),
    }
}

/// Reads the answer of the risk-registration endpoint: the challenge, or
/// the reason why there is none.
pub fn read_register_reply(reply: RegisterReply) -> (res: Result<Challenge, String>)
    ensures
        match register_failure(reply) {
            Some(reason) => res matches Err(text) && text@ == reason,
            None => res matches Ok(c) && c.gt@ == field_text(reply.gt) && c.challenge@ == field_text(
                reply.challenge,
            ) && c.token@ == field_text(reply.token),
        },
{
    if !is_zero(reply.code) {
        return Err(coded_failure("风控请求失败: ", reply.message, reply.code));
    }
    let kind = or_empty(reply.captcha_type);
    if !(*kind.as_str() == *"geetest") {
        return Err(joined(String::from_str("不支持的验证码类型: "), kind.as_str()));
    }
    let gt = or_empty(reply.gt);
    let challenge = or_empty(reply.challenge);
    let token = or_empty(reply.token);
    if gt.as_str().unicode_len() == 0 || challenge.as_str().unicode_len() == 0
        || token.as_str().unicode_len() == 0 {
        return Err(String::from_str("获取验证码参数失败"));
    }
    Ok(Challenge { gt, challenge, token })
}

/// Reads the answer of the risk-validation endpoint: the verification
/// passed, or it failed for the reason given.
pub fn read_validate_reply(reply: ValidateReply) -> (event: Event)
    ensures
        match validate_failure(reply) {
            Some(reason) => event matches Event::RiskFailed(text) && text@ == reason,
            None => event is RiskPassed,
        },
{
    if !is_zero(reply.code) {
        return Event::RiskFailed(coded_failure("验证失败: ", reply.message, reply.code));
    }
    match reply.is_valid {
        Some(true) => Event::RiskPassed,
        _ => Event::RiskFailed(String::from_str("验证未通过")),
    }
}

/// Picks the solver for a challenge.
pub fn solver_route(mode: usize, kind: usize, has_click: bool, has_slide: bool) -> (route: Result<
    SolverRoute,
    String,
>)
    ensures
        match solver_route_spec(mode, kind, has_click, has_slide) {
            Ok(r) => route == Ok::<SolverRoute, String>(r),
            Err(reason) => route matches Err(text) && text@ == reason,
        },
{
    if mode == 0 {
        if kind == SLIDE_CAPTCHA {
            if has_slide {
                Err(String::from_str("本地打码暂不支持三代滑块"))
            } else {
                Err(String::from_str("本地打码需要传入slide对象"))
            }
        } else if kind == CLICK_CAPTCHA {
            if has_click {
                Ok(SolverRoute::LocalClick)
            } else {
                Err(String::from_str("本地打码需要传入click对象"))
            }
        } else {
            Err(String::from_str("无效的验证码类型"))
        }
    } else if mode == 1 {
        Ok(SolverRoute::Remote)
    } else {
        Err(String::from_str("无效的验证码模式"))
    }
}

/// Says what follows the `asked`-th answer of the remote solver.
pub fn poll_step(asked: u32, solved: bool) -> (step: PollStep)
    ensures
        step == poll_step_spec(asked, solved),
{
    if solved {
        PollStep::Solved
    } else if asked >= REMOTE_SOLVER_POLLS {
        PollStep::TimedOut
    } else {
        PollStep::Again(REMOTE_SOLVER_PAUSE_MS)
    }
}

} // verus!
