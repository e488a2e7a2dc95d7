//! One acquisition attempt with everything it carries: the token, the
//! confirmed order parameters, the order, and the result it reports when it
//! ends. The course of the attempt is decided by `machine::transition`.

use vstd::prelude::*;
use vstd::string::StringExecFns;
use crate::classifier::is_risk_code;
use crate::machine::{
    ending_succeeds, initial_progress, spent_spec, transition, transition_spec, CheckFault, Ending, GrabMode, Phase,
    Progress, RetryBudget, Signal, Transition,
};
use crate::taskmanager::GrabTicketResult;
use crate::text::{decimal_i64, decimal_spec, joined};
use crate::ticket::{CheckFakeResultData, ConfirmTicketResult, TokenRiskParam};

verus! {

/// What a collaborator answered, with what it handed over.
pub enum Event {
    TokenGranted { token: String, ptoken: String },
    TokenRefused(TokenRiskParam),
    RiskPassed,
    /// Risk verification failed, for this reason.
    RiskFailed(String),
    Confirmed(ConfirmTicketResult),
    /// Confirmation failed, for this reason.
    ConfirmFailed(String),
    OrderCreated { order_id: i64, pay_token: String },
    /// The order was rejected with this code.
    OrderRejected(i32),
    /// The order status is zero; here is what is needed to pay.
    OrderGenuine(CheckFakeResultData),
    /// The order status is this, which is not zero.
    OrderFake(i64),
    /// The order status could not be established, for this reason.
    CheckFailed { fault: CheckFault, reason: String },
}

/// The kind of an event, which is all that the transition table looks at.
pub open spec fn signal_of(event: Event) -> Signal {
    match event {
        Event::TokenGranted { .. } => Signal::TokenGranted,
        Event::TokenRefused(param) => Signal::TokenRefused(param.code),
        Event::RiskPassed => Signal::RiskPassed,
        Event::RiskFailed(_) => Signal::RiskFailed,
        Event::Confirmed(_) => Signal::Confirmed,
        Event::ConfirmFailed(_) => Signal::ConfirmFailed,
        Event::OrderCreated { .. } => Signal::OrderCreated,
        Event::OrderRejected(code) => Signal::OrderRejected(code),
        Event::OrderGenuine(_) => Signal::OrderGenuine,
        Event::OrderFake(_) => Signal::OrderFake,
        Event::CheckFailed { fault, .. } => Signal::CheckFailed(fault),
    }
}

/// The text that came with an event: the platform's message of a refused
/// token, or the reason of a failure.
pub open spec fn event_text(event: Event) -> Seq<char> {
    match event {
        Event::TokenRefused(param) => param.message@,
        Event::RiskFailed(reason) => reason@,
        Event::ConfirmFailed(reason) => reason@,
        Event::CheckFailed { reason, .. } => reason@,
        _ => Seq::empty(),
    }
}

/// The message for an order that the platform rejected for good.
pub open spec fn order_refusal_message(code: int) -> Seq<char> {
    if code == 100017 || code == 100016 {
        "当前项目/类型/场次已停售"@
    } else if code == 1 {
        "超人 请慢一点，这是仅限1人抢票的项目，或抢票格式有误，请重新提交任务"@
    } else if code == 83000004 {
        "没有配置购票人信息！请重新配置"@
    } else if code == 100079 || code == 100003 || code == 100048 {
        "购票人存在待付款订单，请前往支付或取消后重新下单"@
    } else if code == 100039 {
        "活动收摊啦,下次要快点哦"@
    } else if code == 209001 {
        "当前项目只能选择一个购票人！不支持多选，请重新提交任务"@
    } else if code == 919 {
        "程序内部错误！该项目区分绑定非绑定项目错误，传入意外值，请尝试重新下单以及提出issue"@
    } else if code == 999 {
        "程序内部错误！传参错误"@
    } else {
        "下单失败，未知错误码："@ + decimal_spec(code) + " 可以提出issue修复该问题"@
    }
}

/// The message of a result, by the way the attempt ended and the text that
/// came with the last event.
pub open spec fn ending_message(ending: Ending, detail: Seq<char>) -> Seq<char> {
    match ending {
        Ending::Purchased => "抢票成功"@,
        Ending::PresumedPlaced(CheckFault::Unreachable) => "抢票成功，但获取支付信息失败，请前往B站订单中心支付"@,
        Ending::PresumedPlaced(CheckFault::Unparsable) => "抢票成功，但解析支付信息失败，请前往B站订单中心支付"@,
        Ending::TokenRefused(code) => "获取token失败，错误代码: "@ + decimal_spec(code as int)
            + "，错误信息："@ + detail,
        Ending::RiskUnsolved => "验证码处理失败，已达最大重试次数: "@ + detail,
        Ending::ConfirmExhausted => "确认订单失败，已达最大重试次数"@,
        Ending::OrderExhausted => "下单失败，已达最大重试次数"@,
        Ending::OrderRefused(code) => order_refusal_message(code as int),
    }
}

/// Writes the message for an order that the platform rejected for good.
pub fn order_refusal_text(code: i32) -> (text: String)
    ensures
        text@ == order_refusal_message(code as int),
{
    match code {
        100017 | 100016 => String::from_str("当前项目/类型/场次已停售"),
        1 => String::from_str("超人 请慢一点，这是仅限1人抢票的项目，或抢票格式有误，请重新提交任务"),
        83000004 => String::from_str("没有配置购票人信息！请重新配置"),
        100079 | 100003 | 100048 => String::from_str("购票人存在待付款订单，请前往支付或取消后重新下单"),
        100039 => String::from_str("活动收摊啦,下次要快点哦"),
        209001 => String::from_str("当前项目只能选择一个购票人！不支持多选，请重新提交任务"),
        919 => String::from_str(
            "程序内部错误！该项目区分绑定非绑定项目错误，传入意外值，请尝试重新下单以及提出issue",
        ),
        999 => String::from_str("程序内部错误！传参错误"),
        _ => {
            let head = String::from_str("下单失败，未知错误码：");
            let number = decimal_i64(code as i64);
            let with_number = joined(head, number.as_str());
            joined(with_number, " 可以提出issue修复该问题")
        },
    }
}

/// Writes the message of a result.
pub fn ending_text(ending: Ending, detail: &str) -> (text: String)
    ensures
        text@ == ending_message(ending, detail@),
{
    match ending {
        Ending::Purchased => String::from_str("抢票成功"),
        Ending::PresumedPlaced(CheckFault::Unreachable) => String::from_str(
            "抢票成功，但获取支付信息失败，请前往B站订单中心支付",
        ),
        Ending::PresumedPlaced(CheckFault::Unparsable) => String::from_str(
            "抢票成功，但解析支付信息失败，请前往B站订单中心支付",
        ),
        Ending::TokenRefused(code) => {
            let head = String::from_str("获取token失败，错误代码: ");
            let number = decimal_i64(code as i64);
            let a = joined(head, number.as_str());
            let b = joined(a, "，错误信息：");
            joined(b, detail)
        },
        Ending::RiskUnsolved => joined(String::from_str("验证码处理失败，已达最大重试次数: "), detail),
        Ending::ConfirmExhausted => String::from_str("确认订单失败，已达最大重试次数"),
        Ending::OrderExhausted => String::from_str("下单失败，已达最大重试次数"),
        Ending::OrderRefused(code) => order_refusal_text(code),
    }
}

/// What the driver does after an event. The same as a `Transition`, with the
/// result in hand where the attempt ends.
pub enum Step {
    Continue(Phase),
    Retry(u64),
    SwitchTarget,
    Done { ending: Ending, result: GrabTicketResult },
    Halted,
}

/// The transition that a step stands for.
pub open spec fn transition_of(step: Step) -> Transition {
    match step {
        Step::Continue(phase) => Transition::Continue(phase),
        Step::Retry(delay) => Transition::Retry(delay),
        Step::SwitchTarget => Transition::SwitchTarget,
        Step::Done { ending, .. } => Transition::Done(ending),
        Step::Halted => Transition::Halted,
    }
}

/// One attempt on one target.
pub struct Attempt {
    pub task_id: String,
    pub uid: i64,
    pub budget: RetryBudget,
    pub mode: GrabMode,
    pub progress: Progress,
    /// The token in use and its companion; meaningful once a token was granted.
    pub token: String,
    pub ptoken: String,
    /// The challenge to be solved while the attempt is in risk verification.
    pub risk: Option<TokenRiskParam>,
    /// The confirmed order parameters; there once confirmation succeeded.
    pub confirm: Option<ConfirmTicketResult>,
    /// The order under scrutiny; meaningful once an order was created.
    pub order_id: i64,
    pub pay_token: String,
}

/// What a result says when an attempt ends in the given way: who it belongs
/// to, whether it counts as a success, the message, and for a success the
/// order with the confirmed parameters, with the payment data only when the
/// order was found genuine.
pub open spec fn result_of(
    result: GrabTicketResult,
    before: Attempt,
    event: Event,
    ending: Ending,
) -> bool {
    &&& result.task_id@ == before.task_id@
    &&& result.uid == before.uid
    &&& result.success == ending_succeeds(ending)
    &&& result.message@ == ending_message(ending, event_text(event))
    &&& if ending_succeeds(ending) {
        &&& result.order_id matches Some(id)
        &&& id@ == decimal_spec(before.order_id as int)
        &&& result.pay_token matches Some(pay)
        &&& pay@ == before.pay_token@
        &&& result.confirm_result == before.confirm
    } else {
        &&& result.order_id is None
        &&& result.pay_token is None
        &&& result.confirm_result is None
    }
    &&& if ending is Purchased && event is OrderGenuine {
        result.pay_result == Some(event->OrderGenuine_0)
    } else {
        result.pay_result is None
    }
}

/// How an event changes what the attempt carries. A granted token is taken
/// up, and so are a confirmation and a created order, each in the phase that
/// waits for it. A challenge is kept while risk verification runs. Nothing
/// else changes hands, except that the confirmation leaves with the result.
pub open spec fn carries_after(before: Attempt, event: Event, after: Attempt) -> bool {
    let outcome = transition_spec(before.progress, signal_of(event), before.budget, before.mode);
    &&& after.task_id == before.task_id
    &&& after.uid == before.uid
    &&& after.budget == before.budget
    &&& after.mode == before.mode
    &&& after.progress == outcome.0
    &&& if before.progress.phase is AcquireToken && event is TokenGranted {
        after.token == event->TokenGranted_token && after.ptoken == event->TokenGranted_ptoken
    } else {
        after.token == before.token && after.ptoken == before.ptoken
    }
    &&& if before.progress.phase is AcquireToken && event is TokenRefused && is_risk_code(
        event->TokenRefused_0.code as int,
    ) {
        after.risk == Some(event->TokenRefused_0)
    } else if before.progress.phase is RiskVerification && (event is RiskPassed || event is RiskFailed) {
        after.risk is None
    } else {
        after.risk == before.risk
    }
    &&& if outcome.1 is Done {
        after.confirm is None
    } else if before.progress.phase is ConfirmOrder && event is Confirmed {
        after.confirm == Some(event->Confirmed_0)
    } else {
        after.confirm == before.confirm
    }
    &&& if before.progress.phase is CreateOrder && event is OrderCreated {
        after.order_id == event->OrderCreated_order_id && after.pay_token
            == event->OrderCreated_pay_token
    } else {
        after.order_id == before.order_id && after.pay_token == before.pay_token
    }
}

/// Whether an attempt carries what its phase works with: the confirmed
/// order parameters while an order is created or checked, and the challenge
/// while risk verification runs.
pub open spec fn is_consistent(attempt: Attempt) -> bool {
    &&& (attempt.progress.phase is CreateOrder || attempt.progress.phase is VerifyNotFake)
        ==> attempt.confirm is Some
    &&& attempt.progress.phase is RiskVerification ==> attempt.risk is Some
}

impl Event {
    /// The kind of the event.
    pub fn signal(&self) -> (signal: Signal)
        ensures
            signal == signal_of(*self),
    {
        match self {
            Event::TokenGranted { .. } => Signal::TokenGranted,
            Event::TokenRefused(param) => Signal::TokenRefused(param.code),
            Event::RiskPassed => Signal::RiskPassed,
            Event::RiskFailed(_) => Signal::RiskFailed,
            Event::Confirmed(_) => Signal::Confirmed,
            Event::ConfirmFailed(_) => Signal::ConfirmFailed,
            Event::OrderCreated { .. } => Signal::OrderCreated,
            Event::OrderRejected(code) => Signal::OrderRejected(*code),
            Event::OrderGenuine(_) => Signal::OrderGenuine,
            Event::OrderFake(_) => Signal::OrderFake,
            Event::CheckFailed { fault, .. } => Signal::CheckFailed(*fault),
        }
    }
}

impl Attempt {
    /// An attempt that has not begun.
    pub fn new(task_id: String, uid: i64, budget: RetryBudget, mode: GrabMode) -> (attempt: Attempt)
        ensures
            attempt.task_id == task_id,
            attempt.uid == uid,
            attempt.budget == budget,
            attempt.mode == mode,
            attempt.progress == initial_progress(),
            attempt.token@.len() == 0,
            attempt.ptoken@.len() == 0,
            attempt.risk is None,
            attempt.confirm is None,
            attempt.order_id == 0,
            attempt.pay_token@.len() == 0,
            is_consistent(attempt),
    {
        Attempt {
            task_id,
            uid,
            budget,
            mode,
            progress: Progress::start(),
            token: String::new(),
            ptoken: String::new(),
            risk: None,
            confirm: None,
            order_id: 0,
            pay_token: String::new(),
        }
    }

    /// Takes one event and says what the driver does next. The course follows
    /// the transition table; where the attempt ends, the step holds the one
    /// result of the attempt.
    pub fn advance(&mut self, event: Event) -> (step: Step)
        ensures
            transition_of(step) == transition_spec(
                old(self).progress,
                signal_of(event),
                old(self).budget,
                old(self).mode,
            ).1,
            carries_after(*old(self), event, *final(self)),
            step matches Step::Done { ending, result } ==> result_of(result, *old(self), event, ending),
            is_consistent(*old(self)) ==> is_consistent(*final(self)),
            step matches Step::Done { ending, result } ==> (is_consistent(*old(self))
                && ending_succeeds(ending) ==> result.confirm_result is Some),
    {
        let phase = self.progress.phase;
        let (next, outcome) = transition(self.progress, event.signal(), &self.budget, self.mode);
        self.progress = next;
        let mut detail = String::new();
        let mut pay: Option<CheckFakeResultData> = None;
        match event {
            Event::TokenGranted { token, ptoken } => {
                if matches!(phase, Phase::AcquireToken) {
                    self.token = token;
                    self.ptoken = ptoken;
                }
            },
            Event::TokenRefused(param) => {
                if matches!(phase, Phase::AcquireToken) && (param.code == 401 || param.code == -401) {
                    self.risk = Some(param);
                } else {
                    detail = param.message;
                }
            },
            Event::RiskPassed => {
                if matches!(phase, Phase::RiskVerification) {
                    self.risk = None;
                }
            },
            Event::RiskFailed(reason) => {
                if matches!(phase, Phase::RiskVerification) {
                    self.risk = None;
                }
                detail = reason;
            },
            Event::Confirmed(confirm) => {
                if matches!(phase, Phase::ConfirmOrder) {
                    self.confirm = Some(confirm);
                }
            },
            Event::ConfirmFailed(reason) => {
                detail = reason;
            },
            Event::OrderCreated { order_id, pay_token } => {
                if matches!(phase, Phase::CreateOrder) {
                    self.order_id = order_id;
                    self.pay_token = pay_token;
                }
            },
            Event::OrderRejected(_) => {},
            Event::OrderGenuine(data) => {
                pay = Some(data);
            },
            Event::OrderFake(_) => {},
            Event::CheckFailed { reason, .. } => {
                detail = reason;
            },
        }
        match outcome {
            Transition::Continue(to) => Step::Continue(to),
            Transition::Retry(delay) => Step::Retry(delay),
            Transition::SwitchTarget => Step::SwitchTarget,
            Transition::Halted => Step::Halted,
            Transition::Done(ending) => {
                let confirm = self.confirm.take();
                let message = ending_text(ending, detail.as_str());
                let success = matches!(ending, Ending::Purchased | Ending::PresumedPlaced(_));
                let result = if success {
                    GrabTicketResult {
                        task_id: self.task_id.clone(),
                        uid: self.uid,
                        success: true,
                        message,
                        order_id: Some(decimal_i64(self.order_id)),
                        pay_token: Some(self.pay_token.clone()),
                        confirm_result: confirm,
                        pay_result: match ending {
                            Ending::Purchased => pay,
                            _ => None,
                        },
                    }
                } else {
                    GrabTicketResult {
                        task_id: self.task_id.clone(),
                        uid: self.uid,
                        success: false,
                        message,
                        order_id: None,
                        pay_token: None,
                        confirm_result: None,
                        pay_result: None,
                    }
                };
                Step::Done { ending, result }
            },
        }
    }
}

/// An order that turns out to be a phantom leaves the token, its companion
/// and the confirmation in place while the order budget lasts: the attempt
/// goes back to order creation with what it had.
pub proof fn fake_order_keeps_token_and_confirmation(before: Attempt, status: i64, after: Attempt)
    requires
        before.progress.phase is VerifyNotFake,
        !spent_spec(before.progress.order_retry, before.budget.max_order_retry),
        carries_after(before, Event::OrderFake(status), after),
    ensures
        after.progress.phase is CreateOrder,
        after.token == before.token,
        after.ptoken == before.ptoken,
        after.confirm == before.confirm,
        after.progress.token_retry == before.progress.token_retry,
        after.progress.confirm_retry == before.progress.confirm_retry,
{
}

/// An attempt keeps carrying what its phase works with, whatever event
/// arrives; and so a success, which ends an attempt that was checking an
/// order, always reports the confirmed order parameters.
pub proof fn advance_keeps_consistency(before: Attempt, event: Event, after: Attempt)
    requires
        is_consistent(before),
        carries_after(before, event, after),
    ensures
        is_consistent(after),
        transition_spec(before.progress, signal_of(event), before.budget, before.mode).1 matches Transition::Done(
            ending,
        ) && ending_succeeds(ending) ==> before.progress.phase is VerifyNotFake && before.confirm
            is Some,
{
}

} // verus!
