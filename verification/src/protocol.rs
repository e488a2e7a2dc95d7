//! The remote protocol as far as the engine decides on it: which code of a
//! response envelope counts, and what each answer means for the attempt.

use vstd::prelude::*;
use vstd::string::StringExecFns;
use crate::attempt::Event;
use crate::machine::CheckFault;
use crate::text::{decimal_i64, decimal_spec, decimal_u64, joined};
use crate::ticket::{CheckFakeResultData, ConfirmTicketResult, TokenRiskParam};

verus! {

/// Stands for a code that is absent from an envelope.
pub const ABSENT_CODE: i64 = -1;

/// Reported when the token could not be asked for or its answer not read.
pub const TOKEN_TRANSPORT_CODE: i32 = 999;

/// Reported when the order could not be submitted or its answer not read.
pub const ORDER_TRANSPORT_CODE: i32 = 412;

/// Reported when no ticket type was selected or its identifier is no number.
pub const BAD_TICKET_CODE: i32 = 999;

/// Reported when the binding of the project is none that is known.
pub const BAD_BINDING_CODE: i32 = 919;

/// A code as the envelope holds it, with the sentinel for an absent one.
pub open spec fn code_or_absent(code: Option<i64>) -> int {
    match code {
        Some(c) => c as int,
        None => ABSENT_CODE as int,
    }
}

/// The code of an envelope that counts: `errno` where the envelope has one
/// that is not the sentinel, `code` otherwise.
pub open spec fn effective_code_spec(errno: Option<i64>, code: Option<i64>) -> int {
    if code_or_absent(errno) != ABSENT_CODE {
        code_or_absent(errno)
    } else {
        code_or_absent(code)
    }
}

/// A code as the classifier takes it. A code beyond 32 bits is in no table;
/// it becomes the lowest number, which is in none either.
pub open spec fn narrow_code_spec(code: int) -> i32 {
    if i32::MIN <= code <= i32::MAX {
        code as i32
    } else {
        i32::MIN
    }
}

/// Picks the code of an envelope that counts.
pub fn effective_code(errno: Option<i64>, code: Option<i64>) -> (chosen: i64)
    ensures
        chosen == effective_code_spec(errno, code),
{
    let errno_value: i64 = match errno {
        Some(c) => c,
        None => ABSENT_CODE,
    };
    let code_value: i64 = match code {
        Some(c) => c,
        None => ABSENT_CODE,
    };
    if errno_value != ABSENT_CODE {
        errno_value
    } else {
        code_value
    }
}

/// Brings a code to the width the classifier takes.
pub fn narrow_code(code: i64) -> (narrow: i32)
    ensures
        narrow == narrow_code_spec(code as int),
{
    if code < i32::MIN as i64 || code > i32::MAX as i64 {
        i32::MIN
    } else {
        code as i32
    }
}

/// The text of an optional field, empty where the field is absent.
pub open spec fn text_or_empty(field: Option<String>) -> Seq<char> {
    match field {
        Some(text) => text@,
        None => Seq::empty(),
    }
}

fn or_empty(field: Option<String>) -> (text: String)
    ensures
        text@ == text_or_empty(field),
{
    match field {
        Some(text) => text,
        None => String::new(),
    }
}

/// The message of an envelope, or the stock phrase where it has none.
pub open spec fn message_or_unknown(msg: Option<String>) -> Seq<char> {
    match msg {
        Some(text) => text@,
        None => "未知错误"@,
    }
}

fn or_unknown(msg: Option<String>) -> (text: String)
    ensures
        text@ == message_or_unknown(msg),
{
    match msg {
        Some(text) => text,
        None => String::from_str("未知错误"),
    }
}

/// The challenge that comes with a refusal for risk reasons, field by field
/// as the platform sent it, and whole as JSON text.
pub struct RiskParams {
    pub mid: String,
    pub decision_type: String,
    pub buvid: String,
    pub ip: String,
    pub scene: String,
    pub ua: String,
    pub v_voucher: String,
    pub raw: String,
}

/// The answer to a request for a token, as far as it was readable.
pub struct TokenReply {
    pub errno: Option<i64>,
    pub code: Option<i64>,
    pub msg: Option<String>,
    pub token: Option<String>,
    pub ptoken: Option<String>,
    pub risk: Option<RiskParams>,
}

/// The answer to an order submission, as far as it was readable.
pub struct OrderReply {
    pub errno: Option<i64>,
    pub code: Option<i64>,
    pub order_id: Option<i64>,
    pub pay_token: Option<String>,
}

/// What a refusal for risk reasons hands to the solver: every field is
/// there, empty where the platform sent none.
pub open spec fn is_risk_refusal(param: TokenRiskParam, reply: TokenReply) -> bool {
    &&& param.code == narrow_code_spec(effective_code_spec(reply.errno, reply.code))
    &&& param.message@ == message_or_unknown(reply.msg)
    &&& param.mid is Some
    &&& param.decision_type is Some
    &&& param.buvid is Some
    &&& param.ip is Some
    &&& param.scene is Some
    &&& param.ua is Some
    &&& param.v_voucher is Some
    &&& param.risk_param is Some
    &&& match reply.risk {
        Some(risk) => {
            &&& param.mid->Some_0 == risk.mid
            &&& param.decision_type->Some_0 == risk.decision_type
            &&& param.buvid->Some_0 == risk.buvid
            &&& param.ip->Some_0 == risk.ip
            &&& param.scene->Some_0 == risk.scene
            &&& param.ua->Some_0 == risk.ua
            &&& param.v_voucher->Some_0 == risk.v_voucher
            &&& param.risk_param->Some_0 == risk.raw
        },
        None => {
            &&& param.mid->Some_0@.len() == 0
            &&& param.decision_type->Some_0@.len() == 0
            &&& param.buvid->Some_0@.len() == 0
            &&& param.ip->Some_0@.len() == 0
            &&& param.scene->Some_0@.len() == 0
            &&& param.ua->Some_0@.len() == 0
            &&& param.v_voucher->Some_0@.len() == 0
            &&& param.risk_param->Some_0@ == "null"@
        },
    }
}

/// A refusal that carries a code and a message and nothing else.
pub open spec fn is_plain_refusal(param: TokenRiskParam, code: i32, message: Seq<char>) -> bool {
    &&& param.code == code
    &&& param.message@ == message
    &&& param.mid is None
    &&& param.decision_type is None
    &&& param.buvid is None
    &&& param.ip is None
    &&& param.scene is None
    &&& param.ua is None
    &&& param.v_voucher is None
    &&& param.risk_param is None
}

/// What the answer to a token request means. Code zero grants the token,
/// with its companion for a popular project only; the two risk codes refuse
/// it with the challenge; every other code refuses it plainly.
pub open spec fn is_token_event(event: Event, reply: TokenReply, is_hot: bool) -> bool {
    let code = effective_code_spec(reply.errno, reply.code);
    if code == 0 {
        &&& event matches Event::TokenGranted { token, ptoken }
        &&& token@ == text_or_empty(reply.token)
        &&& ptoken@ == (if is_hot {
            text_or_empty(reply.ptoken)
        } else {
            Seq::empty()
        })
    } else if code == 401 || code == -401 {
        event matches Event::TokenRefused(param) && is_risk_refusal(param, reply)
    } else {
        event matches Event::TokenRefused(param) && is_plain_refusal(
            param,
            narrow_code_spec(code),
            message_or_unknown(reply.msg),
        )
    }
}

fn plain_refusal(code: i32, message: String) -> (param: TokenRiskParam)
    ensures
        is_plain_refusal(param, code, message@),
{
    TokenRiskParam {
        code,
        message,
        mid: None,
        decision_type: None,
        buvid: None,
        ip: None,
        scene: None,
        ua: None,
        v_voucher: None,
        risk_param: None,
    }
}

/// Reads the answer to a token request.
pub fn token_event(reply: TokenReply, is_hot: bool) -> (event: Event)
    ensures
        is_token_event(event, reply, is_hot),
{
    let code: i64 = effective_code(reply.errno, reply.code);
    if code == 0 {
        let ptoken = if is_hot {
            or_empty(reply.ptoken)
        } else {
            String::new()
        };
        Event::TokenGranted { token: or_empty(reply.token), ptoken }
    } else if code == 401 || code == -401 {
        let message = or_unknown(reply.msg);
        let param = match reply.risk {
            Some(risk) => TokenRiskParam {
                code: narrow_code(code),
                message,
                mid: Some(risk.mid),
                decision_type: Some(risk.decision_type),
                buvid: Some(risk.buvid),
                ip: Some(risk.ip),
                scene: Some(risk.scene),
                ua: Some(risk.ua),
                v_voucher: Some(risk.v_voucher),
                risk_param: Some(risk.raw),
            },
            None => TokenRiskParam {
                code: narrow_code(code),
                message,
                mid: Some(String::new()),
                decision_type: Some(String::new()),
                buvid: Some(String::new()),
                ip: Some(String::new()),
                scene: Some(String::new()),
                ua: Some(String::new()),
                v_voucher: Some(String::new()),
                risk_param: Some(String::from_str("null")),
            },
        };
        Event::TokenRefused(param)
    } else {
        Event::TokenRefused(plain_refusal(narrow_code(code), or_unknown(reply.msg)))
    }
}

/// What stands for an answer to a token request that never came or could
/// not be read: a plain refusal with the transport code and the reason.
pub fn token_transport_failure(reason: String) -> (event: Event)
    ensures
        event matches Event::TokenRefused(param) && is_plain_refusal(
            param,
            TOKEN_TRANSPORT_CODE,
            reason@,
        ),
{
    Event::TokenRefused(plain_refusal(TOKEN_TRANSPORT_CODE, reason))
}

/// What the answer to a confirmation means: with `errno` zero and readable
/// order parameters the order is confirmed, else confirmation failed.
pub open spec fn is_confirm_event(
    event: Event,
    errno: Option<i64>,
    msg: Option<String>,
    data: Option<ConfirmTicketResult>,
) -> bool {
    if errno != Some(0i64) {
        event matches Event::ConfirmFailed(reason) && reason@ == "确认订单失败: "@
            + message_or_unknown(msg)
    } else {
        match data {
            Some(confirm) => event == Event::Confirmed(confirm),
            None => event matches Event::ConfirmFailed(reason) && reason@
                == "解析确认订单结果失败"@,
        }
    }
}

/// Reads the answer to a confirmation.
pub fn confirm_event(errno: Option<i64>, msg: Option<String>, data: Option<ConfirmTicketResult>) -> (event:
    Event)
    ensures
        is_confirm_event(event, errno, msg, data),
{
    let confirmed = match errno {
        Some(c) => c == 0,
        None => false,
    };
    if !confirmed {
        let text = or_unknown(msg);
        return Event::ConfirmFailed(joined(String::from_str("确认订单失败: "), text.as_str()));
    }
    match data {
        Some(confirm) => Event::Confirmed(confirm),
        None => Event::ConfirmFailed(String::from_str("解析确认订单结果失败")),
    }
}

/// What the answer to an order submission means. Any status but 200 rejects
/// the order with the status as the code; so does any code that counts and
/// is not zero; else the order is created, with identifier zero and an empty
/// payment token where the answer holds none.
pub open spec fn is_order_event(event: Event, status: u16, reply: OrderReply) -> bool {
    let code = effective_code_spec(reply.errno, reply.code);
    if status != 200 {
        event == Event::OrderRejected(status as i32)
    } else if code != 0 {
        event == Event::OrderRejected(narrow_code_spec(code))
    } else {
        &&& event matches Event::OrderCreated { order_id, pay_token }
        &&& order_id == (match reply.order_id {
            Some(id) => id,
            None => 0i64,
        })
        &&& pay_token@ == text_or_empty(reply.pay_token)
    }
}

/// Reads the answer to an order submission.
pub fn order_event(status: u16, reply: OrderReply) -> (event: Event)
    ensures
        is_order_event(event, status, reply),
{
    if status != 200 {
        return Event::OrderRejected(status as i32);
    }
    let code: i64 = effective_code(reply.errno, reply.code);
    if code != 0 {
        return Event::OrderRejected(narrow_code(code));
    }
    let order_id: i64 = match reply.order_id {
        Some(id) => id,
        None => 0,
    };
    Event::OrderCreated { order_id, pay_token: or_empty(reply.pay_token) }
}

/// What the answer of the order-status endpoint means: a status that is not
/// zero marks a phantom; with status zero (or none) the payment data make
/// the order genuine, and their absence makes the answer unreadable.
pub open spec fn is_check_event(
    event: Event,
    errno: Option<i64>,
    pay: Option<CheckFakeResultData>,
) -> bool {
    match errno {
        Some(status) if status != 0 => event == Event::OrderFake(status),
        _ => match pay {
            Some(data) => event == Event::OrderGenuine(data),
            None => event matches Event::CheckFailed { fault, reason } && fault
                == CheckFault::Unparsable && reason@ == "解析假票结果失败"@,
        },
    }
}

/// Reads the answer of the order-status endpoint.
pub fn check_event(errno: Option<i64>, pay: Option<CheckFakeResultData>) -> (event: Event)
    ensures
        is_check_event(event, errno, pay),
{
    match errno {
        Some(status) => {
            if status != 0 {
                return Event::OrderFake(status);
            }
        },
        None => {},
    }
    match pay {
        Some(data) => Event::OrderGenuine(data),
        None => Event::CheckFailed {
            fault: CheckFault::Unparsable,
            reason: String::from_str("解析假票结果失败"),
        },
    }
}

/// The code with which an order is rejected before it is sent, if it cannot
/// be sent: no ticket type selected, or a binding that is none of 0, 1, 2.
pub open spec fn presubmit_code_spec(has_ticket_id: bool, id_bind: usize) -> Option<i32> {
    if !has_ticket_id {
        Some(BAD_TICKET_CODE)
    } else if id_bind > 2 {
        Some(BAD_BINDING_CODE)
    } else {
        None
    }
}

/// Says with which code an order is rejected before it is sent, if it
/// cannot be sent.
pub fn presubmit_code(has_ticket_id: bool, id_bind: usize) -> (code: Option<i32>)
    ensures
        code == presubmit_code_spec(has_ticket_id, id_bind),
{
    if !has_ticket_id {
        Some(BAD_TICKET_CODE)
    } else if id_bind > 2 {
        Some(BAD_BINDING_CODE)
    } else {
        None
    }
}

/// Where risk challenges are registered.
pub const RISK_REGISTER_URL: &'static str = "https://api.bilibili.com/x/gaia-vgate/v1/register";

/// Where solved risk challenges are handed in.
pub const RISK_VALIDATE_URL: &'static str = "https://api.bilibili.com/x/gaia-vgate/v1/validate";

/// Where the platform's clock is read.
pub const CLOCK_URL: &'static str = "https://api.bilibili.com/x/click-interface/click/now";

pub open spec fn prepare_url_spec(project_id: Seq<char>) -> Seq<char> {
    "https://show.bilibili.com/api/ticket/order/prepare?project_id="@ + project_id
}

pub open spec fn listing_url_spec(project_id: Seq<char>) -> Seq<char> {
    "https://show.bilibili.com/api/ticket/project/getV2?id="@ + project_id
}

pub open spec fn confirm_url_spec(token: Seq<char>, project_id: Seq<char>) -> Seq<char> {
    "https://show.bilibili.com/api/ticket/order/confirmInfo?token="@ + token
        + "&voucher=&project_id="@ + project_id + "&requestSource=neul-next"@
}

/// The address for an order submission; for a popular project it names the
/// token's companion.
pub open spec fn create_url_spec(project_id: Seq<char>, is_hot: bool, ptoken: Seq<char>) -> Seq<char> {
    if is_hot {
        "https://show.bilibili.com/api/ticket/order/createV2?project_id="@ + project_id
            + "&ptoken="@ + ptoken
    } else {
        "https://show.bilibili.com/api/ticket/order/createV2?project_id="@ + project_id
    }
}

/// The address for an order-status question; it names the order unless its
/// identifier is zero.
pub open spec fn status_url_spec(
    project_id: Seq<char>,
    pay_token: Seq<char>,
    timestamp: u64,
    order_id: i64,
) -> Seq<char> {
    let base = "https://show.bilibili.com/api/ticket/order/createstatus?project_id="@ + project_id
        + "&token="@ + pay_token + "&timestamp="@ + decimal_spec(timestamp as int);
    if order_id != 0 {
        base + "&orderId="@ + decimal_spec(order_id as int)
    } else {
        base
    }
}

/// Where an order reports to come from.
pub open spec fn request_source_spec(is_mobile: bool) -> Seq<char> {
    if is_mobile {
        "neul-next"@
    } else {
        "pc-new"@
    }
}

pub fn prepare_url(project_id: &str) -> (url: String)
    ensures
        url@ == prepare_url_spec(project_id@),
{
    joined(String::from_str("https://show.bilibili.com/api/ticket/order/prepare?project_id="), project_id)
}

pub fn listing_url(project_id: &str) -> (url: String)
    ensures
        url@ == listing_url_spec(project_id@),
{
    joined(String::from_str("https://show.bilibili.com/api/ticket/project/getV2?id="), project_id)
}

pub fn confirm_url(token: &str, project_id: &str) -> (url: String)
    ensures
        url@ == confirm_url_spec(token@, project_id@),
{
    let a = joined(String::from_str("https://show.bilibili.com/api/ticket/order/confirmInfo?token="), token);
    let b = joined(a, "&voucher=&project_id=");
    let c = joined(b, project_id);
    joined(c, "&requestSource=neul-next")
}

pub fn create_url(project_id: &str, is_hot: bool, ptoken: &str) -> (url: String)
    ensures
        url@ == create_url_spec(project_id@, is_hot, ptoken@),
{
    let base = joined(
        String::from_str("https://show.bilibili.com/api/ticket/order/createV2?project_id="),
        project_id,
    );
    if is_hot {
        joined(joined(base, "&ptoken="), ptoken)
    } else {
        base
    }
}

pub fn status_url(project_id: &str, pay_token: &str, timestamp: u64, order_id: i64) -> (url: String)
    ensures
        url@ == status_url_spec(project_id@, pay_token@, timestamp, order_id),
{
    let a = joined(
        String::from_str("https://show.bilibili.com/api/ticket/order/createstatus?project_id="),
        project_id,
    );
    let b = joined(a, "&token=");
    let c = joined(b, pay_token);
    let d = joined(c, "&timestamp=");
    let stamp = decimal_u64(timestamp);
    let base = joined(d, stamp.as_str());
    if order_id != 0 {
        let e = joined(base, "&orderId=");
        let number = decimal_i64(order_id);
        joined(e, number.as_str())
    } else {
        base
    }
}

pub fn request_source(is_mobile: bool) -> (source: &'static str)
    ensures
        source@ == request_source_spec(is_mobile),
{
    if is_mobile {
        "neul-next"
    } else {
        "pc-new"
    }
}

/// Which fields the body of an order submission holds besides those that
/// every order has.
#[derive(Clone, Copy, Debug, PartialEq, Eq, Structural)]
pub struct OrderFields {
    /// Name and telephone number of the contact.
    pub contact: bool,
    /// The verified buyers.
    pub buyers: bool,
    /// A token drawn for this submission, and the companion of the token
    /// in use.
    pub tokens: bool,
}

/// The fields by binding and popularity: a project without real-name
/// binding names the contact; one with it names the buyers, and a popular
/// one the tokens as well. No other binding is ever sent.
pub open spec fn order_fields_spec(id_bind: usize, is_hot: bool) -> OrderFields {
    if id_bind == 0 {
        OrderFields { contact: true, buyers: false, tokens: false }
    } else if id_bind == 1 || id_bind == 2 {
        OrderFields { contact: false, buyers: true, tokens: is_hot }
    } else {
        OrderFields { contact: false, buyers: false, tokens: false }
    }
}

/// Says which fields the body of an order submission holds.
pub fn order_fields(id_bind: usize, is_hot: bool) -> (fields: OrderFields)
    ensures
        fields == order_fields_spec(id_bind, is_hot),
{
    if id_bind == 0 {
        OrderFields { contact: true, buyers: false, tokens: false }
    } else if id_bind == 1 || id_bind == 2 {
        OrderFields { contact: false, buyers: true, tokens: is_hot }
    } else {
        OrderFields { contact: false, buyers: false, tokens: false }
    }
}

/// What a request to the token generator asks for.
#[derive(Clone, Copy, Debug, PartialEq, Eq, Structural)]
pub struct TokenDraw {
    /// Whether the token is one for a repeated request.
    pub is_retry: bool,
}

/// Whether a token is drawn for a request, and which: only a popular
/// project asks for one; the request for a purchase token takes a first
/// token, an order submission a repeated one.
pub open spec fn token_draw_spec(is_hot: bool, for_order: bool) -> Option<TokenDraw> {
    if is_hot {
        Some(TokenDraw { is_retry: for_order })
    } else {
        None
    }
}

/// Says whether a token is drawn for a request, and which.
pub fn token_draw(is_hot: bool, for_order: bool) -> (draw: Option<TokenDraw>)
    ensures
        draw == token_draw_spec(is_hot, for_order),
{
    if is_hot {
        Some(TokenDraw { is_retry: for_order })
    } else {
        None
    }
}

} // verus!
