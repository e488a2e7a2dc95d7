//! Requests, tasks and results that cross the supervisor's boundary.

use vstd::prelude::*;
use crate::config::{CustomConfig, PushConfig};
use crate::login::QrCodeLoginStatus;
use crate::ticket::{
    BuyerInfo, BuyerInfoResponse, CheckFakeResultData, ConfirmTicketResult, InfoResponse, NoBindBuyerInfo,
    TicketInfo,
};
use std::time::Instant;

verus! {

/// Where a task stands. A task is pending until its job starts, runs until
/// the job reports or is cancelled, and then stays as it is.
#[derive(Debug)]
pub enum TaskStatus {
    Pending,
    Running,
    Completed(bool),
    Failed(String),
    Cancelled,
}

impl Clone for TaskStatus {
    fn clone(&self) -> (copy: Self)
        ensures
            copy == *self,
    {
        match self {
            TaskStatus::Pending => TaskStatus::Pending,
            TaskStatus::Running => TaskStatus::Running,
            TaskStatus::Completed(success) => TaskStatus::Completed(*success),
            TaskStatus::Failed(reason) => TaskStatus::Failed(reason.clone()),
            TaskStatus::Cancelled => TaskStatus::Cancelled,
        }
    }
}

/// Whether a status is one that a task never leaves.
pub open spec fn is_settled(status: TaskStatus) -> bool {
    status is Completed || status is Failed || status is Cancelled
}

/// The steps a status may take: from pending to running, and from either to
/// a settled one.
pub open spec fn may_follow(before: TaskStatus, after: TaskStatus) -> bool {
    before == after || (before is Pending && after is Running) || (!is_settled(before) && is_settled(
        after,
    ))
}

impl TaskStatus {
    /// Whether the status is one that a task never leaves.
    pub fn settled(&self) -> (yes: bool)
        ensures
            yes == is_settled(*self),
    {
        match self {
            TaskStatus::Completed(_) | TaskStatus::Failed(_) | TaskStatus::Cancelled => true,
            _ => false,
        }
    }
}

#[derive(Clone)]
pub struct TicketResult {
    pub success: bool,
    pub order_id: Option<String>,
    pub message: Option<String>,
    pub ticket_info: TicketInfo,
    pub timestamp: Instant,
}

/// What is asked of a ticket acquisition job. The job owns its request.
#[derive(Clone, Debug)]
pub struct GrabTicketRequest {
    pub task_id: String,
    pub uid: i64,
    pub project_id: String,
    pub screen_id: String,
    pub ticket_id: String,
    pub count: i16,
    pub buyer_info: Vec<BuyerInfo>,
    pub no_bind_buyer_info: Option<NoBindBuyerInfo>,
    /// 0 waits for the opening, 1 attempts at once, 2 scalps.
    pub grab_mode: u8,
    pub config: CustomConfig,
    pub push_self: PushConfig,
    pub project_info: Option<TicketInfo>,
    pub id_bind: usize,
    pub status: TaskStatus,
    pub start_time: Option<Instant>,
    pub is_hot: bool,
    /// Titles and ticket types that hold one of these words are passed over
    /// while scalping.
    pub skip_words: Option<Vec<String>>,
}

#[derive(Clone, Debug)]
pub struct GrabTicketTask {
    pub task_id: String,
    pub uid: i64,
    pub project_id: String,
    pub grab_mode: u8,
    pub status: TaskStatus,
    pub start_time: Option<Instant>,
}

/// The one thing a job hands back: whether it got the ticket, a message for
/// the user, and what is needed to pay.
#[derive(Clone, Debug)]
pub struct GrabTicketResult {
    pub task_id: String,
    pub uid: i64,
    pub success: bool,
    pub message: String,
    pub order_id: Option<String>,
    pub pay_token: Option<String>,
    pub confirm_result: Option<ConfirmTicketResult>,
    pub pay_result: Option<CheckFakeResultData>,
}

#[derive(Clone, Debug)]
pub struct GetBuyerInfoRequest {
    pub uid: i64,
    pub task_id: String,
}

#[derive(Clone, Debug)]
pub struct GetBuyerInfoResult {
    pub task_id: String,
    pub uid: i64,
    pub buyer_info: Option<BuyerInfoResponse>,
    pub success: bool,
    pub message: String,
}

#[derive(Clone, Debug)]
pub struct GetBuyerInfoTask {
    pub uid: i64,
    pub task_id: String,
    pub status: TaskStatus,
    pub start_time: Option<Instant>,
}

#[derive(Clone, Debug)]
pub struct GetTicketInfoRequest {
    pub uid: i64,
    pub task_id: String,
    pub project_id: String,
}

#[derive(Clone, Debug)]
pub struct GetTicketInfoResult {
    pub task_id: String,
    pub uid: i64,
    pub ticket_info: Option<InfoResponse>,
    pub success: bool,
    pub message: String,
}

#[derive(Clone, Debug)]
pub struct GetTicketInfoTask {
    pub task_id: String,
    pub project_id: String,
    pub status: TaskStatus,
    pub start_time: Option<Instant>,
}

#[derive(Clone)]
pub struct PushRequest {
    pub title: String,
    pub message: String,
    pub jump_url: Option<String>,
    pub push_config: PushConfig,
    pub push_type: PushType,
}

#[derive(Clone, Copy, Debug, PartialEq, Eq, Structural)]
pub enum PushType {
    All,
    Bark,
    PushPlus,
    Fangtang,
    Dingtalk,
    WeChat,
    Smtp,
}

#[derive(Clone)]
pub struct PushRequestResult {
    pub task_id: String,
    pub success: bool,
    pub message: String,
    pub push_type: PushType,
}

#[derive(Clone)]
pub struct PushTask {
    pub task_id: String,
    pub title: String,
    pub message: String,
    pub push_type: PushType,
    pub status: TaskStatus,
    pub start_time: Option<Instant>,
}

pub struct TicketTask {
    pub task_id: String,
    pub account_id: String,
    pub ticket_id: String,
    pub status: TaskStatus,
    pub start_time: Option<Instant>,
    pub result: Option<TicketResult>,
}

pub struct QrCodeLoginTask {
    pub task_id: String,
    pub qrcode_key: String,
    pub qrcode_url: String,
    pub status: TaskStatus,
    pub start_time: Option<Instant>,
}

pub struct LoginSmsRequestTask {
    pub task_id: String,
    pub phone: String,
    pub status: TaskStatus,
    pub start_time: Option<Instant>,
}

pub struct SubmitLoginSmsRequestTask {
    pub task_id: String,
    pub phone: String,
    pub code: String,
    pub captcha_key: String,
    pub status: TaskStatus,
    pub start_time: Option<Instant>,
}

pub struct GetAllorderRequest {
    pub task_id: String,
    pub status: TaskStatus,
    pub cookies: String,
    pub account_id: String,
    pub start_time: Option<Instant>,
}

#[derive(Clone)]
pub struct GetAllorderRequestResult {
    pub task_id: String,
    pub account_id: String,
    pub success: bool,
    pub message: String,
    /// The order list as the platform sent it, as JSON text.
    pub order_info: Option<String>,
    pub timestamp: Instant,
}

pub struct GetAllorderTask {
    pub task_id: String,
    pub account_id: String,
    pub status: TaskStatus,
    pub start_time: Option<Instant>,
}

pub struct TicketRequest {
    pub ticket_id: String,
    pub account_id: String,
}

pub struct QrCodeLoginRequest {
    pub qrcode_key: String,
    pub qrcode_url: String,
    pub user_agent: Option<String>,
}

pub struct LoginSmsRequest {
    pub phone: String,
    pub cid: i32,
    pub custom_config: CustomConfig,
}

pub struct SubmitLoginSmsRequest {
    pub phone: String,
    pub cid: i32,
    pub code: String,
    pub captcha_key: String,
}

pub struct TaskTicketResult {
    pub task_id: String,
    pub account_id: String,
    pub result: Result<TicketResult, String>,
}

#[derive(Clone)]
pub struct TaskQrCodeLoginResult {
    pub task_id: String,
    pub status: QrCodeLoginStatus,
    pub cookie: Option<String>,
    pub error: Option<String>,
    pub qrcode_key: Option<String>,
}

#[derive(Clone)]
pub struct LoginSmsRequestResult {
    pub task_id: String,
    pub phone: String,
    pub success: bool,
    pub message: String,
}

#[derive(Clone)]
pub struct SubmitSmsLoginResult {
    pub task_id: String,
    pub phone: String,
    pub success: bool,
    pub message: String,
    pub cookie: Option<String>,
}

/// A task on the supervisor's books.
pub enum Task {
    QrCodeLoginTask(QrCodeLoginTask),
    LoginSmsRequestTask(LoginSmsRequestTask),
    PushTask(PushTask),
    SubmitLoginSmsRequestTask(SubmitLoginSmsRequestTask),
    GetAllorderRequestTask(GetAllorderRequest),
    GetTicketInfoTask(GetTicketInfoTask),
    GetBuyerInfoTask(GetBuyerInfoTask),
    GrabTicketTask(GrabTicketTask),
}

/// What can be asked of the supervisor.
pub enum TaskRequest {
    QrCodeLoginRequest(QrCodeLoginRequest),
    LoginSmsRequest(LoginSmsRequest),
    PushRequest(PushRequest),
    SubmitLoginSmsRequest(SubmitLoginSmsRequest),
    GetAllorderRequest(GetAllorderRequest),
    GetTicketInfoRequest(GetTicketInfoRequest),
    GetBuyerInfoRequest(GetBuyerInfoRequest),
    GrabTicketRequest(GrabTicketRequest),
}

/// What a job reports.
#[derive(Clone)]
pub enum TaskResult {
    QrCodeLoginResult(TaskQrCodeLoginResult),
    LoginSmsResult(LoginSmsRequestResult),
    PushResult(PushRequestResult),
    SubmitSmsLoginResult(SubmitSmsLoginResult),
    GetAllorderRequestResult(GetAllorderRequestResult),
    GetTicketInfoResult(GetTicketInfoResult),
    GetBuyerInfoResult(GetBuyerInfoResult),
    GrabTicketResult(GrabTicketResult),
}

} // verus!
