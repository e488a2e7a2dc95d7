//! Data of the login flows.

use vstd::prelude::*;
use vstd::string::StringExecFns;
use crate::text::{join, joined_with, views_of};

verus! {

/// The moment a task was started, as the standard library's monotonic clock
/// gives it. The engine stores such values and never looks into them.
#[verifier::external_type_specification]
#[verifier::external_body]
pub struct ExInstant(std::time::Instant);

/// `Instant::clone`: an instant is copied bit for bit.
pub assume_specification[ <std::time::Instant as Clone>::clone ](t: &std::time::Instant) -> (copy:
    std::time::Instant)
    ensures
        copy == *t,
;

/// What the user typed into the login form.
#[derive(Clone, Debug)]
pub struct LoginInput {
    pub phone: String,
    pub account: String,
    pub password: String,
    pub sms_code: String,
    pub cookie: String,
}

impl Default for LoginInput {
    fn default() -> (input: Self)
        ensures
            input.phone@.len() == 0,
            input.account@.len() == 0,
            input.password@.len() == 0,
            input.sms_code@.len() == 0,
            input.cookie@.len() == 0,
    {
        LoginInput {
            phone: String::new(),
            account: String::new(),
            password: String::new(),
            sms_code: String::new(),
            cookie: String::new(),
        }
    }
}

/// A login by QR code that is under way.
pub struct QrCodeLoginTask {
    pub qrcode_key: String,
    pub qrcode_url: String,
    pub start_time: std::time::Instant,
    pub status: QrCodeLoginStatus,
}

#[derive(Clone, Debug, PartialEq)]
pub enum QrCodeLoginStatus {
    Pending,
    Scanning,
    Confirming,
    /// Logged in; carries the cookies.
    Success(String),
    /// Failed; carries the reason.
    Failed(String),
    Expired,
}

#[derive(Clone, Debug, PartialEq)]
pub enum SendLoginSmsStatus {
    Success(String),
    Failed(String),
}

/// A country or region with its dialling code.
#[derive(Clone, Debug)]
pub struct Country {
    pub name: String,
    pub cid: i32,
}

impl Default for Country {
    fn default() -> (country: Self)
        ensures
            country.name@.len() == 0,
            country.cid == 0,
    {
        Country { name: String::new(), cid: 0 }
    }
}

/// Whether a login by QR code has come to an end, so that polling stops.
pub open spec fn qrcode_status_is_final(status: QrCodeLoginStatus) -> bool {
    status is Success || status is Failed || status is Expired
}

impl QrCodeLoginStatus {
    /// Whether the login has come to an end, so that polling stops.
    pub fn is_final(&self) -> (done: bool)
        ensures
            done == qrcode_status_is_final(*self),
    {
        match self {
            QrCodeLoginStatus::Success(_) | QrCodeLoginStatus::Failed(_) | QrCodeLoginStatus::Expired => true,
            _ => false,
        }
    }
}

/// The code with which the platform reports a QR code that has expired.
pub const QR_EXPIRED: i64 = 86038;

/// The code with which the platform reports a QR code that was scanned and
/// awaits confirmation.
pub const QR_SCANNED: i64 = 86090;

/// The code with which the platform reports a QR code that nobody has
/// scanned yet.
pub const QR_WAITING: i64 = 86101;

/// What a poll of a login by QR code means. Code zero is a login if any
/// cookie came with it; the three progress codes say how far the login is;
/// any other code is a failure with the platform's message.
pub open spec fn is_qrcode_status(
    status: QrCodeLoginStatus,
    code: i64,
    cookies: Seq<String>,
    message: Option<String>,
) -> bool {
    if code == 0 {
        if cookies.len() > 0 {
            status matches QrCodeLoginStatus::Success(cookie) && cookie@ == joined_with(
                views_of(cookies),
                "; "@,
            )
        } else {
            status matches QrCodeLoginStatus::Failed(reason) && reason@ == "无法获取Cookie信息"@
        }
    } else if code == QR_EXPIRED {
        status is Expired
    } else if code == QR_SCANNED {
        status is Scanning
    } else if code == QR_WAITING {
        status is Pending
    } else {
        status matches QrCodeLoginStatus::Failed(reason) && reason@ == (match message {
            Some(text) => text@,
            None => "未知错误"@,
        })
    }
}

/// Reads a poll of a login by QR code.
pub fn qrcode_status(code: i64, cookies: &Vec<String>, message: Option<String>) -> (status:
    QrCodeLoginStatus)
    ensures
        is_qrcode_status(status, code, cookies@, message),
{
    if code == 0 {
        if cookies.len() > 0 {
            QrCodeLoginStatus::Success(join(cookies, "; "))
        } else {
            QrCodeLoginStatus::Failed(String::from_str("无法获取Cookie信息"))
        }
    } else if code == QR_EXPIRED {
        QrCodeLoginStatus::Expired
    } else if code == QR_SCANNED {
        QrCodeLoginStatus::Scanning
    } else if code == QR_WAITING {
        QrCodeLoginStatus::Pending
    } else {
        match message {
            Some(text) => QrCodeLoginStatus::Failed(text),
            None => QrCodeLoginStatus::Failed(String::from_str("未知错误")),
        }
    }
}

/// The cookies of a login and the reason of a failure, as a result reports
/// them beside the status.
pub fn qrcode_outcome(status: &QrCodeLoginStatus) -> (outcome: (Option<String>, Option<String>))
    ensures
        match *status {
            QrCodeLoginStatus::Success(cookie) => outcome.0 == Some(cookie) && outcome.1 is None,
            QrCodeLoginStatus::Failed(reason) => outcome.0 is None && outcome.1 == Some(reason),
            _ => outcome.0 is None && outcome.1 is None,
        },
{
    match status {
        QrCodeLoginStatus::Success(cookie) => (Some(cookie.clone()), None),
        QrCodeLoginStatus::Failed(reason) => (None, Some(reason.clone())),
        _ => (None, None),
    }
}

} // verus!
