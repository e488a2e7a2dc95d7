//! What the application keeps about the user's choices, and the checks that
//! stand before a job is submitted.

use vstd::prelude::*;
use vstd::string::StringExecFns;
use crate::account::Account;
use crate::text::{decimal_i64, decimal_spec, decimal_u64, joined};

verus! {

/// The device of a mobile session.
#[derive(Clone, Debug)]
pub struct AppData {
    pub brand: String,
    pub model: String,
    pub buvid: String,
}

/// The browser of a web session with its fingerprint cookies.
#[derive(Clone, Debug)]
pub struct WebData {
    pub browser_version: String,
    pub os_version: String,
    pub ua: String,
    pub buvid3: String,
    pub buvid4: String,
    pub b_nut: String,
    pub buvid_fp: String,
    pub _uuid: String,
    pub bili_ticket: String,
    pub bili_ticket_expires: String,
    pub msource: String,
}

/// The order list of an account, as JSON text.
#[derive(Clone)]
pub struct OrderData {
    pub account_id: String,
    pub data: Option<String>,
}

/// A pending switch of an account on or off.
#[derive(Clone)]
pub struct AccountSwitch {
    pub uid: String,
    pub switch: bool,
}

/// What the window shows.
pub struct UiState {
    pub selected_tab: usize,
    pub show_log_window: bool,
    pub show_login_window: bool,
    pub show_add_buyer_window: Option<String>,
    pub show_orderlist_window: Option<String>,
    pub show_qr_windows: Option<String>,
    pub delete_account: Option<String>,
    pub account_switch: Option<AccountSwitch>,
    pub selected_account_uid: Option<i64>,
    pub total_order_data: Option<OrderData>,
    pub orderlist_need_reload: bool,
    pub orderlist_last_request_time: Option<std::time::Instant>,
    pub orderlist_requesting: bool,
    pub announce1: Option<String>,
    pub announce2: Option<String>,
    pub announce3: Option<String>,
    pub announce4: Option<String>,
}

/// The account and the binding that a job runs with.
#[derive(Clone, Copy, Debug, PartialEq, Eq, Structural)]
pub struct GrabChoice {
    /// Place of the account among the accounts on file.
    pub account: usize,
    pub id_bind: usize,
}

/// Why a job cannot be started.
#[derive(Clone, Copy, Debug, PartialEq, Eq, Structural)]
pub enum StartRefusal {
    NoProject,
    NoAccounts,
    NoUsableAccount,
    NoContactBuyer,
    NoRealNameBuyer,
    BadBuyerType,
}

/// Whether `i` is the place of the account a job runs with: the first with
/// the selected user id, or without a selection the first that is active.
pub open spec fn is_chosen_account(accounts: Seq<Account>, selected: Option<i64>, i: int) -> bool {
    &&& 0 <= i < accounts.len()
    &&& match selected {
        Some(uid) => accounts[i].uid == uid && forall|j: int| 0 <= j < i ==> accounts[j].uid != uid,
        None => accounts[i].is_active && forall|j: int| 0 <= j < i ==> !accounts[j].is_active,
    }
}

/// Whether some account can be chosen.
pub open spec fn has_usable_account(accounts: Seq<Account>, selected: Option<i64>) -> bool {
    exists|i: int|
        0 <= i < accounts.len() && (match selected {
            Some(uid) => (#[trigger] accounts[i]).uid == uid,
            None => accounts[i].is_active,
        })
}

/// Why a job cannot be started, if it cannot, checked in this order: no
/// project selected, no account on file, no account that can be chosen, and
/// a buyer type without its buyer data or of no known kind.
pub open spec fn start_refusal(
    project: Seq<char>,
    accounts: Seq<Account>,
    selected: Option<i64>,
    buyer_type: u8,
    has_buyers: bool,
    has_contact: bool,
) -> Option<StartRefusal> {
    if project.len() == 0 {
        Some(StartRefusal::NoProject)
    } else if accounts.len() == 0 {
        Some(StartRefusal::NoAccounts)
    } else if !has_usable_account(accounts, selected) {
        Some(StartRefusal::NoUsableAccount)
    } else if buyer_type == 0 {
        if has_contact {
            None
        } else {
            Some(StartRefusal::NoContactBuyer)
        }
    } else if buyer_type == 1 || buyer_type == 2 {
        if has_buyers {
            None
        } else {
            Some(StartRefusal::NoRealNameBuyer)
        }
    } else {
        Some(StartRefusal::BadBuyerType)
    }
}

/// What the user is told when a job cannot be started.
pub open spec fn refusal_message(refusal: StartRefusal) -> Seq<char> {
    match refusal {
        StartRefusal::NoProject => "请先选择项目"@,
        StartRefusal::NoAccounts => "请先添加账号"@,
        StartRefusal::NoUsableAccount => "没有可用的账号，请确保至少有一个账号是激活状态"@,
        StartRefusal::NoContactBuyer => "请先设置非实名购票人信息"@,
        StartRefusal::NoRealNameBuyer => "请先选择实名购票人信息"@,
        StartRefusal::BadBuyerType => "无效的购票人类型"@,
    }
}

/// The identifier of a job: the user id and the time of submission in
/// milliseconds, joined by a hyphen.
pub open spec fn grab_task_id_spec(uid: i64, millis: u64) -> Seq<char> {
    decimal_spec(uid as int) + "-"@ + decimal_spec(millis as int)
}

fn choose_account(accounts: &Vec<Account>, selected: Option<i64>) -> (found: Option<usize>)
    ensures
        found is Some <==> has_usable_account(accounts@, selected),
        found matches Some(i) ==> is_chosen_account(accounts@, selected, i as int),
{
    let mut i: usize = 0;
    while i < accounts.len()
        invariant
            i <= accounts.len(),
            forall|j: int|
                0 <= j < i ==> !(match selected {
                    Some(uid) => (#[trigger] accounts@[j]).uid == uid,
                    None => accounts@[j].is_active,
                }),
        decreases accounts.len() - i,
    {
        let hit = match selected {
            Some(uid) => accounts[i].uid == uid,
            None => accounts[i].is_active,
        };
        if hit {
            return Some(i);
        }
        i += 1;
    }
    None
}

/// Checks whether a job can be started and picks the account and the
/// binding it runs with.
pub fn check_grab_start(
    project: &str,
    accounts: &Vec<Account>,
    selected: Option<i64>,
    buyer_type: u8,
    has_buyers: bool,
    has_contact: bool,
) -> (res: Result<GrabChoice, StartRefusal>)
    ensures
        match start_refusal(project@, accounts@, selected, buyer_type, has_buyers, has_contact) {
            Some(refusal) => res == Err::<GrabChoice, StartRefusal>(refusal),
            None => res matches Ok(choice) && choice.id_bind == buyer_type && is_chosen_account(
                accounts@,
                selected,
                choice.account as int,
            ),
        },
{
    if project.unicode_len() == 0 {
        return Err(StartRefusal::NoProject);
    }
    if accounts.len() == 0 {
        return Err(StartRefusal::NoAccounts);
    }
    let account = match choose_account(accounts, selected) {
        Some(i) => i,
        None => {
            return Err(StartRefusal::NoUsableAccount);
        },
    };
    if buyer_type == 0 {
        if !has_contact {
            return Err(StartRefusal::NoContactBuyer);
        }
    } else if buyer_type == 1 || buyer_type == 2 {
        if !has_buyers {
            return Err(StartRefusal::NoRealNameBuyer);
        }
    } else {
        return Err(StartRefusal::BadBuyerType);
    }
    Ok(GrabChoice { account, id_bind: buyer_type as usize })
}

/// Writes what the user is told when a job cannot be started.
pub fn refusal_text(refusal: StartRefusal) -> (text: String)
    ensures
        text@ == refusal_message(refusal),
{
    match refusal {
        StartRefusal::NoProject => String::from_str("请先选择项目"),
        StartRefusal::NoAccounts => String::from_str("请先添加账号"),
        StartRefusal::NoUsableAccount => String::from_str(
            "没有可用的账号，请确保至少有一个账号是激活状态",
        ),
        StartRefusal::NoContactBuyer => String::from_str("请先设置非实名购票人信息"),
        StartRefusal::NoRealNameBuyer => String::from_str("请先选择实名购票人信息"),
        StartRefusal::BadBuyerType => String::from_str("无效的购票人类型"),
    }
}

/// Writes the identifier of a job.
pub fn grab_task_id(uid: i64, millis: u64) -> (id: String)
    ensures
        id@ == grab_task_id_spec(uid, millis),
{
    let a = joined(decimal_i64(uid), "-");
    let stamp = decimal_u64(millis);
    joined(a, stamp.as_str())
}

} // verus!
