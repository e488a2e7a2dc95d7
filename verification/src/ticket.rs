//! Data the ticketing platform hands back and the engine passes along:
//! project listings, buyers, confirmed order parameters and order outcomes.

use vstd::prelude::*;
use vstd::string::StringExecFns;

verus! {

/// A created order as the platform reports it.
#[derive(Clone, Debug)]
pub struct SubmitOrderResult {
    pub order_id: i128,
    pub order_create_time: i64,
    pub order_token: String,
}

/// The answer of the order-status endpoint for a genuine order.
#[derive(Clone, Debug)]
pub struct CheckFakeResult {
    pub errno: i32,
    pub code: i32,
    pub errtag: i32,
    pub msg: String,
    pub message: String,
    pub data: CheckFakeResultParam,
}

#[derive(Clone, Debug)]
pub struct CheckFakeResultParam {
    pub pay_param: CheckFakeResultData,
}

/// What is needed to pay for an order: the signature and the payload of the
/// payment code.
#[derive(Clone, Debug)]
pub struct CheckFakeResultData {
    pub sign: String,
    pub code_url: String,
}

#[derive(Clone, Debug)]
pub struct ConfirmTicketInfo {
    pub name: String,
    pub count: i32,
    pub price: i64,
}

/// Order parameters that the platform confirmed for a token. They stay valid
/// for one run of order creation.
#[derive(Clone, Debug)]
pub struct ConfirmTicketResult {
    pub count: i32,
    pub pay_money: i64,
    pub project_name: String,
    pub screen_name: String,
    pub ticket_info: ConfirmTicketInfo,
}

/// Comes back in place of a token when the platform refuses one. For the
/// codes that ask for risk verification it carries the challenge, which is
/// passed on to the solver unread.
#[derive(Clone, Debug)]
pub struct TokenRiskParam {
    pub code: i32,
    pub message: String,
    pub mid: Option<String>,
    pub decision_type: Option<String>,
    pub buvid: Option<String>,
    pub ip: Option<String>,
    pub scene: Option<String>,
    pub ua: Option<String>,
    pub v_voucher: Option<String>,
    /// The risk parameters as the platform sent them, as JSON text.
    pub risk_param: Option<String>,
}

/// A ticketed project with its showings.
#[derive(Clone, Debug)]
pub struct TicketInfo {
    pub id: i32,
    pub name: String,
    pub is_sale: usize,
    pub start_time: i64,
    pub end_time: i64,
    pub pick_seat: usize,
    pub project_type: usize,
    pub express_fee: usize,
    pub sale_begin: i64,
    pub sale_end: i64,
    pub count_down: i64,
    pub screen_list: Vec<ScreenInfo>,
    pub sale_flag_number: usize,
    pub sale_flag: String,
    pub is_free: bool,
    pub performance_desc: Option<DescribeList>,
    pub id_bind: usize,
    pub hot_project: bool,
}

/// One showing of a project, with the ticket types sold for it.
#[derive(Clone, Debug)]
pub struct ScreenInfo {
    pub sale_flag: SaleFlag,
    pub id: usize,
    pub start_time: usize,
    pub name: String,
    pub ticket_type: usize,
    pub screen_type: usize,
    pub delivery_type: usize,
    pub pick_seat: usize,
    pub ticket_list: Vec<ScreenTicketInfo>,
    pub clickable: bool,
    pub sale_end: usize,
    pub sale_start: usize,
    pub sale_flag_number: usize,
    pub show_date: String,
}

#[derive(Clone, Debug)]
pub struct SaleFlag {
    pub number: usize,
    pub display_name: String,
}

impl Default for SaleFlag {
    fn default() -> (flag: Self)
        ensures
            flag.number == 0,
            flag.display_name@ == "未知状态"@,
    {
        SaleFlag { number: 0, display_name: String::from_str("未知状态") }
    }
}

/// One ticket type of a showing.
#[allow(non_snake_case)]
#[derive(Clone, Debug)]
pub struct ScreenTicketInfo {
    pub saleStart: usize,
    pub saleEnd: usize,
    pub id: usize,
    pub project_id: usize,
    pub price: usize,
    pub desc: String,
    pub sale_start: String,
    pub sale_end: String,
    pub kind: usize,
    pub sale_type: usize,
    pub is_sale: usize,
    pub num: usize,
    pub sale_flag: SaleFlag,
    pub clickable: bool,
    pub sale_flag_number: usize,
    pub screen_name: String,
}

#[derive(Clone, Debug)]
pub struct DescribeList {
    pub kind: u8,
    pub list: Vec<ModuleItem>,
}

#[derive(Clone, Debug)]
pub struct ModuleItem {
    pub module: String,
    /// Either a string or a list on the wire; kept as JSON text.
    pub details: String,
    pub module_name: Option<String>,
}

#[derive(Clone, Debug)]
pub struct BaseInfoItem {
    pub title: String,
    pub content: String,
}

#[derive(Clone, Debug)]
pub struct InfoResponse {
    pub errno: i32,
    pub errtag: i32,
    pub msg: String,
    pub code: i32,
    pub message: String,
    pub data: TicketInfo,
}

/// A verified buyer identity.
#[allow(non_snake_case)]
#[derive(Clone, Debug)]
pub struct BuyerInfo {
    pub id: i64,
    pub uid: i64,
    pub personal_id: String,
    pub name: String,
    pub tel: String,
    pub id_type: i64,
    pub is_default: i64,
    pub id_card_front: String,
    pub id_card_back: String,
    pub verify_status: i64,
    pub isBuyerInfoVerified: bool,
    pub isBuyerValid: bool,
}

#[derive(Clone, Debug)]
pub struct BuyerInfoResponse {
    pub errno: i32,
    pub errtag: i32,
    pub msg: String,
    pub code: i32,
    pub message: String,
    pub data: BuyerInfoData,
}

#[derive(Clone, Debug)]
pub struct BuyerInfoData {
    pub list: Vec<BuyerInfo>,
}

/// Contact data of a buyer for projects without real-name binding.
#[derive(Clone, Debug)]
pub struct NoBindBuyerInfo {
    pub name: String,
    pub tel: String,
    pub uid: i64,
}

} // verus!
