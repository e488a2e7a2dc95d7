//! The notification that tells the user of a placed order.

use vstd::prelude::*;
use vstd::string::StringExecFns;
use crate::machine::{CheckFault, Ending};
use crate::taskmanager::GrabTicketResult;
use crate::text::joined;
use crate::ticket::ConfirmTicketResult;

verus! {

/// A notification: a title, a body, and a link that opens the order.
pub struct Notice {
    pub title: String,
    pub message: String,
    pub jump_url: Option<String>,
}

/// What the link to an order starts with.
pub open spec fn order_link_prefix() -> Seq<char> {
    "bilibili://mall/web?url=https://mall.bilibili.com/neul-next/ticket/orderDetail.html?order_id="@
}

/// The last line of the body: a call to pay for a genuine order, a pointer
/// to the order centre where the payment data could not be read.
pub open spec fn notice_tail(ending: Ending) -> Seq<char> {
    if ending is Purchased {
        "\n请尽快支付！"@
    } else {
        "\n状态: 解析支付信息失败，请前往订单中心支付"@
    }
}

/// Whether an ending is announced: a genuine order is, and so is an order
/// whose payment data could not be read.
pub open spec fn is_announced(ending: Ending) -> bool {
    ending is Purchased || ending == Ending::PresumedPlaced(CheckFault::Unparsable)
}

pub open spec fn notice_title(confirm: ConfirmTicketResult) -> Seq<char> {
    "抢票成功: "@ + confirm.project_name@
}

pub open spec fn notice_body(confirm: ConfirmTicketResult, order: Seq<char>, ending: Ending) -> Seq<char> {
    "项目: "@ + confirm.project_name@ + "\n场次: "@ + confirm.screen_name@ + "\n票种: "@
        + confirm.ticket_info.name@ + "\n订单号: "@ + order + notice_tail(ending)
}

/// The order number of a result as text, empty where the result has none.
pub open spec fn order_text(result: GrabTicketResult) -> Seq<char> {
    match result.order_id {
        Some(id) => id@,
        None => Seq::empty(),
    }
}

/// Writes the notification for a result, if its ending is announced and the
/// result holds the confirmed order parameters.
pub fn success_notice(ending: Ending, result: &GrabTicketResult) -> (notice: Option<Notice>)
    ensures
        notice is Some <==> is_announced(ending) && result.confirm_result is Some,
        notice matches Some(n) ==> {
            &&& n.title@ == notice_title(result.confirm_result->Some_0)
            &&& n.message@ == notice_body(result.confirm_result->Some_0, order_text(*result), ending)
            &&& n.jump_url matches Some(url)
            &&& url@ == order_link_prefix() + order_text(*result)
        },
{
    let announced = match ending {
        Ending::Purchased => true,
        Ending::PresumedPlaced(CheckFault::Unparsable) => true,
        _ => false,
    };
    if !announced {
        return None;
    }
    match &result.confirm_result {
        None => None,
        Some(confirm) => {
            let order = match &result.order_id {
                Some(id) => id.clone(),
                None => String::new(),
            };
            let title = joined(String::from_str("抢票成功: "), confirm.project_name.as_str());
            let a = joined(String::from_str("项目: "), confirm.project_name.as_str());
            let b = joined(a, "\n场次: ");
            let c = joined(b, confirm.screen_name.as_str());
            let d = joined(c, "\n票种: ");
            let e = joined(d, confirm.ticket_info.name.as_str());
            let f = joined(e, "\n订单号: ");
            let g = joined(f, order.as_str());
            let message = match ending {
                Ending::Purchased => joined(g, "\n请尽快支付！"),
                _ => joined(g, "\n状态: 解析支付信息失败，请前往订单中心支付"),
            };
            let url = joined(
                String::from_str(
                    "bilibili://mall/web?url=https://mall.bilibili.com/neul-next/ticket/orderDetail.html?order_id=",
                ),
                order.as_str(),
            );
            Some(Notice { title, message, jump_url: Some(url) })
        },
    }
}

} // verus!
