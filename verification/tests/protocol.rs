use ticket_rush::attempt::Event;
use ticket_rush::machine::CheckFault;
use ticket_rush::protocol::{
    check_event, confirm_event, confirm_url, create_url, effective_code, listing_url, narrow_code,
    order_event, order_fields, prepare_url, presubmit_code, request_source, status_url, token_draw,
    token_event, token_transport_failure, OrderFields, OrderReply, RiskParams, TokenDraw, TokenReply,
};
use ticket_rush::ticket::{CheckFakeResultData, ConfirmTicketInfo, ConfirmTicketResult};

fn token_reply(errno: Option<i64>, code: Option<i64>) -> TokenReply {
    TokenReply {
        errno,
        code,
        msg: Some("m".to_string()),
        token: Some("tok".to_string()),
        ptoken: Some("ptok".to_string()),
        risk: None,
    }
}

fn confirm() -> ConfirmTicketResult {
    ConfirmTicketResult {
        count: 2,
        pay_money: 100,
        project_name: "p".to_string(),
        screen_name: "s".to_string(),
        ticket_info: ConfirmTicketInfo { name: "t".to_string(), count: 2, price: 50 },
    }
}

#[test]
fn errno_is_authoritative_when_present() {
    assert_eq!(effective_code(Some(0), Some(5)), 0);
    assert_eq!(effective_code(Some(100001), Some(0)), 100001);
    assert_eq!(effective_code(Some(-1), Some(7)), 7);
    assert_eq!(effective_code(None, Some(7)), 7);
    assert_eq!(effective_code(None, None), -1);
    assert_eq!(effective_code(Some(-1), None), -1);
}

#[test]
fn codes_beyond_32_bits_match_no_table_row() {
    assert_eq!(narrow_code(3), 3);
    assert_eq!(narrow_code(-401), -401);
    assert_eq!(narrow_code(i32::MAX as i64), i32::MAX);
    assert_eq!(narrow_code(i32::MAX as i64 + 1), i32::MIN);
    assert_eq!(narrow_code((1i64 << 32) + 3), i32::MIN);
    assert_eq!(narrow_code(i64::MIN), i32::MIN);
}

#[test]
fn code_zero_grants_the_token() {
    match token_event(token_reply(Some(0), None), true) {
        Event::TokenGranted { token, ptoken } => assert_eq!((token.as_str(), ptoken.as_str()), ("tok", "ptok")),
        _ => panic!("expected a token"),
    }
    match token_event(token_reply(None, Some(0)), false) {
        Event::TokenGranted { token, ptoken } => assert_eq!((token.as_str(), ptoken.as_str()), ("tok", "")),
        _ => panic!("expected a token"),
    }
    let mut bare = token_reply(Some(0), None);
    bare.token = None;
    bare.ptoken = None;
    match token_event(bare, true) {
        Event::TokenGranted { token, ptoken } => assert_eq!((token.as_str(), ptoken.as_str()), ("", "")),
        _ => panic!("expected a token"),
    }
}

#[test]
fn risk_codes_carry_the_challenge() {
    let mut reply = token_reply(Some(-401), None);
    reply.risk = Some(RiskParams {
        mid: "1".to_string(),
        decision_type: "2".to_string(),
        buvid: "3".to_string(),
        ip: "4".to_string(),
        scene: "5".to_string(),
        ua: "6".to_string(),
        v_voucher: "7".to_string(),
        raw: "{\"mid\":\"1\"}".to_string(),
    });
    match token_event(reply, true) {
        Event::TokenRefused(param) => {
            assert_eq!(param.code, -401);
            assert_eq!(param.message, "m");
            assert_eq!(param.mid, Some("1".to_string()));
            assert_eq!(param.v_voucher, Some("7".to_string()));
            assert_eq!(param.risk_param, Some("{\"mid\":\"1\"}".to_string()));
        }
        _ => panic!("expected a refusal"),
    }
    match token_event(token_reply(None, Some(401)), false) {
        Event::TokenRefused(param) => {
            assert_eq!(param.code, 401);
            assert_eq!(param.buvid, Some(String::new()));
            assert_eq!(param.risk_param, Some("null".to_string()));
        }
        _ => panic!("expected a refusal"),
    }
}

#[test]
fn other_codes_refuse_plainly() {
    let mut reply = token_reply(Some(100039), Some(0));
    reply.msg = None;
    match token_event(reply, true) {
        Event::TokenRefused(param) => {
            assert_eq!(param.code, 100039);
            assert_eq!(param.message, "未知错误");
            assert!(param.mid.is_none() && param.risk_param.is_none());
        }
        _ => panic!("expected a refusal"),
    }
    match token_event(token_reply(None, None), true) {
        Event::TokenRefused(param) => assert_eq!(param.code, -1),
        _ => panic!("expected a refusal"),
    }
    match token_transport_failure("connection reset".to_string()) {
        Event::TokenRefused(param) => {
            assert_eq!(param.code, 999);
            assert_eq!(param.message, "connection reset");
            assert!(param.risk_param.is_none());
        }
        _ => panic!("expected a refusal"),
    }
}

#[test]
fn confirmation_needs_errno_zero_and_data() {
    assert!(matches!(confirm_event(Some(0), None, Some(confirm())), Event::Confirmed(c) if c.count == 2));
    match confirm_event(Some(100001), Some("busy".to_string()), Some(confirm())) {
        Event::ConfirmFailed(reason) => assert_eq!(reason, "确认订单失败: busy"),
        _ => panic!("expected a failure"),
    }
    match confirm_event(None, None, Some(confirm())) {
        Event::ConfirmFailed(reason) => assert_eq!(reason, "确认订单失败: 未知错误"),
        _ => panic!("expected a failure"),
    }
    match confirm_event(Some(0), None, None) {
        Event::ConfirmFailed(reason) => assert_eq!(reason, "解析确认订单结果失败"),
        _ => panic!("expected a failure"),
    }
}

#[test]
fn order_answers_are_read() {
    let ok = |errno, code| OrderReply { errno, code, order_id: Some(99), pay_token: Some("p".to_string()) };
    assert!(matches!(
        order_event(200, ok(Some(0), None)),
        Event::OrderCreated { order_id: 99, pay_token } if pay_token == "p"
    ));
    assert!(matches!(order_event(200, ok(None, Some(0))), Event::OrderCreated { order_id: 99, .. }));
    assert!(matches!(order_event(429, ok(Some(0), None)), Event::OrderRejected(429)));
    assert!(matches!(order_event(412, ok(Some(0), None)), Event::OrderRejected(412)));
    assert!(matches!(order_event(200, ok(Some(100009), Some(0))), Event::OrderRejected(100009)));
    assert!(matches!(order_event(200, ok(Some(-1), Some(3))), Event::OrderRejected(3)));
    assert!(matches!(order_event(200, ok(None, None)), Event::OrderRejected(-1)));
    let bare = OrderReply { errno: Some(0), code: None, order_id: None, pay_token: None };
    assert!(matches!(
        order_event(200, bare),
        Event::OrderCreated { order_id: 0, pay_token } if pay_token.is_empty()
    ));
}

#[test]
fn order_status_answers_are_read() {
    let pay = || CheckFakeResultData { sign: "s".to_string(), code_url: "u".to_string() };
    assert!(matches!(check_event(Some(0), Some(pay())), Event::OrderGenuine(d) if d.code_url == "u"));
    assert!(matches!(check_event(None, Some(pay())), Event::OrderGenuine(_)));
    assert!(matches!(check_event(Some(100034), Some(pay())), Event::OrderFake(100034)));
    assert!(matches!(check_event(Some(-1), None), Event::OrderFake(-1)));
    match check_event(Some(0), None) {
        Event::CheckFailed { fault, reason } => {
            assert_eq!(fault, CheckFault::Unparsable);
            assert_eq!(reason, "解析假票结果失败");
        }
        _ => panic!("expected a failed check"),
    }
}

#[test]
fn unsendable_orders_are_rejected_up_front() {
    assert_eq!(presubmit_code(false, 1), Some(999));
    assert_eq!(presubmit_code(false, 7), Some(999));
    assert_eq!(presubmit_code(true, 3), Some(919));
    assert_eq!(presubmit_code(true, 999), Some(919));
    for id_bind in 0..=2 {
        assert_eq!(presubmit_code(true, id_bind), None);
    }
}

#[test]
fn addresses_are_written_out() {
    assert_eq!(prepare_url("1001"), "https://show.bilibili.com/api/ticket/order/prepare?project_id=1001");
    assert_eq!(listing_url("1001"), "https://show.bilibili.com/api/ticket/project/getV2?id=1001");
    assert_eq!(
        confirm_url("tok", "1001"),
        "https://show.bilibili.com/api/ticket/order/confirmInfo?token=tok&voucher=&project_id=1001&requestSource=neul-next"
    );
    assert_eq!(
        create_url("1001", false, "pt"),
        "https://show.bilibili.com/api/ticket/order/createV2?project_id=1001"
    );
    assert_eq!(
        create_url("1001", true, "pt"),
        "https://show.bilibili.com/api/ticket/order/createV2?project_id=1001&ptoken=pt"
    );
    assert_eq!(
        status_url("1001", "pay", 1700000000, 0),
        "https://show.bilibili.com/api/ticket/order/createstatus?project_id=1001&token=pay&timestamp=1700000000"
    );
    assert_eq!(
        status_url("1001", "pay", 1700000000, 55),
        "https://show.bilibili.com/api/ticket/order/createstatus?project_id=1001&token=pay&timestamp=1700000000&orderId=55"
    );
    assert_eq!(request_source(true), "neul-next");
    assert_eq!(request_source(false), "pc-new");
}

#[test]
fn the_order_body_follows_binding_and_popularity() {
    let fields = |contact, buyers, tokens| OrderFields { contact, buyers, tokens };
    assert_eq!(order_fields(0, false), fields(true, false, false));
    assert_eq!(order_fields(0, true), fields(true, false, false));
    assert_eq!(order_fields(1, false), fields(false, true, false));
    assert_eq!(order_fields(2, true), fields(false, true, true));
    assert_eq!(order_fields(3, true), fields(false, false, false));
    assert_eq!(order_fields(999, false), fields(false, false, false));
}

#[test]
fn a_token_is_drawn_for_popular_projects_only() {
    assert_eq!(token_draw(false, false), None);
    assert_eq!(token_draw(false, true), None);
    assert_eq!(token_draw(true, false), Some(TokenDraw { is_retry: false }));
    assert_eq!(token_draw(true, true), Some(TokenDraw { is_retry: true }));
}
