use ticket_rush::attempt::{ending_text, order_refusal_text, Attempt, Event, Step};
use ticket_rush::config::{CustomConfig, PushConfig};
use ticket_rush::job::{handle_grab_ticket_request, target_seed, token_seed, Command, Job, JobEvent};
use ticket_rush::leak::Target;
use ticket_rush::machine::{CheckFault, Ending, GrabMode, Phase, RetryBudget};
use ticket_rush::modes::{JobEnding, Stage};
use ticket_rush::notice::success_notice;
use ticket_rush::taskmanager::{GrabTicketRequest, TaskStatus};
use ticket_rush::ticket::{
    CheckFakeResultData, ConfirmTicketInfo, ConfirmTicketResult, SaleFlag, ScreenInfo, ScreenTicketInfo,
    TicketInfo, TokenRiskParam,
};

fn request(mode: u8, ticket_id: &str) -> GrabTicketRequest {
    GrabTicketRequest {
        task_id: "task-1".to_string(),
        uid: 42,
        project_id: "1001".to_string(),
        screen_id: "2001".to_string(),
        ticket_id: ticket_id.to_string(),
        count: 1,
        buyer_info: Vec::new(),
        no_bind_buyer_info: None,
        grab_mode: mode,
        config: CustomConfig::default(),
        push_self: PushConfig::default(),
        project_info: None,
        id_bind: 1,
        status: TaskStatus::Pending,
        start_time: None,
        is_hot: false,
        skip_words: None,
    }
}

fn confirm() -> ConfirmTicketResult {
    ConfirmTicketResult {
        count: 1,
        pay_money: 12800,
        project_name: "Expo".to_string(),
        screen_name: "Day 1".to_string(),
        ticket_info: ConfirmTicketInfo { name: "Standard".to_string(), count: 1, price: 12800 },
    }
}

fn pay() -> CheckFakeResultData {
    CheckFakeResultData { sign: "sig".to_string(), code_url: "weixin://pay".to_string() }
}

fn refusal(code: i32, message: &str) -> TokenRiskParam {
    TokenRiskParam {
        code,
        message: message.to_string(),
        mid: None,
        decision_type: None,
        buvid: None,
        ip: None,
        scene: None,
        ua: None,
        v_voucher: None,
        risk_param: None,
    }
}

fn ticket(id: usize, clickable: bool, screen_name: &str, desc: &str) -> ScreenTicketInfo {
    ScreenTicketInfo {
        saleStart: 0,
        saleEnd: 0,
        id,
        project_id: 1001,
        price: 100,
        desc: desc.to_string(),
        sale_start: String::new(),
        sale_end: String::new(),
        kind: 1,
        sale_type: 1,
        is_sale: 1,
        num: 1,
        sale_flag: SaleFlag::default(),
        clickable,
        sale_flag_number: 2,
        screen_name: screen_name.to_string(),
    }
}

fn screen(id: usize, clickable: bool, tickets: Vec<ScreenTicketInfo>) -> ScreenInfo {
    ScreenInfo {
        sale_flag: SaleFlag::default(),
        id,
        start_time: 0,
        name: format!("screen {}", id),
        ticket_type: 1,
        screen_type: 1,
        delivery_type: 1,
        pick_seat: 0,
        ticket_list: tickets,
        clickable,
        sale_end: 0,
        sale_start: 1_700_000_000 + id,
        sale_flag_number: 2,
        show_date: String::new(),
    }
}

fn listing(id_bind: usize, hot: bool, screens: Vec<ScreenInfo>) -> TicketInfo {
    TicketInfo {
        id: 1001,
        name: "Expo".to_string(),
        is_sale: 1,
        start_time: 0,
        end_time: 0,
        pick_seat: 0,
        project_type: 1,
        express_fee: 0,
        sale_begin: 1_700_000_000,
        sale_end: 0,
        count_down: 0,
        screen_list: screens,
        sale_flag_number: 2,
        sale_flag: String::new(),
        is_free: false,
        performance_desc: None,
        id_bind,
        hot_project: hot,
    }
}

fn is_work(command: &Command, phase: Phase, delay_ms: u64) -> bool {
    matches!(command, Command::Work { phase: p, delay_ms: d } if *p == phase && *d == delay_ms)
}

#[test]
fn direct_job_end_to_end_yields_one_successful_result() {
    let (mut job, first) = Job::new(request(1, "5001"));
    assert!(is_work(&first, Phase::AcquireToken, 0));
    assert_eq!(job.request_ids(), ("2001".to_string(), "5001".to_string()));

    let c = job.handle(JobEvent::Attempt(Event::TokenGranted {
        token: "tok".to_string(),
        ptoken: String::new(),
    }));
    assert!(is_work(&c, Phase::ConfirmOrder, 0));
    let c = job.handle(JobEvent::Attempt(Event::Confirmed(confirm())));
    assert!(is_work(&c, Phase::CreateOrder, 0));
    let c = job.handle(JobEvent::Attempt(Event::OrderCreated {
        order_id: 987654321,
        pay_token: "paytok".to_string(),
    }));
    assert!(is_work(&c, Phase::VerifyNotFake, 0));
    let c = job.handle(JobEvent::Attempt(Event::OrderGenuine(pay())));
    match c {
        Command::Report { ending, result } => {
            assert_eq!(ending, JobEnding::Attempt(Ending::Purchased));
            assert!(result.success);
            assert_eq!(result.task_id, "task-1");
            assert_eq!(result.uid, 42);
            assert_eq!(result.message, "抢票成功");
            assert_eq!(result.order_id, Some("987654321".to_string()));
            assert_eq!(result.pay_token, Some("paytok".to_string()));
            assert_eq!(result.confirm_result.unwrap().project_name, "Expo");
            assert_eq!(result.pay_result.unwrap().code_url, "weixin://pay");
        }
        _ => panic!("expected a report"),
    }
    assert!(job.is_finished());
    for _ in 0..3 {
        assert!(matches!(job.handle(JobEvent::Attempt(Event::OrderGenuine(pay()))), Command::Stop));
        assert!(matches!(job.handle(JobEvent::Woke), Command::Stop));
    }
}

#[test]
fn fake_order_reuses_token_and_confirmation() {
    let (mut job, _) = Job::new(request(1, "5001"));
    job.handle(JobEvent::Attempt(Event::TokenGranted {
        token: "tok".to_string(),
        ptoken: "ptok".to_string(),
    }));
    job.handle(JobEvent::Attempt(Event::Confirmed(confirm())));
    job.handle(JobEvent::Attempt(Event::OrderCreated { order_id: 1, pay_token: "a".to_string() }));
    let c = job.handle(JobEvent::Attempt(Event::OrderFake(100034)));
    assert!(is_work(&c, Phase::CreateOrder, 400));
    assert_eq!(job.attempt.progress.phase, Phase::CreateOrder);
    assert_eq!(job.attempt.progress.order_retry, 1);
    assert_eq!(job.attempt.progress.token_retry, 0);
    assert_eq!(job.attempt.token, "tok");
    assert_eq!(job.attempt.ptoken, "ptok");
    assert_eq!(job.attempt.confirm.as_ref().unwrap().pay_money, 12800);
    let c = job.handle(JobEvent::Attempt(Event::OrderCreated { order_id: 2, pay_token: "b".to_string() }));
    assert!(is_work(&c, Phase::VerifyNotFake, 0));
    match job.handle(JobEvent::Attempt(Event::OrderGenuine(pay()))) {
        Command::Report { result, .. } => {
            assert_eq!(result.order_id, Some("2".to_string()));
            assert_eq!(result.pay_token, Some("b".to_string()));
        }
        _ => panic!("expected a report"),
    }
}

#[test]
fn order_budget_exhaustion_reports_once() {
    let mut req = request(1, "5001");
    req.config.max_order_retry = 4;
    let (mut job, _) = Job::new(req);
    job.handle(JobEvent::Attempt(Event::TokenGranted { token: "t".to_string(), ptoken: String::new() }));
    job.handle(JobEvent::Attempt(Event::Confirmed(confirm())));
    let mut reports = Vec::new();
    for _ in 0..4 {
        match job.handle(JobEvent::Attempt(Event::OrderRejected(100009))) {
            Command::Report { ending, result } => reports.push((ending, result)),
            c => assert!(is_work(&c, Phase::CreateOrder, 1000)),
        }
    }
    for _ in 0..4 {
        assert!(matches!(job.handle(JobEvent::Attempt(Event::OrderRejected(100009))), Command::Stop));
    }
    assert_eq!(reports.len(), 1);
    let (ending, result) = &reports[0];
    assert_eq!(*ending, JobEnding::Attempt(Ending::OrderExhausted));
    assert!(!result.success);
    assert_eq!(result.message, "下单失败，已达最大重试次数");
    assert_eq!(result.order_id, None);
    assert_eq!(result.pay_token, None);
    assert!(result.confirm_result.is_none());
}

#[test]
fn soft_success_keeps_the_order_without_payment_data() {
    let (mut job, _) = Job::new(request(1, "5001"));
    job.handle(JobEvent::Attempt(Event::TokenGranted { token: "t".to_string(), ptoken: String::new() }));
    job.handle(JobEvent::Attempt(Event::Confirmed(confirm())));
    job.handle(JobEvent::Attempt(Event::OrderCreated { order_id: -7, pay_token: "p".to_string() }));
    for _ in 0..2 {
        let c = job.handle(JobEvent::Attempt(Event::CheckFailed {
            fault: CheckFault::Unreachable,
            reason: "timeout".to_string(),
        }));
        assert!(is_work(&c, Phase::VerifyNotFake, 500));
    }
    match job.handle(JobEvent::Attempt(Event::CheckFailed {
        fault: CheckFault::Unreachable,
        reason: "timeout".to_string(),
    })) {
        Command::Report { ending, result } => {
            assert_eq!(ending, JobEnding::Attempt(Ending::PresumedPlaced(CheckFault::Unreachable)));
            assert!(result.success);
            assert_eq!(result.message, "抢票成功，但获取支付信息失败，请前往B站订单中心支付");
            assert_eq!(result.order_id, Some("-7".to_string()));
            assert_eq!(result.pay_token, Some("p".to_string()));
            assert!(result.confirm_result.is_some());
            assert!(result.pay_result.is_none());
        }
        _ => panic!("expected a report"),
    }
}

#[test]
fn risk_verification_keeps_the_challenge_and_reports_the_reason() {
    let mut req = request(1, "5001");
    req.config.max_token_retry = 1;
    let (mut job, _) = Job::new(req);
    let mut challenge = refusal(-401, "risk");
    challenge.risk_param = Some("{\"v\":1}".to_string());
    let c = job.handle(JobEvent::Attempt(Event::TokenRefused(challenge)));
    assert!(is_work(&c, Phase::RiskVerification, 0));
    assert_eq!(job.attempt.risk.as_ref().unwrap().risk_param, Some("{\"v\":1}".to_string()));
    match job.handle(JobEvent::Attempt(Event::RiskFailed("验证未通过".to_string()))) {
        Command::Report { ending, result } => {
            assert_eq!(ending, JobEnding::Attempt(Ending::RiskUnsolved));
            assert!(!result.success);
            assert_eq!(result.message, "验证码处理失败，已达最大重试次数: 验证未通过");
        }
        _ => panic!("expected a report"),
    }
    assert!(job.attempt.risk.is_none());
}

#[test]
fn terminal_token_refusal_reports_code_and_message() {
    let (mut job, _) = Job::new(request(1, "5001"));
    match job.handle(JobEvent::Attempt(Event::TokenRefused(refusal(100039, "停售")))) {
        Command::Report { result, .. } => {
            assert!(!result.success);
            assert_eq!(result.message, "获取token失败，错误代码: 100039，错误信息：停售");
        }
        _ => panic!("expected a report"),
    }
}

#[test]
fn result_messages_are_worded_per_ending() {
    assert_eq!(ending_text(Ending::Purchased, ""), "抢票成功");
    assert_eq!(ending_text(Ending::ConfirmExhausted, "x"), "确认订单失败，已达最大重试次数");
    assert_eq!(ending_text(Ending::TokenRefused(-5), "m"), "获取token失败，错误代码: -5，错误信息：m");
    assert_eq!(
        ending_text(Ending::PresumedPlaced(CheckFault::Unparsable), ""),
        "抢票成功，但解析支付信息失败，请前往B站订单中心支付"
    );
    assert_eq!(order_refusal_text(100017), "当前项目/类型/场次已停售");
    assert_eq!(order_refusal_text(100016), "当前项目/类型/场次已停售");
    assert_eq!(order_refusal_text(83000004), "没有配置购票人信息！请重新配置");
    assert_eq!(order_refusal_text(100048), "购票人存在待付款订单，请前往支付或取消后重新下单");
    assert_eq!(order_refusal_text(100039), "活动收摊啦,下次要快点哦");
    assert_eq!(order_refusal_text(999), "程序内部错误！传参错误");
    assert_eq!(order_refusal_text(4711), "下单失败，未知错误码：4711 可以提出issue修复该问题");
    assert_eq!(ending_text(Ending::OrderRefused(1), ""), order_refusal_text(1));
}

#[test]
fn an_attempt_alone_follows_the_same_course() {
    let budget = RetryBudget {
        max_token_retry: 2,
        max_confirm_retry: 2,
        max_order_retry: 2,
        max_fake_check_retry: 2,
        retry_interval_ms: 50,
    };
    let mut attempt = Attempt::new("t9".to_string(), 7, budget, GrabMode::Direct);
    assert!(matches!(
        attempt.advance(Event::ConfirmFailed("early".to_string())),
        Step::Continue(Phase::AcquireToken)
    ));
    assert!(matches!(
        attempt.advance(Event::TokenGranted { token: "a".to_string(), ptoken: "b".to_string() }),
        Step::Continue(Phase::ConfirmOrder)
    ));
    assert!(matches!(
        attempt.advance(Event::ConfirmFailed("no".to_string())),
        Step::Continue(Phase::ConfirmOrder)
    ));
    match attempt.advance(Event::ConfirmFailed("no".to_string())) {
        Step::Done { ending, result } => {
            assert_eq!(ending, Ending::ConfirmExhausted);
            assert_eq!(result.task_id, "t9");
            assert_eq!(result.uid, 7);
            assert!(!result.success);
        }
        _ => panic!("expected the end"),
    }
    assert!(matches!(attempt.advance(Event::RiskPassed), Step::Halted));
}

#[test]
fn unknown_mode_reports_one_failure_and_does_nothing_else() {
    for mode in [3u8, 9, 255] {
        let (mut job, first) = Job::new(request(mode, "5001"));
        assert!(job.is_finished());
        match first {
            Command::Report { ending, result } => {
                assert_eq!(ending, JobEnding::UnknownMode);
                assert!(!result.success);
                assert_eq!(result.task_id, "task-1");
                assert_eq!(result.uid, 42);
                assert_eq!(result.message, "未知模式");
                assert!(result.order_id.is_none() && result.pay_token.is_none());
                assert!(result.confirm_result.is_none() && result.pay_result.is_none());
            }
            _ => panic!("expected a report"),
        }
        assert!(matches!(job.handle(JobEvent::Woke), Command::Stop));
        assert!(matches!(job.handle(JobEvent::Countdown(Some(5))), Command::Stop));
        assert!(matches!(
            job.handle(JobEvent::Attempt(Event::TokenGranted { token: "t".to_string(), ptoken: String::new() })),
            Command::Stop
        ));
    }
    let start = handle_grab_ticket_request(request(9, "5001"));
    assert!(start.job.is_finished());
    assert!(matches!(start.command, Command::Report { ending: JobEnding::UnknownMode, .. }));
    assert_eq!((start.seed.sale_begin, start.seed.offset), (0, 0));
}

#[test]
fn a_job_takes_over_the_requests_data() {
    let mut req = request(1, "5001");
    req.is_hot = true;
    req.id_bind = 2;
    req.count = 3;
    req.skip_words = Some(vec!["vip".to_string()]);
    let start = handle_grab_ticket_request(req);
    let job = start.job;
    assert!(job.is_hot);
    assert_eq!(job.id_bind, 2);
    assert_eq!(job.count, 3);
    assert_eq!(job.skip_words, Some(vec!["vip".to_string()]));
    assert!(job.targets.is_empty());
    assert!(job.attempt.confirm.is_none() && job.attempt.risk.is_none());
    assert_eq!(job.attempt.mode, GrabMode::Direct);
    assert_eq!((job.project_id.as_str(), job.screen_id.as_str(), job.ticket_id.as_str()), ("1001", "2001", "5001"));
}

#[test]
fn job_setup_seeds_the_token_generator() {
    let mut req = request(0, "5001");
    req.project_info = Some(listing(1, false, Vec::new()));
    let start = handle_grab_ticket_request(req);
    assert!(matches!(start.command, Command::FetchCountdown));
    assert_eq!(start.seed.sale_begin, 1_700_000_000);
    assert_eq!(start.seed.offset, 0);
    assert!((2000..10000).contains(&start.seed.salt));
    let start = handle_grab_ticket_request(request(1, "5001"));
    assert!(start.seed.sale_begin > 1_600_000_000);
    let salts: Vec<i64> = (0..64).map(|_| token_seed(5).salt).collect();
    assert!(salts.iter().all(|s| (2000..10000).contains(s)));
    assert!(salts.iter().any(|s| *s != salts[0]));
}

#[test]
fn timed_job_waits_then_attempts() {
    let (mut job, first) = Job::new(request(0, "5001"));
    assert!(matches!(first, Command::FetchCountdown));
    assert!(matches!(job.handle(JobEvent::Countdown(Some(25))), Command::Sleep(15_000)));
    for _ in 0..9 {
        assert!(matches!(job.handle(JobEvent::Woke), Command::Sleep(1_000)));
    }
    assert!(matches!(job.handle(JobEvent::Woke), Command::Sleep(800)));
    let c = job.handle(JobEvent::Woke);
    assert!(is_work(&c, Phase::AcquireToken, 0));
    assert_eq!(job.state.stage, Stage::Attempting);
}

#[test]
fn timed_job_with_open_sale_attempts_at_once() {
    let (mut job, _) = Job::new(request(0, "5001"));
    let c = job.handle(JobEvent::Countdown(Some(-3)));
    assert!(is_work(&c, Phase::AcquireToken, 0));
}

#[test]
fn timed_job_without_countdown_reports_failure() {
    let (mut job, _) = Job::new(request(0, "5001"));
    match job.handle(JobEvent::Countdown(None)) {
        Command::Report { ending, result } => {
            assert_eq!(ending, JobEnding::CountdownUnavailable);
            assert!(!result.success);
            assert_eq!(result.task_id, "task-1");
            assert_eq!(result.message, "获取倒计时失败: 获取开始时间失败，项目信息为空");
        }
        _ => panic!("expected a report"),
    }
    assert!(job.is_finished());
}

#[test]
fn idle_leak_poll_attempts_nothing_and_polls_again() {
    let (mut job, first) = Job::new(request(2, ""));
    assert!(matches!(first, Command::FetchListing));
    let idle = || {
        listing(
            1,
            false,
            vec![
                screen(1, false, vec![ticket(11, true, "Day 1", "Standard")]),
                screen(2, false, Vec::new()),
            ],
        )
    };
    for _ in 0..5 {
        let before = (job.state, job.attempt.progress);
        assert!(matches!(job.handle(JobEvent::Listing(idle())), Command::Sleep(2_000)));
        assert!(job.current_target().is_none());
        assert!(matches!(job.handle(JobEvent::Woke), Command::FetchListing));
        assert_eq!((job.state, job.attempt.progress), before);
    }
}

#[test]
fn leak_job_rejects_projects_without_real_name_binding() {
    for id_bind in [0usize, 3] {
        let (mut job, _) = Job::new(request(2, ""));
        let project = listing(id_bind, false, vec![screen(1, true, vec![ticket(11, true, "a", "b")])]);
        match job.handle(JobEvent::Listing(project)) {
            Command::Report { ending, result } => {
                assert_eq!(ending, JobEnding::LeakUnsupported);
                assert!(!result.success);
                assert_eq!(result.message, "暂不支持抢非实名票捡漏模式");
            }
            _ => panic!("expected a report"),
        }
    }
}

#[test]
fn leak_job_goes_through_its_targets_and_polls_again() {
    let mut req = request(2, "");
    req.config.max_order_retry = 1;
    req.skip_words = Some(vec!["VIP".to_string()]);
    let (mut job, _) = Job::new(req);
    let project = listing(
        2,
        true,
        vec![
            screen(1, true, vec![ticket(11, true, "Day 1", "Standard"), ticket(12, true, "Day 1", "vip seat")]),
            screen(2, false, vec![ticket(21, true, "Day 2", "Standard")]),
            screen(3, true, vec![ticket(31, false, "Day 3", "Standard"), ticket(32, true, "Day 3", "Late")]),
        ],
    );
    let c = job.handle(JobEvent::Listing(project));
    assert!(is_work(&c, Phase::AcquireToken, 0));
    assert!(job.is_hot);
    assert_eq!(job.id_bind, 2);
    assert_eq!(job.targets.len(), 2);
    let t = job.current_target().unwrap();
    assert_eq!((t.screen_id, t.ticket_id, t.sale_start), (1, 11, 1_700_000_001));
    assert_eq!(job.request_ids(), ("1".to_string(), "11".to_string()));

    job.handle(JobEvent::Attempt(Event::TokenGranted { token: "t".to_string(), ptoken: "p".to_string() }));
    job.handle(JobEvent::Attempt(Event::Confirmed(confirm())));
    let c = job.handle(JobEvent::Attempt(Event::OrderRejected(100009)));
    assert!(is_work(&c, Phase::AcquireToken, 0));
    assert_eq!(job.request_ids(), ("3".to_string(), "32".to_string()));

    job.handle(JobEvent::Attempt(Event::TokenGranted { token: "t".to_string(), ptoken: "p".to_string() }));
    job.handle(JobEvent::Attempt(Event::Confirmed(confirm())));
    let c = job.handle(JobEvent::Attempt(Event::OrderRejected(100009)));
    assert!(matches!(c, Command::Sleep(2_000)));
    assert!(job.current_target().is_none());
    assert!(matches!(job.handle(JobEvent::Woke), Command::FetchListing));
    assert!(!job.is_finished());
}

#[test]
fn leak_job_retries_the_listing_after_a_second() {
    let (mut job, _) = Job::new(request(2, ""));
    assert!(matches!(job.handle(JobEvent::ListingFailed("503".to_string())), Command::Sleep(1_000)));
    assert!(matches!(job.handle(JobEvent::Woke), Command::FetchListing));
}

#[test]
fn events_out_of_turn_are_waited_out() {
    let (mut job, _) = Job::new(request(0, "5001"));
    assert!(matches!(job.handle(JobEvent::Woke), Command::Wait));
    assert!(matches!(job.handle(JobEvent::Attempt(Event::RiskPassed)), Command::Wait));
    assert!(matches!(job.handle(JobEvent::Listing(listing(1, false, Vec::new()))), Command::Wait));
    assert_eq!(job.state.stage, Stage::AwaitingCountdown);
}

#[test]
fn a_purchase_is_announced() {
    let (mut job, _) = Job::new(request(1, "5001"));
    job.handle(JobEvent::Attempt(Event::TokenGranted { token: "t".to_string(), ptoken: String::new() }));
    job.handle(JobEvent::Attempt(Event::Confirmed(confirm())));
    job.handle(JobEvent::Attempt(Event::OrderCreated { order_id: 77, pay_token: "p".to_string() }));
    let result = match job.handle(JobEvent::Attempt(Event::OrderGenuine(pay()))) {
        Command::Report { result, .. } => result,
        _ => panic!("expected a report"),
    };
    let notice = success_notice(Ending::Purchased, &result).unwrap();
    assert_eq!(notice.title, "抢票成功: Expo");
    assert_eq!(notice.message, "项目: Expo\n场次: Day 1\n票种: Standard\n订单号: 77\n请尽快支付！");
    assert_eq!(
        notice.jump_url,
        Some(
            "bilibili://mall/web?url=https://mall.bilibili.com/neul-next/ticket/orderDetail.html?order_id=77"
                .to_string()
        )
    );
    let soft = success_notice(Ending::PresumedPlaced(CheckFault::Unparsable), &result).unwrap();
    assert_eq!(
        soft.message,
        "项目: Expo\n场次: Day 1\n票种: Standard\n订单号: 77\n状态: 解析支付信息失败，请前往订单中心支付"
    );
    assert!(success_notice(Ending::PresumedPlaced(CheckFault::Unreachable), &result).is_none());
    assert!(success_notice(Ending::OrderExhausted, &result).is_none());
}

#[test]
fn a_target_seeds_the_generator_with_its_own_sale_start() {
    let seed = target_seed(Target { screen_id: 1, ticket_id: 2, sale_start: 1_700_000_003 });
    assert_eq!((seed.sale_begin, seed.offset), (1_700_000_003, 0));
    assert!((2000..10000).contains(&seed.salt));
    let seed = target_seed(Target { screen_id: 1, ticket_id: 2, sale_start: usize::MAX });
    assert_eq!(seed.sale_begin, i64::MAX);
}
