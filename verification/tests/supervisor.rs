use ticket_rush::config::{CustomConfig, PushConfig};
use ticket_rush::login::QrCodeLoginStatus;
use ticket_rush::supervisor::{TaskManagerImpl, TaskMessage};
use ticket_rush::taskmanager::{
    GetTicketInfoRequest, GrabTicketRequest, GrabTicketResult, PushRequest, PushRequestResult, PushType,
    QrCodeLoginRequest, Task, TaskQrCodeLoginResult, TaskRequest, TaskResult, TaskStatus,
};

fn grab_request(task_id: &str) -> TaskRequest {
    TaskRequest::GrabTicketRequest(GrabTicketRequest {
        task_id: task_id.to_string(),
        uid: 42,
        project_id: "1001".to_string(),
        screen_id: "2001".to_string(),
        ticket_id: "5001".to_string(),
        count: 1,
        buyer_info: Vec::new(),
        no_bind_buyer_info: None,
        grab_mode: 1,
        config: CustomConfig::default(),
        push_self: PushConfig::default(),
        project_info: None,
        id_bind: 1,
        status: TaskStatus::Pending,
        start_time: None,
        is_hot: false,
        skip_words: None,
    })
}

fn grab_result(task_id: &str, success: bool, message: &str) -> TaskResult {
    TaskResult::GrabTicketResult(GrabTicketResult {
        task_id: task_id.to_string(),
        uid: 42,
        success,
        message: message.to_string(),
        order_id: None,
        pay_token: None,
        confirm_result: None,
        pay_result: None,
    })
}

fn result_id(result: &TaskResult) -> String {
    match result {
        TaskResult::GrabTicketResult(r) => r.task_id.clone(),
        TaskResult::PushResult(r) => r.task_id.clone(),
        TaskResult::QrCodeLoginResult(r) => r.task_id.clone(),
        _ => String::new(),
    }
}

fn status_name(status: Option<TaskStatus>) -> String {
    format!("{:?}", status)
}

#[test]
fn a_fresh_supervisor_knows_nothing() {
    let mut m = TaskManagerImpl::new();
    assert!(m.get_task_status("x").is_none());
    assert!(m.get_results().is_empty());
    assert!(m.take_messages().is_empty());
    assert_eq!(m.cancel_task("x"), Err("任务不存在".to_string()));
}

#[test]
fn submission_keeps_the_requests_own_identifier() {
    let mut m = TaskManagerImpl::new();
    assert_eq!(m.submit_task(grab_request("42-1700000000000")), Ok("42-1700000000000".to_string()));
    assert_eq!(status_name(m.get_task_status("42-1700000000000")), "Some(Pending)");
    match &m.running_tasks[0] {
        Task::GrabTicketTask(t) => {
            assert_eq!(t.uid, 42);
            assert_eq!(t.project_id, "1001");
            assert_eq!(t.grab_mode, 1);
            assert!(t.start_time.is_some());
        }
        _ => panic!("expected a grab task"),
    }
    let messages = m.take_messages();
    assert_eq!(messages.len(), 1);
    match &messages[0] {
        TaskMessage::SubmitTask(id, TaskRequest::GrabTicketRequest(r)) => {
            assert_eq!(id, "42-1700000000000");
            assert_eq!(r.ticket_id, "5001");
        }
        _ => panic!("expected a submission"),
    }
}

#[test]
fn submission_without_identifier_draws_a_fresh_one() {
    let mut m = TaskManagerImpl::new();
    let a = m.submit_task(grab_request("")).unwrap();
    let b = m.submit_task(grab_request("")).unwrap();
    assert_eq!(a.len(), 36);
    assert_eq!(b.len(), 36);
    assert_ne!(a, b);
    assert_eq!(status_name(m.get_task_status(&a)), "Some(Pending)");
    assert_eq!(status_name(m.get_task_status(&b)), "Some(Pending)");
    assert_eq!(m.running_tasks.len(), 2);
}

#[test]
fn submission_under_a_given_fresh_identifier() {
    let mut m = TaskManagerImpl::new();
    let request = TaskRequest::QrCodeLoginRequest(QrCodeLoginRequest {
        qrcode_key: "k".to_string(),
        qrcode_url: "u".to_string(),
        user_agent: None,
    });
    assert_eq!(m.submit_task_as(request, "fresh-1".to_string()), Ok("fresh-1".to_string()));
    assert_eq!(status_name(m.get_task_status("fresh-1")), "Some(Pending)");
    assert_eq!(
        m.submit_task_as(grab_request("own"), "fresh-2".to_string()),
        Ok("own".to_string())
    );
    assert!(m.get_task_status("fresh-2").is_none());
}

#[test]
fn a_submission_never_takes_an_identifier_that_is_in_the_books() {
    let mut m = TaskManagerImpl::new();
    m.submit_task_as(grab_request("a"), "d1".to_string()).unwrap();
    m.mark_running("a");
    m.cancel_task("a").unwrap();
    m.take_messages();
    assert_eq!(m.submit_task_as(grab_request("a"), "d2".to_string()), Ok("d2".to_string()));
    assert_eq!(status_name(m.get_task_status("a")), "Some(Cancelled)");
    assert_eq!(status_name(m.get_task_status("d2")), "Some(Pending)");
    assert_eq!(m.running_tasks.len(), 2);
    let messages = m.take_messages();
    assert!(matches!(&messages[0], TaskMessage::SubmitTask(id, _) if id == "d2"));
    assert_eq!(
        m.submit_task_as(grab_request("a"), "d2".to_string()),
        Err("无法提交任务: 任务ID已存在".to_string())
    );
    assert_eq!(
        m.submit_task_as(grab_request(""), "a".to_string()),
        Err("无法提交任务: 任务ID已存在".to_string())
    );
    assert_eq!(
        m.submit_task_as(grab_request(""), String::new()),
        Err("无法提交任务: 任务ID已存在".to_string())
    );
    assert_eq!(m.running_tasks.len(), 2);
    assert!(m.take_messages().is_empty());
    let fresh = m.submit_task(grab_request("a")).unwrap();
    assert_eq!(fresh.len(), 36);
    assert_eq!(status_name(m.get_task_status("a")), "Some(Cancelled)");
    assert_eq!(status_name(m.get_task_status(&fresh)), "Some(Pending)");
}

#[test]
fn ticket_information_tasks_start_out_pending_like_all_others() {
    let mut m = TaskManagerImpl::new();
    let request = TaskRequest::GetTicketInfoRequest(GetTicketInfoRequest {
        uid: 1,
        task_id: "info".to_string(),
        project_id: "1001".to_string(),
    });
    m.submit_task(request).unwrap();
    assert_eq!(status_name(m.get_task_status("info")), "Some(Pending)");
}

#[test]
fn resubmission_leaves_the_older_task_alone() {
    let mut m = TaskManagerImpl::new();
    m.submit_task(grab_request("a")).unwrap();
    m.submit_task(grab_request("b")).unwrap();
    m.cancel_task("a").unwrap();
    let again = m.submit_task(grab_request("a")).unwrap();
    assert_ne!(again, "a");
    assert_eq!(m.running_tasks.len(), 3);
    assert_eq!(status_name(m.get_task_status("a")), "Some(Cancelled)");
    assert_eq!(status_name(m.get_task_status("b")), "Some(Pending)");
    assert_eq!(status_name(m.get_task_status(&again)), "Some(Pending)");
}

#[test]
fn tasks_go_from_pending_to_running_to_settled() {
    let mut m = TaskManagerImpl::new();
    m.submit_task(grab_request("a")).unwrap();
    m.mark_running("a");
    assert_eq!(status_name(m.get_task_status("a")), "Some(Running)");
    m.mark_running("a");
    assert_eq!(status_name(m.get_task_status("a")), "Some(Running)");
    assert!(m.accept_result(grab_result("a", true, "抢票成功")));
    assert_eq!(status_name(m.get_task_status("a")), "Some(Completed(true))");
    m.mark_running("a");
    assert_eq!(status_name(m.get_task_status("a")), "Some(Completed(true))");
    m.mark_running("unknown");
    assert!(m.get_task_status("unknown").is_none());
}

#[test]
fn a_failed_acquisition_settles_as_failed_with_its_message() {
    let mut m = TaskManagerImpl::new();
    m.submit_task(grab_request("a")).unwrap();
    assert!(m.accept_result(grab_result("a", false, "确认订单失败，已达最大重试次数")));
    assert_eq!(
        status_name(m.get_task_status("a")),
        format!("{:?}", Some(TaskStatus::Failed("确认订单失败，已达最大重试次数".to_string())))
    );
    assert!(m.accept_result(grab_result("a", true, "late")));
    assert!(status_name(m.get_task_status("a")).contains("Failed"));
}

#[test]
fn cancellation_marks_the_task_and_tells_the_worker() {
    let mut m = TaskManagerImpl::new();
    m.submit_task(grab_request("a")).unwrap();
    m.mark_running("a");
    m.take_messages();
    assert_eq!(m.cancel_task("a"), Ok(()));
    assert_eq!(status_name(m.get_task_status("a")), "Some(Cancelled)");
    let messages = m.take_messages();
    assert_eq!(messages.len(), 1);
    assert!(matches!(&messages[0], TaskMessage::CancelTask(id) if id == "a"));
}

#[test]
fn a_cancelled_task_emits_no_further_result() {
    let mut m = TaskManagerImpl::new();
    m.submit_task(grab_request("a")).unwrap();
    m.submit_task(grab_request("b")).unwrap();
    m.mark_running("a");
    m.mark_running("b");
    m.cancel_task("a").unwrap();
    assert!(!m.accept_result(grab_result("a", true, "抢票成功")));
    assert!(m.accept_result(grab_result("b", true, "抢票成功")));
    assert!(!m.accept_result(grab_result("a", false, "late")));
    m.mark_running("a");
    assert_eq!(status_name(m.get_task_status("a")), "Some(Cancelled)");
    let results = m.get_results();
    assert_eq!(results.iter().map(result_id).collect::<Vec<_>>(), vec!["b".to_string()]);
    assert!(!m.accept_result(grab_result("a", true, "later")));
    assert!(m.get_results().is_empty());
    assert_eq!(status_name(m.get_task_status("a")), "Some(Cancelled)");
}

#[test]
fn results_before_cancellation_are_still_handed_out() {
    let mut m = TaskManagerImpl::new();
    m.submit_task(grab_request("a")).unwrap();
    assert!(m.accept_result(grab_result("a", true, "抢票成功")));
    assert_eq!(m.cancel_task("a"), Ok(()));
    assert_eq!(status_name(m.get_task_status("a")), "Some(Completed(true))");
    assert_eq!(m.get_results().len(), 1);
}

#[test]
fn results_keep_their_order_and_are_drained_once() {
    let mut m = TaskManagerImpl::new();
    m.submit_task(grab_request("a")).unwrap();
    m.submit_task(grab_request("b")).unwrap();
    for id in ["a", "stranger", "b"] {
        assert!(m.accept_result(grab_result(id, true, "ok")));
    }
    let ids: Vec<String> = m.get_results().iter().map(result_id).collect();
    assert_eq!(ids, vec!["a".to_string(), "stranger".to_string(), "b".to_string()]);
    assert!(m.get_results().is_empty());
}

#[test]
fn a_login_under_way_settles_nothing() {
    let mut m = TaskManagerImpl::new();
    let request = TaskRequest::QrCodeLoginRequest(QrCodeLoginRequest {
        qrcode_key: "k".to_string(),
        qrcode_url: "u".to_string(),
        user_agent: None,
    });
    m.submit_task_as(request, "q".to_string()).unwrap();
    let update = |status: QrCodeLoginStatus| {
        TaskResult::QrCodeLoginResult(TaskQrCodeLoginResult {
            task_id: "q".to_string(),
            status,
            cookie: None,
            error: None,
            qrcode_key: None,
        })
    };
    assert!(m.accept_result(update(QrCodeLoginStatus::Scanning)));
    assert_eq!(status_name(m.get_task_status("q")), "Some(Pending)");
    assert!(m.accept_result(update(QrCodeLoginStatus::Expired)));
    assert_eq!(status_name(m.get_task_status("q")), "Some(Completed(false))");
    assert_eq!(m.get_results().len(), 2);
}

#[test]
fn push_results_settle_their_task() {
    let mut m = TaskManagerImpl::new();
    let request = TaskRequest::PushRequest(PushRequest {
        title: "t".to_string(),
        message: "m".to_string(),
        jump_url: None,
        push_config: PushConfig::default(),
        push_type: PushType::All,
    });
    let id = m.submit_task(request).unwrap();
    assert!(m.accept_result(TaskResult::PushResult(PushRequestResult {
        task_id: id.clone(),
        success: true,
        message: "1 个渠道推送成功".to_string(),
        push_type: PushType::All,
    })));
    assert_eq!(status_name(m.get_task_status(&id)), "Some(Completed(true))");
}

#[test]
fn after_shutdown_nothing_is_submitted_or_cancelled() {
    let mut m = TaskManagerImpl::new();
    m.submit_task(grab_request("a")).unwrap();
    m.take_messages();
    m.shutdown();
    assert!(m.closed);
    let messages = m.take_messages();
    assert_eq!(messages.len(), 1);
    assert!(matches!(&messages[0], TaskMessage::Shutdown));
    assert_eq!(m.submit_task(grab_request("b")), Err("无法提交任务: channel closed".to_string()));
    assert!(m.get_task_status("b").is_none());
    assert_eq!(m.running_tasks.len(), 1);
    assert_eq!(m.cancel_task("a"), Err("无法取消任务: channel closed".to_string()));
    assert_eq!(m.cancel_task("zzz"), Err("任务不存在".to_string()));
    assert_eq!(status_name(m.get_task_status("a")), "Some(Pending)");
    assert!(m.take_messages().is_empty());
}

#[test]
fn a_copied_task_keeps_its_start_time() {
    let mut m = TaskManagerImpl::new();
    m.submit_task(grab_request("a")).unwrap();
    match &m.running_tasks[0] {
        Task::GrabTicketTask(t) => {
            let copy = t.clone();
            assert!(copy.start_time.is_some());
            assert_eq!(copy.start_time, t.start_time);
            assert_eq!(copy.task_id, "a");
        }
        _ => panic!("expected a grab task"),
    }
}
