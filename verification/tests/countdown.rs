use ticket_rush::countdown::{
    begin_wait, get_countdown, next_wait, normalize_sale_begin, remaining_seconds, resolve_now,
    seconds_to_millis, WaitState, WaitStep,
};
use ticket_rush::ticket::TicketInfo;

fn project(sale_begin: i64) -> TicketInfo {
    TicketInfo {
        id: 1,
        name: "demo".to_string(),
        is_sale: 1,
        start_time: 0,
        end_time: 0,
        pick_seat: 0,
        project_type: 1,
        express_fee: 0,
        sale_begin,
        sale_end: 0,
        count_down: 0,
        screen_list: Vec::new(),
        sale_flag_number: 2,
        sale_flag: String::new(),
        is_free: false,
        performance_desc: None,
        id_bind: 1,
        hot_project: false,
    }
}

fn local_now() -> i64 {
    std::time::SystemTime::now().duration_since(std::time::UNIX_EPOCH).unwrap().as_secs() as i64
}

fn total_wait(remaining_ms: i64) -> (u64, usize) {
    let mut state = begin_wait(remaining_ms);
    let mut total: u64 = 0;
    let mut steps: usize = 0;
    while state != WaitState::Open {
        let step = next_wait(state);
        total += step.sleep_ms;
        steps += 1;
        state = step.next;
    }
    (total, steps)
}

#[test]
fn second_timestamps_are_left_alone() {
    assert_eq!(normalize_sale_begin(1_700_000_000), 1_700_000_000);
    assert_eq!(normalize_sale_begin(10_000_000_000), 10_000_000_000);
    assert_eq!(normalize_sale_begin(0), 0);
    assert_eq!(normalize_sale_begin(-5), -5);
}

#[test]
fn millisecond_timestamps_are_brought_to_seconds() {
    assert_eq!(normalize_sale_begin(1_700_000_000_000), 1_700_000_000);
    assert_eq!(normalize_sale_begin(1_700_000_000_999), 1_700_000_000);
    assert_eq!(normalize_sale_begin(10_000_000_001), 10_000_000);
}

#[test]
fn millisecond_and_second_sale_begin_count_down_alike() {
    let now = 1_699_999_000;
    assert_eq!(
        remaining_seconds(1_700_000_000_000, Some(now), 0),
        remaining_seconds(1_700_000_000, Some(now), 0)
    );
    assert_eq!(remaining_seconds(1_700_000_000_000, Some(now), 0), 1000);
    assert_eq!(
        remaining_seconds(1_700_000_000_000, None, now),
        remaining_seconds(1_700_000_000, None, now)
    );
}

#[test]
fn remote_clock_is_preferred() {
    assert_eq!(resolve_now(Some(500), 900), 500);
    assert_eq!(remaining_seconds(1000, Some(500), 900), 500);
}

#[test]
fn failed_or_zero_remote_clock_falls_back_to_local() {
    assert_eq!(resolve_now(None, 900), 900);
    assert_eq!(resolve_now(Some(0), 900), 900);
    assert_eq!(remaining_seconds(1000, None, 900), 100);
    assert_eq!(remaining_seconds(1000, Some(0), 900), 100);
}

#[test]
fn remaining_is_negative_after_the_opening() {
    assert_eq!(remaining_seconds(1000, Some(1500), 0), -500);
}

#[test]
fn remaining_is_capped_at_the_ends_of_the_type() {
    assert_eq!(remaining_seconds(i64::MIN, Some(i64::MAX), 0), i64::MIN);
    assert_eq!(remaining_seconds(10_000_000_000, Some(i64::MIN), 0), i64::MAX);
}

#[test]
fn countdown_without_project_data_fails() {
    let res = get_countdown(&None, Some(1_700_000_000));
    assert_eq!(res, Err("获取开始时间失败，项目信息为空".to_string()));
}

#[test]
fn countdown_with_remote_clock_is_exact() {
    let info = Some(project(1_700_000_025));
    assert_eq!(get_countdown(&info, Some(1_700_000_000)), Ok(25));
    let info = Some(project(1_700_000_025_000));
    assert_eq!(get_countdown(&info, Some(1_700_000_000)), Ok(25));
}

#[test]
fn countdown_falls_back_to_local_clock_within_a_second() {
    let info = Some(project(local_now() + 25));
    let left = get_countdown(&info, None).unwrap();
    assert!((24..=26).contains(&left), "left = {}", left);
    let info = Some(project(local_now() + 25));
    let left = get_countdown(&info, Some(0)).unwrap();
    assert!((24..=26).contains(&left), "left = {}", left);
}

#[test]
fn seconds_become_milliseconds() {
    assert_eq!(seconds_to_millis(25), 25_000);
    assert_eq!(seconds_to_millis(-3), -3_000);
    assert_eq!(seconds_to_millis(i64::MAX), i64::MAX);
    assert_eq!(seconds_to_millis(i64::MIN), i64::MIN);
}

#[test]
fn an_open_sale_needs_no_wait() {
    assert_eq!(begin_wait(0), WaitState::Open);
    assert_eq!(begin_wait(-1), WaitState::Open);
    assert_eq!(begin_wait(1), WaitState::Counting(1));
    assert_eq!(next_wait(WaitState::Open), WaitStep { sleep_ms: 0, next: WaitState::Open });
}

#[test]
fn far_from_the_opening_the_wait_is_coarse() {
    assert_eq!(
        next_wait(WaitState::Counting(25_000)),
        WaitStep { sleep_ms: 15_000, next: WaitState::Counting(10_000) }
    );
    assert_eq!(
        next_wait(WaitState::Counting(20_001)),
        WaitStep { sleep_ms: 15_000, next: WaitState::Counting(5_001) }
    );
}

#[test]
fn close_to_the_opening_the_wait_is_fine() {
    assert_eq!(
        next_wait(WaitState::Counting(20_000)),
        WaitStep { sleep_ms: 1_000, next: WaitState::Counting(19_000) }
    );
    assert_eq!(
        next_wait(WaitState::Counting(1_301)),
        WaitStep { sleep_ms: 1_000, next: WaitState::Counting(301) }
    );
}

#[test]
fn the_wait_ends_with_a_short_sleep() {
    assert_eq!(next_wait(WaitState::Counting(1_300)), WaitStep { sleep_ms: 800, next: WaitState::Open });
    assert_eq!(next_wait(WaitState::Counting(1)), WaitStep { sleep_ms: 800, next: WaitState::Open });
}

#[test]
fn a_wait_of_25_seconds_sleeps_15_then_9_times_1_then_800_ms() {
    let (total, steps) = total_wait(25_000);
    assert_eq!(total, 15_000 + 9_000 + 800);
    assert_eq!(steps, 11);
}

#[test]
fn the_wait_stays_within_half_a_second_of_the_countdown() {
    for remaining in [1_301i64, 2_000, 5_000, 19_999, 20_000, 20_001, 35_000, 61_234, 3_600_000] {
        let (total, _) = total_wait(remaining);
        let total = total as i64;
        assert!(remaining - 500 <= total && total < remaining + 500, "remaining = {}", remaining);
    }
    for remaining in [1i64, 500, 1_300] {
        assert_eq!(total_wait(remaining).0, 800);
    }
    assert_eq!(total_wait(0), (0, 0));
}
