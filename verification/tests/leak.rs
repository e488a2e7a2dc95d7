use ticket_rush::leak::{eligible, leak_targets, lowered_words, mentions_any, supports_leak, Target};
use ticket_rush::ticket::{SaleFlag, ScreenInfo, ScreenTicketInfo, TicketInfo};

fn ticket(id: usize, clickable: bool, screen_name: &str, desc: &str) -> ScreenTicketInfo {
    ScreenTicketInfo {
        saleStart: 0,
        saleEnd: 0,
        id,
        project_id: 1001,
        price: 100,
        desc: desc.to_string(),
        sale_start: String::new(),
        sale_end: String::new(),
        kind: 1,
        sale_type: 1,
        is_sale: 1,
        num: 1,
        sale_flag: SaleFlag::default(),
        clickable,
        sale_flag_number: 2,
        screen_name: screen_name.to_string(),
    }
}

fn screen(id: usize, clickable: bool, tickets: Vec<ScreenTicketInfo>) -> ScreenInfo {
    ScreenInfo {
        sale_flag: SaleFlag::default(),
        id,
        start_time: 0,
        name: String::new(),
        ticket_type: 1,
        screen_type: 1,
        delivery_type: 1,
        pick_seat: 0,
        ticket_list: tickets,
        clickable,
        sale_end: 0,
        sale_start: 100 + id,
        sale_flag_number: 2,
        show_date: String::new(),
    }
}

fn listing(screens: Vec<ScreenInfo>) -> TicketInfo {
    TicketInfo {
        id: 1001,
        name: "Expo".to_string(),
        is_sale: 1,
        start_time: 0,
        end_time: 0,
        pick_seat: 0,
        project_type: 1,
        express_fee: 0,
        sale_begin: 1_700_000_000,
        sale_end: 0,
        count_down: 0,
        screen_list: screens,
        sale_flag_number: 2,
        sale_flag: String::new(),
        is_free: false,
        performance_desc: None,
        id_bind: 1,
        hot_project: false,
    }
}

fn words(list: &[&str]) -> Option<Vec<String>> {
    Some(list.iter().map(|w| w.to_string()).collect())
}

#[test]
fn only_real_name_projects_can_be_scalped() {
    assert!(supports_leak(1));
    assert!(supports_leak(2));
    assert!(!supports_leak(0));
    assert!(!supports_leak(3));
    assert!(!supports_leak(999));
}

#[test]
fn a_listing_without_clickable_screens_has_no_targets() {
    let project = listing(vec![
        screen(1, false, vec![ticket(11, true, "a", "b"), ticket(12, true, "a", "c")]),
        screen(2, false, Vec::new()),
    ]);
    assert!(leak_targets(&project, &None).is_empty());
    assert!(leak_targets(&project, &words(&["x"])).is_empty());
    assert!(leak_targets(&listing(Vec::new()), &None).is_empty());
}

#[test]
fn targets_come_in_listing_order() {
    let project = listing(vec![
        screen(1, true, vec![ticket(11, true, "a", "b"), ticket(12, false, "a", "c"), ticket(13, true, "a", "d")]),
        screen(2, false, vec![ticket(21, true, "a", "b")]),
        screen(3, true, vec![ticket(31, true, "a", "b")]),
    ]);
    assert_eq!(
        leak_targets(&project, &None),
        vec![
            Target { screen_id: 1, ticket_id: 11, sale_start: 101 },
            Target { screen_id: 1, ticket_id: 13, sale_start: 101 },
            Target { screen_id: 3, ticket_id: 31, sale_start: 103 },
        ]
    );
}

#[test]
fn skip_words_match_showing_name_and_description_without_regard_to_case() {
    let project = listing(vec![screen(
        1,
        true,
        vec![
            ticket(11, true, "Friday NIGHT show", "Standard"),
            ticket(12, true, "Saturday", "Vip Package"),
            ticket(13, true, "Sunday", "Standard"),
        ],
    )]);
    let skip = words(&["night", "VIP"]);
    assert_eq!(leak_targets(&project, &skip), vec![Target { screen_id: 1, ticket_id: 13, sale_start: 101 }]);
    assert_eq!(leak_targets(&project, &words(&[])).len(), 3);
    assert_eq!(leak_targets(&project, &words(&["ÄRGER"])).len(), 3);
}

#[test]
fn an_empty_skip_word_skips_everything() {
    let project = listing(vec![screen(1, true, vec![ticket(11, true, "a", "b")])]);
    assert!(leak_targets(&project, &words(&[""])).is_empty());
}

#[test]
fn words_are_lowered_one_for_one() {
    assert_eq!(lowered_words(&words(&["VIP", "Night", "票"])), vec!["vip", "night", "票"]);
    assert!(lowered_words(&None).is_empty());
    assert_eq!(lowered_words(&words(&["ÄB"])), vec!["äb"]);
}

#[test]
fn mentions_any_looks_for_substrings() {
    let list = vec!["vip".to_string(), "night".to_string()];
    assert!(mentions_any("friday night show", &list));
    assert!(mentions_any("vip", &list));
    assert!(!mentions_any("vi p", &list));
    assert!(!mentions_any("VIP", &list));
    assert!(!mentions_any("", &list));
    assert!(!mentions_any("anything", &Vec::new()));
}

#[test]
fn eligibility_needs_a_clickable_ticket_that_is_not_skipped() {
    let list = vec!["vip".to_string()];
    assert!(eligible(&ticket(1, true, "Day", "Standard"), &list));
    assert!(!eligible(&ticket(1, false, "Day", "Standard"), &list));
    assert!(!eligible(&ticket(1, true, "VIP day", "Standard"), &list));
    assert!(!eligible(&ticket(1, true, "Day", "ViP"), &list));
}
