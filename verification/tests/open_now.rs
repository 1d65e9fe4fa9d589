//! The "Open now" section and the text of its countdowns.

use porthole_gui::bus::helper_message;
use porthole_gui::model::WireRule;
use porthole_gui::open_dialog::ANYONE_NOTE;
use porthole_gui::open_now::{
    expiry_has_settled, format_countdown, subtitle_for, CloseOutcome, OpenNowSection, EMPTY_NOTE,
    ERRORED_TITLE, EXPIRY_SETTLE_SECONDS, LOADING_NOTE, STILL_OPEN, TIME_IS_UP, UNDECODABLE_TITLE,
    UNREACHABLE_TITLE,
};

fn method_error(name: &str, detail: Option<&str>) -> zbus::Error {
    zbus::Error::MethodError(
        zbus::names::OwnedErrorName::try_from(name.to_string()).unwrap(),
        detail.map(str::to_string),
        zbus::message::Message::method_call("/", "Noop")
            .unwrap()
            .build(&())
            .unwrap(),
    )
}

fn permitting_rule() -> WireRule {
    WireRule {
        id: "abc".to_string(),
        port: 5173,
        protocol: "tcp".to_string(),
        target: "10.10.10.0/24".to_string(),
        scope: "network".to_string(),
        backend: "firewalld".to_string(),
        opened_at: 1_757_000_000,
        expires_at: 1_757_003_600,
        uid: 1000,
        container_addr: String::new(),
        container_port: 0,
        published_port: 0,
    }
}

fn rule(id: &str, port: u16, expires_at: u64) -> WireRule {
    WireRule {
        id: id.to_string(),
        port,
        expires_at,
        ..permitting_rule()
    }
}

#[test]
fn until_reboot_is_the_wire_sentinel_not_a_duration() {
    assert_eq!(format_countdown(0, 0, 1_000), "until reboot");
}

#[test]
fn time_left_counts_down_in_minutes_and_seconds() {
    assert_eq!(format_countdown(3_600, 0, 60), "59:00 left");
    assert_eq!(format_countdown(3_600, 0, 121), "57:59 left");
}

#[test]
fn a_countdown_over_an_hour_stays_in_minutes() {
    assert_eq!(format_countdown(28_800, 0, 0), "480:00 left");
    assert_eq!(format_countdown(65, 0, 0), "01:05 left");
    assert_eq!(format_countdown(9, 0, 0), "00:09 left");
}

#[test]
fn a_deadline_that_has_just_passed_states_the_clock_and_nothing_else() {
    assert_eq!(format_countdown(100, 40, 101), TIME_IS_UP);
    assert_eq!(format_countdown(100, 40, 100), TIME_IS_UP);
    assert_eq!(
        format_countdown(100, 100 + EXPIRY_SETTLE_SECONDS - 1, 200),
        TIME_IS_UP
    );
}

#[test]
fn a_list_read_past_the_settle_point_that_still_names_the_rule_says_so() {
    assert_eq!(
        format_countdown(100, 100 + EXPIRY_SETTLE_SECONDS, 200),
        STILL_OPEN
    );
    assert_ne!(STILL_OPEN, TIME_IS_UP);
}

#[test]
fn a_close_that_worked_and_a_close_that_did_not_do_not_share_a_word() {
    let in_the_gap = format_countdown(100, 40, 101);
    let still_listed = format_countdown(100, 100 + EXPIRY_SETTLE_SECONDS, 300);
    assert_ne!(in_the_gap, still_listed);
    for text in [&in_the_gap, &still_listed] {
        assert!(
            !text.contains("clos"),
            "the countdown must not name an outcome nothing confirmed: {text}"
        );
    }
}

#[test]
fn an_until_reboot_rule_never_settles_and_never_reports_a_deadline() {
    assert!(!expiry_has_settled(0, u64::MAX));
    assert_eq!(format_countdown(0, u64::MAX, u64::MAX), "until reboot");
}

#[test]
fn the_settle_point_is_reached_at_it_and_not_before() {
    assert!(!expiry_has_settled(100, 100 + EXPIRY_SETTLE_SECONDS - 1));
    assert!(expiry_has_settled(100, 100 + EXPIRY_SETTLE_SECONDS));
}

#[test]
fn a_deadline_near_the_end_of_the_clock_settles_at_its_last_second() {
    assert!(!expiry_has_settled(u64::MAX, u64::MAX - 1));
    assert!(expiry_has_settled(u64::MAX, u64::MAX));
}

#[test]
fn helper_message_is_the_helpers_detail_verbatim_not_reworded() {
    let e = method_error(
        "com.jacopobriccola.Porthole.AlreadyOpen",
        Some("5173/tcp is already open (open towards 10.10.10.0/24)"),
    );
    assert_eq!(
        helper_message(&e),
        "5173/tcp is already open (open towards 10.10.10.0/24)"
    );
}

#[test]
fn helper_message_falls_back_to_the_error_name_when_there_is_no_detail() {
    let e = method_error("com.jacopobriccola.Porthole.RuleNotFound", None);
    assert_eq!(
        helper_message(&e),
        "com.jacopobriccola.Porthole.RuleNotFound"
    );
}

#[test]
fn helper_message_is_not_empty_or_panicking_for_a_non_method_error() {
    let e = zbus::Error::Failure("the connection was lost".to_string());
    assert_eq!(helper_message(&e), e.to_string());
}

#[test]
fn a_forward_does_not_read_as_an_open() {
    let permit = permitting_rule();
    let forward = WireRule {
        port: 8443,
        container_addr: "172.18.0.2".to_string(),
        container_port: 8080,
        published_port: 3000,
        ..permitting_rule()
    };
    assert_eq!(subtitle_for(&permit), "open to 10.10.10.0/24");
    assert_eq!(
        subtitle_for(&forward),
        "redirects to 172.18.0.2:8080 (published on 3000) · reachable from 10.10.10.0/24"
    );
    assert!(!permit.redirects());
    assert!(forward.redirects());
}

#[test]
fn a_forward_to_anyone_still_names_who_can_reach_it() {
    let forward = WireRule {
        scope: "anywhere".to_string(),
        target: "anywhere".to_string(),
        container_addr: "172.18.0.2".to_string(),
        container_port: 8080,
        published_port: 3000,
        ..permitting_rule()
    };
    let subtitle = subtitle_for(&forward);
    assert!(
        subtitle.contains("redirects to 172.18.0.2:8080"),
        "{subtitle}"
    );
    assert!(subtitle.contains("anyone"), "{subtitle}");
}

#[test]
fn a_fresh_section_says_it_is_checking_and_nothing_else() {
    let section = OpenNowSection::new();
    assert_eq!(section.loading_note().unwrap().label(), LOADING_NOTE);
    assert!(section.empty_note().is_none());
    assert!(section.error_note().is_none());
    assert!(section.rows().is_empty());
}

#[test]
fn an_empty_list_is_calm_and_a_failure_is_not() {
    let mut section = OpenNowSection::new();
    section.set_rules(&[], 10);
    assert_eq!(section.empty_note().unwrap().label(), EMPTY_NOTE);
    assert!(section.loading_note().is_none());
    assert!(section.error_note().is_none());
    assert_eq!(
        section.empty_note().unwrap().css_classes(),
        vec!["dim-label"]
    );

    section.set_unreachable("no bus");
    assert!(section.empty_note().is_none());
    let note = section.error_note().unwrap();
    assert_eq!(note.title(), UNREACHABLE_TITLE);
    assert_eq!(note.description().as_deref(), Some("no bus"));
    assert_eq!(note.icon_name().as_deref(), Some("dialog-error-symbolic"));
    assert_eq!(note.css_classes(), vec!["error"]);

    section.set_errored("not authorized");
    assert_eq!(section.error_note().unwrap().title(), ERRORED_TITLE);
    section.set_undecodable("two signatures");
    assert_eq!(section.error_note().unwrap().title(), UNDECODABLE_TITLE);

    section.set_rules(&[], 20);
    assert!(section.error_note().is_none());
    assert!(section.empty_note().is_some());
}

#[test]
fn a_row_names_its_port_and_carries_the_markings_that_go_with_it() {
    let anyone = WireRule {
        scope: "anywhere".to_string(),
        target: "anywhere".to_string(),
        ..rule("b", 8080, 0)
    };
    let forward = WireRule {
        container_addr: "172.18.0.2".to_string(),
        container_port: 8080,
        published_port: 3000,
        ..rule("c", 8443, 100)
    };
    let mut section = OpenNowSection::new();
    section.set_rules(&[rule("a", 5173, 3_600), anyone, forward], 60);

    let rows = section.rows();
    assert_eq!(rows[0].title(), "5173/tcp");
    assert_eq!(rows[0].subtitle(), "open to 10.10.10.0/24");
    assert_eq!(rows[1].subtitle(), "open to anyone");
    assert_eq!(rows[1].significant_tooltip().as_deref(), Some(ANYONE_NOTE));
    assert_eq!(
        rows[2].forward_tooltip().as_deref(),
        Some("Redirected to 172.18.0.2:8080, published on 3000")
    );
    assert!(!section.is_marked_significant(0));
    assert!(section.is_marked_significant(1));
    assert!(!section.is_marked_significant(9));
    assert!(!section.is_marked_forward(1));
    assert!(section.is_marked_forward(2));
    assert_eq!(section.countdown_text(0), "59:00 left");
    assert_eq!(section.countdown_text(1), "until reboot");
    assert!(!section.countdown_is_marked_overdue(0));
}

#[test]
fn a_settled_deadline_is_reported_once_and_then_not_again() {
    let mut section = OpenNowSection::new();
    section.set_rules(&[rule("a", 5173, 100), rule("b", 80, 0)], 40);
    assert!(!section.refresh(100));
    assert_eq!(section.countdown_text(0), TIME_IS_UP);
    assert!(!section.refresh(104));
    assert!(section.refresh(105));
    assert!(!section.refresh(106));
    assert!(!section.refresh(500));
    assert!(!section.countdown_is_marked_overdue(0));

    // A list read late enough is the answer, and asks for nothing more.
    section.set_rules(&[rule("a", 5173, 100)], 105);
    assert_eq!(section.countdown_text(0), STILL_OPEN);
    assert!(section.countdown_is_marked_overdue(0));
    assert!(!section.refresh(600));
}

#[test]
fn closing_a_rule_takes_it_off_and_leaves_the_rest_as_old_as_it_was() {
    let mut section = OpenNowSection::new();
    section.set_rules(
        &[rule("a", 1, 100), rule("b", 2, 100), rule("c", 3, 100)],
        40,
    );
    let remaining = section.simulate_close_succeeded("b", 200).unwrap();
    let ids: Vec<&str> = remaining.iter().map(|r| r.id.as_str()).collect();
    assert_eq!(ids, vec!["a", "c"]);
    let shown: Vec<String> = section.rows().iter().map(|r| r.id()).collect();
    assert_eq!(shown, vec!["a", "c"]);
    // Still a list read at 40: nothing has been heard since the deadline.
    assert_eq!(section.countdown_text(0), TIME_IS_UP);

    section.simulate_close_succeeded("a", 200);
    section.simulate_close_succeeded("c", 200);
    assert!(section.empty_note().is_some());
}

#[test]
fn a_close_that_lands_after_a_failed_refresh_changes_nothing() {
    let mut section = OpenNowSection::new();
    section.set_rules(&[rule("a", 1, 100)], 40);
    section.set_unreachable("timed out");
    assert!(section.simulate_close_succeeded("a", 50).is_none());
    assert!(section.error_note().is_some());
    assert!(section.empty_note().is_none());
}

#[test]
fn a_close_button_is_held_until_its_close_is_answered() {
    let mut section = OpenNowSection::new();
    section.set_rules(&[rule("a", 1, 100), rule("b", 2, 100)], 40);
    assert_eq!(section.close_button_for(0), Some(true));
    assert_eq!(section.close_button_for(2), None);

    let (ticket, arm) = section.begin_close(0);
    assert_eq!(ticket.id, "a");
    assert!(arm);
    assert_eq!(section.close_button_for(0), Some(false));
    assert_eq!(section.close_button_for(1), Some(true));
    assert!(section.close_busy_for(0).unwrap().is_busy());
    assert!(section.close_busy_for(5).is_none());

    let outcome = section.close_answered(ticket, Err("not authorized".to_string()), 50);
    assert!(matches!(outcome, CloseOutcome::Failed { toast } if toast == "not authorized"));
    assert_eq!(section.close_button_for(0), Some(true));
    assert!(!section.close_busy_for(0).unwrap().is_busy());

    let (ticket, _) = section.begin_close(0);
    let outcome = section.close_answered(ticket, Ok(()), 50);
    match outcome {
        CloseOutcome::Closed { remaining } => {
            assert_eq!(remaining.unwrap().len(), 1);
        }
        CloseOutcome::Failed { toast } => panic!("{toast}"),
    }
    assert_eq!(section.rows().len(), 1);
    assert_eq!(section.close_button_for(0), Some(true));
}

#[test]
fn the_answer_to_a_close_does_not_touch_a_row_of_a_newer_list() {
    let mut section = OpenNowSection::new();
    section.set_rules(&[rule("a", 1, 100)], 40);
    let (first, _) = section.begin_close(0);
    section.set_rules(&[rule("a", 1, 100)], 41);
    let (second, _) = section.begin_close(0);
    section.close_answered(first, Err("lost".to_string()), 42);
    assert!(section.close_busy_for(0).unwrap().is_busy());
    section.close_answered(second, Err("lost".to_string()), 43);
    assert!(!section.close_busy_for(0).unwrap().is_busy());
}

#[test]
fn a_slow_close_shows_its_spinner_in_its_own_row_only() {
    let mut section = OpenNowSection::new();
    section.set_rules(&[rule("a", 5173, 5_000), rule("b", 22, 5_000)], 10);
    let (ticket, first) = section.begin_close(0);
    assert!(first);
    assert!(!section.close_busy_for(0).unwrap().is_showing());
    section.close_delayed(&ticket);
    assert!(section.close_busy_for(0).unwrap().is_showing());
    assert!(!section.close_busy_for(1).unwrap().is_showing());

    // A list read meanwhile builds new rows, and the old delay is not theirs.
    section.set_rules(&[rule("a", 5173, 5_000)], 20);
    assert!(!section.close_busy_for(0).unwrap().is_showing());
    section.close_delayed(&ticket);
    assert!(!section.close_busy_for(0).unwrap().is_showing());
    assert!(section.close_busy_for(0).unwrap().can_begin());
}
