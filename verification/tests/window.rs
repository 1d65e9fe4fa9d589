//! The window: what it hears, and what it does about it.
//!
//! Whether an error is an answer that could not be read is decided outside
//! this library, and handed in beside the error.

use porthole_gui::bus::{
    classify_failure, could_not_reach, nobody_answered, read_bus_error, HelperFailure,
};
use porthole_gui::model::{
    Alignment, Binding, Protocol, Published, Service, WireDockerPort, WireRule, WireStatus,
};
use porthole_gui::net::Ipv4Addr;
use porthole_gui::open_dialog::{DeviceEntry, OpenDialog};
use porthole_gui::open_now::{UNDECODABLE_TITLE, UNREACHABLE_TITLE};
use porthole_gui::window::{
    first_undecodable, open_tcp_ports, published_from_reply, published_from_wire, Actionable,
    HelperAnswer, HelperSnapshot, PortholeWindow, ScanOutcome, DEVICES_ACTION,
    DEVICES_ACTION_NAME, DEVICES_NOT_READ_YET,
};

/// The bus's own name for a call nobody answered.
const NO_REPLY_ERROR: &str = "org.freedesktop.DBus.Error.NoReply";

const RETIRING_ERROR: &str = "com.jacopobriccola.Porthole.Retiring";

const NO_FIREWALL_MESSAGE: &str = "no firewall is installed";

fn method_error(name: &str, detail: Option<&str>) -> zbus::Error {
    zbus::Error::MethodError(
        zbus::names::OwnedErrorName::try_from(name.to_string()).unwrap(),
        detail.map(str::to_string),
        zbus::message::Message::method_call("/", "Noop")
            .unwrap()
            .build(&())
            .unwrap(),
    )
}

fn rule(id: &str, port: u16, protocol: &str) -> WireRule {
    WireRule {
        id: id.to_string(),
        port,
        protocol: protocol.to_string(),
        target: "10.10.10.0/24".to_string(),
        scope: "network".to_string(),
        backend: "firewalld".to_string(),
        opened_at: 0,
        expires_at: 1_000,
        uid: 1000,
        container_addr: String::new(),
        container_port: 0,
        published_port: 0,
    }
}

fn status() -> WireStatus {
    WireStatus {
        backend: "firewalld".to_string(),
        firewall_available: true,
        firewall_active: true,
        firewall_active_unknown: false,
        firewall_version: "2.4.4".to_string(),
        detail: String::new(),
        location: String::new(),
        interface: String::new(),
        address: String::new(),
        cidr: String::new(),
        rules: Vec::new(),
    }
}

fn service(port: u16, binding: Binding) -> Service {
    Service {
        port,
        protocol: Protocol::Tcp,
        address: "0.0.0.0".to_string(),
        binding,
        process: None,
        pid: None,
    }
}

fn published(port: u16) -> Published {
    Published {
        host_addr: Some(Ipv4Addr::new(127, 0, 0, 1)),
        host_port: port,
        protocol: Protocol::Tcp,
        container_addr: Ipv4Addr::new(172, 18, 0, 2),
        container_port: 8080,
    }
}

fn answered(snapshot: HelperSnapshot) -> HelperAnswer {
    HelperAnswer::Answered(snapshot)
}

fn good_snapshot() -> HelperSnapshot {
    HelperSnapshot {
        rules: Ok(vec![rule("a", 5173, "tcp"), rule("b", 53, "udp")]),
        status: Ok(status()),
        docker: Ok(vec![published(3000)]),
        alignment: None,
    }
}

fn wire(host: &str, container: &str) -> WireDockerPort {
    WireDockerPort {
        host_addr: host.to_string(),
        host_port: 3000,
        protocol: "tcp".to_string(),
        container_addr: container.to_string(),
        container_port: 8080,
    }
}

#[test]
fn nobody_answering_is_unreachable_even_though_it_arrives_as_a_method_error() {
    let e = method_error(NO_REPLY_ERROR, Some("Remote peer disconnected"));
    assert!(nobody_answered(&e, NO_REPLY_ERROR));
    match classify_failure(e, false, NO_REPLY_ERROR) {
        HelperFailure::Unreachable(message) => {
            assert!(message.contains("could not reach"), "{message}");
            assert!(
                message.contains("nothing answered"),
                "and what happened was that nobody replied: {message}"
            );
            assert_eq!(
                message,
                "could not reach the porthole helper: nothing answered \
                 (org.freedesktop.DBus.Error.NoReply: Remote peer disconnected)"
            );
        }
        HelperFailure::Errored(message) => {
            panic!("nothing answered; the helper reported nothing: {message}")
        }
        HelperFailure::Undecodable(message) => {
            panic!("there was no answer here to fail to read: {message}")
        }
    }

    let retiring = method_error(
        RETIRING_ERROR,
        Some(
            "the porthole helper was retiring when this request arrived and did not \
              act on it: ask again",
        ),
    );
    assert!(!nobody_answered(&retiring, NO_REPLY_ERROR));
    match classify_failure(retiring, false, NO_REPLY_ERROR) {
        HelperFailure::Errored(message) => assert!(message.contains("ask again"), "{message}"),
        HelperFailure::Unreachable(message) => {
            panic!("the helper answered this one, in its own words: {message}")
        }
        HelperFailure::Undecodable(message) => panic!("{message}"),
    }
}

#[test]
fn a_method_error_is_errored_not_unreachable() {
    let e = method_error(
        "com.jacopobriccola.Porthole.NotAuthorized",
        Some("not authorized: com.jacopobriccola.Porthole.List"),
    );
    match classify_failure(e, false, NO_REPLY_ERROR) {
        HelperFailure::Errored(message) => {
            assert_eq!(message, "not authorized: com.jacopobriccola.Porthole.List");
        }
        HelperFailure::Unreachable(message) => {
            panic!("a MethodError must classify as Errored, not Unreachable: {message}")
        }
        HelperFailure::Undecodable(message) => {
            panic!("this answer was read successfully; it just said no: {message}")
        }
    }
}

#[test]
fn a_state_failure_classifies_the_same_way_as_a_denial_not_as_unreachable() {
    let e = method_error(
        "com.jacopobriccola.Porthole.State",
        Some("could not read /run/porthole/state.json: permission denied"),
    );
    match classify_failure(e, false, NO_REPLY_ERROR) {
        HelperFailure::Errored(message) => {
            assert_eq!(
                message,
                "could not read /run/porthole/state.json: permission denied"
            );
        }
        HelperFailure::Unreachable(message) => {
            panic!("a MethodError must classify as Errored, not Unreachable: {message}")
        }
        HelperFailure::Undecodable(message) => {
            panic!("this answer was read successfully; it just said no: {message}")
        }
    }
}

type RuleBeforeForward = (String, u16, String, String, String, String, u64, u64, u32);

type RuleNow = (
    String,
    u16,
    String,
    String,
    String,
    String,
    u64,
    u64,
    u32,
    String,
    u16,
    u16,
);

#[test]
fn an_answer_this_build_cannot_read_is_neither_unreachable_nor_errored() {
    let old: Vec<RuleBeforeForward> = vec![(
        "abc".to_string(),
        5173,
        "tcp".to_string(),
        "10.10.10.0/24".to_string(),
        "network".to_string(),
        "firewalld".to_string(),
        1_757_000_000,
        1_757_003_600,
        1000,
    )];
    let e = zbus::message::Message::signal("/", "com.jacopobriccola.Porthole1", "Listed")
        .unwrap()
        .build(&(old,))
        .unwrap()
        .body()
        .deserialize::<(Vec<RuleNow>,)>()
        .expect_err("the two list signatures disagree");
    assert!(matches!(e, zbus::Error::Variant(_)));
    let text = e.to_string();

    match classify_failure(e, true, NO_REPLY_ERROR) {
        HelperFailure::Undecodable(message) => {
            assert!(
                !message.contains("could not reach"),
                "the helper answered: {message}"
            );
            assert!(
                message.contains("could not read"),
                "and what failed was reading it: {message}"
            );
            assert!(message.ends_with(&text), "{message}");
        }
        HelperFailure::Unreachable(message) => {
            panic!("the helper answered; this is not unreachable: {message}")
        }
        HelperFailure::Errored(message) => {
            panic!("the helper reported no error; this window could not read it: {message}")
        }
    }
}

#[test]
fn one_unreadable_answer_out_of_three_is_enough_to_settle_the_window() {
    let unreadable = || HelperFailure::Undecodable("cannot read this".to_string());
    let ordinary = || HelperFailure::Errored("not authorized".to_string());

    for position in 0..3 {
        let snapshot = HelperSnapshot {
            rules: if position == 0 {
                Err(unreadable())
            } else {
                Err(ordinary())
            },
            status: if position == 1 {
                Err(unreadable())
            } else {
                Err(ordinary())
            },
            docker: if position == 2 {
                Err(unreadable())
            } else {
                Err(ordinary())
            },
            alignment: None,
        };
        assert_eq!(
            first_undecodable(&snapshot).as_deref(),
            Some("cannot read this"),
            "position {position}"
        );
        let mut window = PortholeWindow::new();
        window.helper_answered(answered(snapshot), 10, NO_FIREWALL_MESSAGE);
        assert!(window.stopped, "position {position}");
    }

    let ordinary_only = HelperSnapshot {
        rules: Err(ordinary()),
        status: Err(HelperFailure::Unreachable("no bus".to_string())),
        docker: Err(ordinary()),
        alignment: None,
    };
    assert_eq!(first_undecodable(&ordinary_only), None);
}

#[test]
fn a_non_method_error_is_unreachable_not_errored() {
    let e = zbus::Error::Failure("the connection was lost".to_string());
    match classify_failure(e, false, NO_REPLY_ERROR) {
        HelperFailure::Unreachable(message) => {
            assert!(
                message.contains("could not reach the porthole helper"),
                "{message}"
            );
            assert_eq!(
                message,
                "could not reach the porthole helper: the connection was lost"
            );
        }
        HelperFailure::Errored(message) => {
            panic!("a non-MethodError must classify as Unreachable, not Errored: {message}")
        }
        HelperFailure::Undecodable(message) => {
            panic!("nothing came back to be read here at all: {message}")
        }
    }
}

#[test]
fn a_bus_error_reads_as_its_name_and_its_detail() {
    let read = read_bus_error(&method_error("org.example.Refused", Some("not today")));
    assert_eq!(read.text, "org.example.Refused: not today");
    let method = read.method.unwrap();
    assert_eq!(method.name, "org.example.Refused");
    assert_eq!(method.detail.as_deref(), Some("not today"));

    let bare = read_bus_error(&method_error("org.example.Refused", None));
    assert_eq!(bare.text, "org.example.Refused: no details");
    assert_eq!(bare.helper_message(), "org.example.Refused");

    let lost = zbus::Error::Failure("lost".to_string());
    assert!(read_bus_error(&lost).method.is_none());
    assert!(!nobody_answered(&lost, NO_REPLY_ERROR));
    assert_eq!(
        could_not_reach(&lost),
        "could not reach the porthole helper: lost"
    );
    assert_eq!(
        could_not_reach(&zbus::Error::Address("no such bus".to_string())),
        "could not reach the porthole helper: address error: no such bus"
    );
}

#[test]
fn a_published_port_off_the_wire_is_read_or_said_to_be_wrong() {
    let p = published_from_wire(&wire("127.0.0.1", "172.18.0.2"), &Ok(Protocol::Tcp)).unwrap();
    assert_eq!(p, published(3000));
    let everywhere = published_from_wire(&wire("", "172.18.0.2"), &Ok(Protocol::Udp)).unwrap();
    assert_eq!(everywhere.host_addr, None);
    assert_eq!(everywhere.protocol, Protocol::Udp);

    let bad_protocol = || Err("`sctp` is not a protocol".to_string());
    assert_eq!(
        published_from_wire(&wire("localhost", "x"), &bad_protocol()),
        Err("the helper sent `localhost` as a Docker host address".to_string())
    );
    assert_eq!(
        published_from_wire(&wire("127.0.0.1", "x"), &bad_protocol()),
        Err("`sctp` is not a protocol".to_string())
    );
    assert_eq!(
        published_from_wire(&wire("127.0.0.1", ""), &Ok(Protocol::Tcp)),
        Err("the helper sent `` as a Docker container address".to_string())
    );

    let list = published_from_reply(&vec![
        (wire("127.0.0.1", "172.18.0.2"), Ok(Protocol::Tcp)),
        (wire("", "172.18.0.2"), Ok(Protocol::Tcp)),
    ])
    .unwrap();
    assert_eq!(list.len(), 2);
    match published_from_reply(&vec![
        (wire("127.0.0.1", "172.18.0.2"), Ok(Protocol::Tcp)),
        (wire("127.0.0.1", "first"), Ok(Protocol::Tcp)),
        (wire("second", ""), Ok(Protocol::Tcp)),
    ]) {
        Err(HelperFailure::Errored(message)) => {
            assert!(message.contains("`first`"), "{message}")
        }
        other => panic!("{other:?}"),
    }
}

#[test]
fn only_tcp_rules_count_as_open_for_the_services() {
    assert_eq!(
        open_tcp_ports(&[
            rule("a", 5173, "tcp"),
            rule("b", 53, "udp"),
            rule("c", 22, "tcp"),
        ]),
        vec![5173, 22]
    );
}

#[test]
fn an_answer_fills_every_section_and_a_close_keeps_them_together() {
    let mut window = PortholeWindow::new();
    window.scan_finished(ScanOutcome::Found(vec![
        service(5173, Binding::AllInterfaces),
        service(53, Binding::AllInterfaces),
        service(3000, Binding::LoopbackOnly),
    ]));
    assert!(window.helper_read_began());
    assert!(window.busy.is_busy());
    window.helper_answered(answered(good_snapshot()), 10, NO_FIREWALL_MESSAGE);
    assert!(!window.busy.is_busy());
    assert_eq!(window.status_bar.text(), "firewalld 2.4.4 — enforcing");
    assert_eq!(window.open_now.rows().len(), 2);
    assert!(!window.listening.open_button_for(0));
    assert!(window.listening.open_button_for(1));
    assert_eq!(
        window.actionable_widgets(),
        vec![
            Actionable::OpenPort,
            Actionable::MainMenu,
            Actionable::Close(0),
            Actionable::Close(1),
            Actionable::Open(1),
            Actionable::Forward(2),
        ]
    );

    let (ticket, _) = window.open_now.begin_close(0);
    assert_eq!(window.close_answered(ticket, Ok(()), 20), None);
    assert_eq!(window.open_now.rows().len(), 1);
    assert!(window.listening.open_button_for(0));

    let (ticket, _) = window.open_now.begin_close(0);
    assert_eq!(
        window
            .close_answered(ticket, Err("not authorized".to_string()), 20)
            .as_deref(),
        Some("not authorized")
    );
    assert_eq!(window.open_now.rows().len(), 1);
}

#[test]
fn a_status_that_failed_does_not_discard_the_list() {
    let mut window = PortholeWindow::new();
    let snapshot = HelperSnapshot {
        status: Err(HelperFailure::Errored("state unreadable".to_string())),
        docker: Err(HelperFailure::Unreachable("gone".to_string())),
        ..good_snapshot()
    };
    window.helper_answered(answered(snapshot), 10, NO_FIREWALL_MESSAGE);
    assert_eq!(window.open_now.rows().len(), 2);
    assert_eq!(
        window.status_bar.text(),
        "The porthole helper reported an error — state unreadable"
    );
    assert!(window.docker.is_none());
    assert!(!window.stopped);
}

#[test]
fn a_wait_that_runs_out_is_unreachable_and_not_an_empty_list() {
    let mut window = PortholeWindow::new();
    window.helper_answered(answered(good_snapshot()), 10, NO_FIREWALL_MESSAGE);
    window.helper_answered(HelperAnswer::TimedOut, 20, NO_FIREWALL_MESSAGE);
    let note = window.open_now.error_note().unwrap();
    assert_eq!(note.title(), UNREACHABLE_TITLE);
    assert_eq!(
        note.description().as_deref(),
        Some("could not reach the porthole helper: timed out")
    );
    assert!(window.open_now.empty_note().is_none());
    assert!(window.status_bar.is_prominent());
    assert!(window.docker.is_none());
    assert!(!window.stopped);
    assert!(window.refresh());
}

#[test]
fn a_window_that_has_stopped_stays_stopped() {
    let mut window = PortholeWindow::new();
    window.scan_finished(ScanOutcome::Found(vec![service(
        5173,
        Binding::AllInterfaces,
    )]));
    window.helper_answered(answered(good_snapshot()), 10, NO_FIREWALL_MESSAGE);
    let unreadable = HelperSnapshot {
        rules: Err(HelperFailure::Undecodable("two signatures".to_string())),
        alignment: Some(Alignment::HelperIsOlder),
        ..good_snapshot()
    };
    window.helper_answered(answered(unreadable), 20, NO_FIREWALL_MESSAGE);
    assert!(window.stopped);
    assert!(!window.open_sensitive);
    assert!(!window.listening_sensitive);
    assert_eq!(
        window.open_now.error_note().unwrap().title(),
        UNDECODABLE_TITLE
    );
    assert!(window
        .status_bar
        .text()
        .contains("systemctl restart porthole-helper.service"));
    assert_eq!(window.status_bar.line(), "two signatures");
    assert!(window.docker.is_some(), "what was known of Docker stays");
    assert!(!window.refresh());
    assert!(!window.schedule_refresh());

    // Nothing that lands later starts it again.
    window.stop_talking_to_the_helper("again", None);
    assert_eq!(window.status_bar.line(), "two signatures");
    window.scan_finished(ScanOutcome::Found(vec![]));
    assert!(window.helper_read_began());
    window.helper_answered(HelperAnswer::TimedOut, 30, NO_FIREWALL_MESSAGE);
    assert!(!window.busy.is_busy());
    assert_eq!(
        window.open_now.error_note().unwrap().title(),
        UNDECODABLE_TITLE
    );
    assert_eq!(window.status_bar.line(), "two signatures");
    assert!(window.docker.is_some());
    window.helper_answered(answered(good_snapshot()), 40, NO_FIREWALL_MESSAGE);
    assert!(window.open_now.rows().is_empty());
    assert_eq!(window.status_bar.line(), "two signatures");
    assert_eq!(
        window.actionable_widgets(),
        vec![Actionable::OpenPort, Actionable::MainMenu]
    );
    assert!(window.stopped);
    assert!(!window.open_sensitive);
    assert!(!window.listening_sensitive);
}

#[test]
fn a_failure_before_any_call_is_rendered_or_stops_the_window() {
    let mut window = PortholeWindow::new();
    window.helper_answered(
        HelperAnswer::NotAsked(HelperFailure::Unreachable("no bus".to_string())),
        10,
        NO_FIREWALL_MESSAGE,
    );
    assert_eq!(
        window.status_bar.text(),
        "Could not reach the porthole helper — no bus"
    );
    assert!(!window.stopped);
    window.helper_answered(
        HelperAnswer::NotAsked(HelperFailure::Undecodable("shapes".to_string())),
        10,
        NO_FIREWALL_MESSAGE,
    );
    assert!(window.stopped);
}

#[test]
fn a_burst_of_announcements_is_one_refresh() {
    let mut window = PortholeWindow::new();
    assert!(window.schedule_refresh());
    assert!(!window.schedule_refresh());
    assert!(!window.schedule_refresh());
    assert!(window.burst_gathered());
    assert!(window.schedule_refresh());
}

#[test]
fn an_unconfirmed_expiry_asks_for_a_refresh_once() {
    let mut window = PortholeWindow::new();
    window.helper_answered(answered(good_snapshot()), 10, NO_FIREWALL_MESSAGE);
    assert!(!window.tick(1_000));
    assert!(window.tick(1_005));
    window.burst_gathered();
    assert!(!window.tick(1_006));

    let mut closing = PortholeWindow::new();
    closing.helper_answered(answered(good_snapshot()), 10, NO_FIREWALL_MESSAGE);
    closing.close_requested();
    assert!(!closing.tick(1_005));
}

#[test]
fn a_scan_that_failed_is_said_to_have() {
    let mut window = PortholeWindow::new_without_initial_load();
    window.scan_finished(ScanOutcome::Failed("permission denied".to_string()));
    assert_eq!(
        window.listening.error_page().unwrap().description.as_deref(),
        Some("could not check what is listening: permission denied")
    );
    window.scan_finished(ScanOutcome::Panicked);
    assert_eq!(
        window.listening.error_page().unwrap().description.as_deref(),
        Some("the listening scan panicked")
    );
}

#[test]
fn a_dialog_is_handed_what_the_window_knows() {
    let mut window = PortholeWindow::new();
    let mut dialog = OpenDialog::for_port(3000, Ok(3000));
    window.prepare_dialog(&mut dialog);
    assert_eq!(
        dialog.target_group_description().as_deref(),
        Some(DEVICES_NOT_READ_YET)
    );
    assert!(dialog.docker_to_consult().is_none());

    window.devices_read(Some(Ok(vec![DeviceEntry {
        name: "phone".to_string(),
        resolved: Ok(Ipv4Addr::new(10, 10, 10, 245)),
    }])));
    window.apply_docker(Some(vec![published(3000)]));
    window.prepare_dialog(&mut dialog);
    assert_eq!(dialog.target_group_description(), None);
    assert_eq!(
        dialog.target_labels(),
        vec!["This network", "phone", "Anyone"]
    );
    assert_eq!(dialog.docker_to_consult().unwrap().len(), 1);

    window.devices_read(None);
    window.prepare_dialog(&mut dialog);
    assert_eq!(
        dialog.target_group_description().as_deref(),
        Some("reading the saved devices panicked")
    );
}

#[test]
fn the_menu_item_names_the_windows_action() {
    assert_eq!(DEVICES_ACTION, format!("win.{DEVICES_ACTION_NAME}"));
}
