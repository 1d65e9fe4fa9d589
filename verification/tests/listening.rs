//! The "Listening" section.

use std::collections::HashSet;

use porthole_gui::listening_section::{
    docker_for, forward_port_for, group_rank, is_actionable, subtitle_for,
    subtitle_without_docker, title_for, DockerPorts, ListeningSection, BEYOND_REACH_SUBTITLE,
    DOCKER_NOT_CHECKED_NOTE, DOCKER_UNAVAILABLE_NOTE, LOOPBACK_SUBTITLE,
};
use porthole_gui::model::{Binding, Protocol, Published, Service};
use porthole_gui::net::{parse_ipv4, Ipv4Addr};

/// `2001:db8::1`.
const GLOBAL: u128 = 0x2001_0db8_0000_0000_0000_0000_0000_0001;

fn svc(port: u16, process: Option<&str>, binding: Binding) -> Service {
    let address = match binding {
        Binding::LoopbackOnly => "127.0.0.1".to_string(),
        Binding::AllInterfaces => "0.0.0.0".to_string(),
        Binding::Specific(a) => a.text(),
        Binding::BeyondReach(_) => "2001:db8::1".to_string(),
    };
    Service {
        port,
        protocol: Protocol::Tcp,
        address,
        binding,
        process: process.map(str::to_string),
        pid: None,
    }
}

fn published(port: u16, host_addr: Option<&str>) -> Published {
    Published {
        host_addr: host_addr.map(|a| parse_ipv4(a).unwrap()),
        host_port: port,
        protocol: Protocol::Tcp,
        container_addr: parse_ipv4("172.17.0.2").unwrap(),
        container_port: 80,
    }
}

#[test]
fn title_names_the_process_and_port_with_a_middle_dot() {
    assert_eq!(
        title_for(&svc(5173, Some("node"), Binding::AllInterfaces)),
        "node · 5173"
    );
}

#[test]
fn title_is_the_bare_port_when_no_process_is_known() {
    assert_eq!(title_for(&svc(4000, None, Binding::AllInterfaces)), "4000");
}

#[test]
fn loopback_subtitle_is_the_exact_reassuring_sentence() {
    let open = HashSet::new();
    assert_eq!(
        subtitle_for(&svc(53, None, Binding::LoopbackOnly), &open, None),
        LOOPBACK_SUBTITLE,
    );
}

#[test]
fn beyond_reach_subtitle_does_not_borrow_the_loopback_sentence() {
    let open = HashSet::new();
    let subtitle = subtitle_for(&svc(22, None, Binding::BeyondReach(GLOBAL)), &open, None);
    assert!(
        !subtitle.contains("only on this machine"),
        "a BeyondReach subtitle must not claim the reassurance LoopbackOnly earns: {subtitle}"
    );
    assert!(
        subtitle.contains("IPv6"),
        "a BeyondReach subtitle must name the reason: {subtitle}"
    );
    assert!(
        subtitle.contains("porthole doctor"),
        "a BeyondReach subtitle must point at doctor's IPv6 check: {subtitle}"
    );
    assert_eq!(
        BEYOND_REACH_SUBTITLE,
        "reachable over IPv6 — porthole manages IPv4 rules only and cannot open or close it. \
         Run `porthole doctor` to check your IPv6 exposure."
    );
}

#[test]
fn an_already_open_network_facing_service_is_marked_without_a_new_claim() {
    let mut open = HashSet::new();
    open.insert(5173);
    assert_eq!(
        subtitle_for(
            &svc(5173, Some("node"), Binding::AllInterfaces),
            &open,
            None
        ),
        "already open · 0.0.0.0"
    );
}

#[test]
fn two_already_open_rows_sharing_a_port_still_read_as_two_sockets() {
    let mut open = HashSet::new();
    open.insert(53);
    let wildcard = svc(53, None, Binding::AllInterfaces);
    let specific = svc(53, None, Binding::Specific(parse_ipv4("10.0.0.5").unwrap()));
    let wildcard_subtitle = subtitle_for(&wildcard, &open, None);
    let specific_subtitle = subtitle_for(&specific, &open, None);
    assert_ne!(
        wildcard_subtitle, specific_subtitle,
        "two already-open sockets sharing a port must not render identically"
    );
    assert!(
        wildcard_subtitle.contains("0.0.0.0"),
        "got: {wildcard_subtitle}"
    );
    assert!(
        specific_subtitle.contains("10.0.0.5"),
        "got: {specific_subtitle}"
    );
}

#[test]
fn a_network_facing_service_shows_its_own_bind_address() {
    let open = HashSet::new();
    assert_eq!(
        subtitle_for(
            &svc(5173, Some("node"), Binding::AllInterfaces),
            &open,
            None
        ),
        "0.0.0.0"
    );
    let specific = parse_ipv4("10.0.0.5").unwrap();
    assert_eq!(
        subtitle_for(
            &svc(5173, Some("node"), Binding::Specific(specific)),
            &open,
            None
        ),
        "10.0.0.5"
    );
}

#[test]
fn only_loopback_and_beyond_reach_are_non_actionable() {
    let open = HashSet::new();
    assert!(is_actionable(
        &svc(5173, None, Binding::AllInterfaces),
        &open
    ));
    assert!(is_actionable(
        &svc(
            5173,
            None,
            Binding::Specific(parse_ipv4("10.0.0.5").unwrap())
        ),
        &open
    ));
    assert!(!is_actionable(
        &svc(5173, None, Binding::LoopbackOnly),
        &open
    ));
    assert!(!is_actionable(
        &svc(5173, None, Binding::BeyondReach(GLOBAL)),
        &open
    ));
}

#[test]
fn an_already_open_port_is_not_actionable_even_though_network_facing() {
    let mut open = HashSet::new();
    open.insert(5173);
    assert!(!is_actionable(
        &svc(5173, None, Binding::AllInterfaces),
        &open
    ));
}

#[test]
fn group_rank_orders_actionable_before_beyond_reach_before_loopback() {
    assert!(group_rank(&Binding::AllInterfaces) < group_rank(&Binding::BeyondReach(GLOBAL)));
    assert!(group_rank(&Binding::BeyondReach(GLOBAL)) < group_rank(&Binding::LoopbackOnly));
}

#[test]
fn a_published_row_names_the_address_docker_published_it_on() {
    let open = HashSet::new();
    let list = [published(8080, None)];
    assert_eq!(
        subtitle_for(
            &svc(8080, Some("node"), Binding::AllInterfaces),
            &open,
            Some(&list)
        ),
        "0.0.0.0 · docker: published on every interface"
    );

    let list = [published(5432, Some("127.0.0.1"))];
    assert_eq!(
        subtitle_for(&svc(5432, None, Binding::LoopbackOnly), &open, Some(&list)),
        format!("{LOOPBACK_SUBTITLE} · docker: published on 127.0.0.1")
    );
}

#[test]
fn a_row_docker_does_not_publish_says_nothing_about_docker() {
    let open = HashSet::new();
    let list = [published(8080, None)];
    assert_eq!(
        subtitle_for(&svc(4000, None, Binding::AllInterfaces), &open, Some(&list)),
        "0.0.0.0"
    );
}

#[test]
fn a_row_carries_no_docker_text_when_there_is_no_checked_list() {
    let open = HashSet::new();
    let service = svc(8080, Some("node"), Binding::AllInterfaces);
    for state in [DockerPorts::NotChecked, DockerPorts::Unavailable] {
        assert_eq!(
            subtitle_for(&service, &open, state.checked()),
            subtitle_without_docker(&service, &open),
            "{state:?}"
        );
    }
}

#[test]
fn a_section_nobody_has_asked_about_docker_yet_reports_no_failure() {
    assert_eq!(
        DockerPorts::NotChecked.note(),
        Some(DOCKER_NOT_CHECKED_NOTE)
    );
    assert_eq!(
        DockerPorts::Unavailable.note(),
        Some(DOCKER_UNAVAILABLE_NOTE)
    );
    assert_eq!(DockerPorts::Known(Vec::new()).note(), None);

    let not_checked = DOCKER_NOT_CHECKED_NOTE.to_lowercase();
    for failure_word in ["could not be reached", "unavailable", "error"] {
        assert!(
            !not_checked.contains(failure_word),
            "the not-checked note must not report a failure: {DOCKER_NOT_CHECKED_NOTE}"
        );
    }
}

#[test]
fn a_published_port_on_the_other_protocol_is_not_this_rows_docker_port() {
    let mut udp = published(8080, None);
    udp.protocol = Protocol::Udp;
    assert!(docker_for(8080, Protocol::Tcp, &[udp]).is_none());
    assert!(docker_for(8080, Protocol::Udp, &[udp]).is_some());
}

#[test]
fn the_unavailable_note_says_porthole_could_not_check_not_that_there_is_nothing() {
    let note = DOCKER_UNAVAILABLE_NOTE.to_lowercase();
    assert!(note.contains("unavailable"), "{DOCKER_UNAVAILABLE_NOTE}");
    assert!(note.contains("cannot say"), "{DOCKER_UNAVAILABLE_NOTE}");
}

#[test]
fn the_first_of_two_entries_for_a_port_is_the_one_a_row_names() {
    let list = [
        published(80, None),
        published(8080, Some("127.0.0.1")),
        published(8080, Some("10.0.0.5")),
    ];
    assert_eq!(
        docker_for(8080, Protocol::Tcp, &list).unwrap().host_addr,
        Some(Ipv4Addr::new(127, 0, 0, 1))
    );
}

#[test]
fn only_a_loopback_service_published_on_loopback_can_be_forwarded() {
    let on_loopback = [published(3000, Some("127.0.0.1"))];
    let everywhere = [published(3000, None)];
    let elsewhere = [published(3000, Some("10.0.0.5"))];
    let private = svc(3000, None, Binding::LoopbackOnly);
    assert_eq!(forward_port_for(&private, Some(&on_loopback)), Some(3000));
    assert_eq!(forward_port_for(&private, Some(&everywhere)), None);
    assert_eq!(forward_port_for(&private, Some(&elsewhere)), None);
    assert_eq!(forward_port_for(&private, None), None);
    assert_eq!(
        forward_port_for(&svc(3000, None, Binding::AllInterfaces), Some(&on_loopback)),
        None
    );
    let mut udp_service = svc(3000, None, Binding::LoopbackOnly);
    udp_service.protocol = Protocol::Udp;
    let mut udp_list = published(3000, Some("127.0.0.1"));
    udp_list.protocol = Protocol::Udp;
    assert_eq!(forward_port_for(&udp_service, Some(&[udp_list])), None);
}

#[test]
fn the_rows_come_in_order_of_what_can_be_done_about_them() {
    let mut section = ListeningSection::new();
    section.set_services(&[
        svc(1, None, Binding::LoopbackOnly),
        svc(2, None, Binding::BeyondReach(GLOBAL)),
        svc(3, None, Binding::AllInterfaces),
        svc(4, None, Binding::LoopbackOnly),
        svc(5, None, Binding::Specific(Ipv4Addr::new(10, 0, 0, 5))),
    ]);
    let ports: Vec<u16> = section.rows().iter().map(|r| r.port()).collect();
    assert_eq!(ports, vec![3, 5, 2, 1, 4]);
    assert!(section.rows()[2].is_warned());
    assert!(!section.rows()[3].is_warned());
    assert_eq!(section.rows()[0].open_tooltip(), "Open port 3");
    assert_eq!(section.activate_open(0), Some(3));
    assert_eq!(section.activate_open(2), None);
    assert_eq!(section.activate_open(9), None);
    assert!(section.open_button_for(1));
    assert!(!section.open_button_for(3));
}

#[test]
fn a_scan_failure_survives_everything_but_a_scan() {
    let mut section = ListeningSection::new();
    section.set_open_ports(&[5173]);
    section.set_docker_unavailable();
    assert!(section.loading_page().is_some());
    assert!(section.status_page().is_none());
    assert_eq!(
        section.group_description().as_deref(),
        Some(DOCKER_UNAVAILABLE_NOTE)
    );

    section.set_scan_failed("could not read /proc");
    section.set_open_ports(&[5173]);
    section.set_open_ports_unknown();
    section.set_docker_ports(&[]);
    let page = section.error_page().unwrap();
    assert_eq!(page.title, "Could not check what's listening");
    assert_eq!(page.description.as_deref(), Some("could not read /proc"));
    assert!(page.error);
    assert!(section.status_page().is_none());
    assert!(section.loading_page().is_none());

    section.set_services(&[]);
    assert!(section.error_page().is_none());
    assert_eq!(
        section.status_page().unwrap().title,
        "Nothing else is listening"
    );
}

#[test]
fn what_arrives_first_makes_no_difference() {
    let services = [
        svc(5173, Some("node"), Binding::AllInterfaces),
        svc(3000, None, Binding::LoopbackOnly),
    ];
    let docker = [published(3000, Some("127.0.0.1"))];
    let mut one = ListeningSection::new();
    one.set_services(&services);
    one.set_open_ports(&[5173]);
    one.set_docker_ports(&docker);
    let mut other = ListeningSection::new();
    other.set_docker_ports(&docker);
    other.set_open_ports(&[5173]);
    other.set_services(&services);
    for section in [&one, &other] {
        assert_eq!(section.rows()[0].title(), "node · 5173");
        assert_eq!(section.rows()[0].subtitle(), "already open · 0.0.0.0");
        assert!(!section.open_button_for(0));
        assert!(section.is_marked_docker(1));
        assert!(!section.is_marked_docker(0));
        assert_eq!(
            section.rows()[1].docker_tooltip().as_deref(),
            Some("docker: published on 127.0.0.1")
        );
        assert_eq!(section.forward_button_for(1), Some(3000));
        assert_eq!(section.forward_button_for(0), None);
        assert_eq!(section.forward_button_for(7), None);
        assert_eq!(section.group_description(), None);
    }

    one.set_open_ports_unknown();
    assert_eq!(one.rows()[0].subtitle(), "0.0.0.0");
    assert!(one.open_button_for(0));
    one.set_docker_unavailable();
    assert!(!one.is_marked_docker(1));
    assert_eq!(
        one.group_description().as_deref(),
        Some(DOCKER_UNAVAILABLE_NOTE)
    );
}

#[test]
fn before_docker_has_answered_the_list_says_it_was_not_checked() {
    let mut section = ListeningSection::new();
    assert_eq!(
        section.group_description().as_deref(),
        Some(DOCKER_NOT_CHECKED_NOTE)
    );
    section.set_services(&[svc(1, None, Binding::AllInterfaces)]);
    assert_eq!(
        section.group_description().as_deref(),
        Some(DOCKER_NOT_CHECKED_NOTE)
    );
}

#[test]
fn what_is_said_of_docker_does_not_wait_for_a_scan_or_outlast_an_answer() {
    let mut section = ListeningSection::new();
    section.set_services(&[svc(1, None, Binding::AllInterfaces)]);
    section.set_services(&[]);
    section.set_docker_ports(&[]);
    assert_eq!(section.group_description(), None);
    section.set_scan_failed("could not read /proc");
    assert_eq!(section.group_description(), None);
    section.set_docker_unavailable();
    assert_eq!(
        section.group_description().as_deref(),
        Some(DOCKER_UNAVAILABLE_NOTE)
    );
}
