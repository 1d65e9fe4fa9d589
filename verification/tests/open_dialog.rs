//! The open dialog.
//!
//! Ports and durations are read by parsers outside this library. The tests
//! hand in what such a parser answers, and check what the dialog makes of it;
//! they say nothing of the parsers themselves.

use porthole_gui::model::{
    Lifetime, Protocol, Published, ScopeSpec, WireRule, DEFAULT_DURATION, MAX_DURATION,
};
use porthole_gui::net::{parse_ipv4, Ipv4Addr, Ipv4Net};
use porthole_gui::open_dialog::{
    anyone_note, build_targets, device_subtitle, docker_answer_allows, duration_options,
    lifetime_wire_seconds, parse_custom_duration, parse_port_for_submit, port_text_to_read,
    scope_wire_string, CustomDuration, DeviceEntry, HelperCall, OpenDialog, OpenOutcome, Request,
    DOCKER_RESPONSE_CANCEL, DOCKER_RESPONSE_OPEN,
};
use porthole_gui::text::text_to_read;

fn resolved_device(name: &str, addr: &str) -> DeviceEntry {
    DeviceEntry {
        name: name.to_string(),
        resolved: Ok(parse_ipv4(addr).unwrap()),
    }
}

fn unresolved_device(name: &str, reason: &str) -> DeviceEntry {
    DeviceEntry {
        name: name.to_string(),
        resolved: Err(reason.to_string()),
    }
}

fn network() -> Ipv4Net {
    Ipv4Net::new(parse_ipv4("10.10.10.0").unwrap(), 24).unwrap()
}

fn published(port: u16) -> Published {
    Published {
        host_addr: None,
        host_port: port,
        protocol: Protocol::Tcp,
        container_addr: Ipv4Addr::new(172, 17, 0, 2),
        container_port: 80,
    }
}

fn opened_rule() -> WireRule {
    WireRule {
        id: "abc".to_string(),
        port: 5173,
        protocol: "tcp".to_string(),
        target: "10.10.10.0/24".to_string(),
        scope: "network".to_string(),
        backend: "firewalld".to_string(),
        opened_at: 1,
        expires_at: 2,
        uid: 1000,
        container_addr: String::new(),
        container_port: 0,
        published_port: 0,
    }
}

#[test]
fn the_duration_options_are_exactly_the_five_the_spec_names() {
    let labels: Vec<&str> = duration_options().iter().map(|(l, _)| *l).collect();
    assert_eq!(
        labels,
        vec!["15 minutes", "1 hour", "4 hours", "8 hours", "Until reboot"]
    );
}

#[test]
fn no_duration_option_exceeds_the_ceiling() {
    for (label, lifetime) in duration_options() {
        if let Lifetime::For(d) = lifetime {
            assert!(d <= MAX_DURATION, "{label} ({d:?}) exceeds the ceiling");
        }
    }
}

#[test]
fn the_one_hour_option_is_built_from_the_shared_default_constant() {
    assert_eq!(
        duration_options()[1],
        ("1 hour", Lifetime::For(DEFAULT_DURATION))
    );
}

#[test]
fn the_ceiling_option_is_built_from_the_shared_max_duration_constant() {
    assert_eq!(
        duration_options()[3],
        ("8 hours", Lifetime::For(MAX_DURATION))
    );
}

#[test]
fn the_fixed_durations_are_the_ones_their_labels_say() {
    let lifetimes: Vec<Lifetime> = duration_options().iter().map(|(_, l)| *l).collect();
    assert_eq!(
        lifetimes,
        vec![
            Lifetime::For(15 * 60),
            Lifetime::For(60 * 60),
            Lifetime::For(4 * 60 * 60),
            Lifetime::For(8 * 60 * 60),
            Lifetime::UntilReboot,
        ]
    );
}

#[test]
fn a_custom_duration_the_helper_would_take_is_taken_here_too() {
    for (text, secs) in [("20m", 1200u64), ("45s", 45), ("2h", 7200), (" 20m ", 1200)] {
        assert_eq!(text_to_read(text).unwrap(), text.trim());
        match parse_custom_duration(text, Ok(secs)) {
            CustomDuration::Valid(d) => assert_eq!(d, secs, "{text}"),
            CustomDuration::Empty => panic!("{text} read as empty"),
            CustomDuration::Invalid(m) => panic!("{text} refused: {m}"),
        }
    }
}

#[test]
fn an_empty_custom_duration_is_not_an_error_and_is_not_a_duration() {
    for read in [Ok(1200), Err("no duration".to_string())] {
        assert!(matches!(
            parse_custom_duration("", read.clone()),
            CustomDuration::Empty
        ));
        assert!(matches!(
            parse_custom_duration("   ", read),
            CustomDuration::Empty
        ));
    }
}

#[test]
fn zero_and_anything_over_the_ceiling_are_refused_here() {
    for bad in [
        "0m", "0s", "9h", "481m", "28801s", "24h", "20", "1h30m", "-5m", "abc",
    ] {
        assert!(
            matches!(
                parse_custom_duration(bad, Err("refused".to_string())),
                CustomDuration::Invalid(_)
            ),
            "{bad} was not refused"
        );
    }
}

#[test]
fn the_refusal_shown_is_the_cores_own_sentence_not_a_second_wording() {
    for bad in ["0m", "9h", "20"] {
        let expected = format!("`{bad}` is not a duration porthole takes");
        match parse_custom_duration(bad, Err(expected.clone())) {
            CustomDuration::Invalid(message) => assert_eq!(message, expected, "{bad}"),
            _ => panic!("{bad} was not refused"),
        }
    }
}

#[test]
fn the_ceiling_this_field_refuses_at_is_max_duration_itself() {
    // Where the ceiling lies is the duration parser's to say. The field keeps
    // no ceiling of its own beside it: it takes the answer at the ceiling
    // whole, and shows the refusal past it.
    let at_ceiling = format!("{MAX_DURATION}s");
    let over = format!("{}s", MAX_DURATION + 1);
    assert!(matches!(
        parse_custom_duration(&at_ceiling, Ok(MAX_DURATION)),
        CustomDuration::Valid(MAX_DURATION)
    ));
    assert!(matches!(
        parse_custom_duration(&over, Err("over the ceiling".to_string())),
        CustomDuration::Invalid(_)
    ));
}

#[test]
fn the_note_on_anyone_is_one_dry_sentence_with_no_scolding() {
    let note = anyone_note();
    assert_eq!(note.matches('.').count(), 1, "one sentence: {note}");
    for scolding in ["careful", "dangerous", "warning", "risk", "are you sure"] {
        assert!(!note.to_lowercase().contains(scolding), "{note}");
    }
    assert!(
        note.contains("anyone who can reach this machine"),
        "the note must say who reaches the machine, not who the machine \
         reaches: {note}"
    );
    assert!(
        !note.contains("your machine can reach"),
        "the wrong direction: {note}"
    );
    let lowered = note.to_lowercase();
    for act in ["open", "forward", "redirect"] {
        assert!(
            !lowered.contains(act),
            "the note is shared by both acts and must name neither ({act}): {note}"
        );
    }
}

#[test]
fn this_network_is_first_and_plain_before_a_subnet_is_known() {
    let targets = build_targets(None, &[]);
    assert_eq!(targets[0].label, "This network");
    assert_eq!(targets[0].scope, Some(ScopeSpec::CurrentSubnet));
    assert!(!targets[0].significant);
}

#[test]
fn this_network_names_the_actual_subnet_once_known() {
    let net = Ipv4Net::new(parse_ipv4("192.168.177.0").unwrap(), 24).unwrap();
    let targets = build_targets(Some(net), &[]);
    assert_eq!(targets[0].label, "This network (192.168.177.0/24)");
}

#[test]
fn anyone_is_last_and_the_only_significant_entry() {
    let targets = build_targets(None, &[resolved_device("phone", "10.10.10.245")]);
    assert_eq!(targets.last().unwrap().label, "Anyone");
    assert_eq!(targets.last().unwrap().scope, Some(ScopeSpec::Anywhere));
    assert!(targets.last().unwrap().significant);
    assert!(targets[..targets.len() - 1].iter().all(|t| !t.significant));
}

#[test]
fn saved_devices_sit_between_this_network_and_anyone_in_the_order_given() {
    let targets = build_targets(
        None,
        &[
            resolved_device("phone", "10.10.10.245"),
            resolved_device("laptop", "10.10.10.17"),
        ],
    );
    let labels: Vec<&str> = targets.iter().map(|t| t.label.as_str()).collect();
    assert_eq!(labels, vec!["This network", "phone", "laptop", "Anyone"]);
}

#[test]
fn a_resolved_device_carries_the_address_it_would_open_towards() {
    let targets = build_targets(None, &[resolved_device("phone", "10.10.10.245")]);
    assert_eq!(
        targets[1].scope,
        Some(ScopeSpec::Host(parse_ipv4("10.10.10.245").unwrap()))
    );
    assert_eq!(
        targets[1].subtitle.as_deref(),
        Some("resolves to 10.10.10.245")
    );
}

#[test]
fn an_unresolvable_device_is_still_listed_and_says_why_but_names_no_scope() {
    let reason = "`phone` (bc:24:11:5e:1c:6e) is not on this network right now";
    let targets = build_targets(None, &[unresolved_device("phone", reason)]);
    assert_eq!(targets[1].label, "phone");
    assert_eq!(targets[1].scope, None);
    assert_eq!(targets[1].subtitle.as_deref(), Some(reason));
}

#[test]
fn an_unresolvable_devices_reason_is_the_resolvers_own_text_not_a_rewording() {
    let absent = "`phone` (bc:24:11:5e:1c:6e) is not on this network right now";
    let broken = "command failed: ip -4 neigh show";
    assert_eq!(device_subtitle(&unresolved_device("phone", absent)), absent);
    assert_eq!(device_subtitle(&unresolved_device("phone", broken)), broken);
}

#[test]
fn port_zero_does_not_parse_for_submit() {
    assert_eq!(port_text_to_read("0"), "0");
    assert_eq!(parse_port_for_submit(&Ok(0)), None);
    assert_eq!(parse_port_for_submit(&Err("not a port".to_string())), None);
}

#[test]
fn a_real_port_parses_for_submit() {
    assert_eq!(port_text_to_read("5173"), "5173");
    assert_eq!(port_text_to_read(" 5173 "), "5173");
    assert_eq!(parse_port_for_submit(&Ok(5173)), Some(5173));
}

#[test]
fn scope_wire_strings_round_trip_through_the_helpers_own_parser() {
    // The words the helper's parser reads back, written out: that parser is
    // not linked here. A host is read back as an address.
    let cases = [
        (ScopeSpec::CurrentSubnet, "subnet"),
        (ScopeSpec::Anywhere, "any"),
        (ScopeSpec::Network(network()), "10.10.10.0/24"),
        (
            ScopeSpec::Host(parse_ipv4("10.10.10.42").unwrap()),
            "10.10.10.42",
        ),
    ];
    for (scope, expected) in cases {
        let wire = scope_wire_string(&scope);
        assert_eq!(wire, expected);
        if let ScopeSpec::Host(addr) = scope {
            assert_eq!(parse_ipv4(&wire), Some(addr), "round trip for {wire}");
        }
    }
}

#[test]
fn lifetime_seconds_use_zero_for_until_reboot_not_a_real_duration() {
    assert_eq!(lifetime_wire_seconds(Lifetime::UntilReboot), 0);
    assert_eq!(lifetime_wire_seconds(Lifetime::For(3600)), 3600);
    assert_eq!(lifetime_wire_seconds(Lifetime::For(MAX_DURATION)), 28800);
}

#[test]
fn a_fresh_dialog_sends_nothing_until_it_has_a_port() {
    let mut dialog = OpenDialog::new();
    assert_eq!(
        dialog.duration_labels(),
        vec![
            "15 minutes",
            "1 hour",
            "4 hours",
            "8 hours",
            "Until reboot",
            "Custom"
        ]
    );
    assert_eq!(dialog.all_lifetimes().len(), 5);
    assert!(!dialog.can_submit());
    assert!(!dialog.open_button_is_sensitive());

    assert_eq!(dialog.active_chip(), 1);
    assert_eq!(dialog.active_target(), 0);

    dialog.set_port_text(" 5173 ", Ok(5173));
    assert_eq!(dialog.port_text(), " 5173 ");
    assert!(dialog.open_button_is_sensitive());
    assert_eq!(
        dialog.request(),
        Some(Request {
            port: 5173,
            protocol: Protocol::Tcp,
            lifetime: Lifetime::For(DEFAULT_DURATION),
            scope: ScopeSpec::CurrentSubnet,
        })
    );
    dialog.press_protocol(Protocol::Udp);
    assert_eq!(dialog.protocol(), Protocol::Udp);
    dialog.press_protocol(Protocol::Tcp);
    assert_eq!(dialog.protocol(), Protocol::Tcp);

    dialog.set_port_text("x", Err("not a port".to_string()));
    assert_eq!(dialog.port(), None);
    assert!(!dialog.open_button_is_sensitive());
}

#[test]
fn a_custom_duration_is_revealed_refused_and_taken() {
    let mut dialog = OpenDialog::for_port(5173, Ok(5173));
    assert_eq!(dialog.port(), Some(5173));
    assert!(!dialog.custom_duration_is_revealed());

    dialog.press_duration(5);
    assert!(dialog.custom_duration_is_revealed());
    assert_eq!(dialog.custom_duration_error(), None);
    assert_eq!(dialog.selected_lifetime(), None);
    assert!(!dialog.can_submit());
    assert!(!dialog.open_button_is_sensitive());

    dialog.set_custom_duration_text("9h", Err("over the ceiling".to_string()));
    assert_eq!(
        dialog.custom_duration_error().as_deref(),
        Some("over the ceiling")
    );
    assert!(!dialog.open_button_is_sensitive());

    // Another chip takes the refusal off screen, and the field's text stays.
    dialog.press_duration(0);
    assert_eq!(dialog.custom_duration_error(), None);
    assert_eq!(dialog.selected_lifetime(), Some(Lifetime::For(900)));
    dialog.press_duration(5);
    assert!(dialog.custom_duration_error().is_some());

    dialog.set_custom_duration_text("20m", Ok(1200));
    assert_eq!(dialog.custom_duration_error(), None);
    assert_eq!(dialog.selected_lifetime(), Some(Lifetime::For(1200)));
    assert!(dialog.open_button_is_sensitive());

    dialog.press_duration(6);
    assert_eq!(dialog.selected_lifetime(), Some(Lifetime::For(1200)));
}

#[test]
fn a_choice_survives_the_devices_arriving_after_it() {
    let mut dialog = OpenDialog::new();
    assert!(dialog.select_target(1));
    assert_eq!(dialog.selected_scope(), Some(ScopeSpec::Anywhere));
    dialog.set_devices(&[
        resolved_device("phone", "10.10.10.245"),
        unresolved_device("laptop", "not here"),
    ]);
    dialog.set_current_network(network());
    assert_eq!(
        dialog.target_labels(),
        vec!["This network (10.10.10.0/24)", "phone", "laptop", "Anyone"]
    );
    assert_eq!(
        dialog.target_subtitles(),
        vec![
            String::new(),
            "resolves to 10.10.10.245".to_string(),
            "not here".to_string(),
            anyone_note(),
        ]
    );
    assert_eq!(dialog.selected_scope(), Some(ScopeSpec::Anywhere));
    assert_eq!(dialog.note_for_anyone(), anyone_note());
    assert!(dialog.is_marked_significant(3));
    assert!(!dialog.is_marked_significant(1));
    assert!(!dialog.is_marked_significant(4));
}

#[test]
fn a_choice_the_list_can_no_longer_honour_becomes_this_network() {
    let mut dialog = OpenDialog::new();
    dialog.set_devices(&[resolved_device("phone", "10.10.10.245")]);
    assert!(dialog.select_target(1));
    assert_eq!(
        dialog.selected_scope(),
        Some(ScopeSpec::Host(Ipv4Addr::new(10, 10, 10, 245)))
    );
    dialog.set_devices(&[unresolved_device("phone", "not here")]);
    assert_eq!(dialog.selected_scope(), Some(ScopeSpec::CurrentSubnet));
    assert!(!dialog.is_target_selectable(1));
    assert!(!dialog.select_target(1));
    assert!(!dialog.select_target(9));
    assert_eq!(dialog.selected_scope(), Some(ScopeSpec::CurrentSubnet));

    // A device that comes back is not chosen again by itself.
    dialog.set_devices(&[resolved_device("phone", "10.10.10.245")]);
    assert_eq!(dialog.selected_scope(), Some(ScopeSpec::CurrentSubnet));
}

#[test]
fn a_device_called_anyone_is_not_mistaken_for_the_target() {
    let mut dialog = OpenDialog::new();
    dialog.set_devices(&[resolved_device("Anyone", "10.10.10.245")]);
    assert_eq!(
        dialog.target_labels(),
        vec!["This network", "Anyone", "Anyone"]
    );
    assert!(!dialog.is_marked_significant(1));
    assert!(dialog.is_marked_significant(2));
    assert!(dialog.select_target(1));
    dialog.set_current_network(network());
    assert_eq!(
        dialog.selected_scope(),
        Some(ScopeSpec::Host(Ipv4Addr::new(10, 10, 10, 245)))
    );
}

#[test]
fn devices_that_could_not_be_read_say_so_rather_than_being_none() {
    let mut dialog = OpenDialog::new();
    assert_eq!(dialog.target_group_description(), None);
    dialog.set_devices_unreadable("could not read devices.toml");
    assert_eq!(
        dialog.target_group_description().as_deref(),
        Some("could not read devices.toml")
    );
    assert_eq!(dialog.target_labels(), vec!["This network", "Anyone"]);
    dialog.set_devices(&[]);
    assert_eq!(dialog.target_group_description(), None);
}

#[test]
fn a_published_port_is_explained_before_anything_is_sent() {
    let mut dialog = OpenDialog::for_port(9000, Ok(9000));
    let advice = Some("Docker publishes 9000/tcp".to_string());
    assert!(dialog.docker_to_consult().is_none());
    assert!(dialog.docker_alert(advice.clone()).is_none());

    dialog.set_docker_ports(&[published(9000)]);
    assert_eq!(dialog.docker_to_consult().unwrap().len(), 1);
    assert!(dialog.docker_alert(None).is_none());
    let alert = dialog.docker_alert(advice.clone()).unwrap();
    assert_eq!(alert.heading, "Docker already publishes this port");
    assert_eq!(alert.body, "Docker publishes 9000/tcp");
    assert_eq!(alert.close_response, DOCKER_RESPONSE_CANCEL);
    assert_eq!(alert.second.label, "Open Anyway");
    assert!(docker_answer_allows(&alert.second.id));
    assert!(!docker_answer_allows(&alert.close_response));
    assert!(!docker_answer_allows(""));
    assert!(docker_answer_allows(DOCKER_RESPONSE_OPEN));

    dialog.set_port_text("", Err("not a port".to_string()));
    assert!(dialog.docker_alert(advice.clone()).is_none());
    dialog.set_port_text("9000", Ok(9000));
    dialog.set_docker_unknown();
    assert!(dialog.docker_alert(advice).is_none());
}

#[test]
fn a_forwarding_dialog_says_so_and_sends_a_forward() {
    let mut dialog = OpenDialog::for_forward(3000, Ok(3000));
    assert_eq!(dialog.forwards(), Some(3000));
    assert_eq!(dialog.title(), "Forward a port");
    assert_eq!(dialog.port_field_title(), "Port on the network");
    assert_eq!(
        dialog.port_group_description().as_deref(),
        Some(
            "What arrives on this port from the network is redirected to the container \
             that publishes 3000 on this machine. Forwards are TCP."
        )
    );
    assert!(!dialog.offers_a_protocol_choice());
    assert_eq!(dialog.target_group_title(), "Forward towards");
    assert_eq!(dialog.open_button_label(), "Forward");

    // A hidden toggle that is pressed all the same changes nothing.
    dialog.press_protocol(Protocol::Udp);
    assert_eq!(dialog.protocol(), Protocol::Tcp);

    dialog.set_docker_ports(&[published(3000)]);
    assert!(dialog.docker_alert(Some("advice".to_string())).is_none());

    dialog.set_port_text("8443", Ok(8443));
    dialog.press_duration(4);
    let request = dialog.request().unwrap();
    match dialog.call_for(&request) {
        HelperCall::Forward {
            port,
            protocol,
            scope,
            seconds,
            published_port,
        } => {
            assert_eq!(port, 8443);
            assert_eq!(protocol, "tcp");
            assert_eq!(scope, "subnet");
            assert_eq!(seconds, 0);
            assert_eq!(published_port, 3000);
        }
        HelperCall::Open { .. } => panic!("a forward was sent as an open"),
    }
}

#[test]
fn an_open_sends_what_was_chosen() {
    let mut dialog = OpenDialog::for_port(53, Ok(53));
    assert_eq!(dialog.title(), "Open a port");
    assert_eq!(dialog.port_field_title(), "Port");
    assert_eq!(dialog.port_group_description(), None);
    assert!(dialog.offers_a_protocol_choice());
    dialog.press_protocol(Protocol::Udp);
    dialog.press_duration(0);
    dialog.set_devices(&[resolved_device("phone", "10.10.10.245")]);
    assert!(dialog.select_target(1));
    let request = dialog.request().unwrap();
    match dialog.call_for(&request) {
        HelperCall::Open {
            port,
            protocol,
            scope,
            seconds,
        } => {
            assert_eq!(port, 53);
            assert_eq!(protocol, "udp");
            assert_eq!(scope, "10.10.10.245");
            assert_eq!(seconds, 900);
        }
        HelperCall::Forward { .. } => panic!("an open was sent as a forward"),
    }
}

#[test]
fn the_button_is_held_while_the_helper_decides_and_comes_back_to_what_the_form_justifies() {
    let mut dialog = OpenDialog::for_port(5173, Ok(5173));
    assert!(dialog.begin_call());
    assert!(!dialog.open_button_is_sensitive());
    // A keystroke meanwhile does not hand the button back.
    dialog.set_port_text("517", Ok(517));
    assert!(!dialog.open_button_is_sensitive());
    dialog.call_delayed();
    assert!(dialog.busy().is_showing());
    dialog.set_port_text("", Err("not a port".to_string()));

    let outcome = dialog.call_answered(Err("not authorized".to_string()), true);
    assert!(matches!(outcome, OpenOutcome::Failed { toast } if toast == "not authorized"));
    assert!(!dialog.busy().is_busy());
    assert!(!dialog.busy().is_showing());
    assert!(!dialog.open_button_is_sensitive());

    dialog.set_port_text("5173", Ok(5173));
    assert!(dialog.open_button_is_sensitive());
    dialog.begin_call();
    match dialog.call_answered(Ok(opened_rule()), false) {
        OpenOutcome::Opened { rule, close } => {
            assert_eq!(rule.id, "abc");
            assert!(!close, "a dismissed dialog is not closed again");
        }
        OpenOutcome::Failed { toast } => panic!("{toast}"),
    }
}
