//! The invented machine, and the decisions around a picture of it.

use std::path::{Path, PathBuf};

use porthole_gui::model::Binding;
use porthole_gui::open_dialog::OpenDialog;
use porthole_gui::screenshot::{
    beside, devices_file_override, devices_pictures_done, dialog_pictures_done, empty_devices_dialog, fixture_devices,
    fixture_devices_dialog, fixture_docker, fixture_neighbours, fixture_open_dialog,
    fixture_rules, fixture_saved_devices, fixture_services, fixture_status, fixture_window,
    flag_value, picture_report, run_screenshot, APP_ID, DEVICES_APP_ID, DIALOG_APP_ID,
};

const NOW: u64 = 1_757_000_000;

fn beside_path(path: &Path, suffix: &str) -> PathBuf {
    let stem = path.file_stem().map(|s| s.to_string_lossy().to_string());
    let extension = path.extension().map(|e| e.to_string_lossy().to_string());
    path.with_file_name(beside(&stem, &extension, suffix))
}

#[test]
fn the_fixture_rules_cover_both_a_countdown_and_until_reboot() {
    let rules = fixture_rules(NOW);
    assert!(rules.iter().any(|r| r.expires_at != 0));
    assert!(rules.iter().any(|r| r.expires_at == 0));
}

#[test]
fn one_fixture_rule_redirects_rather_than_permits() {
    let rules = fixture_rules(NOW);
    assert!(rules.iter().any(|r| !r.container_addr.is_empty()));
    assert!(rules.iter().any(|r| r.container_addr.is_empty()));
}

#[test]
fn one_fixture_service_can_actually_be_forwarded() {
    let published_on_loopback: Vec<u16> = fixture_docker()
        .iter()
        .filter(|p| p.host_addr.is_some_and(|a| a.is_loopback()))
        .map(|p| p.host_port)
        .collect();
    assert!(fixture_services()
        .iter()
        .any(|s| matches!(s.binding, Binding::LoopbackOnly)
            && published_on_loopback.contains(&s.port)));
}

#[test]
fn a_fixture_service_shares_its_port_with_a_fixture_rule() {
    let open_ports: Vec<u16> = fixture_rules(NOW).iter().map(|r| r.port).collect();
    assert!(fixture_services()
        .iter()
        .any(|s| open_ports.contains(&s.port)));
}

#[test]
fn every_binding_variant_appears_at_least_once() {
    let services = fixture_services();
    assert!(services
        .iter()
        .any(|s| matches!(s.binding, Binding::AllInterfaces)));
    assert!(services
        .iter()
        .any(|s| matches!(s.binding, Binding::LoopbackOnly)));
    assert!(services
        .iter()
        .any(|s| matches!(s.binding, Binding::BeyondReach(_))));
}

#[test]
fn the_docker_fixture_names_a_port_one_of_the_fixture_services_listens_on() {
    let ports: Vec<u16> = fixture_services().iter().map(|s| s.port).collect();
    for published in fixture_docker() {
        assert!(
            ports.contains(&published.host_port),
            "no fixture service listens on {}",
            published.host_port
        );
    }
}

#[test]
fn the_device_fixture_has_one_that_does_not_resolve_and_one_long_name() {
    let devices = fixture_devices();
    assert!(devices.iter().any(|d| d.resolved.is_err()));
    assert!(
        devices.iter().any(|d| d.name.len() > 30),
        "a long device name is the case this fixture exists to show"
    );
}

#[test]
fn the_saved_device_fixture_has_a_long_name_and_one_that_does_not_resolve() {
    let saved = fixture_saved_devices();
    assert!(
        saved.iter().any(|d| d.name.len() > 30),
        "a long name is where a row that cannot take one shows itself"
    );
    assert!(
        saved.iter().any(|d| d.resolved.is_err()),
        "the state a typed MAC for a switched-off device produces must be rendered"
    );
}

#[test]
fn the_extra_device_images_sit_beside_the_first_one() {
    let path = Path::new("/x/devices.png");
    assert_eq!(
        beside_path(path, "empty"),
        PathBuf::from("/x/devices-empty.png")
    );
    assert_eq!(
        beside_path(path, "typed"),
        PathBuf::from("/x/devices-typed.png")
    );
}

#[test]
fn the_alert_image_sits_beside_the_dialog_image() {
    assert_eq!(
        beside_path(Path::new("/tmp/dialog.png"), "alert"),
        PathBuf::from("/tmp/dialog-alert.png")
    );
    assert_eq!(beside(&None, &None, "alert"), "screenshot-alert.png");
}

#[test]
fn the_fixture_status_is_an_installed_and_enforcing_firewall() {
    let status = fixture_status(NOW);
    assert!(status.firewall_available);
    assert!(status.firewall_active);
    assert!(!status.firewall_active_unknown);
}

#[test]
fn the_pictured_window_shows_one_of_everything() {
    let win = fixture_window(
        &fixture_rules(NOW),
        &fixture_services(),
        &fixture_docker(),
        &fixture_status(NOW),
        NOW,
        "no firewall",
    );
    assert_eq!(win.status_bar.text(), "firewalld 2.4.4 — enforcing");
    assert_eq!(win.open_now.countdown_text(0), "30:00 left");
    assert_eq!(win.open_now.countdown_text(1), "until reboot");
    assert!(win.open_now.is_marked_significant(1));
    assert!(win.open_now.is_marked_forward(2));
    let titles: Vec<String> = win.listening.rows().iter().map(|r| r.title()).collect();
    assert_eq!(
        titles,
        vec![
            "node · 5173",
            "4000",
            "docker-proxy · 9000",
            "sshd · 22",
            "docker-proxy · 3000",
            "code · 46715",
            "53",
        ]
    );
    assert_eq!(
        win.listening.rows()[0].subtitle(),
        "already open · 0.0.0.0"
    );
    assert!(win.listening.is_marked_docker(2));
    assert_eq!(win.listening.forward_button_for(4), Some(3000));
    assert_eq!(win.listening.forward_button_for(2), None);
    assert!(win.listening.rows()[3].is_warned());
}

#[test]
fn the_pictured_dialogs_show_the_invented_devices() {
    let dialog = fixture_open_dialog(OpenDialog::for_port(9000, Ok(9000)));
    assert_eq!(
        dialog.target_labels(),
        vec![
            "This network (10.10.10.0/24)",
            "phone",
            "living room television (the big one)",
            "laptop",
            "Anyone",
        ]
    );
    assert!(!dialog.is_target_selectable(3));
    assert_eq!(dialog.docker_to_consult().unwrap().len(), 2);

    let forwarding = fixture_open_dialog(OpenDialog::for_forward(3000, Ok(3000)));
    assert_eq!(forwarding.forwards(), Some(3000));
    assert!(forwarding.docker_to_consult().is_none());

    let devices = fixture_devices_dialog();
    assert_eq!(devices.saved_labels().len(), 3);
    assert_eq!(
        devices.neighbour_subtitles(),
        vec![
            "phone.example · 10.10.10.245 on wlo1",
            "_gateway · 10.10.10.31 on wlo1",
            "10.10.10.7 on enp3s0",
        ]
    );
    assert_eq!(fixture_neighbours().len(), 3);
    let empty = empty_devices_dialog();
    assert!(empty.saved_quiet().is_some());
    assert!(empty.neighbours_quiet_is_showing());
}

#[test]
fn a_flag_is_matched_exactly_and_takes_the_argument_after_it() {
    let args = |list: &[&str]| list.iter().map(|a| a.to_string()).collect::<Vec<String>>();
    let line = args(&["porthole-gui", "--screenshot-dialog", "a.png", "--screenshot", "b.png"]);
    assert_eq!(flag_value(&line, "--screenshot").as_deref(), Some("b.png"));
    assert_eq!(
        flag_value(&line, "--screenshot-dialog").as_deref(),
        Some("a.png")
    );
    assert_eq!(flag_value(&line, "--screenshot-devices"), None);
    assert_eq!(flag_value(&args(&["porthole-gui", "--screenshot"]), "--screenshot"), None);
    assert_eq!(flag_value(&[], "--screenshot"), None);
}

#[test]
fn a_picture_is_taken_in_a_development_build_only() {
    assert_eq!(run_screenshot("--screenshot", true), Ok(()));
    assert_eq!(
        run_screenshot("--screenshot", false),
        Err(
            "porthole-gui: --screenshot exists for development and is not available in \
             release builds"
                .to_string()
        )
    );
}

#[test]
fn a_run_succeeds_only_when_every_picture_was_written() {
    assert_eq!(
        picture_report("--screenshot", "/x/a.png", Ok(())),
        (
            "porthole-gui: wrote a screenshot to /x/a.png".to_string(),
            true
        )
    );
    assert_eq!(
        picture_report("--screenshot-devices", "/x/a.png", Err("no renderer".to_string())),
        (
            "porthole-gui: --screenshot-devices failed: no renderer".to_string(),
            false
        )
    );
    assert!(dialog_pictures_done(true, Some(true), true));
    assert!(!dialog_pictures_done(true, None, true));
    assert!(!dialog_pictures_done(true, Some(false), true));
    assert!(!dialog_pictures_done(false, Some(true), true));
    assert!(!dialog_pictures_done(true, Some(true), false));
    assert!(devices_pictures_done(true, true, Some(true)));
    assert!(devices_pictures_done(true, true, None));
    assert!(!devices_pictures_done(true, true, Some(false)));
    assert!(!devices_pictures_done(false, true, None));
    assert!(!devices_pictures_done(true, false, None));
}

#[test]
fn only_a_named_address_book_is_written() {
    assert_eq!(devices_file_override(&None), None);
    assert_eq!(devices_file_override(&Some(String::new())), None);
    assert_eq!(
        devices_file_override(&Some("/tmp/devices.toml".to_string())).as_deref(),
        Some("/tmp/devices.toml")
    );
}

#[test]
fn the_pictures_never_share_a_bus_name() {
    assert_ne!(APP_ID, DIALOG_APP_ID);
    assert_ne!(APP_ID, DEVICES_APP_ID);
    assert_ne!(DIALOG_APP_ID, DEVICES_APP_ID);
}
