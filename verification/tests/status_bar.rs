//! The status line and its banner.

use porthole_gui::model::{Alignment, WireStatus};
use porthole_gui::status_bar::{
    backend_name, errored_title, no_firewall_banner_title, state_word, undecodable_title,
    unreachable_title, StatusBar, COULD_NOT_DETERMINE_TITLE, NO_FIREWALL_TITLE, UNDECODABLE_TITLE,
};

/// The detail that confirms there is no firewall, as a stand-in for the
/// helper's own.
const NO_FIREWALL_MESSAGE: &str = "no firewall is installed: this port is already reachable";

fn status_with_detail(detail: &str) -> WireStatus {
    WireStatus {
        backend: String::new(),
        firewall_available: false,
        firewall_active: false,
        firewall_active_unknown: false,
        firewall_version: String::new(),
        detail: detail.to_string(),
        location: String::new(),
        interface: String::new(),
        address: String::new(),
        cidr: String::new(),
        rules: Vec::new(),
    }
}

fn installed() -> WireStatus {
    WireStatus {
        backend: "firewalld".to_string(),
        firewall_available: true,
        firewall_active: true,
        firewall_version: "2.4.4".to_string(),
        ..status_with_detail("")
    }
}

#[test]
fn the_no_firewall_title_does_not_itself_claim_reachability() {
    assert!(
        !NO_FIREWALL_TITLE.to_lowercase().contains("reachable"),
        "the banner title must not itself claim reachability: {NO_FIREWALL_TITLE}"
    );
}

#[test]
fn the_no_firewall_title_is_used_only_when_detail_confirms_it() {
    let confirmed = status_with_detail(NO_FIREWALL_MESSAGE);
    assert_eq!(
        no_firewall_banner_title(&confirmed, NO_FIREWALL_MESSAGE),
        NO_FIREWALL_TITLE
    );

    let ambiguous = status_with_detail("could not read /proc/net/dev: permission denied");
    assert_eq!(
        no_firewall_banner_title(&ambiguous, NO_FIREWALL_MESSAGE),
        COULD_NOT_DETERMINE_TITLE,
        "a detail that is not the confirming one must not be shown under the \
         confirmed-absence title"
    );
    assert_ne!(COULD_NOT_DETERMINE_TITLE, NO_FIREWALL_TITLE);
}

#[test]
fn the_no_firewall_and_unreachable_titles_never_say_the_same_thing() {
    let unreachable = unreachable_title("could not reach the porthole helper: timed out");
    assert_ne!(unreachable, NO_FIREWALL_TITLE);
    assert!(
        !unreachable.contains("already reachable"),
        "an unreachable helper must not claim reachability either way: {unreachable}"
    );
}

#[test]
fn an_errored_reply_is_worded_apart_from_both_other_cases() {
    let errored = errored_title("not authorized: com.jacopobriccola.Porthole.List");
    let unreachable = unreachable_title("could not reach the porthole helper: timed out");
    assert_ne!(errored, unreachable);
    assert_ne!(errored, NO_FIREWALL_TITLE);
    assert!(
        !errored.contains("already reachable"),
        "an errored reply must not claim reachability either way: {errored}"
    );
    assert!(
        !errored.to_lowercase().contains("could not reach"),
        "the helper answered here -- \"could not reach\" is the other case's claim: {errored}"
    );
    assert!(
        errored.contains("not authorized"),
        "the helper's own error reason must survive verbatim: {errored}"
    );
}

#[test]
fn a_message_this_build_cannot_read_is_a_fourth_wording_and_claims_no_unreachability() {
    let unreachable = unreachable_title("could not reach the porthole helper: timed out");
    let errored = errored_title("not authorized: com.jacopobriccola.Porthole.List");
    assert_ne!(UNDECODABLE_TITLE, unreachable);
    assert_ne!(UNDECODABLE_TITLE, errored);
    assert_ne!(UNDECODABLE_TITLE, NO_FIREWALL_TITLE);
    assert!(
        !UNDECODABLE_TITLE.to_lowercase().contains("could not reach"),
        "the helper answered here: {UNDECODABLE_TITLE}"
    );
    assert!(
        !UNDECODABLE_TITLE.to_lowercase().contains("reachable"),
        "and this says nothing about whether any port is: {UNDECODABLE_TITLE}"
    );
    assert!(
        UNDECODABLE_TITLE.contains("porthole-helper.service"),
        "{UNDECODABLE_TITLE}"
    );
    assert!(
        UNDECODABLE_TITLE
            .to_lowercase()
            .contains("reopen this window"),
        "{UNDECODABLE_TITLE}"
    );
}

#[test]
fn the_banner_names_the_one_remedy_the_helpers_own_version_identified() {
    let helper_older = undecodable_title(Some(Alignment::HelperIsOlder));
    assert!(
        helper_older.contains("systemctl restart porthole-helper.service"),
        "{helper_older}"
    );
    assert!(
        !helper_older.to_lowercase().contains("reopen this window"),
        "reopening this window would start the same version again: {helper_older}"
    );

    let window_older = undecodable_title(Some(Alignment::ThisOneIsOlder));
    assert!(
        window_older.to_lowercase().contains("reopen"),
        "the window's own remedy, which is the one it cannot perform for itself: \
         {window_older}"
    );
    assert!(
        !window_older.contains("porthole-helper.service"),
        "restarting the newer half would change nothing: {window_older}"
    );

    assert_eq!(undecodable_title(None), UNDECODABLE_TITLE);
    assert_eq!(undecodable_title(Some(Alignment::Same)), UNDECODABLE_TITLE);

    assert_ne!(helper_older, window_older);
    assert_ne!(helper_older, UNDECODABLE_TITLE);
    assert_ne!(window_older, UNDECODABLE_TITLE);
    for title in [helper_older, window_older] {
        assert!(!title.to_lowercase().contains("could not reach"), "{title}");
        assert!(title.contains("cannot read"), "{title}");
    }
}

#[test]
fn the_errored_title_does_not_assert_a_refusal() {
    let errored = errored_title("could not read /run/porthole/state.json: permission denied");
    assert!(
        !errored.to_lowercase().contains("refus"),
        "the errored title must not claim a refusal: {errored}"
    );
    assert!(
        !errored.to_lowercase().contains("declin"),
        "the errored title must not claim a decision to decline: {errored}"
    );
}

#[test]
fn state_word_keeps_confirmed_stopped_apart_from_unknown() {
    let mut status = WireStatus {
        backend: "firewalld".to_string(),
        firewall_available: true,
        firewall_active: false,
        firewall_active_unknown: false,
        firewall_version: String::new(),
        detail: String::new(),
        location: String::new(),
        interface: String::new(),
        address: String::new(),
        cidr: String::new(),
        rules: Vec::new(),
    };
    assert_eq!(state_word(&status), "not running");
    status.firewall_active_unknown = true;
    assert_eq!(state_word(&status), "status unknown");
    assert_ne!(
        state_word(&status),
        "not running",
        "a confirmed-stopped firewall and one porthole could not read must not print the same word"
    );
}

#[test]
fn an_installed_firewall_is_an_ordinary_dim_line() {
    let mut bar = StatusBar::new();
    assert_eq!(bar.text(), "");
    assert!(!bar.is_prominent());
    bar.set_status(&installed(), NO_FIREWALL_MESSAGE);
    assert_eq!(bar.text(), "firewalld 2.4.4 — enforcing");
    assert!(bar.line_is_dim());
    assert!(!bar.is_prominent());

    let mut unversioned = installed();
    unversioned.firewall_version = String::new();
    assert_eq!(backend_name(&unversioned), "firewalld");
    assert_eq!(backend_name(&installed()), "firewalld 2.4.4");
}

#[test]
fn an_absent_firewall_is_a_banner_with_the_detail_on_the_line() {
    let mut bar = StatusBar::new();
    bar.set_status(
        &status_with_detail(NO_FIREWALL_MESSAGE),
        NO_FIREWALL_MESSAGE,
    );
    assert!(bar.is_prominent());
    assert_eq!(bar.text(), NO_FIREWALL_TITLE);
    assert_eq!(bar.line(), NO_FIREWALL_MESSAGE);
    assert!(!bar.line_is_dim());

    bar.set_status(&installed(), NO_FIREWALL_MESSAGE);
    assert!(!bar.is_prominent());
    assert!(bar.line_is_dim());
}

#[test]
fn a_banner_clears_the_line_an_earlier_status_left() {
    let mut bar = StatusBar::new();
    bar.set_status(&installed(), NO_FIREWALL_MESSAGE);
    bar.set_unreachable("timed out");
    assert_eq!(bar.text(), "Could not reach the porthole helper — timed out");
    assert_eq!(bar.line(), "");

    bar.set_errored("not authorized");
    assert_eq!(
        bar.banner_title(),
        "The porthole helper reported an error — not authorized"
    );
    assert_eq!(bar.line(), "");

    bar.set_undecodable("Signature mismatch", Some(Alignment::HelperIsOlder));
    assert!(bar.text().contains("older version than this window"));
    assert_eq!(bar.line(), "Signature mismatch");
    assert!(!bar.line_is_dim());
}
