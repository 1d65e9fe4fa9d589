//! The question about update checks.

use porthole_gui::alert::Appearance;
use porthole_gui::update_consent::{
    ask_if_never_asked, consent_dialog, remember, Consent, HEADING, RESPONSE_DISMISSED,
    RESPONSE_NO, RESPONSE_YES,
};

#[test]
fn the_two_response_ids_are_distinct_and_neither_is_empty() {
    assert_ne!(RESPONSE_YES, RESPONSE_NO);
    assert!(!RESPONSE_YES.is_empty());
    assert!(!RESPONSE_NO.is_empty());
}

#[test]
fn only_an_explicit_answer_maps_to_a_consent() {
    assert_eq!(remember(RESPONSE_YES), Some(Consent::Yes));
    assert_eq!(remember(RESPONSE_NO), Some(Consent::No));
    for other in [RESPONSE_DISMISSED, "", "close", "something-added-later"] {
        assert_eq!(remember(other), None, "{other} is not an answer");
    }
    assert_ne!(RESPONSE_DISMISSED, RESPONSE_YES);
    assert_ne!(RESPONSE_DISMISSED, RESPONSE_NO);
}

#[test]
fn the_question_is_put_once_and_closing_it_is_no_answer() {
    assert!(ask_if_never_asked(false).is_none());
    let alert = ask_if_never_asked(true).unwrap();
    assert_eq!(alert.heading, HEADING);
    assert_eq!(alert.close_response, RESPONSE_DISMISSED);
    assert_eq!(alert.default_response, RESPONSE_NO);
    assert_eq!(alert.first.id, RESPONSE_NO);
    assert_eq!(alert.first.label, "Don't Check");
    assert_eq!(alert.second.id, RESPONSE_YES);
    assert_eq!(alert.second.appearance, Appearance::Suggested);
    assert_eq!(remember(&alert.close_response), None);
}

#[test]
fn the_question_says_that_nothing_leaves_the_machine() {
    let body = consent_dialog().body;
    assert!(body.starts_with("porthole can ask this machine's own package manager, once a day, whether a newer porthole has been published for it.\n\nNothing leaves this machine."), "{body}");
    assert!(body.ends_with("You can change this later with `porthole update --enable` or `--disable`."), "{body}");
    assert!(!body.contains("  "), "{body}");
}
