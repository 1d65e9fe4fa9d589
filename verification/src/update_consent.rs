//! The one question porthole asks about update checks, and what each answer
//! to it means.
//!
//! Dismissing is not answering: Escape, or clicking away, reports an id that
//! no button carries, and only the two buttons' ids record anything.

use crate::alert::{Alert, AlertView, Appearance, Response, ResponseView};
use crate::text::same_text;
use vstd::prelude::*;
use vstd::string::*;

verus! {

/// The response id the "yes" button sends back.
pub const RESPONSE_YES: &'static str = "check";

/// And the "no" one.
pub const RESPONSE_NO: &'static str = "no";

/// The id a dismissal reports, which is not a button's.
pub const RESPONSE_DISMISSED: &'static str = "dismissed";

pub const HEADING: &'static str = "Check for porthole updates?";

/// What the question says.
pub const BODY: &'static str = "porthole can ask this machine's own package manager, once a day, whether a \
     newer porthole has been published for it.\n\n\
     Nothing leaves this machine. porthole makes no network request of its own: it \
     asks the package manager that installed it — the same one that already knows \
     what is installed here — and reads the answer. No server is contacted, and \
     nothing about you, this machine or how you use porthole is sent anywhere.\n\n\
     If an update is available porthole says so once, and installing it is \
     PackageKit's own job, with PackageKit's own password prompt. porthole never \
     installs anything itself.\n\n\
     You can change this later with `porthole update --enable` or `--disable`.";

/// What was answered. A machine that has never been asked has neither.
#[derive(Clone, Copy, Debug, PartialEq, Eq, Structural)]
pub enum Consent {
    Yes,
    No,
}

pub open spec fn consent_question() -> AlertView {
    AlertView {
        heading: HEADING@,
        body: BODY@,
        close_response: RESPONSE_DISMISSED@,
        default_response: RESPONSE_NO@,
        first: ResponseView {
            id: RESPONSE_NO@,
            label: "Don't Check"@,
            appearance: Appearance::Default,
        },
        second: ResponseView {
            id: RESPONSE_YES@,
            label: "Check Daily"@,
            appearance: Appearance::Suggested,
        },
    }
}

/// The question, built but not put. Saying yes is suggested; pressing Enter
/// is the cautious answer; closing it is none.
pub fn consent_dialog() -> (r: Alert)
    ensures
        r@ == consent_question(),
{
    Alert {
        heading: HEADING.to_owned(),
        body: BODY.to_owned(),
        close_response: RESPONSE_DISMISSED.to_owned(),
        default_response: RESPONSE_NO.to_owned(),
        first: Response::new(RESPONSE_NO, "Don't Check", Appearance::Default),
        second: Response::new(RESPONSE_YES, "Check Daily", Appearance::Suggested),
    }
}

/// The question to put at this launch: `None` once it has been answered.
pub fn ask_if_never_asked(should_ask: bool) -> (r: Option<Alert>)
    ensures
        r is Some <==> should_ask,
        r matches Some(alert) ==> alert@ == consent_question(),
{
    if should_ask {
        Some(consent_dialog())
    } else {
        None
    }
}

/// What a response records. Anything but one of the two buttons is not an
/// answer, and records nothing.
pub open spec fn answer(response: Seq<char>) -> Option<Consent> {
    if response == RESPONSE_YES@ {
        Some(Consent::Yes)
    } else if response == RESPONSE_NO@ {
        Some(Consent::No)
    } else {
        None
    }
}

/// What to write down for a response, if anything.
pub fn remember(response: &str) -> (r: Option<Consent>)
    ensures
        r == answer(response@),
{
    if same_text(response, RESPONSE_YES) {
        Some(Consent::Yes)
    } else if same_text(response, RESPONSE_NO) {
        Some(Consent::No)
    } else {
        None
    }
}

/// Each button records its own answer, and closing the question records
/// none: the three ids are three different texts.
pub proof fn only_the_buttons_answer()
    ensures
        answer(consent_question().second.id) == Some(Consent::Yes),
        answer(consent_question().first.id) == Some(Consent::No),
        answer(consent_question().close_response) is None,
        answer(consent_question().default_response) == Some(Consent::No),
{
    reveal_strlit("check");
    reveal_strlit("no");
    reveal_strlit("dismissed");
    assert(RESPONSE_YES@.len() == 5);
    assert(RESPONSE_NO@.len() == 2);
    assert(RESPONSE_DISMISSED@.len() == 9);
}

/// A response records "yes" exactly when it is the "Check Daily" button's id,
/// "no" exactly when it is the "Don't Check" button's, and nothing otherwise;
/// Enter is the cautious button, and closing the question is neither.
pub proof fn a_response_records_its_own_button(response: Seq<char>)
    ensures
        answer(response) == Some(Consent::Yes) <==> response == "check"@,
        answer(response) == Some(Consent::No) <==> response == "no"@,
        answer(response) is None <==> response != "check"@ && response != "no"@,
        consent_question().second.id == "check"@,
        consent_question().second.label == "Check Daily"@,
        consent_question().second.appearance == Appearance::Suggested,
        consent_question().first.id == "no"@,
        consent_question().first.label == "Don't Check"@,
        consent_question().first.appearance == Appearance::Default,
        consent_question().default_response == consent_question().first.id,
        consent_question().close_response != consent_question().first.id,
        consent_question().close_response != consent_question().second.id,
        consent_question().heading == HEADING@,
        consent_question().body == BODY@,
{
    reveal_strlit("check");
    reveal_strlit("no");
    reveal_strlit("dismissed");
    assert(RESPONSE_YES@.len() == 5);
    assert(RESPONSE_NO@.len() == 2);
    assert(RESPONSE_DISMISSED@.len() == 9);
}

} // verus!
