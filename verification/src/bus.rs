//! What a failed call to the helper says, and what it means.

use crate::text::{same_text, text2, text3};
use vstd::prelude::*;
use vstd::string::*;

verus! {

/// Any error a call over the bus can end with.
#[verifier::external_type_specification]
#[verifier::external_body]
pub struct ExBusError(zbus::Error);

/// The two texts a `zbus::Error::MethodError` carries: the error's own name,
/// and the detail that came with it, if one did. `None` for every other
/// variant.
pub uninterp spec fn method_error_parts(e: zbus::Error) -> Option<(Seq<char>, Option<Seq<char>>)>;

/// How a `zbus::Error` reads, for every one that wraps no I/O error, at any
/// depth: its text is then made of fixed words and of what the error itself
/// carries. `None` for the others: the operating system words an I/O error,
/// and not the same way on every machine.
pub uninterp spec fn settled_text(e: zbus::Error) -> Option<Seq<char>>;

/// An error the other side of the call answered with.
#[derive(Debug)]
pub struct MethodError {
    pub name: String,
    pub detail: Option<String>,
}

impl MethodError {
    pub open spec fn parts(self) -> (Seq<char>, Option<Seq<char>>) {
        (
            self.name@,
            match self.detail {
                Some(d) => Some(d@),
                None => None,
            },
        )
    }
}

/// Tells `zbus::Error::MethodError` apart from the other variants and moves
/// out its error name and its detail.
#[verifier::external_body]
fn method_error(e: &zbus::Error) -> (r: Option<MethodError>)
    ensures
        r is Some <==> method_error_parts(*e) is Some,
        r matches Some(m) ==> method_error_parts(*e) == Some(m.parts()),
{
    match e {
        zbus::Error::MethodError(name, detail, _) => {
            Some(MethodError { name: name.to_string(), detail: detail.clone() })
        },
        _ => None,
    }
}

/// `zbus::Error`'s `Display`. A method error reads as its name, a colon and
/// its detail, or "no details" where it has none. Every other error that
/// wraps no I/O error reads the same way wherever it is read. What one that
/// does wrap an I/O error reads as is left open: it repeats the operating
/// system's own message, which differs from machine to machine.
#[verifier::external_body]
fn error_text(e: &zbus::Error) -> (r: String)
    ensures
        settled_text(*e) matches Some(text) ==> r@ == text,
        method_error_parts(*e) matches Some((name, detail)) ==> r@ == name + ": "@ + (match detail {
            Some(d) => d,
            None => "no details"@,
        }),
{
    e.to_string()
}

/// What one bus error comes down to: the answer it carries, if it is one, and
/// how it reads as a whole.
#[derive(Debug)]
pub struct BusError {
    pub method: Option<MethodError>,
    pub text: String,
}

impl BusError {
    /// Whether this is what `e` comes down to.
    pub open spec fn reads(self, e: zbus::Error) -> bool {
        &&& settled_text(e) matches Some(text) ==> self.text@ == text
        &&& match self.method {
            Some(m) => {
                &&& method_error_parts(e) == Some(m.parts())
                &&& self.text@ == m.name@ + ": "@ + (match m.detail {
                    Some(d) => d@,
                    None => "no details"@,
                })
            },
            None => method_error_parts(e) is None,
        }
    }

    /// The sentence to put on screen: the helper's own detail, word for word.
    /// The error's name stands in for a detail that did not come, and an
    /// error nobody answered with reads as itself.
    pub open spec fn message(self) -> Seq<char> {
        match self.method {
            Some(m) => match m.detail {
                Some(d) => d@,
                None => m.name@,
            },
            None => self.text@,
        }
    }

    /// Whether the bus is saying that nobody answered: a method error by
    /// shape, under the one name that means there was no answer.
    pub open spec fn no_answer(self, no_reply_error: Seq<char>) -> bool {
        self.method matches Some(m) && m.name@ == no_reply_error
    }

    pub fn helper_message(&self) -> (r: String)
        ensures
            r@ == self.message(),
    {
        match &self.method {
            Some(m) => match &m.detail {
                Some(d) => d.clone(),
                None => m.name.clone(),
            },
            None => self.text.clone(),
        }
    }

    pub fn nobody_answered(&self, no_reply_error: &str) -> (r: bool)
        ensures
            r == self.no_answer(no_reply_error@),
    {
        match &self.method {
            Some(m) => same_text(m.name.as_str(), no_reply_error),
            None => false,
        }
    }
}

/// What `e` comes down to.
pub fn read_bus_error(e: &zbus::Error) -> (r: BusError)
    ensures
        r.reads(*e),
{
    let method: Option<MethodError> = method_error(e);
    let text: String = error_text(e);
    BusError { method, text }
}

/// The helper's own words from a failed call, not reworded.
pub fn helper_message(e: &zbus::Error) -> (r: String)
    ensures
        exists|b: BusError| b.reads(*e) && r@ == #[trigger] b.message(),
        method_error_parts(*e) matches Some((name, detail)) ==> r@ == (match detail {
            Some(d) => d,
            None => name,
        }),
        method_error_parts(*e) is None ==> (settled_text(*e) matches Some(text) ==> r@ == text),
{
    let b: BusError = read_bus_error(e);
    let r: String = b.helper_message();
    assert(b.reads(*e) && r@ == b.message());
    r
}

/// Whether this is the bus reporting that nobody answered, rather than
/// anything the helper said.
pub fn nobody_answered(e: &zbus::Error, no_reply_error: &str) -> (r: bool)
    ensures
        r <==> (method_error_parts(*e) matches Some((name, _)) && name == no_reply_error@),
{
    read_bus_error(e).nobody_answered(no_reply_error)
}

/// Three facts a call can fail with, none of which may read as another.
///
/// `Unreachable` is no answer at all: no bus, no helper, a connection lost
/// on the way, a wait that ran out. `Errored` is the helper answering with an
/// error of its own. `Undecodable` is an answer that arrived in a shape this
/// build cannot read, and the only one of the three that asking again cannot
/// change.
#[derive(Debug)]
pub enum HelperFailure {
    Unreachable(String),
    Errored(String),
    Undecodable(String),
}

pub enum FailureView {
    Unreachable(Seq<char>),
    Errored(Seq<char>),
    Undecodable(Seq<char>),
}

impl View for HelperFailure {
    type V = FailureView;

    open spec fn view(&self) -> FailureView {
        match self {
            HelperFailure::Unreachable(m) => FailureView::Unreachable(m@),
            HelperFailure::Errored(m) => FailureView::Errored(m@),
            HelperFailure::Undecodable(m) => FailureView::Undecodable(m@),
        }
    }
}

impl HelperFailure {
    pub open spec fn message(self) -> Seq<char> {
        match self {
            HelperFailure::Unreachable(m) => m@,
            HelperFailure::Errored(m) => m@,
            HelperFailure::Undecodable(m) => m@,
        }
    }
}

impl Clone for HelperFailure {
    fn clone(&self) -> (r: Self)
        ensures
            r == *self,
    {
        match self {
            HelperFailure::Unreachable(m) => HelperFailure::Unreachable(m.clone()),
            HelperFailure::Errored(m) => HelperFailure::Errored(m.clone()),
            HelperFailure::Undecodable(m) => HelperFailure::Undecodable(m.clone()),
        }
    }
}

/// Which of the three facts `e` is, and the sentence that goes with it.
/// `undecodable` is the answer to whether the reply could not be read.
pub open spec fn classified(
    e: BusError,
    undecodable: bool,
    no_reply_error: Seq<char>,
    r: HelperFailure,
) -> bool {
    if undecodable {
        r is Undecodable && r.message() == "porthole could not read the porthole helper's answer: "@
            + e.text@
    } else if e.no_answer(no_reply_error) {
        r is Unreachable && r.message()
            == "could not reach the porthole helper: nothing answered ("@ + e.text@ + ")"@
    } else if e.method is Some {
        r is Errored && r.message() == e.message()
    } else {
        r is Unreachable && r.message() == "could not reach the porthole helper: "@ + e.text@
    }
}

pub fn classify(e: &BusError, undecodable: bool, no_reply_error: &str) -> (r: HelperFailure)
    ensures
        classified(*e, undecodable, no_reply_error@, r),
{
    if undecodable {
        return HelperFailure::Undecodable(
            text2("porthole could not read the porthole helper's answer: ", e.text.as_str()),
        );
    }
    if e.nobody_answered(no_reply_error) {
        return HelperFailure::Unreachable(
            text3(
                "could not reach the porthole helper: nothing answered (",
                e.text.as_str(),
                ")",
            ),
        );
    }
    if e.method.is_some() {
        HelperFailure::Errored(e.helper_message())
    } else {
        HelperFailure::Unreachable(
            text2("could not reach the porthole helper: ", e.text.as_str()),
        )
    }
}

/// Which of the three facts a failed call is. Only a method error means the
/// helper answered, and only one under another name than `no_reply_error`.
pub fn classify_failure(e: zbus::Error, undecodable: bool, no_reply_error: &str) -> (r:
    HelperFailure)
    ensures
        exists|b: BusError| b.reads(e) && #[trigger] classified(b, undecodable, no_reply_error@, r),
{
    let b: BusError = read_bus_error(&e);
    let r: HelperFailure = classify(&b, undecodable, no_reply_error);
    assert(b.reads(e) && classified(b, undecodable, no_reply_error@, r));
    r
}

/// The sentence for a connection that could not be made.
pub fn could_not_reach(e: &zbus::Error) -> (r: String)
    ensures
        exists|b: BusError|
            #![trigger b.reads(*e)]
            b.reads(*e) && r@ == "could not reach the porthole helper: "@ + b.text@,
        settled_text(*e) matches Some(text) ==> r@ == "could not reach the porthole helper: "@
            + text,
{
    let b: BusError = read_bus_error(e);
    let r: String = text2("could not reach the porthole helper: ", b.text.as_str());
    assert(b.reads(*e));
    r
}

/// A helper that answered in its own words is never reported as unreachable
/// or unreadable, and what is reported is exactly what it said.
pub proof fn an_answer_is_reported_as_the_helpers_own(
    e: zbus::Error,
    b: BusError,
    no_reply_error: Seq<char>,
    r: HelperFailure,
)
    requires
        b.reads(e),
        classified(b, false, no_reply_error, r),
        method_error_parts(e) matches Some((name, _)) && name != no_reply_error,
    ensures
        r is Errored,
        method_error_parts(e) matches Some((name, detail)) ==> r.message() == (match detail {
            Some(d) => d,
            None => name,
        }),
{
}

/// Silence is never reported as an error the helper had, and the report ends
/// with how the error reads.
pub proof fn silence_is_reported_as_unreachable(
    e: zbus::Error,
    b: BusError,
    no_reply_error: Seq<char>,
    r: HelperFailure,
)
    requires
        b.reads(e),
        classified(b, false, no_reply_error, r),
        method_error_parts(e) matches Some((name, _)) ==> name == no_reply_error,
    ensures
        r is Unreachable,
        method_error_parts(e) is None ==> (settled_text(e) matches Some(text) ==> r.message()
            == "could not reach the porthole helper: "@ + text),
        method_error_parts(e) is Some ==> (settled_text(e) matches Some(text) ==> r.message()
            == "could not reach the porthole helper: nothing answered ("@ + text + ")"@),
{
}

/// Which of the three facts is reported follows from what happened alone: a
/// reply that could not be read is unreadable; a method error under any name
/// but the one for silence is the helper's own, in its detail's words, or
/// under its name where it sent no detail; anything else is no answer at all.
/// Where it is not the helper's own, how the error reads stands in the
/// sentence word for word.
pub proof fn a_failure_is_reported_as_what_happened(
    e: BusError,
    undecodable: bool,
    no_reply_error: Seq<char>,
    r: HelperFailure,
)
    requires
        classified(e, undecodable, no_reply_error, r),
    ensures
        r is Undecodable <==> undecodable,
        r is Errored <==> !undecodable && (e.method matches Some(m) && m.name@ != no_reply_error),
        r is Unreachable <==> !undecodable && (e.method matches Some(m) ==> m.name@
            == no_reply_error),
        r matches HelperFailure::Undecodable(message) ==> message@
            == "porthole could not read the porthole helper's answer: "@ + e.text@,
        r matches HelperFailure::Errored(message) ==> (e.method matches Some(m) && (match m.detail {
            Some(detail) => message@ == detail@,
            None => message@ == m.name@,
        })),
        r matches HelperFailure::Unreachable(message) ==> (if e.method is Some {
            message@ == "could not reach the porthole helper: nothing answered ("@ + e.text@ + ")"@
        } else {
            message@ == "could not reach the porthole helper: "@ + e.text@
        }),
{
}

/// What is put on screen for a failed call is the helper's own detail where
/// it sent one, and otherwise the name it gave the error, or the error itself
/// where nobody answered with one.
pub proof fn the_helpers_words_are_not_reworded(e: BusError)
    ensures
        e.method matches Some(m) ==> (m.detail matches Some(detail) ==> e.message() == detail@),
        e.method matches Some(m) ==> (m.detail is None ==> e.message() == m.name@),
        e.method is None ==> e.message() == e.text@,
{
}

/// What is read off an error is what the error says: its name and detail
/// where it is an answer, and its whole text either way.
pub proof fn nothing_is_read_into_an_error(e: zbus::Error, b: BusError)
    requires
        b.reads(e),
    ensures
        b.method is Some <==> method_error_parts(e) is Some,
        method_error_parts(e) matches Some((name, detail)) ==> (b.method matches Some(m) && m.name@
            == name && (m.detail is Some <==> detail is Some) && (m.detail matches Some(d) ==> detail
            == Some(d@))),
        method_error_parts(e) matches Some((name, Some(d))) ==> b.text@ == name + ": "@ + d,
        method_error_parts(e) matches Some((name, None)) ==> b.text@ == name + ": no details"@,
        settled_text(e) matches Some(text) ==> b.text@ == text,
{
    reveal_strlit(": ");
    reveal_strlit("no details");
    reveal_strlit(": no details");
    assert(": no details"@ =~= ": "@ + "no details"@);
    if let Some((name, None)) = method_error_parts(e) {
        assert(b.text@ =~= name + ": no details"@);
    }
}

/// A failure keeps its kind and its words when it is looked at.
pub proof fn a_failures_view_is_the_failure(f: HelperFailure)
    ensures
        f matches HelperFailure::Unreachable(m) ==> f@ == FailureView::Unreachable(m@)
            && f.message() == m@,
        f matches HelperFailure::Errored(m) ==> f@ == FailureView::Errored(m@) && f.message() == m@,
        f matches HelperFailure::Undecodable(m) ==> f@ == FailureView::Undecodable(m@)
            && f.message() == m@,
{
}

} // verus!
