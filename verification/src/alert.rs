//! A question put to the user before something happens.

use vstd::prelude::*;
use vstd::string::*;

verus! {

/// How much weight a response's button carries.
#[derive(Clone, Copy, Debug, PartialEq, Eq, Structural)]
pub enum Appearance {
    Default,
    Suggested,
    Destructive,
}

/// One answer an alert offers.
#[derive(Debug)]
pub struct Response {
    pub id: String,
    pub label: String,
    pub appearance: Appearance,
}

#[verifier::ext_equal]
pub struct ResponseView {
    pub id: Seq<char>,
    pub label: Seq<char>,
    pub appearance: Appearance,
}

impl View for Response {
    type V = ResponseView;

    open spec fn view(&self) -> ResponseView {
        ResponseView { id: self.id@, label: self.label@, appearance: self.appearance }
    }
}

impl Response {
    pub fn new(id: &str, label: &str, appearance: Appearance) -> (r: Self)
        ensures
            r@ == (ResponseView { id: id@, label: label@, appearance }),
    {
        Response { id: id.to_owned(), label: label.to_owned(), appearance }
    }
}

/// An alert: what it asks, the two answers it can be given, and which of them
/// dismissing it or pressing Enter amounts to. The body is text, never
/// markup.
#[derive(Debug)]
pub struct Alert {
    pub heading: String,
    pub body: String,
    pub close_response: String,
    pub default_response: String,
    pub first: Response,
    pub second: Response,
}

#[verifier::ext_equal]
pub struct AlertView {
    pub heading: Seq<char>,
    pub body: Seq<char>,
    pub close_response: Seq<char>,
    pub default_response: Seq<char>,
    pub first: ResponseView,
    pub second: ResponseView,
}

impl View for Alert {
    type V = AlertView;

    open spec fn view(&self) -> AlertView {
        AlertView {
            heading: self.heading@,
            body: self.body@,
            close_response: self.close_response@,
            default_response: self.default_response@,
            first: self.first@,
            second: self.second@,
        }
    }
}

/// Looking at an alert shows its own words and answers.
pub proof fn an_alert_is_looked_at_as_it_is(alert: Alert)
    ensures
        alert@.heading == alert.heading@,
        alert@.body == alert.body@,
        alert@.close_response == alert.close_response@,
        alert@.default_response == alert.default_response@,
        alert@.first.id == alert.first.id@,
        alert@.first.label == alert.first.label@,
        alert@.first.appearance == alert.first.appearance,
        alert@.second.id == alert.second.id@,
        alert@.second.label == alert.second.label@,
        alert@.second.appearance == alert.second.appearance,
{
}

} // verus!
