//! The two shapes a section says something about itself in.
//!
//! A quiet note is one dim line without an icon: there is nothing to show, or
//! nothing yet. A trouble note carries an icon and the `error` style class:
//! porthole could not find out. The two are different types, so that one
//! cannot be read as the other.

use crate::text::{text_of, texts};
use vstd::prelude::*;
use vstd::string::*;

verus! {

/// One dim, wrapping line.
#[derive(Debug)]
pub struct QuietNote {
    text: String,
}

/// The style classes of a quiet note.
pub open spec fn quiet_classes() -> Seq<Seq<char>> {
    seq!["dim-label"@]
}

impl View for QuietNote {
    type V = Seq<char>;

    closed spec fn view(&self) -> Seq<char> {
        self.text@
    }
}

pub fn quiet_note(text: &str) -> (r: QuietNote)
    ensures
        r@ == text@,
{
    QuietNote { text: text.to_owned() }
}

impl QuietNote {
    pub fn label(&self) -> (r: String)
        ensures
            r@ == self@,
    {
        self.text.clone()
    }

    pub fn css_classes(&self) -> (r: Vec<String>)
        ensures
            texts(r@) == quiet_classes(),
    {
        let mut r: Vec<String> = Vec::new();
        r.push("dim-label".to_owned());
        assert(texts(r@) =~= quiet_classes());
        r
    }
}

/// The icon every trouble note carries.
pub const TROUBLE_ICON: &'static str = "dialog-error-symbolic";

/// The style classes of a trouble note.
pub open spec fn trouble_classes() -> Seq<Seq<char>> {
    seq!["error"@]
}

/// A title, a description and an icon, in the `error` style.
#[derive(Debug)]
pub struct TroubleNote {
    title: String,
    description: String,
    showing: bool,
}

#[verifier::ext_equal]
pub struct TroubleView {
    pub title: Seq<char>,
    pub description: Seq<char>,
    pub showing: bool,
}

impl View for TroubleNote {
    type V = TroubleView;

    closed spec fn view(&self) -> TroubleView {
        TroubleView {
            title: self.title@,
            description: self.description@,
            showing: self.showing,
        }
    }
}

impl TroubleNote {
    /// An empty note, not on screen.
    pub fn new() -> (r: Self)
        ensures
            r@ == (TroubleView { title: Seq::empty(), description: Seq::empty(), showing: false }),
    {
        let r = TroubleNote { title: String::new(), description: String::new(), showing: false };
        assert(r@ =~= (TroubleView {
            title: Seq::empty(),
            description: Seq::empty(),
            showing: false,
        }));
        r
    }

    pub fn set_title(&mut self, title: &str)
        ensures
            final(self)@ == (TroubleView { title: title@, ..old(self)@ }),
    {
        self.title = title.to_owned();
    }

    /// The caller's own message, word for word.
    pub fn set_description(&mut self, description: &str)
        ensures
            final(self)@ == (TroubleView { description: description@, ..old(self)@ }),
    {
        self.description = description.to_owned();
    }

    pub fn set_showing(&mut self, showing: bool)
        ensures
            final(self)@ == (TroubleView { showing, ..old(self)@ }),
    {
        self.showing = showing;
    }

    pub fn title(&self) -> (r: String)
        ensures
            r@ == self@.title,
    {
        self.title.clone()
    }

    pub fn description(&self) -> (r: Option<String>)
        ensures
            text_of(r) == Some(self@.description),
    {
        Some(self.description.clone())
    }

    pub fn icon_name(&self) -> (r: Option<String>)
        ensures
            text_of(r) == Some(TROUBLE_ICON@),
    {
        Some(TROUBLE_ICON.to_owned())
    }

    pub fn css_classes(&self) -> (r: Vec<String>)
        ensures
            texts(r@) == trouble_classes(),
    {
        let mut r: Vec<String> = Vec::new();
        r.push("error".to_owned());
        assert(texts(r@) =~= trouble_classes());
        r
    }

    pub fn is_showing(&self) -> (r: bool)
        ensures
            r == self@.showing,
    {
        self.showing
    }
}

impl Clone for TroubleNote {
    fn clone(&self) -> (r: Self)
        ensures
            r@ == self@,
    {
        TroubleNote {
            title: self.title.clone(),
            description: self.description.clone(),
            showing: self.showing,
        }
    }
}

impl Default for TroubleNote {
    fn default() -> (r: Self)
        ensures
            r@ == (TroubleView { title: Seq::empty(), description: Seq::empty(), showing: false }),
    {
        Self::new()
    }
}

/// The two shapes share no style class.
pub proof fn quiet_and_trouble_look_different(i: int, j: int)
    requires
        0 <= i < quiet_classes().len(),
        0 <= j < trouble_classes().len(),
    ensures
        quiet_classes()[i] != trouble_classes()[j],
{
    reveal_strlit("dim-label");
    reveal_strlit("error");
    assert("dim-label"@.len() == 9);
    assert("error"@.len() == 5);
}

/// Trouble carries the class that says so, and a quiet note only the one that
/// dims it.
pub proof fn only_trouble_is_styled_as_an_error()
    ensures
        trouble_classes() == seq!["error"@],
        quiet_classes() == seq!["dim-label"@],
{
}

} // verus!
