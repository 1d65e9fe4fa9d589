//! The status line: what firewall the helper reports, and whether it is
//! enforcing anything.
//!
//! An installed firewall is an ordinary, dim line. Four facts are more
//! serious and get a banner: there is no firewall, the helper could not be
//! asked, the helper answered with an error, and the helper answered in a
//! shape this build cannot read. No two of the four are worded alike, and a
//! banner never leaves an earlier, better line standing underneath it.

use crate::model::{Alignment, WireStatus};
use crate::text::{same_text, text2, text3};
use vstd::prelude::*;
use vstd::string::*;

verus! {

/// The banner for a confirmed absence of any firewall.
pub const NO_FIREWALL_TITLE: &'static str = "No firewall detected.";

/// The banner for a firewall that could not be detected either way.
pub const COULD_NOT_DETERMINE_TITLE: &'static str =
    "Could not determine whether a firewall is installed.";

/// The banner for an unreadable answer when nothing says which half is old.
pub const UNDECODABLE_TITLE: &'static str =
    "Porthole and the porthole helper are different versions, so this window cannot read \
     what it answers. Close and reopen this window; if that does not help, restart \
     porthole-helper.service.";

/// The banner for an unreadable answer from an older helper.
pub const HELPER_IS_OLDER_TITLE: &'static str =
    "The porthole helper is an older version than this window, so this window cannot read \
     what it answers. Restart it: `systemctl restart porthole-helper.service`.";

/// The banner for an unreadable answer to an older window.
pub const THIS_WINDOW_IS_OLDER_TITLE: &'static str =
    "This window is an older version of porthole than the helper it is talking to, so it \
     cannot read what the helper answers. Close and reopen it to start the version that \
     is installed now.";

/// A firewall reported missing is confirmed missing only when the detail is
/// the very message that says so.
pub open spec fn no_firewall_banner(detail: Seq<char>, no_firewall_message: Seq<char>) -> Seq<
    char,
> {
    if detail == no_firewall_message {
        NO_FIREWALL_TITLE@
    } else {
        COULD_NOT_DETERMINE_TITLE@
    }
}

pub fn no_firewall_banner_title(status: &WireStatus, no_firewall_message: &str) -> (r: &'static str)
    ensures
        r@ == no_firewall_banner(status.detail@, no_firewall_message@),
{
    if same_text(status.detail.as_str(), no_firewall_message) {
        NO_FIREWALL_TITLE
    } else {
        COULD_NOT_DETERMINE_TITLE
    }
}

pub open spec fn unreachable_banner(message: Seq<char>) -> Seq<char> {
    "Could not reach the porthole helper — "@ + message
}

pub fn unreachable_title(message: &str) -> (r: String)
    ensures
        r@ == unreachable_banner(message@),
{
    text2("Could not reach the porthole helper — ", message)
}

pub open spec fn errored_banner(message: Seq<char>) -> Seq<char> {
    "The porthole helper reported an error — "@ + message
}

pub fn errored_title(message: &str) -> (r: String)
    ensures
        r@ == errored_banner(message@),
{
    text2("The porthole helper reported an error — ", message)
}

/// One remedy where the helper's version says which half is old, and both
/// where it does not.
pub open spec fn undecodable_banner(alignment: Option<Alignment>) -> Seq<char> {
    match alignment {
        Some(Alignment::HelperIsOlder) => HELPER_IS_OLDER_TITLE@,
        Some(Alignment::ThisOneIsOlder) => THIS_WINDOW_IS_OLDER_TITLE@,
        Some(Alignment::Same) => UNDECODABLE_TITLE@,
        None => UNDECODABLE_TITLE@,
    }
}

pub fn undecodable_title(alignment: Option<Alignment>) -> (r: &'static str)
    ensures
        r@ == undecodable_banner(alignment),
{
    match alignment {
        Some(Alignment::HelperIsOlder) => HELPER_IS_OLDER_TITLE,
        Some(Alignment::ThisOneIsOlder) => THIS_WINDOW_IS_OLDER_TITLE,
        Some(Alignment::Same) => UNDECODABLE_TITLE,
        None => UNDECODABLE_TITLE,
    }
}

/// Whether an installed firewall is enforcing anything. Not being able to
/// tell is not the same as its being stopped.
pub open spec fn state_of(status: WireStatus) -> Seq<char> {
    if status.firewall_active {
        "enforcing"@
    } else if status.firewall_active_unknown {
        "status unknown"@
    } else {
        "not running"@
    }
}

pub fn state_word(status: &WireStatus) -> (r: &'static str)
    ensures
        r@ == state_of(*status),
{
    if status.firewall_active {
        "enforcing"
    } else if status.firewall_active_unknown {
        "status unknown"
    } else {
        "not running"
    }
}

/// The backend's name, and its version where one is reported.
pub open spec fn backend_of(status: WireStatus) -> Seq<char> {
    if status.firewall_version@.len() == 0 {
        status.backend@
    } else {
        status.backend@ + " "@ + status.firewall_version@
    }
}

pub fn backend_name(status: &WireStatus) -> (r: String)
    ensures
        r@ == backend_of(*status),
{
    if status.firewall_version.as_str().unicode_len() == 0 {
        status.backend.clone()
    } else {
        text3(status.backend.as_str(), " ", status.firewall_version.as_str())
    }
}

/// The status line and its banner.
#[derive(Debug)]
pub struct StatusBar {
    line: String,
    line_is_dim: bool,
    banner: String,
    banner_revealed: bool,
}

#[verifier::ext_equal]
pub struct StatusView {
    pub line: Seq<char>,
    pub line_is_dim: bool,
    pub banner: Seq<char>,
    pub banner_revealed: bool,
}

impl View for StatusBar {
    type V = StatusView;

    closed spec fn view(&self) -> StatusView {
        StatusView {
            line: self.line@,
            line_is_dim: self.line_is_dim,
            banner: self.banner@,
            banner_revealed: self.banner_revealed,
        }
    }
}

impl StatusView {
    pub open spec fn fresh() -> Self {
        StatusView {
            line: Seq::empty(),
            line_is_dim: true,
            banner: Seq::empty(),
            banner_revealed: false,
        }
    }

    /// A banner, with nothing on the line.
    pub open spec fn bannered(title: Seq<char>) -> Self {
        StatusView {
            line: Seq::empty(),
            line_is_dim: true,
            banner: title,
            banner_revealed: true,
        }
    }

    /// A banner, with what explains it on the line.
    pub open spec fn explained(title: Seq<char>, detail: Seq<char>) -> Self {
        StatusView { line: detail, line_is_dim: false, banner: title, banner_revealed: true }
    }

    pub open spec fn with_status(self, status: WireStatus, no_firewall_message: Seq<char>) -> Self {
        if !status.firewall_available {
            Self::explained(
                no_firewall_banner(status.detail@, no_firewall_message),
                status.detail@,
            )
        } else {
            StatusView {
                line: backend_of(status) + " — "@ + state_of(status),
                line_is_dim: true,
                banner: self.banner,
                banner_revealed: false,
            }
        }
    }

    pub open spec fn text(self) -> Seq<char> {
        if self.banner_revealed {
            self.banner
        } else {
            self.line
        }
    }
}

impl StatusBar {
    pub fn new() -> (r: Self)
        ensures
            r@ == StatusView::fresh(),
    {
        let r = StatusBar {
            line: String::new(),
            line_is_dim: true,
            banner: String::new(),
            banner_revealed: false,
        };
        assert(r@ =~= StatusView::fresh());
        r
    }

    fn show_banner(&mut self, title: &str)
        ensures
            final(self)@ == StatusView::bannered(title@),
    {
        self.banner = title.to_owned();
        self.banner_revealed = true;
        self.line = String::new();
        self.line_is_dim = true;
        assert(self@ =~= StatusView::bannered(title@));
    }

    /// Shows what the helper reports. `no_firewall_message` is the detail
    /// that confirms there is no firewall.
    pub fn set_status(&mut self, status: &WireStatus, no_firewall_message: &str)
        ensures
            final(self)@ == old(self)@.with_status(*status, no_firewall_message@),
    {
        if !status.firewall_available {
            self.show_banner(no_firewall_banner_title(status, no_firewall_message));
            self.line = status.detail.clone();
            self.line_is_dim = false;
            return;
        }
        self.banner_revealed = false;
        self.line = text3(backend_name(status).as_str(), " — ", state_word(status));
        self.line_is_dim = true;
    }

    /// The helper could not be asked.
    pub fn set_unreachable(&mut self, message: &str)
        ensures
            final(self)@ == StatusView::bannered(unreachable_banner(message@)),
    {
        self.show_banner(unreachable_title(message).as_str());
    }

    /// The helper answered with an error.
    pub fn set_errored(&mut self, message: &str)
        ensures
            final(self)@ == StatusView::bannered(errored_banner(message@)),
    {
        self.show_banner(errored_title(message).as_str());
    }

    /// The helper answered, and the answer could not be read.
    pub fn set_undecodable(&mut self, message: &str, alignment: Option<Alignment>)
        ensures
            final(self)@ == StatusView::explained(undecodable_banner(alignment), message@),
    {
        self.show_banner(undecodable_title(alignment));
        self.line = message.to_owned();
        self.line_is_dim = false;
    }

    /// The banner's text while it is showing, the line's otherwise.
    pub fn text(&self) -> (r: String)
        ensures
            r@ == self@.text(),
    {
        if self.banner_revealed {
            self.banner.clone()
        } else {
            self.line.clone()
        }
    }

    pub fn is_prominent(&self) -> (r: bool)
        ensures
            r == self@.banner_revealed,
    {
        self.banner_revealed
    }

    pub fn line(&self) -> (r: String)
        ensures
            r@ == self@.line,
    {
        self.line.clone()
    }

    pub fn line_is_dim(&self) -> (r: bool)
        ensures
            r == self@.line_is_dim,
    {
        self.line_is_dim
    }

    pub fn banner_title(&self) -> (r: String)
        ensures
            r@ == self@.banner,
    {
        self.banner.clone()
    }
}

impl Default for StatusBar {
    fn default() -> (r: Self)
        ensures
            r@ == StatusView::fresh(),
    {
        Self::new()
    }
}

/// The banners for the different facts begin differently, whatever message
/// goes with them: an absent firewall, a helper that could not be asked, one
/// that answered with an error, and an answer that could not be read never
/// read the same.
pub proof fn the_banners_never_say_the_same_thing(
    detail: Seq<char>,
    no_firewall_message: Seq<char>,
    unreachable: Seq<char>,
    errored: Seq<char>,
    alignment: Option<Alignment>,
)
    ensures
        no_firewall_banner(detail, no_firewall_message) != unreachable_banner(unreachable),
        no_firewall_banner(detail, no_firewall_message) != errored_banner(errored),
        no_firewall_banner(detail, no_firewall_message) != undecodable_banner(alignment),
        unreachable_banner(unreachable) != errored_banner(errored),
        unreachable_banner(unreachable) != undecodable_banner(alignment),
        errored_banner(errored) != undecodable_banner(alignment),
        NO_FIREWALL_TITLE@ != COULD_NOT_DETERMINE_TITLE@,
{
    reveal_strlit("No firewall detected.");
    reveal_strlit("Could not determine whether a firewall is installed.");
    reveal_strlit("Could not reach the porthole helper — ");
    reveal_strlit("The porthole helper reported an error — ");
    reveal_strlit(
        "Porthole and the porthole helper are different versions, so this window cannot read \
     what it answers. Close and reopen this window; if that does not help, restart \
     porthole-helper.service.",
    );
    reveal_strlit(
        "The porthole helper is an older version than this window, so this window cannot read \
     what it answers. Restart it: `systemctl restart porthole-helper.service`.",
    );
    reveal_strlit(
        "This window is an older version of porthole than the helper it is talking to, so it \
     cannot read what the helper answers. Close and reopen it to start the version that \
     is installed now.",
    );
    assert(NO_FIREWALL_TITLE@[0] == 'N');
    assert(COULD_NOT_DETERMINE_TITLE@[0] == 'C' && COULD_NOT_DETERMINE_TITLE@[10] == 'd');
    assert(unreachable_banner(unreachable)[0] == 'C' && unreachable_banner(unreachable)[10] == 'r');
    assert(errored_banner(errored)[0] == 'T' && errored_banner(errored)[2] == 'e');
    assert(errored_banner(errored)[20] == 'r');
    assert(UNDECODABLE_TITLE@[0] == 'P');
    assert(HELPER_IS_OLDER_TITLE@[0] == 'T' && HELPER_IS_OLDER_TITLE@[20] == 'i');
    assert(THIS_WINDOW_IS_OLDER_TITLE@[0] == 'T' && THIS_WINDOW_IS_OLDER_TITLE@[2] == 'i');
}

/// The three wordings for an unreadable answer are three wordings.
pub proof fn each_remedy_has_its_own_banner()
    ensures
        undecodable_banner(Some(Alignment::HelperIsOlder)) != undecodable_banner(
            Some(Alignment::ThisOneIsOlder),
        ),
        undecodable_banner(Some(Alignment::HelperIsOlder)) != undecodable_banner(None),
        undecodable_banner(Some(Alignment::ThisOneIsOlder)) != undecodable_banner(None),
        undecodable_banner(Some(Alignment::Same)) == undecodable_banner(None),
{
    reveal_strlit(
        "Porthole and the porthole helper are different versions, so this window cannot read \
     what it answers. Close and reopen this window; if that does not help, restart \
     porthole-helper.service.",
    );
    reveal_strlit(
        "The porthole helper is an older version than this window, so this window cannot read \
     what it answers. Restart it: `systemctl restart porthole-helper.service`.",
    );
    reveal_strlit(
        "This window is an older version of porthole than the helper it is talking to, so it \
     cannot read what the helper answers. Close and reopen it to start the version that \
     is installed now.",
    );
    assert(UNDECODABLE_TITLE@[0] == 'P');
    assert(HELPER_IS_OLDER_TITLE@[0] == 'T' && HELPER_IS_OLDER_TITLE@[2] == 'e');
    assert(THIS_WINDOW_IS_OLDER_TITLE@[0] == 'T' && THIS_WINDOW_IS_OLDER_TITLE@[2] == 'i');
}

/// A firewall that is stopped, one that is enforcing and one whose state is
/// unknown are three different words.
pub proof fn not_running_is_not_unknown(stopped: WireStatus, unknown: WireStatus, active: WireStatus)
    requires
        !stopped.firewall_active && !stopped.firewall_active_unknown,
        !unknown.firewall_active && unknown.firewall_active_unknown,
        active.firewall_active,
    ensures
        state_of(stopped) != state_of(unknown),
        state_of(stopped) != state_of(active),
        state_of(unknown) != state_of(active),
{
    reveal_strlit("enforcing");
    reveal_strlit("status unknown");
    reveal_strlit("not running");
    assert("enforcing"@[0] == 'e');
    assert("status unknown"@[0] == 's');
    assert("not running"@[0] == 'n');
}

/// No confirmed line outlives the answer it came from: whatever the line said
/// before, a banner replaces it, and a status that names a firewall takes the
/// banner away.
pub proof fn a_banner_leaves_no_stale_line(
    v: StatusView,
    status: WireStatus,
    no_firewall_message: Seq<char>,
    message: Seq<char>,
)
    ensures
        StatusView::bannered(unreachable_banner(message)).line.len() == 0,
        StatusView::bannered(errored_banner(message)).line.len() == 0,
        !status.firewall_available ==> v.with_status(status, no_firewall_message).line
            == status.detail@ && v.with_status(status, no_firewall_message).banner_revealed,
        status.firewall_available ==> !v.with_status(status, no_firewall_message).banner_revealed,
{
}

/// After a status that names an installed firewall, the line on screen is
/// that firewall's: it begins with the backend, and the version where one is
/// reported, and it ends with what the firewall is doing. "Enforcing" is said
/// of one that is, and of no other; not knowing is said only where neither
/// answer was given.
pub proof fn the_line_says_what_the_firewall_is_doing(
    v: StatusView,
    status: WireStatus,
    no_firewall_message: Seq<char>,
)
    requires
        status.firewall_available,
    ensures
        ({
            let w = v.with_status(status, no_firewall_message);
            let named = if status.firewall_version@ == Seq::<char>::empty() {
                status.backend@ + " — "@
            } else {
                status.backend@ + " "@ + status.firewall_version@ + " — "@
            };
            &&& w.text() == w.line
            &&& !w.banner_revealed
            &&& w.line_is_dim
            &&& named.is_prefix_of(w.line)
            &&& " — enforcing"@.is_suffix_of(w.line) <==> status.firewall_active
            &&& " — status unknown"@.is_suffix_of(w.line) <==> !status.firewall_active
                && status.firewall_active_unknown
            &&& " — not running"@.is_suffix_of(w.line) <==> !status.firewall_active
                && !status.firewall_active_unknown
            &&& status.firewall_active ==> w.line.len() == named.len() + "enforcing"@.len()
            &&& !status.firewall_active && status.firewall_active_unknown ==> w.line.len()
                == named.len() + "status unknown"@.len()
            &&& !status.firewall_active && !status.firewall_active_unknown ==> w.line.len()
                == named.len() + "not running"@.len()
        }),
{
    reveal_strlit("enforcing");
    reveal_strlit("status unknown");
    reveal_strlit("not running");
    reveal_strlit(" — ");
    reveal_strlit(" — enforcing");
    reveal_strlit(" — status unknown");
    reveal_strlit(" — not running");
    let w = v.with_status(status, no_firewall_message);
    let line = w.line;
    let n: int = line.len() as int;
    let word = if status.firewall_active {
        "enforcing"@
    } else if status.firewall_active_unknown {
        "status unknown"@
    } else {
        "not running"@
    };
    if status.firewall_version@.len() == 0 {
        assert(status.firewall_version@ =~= Seq::<char>::empty());
    }
    let named = if status.firewall_version@ == Seq::<char>::empty() {
        status.backend@ + " — "@
    } else {
        status.backend@ + " "@ + status.firewall_version@ + " — "@
    };
    assert(line =~= named + word);
    assert(named =~= line.subrange(0, named.len() as int));
    let ending = " — "@ + word;
    assert(ending =~= line.subrange(n - ending.len(), n));
    assert(" — enforcing"@ =~= " — "@ + "enforcing"@);
    assert(" — status unknown"@ =~= " — "@ + "status unknown"@);
    assert(" — not running"@ =~= " — "@ + "not running"@);
    assert(line[n - 1] == word[word.len() - 1]);
    assert(line[n - 4] == word[word.len() - 4]);
    let e = line.subrange(n - 12, n);
    let u = line.subrange(n - 17, n);
    let r = line.subrange(n - 14, n);
    if " — enforcing"@.is_suffix_of(line) {
        assert(e[8] == line[n - 4] && e[11] == line[n - 1]);
    }
    if " — status unknown"@.is_suffix_of(line) {
        assert(u[16] == line[n - 1]);
    }
    if " — not running"@.is_suffix_of(line) {
        assert(r[10] == line[n - 4] && r[13] == line[n - 1]);
    }
}

/// Two installed firewalls of one name that are not doing the same thing
/// never leave the same line, whatever was there before.
pub proof fn different_states_leave_different_lines(
    v: StatusView,
    w: StatusView,
    one: WireStatus,
    other: WireStatus,
    no_firewall_message: Seq<char>,
)
    requires
        one.firewall_available,
        other.firewall_available,
        one.firewall_active != other.firewall_active || (!one.firewall_active
            && one.firewall_active_unknown != other.firewall_active_unknown),
    ensures
        v.with_status(one, no_firewall_message).text() != w.with_status(
            other,
            no_firewall_message,
        ).text(),
{
    the_line_says_what_the_firewall_is_doing(v, one, no_firewall_message);
    the_line_says_what_the_firewall_is_doing(w, other, no_firewall_message);
}

/// Without a firewall the banner is up and the helper's own detail stands on
/// the line, not dimmed. The banner says outright that there is none exactly
/// when the detail is the message that confirms it.
pub proof fn a_missing_firewall_is_confirmed_or_it_is_not(
    v: StatusView,
    status: WireStatus,
    no_firewall_message: Seq<char>,
)
    requires
        !status.firewall_available,
    ensures
        ({
            let w = v.with_status(status, no_firewall_message);
            &&& w.banner_revealed
            &&& w.text() == w.banner
            &&& w.line == status.detail@
            &&& !w.line_is_dim
            &&& w.banner == "No firewall detected."@ <==> status.detail@ == no_firewall_message
            &&& w.banner == "Could not determine whether a firewall is installed."@
                <==> status.detail@ != no_firewall_message
        }),
{
    reveal_strlit("No firewall detected.");
    reveal_strlit("Could not determine whether a firewall is installed.");
    assert("No firewall detected."@[0] == 'N');
    assert("Could not determine whether a firewall is installed."@[0] == 'C');
}

/// The banner for an unreadable answer blames the half that is older, and
/// neither half where nothing says which that is.
pub proof fn the_remedy_is_for_the_older_half(alignment: Option<Alignment>)
    ensures
        "The porthole helper is an older version"@.is_prefix_of(undecodable_banner(alignment))
            <==> alignment == Some(Alignment::HelperIsOlder),
        "This window is an older version"@.is_prefix_of(undecodable_banner(alignment))
            <==> alignment == Some(Alignment::ThisOneIsOlder),
        "Porthole and the porthole helper are different versions"@.is_prefix_of(
            undecodable_banner(alignment),
        ) <==> alignment is None || alignment == Some(Alignment::Same),
{
    reveal_strlit("The porthole helper is an older version");
    reveal_strlit("This window is an older version");
    reveal_strlit("Porthole and the porthole helper are different versions");
    reveal_strlit(
        "Porthole and the porthole helper are different versions, so this window cannot read \
     what it answers. Close and reopen this window; if that does not help, restart \
     porthole-helper.service.",
    );
    reveal_strlit(
        "The porthole helper is an older version than this window, so this window cannot read \
     what it answers. Restart it: `systemctl restart porthole-helper.service`.",
    );
    reveal_strlit(
        "This window is an older version of porthole than the helper it is talking to, so it \
     cannot read what the helper answers. Close and reopen it to start the version that \
     is installed now.",
    );
    let b = undecodable_banner(alignment);
    let helper = "The porthole helper is an older version"@;
    let window = "This window is an older version"@;
    let neither = "Porthole and the porthole helper are different versions"@;
    assert(helper[2] == 'e' && window[2] == 'i' && neither[2] == 'r');
    assert(HELPER_IS_OLDER_TITLE@.subrange(0, helper.len() as int) =~= helper);
    assert(THIS_WINDOW_IS_OLDER_TITLE@.subrange(0, window.len() as int) =~= window);
    assert(UNDECODABLE_TITLE@.subrange(0, neither.len() as int) =~= neither);
    assert(b[2] == (if alignment == Some(Alignment::HelperIsOlder) {
        'e'
    } else if alignment == Some(Alignment::ThisOneIsOlder) {
        'i'
    } else {
        'r'
    }));
    if helper.is_prefix_of(b) {
        assert(b.subrange(0, helper.len() as int)[2] == b[2]);
    }
    if window.is_prefix_of(b) {
        assert(b.subrange(0, window.len() as int)[2] == b[2]);
    }
    if neither.is_prefix_of(b) {
        assert(b.subrange(0, neither.len() as int)[2] == b[2]);
    }
}

/// A failure's own message closes its banner, word for word, behind words
/// that say which failure it is; there is nothing on the line beside it.
pub proof fn a_failures_message_is_in_its_banner(message: Seq<char>, detail: Seq<char>)
    ensures
        ({
            let unreachable = StatusView::bannered(unreachable_banner(message));
            let errored = StatusView::bannered(errored_banner(message));
            let explained = StatusView::explained(message, detail);
            &&& unreachable.text() == "Could not reach the porthole helper — "@ + message
            &&& errored.text() == "The porthole helper reported an error — "@ + message
            &&& unreachable.banner_revealed && errored.banner_revealed
            &&& unreachable.line == Seq::<char>::empty() && errored.line == Seq::<char>::empty()
            &&& unreachable.line_is_dim && errored.line_is_dim
            &&& explained.text() == message && explained.banner_revealed
            &&& explained.line == detail && !explained.line_is_dim
        }),
{
}

} // verus!
