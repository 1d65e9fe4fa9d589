//! The "Open now" section: every rule the helper reports as open, each with
//! a countdown and a way to close it.
//!
//! A deadline is not an outcome. Past its deadline a row says only that its
//! time is up; when a list read late enough still names the rule, it says
//! that the port is still open. A failure to ask is not an empty list, and
//! not having heard yet is neither: the section shows exactly one of four
//! things at a time.

use crate::busy::{BusyIndicator, BusyView};
use crate::model::{copy_rules, WireRule};
use crate::open_dialog::{anyone_note, ANYONE_NOTE};
use crate::quiet::{quiet_note, QuietNote, TroubleNote, TroubleView};
use crate::text::{
    copy_text, decimal, decimal_reads_back, decimal_text, reads_as, same_text, text2, text3,
    text_of, two_digits, two_digits_read_back, two_digits_text, value_of, views,
};
use vstd::prelude::*;
use vstd::string::*;

verus! {

/// How far past a rule's deadline a list has to have been read before what
/// it says about that rule is taken as the answer, in seconds.
pub const EXPIRY_SETTLE_SECONDS: u64 = 5;

/// A row whose deadline has passed with nothing read since.
pub const TIME_IS_UP: &'static str = "time is up";

/// A row that a list read past the settle point still names.
pub const STILL_OPEN: &'static str = "still open";

/// What the section says once a list has come back and named nothing.
pub const EMPTY_NOTE: &'static str = "No ports open. Open a port below when you need one.";

/// What the section says before any answer has arrived.
pub const LOADING_NOTE: &'static str = "Checking what's open…";

pub const UNREACHABLE_TITLE: &'static str = "Porthole helper unreachable";

pub const ERRORED_TITLE: &'static str = "Porthole helper reported an error";

pub const UNDECODABLE_TITLE: &'static str = "Porthole could not read the helper's answer";

/// The moment from which a list says what became of a rule: the settle time
/// past its deadline, as late as a clock can show.
pub open spec fn settle_point(expires_at: u64) -> int {
    if expires_at + EXPIRY_SETTLE_SECONDS <= u64::MAX {
        expires_at + EXPIRY_SETTLE_SECONDS
    } else {
        u64::MAX as int
    }
}

/// Whether `at` is far enough past `expires_at`. A rule that lasts until
/// reboot has no deadline to be past.
pub open spec fn has_settled(expires_at: u64, at: u64) -> bool {
    expires_at != 0 && at >= settle_point(expires_at)
}

pub fn expiry_has_settled(expires_at: u64, at: u64) -> (r: bool)
    ensures
        r == has_settled(expires_at, at),
{
    expires_at != 0 && at >= expires_at.saturating_add(EXPIRY_SETTLE_SECONDS)
}

/// What a row's countdown says at `current`, for a rule of a list that was
/// read at `listed_at`.
pub open spec fn countdown(expires_at: u64, listed_at: u64, current: u64) -> Seq<char> {
    if expires_at == 0 {
        "until reboot"@
    } else if expires_at > current {
        two_digits(((expires_at - current) / 60) as nat) + ":"@ + two_digits(
            ((expires_at - current) % 60) as nat,
        ) + " left"@
    } else if has_settled(expires_at, listed_at) {
        STILL_OPEN@
    } else {
        TIME_IS_UP@
    }
}

pub fn format_countdown(expires_at: u64, listed_at: u64, current: u64) -> (r: String)
    ensures
        r@ == countdown(expires_at, listed_at, current),
{
    if expires_at == 0 {
        return "until reboot".to_owned();
    }
    if expires_at > current {
        let remaining: u64 = expires_at - current;
        let mut r: String = two_digits_text(remaining / 60);
        r.append(":");
        r.append(two_digits_text(remaining % 60).as_str());
        r.append(" left");
        return r;
    }
    if expiry_has_settled(expires_at, listed_at) {
        return STILL_OPEN.to_owned();
    }
    TIME_IS_UP.to_owned()
}

/// Whether a countdown carries the warning that goes with [`STILL_OPEN`].
pub open spec fn overdue(expires_at: u64, listed_at: u64, current: u64) -> bool {
    expires_at <= current && has_settled(expires_at, listed_at)
}

/// Once a deadline has settled it stays settled, and a rule that lasts until
/// reboot never has one.
pub proof fn a_settled_deadline_stays_settled(expires_at: u64, at: u64, later: u64)
    requires
        at <= later,
    ensures
        has_settled(expires_at, at) ==> has_settled(expires_at, later),
        !has_settled(0, later),
        has_settled(expires_at, at) ==> expires_at <= at,
{
}

/// The two texts past a deadline are two different texts, and only the one
/// for a port that is still listed is marked.
pub proof fn not_having_heard_is_not_still_open(expires_at: u64, listed_at: u64, current: u64)
    requires
        expires_at != 0,
        expires_at <= current,
    ensures
        STILL_OPEN@ != TIME_IS_UP@,
        countdown(expires_at, listed_at, current) == STILL_OPEN@ <==> has_settled(
            expires_at,
            listed_at,
        ),
        overdue(expires_at, listed_at, current) <==> has_settled(expires_at, listed_at),
{
    reveal_strlit("still open");
    reveal_strlit("time is up");
    assert(STILL_OPEN@[0] == 's');
    assert(TIME_IS_UP@[0] == 't');
}

/// Who a rule lets in.
pub open spec fn towards(rule: WireRule) -> Seq<char> {
    if rule.to_anyone() {
        "anyone"@
    } else {
        rule.target@
    }
}

/// What a row says under its port: who may reach it, and for a forward where
/// what reaches it goes.
pub open spec fn subtitle(rule: WireRule) -> Seq<char> {
    if rule.is_forward() {
        "redirects to "@ + rule.container_addr@ + ":"@ + decimal(rule.container_port as nat)
            + " (published on "@ + decimal(rule.published_port as nat) + ") · reachable from "@
            + towards(rule)
    } else {
        "open to "@ + towards(rule)
    }
}

pub open spec fn forward_tooltip(rule: WireRule) -> Seq<char> {
    "Redirected to "@ + rule.container_addr@ + ":"@ + decimal(rule.container_port as nat)
        + ", published on "@ + decimal(rule.published_port as nat)
}

fn is_to_anyone(rule: &WireRule) -> (r: bool)
    ensures
        r == rule.to_anyone(),
{
    same_text(rule.scope.as_str(), "anywhere")
}

pub fn towards_for(rule: &WireRule) -> (r: String)
    ensures
        r@ == towards(*rule),
{
    if is_to_anyone(rule) {
        "anyone".to_owned()
    } else {
        rule.target.clone()
    }
}

pub fn subtitle_for(rule: &WireRule) -> (r: String)
    ensures
        r@ == subtitle(*rule),
{
    let towards: String = towards_for(rule);
    if rule.redirects() {
        let mut r: String = text3("redirects to ", rule.container_addr.as_str(), ":");
        r.append(decimal_text(rule.container_port as u64).as_str());
        r.append(" (published on ");
        r.append(decimal_text(rule.published_port as u64).as_str());
        r.append(") · reachable from ");
        r.append(towards.as_str());
        r
    } else {
        text2("open to ", towards.as_str())
    }
}

fn forward_tooltip_for(rule: &WireRule) -> (r: String)
    ensures
        r@ == forward_tooltip(*rule),
{
    let mut r: String = text3("Redirected to ", rule.container_addr.as_str(), ":");
    r.append(decimal_text(rule.container_port as u64).as_str());
    r.append(", published on ");
    r.append(decimal_text(rule.published_port as u64).as_str());
    r
}

/// A forward never reads as an open: the two lines begin differently.
pub proof fn a_forward_does_not_read_as_an_open(forward: WireRule, open: WireRule)
    requires
        forward.is_forward(),
        !open.is_forward(),
    ensures
        subtitle(forward) != subtitle(open),
{
    reveal_strlit("redirects to ");
    reveal_strlit("open to ");
    assert(subtitle(forward)[0] == 'r');
    assert(subtitle(open)[0] == 'o');
}

/// One rendered rule.
#[derive(Debug)]
pub struct Row {
    id: String,
    title: String,
    subtitle: String,
    expires_at: u64,
    listed_at: u64,
    reported_unconfirmed: bool,
    countdown: String,
    overdue: bool,
    significant: Option<String>,
    forward: Option<String>,
    close_busy: BusyIndicator,
}

#[verifier::ext_equal]
pub struct RowView {
    pub id: Seq<char>,
    pub title: Seq<char>,
    pub subtitle: Seq<char>,
    pub expires_at: u64,
    /// When the list the row was built from was read.
    pub listed_at: u64,
    /// Whether the row's expiry has been reported as unconfirmed.
    pub reported: bool,
    pub countdown: Seq<char>,
    pub overdue: bool,
    /// The tooltip of the "open to anyone" marking, on a row that has it.
    pub significant: Option<Seq<char>>,
    /// The tooltip of the forward marking, on a row that has it.
    pub forward: Option<Seq<char>>,
    /// The wait for a close; the one control it holds is the close button.
    pub busy: BusyView,
}

impl View for Row {
    type V = RowView;

    closed spec fn view(&self) -> RowView {
        RowView {
            id: self.id@,
            title: self.title@,
            subtitle: self.subtitle@,
            expires_at: self.expires_at,
            listed_at: self.listed_at,
            reported: self.reported_unconfirmed,
            countdown: self.countdown@,
            overdue: self.overdue,
            significant: text_of(self.significant),
            forward: text_of(self.forward),
            busy: self.close_busy@,
        }
    }
}

/// The row for a rule of a list read at `listed_at`, as it reads at
/// `current`.
pub open spec fn rule_row(rule: WireRule, listed_at: u64, current: u64) -> RowView {
    RowView {
        id: rule.id@,
        title: decimal(rule.port as nat) + "/"@ + rule.protocol@,
        subtitle: subtitle(rule),
        expires_at: rule.expires_at,
        listed_at,
        reported: has_settled(rule.expires_at, listed_at),
        countdown: countdown(rule.expires_at, listed_at, current),
        overdue: overdue(rule.expires_at, listed_at, current),
        significant: if rule.to_anyone() {
            Some(ANYONE_NOTE@)
        } else {
            None
        },
        forward: if rule.is_forward() {
            Some(forward_tooltip(rule))
        } else {
            None
        },
        busy: BusyView::idle().holding(true),
    }
}

impl RowView {
    /// Whether the row's deadline has settled by `now` and its list is older
    /// than that.
    pub open spec fn unconfirmed(self, now: u64) -> bool {
        has_settled(self.expires_at, now) && !has_settled(self.expires_at, self.listed_at)
    }

    /// The row a second later.
    pub open spec fn ticked(self, now: u64) -> Self {
        RowView {
            countdown: countdown(self.expires_at, self.listed_at, now),
            overdue: overdue(self.expires_at, self.listed_at, now),
            reported: self.reported || self.unconfirmed(now),
            ..self
        }
    }
}

fn build_row(rule: &WireRule, listed_at: u64, current: u64) -> (r: Row)
    ensures
        r@ == rule_row(*rule, listed_at, current),
{
    let mut close_busy: BusyIndicator = BusyIndicator::new();
    let _close_button: usize = close_busy.disable_while_busy(true);
    let settled: bool = expiry_has_settled(rule.expires_at, listed_at);
    let r = Row {
        id: rule.id.clone(),
        title: text3(decimal_text(rule.port as u64).as_str(), "/", rule.protocol.as_str()),
        subtitle: subtitle_for(rule),
        expires_at: rule.expires_at,
        listed_at,
        reported_unconfirmed: settled,
        countdown: format_countdown(rule.expires_at, listed_at, current),
        overdue: rule.expires_at <= current && settled,
        significant: if is_to_anyone(rule) {
            Some(anyone_note())
        } else {
            None
        },
        forward: if rule.redirects() {
            Some(forward_tooltip_for(rule))
        } else {
            None
        },
        close_busy,
    };
    assert(r@ =~= rule_row(*rule, listed_at, current));
    r
}

fn build_rows(rules: &Vec<WireRule>, listed_at: u64, current: u64) -> (r: Vec<Row>)
    ensures
        views(r@) == Seq::new(rules@.len(), |i: int| rule_row(rules@[i], listed_at, current)),
{
    let mut rows: Vec<Row> = Vec::new();
    let n: usize = rules.len();
    for i in 0..n
        invariant
            n == rules@.len(),
            rows@.len() == i,
            forall|j: int|
                0 <= j < i ==> (#[trigger] rows@[j])@ == rule_row(rules@[j], listed_at, current),
    {
        rows.push(build_row(&rules[i], listed_at, current));
    }
    assert(views(rows@) =~= Seq::new(
        rules@.len(),
        |i: int| rule_row(rules@[i], listed_at, current),
    ));
    rows
}

/// A close that has been asked for: the rule, and the row it was asked in.
#[derive(Debug)]
pub struct CloseTicket {
    pub id: String,
    pub rendering: u64,
    pub index: usize,
}

impl CloseTicket {
    pub open spec fn row(self) -> (u64, int) {
        (self.rendering, self.index as int)
    }
}

/// What a close comes to once the helper has answered.
#[derive(Debug)]
pub enum CloseOutcome {
    /// It worked, and these rules are left on screen. `None` when the list
    /// had already been replaced by one without the rule: there is nothing to
    /// announce.
    Closed { remaining: Option<Vec<WireRule>> },
    /// The helper's message, word for word.
    Failed { toast: String },
}

/// The "Open now" section.
#[derive(Debug)]
pub struct OpenNowSection {
    loading_shown: bool,
    empty_shown: bool,
    group_shown: bool,
    error_note: TroubleNote,
    rows: Vec<Row>,
    rules: Vec<WireRule>,
    listed_at: u64,
    rendering: u64,
}

#[verifier::ext_equal]
pub struct OpenNowView {
    pub loading_shown: bool,
    pub empty_shown: bool,
    pub group_shown: bool,
    pub error: TroubleView,
    pub rows: Seq<RowView>,
    pub rules: Seq<WireRule>,
    /// When `rules` was read.
    pub listed_at: u64,
    /// How many times the rows have been built.
    pub rendering: u64,
}

impl View for OpenNowSection {
    type V = OpenNowView;

    closed spec fn view(&self) -> OpenNowView {
        OpenNowView {
            loading_shown: self.loading_shown,
            empty_shown: self.empty_shown,
            group_shown: self.group_shown,
            error: self.error_note@,
            rows: views(self.rows@),
            rules: self.rules@,
            listed_at: self.listed_at,
            rendering: self.rendering,
        }
    }
}

/// A counter's next value, back at 0 after the last.
pub open spec fn next_rendering(n: u64) -> u64 {
    if n < u64::MAX {
        (n + 1) as u64
    } else {
        0
    }
}

/// Whether a rule has another id than `id`.
pub open spec fn other_than(id: Seq<char>) -> spec_fn(WireRule) -> bool {
    |rule: WireRule| rule.id@ != id
}

impl OpenNowView {
    pub open spec fn fresh() -> Self {
        OpenNowView {
            loading_shown: true,
            empty_shown: false,
            group_shown: false,
            error: TroubleView {
                title: UNREACHABLE_TITLE@,
                description: Seq::empty(),
                showing: false,
            },
            rows: Seq::empty(),
            rules: Seq::empty(),
            listed_at: 0,
            rendering: 0,
        }
    }

    /// A list read at `listed_at` rendered at `current`.
    pub open spec fn applied(self, rules: Seq<WireRule>, listed_at: u64, current: u64) -> Self {
        OpenNowView {
            loading_shown: false,
            empty_shown: rules.len() == 0,
            group_shown: rules.len() > 0,
            error: TroubleView { showing: false, ..self.error },
            rows: Seq::new(rules.len(), |i: int| rule_row(rules[i], listed_at, current)),
            rules,
            listed_at,
            rendering: next_rendering(self.rendering),
        }
    }

    pub open spec fn names(self, id: Seq<char>) -> bool {
        exists|i: int| 0 <= i < self.rules.len() && (#[trigger] self.rules[i]).id@ == id
    }

    /// Every rule but the ones with this id, in the same order.
    pub open spec fn without(self, id: Seq<char>) -> Seq<WireRule> {
        self.rules.filter(other_than(id))
    }

    /// Rule `id` closed. A list that does not name it is not the list the
    /// close was asked of, and stays as it is.
    pub open spec fn closed(self, id: Seq<char>, current: u64) -> Self {
        if self.names(id) {
            self.applied(self.without(id), self.listed_at, current)
        } else {
            self
        }
    }

    /// A failure, in place of whatever was there.
    pub open spec fn failed(self, title: Seq<char>, message: Seq<char>) -> Self {
        OpenNowView {
            loading_shown: false,
            empty_shown: false,
            group_shown: false,
            error: TroubleView { title, description: message, showing: true },
            rows: Seq::empty(),
            rules: Seq::empty(),
            listed_at: 0,
            rendering: next_rendering(self.rendering),
        }
    }

    pub open spec fn ticked(self, now: u64) -> Self {
        OpenNowView {
            rows: Seq::new(self.rows.len(), |i: int| self.rows[i].ticked(now)),
            ..self
        }
    }

    /// Whether a tick at `now` has an expiry to report.
    pub open spec fn reports(self, now: u64) -> bool {
        exists|i: int|
            0 <= i < self.rows.len() && (#[trigger] self.rows[i]).unconfirmed(now)
                && !self.rows[i].reported
    }

    pub open spec fn with_row_busy(self, index: int, busy: BusyView) -> Self {
        OpenNowView {
            rows: self.rows.update(index, RowView { busy, ..self.rows[index] }),
            ..self
        }
    }

    /// The wait of a close over, if the row it was asked in is still there.
    pub open spec fn close_over(self, row: (u64, int)) -> Self {
        if row.0 == self.rendering && 0 <= row.1 < self.rows.len() {
            self.with_row_busy(row.1, self.rows[row.1].busy.ended())
        } else {
            self
        }
    }

    /// A close still unanswered after the delay, if the row it was asked in is
    /// still there.
    pub open spec fn close_waiting(self, row: (u64, int)) -> Self {
        if row.0 == self.rendering && 0 <= row.1 < self.rows.len() {
            self.with_row_busy(row.1, self.rows[row.1].busy.delayed())
        } else {
            self
        }
    }

    /// Exactly one of the four things a section can show is on screen.
    pub open spec fn shows_exactly_one_thing(self) -> bool {
        ||| self.loading_shown && !self.empty_shown && !self.group_shown && !self.error.showing
        ||| !self.loading_shown && self.empty_shown && !self.group_shown && !self.error.showing
        ||| !self.loading_shown && !self.empty_shown && self.group_shown && !self.error.showing
        ||| !self.loading_shown && !self.empty_shown && !self.group_shown && self.error.showing
    }

    /// One thing on screen; a row for every rule, in order, and the list of
    /// rows on screen exactly when there are any; every row's close button
    /// held by its own wait.
    pub open spec fn well_formed(self) -> bool {
        &&& self.shows_exactly_one_thing()
        &&& self.group_shown <==> self.rules.len() > 0
        &&& self.rows.len() == self.rules.len()
        &&& forall|i: int|
            0 <= i < self.rows.len() ==> {
                &&& (#[trigger] self.rows[i]).id == self.rules[i].id@
                &&& self.rows[i].expires_at == self.rules[i].expires_at
                &&& self.rows[i].listed_at == self.listed_at
                &&& self.rows[i].busy.well_formed()
                &&& self.rows[i].busy.controls.len() == 1
            }
    }
}

impl OpenNowSection {
    /// A section nothing has been heard for yet.
    pub fn new() -> (r: Self)
        ensures
            r@ == OpenNowView::fresh(),
            r@.well_formed(),
    {
        let mut error_note: TroubleNote = TroubleNote::new();
        error_note.set_title(UNREACHABLE_TITLE);
        let r = OpenNowSection {
            loading_shown: true,
            empty_shown: false,
            group_shown: false,
            error_note,
            rows: Vec::new(),
            rules: Vec::new(),
            listed_at: 0,
            rendering: 0,
        };
        assert(r@ =~= OpenNowView::fresh());
        r
    }

    fn apply(&mut self, rules: Vec<WireRule>, listed_at: u64, current: u64)
        ensures
            final(self)@ == old(self)@.applied(rules@, listed_at, current),
            final(self)@.well_formed(),
    {
        let rows: Vec<Row> = build_rows(&rules, listed_at, current);
        let nothing: bool = rules.len() == 0;
        self.error_note.set_showing(false);
        self.loading_shown = false;
        self.empty_shown = nothing;
        self.group_shown = !nothing;
        self.rows = rows;
        self.rules = rules;
        self.listed_at = listed_at;
        self.rendering = if self.rendering < u64::MAX {
            self.rendering + 1
        } else {
            0
        };
        assert(self@ =~= old(self)@.applied(rules@, listed_at, current));
    }

    /// A rule list, read at `now`.
    pub fn set_rules(&mut self, rules: &[WireRule], now: u64)
        ensures
            final(self)@ == old(self)@.applied(rules@, now, now),
            final(self)@.well_formed(),
    {
        self.apply(copy_rules(rules), now, now);
    }

    fn apply_error(&mut self, title: &str, message: &str)
        ensures
            final(self)@ == old(self)@.failed(title@, message@),
            final(self)@.well_formed(),
    {
        self.rules = Vec::new();
        self.listed_at = 0;
        self.rows = Vec::new();
        self.rendering = if self.rendering < u64::MAX {
            self.rendering + 1
        } else {
            0
        };
        self.group_shown = false;
        self.empty_shown = false;
        self.loading_shown = false;
        self.error_note.set_title(title);
        self.error_note.set_description(message);
        self.error_note.set_showing(true);
        assert(self@ =~= old(self)@.failed(title@, message@));
    }

    /// No answer came back at all.
    pub fn set_unreachable(&mut self, message: &str)
        ensures
            final(self)@ == old(self)@.failed(UNREACHABLE_TITLE@, message@),
            final(self)@.well_formed(),
    {
        self.apply_error(UNREACHABLE_TITLE, message);
    }

    /// The helper answered, and the answer was an error.
    pub fn set_errored(&mut self, message: &str)
        ensures
            final(self)@ == old(self)@.failed(ERRORED_TITLE@, message@),
            final(self)@.well_formed(),
    {
        self.apply_error(ERRORED_TITLE, message);
    }

    /// The helper answered, and the answer could not be read.
    pub fn set_undecodable(&mut self, message: &str)
        ensures
            final(self)@ == old(self)@.failed(UNDECODABLE_TITLE@, message@),
            final(self)@.well_formed(),
    {
        self.apply_error(UNDECODABLE_TITLE, message);
    }

    fn has_rule(&self, id: &str) -> (r: bool)
        ensures
            r == self@.names(id@),
    {
        let n: usize = self.rules.len();
        for i in 0..n
            invariant
                n == self.rules@.len(),
                forall|j: int| 0 <= j < i ==> (#[trigger] self.rules@[j]).id@ != id@,
        {
            if same_text(self.rules[i].id.as_str(), id) {
                assert(self@.rules[i as int].id@ == id@);
                return true;
            }
        }
        false
    }

    fn rules_without(&self, id: &str) -> (r: Vec<WireRule>)
        ensures
            r@ == self@.without(id@),
    {
        let ghost keep = other_than(id@);
        let mut r: Vec<WireRule> = Vec::new();
        let n: usize = self.rules.len();
        assert(self.rules@.take(0).filter(keep) =~= Seq::empty()) by {
            reveal(Seq::filter);
        }
        for i in 0..n
            invariant
                n == self.rules@.len(),
                keep == other_than(id@),
                r@ == self.rules@.take(i as int).filter(keep),
        {
            proof {
                reveal(Seq::filter);
                let longer = self.rules@.take(i + 1);
                assert(longer.drop_last() =~= self.rules@.take(i as int));
                assert(longer.last() == self.rules@[i as int]);
            }
            if !same_text(self.rules[i].id.as_str(), id) {
                r.push(self.rules[i].clone());
            }
        }
        assert(self.rules@.take(n as int) =~= self.rules@);
        r
    }

    /// A close of rule `id` worked: the rule goes, and the rest of the list
    /// keeps the age it had. Answers what is left to announce, or `None` when
    /// the list no longer named the rule and nothing changed.
    fn apply_close(&mut self, id: &str, now: u64) -> (r: Option<Vec<WireRule>>)
        requires
            old(self)@.well_formed(),
        ensures
            final(self)@ == old(self)@.closed(id@, now),
            final(self)@.well_formed(),
            r is Some <==> old(self)@.names(id@),
            r matches Some(rest) ==> rest@ == old(self)@.without(id@),
    {
        if !self.has_rule(id) {
            return None;
        }
        let remaining: Vec<WireRule> = self.rules_without(id);
        let announced: Vec<WireRule> = copy_rules(remaining.as_slice());
        let listed_at: u64 = self.listed_at;
        self.apply(remaining, listed_at, now);
        Some(announced)
    }

    /// The same change a close that worked makes, without having asked for
    /// one.
    pub fn simulate_close_succeeded(&mut self, id: &str, now: u64) -> (r: Option<Vec<WireRule>>)
        requires
            old(self)@.well_formed(),
        ensures
            final(self)@ == old(self)@.closed(id@, now),
            final(self)@.well_formed(),
            r is Some <==> old(self)@.names(id@),
            r matches Some(rest) ==> rest@ == old(self)@.without(id@),
    {
        self.apply_close(id, now)
    }

    /// Presses row `index`'s close button. Answers the close to ask for, and
    /// whether the delay has to be set running.
    pub fn begin_close(&mut self, index: usize) -> (r: (CloseTicket, bool))
        requires
            old(self)@.well_formed(),
            index < old(self)@.rows.len(),
            old(self)@.rows[index as int].busy.outstanding < usize::MAX,
        ensures
            r.0.id@ == old(self)@.rows[index as int].id,
            r.0.row() == (old(self)@.rendering, index as int),
            r.1 == !old(self)@.rows[index as int].busy.is_busy(),
            final(self)@ == old(self)@.with_row_busy(
                index as int,
                old(self)@.rows[index as int].busy.begun(),
            ),
            final(self)@.well_formed(),
    {
        let ghost before = self@;
        assert(before.rows[index as int] == self.rows@[index as int]@);
        let id: String = self.rows[index].id.clone();
        let first: bool = self.rows[index].close_busy.begin();
        let ticket = CloseTicket { id, rendering: self.rendering, index };
        assert(self@.rows =~= before.rows.update(
            index as int,
            RowView { busy: before.rows[index as int].busy.begun(), ..before.rows[index as int] },
        ));
        assert(self@ =~= before.with_row_busy(
            index as int,
            before.rows[index as int].busy.begun(),
        ));
        (ticket, first)
    }

    /// The delay set running by a close has run out: the row's spinner
    /// appears, if the row is still there and still waiting.
    pub fn close_delayed(&mut self, ticket: &CloseTicket)
        requires
            old(self)@.well_formed(),
        ensures
            final(self)@ == old(self)@.close_waiting(ticket.row()),
            final(self)@.well_formed(),
    {
        let ghost before = self@;
        if ticket.rendering == self.rendering && ticket.index < self.rows.len() {
            let index: usize = ticket.index;
            assert(before.rows[index as int] == self.rows@[index as int]@);
            self.rows[index].close_busy.delay_elapsed();
            assert(self@.rows =~= before.rows.update(
                index as int,
                RowView {
                    busy: before.rows[index as int].busy.delayed(),
                    ..before.rows[index as int]
                },
            ));
            assert(self@ =~= before.with_row_busy(
                index as int,
                before.rows[index as int].busy.delayed(),
            ));
        }
    }

    /// Ends the wait of a close, if the row it was asked in is still there.
    fn end_close(&mut self, ticket: &CloseTicket)
        requires
            old(self)@.well_formed(),
        ensures
            final(self)@ == old(self)@.close_over(ticket.row()),
            final(self)@.well_formed(),
    {
        let ghost before = self@;
        if ticket.rendering == self.rendering && ticket.index < self.rows.len() {
            let index: usize = ticket.index;
            assert(before.rows[index as int] == self.rows@[index as int]@);
            let _called_off: bool = self.rows[index].close_busy.end();
            assert(self@.rows =~= before.rows.update(
                index as int,
                RowView {
                    busy: before.rows[index as int].busy.ended(),
                    ..before.rows[index as int]
                },
            ));
            assert(self@ =~= before.with_row_busy(
                index as int,
                before.rows[index as int].busy.ended(),
            ));
        }
    }

    /// A close has been answered. One that worked takes its rule off the
    /// list; one that did not leaves the row, with the helper's own message
    /// to show.
    pub fn close_answered(&mut self, ticket: CloseTicket, outcome: Result<(), String>, now: u64)
        -> (r: CloseOutcome)
        requires
            old(self)@.well_formed(),
        ensures
            final(self)@.well_formed(),
            outcome is Ok ==> final(self)@ == old(self)@.closed(ticket.id@, now).close_over(
                ticket.row(),
            ) && (r matches CloseOutcome::Closed { remaining } && (remaining is Some <==> old(
                self,
            )@.names(ticket.id@)) && (remaining matches Some(rest) ==> rest@ == old(self)@.without(
                ticket.id@,
            ))),
            outcome matches Err(message) ==> final(self)@ == old(self)@.close_over(ticket.row())
                && r == (CloseOutcome::Failed { toast: message }),
    {
        match outcome {
            Ok(()) => {
                let remaining: Option<Vec<WireRule>> = self.apply_close(ticket.id.as_str(), now);
                self.end_close(&ticket);
                CloseOutcome::Closed { remaining }
            },
            Err(message) => {
                self.end_close(&ticket);
                CloseOutcome::Failed { toast: message }
            },
        }
    }

    /// Brings every countdown up to `now`. `true` when a deadline has settled
    /// without a list having been read since, once per row.
    pub fn refresh(&mut self, now: u64) -> (r: bool)
        requires
            old(self)@.well_formed(),
        ensures
            final(self)@ == old(self)@.ticked(now),
            final(self)@.well_formed(),
            r == old(self)@.reports(now),
    {
        let ghost before = self@;
        let n: usize = self.rows.len();
        let mut unconfirmed: bool = false;
        for i in 0..n
            invariant
                n == self.rows@.len(),
                n == before.rows.len(),
                self@ =~= (OpenNowView { rows: self@.rows, ..before }),
                forall|j: int| 0 <= j < i ==> (#[trigger] self@.rows[j]) == before.rows[j].ticked(now),
                forall|j: int| i <= j < n ==> (#[trigger] self@.rows[j]) == before.rows[j],
                unconfirmed <==> exists|j: int|
                    0 <= j < i && (#[trigger] before.rows[j]).unconfirmed(now)
                        && !before.rows[j].reported,
        {
            let ghost prior = self@;
            assert(prior.rows[i as int] == self.rows@[i as int]@);
            assert(prior.rows[i as int] == before.rows[i as int]);
            let expires_at: u64 = self.rows[i].expires_at;
            let listed_at: u64 = self.rows[i].listed_at;
            let due: bool = expiry_has_settled(expires_at, now) && !expiry_has_settled(
                expires_at,
                listed_at,
            );
            let row: &mut Row = &mut self.rows[i];
            row.countdown = format_countdown(expires_at, listed_at, now);
            row.overdue = expires_at <= now && expiry_has_settled(expires_at, listed_at);
            if due && !row.reported_unconfirmed {
                row.reported_unconfirmed = true;
                unconfirmed = true;
            }
            assert(self@.rows =~= prior.rows.update(i as int, prior.rows[i as int].ticked(now)));
        }
        assert(self@ =~= before.ticked(now));
        unconfirmed
    }

    /// The note for a confirmed empty list, while that is what is shown.
    pub fn empty_note(&self) -> (r: Option<QuietNote>)
        ensures
            r is Some <==> self@.empty_shown,
            r matches Some(note) ==> note@ == EMPTY_NOTE@,
    {
        if self.empty_shown {
            Some(quiet_note(EMPTY_NOTE))
        } else {
            None
        }
    }

    /// The failure, while that is what is shown.
    pub fn error_note(&self) -> (r: Option<TroubleNote>)
        ensures
            r is Some <==> self@.error.showing,
            r matches Some(note) ==> note@ == self@.error,
    {
        if self.error_note.is_showing() {
            Some(self.error_note.clone())
        } else {
            None
        }
    }

    /// The note for not having heard yet, while that is what is shown.
    pub fn loading_note(&self) -> (r: Option<QuietNote>)
        ensures
            r is Some <==> self@.loading_shown,
            r matches Some(note) ==> note@ == LOADING_NOTE@,
    {
        if self.loading_shown {
            Some(quiet_note(LOADING_NOTE))
        } else {
            None
        }
    }

    pub fn rows(&self) -> (r: &Vec<Row>)
        ensures
            views(r@) == self@.rows,
    {
        &self.rows
    }

    /// Row `index`'s wait for a close.
    pub fn close_busy_for(&self, index: usize) -> (r: Option<BusyIndicator>)
        ensures
            r is Some <==> index < self@.rows.len(),
            r matches Some(busy) ==> busy@ == self@.rows[index as int].busy,
    {
        if index < self.rows.len() {
            assert(self@.rows[index as int] == self.rows@[index as int]@);
            Some(self.rows[index].close_busy.clone())
        } else {
            None
        }
    }

    /// Whether row `index`'s close button can be pressed; `None` where there
    /// is no such row.
    pub fn close_button_for(&self, index: usize) -> (r: Option<bool>)
        requires
            self@.well_formed(),
        ensures
            r is Some <==> index < self@.rows.len(),
            r matches Some(sensitive) ==> sensitive == self@.rows[index as int].busy.controls[0],
    {
        if index < self.rows.len() {
            assert(self@.rows[index as int] == self.rows@[index as int]@);
            Some(self.rows[index].close_busy.control_is_sensitive(0))
        } else {
            None
        }
    }

    /// Whether row `index` carries the "open to anyone" marking.
    pub fn is_marked_significant(&self, index: usize) -> (r: bool)
        ensures
            r == (index < self@.rows.len() && self@.rows[index as int].significant is Some),
    {
        if index < self.rows.len() {
            assert(self@.rows[index as int] == self.rows@[index as int]@);
            self.rows[index].significant.is_some()
        } else {
            false
        }
    }

    /// Whether row `index` carries the marking of a forward.
    pub fn is_marked_forward(&self, index: usize) -> (r: bool)
        ensures
            r == (index < self@.rows.len() && self@.rows[index as int].forward is Some),
    {
        if index < self.rows.len() {
            assert(self@.rows[index as int] == self.rows@[index as int]@);
            self.rows[index].forward.is_some()
        } else {
            false
        }
    }

    /// The countdown as it reads on screen.
    pub fn countdown_text(&self, index: usize) -> (r: String)
        requires
            index < self@.rows.len(),
        ensures
            r@ == self@.rows[index as int].countdown,
    {
        assert(self@.rows[index as int] == self.rows@[index as int]@);
        self.rows[index].countdown.clone()
    }

    pub fn countdown_is_marked_overdue(&self, index: usize) -> (r: bool)
        requires
            index < self@.rows.len(),
        ensures
            r == self@.rows[index as int].overdue,
    {
        assert(self@.rows[index as int] == self.rows@[index as int]@);
        self.rows[index].overdue
    }
}

impl Row {
    pub fn id(&self) -> (r: String)
        ensures
            r@ == self@.id,
    {
        self.id.clone()
    }

    pub fn title(&self) -> (r: String)
        ensures
            r@ == self@.title,
    {
        self.title.clone()
    }

    pub fn subtitle(&self) -> (r: String)
        ensures
            r@ == self@.subtitle,
    {
        self.subtitle.clone()
    }

    /// The tooltip of the "open to anyone" marking.
    pub fn significant_tooltip(&self) -> (r: Option<String>)
        ensures
            text_of(r) == self@.significant,
    {
        copy_text(&self.significant)
    }

    /// The tooltip of the forward marking.
    pub fn forward_tooltip(&self) -> (r: Option<String>)
        ensures
            text_of(r) == self@.forward,
    {
        copy_text(&self.forward)
    }
}

impl Default for OpenNowSection {
    fn default() -> (r: Self)
        ensures
            r@ == OpenNowView::fresh(),
    {
        Self::new()
    }
}

/// A failure never looks like an empty list: none of the three shows the calm
/// note, and a list that came back, even empty, takes the failure away.
pub proof fn a_failure_is_not_an_empty_list(
    v: OpenNowView,
    title: Seq<char>,
    message: Seq<char>,
    rules: Seq<WireRule>,
    now: u64,
)
    ensures
        v.failed(title, message).error.showing,
        v.failed(title, message).error.description == message,
        !v.failed(title, message).empty_shown,
        v.failed(title, message).shows_exactly_one_thing(),
        !v.applied(rules, now, now).error.showing,
        !v.applied(rules, now, now).loading_shown,
        v.applied(rules, now, now).empty_shown <==> rules.len() == 0,
        v.applied(rules, now, now).shows_exactly_one_thing(),
        UNREACHABLE_TITLE@ != ERRORED_TITLE@,
        UNREACHABLE_TITLE@ != UNDECODABLE_TITLE@,
        ERRORED_TITLE@ != UNDECODABLE_TITLE@,
{
    reveal_strlit("Porthole helper unreachable");
    reveal_strlit("Porthole helper reported an error");
    reveal_strlit("Porthole could not read the helper's answer");
    assert(UNREACHABLE_TITLE@.len() == 27);
    assert(ERRORED_TITLE@.len() == 33);
    assert(UNDECODABLE_TITLE@.len() == 43);
}

/// A close that comes back after the list it was asked of has gone, because
/// a refresh failed in the meantime, changes nothing that is on screen.
pub proof fn a_late_close_does_not_undo_a_failure(
    v: OpenNowView,
    title: Seq<char>,
    message: Seq<char>,
    id: Seq<char>,
    now: u64,
)
    ensures
        v.failed(title, message).closed(id, now) == v.failed(title, message),
{
}

/// Closing a rule takes exactly that rule off the list: every other one
/// stays, in its order, on a list exactly as old as it was.
pub proof fn a_close_takes_one_rule_off(v: OpenNowView, id: Seq<char>, now: u64)
    requires
        v.well_formed(),
        v.names(id),
    ensures
        !v.closed(id, now).names(id),
        v.closed(id, now).listed_at == v.listed_at,
        v.closed(id, now).rules == v.without(id),
        forall|r: WireRule|
            v.rules.contains(r) && r.id@ != id ==> #[trigger] v.closed(id, now).rules.contains(r),
        forall|r: WireRule| #[trigger]
            v.closed(id, now).rules.contains(r) ==> v.rules.contains(r),
        v.closed(id, now).rules.len() < v.rules.len(),
{
    let keep = other_than(id);
    broadcast use vstd::seq_lib::group_filter_ensures;

    let rest = v.rules.filter(keep);
    assert forall|i: int| 0 <= i < rest.len() implies (#[trigger] rest[i]).id@ != id by {
        assert(keep(rest[i]));
    }
    let at = choose|i: int| 0 <= i < v.rules.len() && (#[trigger] v.rules[i]).id@ == id;
    filter_drops_one(v.rules, keep, at);
    assert forall|r: WireRule| v.rules.contains(r) && r.id@ != id implies #[trigger] v.closed(
        id,
        now,
    ).rules.contains(r) by {
        let i = choose|i: int| 0 <= i < v.rules.len() && v.rules[i] == r;
        assert(keep(v.rules[i]));
    }
    assert forall|r: WireRule| #[trigger]
        v.closed(id, now).rules.contains(r) implies v.rules.contains(r) by {
        v.rules.lemma_filter_contains_rev(keep, r);
    }
}

/// A filter that refuses an item leaves fewer items.
proof fn filter_drops_one(s: Seq<WireRule>, keep: spec_fn(WireRule) -> bool, at: int)
    requires
        0 <= at < s.len(),
        !keep(s[at]),
    ensures
        s.filter(keep).len() < s.len(),
    decreases s.len(),
{
    reveal(Seq::filter);
    if at < s.len() - 1 {
        assert(s.drop_last()[at] == s[at]);
        filter_drops_one(s.drop_last(), keep, at);
    } else {
        s.drop_last().lemma_filter_len(keep);
    }
}

/// A close waits in its own row: neither its delay running out nor its answer
/// changes another row, and once the rows have been built afresh it changes
/// none.
pub proof fn a_close_waits_in_its_own_row(v: OpenNowView, row: (u64, int), other: int)
    requires
        v.well_formed(),
        0 <= other < v.rows.len(),
        row.0 != v.rendering || row.1 != other,
    ensures
        v.close_waiting(row).rows[other] == v.rows[other],
        v.close_over(row).rows[other] == v.rows[other],
        row.0 != v.rendering ==> v.close_waiting(row) == v && v.close_over(row) == v,
{
}

/// A settled deadline is reported once per rendering: right after a tick
/// there is nothing more to report at that time, and the reports already made
/// stay made.
pub proof fn an_expiry_is_reported_once(v: OpenNowView, now: u64, later: u64, i: int)
    requires
        v.well_formed(),
        now <= later,
        0 <= i < v.rows.len(),
    ensures
        !v.ticked(now).reports(now),
        v.rows[i].unconfirmed(now) ==> v.ticked(now).rows[i].reported && v.ticked(now).ticked(
            later,
        ).rows[i].reported,
{
    assert forall|j: int| 0 <= j < v.ticked(now).rows.len() implies !(
    #[trigger] v.ticked(now).rows[j].unconfirmed(now) && !v.ticked(now).rows[j].reported) by {
        assert(v.ticked(now).rows[j] == v.rows[j].ticked(now));
    }
}

/// A list read past every deadline's settle point is the answer, and asks for
/// no further one, however long it stands.
pub proof fn a_settled_list_asks_for_nothing(
    v: OpenNowView,
    rules: Seq<WireRule>,
    listed_at: u64,
    later: u64,
)
    requires
        forall|i: int|
            0 <= i < rules.len() ==> has_settled((#[trigger] rules[i]).expires_at, listed_at)
                || rules[i].expires_at == 0,
    ensures
        !v.applied(rules, listed_at, listed_at).reports(later),
{
    let w = v.applied(rules, listed_at, listed_at);
    assert forall|i: int| 0 <= i < w.rows.len() implies !(#[trigger] w.rows[i]).unconfirmed(
        later,
    ) by {
        assert(w.rows[i] == rule_row(rules[i], listed_at, listed_at));
    }
}

/// A rule open to anyone is marked, a forward is marked as one, and no other
/// row is.
pub proof fn the_exposed_rows_are_the_marked_ones(
    v: OpenNowView,
    rules: Seq<WireRule>,
    now: u64,
    i: int,
)
    requires
        0 <= i < rules.len(),
    ensures
        v.applied(rules, now, now).rows[i].significant is Some <==> rules[i].to_anyone(),
        v.applied(rules, now, now).rows[i].forward is Some <==> rules[i].is_forward(),
{
}

/// Who a rule lets in, as its row names them: everyone for a rule towards
/// "anywhere", and the rule's own target for every other.
pub open spec fn let_in(rule: WireRule, who: Seq<char>) -> bool {
    (rule.scope@ == "anywhere"@ ==> who == "anyone"@) && (rule.scope@ != "anywhere"@ ==> who
        == rule.target@)
}

/// A row's title names its rule's port and its rule's own protocol, with a
/// slash between.
pub proof fn a_title_names_the_port_and_the_protocol(rule: WireRule, listed_at: u64, current: u64)
    ensures
        exists|port: Seq<char>| #[trigger]
            reads_as(port, rule.port as nat) && rule_row(rule, listed_at, current).title
                == port.push('/') + rule.protocol@,
{
    reveal_strlit("/");
    let port = decimal(rule.port as nat);
    decimal_reads_back(rule.port as nat);
    assert(rule_row(rule, listed_at, current).title =~= port.push('/') + rule.protocol@);
}

/// Two rows have the same title only where their rules have the same port and
/// the same protocol.
pub proof fn titles_tell_ports_and_protocols_apart(
    one: WireRule,
    other: WireRule,
    listed_at: u64,
    current: u64,
)
    ensures
        rule_row(one, listed_at, current).title == rule_row(other, listed_at, current).title
            <==> one.port == other.port && one.protocol@ == other.protocol@,
{
    a_title_names_the_port_and_the_protocol(one, listed_at, current);
    a_title_names_the_port_and_the_protocol(other, listed_at, current);
    let s = rule_row(one, listed_at, current).title;
    let t = rule_row(other, listed_at, current).title;
    let p = choose|p: Seq<char>| #[trigger]
        reads_as(p, one.port as nat) && s == p.push('/') + one.protocol@;
    let q = choose|q: Seq<char>| #[trigger]
        reads_as(q, other.port as nat) && t == q.push('/') + other.protocol@;
    if s == t {
        let i: int = p.len() as int;
        let j: int = q.len() as int;
        assert(s[i] == '/' && t[j] == '/');
        if i < j {
            assert(t[i] == q[i]);
        }
        if j < i {
            assert(s[j] == p[j]);
        }
        assert(i == j);
        assert(p =~= s.take(i));
        assert(q =~= s.take(i));
        assert(one.protocol@ =~= s.skip(i + 1));
        assert(other.protocol@ =~= s.skip(i + 1));
    }
    if one.port == other.port && one.protocol@ == other.protocol@ {
        assert(s =~= t);
    }
}

/// A rule that permits says who may reach the port; a rule that redirects
/// says so too, behind where it leads: the container's address and port, and
/// the port Docker publishes it on.
pub proof fn a_subtitle_says_who_and_where_to(rule: WireRule, listed_at: u64, current: u64)
    ensures
        rule.container_addr@ == Seq::<char>::empty() ==> exists|who: Seq<char>| #[trigger]
            let_in(rule, who) && rule_row(rule, listed_at, current).subtitle == "open to "@ + who,
        rule.container_addr@ != Seq::<char>::empty() ==> exists|
            who: Seq<char>,
            inside: Seq<char>,
            published: Seq<char>,
        |
            #![trigger let_in(rule, who), reads_as(inside, rule.container_port as nat), reads_as(published, rule.published_port as nat)]
            {
                &&& let_in(rule, who)
                &&& reads_as(inside, rule.container_port as nat)
                &&& reads_as(published, rule.published_port as nat)
                &&& rule_row(rule, listed_at, current).subtitle == "redirects to "@
                    + rule.container_addr@ + ":"@ + inside + " (published on "@ + published
                    + ") · reachable from "@ + who
            },
{
    let row = rule_row(rule, listed_at, current);
    let who = if rule.scope@ == "anywhere"@ {
        "anyone"@
    } else {
        rule.target@
    };
    assert(let_in(rule, who));
    if rule.container_addr@.len() == 0 {
        assert(rule.container_addr@ =~= Seq::<char>::empty());
    } else {
        let inside = decimal(rule.container_port as nat);
        let published = decimal(rule.published_port as nat);
        decimal_reads_back(rule.container_port as nat);
        decimal_reads_back(rule.published_port as nat);
        assert(row.subtitle =~= "redirects to "@ + rule.container_addr@ + ":"@ + inside
            + " (published on "@ + published + ") · reachable from "@ + who);
    }
}

/// A row carries its rule's own id and deadline and the time its list was
/// read, has nothing left to report where that list is the answer about its
/// deadline, and its close button can be pressed from the start. It is marked as
/// open to anyone, with the note that goes with it, exactly for a rule
/// towards "anywhere", and as a forward, with where it leads, exactly for a
/// rule that leads to a container.
pub proof fn a_row_is_its_rules_own(rule: WireRule, listed_at: u64, current: u64)
    ensures
        ({
            let row = rule_row(rule, listed_at, current);
            &&& row.id == rule.id@
            &&& row.expires_at == rule.expires_at
            &&& row.listed_at == listed_at
            &&& row.reported <==> rule.expires_at != 0 && (listed_at - rule.expires_at >= 5
                || listed_at == u64::MAX)
            &&& row.busy.outstanding == 0 && !row.busy.showing && !row.busy.timer_armed
            &&& row.busy.controls == seq![true]
            &&& rule.scope@ == "anywhere"@ ==> row.significant == Some(ANYONE_NOTE@)
            &&& rule.scope@ != "anywhere"@ ==> row.significant is None
            &&& rule.container_addr@ == Seq::<char>::empty() <==> row.forward is None
        }),
        rule_row(rule, listed_at, current).forward matches Some(tooltip) ==> exists|
            inside: Seq<char>,
            published: Seq<char>,
        |
            #![trigger reads_as(inside, rule.container_port as nat), reads_as(published, rule.published_port as nat)]
            {
                &&& reads_as(inside, rule.container_port as nat)
                &&& reads_as(published, rule.published_port as nat)
                &&& tooltip == "Redirected to "@ + rule.container_addr@ + ":"@ + inside
                    + ", published on "@ + published
            },
{
    let row = rule_row(rule, listed_at, current);
    assert(row.busy.controls =~= seq![true]);
    if rule.container_addr@.len() == 0 {
        assert(rule.container_addr@ =~= Seq::<char>::empty());
    } else {
        let inside = decimal(rule.container_port as nat);
        let published = decimal(rule.published_port as nat);
        decimal_reads_back(rule.container_port as nat);
        decimal_reads_back(rule.published_port as nat);
        assert(forward_tooltip(rule) =~= "Redirected to "@ + rule.container_addr@ + ":"@ + inside
            + ", published on "@ + published);
    }
}

/// A list is taken as the answer about a deadline from five seconds past it
/// on, or from the last moment a clock can show, and never about a rule that
/// has no deadline.
pub proof fn a_deadline_settles_five_seconds_on(expires_at: u64, at: u64)
    ensures
        expires_at == 0 ==> !has_settled(expires_at, at),
        expires_at != 0 ==> (has_settled(expires_at, at) <==> at - expires_at >= 5 || at
            == u64::MAX),
{
}

/// Before a deadline the countdown is the time that is left, in minutes and
/// two-digit seconds; a rule without a deadline says that it lasts until
/// reboot.
pub proof fn a_countdown_is_the_time_left(expires_at: u64, listed_at: u64, current: u64)
    ensures
        expires_at == 0 ==> countdown(expires_at, listed_at, current) == "until reboot"@,
        expires_at > current ==> exists|minutes: Seq<char>, seconds: Seq<char>|
            #![trigger value_of(minutes), value_of(seconds)]
            {
                &&& countdown(expires_at, listed_at, current) == minutes + ":"@ + seconds
                    + " left"@
                &&& value_of(minutes) * 60 + value_of(seconds) == expires_at - current
                &&& value_of(seconds) < 60
                &&& seconds.len() == 2
                &&& minutes.len() >= 2
                &&& minutes.len() > 2 ==> minutes[0] != '0'
                &&& forall|i: int| 0 <= i < minutes.len() ==> '0' <= #[trigger] minutes[i] <= '9'
                &&& forall|i: int| 0 <= i < seconds.len() ==> '0' <= #[trigger] seconds[i] <= '9'
            },
{
    if expires_at > current {
        let m = ((expires_at - current) / 60) as nat;
        let s = ((expires_at - current) % 60) as nat;
        two_digits_read_back(m);
        two_digits_read_back(s);
        let minutes = two_digits(m);
        let seconds = two_digits(s);
        assert(value_of(minutes) == m && value_of(seconds) == s);
        assert(countdown(expires_at, listed_at, current) =~= minutes + ":"@ + seconds
            + " left"@);
        assert(m * 60 + s == expires_at - current);
    }
}

/// Past a deadline the text is "still open" exactly when the list that named
/// the rule was read at least five seconds after it, and "time is up"
/// otherwise; the warning stands exactly beside "still open".
pub proof fn past_a_deadline_the_list_decides(expires_at: u64, listed_at: u64, current: u64)
    requires
        0 < expires_at <= current,
    ensures
        listed_at - expires_at >= 5 || listed_at == u64::MAX ==> countdown(
            expires_at,
            listed_at,
            current,
        ) == "still open"@,
        listed_at - expires_at < 5 && listed_at < u64::MAX ==> countdown(
            expires_at,
            listed_at,
            current,
        ) == "time is up"@,
        overdue(expires_at, listed_at, current) <==> listed_at - expires_at >= 5 || listed_at
            == u64::MAX,
{
}

/// The warning never stands on a rule that has no deadline, or whose deadline
/// is still to come.
pub proof fn no_warning_before_a_deadline(expires_at: u64, listed_at: u64, current: u64)
    requires
        expires_at == 0 || current < expires_at,
    ensures
        !overdue(expires_at, listed_at, current),
{
}

/// A tick brings a row to exactly what a row built at that moment from the
/// same list would say, and changes nothing else but what has been reported.
pub proof fn a_tick_is_the_row_as_it_reads_then(
    rule: WireRule,
    listed_at: u64,
    current: u64,
    now: u64,
)
    ensures
        ({
            let ticked = rule_row(rule, listed_at, current).ticked(now);
            let built = rule_row(rule, listed_at, now);
            &&& ticked.countdown == built.countdown
            &&& ticked.overdue == built.overdue
            &&& ticked.title == built.title
            &&& ticked.subtitle == built.subtitle
            &&& ticked.id == built.id
            &&& ticked.expires_at == built.expires_at
            &&& ticked.listed_at == built.listed_at
            &&& ticked.significant == built.significant
            &&& ticked.forward == built.forward
            &&& ticked.busy == built.busy
        }),
{
}

/// A tick changes a row's countdown and its warning, both by the row's own
/// deadline and the age of its own list, and what has been reported; nothing
/// else of the row moves.
pub proof fn a_tick_moves_only_the_countdown(row: RowView, now: u64)
    ensures
        row.ticked(now) == (RowView {
            countdown: countdown(row.expires_at, row.listed_at, now),
            overdue: row.ticked(now).overdue,
            reported: row.ticked(now).reported,
            ..row
        }),
        row.ticked(now).overdue <==> row.expires_at != 0 && row.expires_at <= now && (row.listed_at
            - row.expires_at >= 5 || row.listed_at == u64::MAX),
{
}

/// A tick keeps every row and its wait, and asks for a list exactly when some
/// row's deadline went by at least five seconds ago, its list is older than
/// that, and nothing has been asked on its account yet.
pub proof fn a_tick_reports_unheard_deadlines(v: OpenNowView, now: u64)
    ensures
        v.reports(now) <==> exists|i: int|
            0 <= i < v.rows.len() && !(#[trigger] v.rows[i]).reported && v.rows[i].expires_at != 0
                && (now - v.rows[i].expires_at >= 5 || now == u64::MAX) && v.rows[i].listed_at
                - v.rows[i].expires_at < 5 && v.rows[i].listed_at < u64::MAX,
        v.ticked(now).rows.len() == v.rows.len(),
        v.ticked(now).rules == v.rules,
        v.ticked(now).listed_at == v.listed_at,
        v.ticked(now).rendering == v.rendering,
        v.ticked(now).error == v.error,
        v.ticked(now).loading_shown == v.loading_shown,
        v.ticked(now).empty_shown == v.empty_shown,
        v.ticked(now).group_shown == v.group_shown,
        forall|i: int|
            0 <= i < v.rows.len() ==> {
                &&& (#[trigger] v.ticked(now).rows[i]) == v.rows[i].ticked(now)
                &&& v.ticked(now).rows[i].reported <==> v.rows[i].reported || (
                v.rows[i].expires_at != 0 && (now - v.rows[i].expires_at >= 5 || now == u64::MAX)
                    && v.rows[i].listed_at - v.rows[i].expires_at < 5 && v.rows[i].listed_at
                    < u64::MAX)
            },
{
    if v.reports(now) {
        let i = choose|i: int|
            0 <= i < v.rows.len() && (#[trigger] v.rows[i]).unconfirmed(now)
                && !v.rows[i].reported;
        assert(!v.rows[i].reported);
    }
    assert forall|i: int|
        0 <= i < v.rows.len() && !(#[trigger] v.rows[i]).reported && v.rows[i].expires_at != 0 && (
        now - v.rows[i].expires_at >= 5 || now == u64::MAX) && v.rows[i].listed_at
            - v.rows[i].expires_at < 5 && v.rows[i].listed_at < u64::MAX implies v.reports(
        now,
    ) by {
        assert(v.rows[i].unconfirmed(now));
    }
    assert forall|i: int| 0 <= i < v.rows.len() implies {
        &&& (#[trigger] v.ticked(now).rows[i]) == v.rows[i].ticked(now)
        &&& v.ticked(now).rows[i].reported <==> v.rows[i].reported || (v.rows[i].expires_at != 0
            && (now - v.rows[i].expires_at >= 5 || now == u64::MAX) && v.rows[i].listed_at
            - v.rows[i].expires_at < 5 && v.rows[i].listed_at < u64::MAX)
    } by {
        assert(v.ticked(now).rows[i] == v.rows[i].ticked(now));
    }
}

/// A list is shown whole: a row for every rule, in the list's own order, and
/// the list kept with the time it was read. Every rendering goes by another
/// number than the one before it, so that a close asked for in an earlier one
/// finds no row.
pub proof fn a_list_is_shown_whole_and_in_order(
    v: OpenNowView,
    rules: Seq<WireRule>,
    listed_at: u64,
    current: u64,
    title: Seq<char>,
    message: Seq<char>,
)
    ensures
        ({
            let w = v.applied(rules, listed_at, current);
            &&& w.rules == rules
            &&& w.listed_at == listed_at
            &&& w.rows.len() == rules.len()
            &&& forall|i: int|
                0 <= i < rules.len() ==> #[trigger] w.rows[i] == rule_row(
                    rules[i],
                    listed_at,
                    current,
                )
            &&& w.group_shown <==> rules.len() > 0
            &&& w.empty_shown <==> rules.len() == 0
            &&& !w.loading_shown && !w.error.showing
            &&& w.rendering != v.rendering
        }),
        ({
            let w = v.failed(title, message);
            &&& w.rules.len() == 0 && w.rows.len() == 0
            &&& w.error.showing && w.error.title == title && w.error.description == message
            &&& !w.loading_shown && !w.empty_shown && !w.group_shown
            &&& w.rendering != v.rendering
        }),
        OpenNowView::fresh().loading_shown,
        !OpenNowView::fresh().empty_shown,
        !OpenNowView::fresh().group_shown,
        !OpenNowView::fresh().error.showing,
        OpenNowView::fresh().rows.len() == 0,
        OpenNowView::fresh().rules.len() == 0,
{
}

/// What a close that worked leaves is every rule of another id, in order, on
/// a list as old as it was; where no rule has the id, nothing changes.
pub proof fn a_close_leaves_every_other_rule(v: OpenNowView, id: Seq<char>, now: u64)
    ensures
        (forall|i: int| 0 <= i < v.rules.len() ==> (#[trigger] v.rules[i]).id@ != id) ==> v.closed(
            id,
            now,
        ) == v,
        (exists|i: int| 0 <= i < v.rules.len() && (#[trigger] v.rules[i]).id@ == id) ==> {
            &&& v.closed(id, now).rules == v.rules.filter(|rule: WireRule| rule.id@ != id)
            &&& v.closed(id, now) == v.applied(v.closed(id, now).rules, v.listed_at, now)
            &&& v.closed(id, now).rows.len() == v.closed(id, now).rules.len()
            &&& forall|i: int|
                0 <= i < v.closed(id, now).rows.len() ==> #[trigger] v.closed(id, now).rows[i]
                    == rule_row(v.closed(id, now).rules[i], v.listed_at, now)
        },
        v.without(id) == v.rules.filter(|rule: WireRule| rule.id@ != id),
        v.names(id) <==> exists|i: int|
            0 <= i < v.rules.len() && (#[trigger] v.rules[i]).id@ == id,
{
    assert(other_than(id) =~= (|rule: WireRule| rule.id@ != id));
}

/// A close waits in the row it was asked in: that row's delay running out and
/// that row's answer are its own, and nothing else of the row moves.
pub proof fn a_close_waits_and_ends_in_its_row(v: OpenNowView, i: int)
    requires
        0 <= i < v.rows.len(),
    ensures
        v.close_waiting((v.rendering, i)) == v.with_row_busy(i, v.rows[i].busy.delayed()),
        v.close_over((v.rendering, i)) == v.with_row_busy(i, v.rows[i].busy.ended()),
        forall|busy: BusyView| #[trigger]
            v.with_row_busy(i, busy) == (OpenNowView {
                rows: v.with_row_busy(i, busy).rows,
                ..v
            }) && v.with_row_busy(i, busy).rows.len() == v.rows.len() && v.with_row_busy(
                i,
                busy,
            ).rows[i] == (RowView { busy, ..v.rows[i] }),
        forall|busy: BusyView, j: int|
            0 <= j < v.rows.len() && j != i ==> #[trigger] v.with_row_busy(i, busy).rows[j]
                == v.rows[j],
{
}

/// The two quiet notes say two different things: that nothing is open, and
/// that it is not known yet.
pub proof fn nothing_open_is_not_nothing_heard()
    ensures
        "No ports open."@.is_prefix_of(EMPTY_NOTE@),
        "Checking what's open"@.is_prefix_of(LOADING_NOTE@),
        EMPTY_NOTE@ != LOADING_NOTE@,
{
    reveal_strlit("No ports open.");
    reveal_strlit("Checking what's open");
    reveal_strlit("No ports open. Open a port below when you need one.");
    reveal_strlit("Checking what's open…");
    assert("No ports open."@ =~= EMPTY_NOTE@.subrange(0, 14));
    assert("Checking what's open"@ =~= LOADING_NOTE@.subrange(0, 20));
    assert(EMPTY_NOTE@[0] == 'N');
    assert(LOADING_NOTE@[0] == 'C');
}

} // verus!
