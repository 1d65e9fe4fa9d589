//! The window: its sections, what it keeps for the dialogs it opens, and what
//! each thing it hears does to them.
//!
//! Reading the helper ends in one of several facts, and none of them renders
//! as another: no answer, an answer that was an error, an answer this build
//! cannot read, and a list. The third does not go away by asking again, so it
//! is the one that stops the window asking, for good.

use crate::bus::{FailureView, HelperFailure};
use crate::busy::{BusyIndicator, BusyView, BUSY_DELAY};
use crate::listening_section::{DockerView, ListeningSection, ListeningView};
use crate::model::{
    Alignment, Protocol, Published, Service, WireDockerPort, WireRule, WireStatus,
};
use crate::net::{dotted, parse_ipv4, Ipv4Addr};
use crate::open_dialog::{DeviceEntry, DeviceView, DialogView, OpenDialog};
use crate::open_now::{
    CloseOutcome, CloseTicket, OpenNowSection, OpenNowView, ERRORED_TITLE, UNDECODABLE_TITLE,
    UNREACHABLE_TITLE,
};
use crate::quiet::TroubleView;
use crate::status_bar::{
    errored_banner, the_remedy_is_for_the_older_half, undecodable_banner, unreachable_banner,
    StatusBar, StatusView,
};
use crate::text::{same_text, text2, text3, views};
use vstd::prelude::*;
use vstd::string::*;

verus! {

/// The saved devices as they were last resolved, or the reason the address
/// book could not be read.
pub type DeviceSnapshot = Result<Vec<DeviceEntry>, String>;

pub open spec fn snapshot_view(snapshot: DeviceSnapshot) -> Result<Seq<DeviceView>, Seq<char>> {
    match snapshot {
        Ok(devices) => Ok(views(devices@)),
        Err(reason) => Err(reason@),
    }
}

/// The saved-devices entry of the main menu: its action's name, and the name
/// a menu item points at it with.
pub const DEVICES_ACTION_NAME: &'static str = "devices";

pub const DEVICES_ACTION: &'static str = "win.devices";

/// At or below this width, in pixels, the narrow layout applies.
pub const NARROW_WIDTH_PX: u32 = 400;

/// The content's margin, in pixels.
pub const MARGIN_PX: i32 = 24;

/// The content's margin while the window is narrow.
pub const NARROW_MARGIN_PX: i32 = 12;

/// What the device cache says before anything has read the address book.
pub const DEVICES_NOT_READ_YET: &'static str = "porthole has not read the saved devices yet.";

/// How long the helper may take to answer, in seconds.
pub const HELPER_TIMEOUT: u64 = 8;

/// How long a burst of announcements is gathered for, in milliseconds.
pub const SIGNAL_COALESCE: u64 = 200;

/// The menu item points at the action the window has.
pub proof fn the_menu_reaches_its_action()
    ensures
        DEVICES_ACTION@ == "win."@ + DEVICES_ACTION_NAME@,
{
    reveal_strlit("win.");
    reveal_strlit("devices");
    reveal_strlit("win.devices");
    assert(DEVICES_ACTION@ =~= "win."@ + DEVICES_ACTION_NAME@);
}

/// One published port off the wire, given what its protocol was read as.
/// Three things can be wrong with it, and the first of them is what is
/// reported: the host address, the protocol, the container's address.
pub open spec fn wire_published(
    wire: WireDockerPort,
    protocol: Result<Protocol, String>,
    r: Result<Published, String>,
) -> bool {
    if wire.host_addr@.len() > 0 && !is_address(wire.host_addr@) {
        r matches Err(e) && e@ == "the helper sent `"@ + wire.host_addr@
            + "` as a Docker host address"@
    } else if protocol is Err {
        r matches Err(e) && e@ == protocol->Err_0@
    } else if !is_address(wire.container_addr@) {
        r matches Err(e) && e@ == "the helper sent `"@ + wire.container_addr@
            + "` as a Docker container address"@
    } else {
        r matches Ok(p) && {
            &&& wire.host_addr@.len() == 0 ==> p.host_addr is None
            &&& wire.host_addr@.len() > 0 ==> (p.host_addr matches Some(addr) && wire.host_addr@
                == dotted(addr))
            &&& p.host_port == wire.host_port
            &&& p.protocol == protocol->Ok_0
            &&& wire.container_addr@ == dotted(p.container_addr)
            &&& p.container_port == wire.container_port
        }
    }
}

/// Whether a text is the dotted form of an address.
pub open spec fn is_address(text: Seq<char>) -> bool {
    exists|addr: Ipv4Addr| text == #[trigger] dotted(addr)
}

/// One published port off the wire. An empty host address is every
/// interface; a malformed address is the helper's encoding being wrong.
pub fn published_from_wire(wire: &WireDockerPort, protocol: &Result<Protocol, String>) -> (r:
    Result<Published, String>)
    ensures
        wire_published(*wire, *protocol, r),
{
    let host_addr: Option<Ipv4Addr> = if wire.host_addr.as_str().unicode_len() == 0 {
        None
    } else {
        match parse_ipv4(wire.host_addr.as_str()) {
            Some(addr) => Some(addr),
            None => {
                return Err(
                    text3(
                        "the helper sent `",
                        wire.host_addr.as_str(),
                        "` as a Docker host address",
                    ),
                );
            },
        }
    };
    let protocol: Protocol = match protocol {
        Ok(protocol) => *protocol,
        Err(e) => {
            return Err(e.clone());
        },
    };
    match parse_ipv4(wire.container_addr.as_str()) {
        Some(container_addr) => Ok(
            Published {
                host_addr,
                host_port: wire.host_port,
                protocol,
                container_addr,
                container_port: wire.container_port,
            },
        ),
        None => Err(
            text3(
                "the helper sent `",
                wire.container_addr.as_str(),
                "` as a Docker container address",
            ),
        ),
    }
}

/// Whether nothing is wrong with an entry.
pub open spec fn entry_is_sound(entry: (WireDockerPort, Result<Protocol, String>)) -> bool {
    exists|p: Published| #[trigger] wire_published(entry.0, entry.1, Ok(p))
}

/// Whether entry `i` is the first with something wrong, and `message` says
/// what.
pub open spec fn first_wrong(
    reply: Seq<(WireDockerPort, Result<Protocol, String>)>,
    i: int,
    message: String,
) -> bool {
    &&& 0 <= i < reply.len()
    &&& wire_published(reply[i].0, reply[i].1, Err(message))
    &&& forall|j: int| 0 <= j < i ==> entry_is_sound(#[trigger] reply[j])
}

/// What the helper's list of published ports amounts to, given what each
/// entry's protocol was read as: every entry, or the first thing wrong with
/// one, which is an error of the helper's.
pub fn published_from_reply(reply: &Vec<(WireDockerPort, Result<Protocol, String>)>) -> (r: Result<
    Vec<Published>,
    HelperFailure,
>)
    ensures
        r matches Ok(list) ==> list@.len() == reply@.len() && forall|i: int|
            0 <= i < reply@.len() ==> wire_published(
                (#[trigger] reply@[i]).0,
                reply@[i].1,
                Ok(list@[i]),
            ),
        r matches Err(failure) ==> failure is Errored,
        r matches Err(HelperFailure::Errored(message)) ==> exists|i: int| #[trigger]
            first_wrong(reply@, i, message),
{
    let mut list: Vec<Published> = Vec::new();
    let n: usize = reply.len();
    for i in 0..n
        invariant
            n == reply@.len(),
            list@.len() == i,
            forall|j: int|
                0 <= j < i ==> wire_published(
                    (#[trigger] reply@[j]).0,
                    reply@[j].1,
                    Ok(list@[j]),
                ),
    {
        let entry: &(WireDockerPort, Result<Protocol, String>) = &reply[i];
        match published_from_wire(&entry.0, &entry.1) {
            Ok(p) => {
                list.push(p);
            },
            Err(message) => {
                assert forall|j: int| 0 <= j < i implies entry_is_sound(#[trigger] reply@[j]) by {
                    assert(wire_published(reply@[j].0, reply@[j].1, Ok(list@[j])));
                }
                assert(first_wrong(reply@, i as int, message));
                let r: Result<Vec<Published>, HelperFailure> = Err(
                    HelperFailure::Errored(message),
                );
                assert(r matches Err(HelperFailure::Errored(m)) ==> m == message);
                return r;
            },
        }
    }
    Ok(list)
}

/// Everything one refresh learns from the helper: three results, each of its
/// own, and which of the two programs is the older one where that was asked.
#[derive(Debug)]
pub struct HelperSnapshot {
    pub rules: Result<Vec<WireRule>, HelperFailure>,
    pub status: Result<WireStatus, HelperFailure>,
    pub docker: Result<Vec<Published>, HelperFailure>,
    pub alignment: Option<Alignment>,
}

/// The message of an answer that could not be read.
pub open spec fn unreadable<T>(result: Result<T, HelperFailure>) -> Option<Seq<char>> {
    match result {
        Err(HelperFailure::Undecodable(message)) => Some(message@),
        _ => None,
    }
}

impl HelperSnapshot {
    /// The first of the three answers that could not be read.
    pub open spec fn unreadable(self) -> Option<Seq<char>> {
        if unreadable(self.rules) is Some {
            unreadable(self.rules)
        } else if unreadable(self.status) is Some {
            unreadable(self.status)
        } else {
            unreadable(self.docker)
        }
    }
}

fn unreadable_message<T>(result: &Result<T, HelperFailure>) -> (r: Option<String>)
    ensures
        match r {
            Some(message) => unreadable(*result) == Some(message@),
            None => unreadable(*result) is None,
        },
{
    match result {
        Err(HelperFailure::Undecodable(message)) => Some(message.clone()),
        _ => None,
    }
}

/// The first of a refresh's three answers that could not be read, if any.
pub fn first_undecodable(snapshot: &HelperSnapshot) -> (r: Option<String>)
    ensures
        match r {
            Some(message) => snapshot.unreadable() == Some(message@),
            None => snapshot.unreadable() is None,
        },
{
    let rules: Option<String> = unreadable_message(&snapshot.rules);
    if rules.is_some() {
        return rules;
    }
    let status: Option<String> = unreadable_message(&snapshot.status);
    if status.is_some() {
        return status;
    }
    unreadable_message(&snapshot.docker)
}

/// One unreadable answer of the three is enough, whichever it is.
pub proof fn any_unreadable_answer_counts(snapshot: HelperSnapshot)
    ensures
        snapshot.unreadable() is Some <==> unreadable(snapshot.rules) is Some || unreadable(
            snapshot.status,
        ) is Some || unreadable(snapshot.docker) is Some,
{
}

/// Whether a rule is for TCP.
pub open spec fn is_tcp() -> spec_fn(WireRule) -> bool {
    |rule: WireRule| rule.protocol@ == "tcp"@
}

/// The ports of a list's TCP rules, in order.
pub open spec fn tcp_ports(rules: Seq<WireRule>) -> Seq<u16> {
    rules.filter(is_tcp()).map_values(|rule: WireRule| rule.port)
}

/// The ports the "Listening" section is told are open: the TCP ones, since
/// TCP is all that it lists.
pub fn open_tcp_ports(rules: &[WireRule]) -> (r: Vec<u16>)
    ensures
        r@ == tcp_ports(rules@),
{
    let mut r: Vec<u16> = Vec::new();
    let n: usize = rules.len();
    assert(tcp_ports(rules@.take(0)) =~= Seq::empty()) by {
        reveal(Seq::filter);
    }
    for i in 0..n
        invariant
            n == rules@.len(),
            r@ == tcp_ports(rules@.take(i as int)),
    {
        proof {
            reveal(Seq::filter);
            let longer = rules@.take(i + 1);
            assert(longer.drop_last() =~= rules@.take(i as int));
            assert(longer.last() == rules@[i as int]);
            if is_tcp()(rules@[i as int]) {
                assert(tcp_ports(longer) =~= tcp_ports(rules@.take(i as int)).push(
                    rules@[i as int].port,
                ));
            }
        }
        if same_text(rules[i].protocol.as_str(), "tcp") {
            r.push(rules[i].port);
        }
    }
    assert(rules@.take(n as int) =~= rules@);
    r
}

/// How the scan for listening services ended.
#[derive(Debug)]
pub enum ScanOutcome {
    Found(Vec<Service>),
    Failed(String),
    Panicked,
}

/// How reading the helper ended.
#[derive(Debug)]
pub enum HelperAnswer {
    Answered(HelperSnapshot),
    /// No call could even be made.
    NotAsked(HelperFailure),
    TimedOut,
}

/// One thing a click can activate.
#[derive(Clone, Copy, Debug, PartialEq, Eq, Structural)]
pub enum Actionable {
    OpenPort,
    MainMenu,
    Close(usize),
    Open(usize),
    Forward(usize),
}

/// The window.
#[derive(Debug)]
pub struct PortholeWindow {
    pub open_now: OpenNowSection,
    pub listening: ListeningSection,
    pub status_bar: StatusBar,
    pub devices: DeviceSnapshot,
    pub docker: Option<Vec<Published>>,
    pub refresh_pending: bool,
    pub stopped: bool,
    pub watches_expiry: bool,
    pub busy: BusyIndicator,
    pub open_sensitive: bool,
    pub listening_sensitive: bool,
}

#[verifier::ext_equal]
pub struct WindowView {
    pub open_now: OpenNowView,
    pub listening: ListeningView,
    pub status: StatusView,
    /// The saved devices, for the next dialog that is opened.
    pub devices: Result<Seq<DeviceView>, Seq<char>>,
    /// The ports Docker publishes, for the next dialog that is opened; `None`
    /// when there is no checked list.
    pub docker: Option<Seq<Published>>,
    /// Whether a refresh is already asked for.
    pub refresh_pending: bool,
    /// Whether the window has stopped talking to the helper.
    pub stopped: bool,
    /// Whether an unconfirmed expiry asks for a refresh.
    pub watches_expiry: bool,
    pub busy: BusyView,
    pub open_sensitive: bool,
    pub listening_sensitive: bool,
}

impl View for PortholeWindow {
    type V = WindowView;

    open spec fn view(&self) -> WindowView {
        WindowView {
            open_now: self.open_now@,
            listening: self.listening@,
            status: self.status_bar@,
            devices: snapshot_view(self.devices),
            docker: match self.docker {
                Some(list) => Some(list@),
                None => None,
            },
            refresh_pending: self.refresh_pending,
            stopped: self.stopped,
            watches_expiry: self.watches_expiry,
            busy: self.busy@,
            open_sensitive: self.open_sensitive,
            listening_sensitive: self.listening_sensitive,
        }
    }
}

/// A failure as the "Open now" section shows it.
pub open spec fn failed_open_now(v: OpenNowView, failure: FailureView) -> OpenNowView {
    match failure {
        FailureView::Unreachable(message) => v.failed(UNREACHABLE_TITLE@, message),
        FailureView::Errored(message) => v.failed(ERRORED_TITLE@, message),
        FailureView::Undecodable(message) => v.failed(UNDECODABLE_TITLE@, message),
    }
}

/// A failure as the status line shows it.
pub open spec fn failed_status(failure: FailureView) -> StatusView {
    match failure {
        FailureView::Unreachable(message) => StatusView::bannered(unreachable_banner(message)),
        FailureView::Errored(message) => StatusView::bannered(errored_banner(message)),
        FailureView::Undecodable(message) => StatusView::explained(
            undecodable_banner(None),
            message,
        ),
    }
}

/// The failure a wait that ran out amounts to.
pub const TIMED_OUT: &'static str = "could not reach the porthole helper: timed out";

impl WindowView {
    pub open spec fn fresh() -> Self {
        WindowView {
            open_now: OpenNowView::fresh(),
            listening: ListeningView::fresh(),
            status: StatusView::fresh(),
            devices: Err(DEVICES_NOT_READ_YET@),
            docker: None,
            refresh_pending: false,
            stopped: false,
            watches_expiry: false,
            busy: BusyView::idle(),
            open_sensitive: true,
            listening_sensitive: true,
        }
    }

    /// Stopped for good: the sections say why, nothing that reaches the
    /// helper can be pressed, and what was known of Docker stays. A window
    /// already stopped stays as it is.
    pub open spec fn after_stop(self, message: Seq<char>, alignment: Option<Alignment>) -> Self {
        if self.stopped {
            self
        } else {
            WindowView {
                open_now: self.open_now.failed(UNDECODABLE_TITLE@, message),
                listening: self.listening.with_open_ports(Set::empty()),
                status: StatusView::explained(undecodable_banner(alignment), message),
                stopped: true,
                open_sensitive: false,
                listening_sensitive: false,
                ..self
            }
        }
    }

    /// What came of asking about Docker, in both places that need it.
    pub open spec fn with_docker(self, published: Option<Seq<Published>>) -> Self {
        WindowView {
            listening: self.listening.with_docker(
                match published {
                    Some(list) => DockerView::Known(list),
                    None => DockerView::Unavailable,
                },
            ),
            docker: published,
            ..self
        }
    }

    /// A failure that left no call answered, everywhere it shows.
    pub open spec fn with_failure(self, failure: FailureView) -> Self {
        WindowView {
            open_now: failed_open_now(self.open_now, failure),
            status: failed_status(failure),
            listening: self.listening.with_open_ports(Set::empty()),
            ..self
        }.with_docker(None)
    }

    pub open spec fn with_rules(
        self,
        rules: Result<Vec<WireRule>, HelperFailure>,
        now: u64,
    ) -> Self {
        match rules {
            Ok(list) => WindowView {
                open_now: self.open_now.applied(list@, now, now),
                listening: self.listening.with_open_ports(tcp_ports(list@).to_set()),
                ..self
            },
            Err(failure) => WindowView {
                open_now: failed_open_now(self.open_now, failure@),
                listening: self.listening.with_open_ports(Set::empty()),
                ..self
            },
        }
    }

    pub open spec fn with_status(
        self,
        status: Result<WireStatus, HelperFailure>,
        no_firewall_message: Seq<char>,
    ) -> Self {
        WindowView {
            status: match status {
                Ok(status) => self.status.with_status(status, no_firewall_message),
                Err(failure) => failed_status(failure@),
            },
            ..self
        }
    }

    /// Three answers, each rendered as itself; one that cannot be read
    /// settles the whole window instead.
    pub open spec fn with_snapshot(
        self,
        snapshot: HelperSnapshot,
        now: u64,
        no_firewall_message: Seq<char>,
    ) -> Self {
        match snapshot.unreadable() {
            Some(message) => self.after_stop(message, snapshot.alignment),
            None => self.with_rules(snapshot.rules, now).with_status(
                snapshot.status,
                no_firewall_message,
            ).with_docker(
                match snapshot.docker {
                    Ok(list) => Some(list@),
                    Err(_) => None,
                },
            ),
        }
    }

    /// Whatever came of reading the helper, rendered, without the wait for it
    /// being over. Reads overlap, and one that began before the window
    /// stopped can end after it: a stopped window renders nothing of it.
    pub open spec fn with_answer(
        self,
        answer: HelperAnswer,
        now: u64,
        no_firewall_message: Seq<char>,
    ) -> Self {
        if self.stopped {
            self
        } else {
            match answer {
                HelperAnswer::Answered(snapshot) => self.with_snapshot(
                    snapshot,
                    now,
                    no_firewall_message,
                ),
                HelperAnswer::NotAsked(failure) => match failure {
                    HelperFailure::Undecodable(message) => self.after_stop(message@, None),
                    _ => self.with_failure(failure@),
                },
                HelperAnswer::TimedOut => self.with_failure(FailureView::Unreachable(TIMED_OUT@)),
            }
        }
    }

    pub open spec fn wait_over(self) -> Self {
        WindowView { busy: self.busy.ended(), ..self }
    }

    pub open spec fn with_scan(self, outcome: ScanOutcome) -> Self {
        WindowView {
            listening: match outcome {
                ScanOutcome::Found(services) => self.listening.with_services(services@),
                ScanOutcome::Failed(message) => self.listening.scan_failed(
                    "could not check what is listening: "@ + message@,
                ),
                ScanOutcome::Panicked => self.listening.scan_failed(
                    "the listening scan panicked"@,
                ),
            },
            ..self
        }
    }

    /// Whether both sections go by one rule list.
    pub open spec fn sections_agree(self) -> bool {
        self.listening.open_ports == tcp_ports(self.open_now.rules).to_set()
    }

    /// The sections are well formed, and a stopped window offers nothing that
    /// reaches the helper: its two switches are off, and it lists no rule to
    /// close.
    pub open spec fn well_formed(self) -> bool {
        &&& self.open_now.well_formed()
        &&& self.listening.well_formed()
        &&& self.busy.well_formed()
        &&& self.stopped ==> !self.open_sensitive && !self.listening_sensitive
            && self.open_now.rules.len() == 0
    }
}

/// The order the listening rows' buttons come in: each row's Open, then its
/// Forward.
pub open spec fn listening_actions(v: ListeningView, rows: nat) -> Seq<Actionable>
    decreases rows,
{
    if rows == 0 {
        Seq::empty()
    } else {
        let i = (rows - 1) as nat;
        let before = listening_actions(v, i);
        let opened = if v.rows[i as int].open {
            before.push(Actionable::Open(i as usize))
        } else {
            before
        };
        if v.rows[i as int].forward is Some {
            opened.push(Actionable::Forward(i as usize))
        } else {
            opened
        }
    }
}

/// Everything a click can activate: the header's two buttons, each rule's
/// close, and each service's Open and Forward.
pub open spec fn actions(v: WindowView) -> Seq<Actionable> {
    seq![Actionable::OpenPort, Actionable::MainMenu] + Seq::new(
        v.open_now.rows.len(),
        |i: int| Actionable::Close(i as usize),
    ) + listening_actions(v.listening, v.listening.rows.len())
}

/// Puts the saved devices, or the reason there are none, into a dialog.
pub open spec fn offered(v: DialogView, devices: Result<Seq<DeviceView>, Seq<char>>) -> DialogView {
    match devices {
        Ok(entries) => v.with_devices(entries),
        Err(reason) => v.with_devices_unreadable(reason),
    }
}

pub fn offer_devices(snapshot: &DeviceSnapshot, dialog: &mut OpenDialog)
    requires
        old(dialog)@.well_formed(),
    ensures
        final(dialog)@ == offered(old(dialog)@, snapshot_view(*snapshot)),
        final(dialog)@.well_formed(),
{
    match snapshot {
        Ok(entries) => dialog.set_devices(entries.as_slice()),
        Err(reason) => dialog.set_devices_unreadable(reason.as_str()),
    }
}

fn apply_failure_to_open_now(open_now: &mut OpenNowSection, failure: &HelperFailure)
    ensures
        final(open_now)@ == failed_open_now(old(open_now)@, failure@),
        final(open_now)@.well_formed(),
{
    match failure {
        HelperFailure::Unreachable(message) => open_now.set_unreachable(message.as_str()),
        HelperFailure::Errored(message) => open_now.set_errored(message.as_str()),
        HelperFailure::Undecodable(message) => open_now.set_undecodable(message.as_str()),
    }
}

fn apply_failure_to_status_bar(status_bar: &mut StatusBar, failure: &HelperFailure)
    ensures
        final(status_bar)@ == failed_status(failure@),
{
    match failure {
        HelperFailure::Unreachable(message) => status_bar.set_unreachable(message.as_str()),
        HelperFailure::Errored(message) => status_bar.set_errored(message.as_str()),
        HelperFailure::Undecodable(message) => status_bar.set_undecodable(message.as_str(), None),
    }
}

impl PortholeWindow {
    /// A window nothing has been read for yet, and that nothing will be read
    /// for until it is asked to.
    pub fn new_without_initial_load() -> (r: Self)
        ensures
            r@ == WindowView::fresh(),
            r@.well_formed(),
            r@.sections_agree(),
    {
        let r = PortholeWindow {
            open_now: OpenNowSection::new(),
            listening: ListeningSection::new(),
            status_bar: StatusBar::new(),
            devices: Err(DEVICES_NOT_READ_YET.to_owned()),
            docker: None,
            refresh_pending: false,
            stopped: false,
            watches_expiry: false,
            busy: BusyIndicator::new(),
            open_sensitive: true,
            listening_sensitive: true,
        };
        proof {
            no_rules_open_no_ports();
        }
        assert(r@ =~= WindowView::fresh());
        r
    }

    /// The window as the application opens it, watching for expiries and
    /// ready for its first refresh.
    pub fn new() -> (r: Self)
        ensures
            r@ == (WindowView { watches_expiry: true, ..WindowView::fresh() }),
            r@.well_formed(),
            r@.sections_agree(),
    {
        let mut r: PortholeWindow = Self::new_without_initial_load();
        r.watches_expiry = true;
        assert(r@ =~= (WindowView { watches_expiry: true, ..WindowView::fresh() }));
        r
    }

    /// The window is closing: an expiry no longer asks for anything.
    pub fn close_requested(&mut self)
        requires
            old(self)@.well_formed(),
        ensures
            final(self)@ == (WindowView { watches_expiry: false, ..old(self)@ }),
            final(self)@.well_formed(),
    {
        self.watches_expiry = false;
        assert(self@ =~= (WindowView { watches_expiry: false, ..old(self)@ }));
    }

    /// Asks for a refresh shortly, unless one is asked for already or the
    /// window has stopped. `true` when the gathering of a burst begins.
    pub fn schedule_refresh(&mut self) -> (r: bool)
        requires
            old(self)@.well_formed(),
        ensures
            r == (!old(self)@.stopped && !old(self)@.refresh_pending),
            final(self)@ == (WindowView {
                refresh_pending: old(self)@.refresh_pending || !old(self)@.stopped,
                ..old(self)@
            }),
            final(self)@.well_formed(),
    {
        if self.stopped {
            assert(self@ =~= (WindowView {
                refresh_pending: old(self)@.refresh_pending || !old(self)@.stopped,
                ..old(self)@
            }));
            return false;
        }
        if self.refresh_pending {
            return false;
        }
        self.refresh_pending = true;
        assert(self@ =~= (WindowView { refresh_pending: true, ..old(self)@ }));
        true
    }

    /// The burst is gathered: the next announcement starts another. `true`
    /// when the refresh it asked for is to be made.
    pub fn burst_gathered(&mut self) -> (r: bool)
        requires
            old(self)@.well_formed(),
        ensures
            r == !old(self)@.stopped,
            final(self)@ == (WindowView { refresh_pending: false, ..old(self)@ }),
            final(self)@.well_formed(),
    {
        self.refresh_pending = false;
        assert(self@ =~= (WindowView { refresh_pending: false, ..old(self)@ }));
        self.refresh()
    }

    /// Whether a refresh reads anything: not once the window has stopped.
    pub fn refresh(&self) -> (r: bool)
        ensures
            r == !self@.stopped,
    {
        !self.stopped
    }

    /// The helper is being read. `true` when the delay has to be set running.
    pub fn helper_read_began(&mut self) -> (r: bool)
        requires
            old(self)@.well_formed(),
            old(self)@.busy.outstanding < usize::MAX,
        ensures
            r == !old(self)@.busy.is_busy(),
            final(self)@ == (WindowView { busy: old(self)@.busy.begun(), ..old(self)@ }),
            final(self)@.well_formed(),
    {
        let r: bool = self.busy.begin();
        assert(self@ =~= (WindowView { busy: old(self)@.busy.begun(), ..old(self)@ }));
        r
    }

    /// The scan for listening services has ended.
    pub fn scan_finished(&mut self, outcome: ScanOutcome)
        requires
            old(self)@.well_formed(),
        ensures
            final(self)@ == old(self)@.with_scan(outcome),
            final(self)@.well_formed(),
            old(self)@.sections_agree() ==> final(self)@.sections_agree(),
    {
        match &outcome {
            ScanOutcome::Found(services) => self.listening.set_services(services.as_slice()),
            ScanOutcome::Failed(message) => {
                let text: String = text2("could not check what is listening: ", message.as_str());
                self.listening.set_scan_failed(text.as_str());
            },
            ScanOutcome::Panicked => self.listening.set_scan_failed("the listening scan panicked"),
        }
        assert(self@ =~= old(self)@.with_scan(outcome));
    }

    /// The address book has been read, or the reading never finished.
    pub fn devices_read(&mut self, outcome: Option<DeviceSnapshot>)
        requires
            old(self)@.well_formed(),
        ensures
            final(self)@ == (WindowView {
                devices: match outcome {
                    Some(snapshot) => snapshot_view(snapshot),
                    None => Err("reading the saved devices panicked"@),
                },
                ..old(self)@
            }),
            final(self)@.well_formed(),
    {
        self.devices = match outcome {
            Some(snapshot) => snapshot,
            None => Err("reading the saved devices panicked".to_owned()),
        };
        assert(self@ =~= (WindowView {
            devices: match outcome {
                Some(snapshot) => snapshot_view(snapshot),
                None => Err("reading the saved devices panicked"@),
            },
            ..old(self)@
        }));
    }

    /// Hands a dialog what the last refresh learned, before it is shown.
    pub fn prepare_dialog(&self, dialog: &mut OpenDialog)
        requires
            old(dialog)@.well_formed(),
        ensures
            final(dialog)@ == (DialogView {
                docker: self@.docker,
                ..offered(old(dialog)@, self@.devices)
            }),
            final(dialog)@.well_formed(),
    {
        offer_devices(&self.devices, dialog);
        match &self.docker {
            Some(published) => dialog.set_docker_ports(published.as_slice()),
            None => dialog.set_docker_unknown(),
        }
    }

    /// Says that the two programs are built from different sources, and stops
    /// everything that would reach the helper again.
    pub fn stop_talking_to_the_helper(&mut self, message: &str, alignment: Option<Alignment>)
        requires
            old(self)@.well_formed(),
        ensures
            final(self)@ == old(self)@.after_stop(message@, alignment),
            final(self)@.well_formed(),
            final(self)@.stopped,
            old(self)@.sections_agree() ==> final(self)@.sections_agree(),
    {
        if self.stopped {
            return;
        }
        self.stopped = true;
        self.open_now.set_undecodable(message);
        self.status_bar.set_undecodable(message, alignment);
        self.listening.set_open_ports_unknown();
        self.listening_sensitive = false;
        self.open_sensitive = false;
        proof {
            no_rules_open_no_ports();
        }
        assert(self@ =~= old(self)@.after_stop(message@, alignment));
    }

    /// Hands what came of asking about Docker to both places that need it.
    pub fn apply_docker(&mut self, published: Option<Vec<Published>>)
        requires
            old(self)@.well_formed(),
        ensures
            final(self)@ == old(self)@.with_docker(
                match published {
                    Some(list) => Some(list@),
                    None => None,
                },
            ),
            final(self)@.well_formed(),
            old(self)@.sections_agree() ==> final(self)@.sections_agree(),
    {
        match published {
            Some(list) => {
                self.listening.set_docker_ports(list.as_slice());
                self.docker = Some(list);
                assert(self@ =~= old(self)@.with_docker(Some(list@)));
            },
            None => {
                self.listening.set_docker_unavailable();
                self.docker = None;
                assert(self@ =~= old(self)@.with_docker(None));
            },
        }
    }

    fn apply_failure(&mut self, failure: &HelperFailure)
        requires
            old(self)@.well_formed(),
        ensures
            final(self)@ == old(self)@.with_failure(failure@),
            final(self)@.well_formed(),
            final(self)@.sections_agree(),
    {
        apply_failure_to_open_now(&mut self.open_now, failure);
        apply_failure_to_status_bar(&mut self.status_bar, failure);
        self.listening.set_open_ports_unknown();
        proof {
            no_rules_open_no_ports();
        }
        self.apply_docker(None);
        assert(self@ =~= old(self)@.with_failure(failure@));
    }

    fn apply_rules(&mut self, rules: Result<Vec<WireRule>, HelperFailure>, now: u64)
        requires
            old(self)@.well_formed(),
            !old(self)@.stopped,
        ensures
            final(self)@ == old(self)@.with_rules(rules, now),
            final(self)@.well_formed(),
            final(self)@.sections_agree(),
    {
        match &rules {
            Ok(list) => {
                let open_ports: Vec<u16> = open_tcp_ports(list.as_slice());
                self.open_now.set_rules(list.as_slice(), now);
                self.listening.set_open_ports(open_ports.as_slice());
            },
            Err(failure) => {
                apply_failure_to_open_now(&mut self.open_now, failure);
                self.listening.set_open_ports_unknown();
                proof {
                    no_rules_open_no_ports();
                }
            },
        }
        assert(self@ =~= old(self)@.with_rules(rules, now));
    }

    fn apply_snapshot(&mut self, snapshot: HelperSnapshot, now: u64, no_firewall_message: &str)
        requires
            old(self)@.well_formed(),
            !old(self)@.stopped,
        ensures
            final(self)@ == old(self)@.with_snapshot(snapshot, now, no_firewall_message@),
            final(self)@.well_formed(),
            old(self)@.sections_agree() ==> final(self)@.sections_agree(),
    {
        if let Some(message) = first_undecodable(&snapshot) {
            self.stop_talking_to_the_helper(message.as_str(), snapshot.alignment);
            return;
        }
        self.apply_rules(snapshot.rules, now);
        match &snapshot.status {
            Ok(status) => self.status_bar.set_status(status, no_firewall_message),
            Err(failure) => apply_failure_to_status_bar(&mut self.status_bar, failure),
        }
        assert(self@ =~= old(self)@.with_rules(snapshot.rules, now).with_status(
            snapshot.status,
            no_firewall_message@,
        ));
        let published: Option<Vec<Published>> = match snapshot.docker {
            Ok(list) => Some(list),
            Err(_) => None,
        };
        self.apply_docker(published);
    }

    fn apply_answer(&mut self, answer: HelperAnswer, now: u64, no_firewall_message: &str)
        requires
            old(self)@.well_formed(),
        ensures
            final(self)@ == old(self)@.with_answer(answer, now, no_firewall_message@),
            final(self)@.well_formed(),
            old(self)@.sections_agree() ==> final(self)@.sections_agree(),
    {
        if self.stopped {
            return;
        }
        match answer {
            HelperAnswer::Answered(snapshot) => self.apply_snapshot(
                snapshot,
                now,
                no_firewall_message,
            ),
            HelperAnswer::NotAsked(failure) => match failure {
                HelperFailure::Undecodable(message) => self.stop_talking_to_the_helper(
                    message.as_str(),
                    None,
                ),
                _ => self.apply_failure(&failure),
            },
            HelperAnswer::TimedOut => self.apply_failure(
                &HelperFailure::Unreachable(TIMED_OUT.to_owned()),
            ),
        }
    }

    /// Reading the helper has ended, one way or another. `no_firewall_message`
    /// is the detail that confirms there is no firewall.
    pub fn helper_answered(&mut self, answer: HelperAnswer, now: u64, no_firewall_message: &str)
        requires
            old(self)@.well_formed(),
        ensures
            final(self)@ == old(self)@.with_answer(
                answer,
                now,
                no_firewall_message@,
            ).wait_over(),
            final(self)@.well_formed(),
            old(self)@.sections_agree() ==> final(self)@.sections_agree(),
    {
        self.apply_answer(answer, now, no_firewall_message);
        let ghost rendered = self@;
        let _called_off: bool = self.busy.end();
        assert(self@ =~= rendered.wait_over());
    }

    /// A second has gone by. `true` when a burst of announcements begins to
    /// gather, because a deadline went by unconfirmed.
    pub fn tick(&mut self, now: u64) -> (r: bool)
        requires
            old(self)@.well_formed(),
        ensures
            r == (old(self)@.open_now.reports(now) && old(self)@.watches_expiry
                && !old(self)@.stopped && !old(self)@.refresh_pending),
            final(self)@ == (WindowView {
                open_now: old(self)@.open_now.ticked(now),
                refresh_pending: old(self)@.refresh_pending || r,
                ..old(self)@
            }),
            final(self)@.well_formed(),
            old(self)@.sections_agree() ==> final(self)@.sections_agree(),
    {
        let unconfirmed: bool = self.open_now.refresh(now);
        assert(self@ =~= (WindowView {
            open_now: old(self)@.open_now.ticked(now),
            ..old(self)@
        }));
        if unconfirmed && self.watches_expiry {
            self.schedule_refresh()
        } else {
            false
        }
    }

    /// A close has been answered. One that worked is told to the other
    /// section as well, from the list it left; the message of one that did
    /// not is handed back to show.
    pub fn close_answered(&mut self, ticket: CloseTicket, outcome: Result<(), String>, now: u64)
        -> (r: Option<String>)
        requires
            old(self)@.well_formed(),
        ensures
            final(self)@.well_formed(),
            outcome matches Err(message) ==> r == Some(message) && final(self)@ == (WindowView {
                open_now: old(self)@.open_now.close_over(ticket.row()),
                ..old(self)@
            }),
            outcome is Ok ==> r is None && final(self)@ == (WindowView {
                open_now: old(self)@.open_now.closed(ticket.id@, now).close_over(ticket.row()),
                listening: if old(self)@.open_now.names(ticket.id@) {
                    old(self)@.listening.with_open_ports(
                        tcp_ports(old(self)@.open_now.without(ticket.id@)).to_set(),
                    )
                } else {
                    old(self)@.listening
                },
                ..old(self)@
            }),
            old(self)@.sections_agree() ==> final(self)@.sections_agree(),
    {
        match self.open_now.close_answered(ticket, outcome, now) {
            CloseOutcome::Closed { remaining } => {
                if let Some(rest) = remaining {
                    let ports: Vec<u16> = open_tcp_ports(rest.as_slice());
                    self.listening.set_open_ports(ports.as_slice());
                }
                assert(self@ =~= (WindowView {
                    open_now: self@.open_now,
                    listening: self@.listening,
                    ..old(self)@
                }));
                None
            },
            CloseOutcome::Failed { toast } => {
                assert(self@ =~= (WindowView { open_now: self@.open_now, ..old(self)@ }));
                Some(toast)
            },
        }
    }

    pub fn open_now(&self) -> (r: &OpenNowSection)
        ensures
            *r == self.open_now,
            r@ == self@.open_now,
    {
        &self.open_now
    }

    pub fn listening(&self) -> (r: &ListeningSection)
        ensures
            *r == self.listening,
            r@ == self@.listening,
    {
        &self.listening
    }

    pub fn status_bar(&self) -> (r: &StatusBar)
        ensures
            *r == self.status_bar,
            r@ == self@.status,
    {
        &self.status_bar
    }

    /// Whether a helper round trip is outstanding, and whether that is on
    /// screen.
    pub fn busy(&self) -> (r: &BusyIndicator)
        ensures
            *r == self.busy,
            r@ == self@.busy,
    {
        &self.busy
    }

    /// Everything a click can activate right now.
    pub fn actionable_widgets(&self) -> (r: Vec<Actionable>)
        ensures
            r@ == actions(self@),
    {
        let mut r: Vec<Actionable> = Vec::new();
        r.push(Actionable::OpenPort);
        r.push(Actionable::MainMenu);
        let closes: usize = self.open_now.rows().len();
        for i in 0..closes
            invariant
                closes == self@.open_now.rows.len(),
                r@ =~= seq![Actionable::OpenPort, Actionable::MainMenu] + Seq::new(
                    i as nat,
                    |j: int| Actionable::Close(j as usize),
                ),
        {
            r.push(Actionable::Close(i));
        }
        let ghost head = r@;
        let rows: usize = self.listening.rows().len();
        assert(r@ =~= head + listening_actions(self@.listening, 0));
        for i in 0..rows
            invariant
                rows == self@.listening.rows.len(),
                r@ =~= head + listening_actions(self@.listening, i as nat),
        {
            if self.listening.open_button_for(i) {
                r.push(Actionable::Open(i));
            }
            if self.listening.forward_button_for(i).is_some() {
                r.push(Actionable::Forward(i));
            }
        }
        r
    }
}

/// No rules, no open ports.
proof fn no_rules_open_no_ports()
    ensures
        tcp_ports(Seq::empty()).to_set() == Set::<u16>::empty(),
{
    reveal(Seq::filter);
    assert(tcp_ports(Seq::empty()) =~= Seq::empty());
    assert(tcp_ports(Seq::empty()).to_set() =~= Set::<u16>::empty());
}

/// Stopping is for good and happens once: nothing the window hears later
/// starts it again or takes off what it says, and nothing that reaches the
/// helper can be pressed. The one thing an answer still does is to end the
/// wait for it.
pub proof fn stopping_is_for_good(
    v: WindowView,
    message: Seq<char>,
    alignment: Option<Alignment>,
    answer: HelperAnswer,
    outcome: ScanOutcome,
    now: u64,
    no_firewall_message: Seq<char>,
)
    requires
        v.well_formed(),
    ensures
        v.after_stop(message, alignment).stopped,
        !v.stopped ==> v.after_stop(message, alignment).open_now == v.open_now.failed(
            UNDECODABLE_TITLE@,
            message,
        ),
        v.stopped ==> v.after_stop(message, alignment) == v,
        v.stopped ==> v.with_answer(answer, now, no_firewall_message) == v,
        v.stopped ==> v.with_scan(outcome) == (WindowView {
            listening: v.with_scan(outcome).listening,
            ..v
        }),
        v.stopped ==> !v.open_sensitive && !v.listening_sensitive,
        v.stopped ==> forall|i: usize| !(#[trigger] actions(v).contains(Actionable::Close(i))),
        forall|i: usize|
            !(#[trigger] actions(v.after_stop(message, alignment)).contains(Actionable::Close(i))),
{
    let w = v.after_stop(message, alignment);
    no_rule_listed_is_none_to_close(w);
    if v.stopped {
        no_rule_listed_is_none_to_close(v);
        assert(v.with_scan(outcome) =~= (WindowView {
            listening: v.with_scan(outcome).listening,
            ..v
        }));
    }
}

/// A service's buttons open and forward; none of them closes.
proof fn listening_offers_no_close(v: ListeningView, rows: nat, i: usize)
    ensures
        !listening_actions(v, rows).contains(Actionable::Close(i)),
    decreases rows,
{
    if rows > 0 {
        let last = (rows - 1) as nat;
        listening_offers_no_close(v, last, i);
        let before = listening_actions(v, last);
        let all = listening_actions(v, rows);
        assert forall|k: int| 0 <= k < all.len() implies all[k] != Actionable::Close(i) by {
            if k < before.len() {
                assert(all[k] == before[k]);
                assert(before.contains(before[k]));
            }
        }
    }
}

/// Without a row in "Open now" there is nothing to close.
proof fn no_rule_listed_is_none_to_close(v: WindowView)
    requires
        v.open_now.rows.len() == 0,
    ensures
        forall|i: usize| !(#[trigger] actions(v).contains(Actionable::Close(i))),
{
    assert forall|i: usize| !(#[trigger] actions(v).contains(Actionable::Close(i))) by {
        let tail = listening_actions(v.listening, v.listening.rows.len());
        listening_offers_no_close(v.listening, v.listening.rows.len(), i);
        assert forall|k: int| 0 <= k < actions(v).len() implies actions(v)[k]
            != Actionable::Close(i) by {
            if k >= 2 {
                assert(actions(v)[k] == tail[k - 2]);
                assert(tail.contains(tail[k - 2]));
            }
        }
    }
}

/// One answer the window cannot read settles it, whichever of the three it
/// is and whatever the other two say.
pub proof fn one_unreadable_answer_settles_the_window(
    v: WindowView,
    snapshot: HelperSnapshot,
    now: u64,
    no_firewall_message: Seq<char>,
)
    requires
        unreadable(snapshot.rules) is Some || unreadable(snapshot.status) is Some || unreadable(
            snapshot.docker,
        ) is Some,
    ensures
        v.with_snapshot(snapshot, now, no_firewall_message).stopped,
{
}

/// The three answers stand each for itself: what the list shows does not
/// depend on what came of the status or of Docker.
pub proof fn a_failed_status_does_not_discard_the_list(
    v: WindowView,
    snapshot: HelperSnapshot,
    rules: Vec<WireRule>,
    now: u64,
    no_firewall_message: Seq<char>,
)
    requires
        snapshot.unreadable() is None,
        snapshot.rules == Ok::<Vec<WireRule>, HelperFailure>(rules),
    ensures
        v.with_snapshot(snapshot, now, no_firewall_message).open_now == v.open_now.applied(
            rules@,
            now,
            now,
        ),
        snapshot.status matches Err(failure) ==> v.with_snapshot(
            snapshot,
            now,
            no_firewall_message,
        ).status == failed_status(failure@),
        snapshot.docker is Err ==> v.with_snapshot(snapshot, now, no_firewall_message).docker
            is None,
{
}

/// The section that marks rows and the dialog that explains them go by one
/// list of published ports, and nothing the window hears parts them.
pub proof fn one_docker_list_for_section_and_dialog(
    v: WindowView,
    published: Option<Seq<Published>>,
    answer: HelperAnswer,
    outcome: ScanOutcome,
    now: u64,
    no_firewall_message: Seq<char>,
)
    ensures
        WindowView::fresh().docker == WindowView::fresh().listening.docker.checked(),
        v.with_docker(published).docker == v.with_docker(published).listening.docker.checked(),
        v.docker == v.listening.docker.checked() ==> {
            let w = v.with_answer(answer, now, no_firewall_message).wait_over();
            w.docker == w.listening.docker.checked()
        },
        v.docker == v.listening.docker.checked() ==> v.with_scan(outcome).docker == v.with_scan(
            outcome,
        ).listening.docker.checked(),
{
}

/// In a window that still asks, no answer at all is unreachable, in the list
/// and in the status line alike, and never an empty list.
pub proof fn silence_is_never_an_empty_list(
    v: WindowView,
    now: u64,
    no_firewall_message: Seq<char>,
)
    requires
        !v.stopped,
    ensures
        ({
            let w = v.with_answer(HelperAnswer::TimedOut, now, no_firewall_message);
            &&& w.open_now.error.showing
            &&& w.open_now.error.title == UNREACHABLE_TITLE@
            &&& !w.open_now.empty_shown
            &&& w.status == StatusView::bannered(unreachable_banner(TIMED_OUT@))
            &&& w.listening.open_ports == Set::<u16>::empty()
            &&& w.docker is None
        }),
{
}

/// A port is among the ports told to the "Listening" section exactly when
/// some rule of the list has that port and is for TCP, whatever else the rule
/// says.
pub proof fn a_port_is_open_where_a_tcp_rule_has_it(rules: Seq<WireRule>, port: u16)
    ensures
        tcp_ports(rules).contains(port) <==> exists|i: int|
            0 <= i < rules.len() && (#[trigger] rules[i]).port == port && rules[i].protocol@
                == "tcp"@,
        tcp_ports(rules).to_set().contains(port) <==> exists|i: int|
            0 <= i < rules.len() && (#[trigger] rules[i]).port == port && rules[i].protocol@
                == "tcp"@,
    decreases rules.len(),
{
    reveal(Seq::filter);
    if rules.len() == 0 {
        assert(tcp_ports(rules) =~= Seq::<u16>::empty());
    } else {
        let rest = rules.drop_last();
        let last = rules.last();
        a_port_is_open_where_a_tcp_rule_has_it(rest, port);
        let ports = tcp_ports(rest);
        if last.protocol@ == "tcp"@ {
            assert(tcp_ports(rules) =~= ports.push(last.port));
            assert(ports.push(last.port)[ports.len() as int] == last.port);
            if ports.contains(port) {
                let k = choose|k: int| 0 <= k < ports.len() && ports[k] == port;
                assert(ports.push(last.port)[k] == port);
            }
            if ports.push(last.port).contains(port) && last.port != port {
                let k = choose|k: int|
                    0 <= k < ports.push(last.port).len() && ports.push(last.port)[k] == port;
                assert(ports[k] == port);
            }
        } else {
            assert(tcp_ports(rules) =~= ports);
        }
        if exists|i: int|
            0 <= i < rest.len() && (#[trigger] rest[i]).port == port && rest[i].protocol@
                == "tcp"@ {
            let i = choose|i: int|
                0 <= i < rest.len() && (#[trigger] rest[i]).port == port && rest[i].protocol@
                    == "tcp"@;
            assert(rules[i] == rest[i]);
        }
        if exists|i: int|
            0 <= i < rules.len() && (#[trigger] rules[i]).port == port && rules[i].protocol@
                == "tcp"@ {
            let i = choose|i: int|
                0 <= i < rules.len() && (#[trigger] rules[i]).port == port && rules[i].protocol@
                    == "tcp"@;
            if i < rest.len() {
                assert(rest[i] == rules[i]);
            }
        }
    }
}

/// The ports come in the order of their rules, one for each TCP rule: a list
/// put behind another adds its own ports behind the other's, a TCP rule alone
/// gives its port, and any other rule gives none.
pub proof fn each_tcp_rule_gives_one_port_in_its_place(
    one: Seq<WireRule>,
    other: Seq<WireRule>,
    rule: WireRule,
)
    ensures
        tcp_ports(one + other) == tcp_ports(one) + tcp_ports(other),
        rule.protocol@ == "tcp"@ ==> tcp_ports(seq![rule]) == seq![rule.port],
        rule.protocol@ != "tcp"@ ==> tcp_ports(seq![rule]) == Seq::<u16>::empty(),
{
    reveal(Seq::filter);
    Seq::filter_distributes_over_add(one, other, is_tcp());
    assert(tcp_ports(one + other) =~= tcp_ports(one) + tcp_ports(other));
    assert(seq![rule].drop_last() =~= Seq::<WireRule>::empty());
    assert(seq![rule].last() == rule);
    assert(Seq::<WireRule>::empty().filter(is_tcp()) =~= Seq::<WireRule>::empty());
    if rule.protocol@ == "tcp"@ {
        assert(tcp_ports(seq![rule]) =~= seq![rule.port]);
    } else {
        assert(tcp_ports(seq![rule]) =~= Seq::<u16>::empty());
    }
}

/// In a window whose sections agree, the "Listening" section takes a port for
/// open exactly where "Open now" lists a TCP rule on it.
pub proof fn the_sections_agree_port_by_port(v: WindowView, port: u16)
    requires
        v.sections_agree(),
    ensures
        v.listening.open_ports.contains(port) <==> exists|i: int|
            0 <= i < v.open_now.rules.len() && (#[trigger] v.open_now.rules[i]).port == port
                && v.open_now.rules[i].protocol@ == "tcp"@,
{
    a_port_is_open_where_a_tcp_rule_has_it(v.open_now.rules, port);
}

/// A failure says in the list and in the status line which of the three it
/// is, each in words of its own, with its message word for word.
pub proof fn a_failure_is_named_wherever_it_shows(v: OpenNowView, message: Seq<char>)
    ensures
        failed_open_now(v, FailureView::Unreachable(message)).error == (TroubleView {
            title: "Porthole helper unreachable"@,
            description: message,
            showing: true,
        }),
        failed_open_now(v, FailureView::Errored(message)).error == (TroubleView {
            title: "Porthole helper reported an error"@,
            description: message,
            showing: true,
        }),
        failed_open_now(v, FailureView::Undecodable(message)).error == (TroubleView {
            title: "Porthole could not read the helper's answer"@,
            description: message,
            showing: true,
        }),
        forall|failure: FailureView|
            (#[trigger] failed_open_now(v, failure)).rules.len() == 0 && failed_open_now(
                v,
                failure,
            ).rows.len() == 0 && !failed_open_now(v, failure).empty_shown && !failed_open_now(
                v,
                failure,
            ).group_shown && !failed_open_now(v, failure).loading_shown,
        failed_status(FailureView::Unreachable(message)).text()
            == "Could not reach the porthole helper — "@ + message,
        failed_status(FailureView::Errored(message)).text()
            == "The porthole helper reported an error — "@ + message,
        failed_status(FailureView::Undecodable(message)).line == message,
        "Porthole and the porthole helper are different versions"@.is_prefix_of(
            failed_status(FailureView::Undecodable(message)).text(),
        ),
        forall|failure: FailureView| (#[trigger] failed_status(failure)).banner_revealed,
{
    the_remedy_is_for_the_older_half(None);
}

/// An answer that can be read is rendered call by call. The rule list is what
/// "Open now" lists, as read now, and its TCP ports are what "Listening"
/// takes for open; a list that failed shows its failure and leaves no port
/// open. The status line shows the status or its failure. The published ports
/// go to the section and to the dialogs alike, or neither has any. Nothing
/// else of the window moves.
pub proof fn a_readable_answer_is_rendered_call_by_call(
    v: WindowView,
    snapshot: HelperSnapshot,
    now: u64,
    no_firewall_message: Seq<char>,
    port: u16,
)
    requires
        !v.stopped,
        !(snapshot.rules matches Err(HelperFailure::Undecodable(_))),
        !(snapshot.status matches Err(HelperFailure::Undecodable(_))),
        !(snapshot.docker matches Err(HelperFailure::Undecodable(_))),
    ensures
        ({
            let w = v.with_answer(HelperAnswer::Answered(snapshot), now, no_firewall_message);
            &&& !w.stopped
            &&& w.open_sensitive == v.open_sensitive && w.listening_sensitive
                == v.listening_sensitive
            &&& w.devices == v.devices && w.busy == v.busy && w.refresh_pending
                == v.refresh_pending && w.watches_expiry == v.watches_expiry
            &&& w.listening.services == v.listening.services && w.listening.scanned
                == v.listening.scanned
            &&& w.listening == v.listening.with_open_ports(w.listening.open_ports).with_docker(
                w.listening.docker,
            )
            &&& snapshot.rules matches Ok(list) ==> {
                &&& w.open_now.rules == list@
                &&& w.open_now.listed_at == now
                &&& w.open_now == v.open_now.applied(list@, now, now)
                &&& w.listening.open_ports.contains(port) <==> exists|i: int|
                    0 <= i < list@.len() && (#[trigger] list@[i]).port == port
                        && list@[i].protocol@ == "tcp"@
            }
            &&& snapshot.rules is Err ==> w.listening.open_ports == Set::<u16>::empty()
            &&& snapshot.rules matches Err(HelperFailure::Unreachable(m)) ==> w.open_now
                == v.open_now.failed("Porthole helper unreachable"@, m@)
            &&& snapshot.rules matches Err(HelperFailure::Errored(m)) ==> w.open_now
                == v.open_now.failed("Porthole helper reported an error"@, m@)
            &&& snapshot.status matches Ok(status) ==> w.status == v.status.with_status(
                status,
                no_firewall_message,
            )
            &&& snapshot.status matches Err(HelperFailure::Unreachable(m)) ==> w.status.text()
                == "Could not reach the porthole helper — "@ + m@ && w.status.line.len() == 0
            &&& snapshot.status matches Err(HelperFailure::Errored(m)) ==> w.status.text()
                == "The porthole helper reported an error — "@ + m@ && w.status.line.len() == 0
            &&& snapshot.docker matches Ok(list) ==> w.docker == Some(list@) && w.listening.docker
                == DockerView::Known(list@)
            &&& snapshot.docker is Err ==> w.docker is None && w.listening.docker is Unavailable
        }),
{
    if let Ok(list) = snapshot.rules {
        a_port_is_open_where_a_tcp_rule_has_it(list@, port);
    }
}

/// One answer that cannot be read stops the window, with the message of the
/// first of the three that is: the list says it could not be read, the banner
/// says which half is older, nothing stays open or pressable, and what was
/// known of Docker and of the devices stays.
pub proof fn an_unreadable_answer_stops_the_window(
    v: WindowView,
    snapshot: HelperSnapshot,
    now: u64,
    no_firewall_message: Seq<char>,
    message: Seq<char>,
)
    requires
        !v.stopped,
        ({
            ||| snapshot.rules matches Err(HelperFailure::Undecodable(m)) && m@ == message
            ||| !(snapshot.rules matches Err(HelperFailure::Undecodable(_))) && (
            snapshot.status matches Err(HelperFailure::Undecodable(m)) && m@ == message)
            ||| !(snapshot.rules matches Err(HelperFailure::Undecodable(_))) && !(
            snapshot.status matches Err(HelperFailure::Undecodable(_))) && (
            snapshot.docker matches Err(HelperFailure::Undecodable(m)) && m@ == message)
        }),
    ensures
        ({
            let w = v.with_answer(HelperAnswer::Answered(snapshot), now, no_firewall_message);
            &&& w.stopped && !w.open_sensitive && !w.listening_sensitive
            &&& w.open_now == v.open_now.failed(
                "Porthole could not read the helper's answer"@,
                message,
            )
            &&& w.status.line == message && w.status.banner_revealed
            &&& w.status.banner == undecodable_banner(snapshot.alignment)
            &&& w.listening.open_ports == Set::<u16>::empty()
            &&& w.listening.services == v.listening.services
            &&& w.docker == v.docker && w.listening.docker == v.listening.docker
            &&& w.listening == v.listening.with_open_ports(Set::empty())
            &&& w.devices == v.devices && w.busy == v.busy
            &&& w.refresh_pending == v.refresh_pending && w.watches_expiry == v.watches_expiry
        }),
        snapshot.unreadable() == Some(message),
{
}

/// Where no call could be made, or none was answered in time, every place
/// that shows the helper says so, and no port is taken for open. A call that
/// could not be made because nothing could be read stops the window.
pub proof fn no_answer_is_said_everywhere(
    v: WindowView,
    failure: HelperFailure,
    now: u64,
    no_firewall_message: Seq<char>,
)
    requires
        !v.stopped,
    ensures
        ({
            let w = v.with_answer(HelperAnswer::NotAsked(failure), now, no_firewall_message);
            &&& w.listening.open_ports == Set::<u16>::empty()
            &&& w.devices == v.devices && w.busy == v.busy
            &&& w.refresh_pending == v.refresh_pending && w.watches_expiry == v.watches_expiry
            &&& w.listening.services == v.listening.services
            &&& w.listening == v.listening.with_open_ports(Set::empty()).with_docker(
                w.listening.docker,
            ) || w.listening == v.listening.with_open_ports(Set::empty())
            &&& w.stopped <==> failure is Undecodable
            &&& failure is Undecodable ==> !w.open_sensitive && !w.listening_sensitive
            &&& !(failure is Undecodable) ==> w.open_sensitive == v.open_sensitive
                && w.listening_sensitive == v.listening_sensitive
            &&& failure matches HelperFailure::Unreachable(m) ==> {
                &&& w.open_now == v.open_now.failed("Porthole helper unreachable"@, m@)
                &&& w.status.text() == "Could not reach the porthole helper — "@ + m@
                &&& w.docker is None && w.listening.docker is Unavailable
            }
            &&& failure matches HelperFailure::Errored(m) ==> {
                &&& w.open_now == v.open_now.failed("Porthole helper reported an error"@, m@)
                &&& w.status.text() == "The porthole helper reported an error — "@ + m@
                &&& w.docker is None && w.listening.docker is Unavailable
            }
            &&& failure matches HelperFailure::Undecodable(m) ==> {
                &&& w.open_now == v.open_now.failed(
                    "Porthole could not read the helper's answer"@,
                    m@,
                )
                &&& w.status.line == m@
                &&& w.docker == v.docker && w.listening.docker == v.listening.docker
            }
        }),
        ({
            let w = v.with_answer(HelperAnswer::TimedOut, now, no_firewall_message);
            &&& w.open_now == v.open_now.failed(
                "Porthole helper unreachable"@,
                "could not reach the porthole helper: timed out"@,
            )
            &&& w.status.text() == "Could not reach the porthole helper — "@
                + "could not reach the porthole helper: timed out"@
            &&& w.listening.open_ports == Set::<u16>::empty()
            &&& w.docker is None && w.listening.docker is Unavailable
            &&& !w.stopped && w.open_sensitive == v.open_sensitive && w.listening_sensitive
                == v.listening_sensitive
            &&& w.devices == v.devices && w.busy == v.busy
            &&& w.refresh_pending == v.refresh_pending && w.watches_expiry == v.watches_expiry
            &&& w.listening == v.listening.with_open_ports(Set::empty()).with_docker(
                DockerView::Unavailable,
            )
        }),
{
}

/// A scan reaches the "Listening" section and nothing else: the services it
/// found, or its own failure behind words that say what failed.
pub proof fn a_scan_reaches_its_own_section(v: WindowView, outcome: ScanOutcome)
    ensures
        ({
            let w = v.with_scan(outcome);
            &&& w.open_now == v.open_now && w.status == v.status && w.docker == v.docker
            &&& w.devices == v.devices && w.stopped == v.stopped && w.busy == v.busy
            &&& w.refresh_pending == v.refresh_pending && w.watches_expiry == v.watches_expiry
            &&& w.open_sensitive == v.open_sensitive && w.listening_sensitive
                == v.listening_sensitive
            &&& w.listening.open_ports == v.listening.open_ports
            &&& w.listening.docker == v.listening.docker
            &&& outcome matches ScanOutcome::Found(services) ==> w.listening
                == v.listening.with_services(services@) && w.listening.scanned && w.listening.services == services@ && !w.listening.error_shown
            &&& !(outcome is Found) ==> (w.listening.error_description matches Some(said)
                && w.listening == v.listening.scan_failed(said))
            &&& outcome matches ScanOutcome::Failed(message) ==> !w.listening.scanned
                && w.listening.error_shown && w.listening.error_description == Some(
                "could not check what is listening: "@ + message@,
            )
            &&& outcome is Panicked ==> !w.listening.scanned && w.listening.error_shown
                && w.listening.error_description == Some("the listening scan panicked"@)
        }),
{
}

/// What a click can activate is what is on screen and no more: the header's
/// two buttons, the close of every listed rule, and the Open and the Forward
/// of exactly the services that have one, each once.
pub proof fn everything_on_screen_can_be_activated_once(v: WindowView, i: usize)
    requires
        v.open_now.rows.len() <= usize::MAX,
        v.listening.rows.len() <= usize::MAX,
    ensures
        actions(v).contains(Actionable::OpenPort),
        actions(v).contains(Actionable::MainMenu),
        actions(v).contains(Actionable::Close(i)) <==> i < v.open_now.rows.len(),
        actions(v).contains(Actionable::Open(i)) <==> i < v.listening.rows.len()
            && v.listening.rows[i as int].open,
        actions(v).contains(Actionable::Forward(i)) <==> i < v.listening.rows.len()
            && v.listening.rows[i as int].forward is Some,
        actions(v).no_duplicates(),
{
    let n: nat = v.listening.rows.len();
    let tail = listening_actions(v.listening, n);
    let closes = Seq::new(v.open_now.rows.len(), |j: int| Actionable::Close(j as usize));
    let all = actions(v);
    let start: int = 2 + closes.len() as int;
    each_row_offers_its_own_buttons(v.listening, n, i);
    assert(all[0] == Actionable::OpenPort);
    assert(all[1] == Actionable::MainMenu);
    assert forall|k: int| 2 <= k < start implies #[trigger] all[k] == Actionable::Close(
        (k - 2) as usize,
    ) by {
        assert(all[k] == closes[k - 2]);
    }
    assert forall|k: int| start <= k < all.len() implies #[trigger] all[k] == tail[k - start] by {}
    assert forall|k: int| start <= k < all.len() implies (#[trigger] all[k] is Open || all[k]
        is Forward) by {
        assert(all[k] == tail[k - start]);
    }
    if i < v.open_now.rows.len() {
        assert(all[2 + i as int] == Actionable::Close(i));
    }
    if tail.contains(Actionable::Open(i)) {
        let k = choose|k: int| 0 <= k < tail.len() && tail[k] == Actionable::Open(i);
        assert(all[start + k] == tail[k]);
    }
    if tail.contains(Actionable::Forward(i)) {
        let k = choose|k: int| 0 <= k < tail.len() && tail[k] == Actionable::Forward(i);
        assert(all[start + k] == tail[k]);
    }
    if all.contains(Actionable::Close(i)) {
        let k = choose|k: int| 0 <= k < all.len() && all[k] == Actionable::Close(i);
        assert(2 <= k < start);
    }
    if all.contains(Actionable::Open(i)) {
        let k = choose|k: int| 0 <= k < all.len() && all[k] == Actionable::Open(i);
        assert(k >= start);
        assert(tail[k - start] == Actionable::Open(i));
    }
    if all.contains(Actionable::Forward(i)) {
        let k = choose|k: int| 0 <= k < all.len() && all[k] == Actionable::Forward(i);
        assert(k >= start);
        assert(tail[k - start] == Actionable::Forward(i));
    }
    assert forall|j: int, k: int| 0 <= j < k < all.len() implies all[j] != all[k] by {
        if j >= start {
            assert(tail[j - start] != tail[k - start]);
        }
    }
}

proof fn each_row_offers_its_own_buttons(v: ListeningView, rows: nat, i: usize)
    requires
        rows <= v.rows.len(),
        rows <= usize::MAX,
    ensures
        listening_actions(v, rows).contains(Actionable::Open(i)) <==> i < rows && v.rows[i as int].open,
        listening_actions(v, rows).contains(Actionable::Forward(i)) <==> i < rows
            && v.rows[i as int].forward is Some,
        forall|k: int|
            0 <= k < listening_actions(v, rows).len() ==> match #[trigger] listening_actions(
                v,
                rows,
            )[k] {
                Actionable::Open(j) => j < rows,
                Actionable::Forward(j) => j < rows,
                _ => false,
            },
        listening_actions(v, rows).no_duplicates(),
    decreases rows,
{
    if rows > 0 {
        let last = (rows - 1) as nat;
        each_row_offers_its_own_buttons(v, last, i);
        let before = listening_actions(v, last);
        let all = listening_actions(v, rows);
        assert forall|k: int| 0 <= k < before.len() implies all[k] == #[trigger] before[k] by {}
        if before.contains(Actionable::Open(i)) {
            let k = choose|k: int| 0 <= k < before.len() && before[k] == Actionable::Open(i);
            assert(all[k] == Actionable::Open(i));
        }
        if before.contains(Actionable::Forward(i)) {
            let k = choose|k: int| 0 <= k < before.len() && before[k] == Actionable::Forward(i);
            assert(all[k] == Actionable::Forward(i));
        }
        if v.rows[last as int].open {
            assert(all[before.len() as int] == Actionable::Open(last as usize));
        }
        if v.rows[last as int].forward is Some {
            assert(all[all.len() - 1] == Actionable::Forward(last as usize));
        }
        if all.contains(Actionable::Open(i)) {
            let k = choose|k: int| 0 <= k < all.len() && all[k] == Actionable::Open(i);
            if k < before.len() {
                assert(before[k] == Actionable::Open(i));
            }
        }
        if all.contains(Actionable::Forward(i)) {
            let k = choose|k: int| 0 <= k < all.len() && all[k] == Actionable::Forward(i);
            if k < before.len() {
                assert(before[k] == Actionable::Forward(i));
            }
        }
        assert forall|k: int| 0 <= k < all.len() implies match #[trigger] all[k] {
            Actionable::Open(j) => j < rows,
            Actionable::Forward(j) => j < rows,
            _ => false,
        } by {
            if k < before.len() {
                assert(all[k] == before[k]);
            }
        }
        assert forall|j: int, k: int| 0 <= j < k < all.len() implies all[j] != all[k] by {
            if j < before.len() {
                assert(all[j] == before[j]);
            }
            if k < before.len() {
                assert(all[k] == before[k]);
            }
        }
    }
}

/// An entry off the wire is taken whole or refused whole. It is taken exactly
/// where its protocol was read, its container's address is one, and its host
/// address is one or is empty; then every part of it is the wire's own, an
/// empty host address standing for every interface. It is refused in words
/// that name the part, the host address before the protocol and the protocol
/// before the container's.
pub proof fn an_entry_is_taken_or_refused_whole(
    wire: WireDockerPort,
    protocol: Result<Protocol, String>,
    r: Result<Published, String>,
)
    requires
        wire_published(wire, protocol, r),
    ensures
        ({
            let host_is_good = wire.host_addr@ == Seq::<char>::empty() || exists|a: Ipv4Addr|
                wire.host_addr@ == #[trigger] dotted(a);
            let container_is_good = exists|a: Ipv4Addr| wire.container_addr@ == #[trigger] dotted(a);
            &&& r is Ok <==> host_is_good && protocol is Ok && container_is_good
            &&& r matches Ok(p) ==> {
                &&& p.host_port == wire.host_port
                &&& p.container_port == wire.container_port
                &&& protocol == Ok::<Protocol, String>(p.protocol)
                &&& wire.container_addr@ == dotted(p.container_addr)
                &&& p.host_addr is None <==> wire.host_addr@ == Seq::<char>::empty()
                &&& p.host_addr matches Some(a) ==> wire.host_addr@ == dotted(a)
            }
            &&& !host_is_good ==> (r matches Err(e) && e@ == "the helper sent `"@ + wire.host_addr@
                + "` as a Docker host address"@)
            &&& host_is_good ==> (protocol matches Err(m) ==> (r matches Err(e) && e@ == m@))
            &&& host_is_good && protocol is Ok && !container_is_good ==> (r matches Err(e) && e@
                == "the helper sent `"@ + wire.container_addr@
                + "` as a Docker container address"@)
        }),
{
    if wire.host_addr@.len() == 0 {
        assert(wire.host_addr@ =~= Seq::<char>::empty());
    }
    let host_is_good = wire.host_addr@ == Seq::<char>::empty() || exists|a: Ipv4Addr|
        wire.host_addr@ == #[trigger] dotted(a);
    assert(host_is_good == (wire.host_addr@.len() == 0 || is_address(wire.host_addr@)));
    assert(is_address(wire.container_addr@) == exists|a: Ipv4Addr|
        wire.container_addr@ == #[trigger] dotted(a));
}

/// The first entry with something wrong is the one reported: every entry
/// before it could be taken.
pub proof fn the_first_wrong_entry_is_reported(
    reply: Seq<(WireDockerPort, Result<Protocol, String>)>,
    i: int,
    message: String,
    j: int,
)
    requires
        first_wrong(reply, i, message),
    ensures
        0 <= i < reply.len(),
        wire_published(reply[i].0, reply[i].1, Err(message)),
        0 <= j < i ==> reply[j].1 is Ok && (exists|a: Ipv4Addr|
            reply[j].0.container_addr@ == #[trigger] dotted(a)) && (reply[j].0.host_addr@
            == Seq::<char>::empty() || exists|a: Ipv4Addr|
            reply[j].0.host_addr@ == #[trigger] dotted(a)),
{
    if 0 <= j < i {
        assert(entry_is_sound(reply[j]));
        let p = choose|p: Published| #[trigger] wire_published(reply[j].0, reply[j].1, Ok(p));
        an_entry_is_taken_or_refused_whole(reply[j].0, reply[j].1, Ok(p));
    }
}

/// A dialog is offered the saved devices as they are, or none and the reason
/// there are none.
pub proof fn a_dialog_is_offered_the_saved_devices(
    v: DialogView,
    snapshot: DeviceSnapshot,
)
    ensures
        snapshot matches Ok(entries) ==> offered(v, snapshot_view(snapshot)).devices == views(
            entries@,
        ) && offered(v, snapshot_view(snapshot)).target_description is None,
        snapshot matches Err(reason) ==> offered(v, snapshot_view(snapshot)).devices == Seq::<
            DeviceView,
        >::empty() && offered(v, snapshot_view(snapshot)).target_description == Some(reason@),
        offered(v, snapshot_view(snapshot)).network == v.network,
        offered(v, snapshot_view(snapshot)).port == v.port,
        offered(v, snapshot_view(snapshot)).active_chip == v.active_chip,
{
}

/// A new window has heard of nothing and stopped nothing, and the end of a
/// wait is all that an answer's end changes.
pub proof fn a_new_window_has_heard_nothing(v: WindowView)
    ensures
        ({
            let w = WindowView::fresh();
            &&& w.open_now.loading_shown && w.open_now.rules.len() == 0
            &&& w.listening.loading_shown && !w.listening.scanned
            &&& w.status.line.len() == 0 && w.status.line_is_dim && !w.status.banner_revealed
            &&& w.docker is None && w.devices is Err
            &&& !w.stopped && !w.refresh_pending && !w.watches_expiry
            &&& w.open_sensitive && w.listening_sensitive && w.busy.outstanding == 0
        }),
        v.wait_over().busy == v.busy.ended(),
        v.wait_over() == (WindowView { busy: v.busy.ended(), ..v }),
{
}

/// A burst is gathered for less time than a wait goes unseen, and a wait is
/// seen well before it is given up; the narrow layout has the narrower
/// margin.
pub proof fn the_times_and_widths_are_in_order()
    ensures
        0 < SIGNAL_COALESCE < BUSY_DELAY,
        BUSY_DELAY < HELPER_TIMEOUT * 1000,
        0 < NARROW_MARGIN_PX < MARGIN_PX,
        2 * MARGIN_PX < NARROW_WIDTH_PX,
{
}

} // verus!
