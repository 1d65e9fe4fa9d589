//! The open dialog: where a user chooses what to open, for how long, and
//! towards whom.
//!
//! No fixed duration is longer than [`MAX_DURATION`]. "Anyone" is always the
//! last target and the only marked one, and it is never what the selection
//! falls back to: a choice the list can no longer honour becomes "This
//! network". A saved device that cannot be resolved keeps its row, with the
//! reason in it, and cannot be chosen.
//!
//! What a typed port or duration means is decided elsewhere: the dialog is
//! told the answer along with the text, and shows a refusal word for word.

use crate::alert::{Alert, AlertView, Appearance, Response, ResponseView};
use crate::busy::{BusyIndicator, BusyView};
use crate::model::{
    copy_published, Lifetime, Protocol, Published, ScopeSpec, WireRule, DEFAULT_DURATION,
    MAX_DURATION,
};
use crate::net::{
    a_network_names_its_address_and_its_prefix, dotted, dotted_has_no_slash, dotted_is_injective,
    network_form_is_injective, Ipv4Addr, Ipv4Net,
};
use crate::text::{
    copy_non_empty, decimal, decimal_reads_back, decimal_text, is_digit, is_white_space, non_empty,
    reads_as, same_text, text2, text3, text_of, text_to_read, texts, trimmed, trimming_to_nothing,
    views,
};
use vstd::prelude::*;
use vstd::string::*;

verus! {

/// What pressing Open sends: the same four things a command line would. The
/// helper checks every one of them again.
#[derive(Clone, Copy, Debug, PartialEq, Eq, Structural)]
pub struct Request {
    pub port: u16,
    pub protocol: Protocol,
    pub lifetime: Lifetime,
    pub scope: ScopeSpec,
}

/// The five fixed durations, each with the chip that offers it.
pub open spec fn duration_choices() -> Seq<(Seq<char>, Lifetime)> {
    seq![
        ("15 minutes"@, Lifetime::For(900)),
        ("1 hour"@, Lifetime::For(DEFAULT_DURATION)),
        ("4 hours"@, Lifetime::For(14400)),
        ("8 hours"@, Lifetime::For(MAX_DURATION)),
        ("Until reboot"@, Lifetime::UntilReboot),
    ]
}

pub fn duration_options() -> (r: Vec<(&'static str, Lifetime)>)
    ensures
        r@.len() == duration_choices().len(),
        forall|i: int|
            0 <= i < r@.len() ==> (#[trigger] r@[i]).0@ == duration_choices()[i].0 && r@[i].1
                == duration_choices()[i].1,
{
    let mut r: Vec<(&'static str, Lifetime)> = Vec::new();
    r.push(("15 minutes", Lifetime::For(900)));
    r.push(("1 hour", Lifetime::For(DEFAULT_DURATION)));
    r.push(("4 hours", Lifetime::For(14400)));
    r.push(("8 hours", Lifetime::For(MAX_DURATION)));
    r.push(("Until reboot", Lifetime::UntilReboot));
    r
}

/// No fixed duration is longer than the ceiling.
pub proof fn no_fixed_duration_exceeds_the_ceiling(i: int)
    requires
        0 <= i < duration_choices().len(),
    ensures
        duration_choices()[i].1 matches Lifetime::For(seconds) ==> 0 < seconds <= MAX_DURATION,
{
}

/// What "Anyone" means, in one sentence that names no act: it is shown on an
/// open and on a forward alike.
pub const ANYONE_NOTE: &'static str =
    "Lets in anyone who can reach this machine, not just devices on this network.";

pub fn anyone_note() -> (r: String)
    ensures
        r@ == ANYONE_NOTE@,
{
    ANYONE_NOTE.to_owned()
}

/// One saved device: its name, and either the address it resolves to right
/// now or the reason it does not, word for word.
#[derive(Debug, PartialEq, Eq)]
pub struct DeviceEntry {
    pub name: String,
    pub resolved: Result<Ipv4Addr, String>,
}

#[verifier::ext_equal]
pub struct DeviceView {
    pub name: Seq<char>,
    pub resolved: Result<Ipv4Addr, Seq<char>>,
}

impl View for DeviceEntry {
    type V = DeviceView;

    open spec fn view(&self) -> DeviceView {
        DeviceView {
            name: self.name@,
            resolved: match self.resolved {
                Ok(addr) => Ok(addr),
                Err(reason) => Err(reason@),
            },
        }
    }
}

impl Clone for DeviceEntry {
    fn clone(&self) -> (r: Self)
        ensures
            r == *self,
    {
        DeviceEntry {
            name: self.name.clone(),
            resolved: match &self.resolved {
                Ok(addr) => Ok(*addr),
                Err(reason) => Err(reason.clone()),
            },
        }
    }
}

/// A copy of a device list.
pub fn copy_devices(devices: &[DeviceEntry]) -> (r: Vec<DeviceEntry>)
    ensures
        r@ == devices@,
{
    let mut r: Vec<DeviceEntry> = Vec::new();
    r.extend_from_slice(devices);
    assert(r@ =~= devices@);
    r
}

/// What a target is, independently of where it sits in the list.
#[derive(Debug)]
pub enum TargetKey {
    CurrentSubnet,
    Device(String),
    Anywhere,
}

pub enum Target {
    CurrentSubnet,
    Device(Seq<char>),
    Anywhere,
}

impl View for TargetKey {
    type V = Target;

    open spec fn view(&self) -> Target {
        match self {
            TargetKey::CurrentSubnet => Target::CurrentSubnet,
            TargetKey::Device(name) => Target::Device(name@),
            TargetKey::Anywhere => Target::Anywhere,
        }
    }
}

impl Clone for TargetKey {
    fn clone(&self) -> (r: Self)
        ensures
            r == *self,
    {
        match self {
            TargetKey::CurrentSubnet => TargetKey::CurrentSubnet,
            TargetKey::Device(name) => TargetKey::Device(name.clone()),
            TargetKey::Anywhere => TargetKey::Anywhere,
        }
    }
}

impl TargetKey {
    pub fn is_same(&self, other: &TargetKey) -> (r: bool)
        ensures
            r == (self@ == other@),
    {
        match (self, other) {
            (TargetKey::CurrentSubnet, TargetKey::CurrentSubnet) => true,
            (TargetKey::Anywhere, TargetKey::Anywhere) => true,
            (TargetKey::Device(a), TargetKey::Device(b)) => same_text(a.as_str(), b.as_str()),
            _ => false,
        }
    }
}

/// One entry of the target list.
#[derive(Debug)]
pub struct TargetOption {
    pub key: TargetKey,
    pub label: String,
    pub subtitle: Option<String>,
    /// `None` for a device that does not resolve right now: it can be seen
    /// and not chosen.
    pub scope: Option<ScopeSpec>,
    pub significant: bool,
}

#[verifier::ext_equal]
pub struct TargetView {
    pub key: Target,
    pub label: Seq<char>,
    pub subtitle: Option<Seq<char>>,
    pub scope: Option<ScopeSpec>,
    pub significant: bool,
}

impl View for TargetOption {
    type V = TargetView;

    open spec fn view(&self) -> TargetView {
        TargetView {
            key: self.key@,
            label: self.label@,
            subtitle: text_of(self.subtitle),
            scope: self.scope,
            significant: self.significant,
        }
    }
}

pub open spec fn this_network(network: Option<Ipv4Net>) -> TargetView {
    TargetView {
        key: Target::CurrentSubnet,
        label: match network {
            Some(net) => "This network ("@ + net.form() + ")"@,
            None => "This network"@,
        },
        subtitle: None,
        scope: Some(ScopeSpec::CurrentSubnet),
        significant: false,
    }
}

pub open spec fn device_target(device: DeviceView) -> TargetView {
    TargetView {
        key: Target::Device(device.name),
        label: device.name,
        subtitle: Some(device_line(device)),
        scope: match device.resolved {
            Ok(addr) => Some(ScopeSpec::Host(addr)),
            Err(_) => None,
        },
        significant: false,
    }
}

pub open spec fn device_line(device: DeviceView) -> Seq<char> {
    match device.resolved {
        Ok(addr) => "resolves to "@ + dotted(addr),
        Err(reason) => reason,
    }
}

pub open spec fn anyone() -> TargetView {
    TargetView {
        key: Target::Anywhere,
        label: "Anyone"@,
        subtitle: Some(ANYONE_NOTE@),
        scope: Some(ScopeSpec::Anywhere),
        significant: true,
    }
}

/// The target list: this network, the saved devices in the order given, and
/// anyone.
pub open spec fn targets(network: Option<Ipv4Net>, devices: Seq<DeviceView>) -> Seq<TargetView> {
    seq![this_network(network)] + Seq::new(devices.len(), |i: int| device_target(devices[i]))
        + seq![anyone()]
}

/// What a saved device's row says under its name.
pub fn device_subtitle(entry: &DeviceEntry) -> (r: String)
    ensures
        r@ == device_line(entry@),
{
    match &entry.resolved {
        Ok(addr) => text2("resolves to ", addr.text().as_str()),
        Err(reason) => reason.clone(),
    }
}

pub fn build_targets(current_network: Option<Ipv4Net>, devices: &[DeviceEntry]) -> (r: Vec<
    TargetOption,
>)
    ensures
        views(r@) == targets(current_network, views(devices@)),
{
    let mut options: Vec<TargetOption> = Vec::new();
    options.push(
        TargetOption {
            key: TargetKey::CurrentSubnet,
            label: match current_network {
                Some(net) => text3("This network (", net.text().as_str(), ")"),
                None => "This network".to_owned(),
            },
            subtitle: None,
            scope: Some(ScopeSpec::CurrentSubnet),
            significant: false,
        },
    );
    let n: usize = devices.len();
    for i in 0..n
        invariant
            n == devices@.len(),
            options@.len() == i + 1,
            options@[0]@ == this_network(current_network),
            forall|j: int| 1 <= j < options@.len() ==> (#[trigger] options@[j])@ == device_target(devices@[j - 1]@),
    {
        let entry: &DeviceEntry = &devices[i];
        let option = TargetOption {
            key: TargetKey::Device(entry.name.clone()),
            label: entry.name.clone(),
            subtitle: Some(device_subtitle(entry)),
            scope: match &entry.resolved {
                Ok(addr) => Some(ScopeSpec::Host(*addr)),
                Err(_) => None,
            },
            significant: false,
        };
        assert(option@ =~= device_target(entry@));
        options.push(option);
    }
    let last = TargetOption {
        key: TargetKey::Anywhere,
        label: "Anyone".to_owned(),
        subtitle: Some(anyone_note()),
        scope: Some(ScopeSpec::Anywhere),
        significant: true,
    };
    assert(last@ =~= anyone());
    options.push(last);
    assert(views(options@) =~= targets(current_network, views(devices@)));
    options
}

/// "Anyone" is the last target, and the only one that is marked; "This
/// network" is the first, and can always be chosen.
pub proof fn anyone_is_last_and_the_only_significant_target(
    network: Option<Ipv4Net>,
    devices: Seq<DeviceView>,
    i: int,
)
    requires
        0 <= i < targets(network, devices).len(),
    ensures
        targets(network, devices).len() == devices.len() + 2,
        targets(network, devices).last() == anyone(),
        targets(network, devices)[i].significant <==> i == devices.len() + 1,
        targets(network, devices)[i].scope == Some(ScopeSpec::Anywhere) <==> i == devices.len() + 1,
        targets(network, devices)[0].scope == Some(ScopeSpec::CurrentSubnet),
{
}

/// Every saved device has a row, in the order given. One that does not
/// resolve says why in the resolver's own words, and names no scope.
pub proof fn every_saved_device_has_a_row(
    network: Option<Ipv4Net>,
    devices: Seq<DeviceView>,
    i: int,
)
    requires
        0 <= i < devices.len(),
    ensures
        targets(network, devices)[i + 1].label == devices[i].name,
        devices[i].resolved matches Ok(addr) ==> targets(network, devices)[i + 1].scope == Some(
            ScopeSpec::Host(addr),
        ),
        devices[i].resolved matches Err(reason) ==> targets(network, devices)[i + 1].scope is None
            && targets(network, devices)[i + 1].subtitle == Some(reason),
{
}

/// The scope as the helper reads it.
pub open spec fn scope_form(scope: ScopeSpec) -> Seq<char> {
    match scope {
        ScopeSpec::CurrentSubnet => "subnet"@,
        ScopeSpec::Anywhere => "any"@,
        ScopeSpec::Network(net) => net.form(),
        ScopeSpec::Host(addr) => dotted(addr),
    }
}

/// The scope string sent to the helper: the words a person would have typed.
pub fn scope_wire_string(scope: &ScopeSpec) -> (r: String)
    ensures
        r@ == scope_form(*scope),
{
    match scope {
        ScopeSpec::CurrentSubnet => "subnet".to_owned(),
        ScopeSpec::Anywhere => "any".to_owned(),
        ScopeSpec::Network(net) => net.text(),
        ScopeSpec::Host(addr) => addr.text(),
    }
}

/// No two scopes are sent as the same string, so the string says which one
/// was chosen.
pub proof fn scope_strings_tell_scopes_apart(x: ScopeSpec, y: ScopeSpec)
    requires
        scope_form(x) == scope_form(y),
    ensures
        x == y,
{
    reveal_strlit("subnet");
    reveal_strlit("any");
    reveal_strlit("/");
    assert("subnet"@[0] == 's');
    assert("any"@[0] == 'a');
    let s = scope_form(x);
    if let ScopeSpec::Network(net) = x {
        network_starts_with_a_digit(net);
    }
    if let ScopeSpec::Network(net) = y {
        network_starts_with_a_digit(net);
    }
    if let ScopeSpec::Host(addr) = x {
        dotted_has_no_slash(addr);
        if let ScopeSpec::Host(other) = y {
            dotted_is_injective(addr, other);
        }
        if let ScopeSpec::Network(net) = y {
            assert(s[dotted(net.spec_addr()).len() as int] == '/');
        }
    }
    if let ScopeSpec::Host(addr) = y {
        dotted_has_no_slash(addr);
        if let ScopeSpec::Network(net) = x {
            assert(s[dotted(net.spec_addr()).len() as int] == '/');
        }
    }
    if let (ScopeSpec::Network(a), ScopeSpec::Network(b)) = (x, y) {
        network_form_is_injective(a, b);
    }
}

proof fn network_starts_with_a_digit(net: Ipv4Net)
    ensures
        net.form().len() > dotted(net.spec_addr()).len(),
        net.form()[dotted(net.spec_addr()).len() as int] == '/',
        is_digit(net.form()[0]),
{
    reveal_strlit("/");
    dotted_has_no_slash(net.spec_addr());
    assert(net.form()[0] == dotted(net.spec_addr())[0]);
}

/// The lifetime as the helper reads it: 0 stands for "until reboot".
pub open spec fn lifetime_seconds(lifetime: Lifetime) -> int {
    match lifetime {
        Lifetime::For(seconds) => seconds as int % 0x1_0000_0000,
        Lifetime::UntilReboot => 0,
    }
}

pub fn lifetime_wire_seconds(lifetime: Lifetime) -> (r: u32)
    ensures
        r == lifetime_seconds(lifetime),
{
    match lifetime {
        Lifetime::For(seconds) => (seconds % 0x1_0000_0000) as u32,
        Lifetime::UntilReboot => 0,
    }
}

/// A duration up to the ceiling crosses unchanged, and only "until reboot"
/// crosses as 0.
pub proof fn no_duration_is_sent_as_until_reboot(lifetime: Lifetime)
    requires
        lifetime matches Lifetime::For(seconds) ==> 0 < seconds <= MAX_DURATION,
    ensures
        lifetime_seconds(lifetime) == 0 <==> lifetime is UntilReboot,
        lifetime matches Lifetime::For(seconds) ==> lifetime_seconds(lifetime) == seconds,
{
}

/// What is asked about when the port field holds `text`.
pub fn port_text_to_read(text: &str) -> (r: String)
    ensures
        r@ == trimmed(text@),
{
    text.trim().to_owned()
}

/// The port a field holds, given what the text in it was read as: `None` for
/// anything that is not a real, non-zero port.
pub open spec fn port_read(read: Result<u16, String>) -> Option<u16> {
    match read {
        Ok(port) => if port != 0 {
            Some(port)
        } else {
            None
        },
        Err(_) => None,
    }
}

pub fn parse_port_for_submit(read: &Result<u16, String>) -> (r: Option<u16>)
    ensures
        r == port_read(*read),
{
    match read {
        Ok(port) => if *port != 0 {
            Some(*port)
        } else {
            None
        },
        Err(_) => None,
    }
}

/// The label on the chip that reveals the custom-duration field.
pub const CUSTOM_DURATION_LABEL: &'static str = "Custom";

/// What a duration chip stands for: a fixed lifetime, or whatever the custom
/// field holds.
#[derive(Clone, Copy, Debug, PartialEq, Eq, Structural)]
pub enum DurationChoice {
    Fixed(Lifetime),
    Custom,
}

/// What the custom-duration field holds: nothing yet, a refusal in the words
/// it was refused with, or a duration in seconds.
#[derive(Debug)]
pub enum CustomDuration {
    Empty,
    Invalid(String),
    Valid(u64),
}

pub enum CustomView {
    Empty,
    Invalid(Seq<char>),
    Valid(u64),
}

impl View for CustomDuration {
    type V = CustomView;

    open spec fn view(&self) -> CustomView {
        match self {
            CustomDuration::Empty => CustomView::Empty,
            CustomDuration::Invalid(message) => CustomView::Invalid(message@),
            CustomDuration::Valid(seconds) => CustomView::Valid(*seconds),
        }
    }
}

/// What a field holding `text` amounts to, given what the text, trimmed, was
/// read as. An empty field has not got anything wrong yet, and is not a
/// duration either.
pub open spec fn custom_read(text: Seq<char>, read: Result<u64, String>) -> CustomView {
    if trimmed(text).len() == 0 {
        CustomView::Empty
    } else {
        match read {
            Ok(seconds) => CustomView::Valid(seconds),
            Err(message) => CustomView::Invalid(message@),
        }
    }
}

pub fn parse_custom_duration(text: &str, read: Result<u64, String>) -> (r: CustomDuration)
    ensures
        r@ == custom_read(text@, read),
{
    match text_to_read(text) {
        None => CustomDuration::Empty,
        Some(_) => match read {
            Ok(seconds) => CustomDuration::Valid(seconds),
            Err(message) => CustomDuration::Invalid(message),
        },
    }
}

/// One duration chip.
#[derive(Debug)]
pub struct DurationChip {
    pub label: String,
    pub choice: DurationChoice,
}

#[verifier::ext_equal]
pub struct ChipView {
    pub label: Seq<char>,
    pub choice: DurationChoice,
}

impl View for DurationChip {
    type V = ChipView;

    open spec fn view(&self) -> ChipView {
        ChipView { label: self.label@, choice: self.choice }
    }
}

/// The chips, in order: the five fixed durations, then "Custom".
pub open spec fn all_chips() -> Seq<ChipView> {
    Seq::new(
        duration_choices().len(),
        |i: int|
            ChipView {
                label: duration_choices()[i].0,
                choice: DurationChoice::Fixed(duration_choices()[i].1),
            },
    ).push(ChipView { label: CUSTOM_DURATION_LABEL@, choice: DurationChoice::Custom })
}

fn build_chips() -> (r: Vec<DurationChip>)
    ensures
        views(r@) == all_chips(),
{
    let options: Vec<(&'static str, Lifetime)> = duration_options();
    let mut chips: Vec<DurationChip> = Vec::new();
    let n: usize = options.len();
    for i in 0..n
        invariant
            n == options@.len(),
            n == duration_choices().len(),
            forall|j: int|
                0 <= j < n ==> (#[trigger] options@[j]).0@ == duration_choices()[j].0
                    && options@[j].1 == duration_choices()[j].1,
            chips@.len() == i,
            forall|j: int| 0 <= j < i ==> (#[trigger] chips@[j])@ == all_chips()[j],
    {
        let chip = DurationChip {
            label: options[i].0.to_owned(),
            choice: DurationChoice::Fixed(options[i].1),
        };
        assert(chip@ =~= all_chips()[i as int]);
        chips.push(chip);
    }
    let last = DurationChip {
        label: CUSTOM_DURATION_LABEL.to_owned(),
        choice: DurationChoice::Custom,
    };
    assert(last@ =~= all_chips()[5]);
    chips.push(last);
    assert(views(chips@) =~= all_chips());
    chips
}

/// What pressing the button sends, and to which of the helper's two acts.
#[derive(Debug)]
pub enum HelperCall {
    Open { port: u16, protocol: String, scope: String, seconds: u32 },
    Forward { port: u16, protocol: String, scope: String, seconds: u32, published_port: u16 },
}

pub enum CallView {
    Open { port: u16, protocol: Seq<char>, scope: Seq<char>, seconds: int },
    Forward {
        port: u16,
        protocol: Seq<char>,
        scope: Seq<char>,
        seconds: int,
        published_port: u16,
    },
}

impl View for HelperCall {
    type V = CallView;

    open spec fn view(&self) -> CallView {
        match self {
            HelperCall::Open { port, protocol, scope, seconds } => CallView::Open {
                port: *port,
                protocol: protocol@,
                scope: scope@,
                seconds: *seconds as int,
            },
            HelperCall::Forward { port, protocol, scope, seconds, published_port } =>
            CallView::Forward {
                port: *port,
                protocol: protocol@,
                scope: scope@,
                seconds: *seconds as int,
                published_port: *published_port,
            },
        }
    }
}

/// The call for a request: `forward` for a dialog that forwards, and `open`
/// otherwise.
pub open spec fn call_for(forward: Option<u16>, request: Request) -> CallView {
    match forward {
        Some(published_port) => CallView::Forward {
            port: request.port,
            protocol: request.protocol.form(),
            scope: scope_form(request.scope),
            seconds: lifetime_seconds(request.lifetime),
            published_port,
        },
        None => CallView::Open {
            port: request.port,
            protocol: request.protocol.form(),
            scope: scope_form(request.scope),
            seconds: lifetime_seconds(request.lifetime),
        },
    }
}

/// The response id of the Docker alert's way through.
pub const DOCKER_RESPONSE_OPEN: &'static str = "open-anyway";

/// The response id for backing out, which closing the alert amounts to.
pub const DOCKER_RESPONSE_CANCEL: &'static str = "cancel";

/// The alert that explains a port Docker already publishes.
pub open spec fn docker_explanation(advice: Seq<char>) -> AlertView {
    AlertView {
        heading: "Docker already publishes this port"@,
        body: advice,
        close_response: DOCKER_RESPONSE_CANCEL@,
        default_response: DOCKER_RESPONSE_CANCEL@,
        first: ResponseView {
            id: DOCKER_RESPONSE_CANCEL@,
            label: "Cancel"@,
            appearance: Appearance::Default,
        },
        second: ResponseView {
            id: DOCKER_RESPONSE_OPEN@,
            label: "Open Anyway"@,
            appearance: Appearance::Default,
        },
    }
}

/// Whether an answer to the Docker alert lets the request through.
pub fn docker_answer_allows(response: &str) -> (r: bool)
    ensures
        r == (response@ == DOCKER_RESPONSE_OPEN@),
{
    same_text(response, DOCKER_RESPONSE_OPEN)
}

/// Dismissing the Docker alert, or pressing Enter on it, opens nothing.
pub proof fn only_open_anyway_gets_past_the_docker_alert(advice: Seq<char>)
    ensures
        docker_explanation(advice).close_response != DOCKER_RESPONSE_OPEN@,
        docker_explanation(advice).default_response != DOCKER_RESPONSE_OPEN@,
        docker_explanation(advice).second.id == DOCKER_RESPONSE_OPEN@,
{
    reveal_strlit("open-anyway");
    reveal_strlit("cancel");
    assert(DOCKER_RESPONSE_OPEN@.len() == 11);
    assert(DOCKER_RESPONSE_CANCEL@.len() == 6);
}

/// What the dialog does once the helper has answered.
#[derive(Debug)]
pub enum OpenOutcome {
    /// The rule that now exists. The dialog closes if it is still on screen:
    /// it can have been dismissed while the call was outstanding.
    Opened { rule: WireRule, close: bool },
    /// The message to show, word for word. The dialog stays.
    Failed { toast: String },
}

/// The open dialog.
#[derive(Debug)]
pub struct OpenDialog {
    forward: Option<u16>,
    title: String,
    port_title: String,
    port_text: String,
    port: Option<u16>,
    port_description: Option<String>,
    offers_protocol: bool,
    udp: bool,
    chips: Vec<DurationChip>,
    active_chip: usize,
    custom_revealed: bool,
    custom_text: String,
    custom: CustomDuration,
    custom_error: Option<String>,
    target_title: String,
    target_description: Option<String>,
    rows: Vec<TargetOption>,
    active_target: usize,
    network: Option<Ipv4Net>,
    devices: Vec<DeviceEntry>,
    selected: TargetKey,
    docker: Option<Vec<Published>>,
    open_label: String,
    busy: BusyIndicator,
}

/// What the dialog holds and shows.
#[verifier::ext_equal]
pub struct DialogView {
    /// The port Docker publishes the container on, for a dialog that forwards
    /// rather than opens.
    pub forward: Option<u16>,
    pub title: Seq<char>,
    pub port_title: Seq<char>,
    pub port_text: Seq<char>,
    pub port: Option<u16>,
    pub port_description: Option<Seq<char>>,
    pub offers_protocol: bool,
    pub udp: bool,
    pub chips: Seq<ChipView>,
    pub active_chip: int,
    pub custom_revealed: bool,
    pub custom_text: Seq<char>,
    pub custom: CustomView,
    pub custom_error: Option<Seq<char>>,
    pub target_title: Seq<char>,
    pub target_description: Option<Seq<char>>,
    pub rows: Seq<TargetView>,
    pub active_target: int,
    pub network: Option<Ipv4Net>,
    pub devices: Seq<DeviceView>,
    pub selected: Target,
    /// Every port Docker publishes, or `None` when that could not be checked.
    pub docker: Option<Seq<Published>>,
    pub open_label: Seq<char>,
    /// The wait for the helper; the one control it holds is the Open button.
    pub busy: BusyView,
}

impl View for OpenDialog {
    type V = DialogView;

    closed spec fn view(&self) -> DialogView {
        DialogView {
            forward: self.forward,
            title: self.title@,
            port_title: self.port_title@,
            port_text: self.port_text@,
            port: self.port,
            port_description: text_of(self.port_description),
            offers_protocol: self.offers_protocol,
            udp: self.udp,
            chips: views(self.chips@),
            active_chip: self.active_chip as int,
            custom_revealed: self.custom_revealed,
            custom_text: self.custom_text@,
            custom: self.custom@,
            custom_error: text_of(self.custom_error),
            target_title: self.target_title@,
            target_description: text_of(self.target_description),
            rows: views(self.rows@),
            active_target: self.active_target as int,
            network: self.network,
            devices: views(self.devices@),
            selected: self.selected@,
            docker: match self.docker {
                Some(list) => Some(list@),
                None => None,
            },
            open_label: self.open_label@,
            busy: self.busy@,
        }
    }
}

/// Whether row `i` is `key` and can be chosen.
pub open spec fn is_choosable(rows: Seq<TargetView>, key: Target, i: int) -> bool {
    rows[i].key == key && rows[i].scope is Some
}

/// The first row from `from` on that is `key` and can be chosen, or row 0 if
/// there is none.
pub open spec fn kept_from(rows: Seq<TargetView>, key: Target, from: int) -> int
    decreases rows.len() - from,
{
    if from >= rows.len() {
        0
    } else if is_choosable(rows, key, from) {
        from
    } else {
        kept_from(rows, key, from + 1)
    }
}

impl DialogView {
    /// The protocol the request would name. A forward is TCP, whatever a
    /// hidden toggle holds.
    pub open spec fn protocol(self) -> Protocol {
        if self.forward is Some {
            Protocol::Tcp
        } else if self.udp {
            Protocol::Udp
        } else {
            Protocol::Tcp
        }
    }

    pub open spec fn custom_active(self) -> bool {
        0 <= self.active_chip < self.chips.len() && self.chips[self.active_chip].choice
            == DurationChoice::Custom
    }

    /// The lifetime the request would name. `None`, never a default, for a
    /// custom field that holds none.
    pub open spec fn lifetime(self) -> Option<Lifetime> {
        if 0 <= self.active_chip < self.chips.len() {
            match self.chips[self.active_chip].choice {
                DurationChoice::Fixed(lifetime) => Some(lifetime),
                DurationChoice::Custom => match self.custom {
                    CustomView::Valid(seconds) => Some(Lifetime::For(seconds)),
                    _ => None,
                },
            }
        } else {
            None
        }
    }

    /// The scope the request would name. `None`, never a default, for an
    /// active row that names none.
    pub open spec fn scope(self) -> Option<ScopeSpec> {
        if 0 <= self.active_target < self.rows.len() {
            self.rows[self.active_target].scope
        } else {
            None
        }
    }

    /// What pressing Open would send.
    pub open spec fn request(self) -> Option<Request> {
        match (self.port, self.lifetime(), self.scope()) {
            (Some(port), Some(lifetime), Some(scope)) => Some(
                Request { port, protocol: self.protocol(), lifetime, scope },
            ),
            _ => None,
        }
    }

    pub open spec fn open_sensitive(self) -> bool {
        self.busy.controls[0]
    }

    /// The custom field and the Open button brought in line with everything
    /// else.
    pub open spec fn settled(self) -> Self {
        DialogView {
            custom_revealed: self.custom_active(),
            custom_error: match self.custom {
                CustomView::Invalid(message) => if self.custom_active() {
                    Some(message)
                } else {
                    None
                },
                _ => None,
            },
            busy: self.busy.with_control(0, self.request() is Some),
            ..self
        }
    }

    /// The target list built again, with the choice kept where it can be.
    pub open spec fn rebuilt(self) -> Self {
        let rows = targets(self.network, self.devices);
        let keep = kept_from(rows, self.selected, 0);
        DialogView { rows, active_target: keep, selected: rows[keep].key, ..self }
    }

    pub open spec fn fresh() -> Self {
        DialogView {
            forward: None,
            title: "Open a port"@,
            port_title: "Port"@,
            port_text: Seq::empty(),
            port: None,
            port_description: None,
            offers_protocol: true,
            udp: false,
            chips: all_chips(),
            active_chip: 1,
            custom_revealed: false,
            custom_text: Seq::empty(),
            custom: CustomView::Empty,
            custom_error: None,
            target_title: "Open towards"@,
            target_description: None,
            rows: targets(None, Seq::empty()),
            active_target: 0,
            network: None,
            devices: Seq::empty(),
            selected: Target::CurrentSubnet,
            docker: None,
            open_label: "Open"@,
            busy: BusyView::idle().holding(false),
        }
    }

    pub open spec fn with_port(self, text: Seq<char>, read: Result<u16, String>) -> Self {
        DialogView { port_text: text, port: port_read(read), ..self }.settled()
    }

    pub open spec fn forwarding(self, published_port: u16) -> Self {
        DialogView {
            forward: Some(published_port),
            title: "Forward a port"@,
            port_title: "Port on the network"@,
            port_description: Some(
                "What arrives on this port from the network is redirected to the container that publishes "@
                    + decimal(published_port as nat) + " on this machine. Forwards are TCP."@,
            ),
            offers_protocol: false,
            target_title: "Forward towards"@,
            open_label: "Forward"@,
            ..self
        }
    }

    pub open spec fn with_chip(self, index: int) -> Self {
        if 0 <= index < self.chips.len() {
            DialogView { active_chip: index, ..self }.settled()
        } else {
            self
        }
    }

    pub open spec fn with_custom(self, text: Seq<char>, read: Result<u64, String>) -> Self {
        DialogView { custom_text: text, custom: custom_read(text, read), ..self }.settled()
    }

    pub open spec fn with_network(self, net: Ipv4Net) -> Self {
        DialogView { network: Some(net), ..self }.rebuilt()
    }

    pub open spec fn with_devices(self, devices: Seq<DeviceView>) -> Self {
        DialogView { target_description: None, devices, ..self }.rebuilt()
    }

    pub open spec fn with_devices_unreadable(self, reason: Seq<char>) -> Self {
        DialogView {
            target_description: Some(reason),
            ..DialogView { devices: Seq::empty(), ..self }.rebuilt()
        }
    }

    pub open spec fn choosable(self, index: int) -> bool {
        0 <= index < self.rows.len() && self.rows[index].scope is Some
    }

    pub open spec fn with_target(self, index: int) -> Self {
        if self.choosable(index) {
            DialogView { active_target: index, selected: self.rows[index].key, ..self }
        } else {
            self
        }
    }

    pub open spec fn answered(self, succeeded: bool) -> Self {
        let over = DialogView { busy: self.busy.ended(), ..self };
        if succeeded {
            over
        } else {
            over.settled()
        }
    }

    /// The chips are the six they always are and the rows are the current
    /// target list; the active row can be chosen and is the remembered
    /// choice; the custom field shows what the active chip and its own text
    /// ask for; a forward offers no protocol.
    pub open spec fn well_formed(self) -> bool {
        &&& self.chips == all_chips()
        &&& 0 <= self.active_chip < self.chips.len()
        &&& self.rows == targets(self.network, self.devices)
        &&& self.choosable(self.active_target)
        &&& self.rows[self.active_target].key == self.selected
        &&& self.custom_revealed == self.custom_active()
        &&& self.custom_error == self.settled().custom_error
        &&& self.forward is Some ==> !self.offers_protocol
        &&& self.busy.well_formed()
        &&& self.busy.controls.len() == 1
    }
}

/// What `kept_from` finds: the first row that is `key` and can be chosen, if
/// there is one from `from` on.
proof fn kept_from_is_first(rows: Seq<TargetView>, key: Target, from: int)
    requires
        0 <= from,
        rows.len() > 0,
    ensures
        0 <= kept_from(rows, key, from) < rows.len(),
        (exists|i: int| from <= i < rows.len() && #[trigger] is_choosable(rows, key, i))
            ==> is_choosable(rows, key, kept_from(rows, key, from)) && kept_from(rows, key, from)
            >= from,
        (forall|i: int| from <= i < rows.len() ==> !#[trigger] is_choosable(rows, key, i))
            ==> kept_from(rows, key, from) == 0,
        forall|i: int|
            from <= i < kept_from(rows, key, from) ==> !#[trigger] is_choosable(rows, key, i),
    decreases rows.len() - from,
{
    if from < rows.len() && !is_choosable(rows, key, from) {
        kept_from_is_first(rows, key, from + 1);
    }
}

/// Building the target list again leaves a row chosen that can be chosen: the
/// same target as before if it is still there and still can be, and "This
/// network" otherwise. It never lands on "Anyone" unless "Anyone" was chosen.
pub proof fn a_rebuild_keeps_the_choice_or_narrows_it(v: DialogView)
    ensures
        v.rebuilt().choosable(v.rebuilt().active_target),
        v.rebuilt().rows[v.rebuilt().active_target].key == v.rebuilt().selected,
        (exists|i: int|
            0 <= i < v.rebuilt().rows.len() && #[trigger] is_choosable(
                v.rebuilt().rows,
                v.selected,
                i,
            )) ==> v.rebuilt().selected == v.selected,
        (forall|i: int|
            0 <= i < v.rebuilt().rows.len() ==> !#[trigger] is_choosable(
                v.rebuilt().rows,
                v.selected,
                i,
            )) ==> v.rebuilt().scope() == Some(ScopeSpec::CurrentSubnet),
        v.rebuilt().scope() == Some(ScopeSpec::Anywhere) ==> v.selected is Anywhere,
{
    let rows = targets(v.network, v.devices);
    kept_from_is_first(rows, v.selected, 0);
    assert(rows[0] == this_network(v.network));
}

impl OpenDialog {
    pub fn new() -> (r: Self)
        ensures
            r@ == DialogView::fresh(),
            r@.well_formed(),
    {
        let mut busy: BusyIndicator = BusyIndicator::new();
        let _open_button: usize = busy.disable_while_busy(false);
        let devices: Vec<DeviceEntry> = Vec::new();
        let rows: Vec<TargetOption> = build_targets(None, devices.as_slice());
        let r = OpenDialog {
            forward: None,
            title: "Open a port".to_owned(),
            port_title: "Port".to_owned(),
            port_text: String::new(),
            port: None,
            port_description: None,
            offers_protocol: true,
            udp: false,
            chips: build_chips(),
            active_chip: 1,
            custom_revealed: false,
            custom_text: String::new(),
            custom: CustomDuration::Empty,
            custom_error: None,
            target_title: "Open towards".to_owned(),
            target_description: None,
            rows,
            active_target: 0,
            network: None,
            devices,
            selected: TargetKey::CurrentSubnet,
            docker: None,
            open_label: "Open".to_owned(),
            busy,
        };
        assert(views(devices@) =~= Seq::<DeviceView>::empty());
        assert(r@ =~= DialogView::fresh());
        r
    }

    /// A dialog with `port` already in its field, `read` being what that
    /// text was read as.
    pub fn for_port(port: u16, read: Result<u16, String>) -> (r: Self)
        ensures
            r@ == DialogView::fresh().with_port(decimal(port as nat), read),
            r@.well_formed(),
    {
        let mut dialog: OpenDialog = Self::new();
        let text: String = decimal_text(port as u64);
        dialog.set_port_text(text.as_str(), read);
        dialog
    }

    /// The same dialog for the other act: its button sends the helper's
    /// `forward` for the container that publishes `published_port`. How long
    /// and towards whom are chosen as ever; the protocol is not.
    pub fn for_forward(published_port: u16, read: Result<u16, String>) -> (r: Self)
        ensures
            r@ == DialogView::fresh().forwarding(published_port).with_port(
                decimal(published_port as nat),
                read,
            ),
            r@.well_formed(),
    {
        let mut dialog: OpenDialog = Self::new();
        let text: String = decimal_text(published_port as u64);
        dialog.forward = Some(published_port);
        dialog.title = "Forward a port".to_owned();
        dialog.port_title = "Port on the network".to_owned();
        dialog.port_description = Some(
            text3(
                "What arrives on this port from the network is redirected to the container that publishes ",
                text.as_str(),
                " on this machine. Forwards are TCP.",
            ),
        );
        dialog.offers_protocol = false;
        dialog.target_title = "Forward towards".to_owned();
        dialog.open_label = "Forward".to_owned();
        assert(dialog@ =~= DialogView::fresh().forwarding(published_port));
        dialog.set_port_text(text.as_str(), read);
        dialog
    }

    fn custom_is_active(&self) -> (r: bool)
        ensures
            r == self@.custom_active(),
    {
        self.active_chip < self.chips.len() && match self.chips[self.active_chip].choice {
            DurationChoice::Custom => true,
            DurationChoice::Fixed(_) => false,
        }
    }

    /// Brings the custom field and the Open button in line with everything
    /// else. Every change that can alter what would be sent ends here.
    fn refresh_submit_state(&mut self)
        requires
            old(self)@.busy.controls.len() == 1,
        ensures
            final(self)@ == old(self)@.settled(),
            old(self)@.busy.well_formed() ==> final(self)@.busy.well_formed(),
    {
        let custom_active: bool = self.custom_is_active();
        let sendable: bool = self.request().is_some();
        self.custom_revealed = custom_active;
        self.custom_error = match &self.custom {
            CustomDuration::Invalid(message) => if custom_active {
                Some(message.clone())
            } else {
                None
            },
            _ => None,
        };
        self.busy.set_control(0, sendable);
        assert(self@ =~= old(self)@.settled());
    }

    /// Builds the target list again from the network and the devices, keeping
    /// the chosen target by what it is rather than by where it was.
    fn rebuild_targets(&mut self)
        ensures
            final(self)@ == old(self)@.rebuilt(),
    {
        let rows: Vec<TargetOption> = build_targets(self.network, self.devices.as_slice());
        let ghost options = views(rows@);
        let ghost key = self.selected@;
        let mut keep: usize = 0;
        let mut i: usize = 0;
        let mut found: bool = false;
        while !found && i < rows.len()
            invariant
                options == views(rows@),
                key == self.selected@,
                i <= rows@.len(),
                !found ==> kept_from(options, key, 0) == kept_from(options, key, i as int) && keep
                    == 0,
                found ==> kept_from(options, key, 0) == keep && keep < rows@.len(),
            decreases rows@.len() - i, (if found {
                0int
            } else {
                1int
            }),
        {
            assert(options[i as int] == rows@[i as int]@);
            if rows[i].key.is_same(&self.selected) && rows[i].scope.is_some() {
                keep = i;
                found = true;
            } else {
                i += 1;
            }
        }
        assert(options[keep as int] == rows@[keep as int]@);
        self.selected = rows[keep].key.clone();
        self.rows = rows;
        self.active_target = keep;
        assert(self@ =~= old(self)@.rebuilt());
    }

    /// Puts `text` into the port field, `read` being what
    /// [`port_text_to_read`] of it was read as.
    pub fn set_port_text(&mut self, text: &str, read: Result<u16, String>)
        requires
            old(self)@.well_formed(),
        ensures
            final(self)@ == old(self)@.with_port(text@, read),
            final(self)@.well_formed(),
    {
        self.port_text = text.to_owned();
        self.port = parse_port_for_submit(&read);
        self.refresh_submit_state();
    }

    /// Presses duration chip `index`.
    pub fn press_duration(&mut self, index: usize)
        requires
            old(self)@.well_formed(),
        ensures
            final(self)@ == old(self)@.with_chip(index as int),
            final(self)@.well_formed(),
    {
        if index < self.chips.len() {
            self.active_chip = index;
            self.refresh_submit_state();
        }
    }

    /// Puts `text` into the custom-duration field, `read` being what the
    /// text, trimmed, was read as.
    pub fn set_custom_duration_text(&mut self, text: &str, read: Result<u64, String>)
        requires
            old(self)@.well_formed(),
        ensures
            final(self)@ == old(self)@.with_custom(text@, read),
            final(self)@.well_formed(),
    {
        self.custom = parse_custom_duration(text, read);
        self.custom_text = text.to_owned();
        self.refresh_submit_state();
    }

    /// Presses one half of the protocol pair: UDP, or TCP.
    pub fn press_protocol(&mut self, protocol: Protocol)
        requires
            old(self)@.well_formed(),
        ensures
            final(self)@ == (DialogView { udp: protocol is Udp, ..old(self)@ }),
            final(self)@.well_formed(),
    {
        self.udp = match protocol {
            Protocol::Udp => true,
            Protocol::Tcp => false,
        };
        assert(self@ =~= (DialogView { udp: protocol is Udp, ..old(self)@ }));
    }

    /// Learns the subnet "This network" stands for.
    pub fn set_current_network(&mut self, net: Ipv4Net)
        requires
            old(self)@.well_formed(),
        ensures
            final(self)@ == old(self)@.with_network(net),
            final(self)@.well_formed(),
    {
        self.network = Some(net);
        proof {
            a_rebuild_keeps_the_choice_or_narrows_it(self@);
        }
        self.rebuild_targets();
        assert(self@ =~= old(self)@.with_network(net));
    }

    /// The saved devices to offer, between "This network" and "Anyone".
    pub fn set_devices(&mut self, devices: &[DeviceEntry])
        requires
            old(self)@.well_formed(),
        ensures
            final(self)@ == old(self)@.with_devices(views(devices@)),
            final(self)@.well_formed(),
    {
        self.target_description = None;
        self.devices = copy_devices(devices);
        proof {
            a_rebuild_keeps_the_choice_or_narrows_it(self@);
        }
        self.rebuild_targets();
        assert(self@ =~= old(self)@.with_devices(views(devices@)));
    }

    /// The saved devices could not be read, which is not the same as there
    /// being none: the reason is shown, and no device is offered.
    pub fn set_devices_unreadable(&mut self, reason: &str)
        requires
            old(self)@.well_formed(),
        ensures
            final(self)@ == old(self)@.with_devices_unreadable(reason@),
            final(self)@.well_formed(),
    {
        self.devices = Vec::new();
        assert(views(self.devices@) =~= Seq::<DeviceView>::empty());
        proof {
            a_rebuild_keeps_the_choice_or_narrows_it(self@);
        }
        self.rebuild_targets();
        self.target_description = Some(reason.to_owned());
        assert(self@ =~= old(self)@.with_devices_unreadable(reason@));
    }

    /// Every port Docker publishes.
    pub fn set_docker_ports(&mut self, published: &[Published])
        requires
            old(self)@.well_formed(),
        ensures
            final(self)@ == (DialogView { docker: Some(published@), ..old(self)@ }),
            final(self)@.well_formed(),
    {
        self.docker = Some(copy_published(published));
        assert(self@ =~= (DialogView { docker: Some(published@), ..old(self)@ }));
    }

    /// What Docker publishes could not be checked.
    pub fn set_docker_unknown(&mut self)
        requires
            old(self)@.well_formed(),
        ensures
            final(self)@ == (DialogView { docker: None, ..old(self)@ }),
            final(self)@.well_formed(),
    {
        self.docker = None;
        assert(self@ =~= (DialogView { docker: None, ..old(self)@ }));
    }

    /// The chip that is pressed.
    pub fn active_chip(&self) -> (r: usize)
        ensures
            r == self@.active_chip,
    {
        self.active_chip
    }

    /// The target that is chosen.
    pub fn active_target(&self) -> (r: usize)
        ensures
            r == self@.active_target,
    {
        self.active_target
    }

    pub fn port_text(&self) -> (r: String)
        ensures
            r@ == self@.port_text,
    {
        self.port_text.clone()
    }

    /// Chooses target `index`, as a click on it would. `false`, and nothing
    /// chosen, when there is no such row or it cannot be chosen.
    pub fn select_target(&mut self, index: usize) -> (r: bool)
        requires
            old(self)@.well_formed(),
        ensures
            r == old(self)@.choosable(index as int),
            final(self)@ == old(self)@.with_target(index as int),
            final(self)@.well_formed(),
    {
        if !self.is_target_selectable(index) {
            return false;
        }
        assert(self@.rows[index as int] == self.rows@[index as int]@);
        self.selected = self.rows[index].key.clone();
        self.active_target = index;
        assert(self@ =~= old(self)@.with_target(index as int));
        true
    }

    /// Whether target `index` can be chosen.
    pub fn is_target_selectable(&self, index: usize) -> (r: bool)
        ensures
            r == self@.choosable(index as int),
    {
        if index < self.rows.len() {
            assert(self@.rows[index as int] == self.rows@[index as int]@);
            self.rows[index].scope.is_some()
        } else {
            false
        }
    }

    /// Whether target `index` carries the marking that goes with "Anyone".
    pub fn is_marked_significant(&self, index: usize) -> (r: bool)
        ensures
            r == (index < self@.rows.len() && self@.rows[index as int].significant),
    {
        if index < self.rows.len() {
            assert(self@.rows[index as int] == self.rows@[index as int]@);
            self.rows[index].significant
        } else {
            false
        }
    }

    pub fn protocol(&self) -> (r: Protocol)
        ensures
            r == self@.protocol(),
    {
        if self.forward.is_some() {
            return Protocol::Tcp;
        }
        if self.udp {
            Protocol::Udp
        } else {
            Protocol::Tcp
        }
    }

    pub fn selected_lifetime(&self) -> (r: Option<Lifetime>)
        ensures
            r == self@.lifetime(),
    {
        if self.active_chip < self.chips.len() {
            assert(self@.chips[self.active_chip as int] == self.chips@[self.active_chip as int]@);
            match self.chips[self.active_chip].choice {
                DurationChoice::Fixed(lifetime) => Some(lifetime),
                DurationChoice::Custom => match &self.custom {
                    CustomDuration::Valid(seconds) => Some(Lifetime::For(*seconds)),
                    _ => None,
                },
            }
        } else {
            None
        }
    }

    pub fn selected_scope(&self) -> (r: Option<ScopeSpec>)
        ensures
            r == self@.scope(),
    {
        if self.active_target < self.rows.len() {
            assert(self@.rows[self.active_target as int] == self.rows@[self.active_target as int]@);
            self.rows[self.active_target].scope
        } else {
            None
        }
    }

    /// What pressing Open right now would send.
    pub fn request(&self) -> (r: Option<Request>)
        ensures
            r == self@.request(),
    {
        match (self.port, self.selected_lifetime(), self.selected_scope()) {
            (Some(port), Some(lifetime), Some(scope)) => Some(
                Request { port, protocol: self.protocol(), lifetime, scope },
            ),
            _ => None,
        }
    }

    /// Whether pressing Open right now would send anything at all.
    pub fn can_submit(&self) -> (r: bool)
        ensures
            r == self@.request() is Some,
            self@.well_formed() ==> r == (self@.port is Some && self@.lifetime() is Some),
    {
        self.request().is_some()
    }

    /// The published ports to take advice on before `request` is sent: `None`
    /// on a forward, where that Docker publishes the port is the premise, and
    /// `None` when they could not be checked.
    pub fn docker_to_consult(&self) -> (r: Option<&Vec<Published>>)
        ensures
            self@.forward is Some || self@.docker is None <==> r is None,
            r matches Some(list) ==> self@.docker == Some(list@),
    {
        if self.forward.is_some() {
            return None;
        }
        match &self.docker {
            Some(list) => Some(list),
            None => None,
        }
    }

    /// The alert to be answered before anything is sent, given the advice the
    /// published ports called for: `None` when there is nothing to explain.
    pub fn docker_alert_for(&self, advice: Option<String>) -> (r: Option<Alert>)
        ensures
            r is Some <==> self@.forward is None && self@.docker is Some && advice is Some,
            r matches Some(alert) ==> advice matches Some(text) && alert@ == docker_explanation(
                text@,
            ),
    {
        if self.docker_to_consult().is_none() {
            return None;
        }
        match advice {
            Some(text) => Some(
                Alert {
                    heading: "Docker already publishes this port".to_owned(),
                    body: text,
                    close_response: DOCKER_RESPONSE_CANCEL.to_owned(),
                    default_response: DOCKER_RESPONSE_CANCEL.to_owned(),
                    first: Response::new(DOCKER_RESPONSE_CANCEL, "Cancel", Appearance::Default),
                    second: Response::new(DOCKER_RESPONSE_OPEN, "Open Anyway", Appearance::Default),
                },
            ),
            None => None,
        }
    }

    /// The alert pressing Open right now would put first: none without a
    /// request to send.
    pub fn docker_alert(&self, advice: Option<String>) -> (r: Option<Alert>)
        ensures
            r is Some <==> self@.request() is Some && self@.forward is None && self@.docker is Some
                && advice is Some,
            r matches Some(alert) ==> advice matches Some(text) && alert@ == docker_explanation(
                text@,
            ),
    {
        if self.request().is_none() {
            return None;
        }
        self.docker_alert_for(advice)
    }

    /// What is sent for a request the press captured.
    pub fn call_for(&self, request: &Request) -> (r: HelperCall)
        ensures
            r@ == call_for(self@.forward, *request),
            match r {
                HelperCall::Open { port, seconds, .. } => self@.forward is None && port
                    == request.port && seconds == lifetime_seconds(request.lifetime),
                HelperCall::Forward { port, seconds, published_port, .. } => self@.forward == Some(
                    published_port,
                ) && port == request.port && seconds == lifetime_seconds(request.lifetime),
            },
    {
        let protocol: String = request.protocol.text();
        let scope: String = scope_wire_string(&request.scope);
        let seconds: u32 = lifetime_wire_seconds(request.lifetime);
        match self.forward {
            Some(published_port) => HelperCall::Forward {
                port: request.port,
                protocol,
                scope,
                seconds,
                published_port,
            },
            None => HelperCall::Open { port: request.port, protocol, scope, seconds },
        }
    }

    /// The call has gone out. `true` when the delay has to be set running.
    pub fn begin_call(&mut self) -> (r: bool)
        requires
            old(self)@.well_formed(),
            old(self)@.busy.outstanding < usize::MAX,
        ensures
            r == !old(self)@.busy.is_busy(),
            final(self)@ == (DialogView { busy: old(self)@.busy.begun(), ..old(self)@ }),
            final(self)@.well_formed(),
            !final(self)@.open_sensitive(),
    {
        let r: bool = self.busy.begin();
        assert(self@ =~= (DialogView { busy: old(self)@.busy.begun(), ..old(self)@ }));
        r
    }

    /// The call has gone unanswered long enough to say so.
    pub fn call_delayed(&mut self)
        requires
            old(self)@.well_formed(),
        ensures
            final(self)@ == (DialogView { busy: old(self)@.busy.delayed(), ..old(self)@ }),
            final(self)@.well_formed(),
    {
        self.busy.delay_elapsed();
        assert(self@ =~= (DialogView { busy: old(self)@.busy.delayed(), ..old(self)@ }));
    }

    /// The helper has answered, or could not be asked. A failure leaves the
    /// dialog up, with the button back to what the form justifies.
    pub fn call_answered(&mut self, outcome: Result<WireRule, String>, on_screen: bool) -> (r:
        OpenOutcome)
        requires
            old(self)@.well_formed(),
        ensures
            final(self)@ == old(self)@.answered(outcome is Ok),
            final(self)@.well_formed(),
            outcome matches Ok(rule) ==> r == (OpenOutcome::Opened { rule, close: on_screen }),
            outcome matches Err(message) ==> r == (OpenOutcome::Failed { toast: message }),
    {
        let _called_off: bool = self.busy.end();
        assert(self@ =~= (DialogView { busy: old(self)@.busy.ended(), ..old(self)@ }));
        match outcome {
            Ok(rule) => OpenOutcome::Opened { rule, close: on_screen },
            Err(message) => {
                self.refresh_submit_state();
                OpenOutcome::Failed { toast: message }
            },
        }
    }

    /// The chips' labels: the five fixed durations, then "Custom".
    pub fn duration_labels(&self) -> (r: Vec<String>)
        ensures
            texts(r@) == Seq::new(self@.chips.len(), |i: int| self@.chips[i].label),
    {
        let mut r: Vec<String> = Vec::new();
        let n: usize = self.chips.len();
        for i in 0..n
            invariant
                n == self.chips@.len(),
                r@.len() == i,
                forall|j: int| 0 <= j < i ==> (#[trigger] r@[j])@ == self.chips@[j].label@,
        {
            r.push(self.chips[i].label.clone());
        }
        assert(texts(r@) =~= Seq::new(self@.chips.len(), |i: int| self@.chips[i].label));
        r
    }

    /// Every lifetime a chip fixes. "Custom" fixes none.
    pub fn all_lifetimes(&self) -> (r: Vec<Lifetime>)
        requires
            self@.well_formed(),
        ensures
            r@ == Seq::new(duration_choices().len(), |i: int| duration_choices()[i].1),
    {
        let mut r: Vec<Lifetime> = Vec::new();
        let n: usize = self.chips.len();
        assert(self.chips@.len() == self@.chips.len());
        for i in 0..n
            invariant
                n == self.chips@.len(),
                n == 6,
                self@.chips == all_chips(),
                r@.len() == (if i <= 5 {
                    i as int
                } else {
                    5
                }),
                forall|j: int| 0 <= j < r@.len() ==> #[trigger] r@[j] == duration_choices()[j].1,
        {
            assert(self@.chips[i as int] == self.chips@[i as int]@);
            match self.chips[i].choice {
                DurationChoice::Fixed(lifetime) => r.push(lifetime),
                DurationChoice::Custom => {},
            }
        }
        assert(r@ =~= Seq::new(duration_choices().len(), |i: int| duration_choices()[i].1));
        r
    }

    /// Whether the custom-duration field is on screen.
    pub fn custom_duration_is_revealed(&self) -> (r: bool)
        ensures
            r == self@.custom_revealed,
    {
        self.custom_revealed
    }

    /// The refusal shown under the custom-duration field, if there is one.
    pub fn custom_duration_error(&self) -> (r: Option<String>)
        ensures
            text_of(r) == non_empty(self@.custom_error),
    {
        copy_non_empty(&self.custom_error)
    }

    pub fn target_labels(&self) -> (r: Vec<String>)
        ensures
            texts(r@) == Seq::new(self@.rows.len(), |i: int| self@.rows[i].label),
    {
        let mut r: Vec<String> = Vec::new();
        let n: usize = self.rows.len();
        for i in 0..n
            invariant
                n == self.rows@.len(),
                r@.len() == i,
                forall|j: int| 0 <= j < i ==> (#[trigger] r@[j])@ == self.rows@[j].label@,
        {
            r.push(self.rows[i].label.clone());
        }
        assert(texts(r@) =~= Seq::new(self@.rows.len(), |i: int| self@.rows[i].label));
        r
    }

    /// The line under each target, empty for one that has none.
    pub fn target_subtitles(&self) -> (r: Vec<String>)
        ensures
            texts(r@) == Seq::new(
                self@.rows.len(),
                |i: int|
                    match self@.rows[i].subtitle {
                        Some(text) => text,
                        None => Seq::empty(),
                    },
            ),
    {
        let mut r: Vec<String> = Vec::new();
        let n: usize = self.rows.len();
        for i in 0..n
            invariant
                n == self.rows@.len(),
                r@.len() == i,
                forall|j: int|
                    0 <= j < i ==> (#[trigger] r@[j])@ == (match text_of(self.rows@[j].subtitle) {
                        Some(text) => text,
                        None => Seq::empty(),
                    }),
        {
            match &self.rows[i].subtitle {
                Some(text) => r.push(text.clone()),
                None => r.push(String::new()),
            }
        }
        assert(texts(r@) =~= Seq::new(
            self@.rows.len(),
            |i: int|
                match self@.rows[i].subtitle {
                    Some(text) => text,
                    None => Seq::empty(),
                },
        ));
        r
    }

    pub fn target_group_title(&self) -> (r: String)
        ensures
            r@ == self@.target_title,
    {
        self.target_title.clone()
    }

    pub fn target_group_description(&self) -> (r: Option<String>)
        ensures
            text_of(r) == non_empty(self@.target_description),
    {
        copy_non_empty(&self.target_description)
    }

    pub fn port_field_title(&self) -> (r: String)
        ensures
            r@ == self@.port_title,
    {
        self.port_title.clone()
    }

    pub fn port_group_description(&self) -> (r: Option<String>)
        ensures
            text_of(r) == non_empty(self@.port_description),
    {
        copy_non_empty(&self.port_description)
    }

    /// Whether the protocol chooser is on screen: not on a forward.
    pub fn offers_a_protocol_choice(&self) -> (r: bool)
        ensures
            r == self@.offers_protocol,
    {
        self.offers_protocol
    }

    pub fn note_for_anyone(&self) -> (r: String)
        ensures
            r@ == ANYONE_NOTE@,
    {
        anyone_note()
    }

    pub fn port(&self) -> (r: Option<u16>)
        ensures
            r == self@.port,
    {
        self.port
    }

    /// Which of the two acts the button performs.
    pub fn forwards(&self) -> (r: Option<u16>)
        ensures
            r == self@.forward,
    {
        self.forward
    }

    pub fn title(&self) -> (r: String)
        ensures
            r@ == self@.title,
    {
        self.title.clone()
    }

    pub fn open_button_label(&self) -> (r: String)
        ensures
            r@ == self@.open_label,
    {
        self.open_label.clone()
    }

    /// Whether the Open button can be pressed.
    pub fn open_button_is_sensitive(&self) -> (r: bool)
        requires
            self@.well_formed(),
        ensures
            r == self@.open_sensitive(),
    {
        self.busy.control_is_sensitive(0)
    }

    pub fn busy(&self) -> (r: &BusyIndicator)
        ensures
            r@ == self@.busy,
    {
        &self.busy
    }
}

impl Default for OpenDialog {
    fn default() -> (r: Self)
        ensures
            r@ == DialogView::fresh(),
    {
        Self::new()
    }
}

/// Bringing the button in line with the form makes it pressable exactly when
/// there is a request to send and none outstanding.
pub proof fn the_button_follows_the_request(v: DialogView)
    requires
        v.well_formed(),
    ensures
        v.settled().open_sensitive() <==> !v.busy.is_busy() && v.request() is Some,
        v.settled().request() == v.request(),
        v.settled().settled() == v.settled(),
{
    assert(v.settled().settled() =~= v.settled());
}

/// Whether the form shows what its choices ask for: the Open button is
/// pressable exactly when there is a request to send and none outstanding;
/// the custom field is revealed exactly under its own chip; and a refusal is
/// shown exactly under that chip and for a text that was refused.
pub open spec fn form_is_in_line(v: DialogView) -> bool {
    &&& v.open_sensitive() <==> !v.busy.is_busy() && v.request() is Some
    &&& v.custom_revealed <==> v.custom_active()
    &&& v.custom_error == (match v.custom {
        CustomView::Invalid(message) if v.custom_active() => Some(message),
        _ => None,
    })
}

/// Every change of the port, of the chip or of the custom text leaves the
/// form in line with its choices. A refused text under a fixed chip shows no
/// refusal and does not hold the button.
pub proof fn the_form_follows_every_change(
    v: DialogView,
    text: Seq<char>,
    port: Result<u16, String>,
    index: int,
    custom: Result<u64, String>,
)
    requires
        v.well_formed(),
        0 <= index < v.chips.len(),
    ensures
        form_is_in_line(v.with_port(text, port)),
        form_is_in_line(v.with_chip(index)),
        form_is_in_line(v.with_custom(text, custom)),
        v.with_port(text, port).port == port_read(port),
        v.with_chip(index).active_chip == index,
        v.with_custom(text, custom).custom == custom_read(text, custom),
        !v.custom_active() ==> v.with_custom(text, custom).custom_error is None && v.with_custom(
            text,
            custom,
        ).request() == v.request(),
{
}

/// A well-formed dialog always has a target to send: what can be missing
/// from a request is the port or the duration, never the scope.
pub proof fn a_target_is_always_chosen(v: DialogView)
    requires
        v.well_formed(),
    ensures
        v.scope() is Some,
        v.request() is Some <==> v.port is Some && v.lifetime() is Some,
        v.request() matches Some(request) ==> request.port == v.port->0 && request.lifetime
            == v.lifetime()->0 && request.scope == v.scope()->0,
{
}

/// A forward is TCP: whatever is pressed on a forwarding dialog, the request
/// it would send names TCP, and the call is `forward` with the published
/// port.
pub proof fn a_forward_is_tcp(v: DialogView, request: Request)
    requires
        v.well_formed(),
        v.forward is Some,
        v.request() == Some(request),
    ensures
        request.protocol == Protocol::Tcp,
        !v.offers_protocol,
        call_for(v.forward, request) matches CallView::Forward { published_port, protocol, .. }
            && published_port == v.forward->0 && protocol == "tcp"@,
{
}

/// Devices that could not be read never look like no devices: the reason is
/// on screen, and only a list that was read takes it off.
pub proof fn unreadable_devices_do_not_look_like_none(v: DialogView, reason: Seq<char>)
    requires
        reason.len() > 0,
    ensures
        non_empty(v.with_devices_unreadable(reason).target_description) == Some(reason),
        v.with_devices(Seq::empty()).target_description is None,
{
}

/// "Anyone" is only ever chosen by choosing it: neither a network becoming
/// known nor a device list arriving selects it.
pub proof fn anyone_is_never_preselected(
    v: DialogView,
    net: Ipv4Net,
    devices: Seq<DeviceView>,
    reason: Seq<char>,
)
    requires
        v.well_formed(),
        v.scope() != Some(ScopeSpec::Anywhere),
    ensures
        DialogView::fresh().scope() == Some(ScopeSpec::CurrentSubnet),
        v.with_network(net).scope() != Some(ScopeSpec::Anywhere),
        v.with_devices(devices).scope() != Some(ScopeSpec::Anywhere),
        v.with_devices_unreadable(reason).scope() != Some(ScopeSpec::Anywhere),
{
    anyone_is_last_and_the_only_significant_target(v.network, v.devices, v.active_target);
    a_rebuild_keeps_the_choice_or_narrows_it(DialogView { network: Some(net), ..v });
    a_rebuild_keeps_the_choice_or_narrows_it(
        DialogView { target_description: None, devices, ..v },
    );
    a_rebuild_keeps_the_choice_or_narrows_it(DialogView { devices: Seq::empty(), ..v });
    assert(DialogView::fresh().rows[0] == this_network(None));
}

/// What is sent carries the request's own port, protocol, scope and lifetime,
/// to either of the helper's two acts. A duration crosses as that many
/// seconds and "until reboot" as 0, the protocol and the scope in the words
/// that name them. A dialog that forwards sends a forward to the port it was
/// made for, and no other dialog does.
pub proof fn a_call_carries_what_was_asked_for(forward: Option<u16>, request: Request)
    ensures
        call_for(forward, request) is Forward <==> forward is Some,
        ({
            let (port, protocol, scope, seconds) = match call_for(forward, request) {
                CallView::Open { port, protocol, scope, seconds } => (
                    port,
                    protocol,
                    scope,
                    seconds,
                ),
                CallView::Forward { port, protocol, scope, seconds, .. } => (
                    port,
                    protocol,
                    scope,
                    seconds,
                ),
            };
            &&& port == request.port
            &&& protocol == "tcp"@ <==> request.protocol is Tcp
            &&& protocol == "udp"@ <==> request.protocol is Udp
            &&& request.scope is CurrentSubnet ==> scope == "subnet"@
            &&& request.scope is Anywhere ==> scope == "any"@
            &&& request.scope matches ScopeSpec::Network(net) ==> scope == net.form()
            &&& request.scope matches ScopeSpec::Host(addr) ==> scope == dotted(addr)
            &&& request.lifetime is UntilReboot ==> seconds == 0
            &&& request.lifetime matches Lifetime::For(s) ==> s <= u32::MAX ==> seconds == s
            &&& request.lifetime matches Lifetime::For(s) ==> 0 <= seconds <= u32::MAX && (s
                - seconds) % 0x1_0000_0000 == 0
        }),
        call_for(forward, request) matches CallView::Forward { published_port, .. } ==> forward
            == Some(published_port),
{
    reveal_strlit("tcp");
    reveal_strlit("udp");
    assert("tcp"@[0] == 't');
    assert("udp"@[0] == 'u');
}

/// Over the durations a request may name, the seconds sent say how long to
/// keep the port open: 0 exactly for "until reboot", and otherwise the
/// duration itself. Two requests whose calls are alike asked for the same
/// thing.
pub proof fn calls_tell_requests_apart(forward: Option<u16>, one: Request, other: Request)
    requires
        one.lifetime matches Lifetime::For(s) ==> 0 < s <= MAX_DURATION,
        other.lifetime matches Lifetime::For(s) ==> 0 < s <= MAX_DURATION,
    ensures
        call_for(forward, one) matches CallView::Open { seconds, .. } ==> (seconds == 0
            <==> one.lifetime is UntilReboot),
        call_for(forward, one) matches CallView::Forward { seconds, .. } ==> (seconds == 0
            <==> one.lifetime is UntilReboot),
        call_for(forward, one) == call_for(forward, other) <==> one == other,
{
    a_call_carries_what_was_asked_for(forward, one);
    a_call_carries_what_was_asked_for(forward, other);
    if call_for(forward, one) == call_for(forward, other) {
        scope_strings_tell_scopes_apart(one.scope, other.scope);
    }
}

/// The scope sent names the scope chosen: this network and anyone by a word
/// each, and a network or a host by its own address.
pub proof fn a_scope_is_sent_by_its_name(scope: ScopeSpec)
    ensures
        scope_form(scope) == "subnet"@ <==> scope is CurrentSubnet,
        scope_form(scope) == "any"@ <==> scope is Anywhere,
        scope matches ScopeSpec::Host(addr) ==> scope_form(scope) == dotted(addr),
        scope matches ScopeSpec::Network(net) ==> exists|bits: Seq<char>| #[trigger]
            reads_as(bits, net.spec_prefix_len() as nat) && scope_form(scope) == dotted(
                net.spec_addr(),
            ).push('/') + bits,
{
    reveal_strlit("subnet");
    reveal_strlit("any");
    assert("subnet"@[0] == 's');
    assert("any"@[0] == 'a');
    if let ScopeSpec::Host(addr) = scope {
        dotted_has_no_slash(addr);
    }
    if let ScopeSpec::Network(net) = scope {
        network_starts_with_a_digit(net);
        a_network_names_its_address_and_its_prefix(net);
    }
}

/// A fixed chip lasts as long as it says it does, and only the last fixed one
/// has no end; the chip after them fixes nothing.
pub proof fn a_chip_lasts_as_long_as_it_says()
    ensures
        all_chips().len() == 6,
        all_chips()[0].label == "15 minutes"@,
        all_chips()[0].choice == DurationChoice::Fixed(Lifetime::For((15 * 60) as u64)),
        all_chips()[1].label == "1 hour"@,
        all_chips()[1].choice == DurationChoice::Fixed(Lifetime::For((60 * 60) as u64)),
        all_chips()[2].label == "4 hours"@,
        all_chips()[2].choice == DurationChoice::Fixed(Lifetime::For((4 * 60 * 60) as u64)),
        all_chips()[3].label == "8 hours"@,
        all_chips()[3].choice == DurationChoice::Fixed(Lifetime::For((8 * 60 * 60) as u64)),
        all_chips()[4].label == "Until reboot"@,
        all_chips()[4].choice == DurationChoice::Fixed(Lifetime::UntilReboot),
        all_chips()[5].label == "Custom"@,
        all_chips()[5].choice == DurationChoice::Custom,
        duration_choices().len() == 5,
        forall|i: int|
            0 <= i < 5 ==> all_chips()[i].choice == DurationChoice::Fixed(
                (#[trigger] duration_choices()[i]).1,
            ) && all_chips()[i].label == duration_choices()[i].0,
{
}

/// A port field holds a port exactly where its text was read as one that is
/// not 0, and then it is that one.
pub proof fn a_read_port_is_the_port(read: Result<u16, String>, p: u16)
    ensures
        port_read(read) == Some(p) <==> read == Ok::<u16, String>(p) && p != 0,
        port_read(read) is None <==> read is Err || read == Ok::<u16, String>(0),
{
}

/// A custom field that holds nothing but white space is neither right nor
/// wrong; otherwise it holds what its text was read as, a refusal word for
/// word.
pub proof fn a_read_duration_is_the_duration(text: Seq<char>, read: Result<u64, String>)
    ensures
        custom_read(text, read) is Empty <==> forall|i: int|
            0 <= i < text.len() ==> is_white_space(#[trigger] text[i]),
        !(custom_read(text, read) is Empty) ==> (match read {
            Ok(seconds) => custom_read(text, read) == CustomView::Valid(seconds),
            Err(message) => custom_read(text, read) == CustomView::Invalid(message@),
        }),
{
    trimming_to_nothing(text);
}

/// The request goes by the form's four choices and nothing else: the port in
/// the field, the lifetime of the pressed chip, or of the custom field under
/// its own chip, the scope of the chosen row, and UDP only where it is
/// pressed on a dialog that opens. It is there exactly when all four are.
pub proof fn a_request_is_the_forms_choices(v: DialogView)
    requires
        0 <= v.active_chip < v.chips.len(),
        0 <= v.active_target < v.rows.len(),
    ensures
        ({
            let chip = v.chips[v.active_chip].choice;
            let target = v.rows[v.active_target].scope;
            let lasts = match chip {
                DurationChoice::Fixed(_) => true,
                DurationChoice::Custom => v.custom is Valid,
            };
            &&& v.request() is Some <==> v.port is Some && lasts && target is Some
            &&& v.request() matches Some(request) ==> {
                &&& v.port == Some(request.port)
                &&& target == Some(request.scope)
                &&& request.protocol is Udp <==> v.udp && v.forward is None
                &&& match chip {
                    DurationChoice::Fixed(lifetime) => request.lifetime == lifetime,
                    DurationChoice::Custom => v.custom matches CustomView::Valid(seconds)
                        && request.lifetime == Lifetime::For(seconds),
                }
            }
        }),
{
}

/// Each control of the form changes its own part of it and no other: typing a
/// port the port, pressing a chip the lifetime, typing a duration the custom
/// duration, choosing a target the scope. Only the custom field and the Open
/// button follow along; a wait that is running goes on.
pub proof fn each_control_changes_its_own_part(
    v: DialogView,
    text: Seq<char>,
    port: Result<u16, String>,
    custom: Result<u64, String>,
    index: int,
)
    ensures
        ({
            let w = v.with_port(text, port);
            &&& w == (DialogView {
                port_text: text,
                port: w.port,
                custom_revealed: w.custom_revealed,
                custom_error: w.custom_error,
                busy: w.busy,
                ..v
            })
            &&& w.busy == (BusyView { controls: w.busy.controls, ..v.busy })
            &&& port matches Ok(p) ==> p != 0 ==> w.port == Some(p)
            &&& port is Err || port == Ok::<u16, String>(0) ==> w.port is None
        }),
        ({
            let w = v.with_chip(index);
            &&& 0 <= index < v.chips.len() ==> w == (DialogView {
                active_chip: index,
                custom_revealed: w.custom_revealed,
                custom_error: w.custom_error,
                busy: w.busy,
                ..v
            })
            &&& !(0 <= index < v.chips.len()) ==> w == v
            &&& w.busy == (BusyView { controls: w.busy.controls, ..v.busy })
        }),
        ({
            let w = v.with_custom(text, custom);
            &&& w == (DialogView {
                custom_text: text,
                custom: w.custom,
                custom_revealed: w.custom_revealed,
                custom_error: w.custom_error,
                busy: w.busy,
                ..v
            })
            &&& w.busy == (BusyView { controls: w.busy.controls, ..v.busy })
            &&& w.custom is Empty <==> forall|i: int|
                0 <= i < text.len() ==> is_white_space(#[trigger] text[i])
            &&& !(w.custom is Empty) ==> (match custom {
                Ok(seconds) => w.custom == CustomView::Valid(seconds),
                Err(message) => w.custom == CustomView::Invalid(message@),
            })
        }),
        ({
            let w = v.with_target(index);
            &&& 0 <= index < v.rows.len() && v.rows[index].scope is Some ==> w == (DialogView {
                active_target: index,
                selected: v.rows[index].key,
                ..v
            })
            &&& !(0 <= index < v.rows.len() && v.rows[index].scope is Some) ==> w == v
            &&& v.choosable(index) <==> 0 <= index < v.rows.len() && v.rows[index].scope is Some
        }),
{
    trimming_to_nothing(text);
}

/// After every change the Open button can be pressed exactly when nothing is
/// outstanding, a port is in the field and a duration is chosen; the custom
/// field is on screen exactly under its own chip, and its refusal exactly
/// there and where its text was refused.
pub proof fn the_form_shows_what_would_be_sent(
    v: DialogView,
    text: Seq<char>,
    port: Result<u16, String>,
    custom: Result<u64, String>,
    index: int,
    w: DialogView,
)
    requires
        v.well_formed(),
        0 <= index < v.chips.len(),
        w == v.with_port(text, port) || w == v.with_chip(index) || w == v.with_custom(text, custom)
            || w == v.answered(false),
    ensures
        ({
            let on_custom = w.active_chip == 5;
            &&& w.busy.controls.len() == 1
            &&& w.busy.controls[0] <==> w.busy.outstanding == 0 && w.port is Some && (on_custom
                ==> w.custom is Valid)
            &&& w.open_sensitive() == w.busy.controls[0]
            &&& w.custom_revealed <==> on_custom
            &&& w.custom_error is Some <==> on_custom && w.custom is Invalid
            &&& w.custom_error matches Some(message) ==> w.custom == CustomView::Invalid(message)
        }),
{
    a_chip_lasts_as_long_as_it_says();
    if w == v.answered(false) {
        assert(w.rows == v.rows && w.active_target == v.active_target);
    }
}

/// The target list is "This network", with the network where it is known,
/// then every saved device under its own name with what it resolves to, then
/// "Anyone" with its warning; each can be chosen for its own scope, but for a
/// device that does not resolve.
pub proof fn each_target_stands_for_its_own_scope(
    network: Option<Ipv4Net>,
    devices: Seq<DeviceView>,
    i: int,
)
    ensures
        ({
            let first = targets(network, devices)[0];
            &&& first.key is CurrentSubnet
            &&& first.scope == Some(ScopeSpec::CurrentSubnet)
            &&& first.subtitle is None && !first.significant
            &&& network matches Some(net) ==> first.label == "This network ("@ + net.form() + ")"@
            &&& network is None ==> first.label == "This network"@
        }),
        ({
            let last = targets(network, devices)[devices.len() as int + 1];
            &&& last.key is Anywhere
            &&& last.label == "Anyone"@
            &&& last.scope == Some(ScopeSpec::Anywhere)
            &&& last.subtitle == Some(ANYONE_NOTE@) && last.significant
        }),
        targets(network, devices).len() == devices.len() + 2,
        0 <= i < devices.len() ==> {
            let row = targets(network, devices)[i + 1];
            &&& row.key == Target::Device(devices[i].name)
            &&& row.label == devices[i].name
            &&& !row.significant
            &&& devices[i].resolved matches Ok(addr) ==> row.scope == Some(ScopeSpec::Host(addr))
                && row.subtitle == Some("resolves to "@ + dotted(addr))
            &&& devices[i].resolved matches Err(reason) ==> row.scope is None && row.subtitle
                == Some(reason)
        },
{
}

/// Building the target list again keeps the chosen target, by what it is,
/// wherever it now stands, as long as it can be chosen: the first row of that
/// key that can be. Where none can, "This network" is chosen. The list is
/// that of the network and the devices now known, and nothing else moves.
pub proof fn a_rebuild_finds_the_choice_again(v: DialogView, i: int)
    ensures
        ({
            let w = v.rebuilt();
            &&& w.rows == targets(v.network, v.devices)
            &&& w.selected == w.rows[w.active_target].key
            &&& 0 <= i < w.rows.len() && w.rows[i].key == v.selected && w.rows[i].scope is Some
                ==> w.selected == v.selected && w.rows[w.active_target].scope is Some
                && w.active_target <= i
            &&& (forall|j: int|
                0 <= j < w.rows.len() ==> !((#[trigger] w.rows[j]).key == v.selected
                    && w.rows[j].scope is Some)) ==> w.active_target == 0
            &&& w == (DialogView {
                rows: w.rows,
                active_target: w.active_target,
                selected: w.selected,
                ..v
            })
        }),
{
    let rows = targets(v.network, v.devices);
    kept_from_is_first(rows, v.selected, 0);
    if 0 <= i < rows.len() && rows[i].key == v.selected && rows[i].scope is Some {
        assert(is_choosable(rows, v.selected, i));
        assert(is_choosable(rows, v.selected, kept_from(rows, v.selected, 0)));
    }
    if forall|j: int|
        0 <= j < rows.len() ==> !((#[trigger] rows[j]).key == v.selected && rows[j].scope
            is Some) {
        assert forall|j: int| 0 <= j < rows.len() implies !#[trigger] is_choosable(
            rows,
            v.selected,
            j,
        ) by {
            assert(!(rows[j].key == v.selected && rows[j].scope is Some));
        }
    }
}

/// A network that becomes known changes only the network, a device list only
/// the devices, and takes away any reason there was none; a list that could
/// not be read offers no device and says why.
pub proof fn what_is_learned_reaches_the_list(
    v: DialogView,
    net: Ipv4Net,
    devices: Seq<DeviceView>,
    reason: Seq<char>,
)
    ensures
        v.with_network(net).network == Some(net),
        v.with_network(net).devices == v.devices,
        v.with_network(net).rows == targets(Some(net), v.devices),
        v.with_network(net) == (DialogView { network: Some(net), ..v }).rebuilt(),
        v.with_network(net).target_description == v.target_description,
        v.with_devices(devices).devices == devices,
        v.with_devices(devices).network == v.network,
        v.with_devices(devices).rows == targets(v.network, devices),
        v.with_devices(devices).target_description is None,
        v.with_devices(devices) == (DialogView { devices, target_description: None, ..v }).rebuilt(),
        v.with_devices_unreadable(reason) == (DialogView {
            target_description: Some(reason),
            ..v.with_devices(Seq::empty())
        }),
        v.with_devices_unreadable(reason).devices == Seq::<DeviceView>::empty(),
        v.with_devices_unreadable(reason).network == v.network,
        v.with_devices_unreadable(reason).rows == targets(v.network, Seq::empty()),
        v.with_devices_unreadable(reason).target_description == Some(reason),
{
}

/// A new dialog asks for nothing yet: no port, an hour, this network, TCP,
/// and a button that cannot be pressed. One that forwards is the same but for
/// its own words and the port it forwards to.
pub proof fn a_new_dialog_asks_for_nothing_yet(published_port: u16)
    ensures
        ({
            let v = DialogView::fresh();
            &&& v.forward is None && v.port is None && v.request() is None
            &&& !v.busy.controls[0] && v.busy.outstanding == 0
            &&& v.chips == all_chips() && v.chips[v.active_chip].label == "1 hour"@
            &&& v.chips[v.active_chip].choice == DurationChoice::Fixed(Lifetime::For(3600))
            &&& v.rows[v.active_target].scope == Some(ScopeSpec::CurrentSubnet)
            &&& !v.udp && v.offers_protocol && v.protocol() is Tcp
            &&& v.docker is None && v.devices.len() == 0 && v.network is None
            &&& v.title == "Open a port"@ && v.open_label == "Open"@
            &&& v.port_title == "Port"@ && v.target_title == "Open towards"@
            &&& v.port_description is None && v.target_description is None
            &&& v.port_text.len() == 0 && v.custom_text.len() == 0 && v.custom is Empty
            &&& !v.custom_revealed && v.custom_error is None
            &&& v.busy.controls.len() == 1 && !v.busy.showing
        }),
        ({
            let v = DialogView::fresh();
            let w = v.forwarding(published_port);
            &&& w.forward == Some(published_port)
            &&& !w.offers_protocol && w.protocol() is Tcp
            &&& w.title == "Forward a port"@ && w.open_label == "Forward"@
            &&& w.port_title == "Port on the network"@ && w.target_title == "Forward towards"@
            &&& w == (DialogView {
                forward: w.forward,
                title: w.title,
                port_title: w.port_title,
                port_description: w.port_description,
                offers_protocol: w.offers_protocol,
                target_title: w.target_title,
                open_label: w.open_label,
                ..v
            })
        }),
        exists|digits: Seq<char>| #[trigger]
            reads_as(digits, published_port as nat) && DialogView::fresh().forwarding(
                published_port,
            ).port_description == Some(
                "What arrives on this port from the network is redirected to the container that publishes "@
                    + digits + " on this machine. Forwards are TCP."@,
            ),
{
    a_chip_lasts_as_long_as_it_says();
    decimal_reads_back(published_port as nat);
    assert(reads_as(decimal(published_port as nat), published_port as nat));
    assert(DialogView::fresh().rows[0] == this_network(None));
}

/// Whatever is pressed on the protocol pair, a request names UDP exactly when
/// UDP was pressed last on a dialog that opens.
pub proof fn the_protocol_is_the_one_pressed(v: DialogView, udp: bool)
    ensures
        (DialogView { udp, ..v }).protocol() is Udp <==> udp && v.forward is None,
        (DialogView { udp, ..v }).lifetime() == v.lifetime(),
        (DialogView { udp, ..v }).scope() == v.scope(),
{
}

/// An answer ends the wait. One that failed leaves every choice where it was.
pub proof fn an_answer_leaves_the_choices(v: DialogView, succeeded: bool)
    ensures
        ({
            let w = v.answered(succeeded);
            &&& w == (DialogView {
                custom_revealed: w.custom_revealed,
                custom_error: w.custom_error,
                busy: w.busy,
                ..v
            })
            &&& w.busy == (BusyView { controls: w.busy.controls, ..v.busy.ended() })
            &&& succeeded ==> w == (DialogView { busy: v.busy.ended(), ..v })
        }),
{
}

/// The Docker alert puts the advice to the user word for word, and offers a
/// way back and a way through.
pub proof fn the_docker_alert_says_what_was_advised(advice: Seq<char>)
    ensures
        docker_explanation(advice).body == advice,
        docker_explanation(advice).heading == "Docker already publishes this port"@,
        docker_explanation(advice).first.id == docker_explanation(advice).close_response,
        docker_explanation(advice).first.id == docker_explanation(advice).default_response,
        docker_explanation(advice).first.label == "Cancel"@,
        docker_explanation(advice).second.label == "Open Anyway"@,
        docker_explanation(advice).second.id == DOCKER_RESPONSE_OPEN@,
        docker_explanation(advice).first.id != docker_explanation(advice).second.id,
{
    only_open_anyway_gets_past_the_docker_alert(advice);
}

/// Looking at a call, a duration, a device or a target shows what it holds,
/// part by part.
pub proof fn what_is_looked_at_is_what_is_held(
    call: HelperCall,
    custom: CustomDuration,
    device: DeviceEntry,
    target: TargetOption,
)
    ensures
        call matches HelperCall::Open { port, protocol, scope, seconds } ==> call@
            == (CallView::Open {
            port,
            protocol: protocol@,
            scope: scope@,
            seconds: seconds as int,
        }),
        call matches HelperCall::Forward { port, protocol, scope, seconds, published_port }
            ==> call@ == (CallView::Forward {
            port,
            protocol: protocol@,
            scope: scope@,
            seconds: seconds as int,
            published_port,
        }),
        custom is Empty <==> custom@ is Empty,
        custom matches CustomDuration::Invalid(message) ==> custom@ == CustomView::Invalid(
            message@,
        ),
        custom matches CustomDuration::Valid(seconds) ==> custom@ == CustomView::Valid(seconds),
        device@.name == device.name@,
        device.resolved matches Ok(addr) ==> device@.resolved == Ok::<Ipv4Addr, Seq<char>>(addr),
        device.resolved matches Err(reason) ==> device@.resolved == Err::<Ipv4Addr, Seq<char>>(
            reason@,
        ),
        target@.label == target.label@,
        target@.scope == target.scope,
        target@.significant == target.significant,
        target.subtitle matches Some(text) ==> target@.subtitle == Some(text@),
        target.subtitle is None ==> target@.subtitle is None,
        target.key is CurrentSubnet <==> target@.key is CurrentSubnet,
        target.key is Anywhere <==> target@.key is Anywhere,
        target.key matches TargetKey::Device(name) ==> target@.key == Target::Device(name@),
{
}

} // verus!
