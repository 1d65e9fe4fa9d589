//! What the development screenshots show: an invented machine, and the
//! windows and dialogs that render it.
//!
//! Nothing in it was read off a machine. Between them the fixtures hold one
//! of everything a section can render, so that a change to any of it can be
//! looked at.

use crate::devices_dialog::{
    ChoiceView, DevicesDialog, DevicesView, NeighbourChoice, SavedDevice, SavedView,
};
use crate::listening_section::DockerView;
use crate::model::{Binding, Protocol, Published, Service, WireRule, WireStatus};
use crate::net::{Ipv4Addr, Ipv4Net};
use crate::open_dialog::{DeviceEntry, DeviceView, DialogView, OpenDialog};
use crate::text::{copy_non_empty, non_empty, same_text, text2, text3, text4, text5, text_of, views};
use crate::window::{PortholeWindow, WindowView};
use vstd::prelude::*;
use vstd::string::*;

verus! {

/// The name each picture's application goes by on the session bus: never the
/// real one, and never one another's.
pub const APP_ID: &'static str = "com.jacopobriccola.Porthole.Screenshot";

pub const DIALOG_APP_ID: &'static str = "com.jacopobriccola.Porthole.ScreenshotDialog";

pub const DEVICES_APP_ID: &'static str = "com.jacopobriccola.Porthole.ScreenshotDevices";

/// The fields of a rule that differ between the invented ones; the rest are
/// TCP, firewalld and one user's.
pub open spec fn is_rule(
    rule: WireRule,
    id: Seq<char>,
    port: u16,
    target: Seq<char>,
    scope: Seq<char>,
    opened_at: int,
    expires_at: int,
) -> bool {
    &&& rule.id@ == id
    &&& rule.port == port
    &&& rule.protocol@ == "tcp"@
    &&& rule.target@ == target
    &&& rule.scope@ == scope
    &&& rule.backend@ == "firewalld"@
    &&& rule.opened_at == opened_at
    &&& rule.expires_at == expires_at
    &&& rule.uid == 1000
}

/// Where a rule leads, or that it leads nowhere.
pub open spec fn leads_to(
    rule: WireRule,
    container_addr: Seq<char>,
    container_port: u16,
    published_port: u16,
) -> bool {
    &&& rule.container_addr@ == container_addr
    &&& rule.container_port == container_port
    &&& rule.published_port == published_port
}

/// `n` seconds before `now`, as far back as a clock goes.
pub open spec fn before(now: u64, n: int) -> int {
    if now >= n {
        now - n
    } else {
        0
    }
}

fn rule(id: &str, port: u16, target: &str, scope: &str, opened_at: u64, expires_at: u64) -> (r:
    WireRule)
    ensures
        is_rule(r, id@, port, target@, scope@, opened_at as int, expires_at as int),
        leads_to(r, Seq::empty(), 0, 0),
{
    WireRule {
        id: id.to_owned(),
        port,
        protocol: "tcp".to_owned(),
        target: target.to_owned(),
        scope: scope.to_owned(),
        backend: "firewalld".to_owned(),
        opened_at,
        expires_at,
        uid: 1000,
        container_addr: String::new(),
        container_port: 0,
        published_port: 0,
    }
}

/// Three open rules: one counting down towards the current subnet, one
/// towards anyone until reboot, and one that redirects rather than permits.
pub fn fixture_rules(now: u64) -> (r: Vec<WireRule>)
    requires
        now + 3300 <= u64::MAX,
    ensures
        r@.len() == 3,
        is_rule(
            r@[0],
            "5173/tcp"@,
            5173,
            "10.10.10.0/24"@,
            "network"@,
            before(now, 600),
            now + 1800,
        ),
        leads_to(r@[0], Seq::empty(), 0, 0),
        is_rule(r@[1], "8080/tcp"@, 8080, "anywhere"@, "anywhere"@, before(now, 60), 0),
        leads_to(r@[1], Seq::empty(), 0, 0),
        is_rule(
            r@[2],
            "8443/tcp"@,
            8443,
            "10.10.10.0/24"@,
            "network"@,
            before(now, 120),
            now + 3300,
        ),
        leads_to(r@[2], "172.18.0.2"@, 8080, 3000),
{
    let mut r: Vec<WireRule> = Vec::new();
    r.push(
        rule(
            "5173/tcp",
            5173,
            "10.10.10.0/24",
            "network",
            now.saturating_sub(600),
            now + 1800,
        ),
    );
    r.push(rule("8080/tcp", 8080, "anywhere", "anywhere", now.saturating_sub(60), 0));
    let mut forward: WireRule = rule(
        "8443/tcp",
        8443,
        "10.10.10.0/24",
        "network",
        now.saturating_sub(120),
        now + 3300,
    );
    forward.container_addr = "172.18.0.2".to_owned();
    forward.container_port = 8080;
    forward.published_port = 3000;
    r.push(forward);
    r
}

pub open spec fn is_service(
    service: Service,
    port: u16,
    address: Seq<char>,
    binding: Binding,
    process: Option<Seq<char>>,
    pid: Option<u32>,
) -> bool {
    &&& service.port == port
    &&& service.protocol == Protocol::Tcp
    &&& service.address@ == address
    &&& service.binding == binding
    &&& text_of(service.process) == process
    &&& service.pid == pid
}

fn service(port: u16, address: &str, binding: Binding, owner: Option<(&str, u32)>) -> (r: Service)
    ensures
        is_service(
            r,
            port,
            address@,
            binding,
            match owner {
                Some((name, _)) => Some(name@),
                None => None,
            },
            match owner {
                Some((_, pid)) => Some(pid),
                None => None,
            },
        ),
{
    Service {
        port,
        protocol: Protocol::Tcp,
        address: address.to_owned(),
        binding,
        process: match owner {
            Some((name, _)) => Some(name.to_owned()),
            None => None,
        },
        pid: match owner {
            Some((_, pid)) => Some(pid),
            None => None,
        },
    }
}

/// The bits of `2001:db8::1`, an address set aside for documentation.
pub const DOCUMENTATION_IPV6: u128 = 0x2001_0db8_0000_0000_0000_0000_0000_0001;

/// Seven services, one of each thing the "Listening" section can render: one
/// already open, one that can be opened, one published on every interface,
/// one reachable only over IPv6, one published on loopback, and two more
/// that are loopback-only, with and without a process name.
pub fn fixture_services() -> (r: Vec<Service>)
    ensures
        r@.len() == 7,
        is_service(r@[0], 5173, "0.0.0.0"@, Binding::AllInterfaces, Some("node"@), Some(12043)),
        is_service(r@[1], 4000, "0.0.0.0"@, Binding::AllInterfaces, None, None),
        is_service(
            r@[2],
            9000,
            "0.0.0.0"@,
            Binding::AllInterfaces,
            Some("docker-proxy"@),
            Some(3117),
        ),
        is_service(
            r@[3],
            22,
            "2001:db8::1"@,
            Binding::BeyondReach(DOCUMENTATION_IPV6),
            Some("sshd"@),
            Some(842),
        ),
        is_service(
            r@[4],
            3000,
            "127.0.0.1"@,
            Binding::LoopbackOnly,
            Some("docker-proxy"@),
            Some(3118),
        ),
        is_service(r@[5], 46715, "127.0.0.1"@, Binding::LoopbackOnly, Some("code"@), Some(9816)),
        is_service(r@[6], 53, "127.0.0.53"@, Binding::LoopbackOnly, None, None),
{
    let mut r: Vec<Service> = Vec::new();
    r.push(service(5173, "0.0.0.0", Binding::AllInterfaces, Some(("node", 12043))));
    r.push(service(4000, "0.0.0.0", Binding::AllInterfaces, None));
    r.push(service(9000, "0.0.0.0", Binding::AllInterfaces, Some(("docker-proxy", 3117))));
    r.push(
        service(
            22,
            "2001:db8::1",
            Binding::BeyondReach(DOCUMENTATION_IPV6),
            Some(("sshd", 842)),
        ),
    );
    r.push(service(3000, "127.0.0.1", Binding::LoopbackOnly, Some(("docker-proxy", 3118))));
    r.push(service(46715, "127.0.0.1", Binding::LoopbackOnly, Some(("code", 9816))));
    r.push(service(53, "127.0.0.53", Binding::LoopbackOnly, None));
    r
}

pub open spec fn invented_docker() -> Seq<Published> {
    seq![
        Published {
            host_addr: None,
            host_port: 9000,
            protocol: Protocol::Tcp,
            container_addr: Ipv4Addr { a: 172, b: 17, c: 0, d: 2 },
            container_port: 80,
        },
        Published {
            host_addr: Some(Ipv4Addr { a: 127, b: 0, c: 0, d: 1 }),
            host_port: 3000,
            protocol: Protocol::Tcp,
            container_addr: Ipv4Addr { a: 172, b: 18, c: 0, d: 2 },
            container_port: 8080,
        },
    ]
}

/// Two published ports: one on every interface, and one on loopback, which is
/// the shape that can be forwarded.
pub fn fixture_docker() -> (r: Vec<Published>)
    ensures
        r@ == invented_docker(),
{
    let mut r: Vec<Published> = Vec::new();
    r.push(
        Published {
            host_addr: None,
            host_port: 9000,
            protocol: Protocol::Tcp,
            container_addr: Ipv4Addr::new(172, 17, 0, 2),
            container_port: 80,
        },
    );
    r.push(
        Published {
            host_addr: Some(Ipv4Addr::new(127, 0, 0, 1)),
            host_port: 3000,
            protocol: Protocol::Tcp,
            container_addr: Ipv4Addr::new(172, 18, 0, 2),
            container_port: 8080,
        },
    );
    assert(r@ =~= invented_docker());
    r
}

pub open spec fn invented_devices() -> Seq<DeviceView> {
    seq![
        DeviceView { name: "phone"@, resolved: Ok(Ipv4Addr { a: 10, b: 10, c: 10, d: 245 }) },
        DeviceView {
            name: "living room television (the big one)"@,
            resolved: Ok(Ipv4Addr { a: 10, b: 10, c: 10, d: 31 }),
        },
        DeviceView {
            name: "laptop"@,
            resolved: Err(
                "device not reachable: `laptop` (bc:24:11:5e:1c:6e) is not on this network right now"@,
            ),
        },
    ]
}

/// Three saved devices as the open dialog offers them: two that resolve, one
/// of them with a long name, and one that does not.
pub fn fixture_devices() -> (r: Vec<DeviceEntry>)
    ensures
        views(r@) == invented_devices(),
{
    let mut r: Vec<DeviceEntry> = Vec::new();
    r.push(
        DeviceEntry { name: "phone".to_owned(), resolved: Ok(Ipv4Addr::new(10, 10, 10, 245)) },
    );
    r.push(
        DeviceEntry {
            name: "living room television (the big one)".to_owned(),
            resolved: Ok(Ipv4Addr::new(10, 10, 10, 31)),
        },
    );
    r.push(
        DeviceEntry {
            name: "laptop".to_owned(),
            resolved: Err(
                "device not reachable: `laptop` (bc:24:11:5e:1c:6e) is not on this network right now".to_owned(),
            ),
        },
    );
    assert(r@[0]@ =~= invented_devices()[0]);
    assert(r@[1]@ =~= invented_devices()[1]);
    assert(r@[2]@ =~= invented_devices()[2]);
    assert(views(r@) =~= invented_devices());
    r
}

/// An installed and enforcing firewalld.
pub fn fixture_status(now: u64) -> (r: WireStatus)
    requires
        now + 3300 <= u64::MAX,
    ensures
        r.backend@ == "firewalld"@,
        r.firewall_available,
        r.firewall_active,
        !r.firewall_active_unknown,
        r.firewall_version@ == "2.4.4"@,
        r.detail@ == "firewalld is active and enforcing"@,
        r.location@ == "FedoraWorkstation"@,
        r.interface@ == "wlo1"@,
        r.address@ == "10.10.10.119"@,
        r.cidr@ == "10.10.10.0/24"@,
        r.rules@.len() == 3,
        is_rule(
            r.rules@[0],
            "5173/tcp"@,
            5173,
            "10.10.10.0/24"@,
            "network"@,
            before(now, 600),
            now + 1800,
        ),
        leads_to(r.rules@[0], Seq::empty(), 0, 0),
        is_rule(r.rules@[1], "8080/tcp"@, 8080, "anywhere"@, "anywhere"@, before(now, 60), 0),
        leads_to(r.rules@[1], Seq::empty(), 0, 0),
        is_rule(
            r.rules@[2],
            "8443/tcp"@,
            8443,
            "10.10.10.0/24"@,
            "network"@,
            before(now, 120),
            now + 3300,
        ),
        leads_to(r.rules@[2], "172.18.0.2"@, 8080, 3000),
{
    WireStatus {
        backend: "firewalld".to_owned(),
        firewall_available: true,
        firewall_active: true,
        firewall_active_unknown: false,
        firewall_version: "2.4.4".to_owned(),
        detail: "firewalld is active and enforcing".to_owned(),
        location: "FedoraWorkstation".to_owned(),
        interface: "wlo1".to_owned(),
        address: "10.10.10.119".to_owned(),
        cidr: "10.10.10.0/24".to_owned(),
        rules: fixture_rules(now),
    }
}

pub open spec fn invented_saved() -> Seq<SavedView> {
    seq![
        SavedView {
            name: "phone"@,
            address: "bc:24:11:5e:1c:6e"@,
            resolved: Ok(Ipv4Addr { a: 10, b: 10, c: 10, d: 245 }),
        },
        SavedView {
            name: "living room television (the big one)"@,
            address: "aa:bb:cc:dd:ee:ff"@,
            resolved: Ok(Ipv4Addr { a: 10, b: 10, c: 10, d: 31 }),
        },
        SavedView {
            name: "laptop"@,
            address: "12:34:56:78:9a:bc"@,
            resolved: Err(
                "device not reachable: `laptop` (12:34:56:78:9a:bc) is not on this network right now"@,
            ),
        },
    ]
}

/// Three saved devices as the devices dialog lists them.
pub fn fixture_saved_devices() -> (r: Vec<SavedDevice>)
    ensures
        views(r@) == invented_saved(),
{
    let mut r: Vec<SavedDevice> = Vec::new();
    r.push(
        SavedDevice {
            name: "phone".to_owned(),
            address: "bc:24:11:5e:1c:6e".to_owned(),
            resolved: Ok(Ipv4Addr::new(10, 10, 10, 245)),
        },
    );
    r.push(
        SavedDevice {
            name: "living room television (the big one)".to_owned(),
            address: "aa:bb:cc:dd:ee:ff".to_owned(),
            resolved: Ok(Ipv4Addr::new(10, 10, 10, 31)),
        },
    );
    r.push(
        SavedDevice {
            name: "laptop".to_owned(),
            address: "12:34:56:78:9a:bc".to_owned(),
            resolved: Err(
                "device not reachable: `laptop` (12:34:56:78:9a:bc) is not on this network right now".to_owned(),
            ),
        },
    );
    assert(r@[0]@ =~= invented_saved()[0]);
    assert(r@[1]@ =~= invented_saved()[1]);
    assert(r@[2]@ =~= invented_saved()[2]);
    assert(views(r@) =~= invented_saved());
    r
}

pub open spec fn invented_neighbours() -> Seq<ChoiceView> {
    seq![
        ChoiceView {
            mac: "bc:24:11:5e:1c:6e"@,
            address: Ipv4Addr { a: 10, b: 10, c: 10, d: 245 },
            interface: "wlo1"@,
            name: Some("phone.example"@),
        },
        ChoiceView {
            mac: "aa:bb:cc:dd:ee:ff"@,
            address: Ipv4Addr { a: 10, b: 10, c: 10, d: 31 },
            interface: "wlo1"@,
            name: Some("_gateway"@),
        },
        ChoiceView {
            mac: "de:ad:be:ef:00:01"@,
            address: Ipv4Addr { a: 10, b: 10, c: 10, d: 7 },
            interface: "enp3s0"@,
            name: None,
        },
    ]
}

/// What the picker offers: two devices the resolver has a name for, and one
/// it has none for.
pub fn fixture_neighbours() -> (r: Vec<NeighbourChoice>)
    ensures
        views(r@) == invented_neighbours(),
{
    let mut r: Vec<NeighbourChoice> = Vec::new();
    r.push(
        NeighbourChoice {
            mac: "bc:24:11:5e:1c:6e".to_owned(),
            address: Ipv4Addr::new(10, 10, 10, 245),
            interface: "wlo1".to_owned(),
            name: Some("phone.example".to_owned()),
        },
    );
    r.push(
        NeighbourChoice {
            mac: "aa:bb:cc:dd:ee:ff".to_owned(),
            address: Ipv4Addr::new(10, 10, 10, 31),
            interface: "wlo1".to_owned(),
            name: Some("_gateway".to_owned()),
        },
    );
    r.push(
        NeighbourChoice {
            mac: "de:ad:be:ef:00:01".to_owned(),
            address: Ipv4Addr::new(10, 10, 10, 7),
            interface: "enp3s0".to_owned(),
            name: None,
        },
    );
    assert(r@[0]@ =~= invented_neighbours()[0]);
    assert(r@[1]@ =~= invented_neighbours()[1]);
    assert(r@[2]@ =~= invented_neighbours()[2]);
    assert(views(r@) =~= invented_neighbours());
    r
}

/// The ports of a list of rules, in order.
pub open spec fn ports_of(rules: Seq<WireRule>) -> Seq<u16> {
    Seq::new(rules.len(), |i: int| rules[i].port)
}

fn ports(rules: &[WireRule]) -> (r: Vec<u16>)
    ensures
        r@ == ports_of(rules@),
{
    let mut r: Vec<u16> = Vec::new();
    let n: usize = rules.len();
    for i in 0..n
        invariant
            n == rules@.len(),
            r@.len() == i,
            forall|j: int| 0 <= j < i ==> #[trigger] r@[j] == rules@[j].port,
    {
        r.push(rules[i].port);
    }
    assert(r@ =~= ports_of(rules@));
    r
}

/// A window that shows these and nothing else: no helper is asked and nothing
/// is scanned.
pub open spec fn pictured(
    rules: Seq<WireRule>,
    services: Seq<Service>,
    docker: Seq<Published>,
    status: WireStatus,
    now: u64,
    no_firewall_message: Seq<char>,
) -> WindowView {
    let blank = WindowView::fresh();
    WindowView {
        open_now: blank.open_now.applied(rules, now, now),
        listening: blank.listening.with_services(services).with_open_ports(
            ports_of(rules).to_set(),
        ).with_docker(DockerView::Known(docker)),
        status: blank.status.with_status(status, no_firewall_message),
        ..blank
    }
}

/// The window a picture is taken of.
pub fn fixture_window(
    rules: &[WireRule],
    services: &[Service],
    docker: &[Published],
    status: &WireStatus,
    now: u64,
    no_firewall_message: &str,
) -> (r: PortholeWindow)
    ensures
        r@ == pictured(rules@, services@, docker@, *status, now, no_firewall_message@),
        r@.well_formed(),
{
    let mut win: PortholeWindow = PortholeWindow::new_without_initial_load();
    let open_ports: Vec<u16> = ports(rules);
    win.open_now.set_rules(rules, now);
    win.listening.set_services(services);
    win.listening.set_open_ports(open_ports.as_slice());
    win.listening.set_docker_ports(docker);
    win.status_bar.set_status(status, no_firewall_message);
    assert(win@ =~= pictured(rules@, services@, docker@, *status, now, no_firewall_message@));
    win
}

/// An open dialog with the invented network, devices and published ports in
/// it.
pub fn fixture_open_dialog(dialog: OpenDialog) -> (r: OpenDialog)
    requires
        dialog@.well_formed(),
    ensures
        exists|net: Ipv4Net| #[trigger]
            net.form() == crate::net::network_form(
                (Ipv4Addr { a: 10, b: 10, c: 10, d: 0 }),
                24,
            ) && r@ == (DialogView {
                docker: Some(invented_docker()),
                ..dialog@.with_network(net).with_devices(invented_devices())
            }),
        r@.well_formed(),
{
    let mut dialog: OpenDialog = dialog;
    let ghost before = dialog@;
    let devices: Vec<DeviceEntry> = fixture_devices();
    let docker: Vec<Published> = fixture_docker();
    let net: Option<Ipv4Net> = Ipv4Net::new(Ipv4Addr::new(10, 10, 10, 0), 24);
    if let Some(net) = net {
        dialog.set_current_network(net);
        dialog.set_devices(devices.as_slice());
        dialog.set_docker_ports(docker.as_slice());
        assert(net.form() == crate::net::network_form(
            (Ipv4Addr { a: 10, b: 10, c: 10, d: 0 }),
            24,
        ));
        assert(dialog@ == (DialogView {
            docker: Some(invented_docker()),
            ..before.with_network(net).with_devices(invented_devices())
        }));
    }
    dialog
}

/// The devices dialog with the invented devices and neighbours in it.
pub fn fixture_devices_dialog() -> (r: DevicesDialog)
    ensures
        r@ == DevicesView::fresh().with_saved(invented_saved()).with_neighbours(
            invented_neighbours(),
        ),
        r@.well_formed(),
{
    let mut dialog: DevicesDialog = DevicesDialog::new();
    let saved: Vec<SavedDevice> = fixture_saved_devices();
    let seen: Vec<NeighbourChoice> = fixture_neighbours();
    dialog.set_saved(saved.as_slice());
    dialog.set_neighbours(seen.as_slice());
    dialog
}

/// The devices dialog on a machine with nothing saved and nothing seen.
pub fn empty_devices_dialog() -> (r: DevicesDialog)
    ensures
        r@ == DevicesView::fresh().with_saved(Seq::empty()).with_neighbours(Seq::empty()),
        r@.well_formed(),
{
    let mut dialog: DevicesDialog = DevicesDialog::new();
    let saved: Vec<SavedDevice> = Vec::new();
    let seen: Vec<NeighbourChoice> = Vec::new();
    assert(views(saved@) =~= Seq::<SavedView>::empty());
    assert(views(seen@) =~= Seq::<ChoiceView>::empty());
    dialog.set_saved(saved.as_slice());
    dialog.set_neighbours(seen.as_slice());
    dialog
}

/// The file name of an extra picture beside the first: the first one's stem
/// and extension, as far as it has them, with a suffix between.
pub open spec fn beside_name(
    stem: Option<Seq<char>>,
    extension: Option<Seq<char>>,
    suffix: Seq<char>,
) -> Seq<char> {
    (match stem {
        Some(s) => s,
        None => "screenshot"@,
    }) + "-"@ + suffix + "."@ + (match extension {
        Some(e) => e,
        None => "png"@,
    })
}

pub fn beside(stem: &Option<String>, extension: &Option<String>, suffix: &str) -> (r: String)
    ensures
        r@ == beside_name(text_of(*stem), text_of(*extension), suffix@),
{
    let stem: &str = match stem {
        Some(s) => s.as_str(),
        None => "screenshot",
    };
    let extension: &str = match extension {
        Some(e) => e.as_str(),
        None => "png",
    };
    text5(stem, "-", suffix, ".", extension)
}

/// The address book a picture may write, which is one that was named: an
/// empty name is none.
pub fn devices_file_override(value: &Option<String>) -> (r: Option<String>)
    ensures
        text_of(r) == non_empty(text_of(*value)),
{
    copy_non_empty(value)
}

/// What is printed about one picture, and whether it was written.
pub fn picture_report(flag: &str, path: &str, outcome: Result<(), String>) -> (r: (String, bool))
    ensures
        r.1 == outcome is Ok,
        match outcome {
            Ok(_) => r.0@ == "porthole-gui: wrote a screenshot to "@ + path@,
            Err(message) => r.0@ == "porthole-gui: "@ + flag@ + " failed: "@ + message@,
        },
{
    match outcome {
        Ok(()) => (text2("porthole-gui: wrote a screenshot to ", path), true),
        Err(message) => (text4("porthole-gui: ", flag, " failed: ", message.as_str()), false),
    }
}

/// The dialog's pictures are done when all three were written. There being no
/// explanation to take one of counts as its not having been.
pub fn dialog_pictures_done(dialog: bool, alert: Option<bool>, forward: bool) -> (r: bool)
    ensures
        r == (dialog && alert == Some(true) && forward),
{
    match alert {
        Some(alert) => dialog && alert && forward,
        None => false,
    }
}

/// The saved-devices pictures are done when both were written, and the third
/// too if it was taken: without an address book of its own to write, it is
/// not.
pub fn devices_pictures_done(populated: bool, empty: bool, typed: Option<bool>) -> (r: bool)
    ensures
        r == (populated && empty && typed != Some(false)),
{
    match typed {
        Some(typed) => populated && empty && typed,
        None => populated && empty,
    }
}

/// The first argument from `from` on that is `flag`.
pub open spec fn flag_position(args: Seq<String>, flag: Seq<char>, from: int) -> Option<int>
    decreases args.len() - from,
{
    if from < 0 || from >= args.len() {
        None
    } else if args[from]@ == flag {
        Some(from)
    } else {
        flag_position(args, flag, from + 1)
    }
}

/// The argument after the first that is exactly `flag`.
pub open spec fn flag_argument(args: Seq<String>, flag: Seq<char>) -> Option<Seq<char>> {
    match flag_position(args, flag, 0) {
        Some(i) => if i + 1 < args.len() {
            Some(args[i + 1]@)
        } else {
            None
        },
        None => None,
    }
}

/// The value after `flag`, which is matched exactly.
pub fn flag_value(args: &[String], flag: &str) -> (r: Option<String>)
    ensures
        text_of(r) == flag_argument(args@, flag@),
{
    let n: usize = args.len();
    let mut i: usize = 0;
    while i < n
        invariant
            n == args@.len(),
            i <= n,
            flag_position(args@, flag@, 0) == flag_position(args@, flag@, i as int),
        decreases n - i,
    {
        if same_text(args[i].as_str(), flag) {
            if i + 1 < n {
                return Some(args[i + 1].clone());
            }
            return None;
        }
        i += 1;
    }
    None
}

/// Whether a picture may be taken: only in a development build. `Err` is what
/// is printed instead.
pub fn run_screenshot(flag: &str, development: bool) -> (r: Result<(), String>)
    ensures
        r is Ok <==> development,
        r matches Err(message) ==> message@ == "porthole-gui: "@ + flag@
            + " exists for development and is not available in release builds"@,
{
    if development {
        Ok(())
    } else {
        Err(
            text3(
                "porthole-gui: ",
                flag,
                " exists for development and is not available in release builds",
            ),
        )
    }
}

/// The value of a flag is the argument right behind the first that is exactly
/// the flag; there is none exactly where no argument is the flag, or the
/// first that is stands last.
pub proof fn a_flags_value_stands_right_behind_it(args: Seq<String>, flag: Seq<char>, i: int)
    ensures
        (forall|j: int| 0 <= j < args.len() ==> (#[trigger] args[j])@ != flag) ==> flag_argument(
            args,
            flag,
        ) is None,
        0 <= i < args.len() && args[i]@ == flag && (forall|j: int|
            0 <= j < i ==> (#[trigger] args[j])@ != flag) ==> flag_argument(args, flag) == (if i + 1
            < args.len() {
            Some(args[i + 1]@)
        } else {
            None
        }),
{
    flag_position_is_first(args, flag, 0, i);
}

proof fn flag_position_is_first(args: Seq<String>, flag: Seq<char>, from: int, i: int)
    requires
        0 <= from,
    ensures
        (forall|j: int| from <= j < args.len() ==> (#[trigger] args[j])@ != flag)
            ==> flag_position(args, flag, from) is None,
        from <= i < args.len() && args[i]@ == flag && (forall|j: int|
            from <= j < i ==> (#[trigger] args[j])@ != flag) ==> flag_position(args, flag, from)
            == Some(i),
    decreases args.len() - from,
{
    if from < args.len() && args[from]@ != flag {
        flag_position_is_first(args, flag, from + 1, i);
    }
}

/// A picture beside another keeps its stem and its extension, or the usual
/// ones where it has none, with the suffix between.
pub proof fn a_picture_beside_another_keeps_its_name(
    stem: Option<Seq<char>>,
    extension: Option<Seq<char>>,
    suffix: Seq<char>,
)
    ensures
        stem matches Some(s) ==> (s + "-"@ + suffix + "."@).is_prefix_of(
            beside_name(stem, extension, suffix),
        ),
        stem is None ==> ("screenshot-"@ + suffix + "."@).is_prefix_of(
            beside_name(stem, extension, suffix),
        ),
        extension matches Some(e) ==> ("-"@ + suffix + "."@ + e).is_suffix_of(
            beside_name(stem, extension, suffix),
        ),
        extension is None ==> ("-"@ + suffix + ".png"@).is_suffix_of(
            beside_name(stem, extension, suffix),
        ),
        beside_name(stem, extension, suffix).len() == (match stem {
            Some(s) => s.len(),
            None => "screenshot"@.len(),
        }) + 1 + suffix.len() + 1 + (match extension {
            Some(e) => e.len(),
            None => 3,
        }),
{
    reveal_strlit("-");
    reveal_strlit(".");
    reveal_strlit("png");
    reveal_strlit(".png");
    reveal_strlit("screenshot");
    reveal_strlit("screenshot-");
    let name = beside_name(stem, extension, suffix);
    let s = match stem {
        Some(s) => s,
        None => "screenshot"@,
    };
    let e = match extension {
        Some(e) => e,
        None => "png"@,
    };
    let front = s + "-"@ + suffix + "."@;
    let back = "-"@ + suffix + "."@ + e;
    assert(front =~= name.subrange(0, front.len() as int));
    assert(back =~= name.subrange(name.len() - back.len(), name.len() as int));
    if stem is None {
        assert("screenshot-"@ + suffix + "."@ =~= front);
    }
    if extension is None {
        assert("-"@ + suffix + ".png"@ =~= back);
    }
}

/// A time before now is that many seconds earlier, and the clock's first
/// moment where it would be before that.
pub proof fn before_is_that_much_earlier(now: u64, n: int)
    requires
        0 <= n,
    ensures
        0 <= before(now, n) <= now,
        n <= now ==> now - before(now, n) == n,
        n > now ==> before(now, n) == 0,
{
}

/// A pictured window shows what it was given: the rules, the services with
/// every listed port taken for open, the published ports and the status.
pub proof fn a_pictured_window_shows_what_it_was_given(
    rules: Seq<WireRule>,
    services: Seq<Service>,
    docker: Seq<Published>,
    status: WireStatus,
    now: u64,
    no_firewall_message: Seq<char>,
    port: u16,
)
    ensures
        ({
            let w = pictured(rules, services, docker, status, now, no_firewall_message);
            &&& w.open_now.rules == rules && w.open_now.listed_at == now
            &&& w.listening.services == services && w.listening.scanned
            &&& w.listening.docker == DockerView::Known(docker)
            &&& w.listening.open_ports.contains(port) <==> exists|i: int|
                0 <= i < rules.len() && (#[trigger] rules[i]).port == port
            &&& w.status == WindowView::fresh().status.with_status(status, no_firewall_message)
            &&& !w.stopped && !w.watches_expiry
        }),
{
    let w = pictured(rules, services, docker, status, now, no_firewall_message);
    let ports = ports_of(rules);
    assert(w.listening.open_ports == ports.to_set());
    if exists|i: int| 0 <= i < rules.len() && (#[trigger] rules[i]).port == port {
        let i = choose|i: int| 0 <= i < rules.len() && (#[trigger] rules[i]).port == port;
        assert(ports[i] == port);
    }
    if ports.contains(port) {
        let i = choose|i: int| 0 <= i < ports.len() && ports[i] == port;
        assert(rules[i].port == port);
    }
}

/// An invented rule has the fields it is said to have, and an invented
/// service too.
pub proof fn an_invention_is_what_it_is_said_to_be(
    rule: WireRule,
    id: Seq<char>,
    port: u16,
    target: Seq<char>,
    scope: Seq<char>,
    opened_at: int,
    expires_at: int,
    service: Service,
    address: Seq<char>,
    binding: Binding,
    process: Option<Seq<char>>,
    pid: Option<u32>,
    inside: u16,
    published: u16,
)
    ensures
        is_rule(rule, id, port, target, scope, opened_at, expires_at) <==> rule.id@ == id
            && rule.port == port && rule.protocol@ == "tcp"@ && rule.target@ == target
            && rule.scope@ == scope && rule.backend@ == "firewalld"@ && rule.opened_at == opened_at
            && rule.expires_at == expires_at && rule.uid == 1000,
        leads_to(rule, address, inside, published) <==> rule.container_addr@ == address
            && rule.container_port == inside && rule.published_port == published,
        is_service(service, port, address, binding, process, pid) <==> service.port == port
            && service.protocol is Tcp && service.address@ == address && service.binding == binding
            && text_of(service.process) == process && service.pid == pid,
{
}

} // verus!
