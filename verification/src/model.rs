//! The values the window is told about: rules, services, published ports and
//! the firewall's own state.

use crate::net::{Ipv4Addr, Ipv4Net};
use vstd::prelude::*;
use vstd::string::*;

verus! {

/// The transport protocol of a port.
#[derive(Clone, Copy, Debug, PartialEq, Eq, Structural)]
pub enum Protocol {
    Tcp,
    Udp,
}

impl Protocol {
    pub open spec fn form(self) -> Seq<char> {
        match self {
            Protocol::Tcp => "tcp"@,
            Protocol::Udp => "udp"@,
        }
    }

    /// The protocol as it is written on the wire.
    pub fn text(self) -> (r: String)
        ensures
            r@ == self.form(),
    {
        match self {
            Protocol::Tcp => "tcp".to_owned(),
            Protocol::Udp => "udp".to_owned(),
        }
    }
}

/// How long a port opened without saying so stays open, in seconds.
pub const DEFAULT_DURATION: u64 = 3600;

/// The longest a port may be opened for, in seconds.
pub const MAX_DURATION: u64 = 28800;

/// How long a rule lasts: a number of seconds, or until the machine reboots.
#[derive(Clone, Copy, Debug, PartialEq, Eq, Structural)]
pub enum Lifetime {
    For(u64),
    UntilReboot,
}

/// Who a port is opened towards.
#[derive(Clone, Copy, Debug, PartialEq, Eq, Structural)]
pub enum ScopeSpec {
    CurrentSubnet,
    Anywhere,
    Network(Ipv4Net),
    Host(Ipv4Addr),
}

/// One rule as the helper reports it.
#[derive(Debug)]
pub struct WireRule {
    pub id: String,
    pub port: u16,
    pub protocol: String,
    pub target: String,
    pub scope: String,
    pub backend: String,
    pub opened_at: u64,
    /// When the rule's lifetime ends, or 0 for a rule that lasts until the
    /// machine reboots.
    pub expires_at: u64,
    pub uid: u32,
    /// The container a forward leads to. Empty for a rule that permits
    /// rather than redirects.
    pub container_addr: String,
    pub container_port: u16,
    pub published_port: u16,
}

impl WireRule {
    pub open spec fn is_forward(self) -> bool {
        self.container_addr@.len() > 0
    }

    /// Whether the rule redirects a port into a container rather than
    /// permitting traffic to it.
    pub fn redirects(&self) -> (r: bool)
        ensures
            r == self.is_forward(),
    {
        self.container_addr.as_str().unicode_len() > 0
    }

    pub open spec fn to_anyone(self) -> bool {
        self.scope@ == "anywhere"@
    }
}

impl Clone for WireRule {
    fn clone(&self) -> (r: Self)
        ensures
            r == *self,
    {
        WireRule {
            id: self.id.clone(),
            port: self.port,
            protocol: self.protocol.clone(),
            target: self.target.clone(),
            scope: self.scope.clone(),
            backend: self.backend.clone(),
            opened_at: self.opened_at,
            expires_at: self.expires_at,
            uid: self.uid,
            container_addr: self.container_addr.clone(),
            container_port: self.container_port,
            published_port: self.published_port,
        }
    }
}

/// A copy of a rule list.
pub fn copy_rules(rules: &[WireRule]) -> (r: Vec<WireRule>)
    ensures
        r@ == rules@,
{
    let mut r: Vec<WireRule> = Vec::new();
    r.extend_from_slice(rules);
    assert(r@ =~= rules@);
    r
}

/// What the helper reports about the firewall and the network.
#[derive(Debug)]
pub struct WireStatus {
    pub backend: String,
    pub firewall_available: bool,
    pub firewall_active: bool,
    pub firewall_active_unknown: bool,
    pub firewall_version: String,
    pub detail: String,
    pub location: String,
    pub interface: String,
    pub address: String,
    pub cidr: String,
    pub rules: Vec<WireRule>,
}

/// Which of the two programs is built from the older sources.
#[derive(Clone, Copy, Debug, PartialEq, Eq, Structural)]
pub enum Alignment {
    HelperIsOlder,
    ThisOneIsOlder,
    Same,
}

/// One port Docker publishes.
#[derive(Clone, Copy, Debug, PartialEq, Eq)]
pub struct Published {
    /// The address it is published on; `None` for every interface.
    pub host_addr: Option<Ipv4Addr>,
    pub host_port: u16,
    pub protocol: Protocol,
    pub container_addr: Ipv4Addr,
    pub container_port: u16,
}

/// A copy of a list of published ports.
pub fn copy_published(published: &[Published]) -> (r: Vec<Published>)
    ensures
        r@ == published@,
{
    let mut r: Vec<Published> = Vec::new();
    r.extend_from_slice(published);
    assert(r@ =~= published@);
    r
}

/// One published port as the helper sends it.
#[derive(Debug)]
pub struct WireDockerPort {
    /// Empty for every interface.
    pub host_addr: String,
    pub host_port: u16,
    pub protocol: String,
    pub container_addr: String,
    pub container_port: u16,
}

/// Who can reach a listening socket.
#[derive(Clone, Copy, Debug, PartialEq, Eq, Structural)]
pub enum Binding {
    /// Nothing outside this machine can.
    LoopbackOnly,
    AllInterfaces,
    Specific(Ipv4Addr),
    /// A real IPv6 address, given by its bits: reachable, and outside what
    /// porthole's IPv4 rules can open or close.
    BeyondReach(u128),
}

/// One listening socket.
#[derive(Debug)]
pub struct Service {
    pub port: u16,
    pub protocol: Protocol,
    /// The address it is bound to, as text.
    pub address: String,
    pub binding: Binding,
    pub process: Option<String>,
    pub pid: Option<u32>,
}

impl Clone for Service {
    fn clone(&self) -> (r: Self)
        ensures
            r == *self,
    {
        Service {
            port: self.port,
            protocol: self.protocol,
            address: self.address.clone(),
            binding: self.binding,
            process: match &self.process {
                Some(name) => Some(name.clone()),
                None => None,
            },
            pid: self.pid,
        }
    }
}

/// A copy of a service list.
pub fn copy_services(services: &[Service]) -> (r: Vec<Service>)
    ensures
        r@ == services@,
{
    let mut r: Vec<Service> = Vec::new();
    r.extend_from_slice(services);
    assert(r@ =~= services@);
    r
}

} // verus!
