//! The "Listening" section: services running on this machine, each with an
//! Open button only where pressing it could change something.
//!
//! A loopback-only service is listed with a reassuring sentence and no Open
//! button: opening the firewall changes nothing for it. One bound to a real
//! IPv6 address has none either, for the opposite reason: it is reachable and
//! porthole's rules cannot touch it, so its row warns. A port that is already
//! open is said to be. The one row that can be forwarded is a loopback-only
//! TCP service that Docker publishes on a loopback address.
//!
//! Not having scanned yet, a failed scan and a scan that found nothing are
//! three different things to show, and nothing but a scan moves the section
//! from one to another.

use crate::model::{copy_published, copy_services, Binding, Protocol, Published, Service};
use crate::net::dotted;
use crate::text::{
    copy_text, decimal, decimal_reads_back, decimal_text, reads_as, text2, text3, text_of, views,
};
use std::collections::HashSet;
use vstd::prelude::*;
use vstd::string::*;

verus! {

broadcast use vstd::std_specs::hash::group_hash_axioms;

/// Under a service nothing outside this machine can reach.
pub const LOOPBACK_SUBTITLE: &'static str =
    "listening only on this machine — the firewall does not affect it";

/// Under a service porthole cannot open or close because it is blind to it.
pub const BEYOND_REACH_SUBTITLE: &'static str =
    "reachable over IPv6 — porthole manages IPv4 rules only and \
     cannot open or close it. Run `porthole doctor` to check your IPv6 exposure.";

/// Under the list once asking about Docker has failed.
pub const DOCKER_UNAVAILABLE_NOTE: &'static str =
    "Docker information unavailable — the porthole helper \
     could not be reached, or answered with an error, so porthole cannot say whether any of \
     these ports are already published by a container.";

/// Under the list before asking about Docker has come back.
pub const DOCKER_NOT_CHECKED_NOTE: &'static str =
    "Docker information not checked yet — porthole cannot \
     yet say whether any of these ports are already published by a container.";

/// The tooltip of the warning on a service reachable over IPv6.
pub const BEYOND_REACH_TOOLTIP: &'static str =
    "Reachable over IPv6 — see porthole doctor's IPv6 check";

/// The process and the port, or the port alone when the process is unknown.
pub open spec fn title(service: Service) -> Seq<char> {
    match service.process {
        Some(name) => name@ + " · "@ + decimal(service.port as nat),
        None => decimal(service.port as nat),
    }
}

pub fn title_for(service: &Service) -> (r: String)
    ensures
        r@ == title(*service),
{
    let port: String = decimal_text(service.port as u64);
    match &service.process {
        Some(name) => text3(name.as_str(), " · ", port.as_str()),
        None => port,
    }
}

/// What is known about the ports Docker publishes. Nothing having failed yet
/// is not the same as having failed.
#[derive(Debug)]
pub enum DockerPorts {
    NotChecked,
    Unavailable,
    Known(Vec<Published>),
}

pub enum DockerView {
    NotChecked,
    Unavailable,
    Known(Seq<Published>),
}

impl View for DockerPorts {
    type V = DockerView;

    open spec fn view(&self) -> DockerView {
        match self {
            DockerPorts::NotChecked => DockerView::NotChecked,
            DockerPorts::Unavailable => DockerView::Unavailable,
            DockerPorts::Known(list) => DockerView::Known(list@),
        }
    }
}

impl DockerView {
    /// The list to look a port up in, where there is one.
    pub open spec fn checked(self) -> Option<Seq<Published>> {
        match self {
            DockerView::Known(list) => Some(list),
            _ => None,
        }
    }

    /// What an unmarked row means, said once for the whole list.
    pub open spec fn note(self) -> Option<Seq<char>> {
        match self {
            DockerView::Known(_) => None,
            DockerView::NotChecked => Some(DOCKER_NOT_CHECKED_NOTE@),
            DockerView::Unavailable => Some(DOCKER_UNAVAILABLE_NOTE@),
        }
    }
}

/// The items of a list that may be missing.
pub open spec fn list_of(list: Option<&[Published]>) -> Option<Seq<Published>> {
    match list {
        Some(l) => Some(l@),
        None => None,
    }
}

impl DockerPorts {
    pub fn checked(&self) -> (r: Option<&[Published]>)
        ensures
            list_of(r) == self@.checked(),
    {
        match self {
            DockerPorts::Known(list) => Some(list.as_slice()),
            _ => None,
        }
    }

    pub fn note(&self) -> (r: Option<&'static str>)
        ensures
            match r {
                Some(text) => self@.note() == Some(text@),
                None => self@.note() is None,
            },
    {
        match self {
            DockerPorts::Known(_) => None,
            DockerPorts::NotChecked => Some(DOCKER_NOT_CHECKED_NOTE),
            DockerPorts::Unavailable => Some(DOCKER_UNAVAILABLE_NOTE),
        }
    }
}

/// The first entry Docker publishes at this port and protocol.
pub open spec fn published_at(port: u16, protocol: Protocol, published: Seq<Published>) -> Option<
    Published,
>
    decreases published.len(),
{
    if published.len() == 0 {
        None
    } else if published[0].host_port == port && published[0].protocol == protocol {
        Some(published[0])
    } else {
        published_at(port, protocol, published.drop_first())
    }
}

pub fn docker_for(port: u16, protocol: Protocol, published: &[Published]) -> (r: Option<Published>)
    ensures
        r == published_at(port, protocol, published@),
{
    let n: usize = published.len();
    let mut i: usize = 0;
    assert(published@.skip(0) =~= published@);
    while i < n
        invariant
            n == published@.len(),
            i <= n,
            published_at(port, protocol, published@) == published_at(
                port,
                protocol,
                published@.skip(i as int),
            ),
        decreases n - i,
    {
        assert(published@.skip(i as int)[0] == published@[i as int]);
        if published[i].host_port == port && published[i].protocol == protocol {
            return Some(published[i]);
        }
        assert(published@.skip(i as int).drop_first() =~= published@.skip(i + 1));
        i += 1;
    }
    None
}

/// The address Docker published a port on.
pub open spec fn docker_words(published: Published) -> Seq<char> {
    match published.host_addr {
        Some(addr) => "docker: published on "@ + dotted(addr),
        None => "docker: published on every interface"@,
    }
}

pub fn docker_fragment(published: &Published) -> (r: String)
    ensures
        r@ == docker_words(*published),
{
    match published.host_addr {
        Some(addr) => text2("docker: published on ", addr.text().as_str()),
        None => "docker: published on every interface".to_owned(),
    }
}

/// Whether the network can reach the socket and porthole's rules apply to it.
pub open spec fn network_facing(binding: Binding) -> bool {
    binding is AllInterfaces || binding is Specific
}

/// What a row says from the scan alone.
pub open spec fn plain_subtitle(service: Service, open_ports: Set<u16>) -> Seq<char> {
    if service.binding is LoopbackOnly {
        LOOPBACK_SUBTITLE@
    } else if service.binding is BeyondReach {
        BEYOND_REACH_SUBTITLE@
    } else if open_ports.contains(service.port) {
        "already open · "@ + service.address@
    } else {
        service.address@
    }
}

pub fn subtitle_without_docker(service: &Service, open_ports: &HashSet<u16>) -> (r: String)
    ensures
        r@ == plain_subtitle(*service, open_ports@),
{
    match service.binding {
        Binding::LoopbackOnly => LOOPBACK_SUBTITLE.to_owned(),
        Binding::BeyondReach(_) => BEYOND_REACH_SUBTITLE.to_owned(),
        _ => {
            if open_ports.contains(&service.port) {
                text2("already open · ", service.address.as_str())
            } else {
                service.address.clone()
            }
        },
    }
}

/// The published port a service's row is about, where a list says so.
pub open spec fn docker_of(service: Service, docker: Option<Seq<Published>>) -> Option<Published> {
    match docker {
        Some(list) => published_at(service.port, service.protocol, list),
        None => None,
    }
}

fn docker_of_service(service: &Service, docker: Option<&[Published]>) -> (r: Option<Published>)
    ensures
        r == docker_of(*service, list_of(docker)),
{
    match docker {
        Some(list) => docker_for(service.port, service.protocol, list),
        None => None,
    }
}

/// What a row says, with Docker's part where there is one.
pub open spec fn subtitle(
    service: Service,
    open_ports: Set<u16>,
    docker: Option<Seq<Published>>,
) -> Seq<char> {
    match docker_of(service, docker) {
        Some(published) => plain_subtitle(service, open_ports) + " · "@ + docker_words(published),
        None => plain_subtitle(service, open_ports),
    }
}

pub fn subtitle_for(
    service: &Service,
    open_ports: &HashSet<u16>,
    docker: Option<&[Published]>,
) -> (r: String)
    ensures
        r@ == subtitle(*service, open_ports@, list_of(docker)),
{
    let base: String = subtitle_without_docker(service, open_ports);
    match docker_of_service(service, docker) {
        Some(published) => text3(base.as_str(), " · ", docker_fragment(&published).as_str()),
        None => base,
    }
}

/// Whether opening the firewall for a service could change anything.
pub open spec fn can_open(service: Service, open_ports: Set<u16>) -> bool {
    network_facing(service.binding) && !open_ports.contains(service.port)
}

pub fn is_actionable(service: &Service, open_ports: &HashSet<u16>) -> (r: bool)
    ensures
        r == can_open(*service, open_ports@),
{
    match service.binding {
        Binding::AllInterfaces => !open_ports.contains(&service.port),
        Binding::Specific(_) => !open_ports.contains(&service.port),
        _ => false,
    }
}

/// The published port a service can be forwarded to: a loopback-only TCP
/// service that Docker publishes on a loopback address.
pub open spec fn can_forward(service: Service, docker: Option<Seq<Published>>) -> Option<u16> {
    if service.binding is LoopbackOnly && service.protocol is Tcp {
        match docker_of(service, docker) {
            Some(published) => match published.host_addr {
                Some(addr) => if addr.loopback() {
                    Some(published.host_port)
                } else {
                    None
                },
                None => None,
            },
            None => None,
        }
    } else {
        None
    }
}

pub fn forward_port_for(service: &Service, docker: Option<&[Published]>) -> (r: Option<u16>)
    ensures
        r == can_forward(*service, list_of(docker)),
{
    match (service.binding, service.protocol) {
        (Binding::LoopbackOnly, Protocol::Tcp) => match docker_of_service(service, docker) {
            Some(published) => match published.host_addr {
                Some(addr) => if addr.is_loopback() {
                    Some(published.host_port)
                } else {
                    None
                },
                None => None,
            },
            None => None,
        },
        _ => None,
    }
}

/// A Forward button names the port of its own row, and stands only on a
/// service nothing outside this machine can reach and the firewall cannot
/// open.
pub proof fn a_forward_is_for_the_rows_own_port(
    service: Service,
    open_ports: Set<u16>,
    docker: Option<Seq<Published>>,
)
    ensures
        can_forward(service, docker) matches Some(port) ==> port == service.port
            && service.binding is LoopbackOnly && !can_open(service, open_ports),
{
    if let Some(list) = docker {
        published_at_is_at_the_port(service.port, service.protocol, list);
    }
}

proof fn published_at_is_at_the_port(port: u16, protocol: Protocol, published: Seq<Published>)
    ensures
        published_at(port, protocol, published) matches Some(p) ==> p.host_port == port
            && p.protocol == protocol && published.contains(p),
    decreases published.len(),
{
    if published.len() > 0 {
        published_at_is_at_the_port(port, protocol, published.drop_first());
        if let Some(p) = published_at(port, protocol, published.drop_first()) {
            let i = choose|i: int| 0 <= i < published.drop_first().len() && published.drop_first()[i] == p;
            assert(published[i + 1] == p);
        }
        assert(published.contains(published[0]));
    }
}

/// What comes first in the list: what can be opened, then what warns, then
/// what nothing can reach.
pub open spec fn rank(binding: Binding) -> u8 {
    match binding {
        Binding::AllInterfaces => 0,
        Binding::Specific(_) => 0,
        Binding::BeyondReach(_) => 1,
        Binding::LoopbackOnly => 2,
    }
}

pub fn group_rank(binding: &Binding) -> (r: u8)
    ensures
        r == rank(*binding),
{
    match binding {
        Binding::AllInterfaces => 0,
        Binding::Specific(_) => 0,
        Binding::BeyondReach(_) => 1,
        Binding::LoopbackOnly => 2,
    }
}

/// Whether a service has this rank.
pub open spec fn of_rank(r: u8) -> spec_fn(Service) -> bool {
    |service: Service| rank(service.binding) == r
}

/// The services by rank, those of one rank in the order they came in.
pub open spec fn ordered(services: Seq<Service>) -> Seq<Service> {
    services.filter(of_rank(0)) + services.filter(of_rank(1)) + services.filter(of_rank(2))
}

fn services_of_rank(services: &Vec<Service>, r: u8) -> (out: Vec<Service>)
    ensures
        out@ == services@.filter(of_rank(r)),
{
    let mut out: Vec<Service> = Vec::new();
    let n: usize = services.len();
    assert(services@.take(0).filter(of_rank(r)) =~= Seq::empty()) by {
        reveal(Seq::filter);
    }
    for i in 0..n
        invariant
            n == services@.len(),
            out@ == services@.take(i as int).filter(of_rank(r)),
    {
        proof {
            reveal(Seq::filter);
            let longer = services@.take(i + 1);
            assert(longer.drop_last() =~= services@.take(i as int));
            assert(longer.last() == services@[i as int]);
        }
        if group_rank(&services[i].binding) == r {
            out.push(services[i].clone());
        }
    }
    assert(services@.take(n as int) =~= services@);
    out
}

fn order_services(services: &Vec<Service>) -> (r: Vec<Service>)
    ensures
        r@ == ordered(services@),
{
    let mut r: Vec<Service> = services_of_rank(services, 0);
    let mut second: Vec<Service> = services_of_rank(services, 1);
    let mut third: Vec<Service> = services_of_rank(services, 2);
    r.append(&mut second);
    r.append(&mut third);
    assert(r@ =~= ordered(services@));
    r
}

/// Ordering the services neither loses nor invents one, puts no rank before a
/// lower one, and keeps the order within each rank.
pub proof fn ordering_is_a_stable_sort(services: Seq<Service>)
    ensures
        ordered(services).to_multiset() == services.to_multiset(),
        forall|i: int, j: int|
            0 <= i <= j < ordered(services).len() ==> rank(
                (#[trigger] ordered(services)[i]).binding,
            ) <= rank((#[trigger] ordered(services)[j]).binding),
        forall|r: u8|
            r <= 2 ==> #[trigger] ordered(services).filter(of_rank(r)) == services.filter(
                of_rank(r),
            ),
{
    broadcast use vstd::seq_lib::group_filter_ensures;

    let a = services.filter(of_rank(0));
    let b = services.filter(of_rank(1));
    let c = services.filter(of_rank(2));
    assert forall|i: int| 0 <= i < a.len() implies rank((#[trigger] a[i]).binding) == 0 by {
        assert(of_rank(0)(a[i]));
    }
    assert forall|i: int| 0 <= i < b.len() implies rank((#[trigger] b[i]).binding) == 1 by {
        assert(of_rank(1)(b[i]));
    }
    assert forall|i: int| 0 <= i < c.len() implies rank((#[trigger] c[i]).binding) == 2 by {
        assert(of_rank(2)(c[i]));
    }
    ordering_keeps_every_service(services);
    assert forall|r: u8| r <= 2 implies #[trigger] ordered(services).filter(of_rank(r))
        == services.filter(of_rank(r)) by {
        Seq::filter_distributes_over_add(a + b, c, of_rank(r));
        Seq::filter_distributes_over_add(a, b, of_rank(r));
        filter_of_uniform(a, 0, r);
        filter_of_uniform(b, 1, r);
        filter_of_uniform(c, 2, r);
        if r == 0 {
            assert(a + Seq::empty() + Seq::empty() =~= a);
        } else if r == 1 {
            assert(Seq::empty() + b + Seq::empty() =~= b);
        } else {
            assert(Seq::empty() + Seq::empty() + c =~= c);
        }
    }
}

/// Filtering services that all have one rank keeps all of them or none.
proof fn filter_of_uniform(s: Seq<Service>, have: u8, want: u8)
    requires
        forall|i: int| 0 <= i < s.len() ==> rank((#[trigger] s[i]).binding) == have,
    ensures
        have == want ==> s.filter(of_rank(want)) == s,
        have != want ==> s.filter(of_rank(want)) == Seq::<Service>::empty(),
    decreases s.len(),
{
    reveal(Seq::filter);
    if s.len() > 0 {
        filter_of_uniform(s.drop_last(), have, want);
        assert(s.drop_last().push(s.last()) =~= s);
    }
}

proof fn ordering_keeps_every_service(services: Seq<Service>)
    ensures
        ordered(services).to_multiset() == services.to_multiset(),
    decreases services.len(),
{
    broadcast use vstd::seq_lib::group_to_multiset_ensures;

    reveal(Seq::filter);
    if services.len() == 0 {
        assert(ordered(services) =~= services);
    } else {
        let rest = services.drop_last();
        let last = services.last();
        ordering_keeps_every_service(rest);
        let a = rest.filter(of_rank(0));
        let b = rest.filter(of_rank(1));
        let c = rest.filter(of_rank(2));
        assert(services =~= rest.push(last));
        vstd::seq_lib::lemma_multiset_commutative(a + b, c);
        vstd::seq_lib::lemma_multiset_commutative(a, b);
        let r = rank(last.binding);
        if r == 0 {
            vstd::seq_lib::lemma_multiset_commutative(a.push(last) + b, c);
            vstd::seq_lib::lemma_multiset_commutative(a.push(last), b);
            assert(ordered(services) == a.push(last) + b + c);
        } else if r == 1 {
            vstd::seq_lib::lemma_multiset_commutative(a + b.push(last), c);
            vstd::seq_lib::lemma_multiset_commutative(a, b.push(last));
            assert(ordered(services) == a + b.push(last) + c);
        } else {
            vstd::seq_lib::lemma_multiset_commutative(a + b, c.push(last));
            assert(ordered(services) == a + b + c.push(last));
        }
        assert(ordered(services).to_multiset() =~= ordered(rest).to_multiset().insert(last));
    }
}

/// One rendered service.
#[derive(Debug)]
pub struct Row {
    port: u16,
    title: String,
    subtitle: String,
    open: bool,
    docker: Option<String>,
    warned: bool,
    forward: Option<u16>,
}

#[verifier::ext_equal]
pub struct RowView {
    pub port: u16,
    pub title: Seq<char>,
    pub subtitle: Seq<char>,
    /// Whether the row has an Open button.
    pub open: bool,
    /// The tooltip of the Docker marking, on a row that has it.
    pub docker: Option<Seq<char>>,
    /// Whether the row warns that the service is reachable over IPv6.
    pub warned: bool,
    /// The published port the row's Forward button is for, on a row that has
    /// one.
    pub forward: Option<u16>,
}

impl View for Row {
    type V = RowView;

    closed spec fn view(&self) -> RowView {
        RowView {
            port: self.port,
            title: self.title@,
            subtitle: self.subtitle@,
            open: self.open,
            docker: text_of(self.docker),
            warned: self.warned,
            forward: self.forward,
        }
    }
}

pub open spec fn service_row(
    service: Service,
    open_ports: Set<u16>,
    docker: Option<Seq<Published>>,
) -> RowView {
    RowView {
        port: service.port,
        title: title(service),
        subtitle: subtitle(service, open_ports, docker),
        open: can_open(service, open_ports),
        docker: match docker_of(service, docker) {
            Some(published) => Some(docker_words(published)),
            None => None,
        },
        warned: service.binding is BeyondReach,
        forward: can_forward(service, docker),
    }
}

/// The rows of a scan, in order.
pub open spec fn rendered(
    services: Seq<Service>,
    open_ports: Set<u16>,
    docker: Option<Seq<Published>>,
) -> Seq<RowView> {
    Seq::new(
        ordered(services).len(),
        |i: int| service_row(ordered(services)[i], open_ports, docker),
    )
}

fn build_row(service: &Service, open_ports: &HashSet<u16>, docker: Option<&[Published]>) -> (r: Row)
    ensures
        r@ == service_row(*service, open_ports@, list_of(docker)),
{
    let r = Row {
        port: service.port,
        title: title_for(service),
        subtitle: subtitle_for(service, open_ports, docker),
        open: is_actionable(service, open_ports),
        docker: match docker_of_service(service, docker) {
            Some(published) => Some(docker_fragment(&published)),
            None => None,
        },
        warned: match service.binding {
            Binding::BeyondReach(_) => true,
            _ => false,
        },
        forward: forward_port_for(service, docker),
    };
    assert(r@ =~= service_row(*service, open_ports@, list_of(docker)));
    r
}

fn build_rows(services: &Vec<Service>, open_ports: &HashSet<u16>, docker: Option<&[Published]>)
    -> (r: Vec<Row>)
    ensures
        views(r@) == rendered(services@, open_ports@, list_of(docker)),
{
    let in_order: Vec<Service> = order_services(services);
    let mut rows: Vec<Row> = Vec::new();
    let n: usize = in_order.len();
    for i in 0..n
        invariant
            n == in_order@.len(),
            rows@.len() == i,
            forall|j: int|
                0 <= j < i ==> (#[trigger] rows@[j])@ == service_row(
                    in_order@[j],
                    open_ports@,
                    list_of(docker),
                ),
    {
        rows.push(build_row(&in_order[i], open_ports, docker));
    }
    assert(views(rows@) =~= rendered(services@, open_ports@, list_of(docker)));
    rows
}

impl Row {
    pub fn port(&self) -> (r: u16)
        ensures
            r == self@.port,
    {
        self.port
    }

    pub fn title(&self) -> (r: String)
        ensures
            r@ == self@.title,
    {
        self.title.clone()
    }

    pub fn subtitle(&self) -> (r: String)
        ensures
            r@ == self@.subtitle,
    {
        self.subtitle.clone()
    }

    /// The tooltip of the Docker marking.
    pub fn docker_tooltip(&self) -> (r: Option<String>)
        ensures
            text_of(r) == self@.docker,
    {
        copy_text(&self.docker)
    }

    pub fn is_warned(&self) -> (r: bool)
        ensures
            r == self@.warned,
    {
        self.warned
    }

    /// What hovering over the row's Open button says.
    pub fn open_tooltip(&self) -> (r: String)
        ensures
            r@ == "Open port "@ + decimal(self@.port as nat),
    {
        text2("Open port ", decimal_text(self.port as u64).as_str())
    }
}

/// A whole-section page: the calm one, the failure, or the one before the
/// first answer.
#[derive(Debug)]
pub struct StatusPage {
    pub title: String,
    pub description: Option<String>,
    pub icon_name: String,
    /// Whether the page carries the `error` style class.
    pub error: bool,
}

#[verifier::ext_equal]
pub struct PageView {
    pub title: Seq<char>,
    pub description: Option<Seq<char>>,
    pub icon_name: Seq<char>,
    pub error: bool,
}

impl View for StatusPage {
    type V = PageView;

    open spec fn view(&self) -> PageView {
        PageView {
            title: self.title@,
            description: text_of(self.description),
            icon_name: self.icon_name@,
            error: self.error,
        }
    }
}

pub open spec fn calm_page() -> PageView {
    PageView {
        title: "Nothing else is listening"@,
        description: Some("Other services running on this machine will appear here."@),
        icon_name: "network-server-symbolic"@,
        error: false,
    }
}

pub open spec fn failure_page(description: Option<Seq<char>>) -> PageView {
    PageView {
        title: "Could not check what's listening"@,
        description,
        icon_name: "dialog-error-symbolic"@,
        error: true,
    }
}

pub open spec fn waiting_page() -> PageView {
    PageView {
        title: "Checking what's listening…"@,
        description: None,
        icon_name: "content-loading-symbolic"@,
        error: false,
    }
}

/// The "Listening" section.
#[derive(Debug)]
pub struct ListeningSection {
    loading_shown: bool,
    status_shown: bool,
    error_shown: bool,
    group_shown: bool,
    error_description: Option<String>,
    rows: Vec<Row>,
    services: Vec<Service>,
    open_ports: HashSet<u16>,
    docker: DockerPorts,
    scanned: bool,
}

#[verifier::ext_equal]
pub struct ListeningView {
    pub loading_shown: bool,
    pub status_shown: bool,
    pub error_shown: bool,
    pub group_shown: bool,
    pub error_description: Option<Seq<char>>,
    pub rows: Seq<RowView>,
    pub services: Seq<Service>,
    pub open_ports: Set<u16>,
    pub docker: DockerView,
    /// Whether `services` is a confirmed scan.
    pub scanned: bool,
}

impl View for ListeningSection {
    type V = ListeningView;

    closed spec fn view(&self) -> ListeningView {
        ListeningView {
            loading_shown: self.loading_shown,
            status_shown: self.status_shown,
            error_shown: self.error_shown,
            group_shown: self.group_shown,
            error_description: text_of(self.error_description),
            rows: views(self.rows@),
            services: self.services@,
            open_ports: self.open_ports@,
            docker: self.docker@,
            scanned: self.scanned,
        }
    }
}

impl ListeningView {
    pub open spec fn fresh() -> Self {
        ListeningView {
            loading_shown: true,
            status_shown: false,
            error_shown: false,
            group_shown: false,
            error_description: None,
            rows: Seq::empty(),
            services: Seq::empty(),
            open_ports: Set::empty(),
            docker: DockerView::NotChecked,
            scanned: false,
        }
    }

    /// Everything known, rendered. Without a confirmed scan there is nothing
    /// to render, and what is on screen stays.
    pub open spec fn applied(self) -> Self {
        if !self.scanned {
            self
        } else if self.services.len() == 0 {
            ListeningView {
                loading_shown: false,
                status_shown: true,
                error_shown: false,
                group_shown: false,
                rows: Seq::empty(),
                ..self
            }
        } else {
            ListeningView {
                loading_shown: false,
                status_shown: false,
                error_shown: false,
                group_shown: true,
                rows: rendered(self.services, self.open_ports, self.docker.checked()),
                ..self
            }
        }
    }

    pub open spec fn with_services(self, services: Seq<Service>) -> Self {
        ListeningView { services, scanned: true, ..self }.applied()
    }

    pub open spec fn with_open_ports(self, open_ports: Set<u16>) -> Self {
        ListeningView { open_ports, ..self }.applied()
    }

    pub open spec fn with_docker(self, docker: DockerView) -> Self {
        ListeningView { docker, ..self }.applied()
    }

    pub open spec fn scan_failed(self, message: Seq<char>) -> Self {
        ListeningView {
            loading_shown: false,
            status_shown: false,
            error_shown: true,
            group_shown: false,
            error_description: Some(message),
            rows: Seq::empty(),
            services: Seq::empty(),
            scanned: false,
            ..self
        }
    }

    /// Exactly one of the four things the section can show is on screen.
    pub open spec fn shows_exactly_one_thing(self) -> bool {
        ||| self.loading_shown && !self.status_shown && !self.error_shown && !self.group_shown
        ||| !self.loading_shown && self.status_shown && !self.error_shown && !self.group_shown
        ||| !self.loading_shown && !self.status_shown && self.error_shown && !self.group_shown
        ||| !self.loading_shown && !self.status_shown && !self.error_shown && self.group_shown
    }

    /// One thing on screen. A confirmed scan shows its services, or the calm
    /// page when it found none, rendered from everything last learned;
    /// without one there is no row and no calm page.
    pub open spec fn well_formed(self) -> bool {
        &&& self.shows_exactly_one_thing()
        &&& self.scanned ==> {
            &&& self.group_shown <==> self.services.len() > 0
            &&& self.status_shown <==> self.services.len() == 0
            &&& self.rows == rendered(self.services, self.open_ports, self.docker.checked())
        }
        &&& !self.scanned ==> {
            &&& self.loading_shown || self.error_shown
            &&& self.services.len() == 0
            &&& self.rows.len() == 0
        }
    }
}

/// A scan that found nothing has no rows.
proof fn nothing_renders_as_nothing(open_ports: Set<u16>, docker: Option<Seq<Published>>)
    ensures
        rendered(Seq::empty(), open_ports, docker) == Seq::<RowView>::empty(),
{
    reveal(Seq::filter);
    assert(rendered(Seq::empty(), open_ports, docker) =~= Seq::<RowView>::empty());
}

/// Every change the section can be told of leaves it showing exactly one
/// thing, and the right one.
pub proof fn every_change_keeps_the_section_well_formed(
    v: ListeningView,
    services: Seq<Service>,
    open_ports: Set<u16>,
    docker: DockerView,
    message: Seq<char>,
)
    requires
        v.well_formed(),
    ensures
        ListeningView::fresh().well_formed(),
        v.with_services(services).well_formed(),
        v.with_open_ports(open_ports).well_formed(),
        v.with_docker(docker).well_formed(),
        v.scan_failed(message).well_formed(),
{
    nothing_renders_as_nothing(v.open_ports, v.docker.checked());
    nothing_renders_as_nothing(open_ports, v.docker.checked());
    nothing_renders_as_nothing(v.open_ports, docker.checked());
    if v.services.len() == 0 {
        assert(v.services =~= Seq::empty());
    }
    if services.len() == 0 {
        assert(services =~= Seq::empty());
    }
}

impl ListeningSection {
    /// A section nothing has been scanned for yet.
    pub fn new() -> (r: Self)
        ensures
            r@ == ListeningView::fresh(),
            r@.well_formed(),
    {
        let r = ListeningSection {
            loading_shown: true,
            status_shown: false,
            error_shown: false,
            group_shown: false,
            error_description: None,
            rows: Vec::new(),
            services: Vec::new(),
            open_ports: HashSet::new(),
            docker: DockerPorts::NotChecked,
            scanned: false,
        };
        assert(r@ =~= ListeningView::fresh());
        r
    }

    fn apply(&mut self)
        ensures
            final(self)@ == old(self)@.applied(),
    {
        if !self.scanned {
            return;
        }
        self.error_shown = false;
        self.loading_shown = false;
        if self.services.len() == 0 {
            self.rows = Vec::new();
            self.group_shown = false;
            self.status_shown = true;
            assert(self@ =~= old(self)@.applied());
            return;
        }
        self.status_shown = false;
        self.group_shown = true;
        self.rows = build_rows(&self.services, &self.open_ports, self.docker.checked());
        assert(self@ =~= old(self)@.applied());
    }

    /// A scan has found these services.
    pub fn set_services(&mut self, services: &[Service])
        requires
            old(self)@.well_formed(),
        ensures
            final(self)@ == old(self)@.with_services(services@),
            final(self)@.well_formed(),
    {
        proof {
            every_change_keeps_the_section_well_formed(
                self@,
                services@,
                Set::empty(),
                DockerView::NotChecked,
                Seq::empty(),
            );
        }
        self.services = copy_services(services);
        self.scanned = true;
        assert(self@ =~= (ListeningView { services: services@, scanned: true, ..old(self)@ }));
        self.apply();
    }

    /// These ports are already open.
    pub fn set_open_ports(&mut self, ports: &[u16])
        requires
            old(self)@.well_formed(),
        ensures
            final(self)@ == old(self)@.with_open_ports(ports@.to_set()),
            final(self)@.well_formed(),
    {
        proof {
            every_change_keeps_the_section_well_formed(
                self@,
                Seq::empty(),
                ports@.to_set(),
                DockerView::NotChecked,
                Seq::empty(),
            );
        }
        let mut open_ports: HashSet<u16> = HashSet::new();
        let n: usize = ports.len();
        for i in 0..n
            invariant
                n == ports@.len(),
                open_ports@ =~= ports@.take(i as int).to_set(),
        {
            let ghost longer = ports@.take(i + 1);
            assert(longer =~= ports@.take(i as int).push(ports@[i as int]));
            assert(longer.to_set() =~= ports@.take(i as int).to_set().insert(ports@[i as int])) by {
                broadcast use vstd::seq_lib::group_seq_properties;

            }
            open_ports.insert(ports[i]);
        }
        assert(ports@.take(n as int) =~= ports@);
        self.open_ports = open_ports;
        assert(self@ =~= (ListeningView { open_ports: ports@.to_set(), ..old(self)@ }));
        self.apply();
    }

    /// Which ports are open could not be confirmed: none is said to be.
    pub fn set_open_ports_unknown(&mut self)
        requires
            old(self)@.well_formed(),
        ensures
            final(self)@ == old(self)@.with_open_ports(Set::empty()),
            final(self)@.well_formed(),
    {
        proof {
            every_change_keeps_the_section_well_formed(
                self@,
                Seq::empty(),
                Set::empty(),
                DockerView::NotChecked,
                Seq::empty(),
            );
        }
        self.open_ports = HashSet::new();
        assert(self@ =~= (ListeningView { open_ports: Set::empty(), ..old(self)@ }));
        self.apply();
    }

    /// Docker publishes these ports, and no others.
    pub fn set_docker_ports(&mut self, published: &[Published])
        requires
            old(self)@.well_formed(),
        ensures
            final(self)@ == old(self)@.with_docker(DockerView::Known(published@)),
            final(self)@.well_formed(),
    {
        proof {
            every_change_keeps_the_section_well_formed(
                self@,
                Seq::empty(),
                Set::empty(),
                DockerView::Known(published@),
                Seq::empty(),
            );
        }
        self.docker = DockerPorts::Known(copy_published(published));
        assert(self@ =~= (ListeningView { docker: DockerView::Known(published@), ..old(self)@ }));
        self.apply();
    }

    /// Asking what Docker publishes came back without an answer.
    pub fn set_docker_unavailable(&mut self)
        requires
            old(self)@.well_formed(),
        ensures
            final(self)@ == old(self)@.with_docker(DockerView::Unavailable),
            final(self)@.well_formed(),
    {
        proof {
            every_change_keeps_the_section_well_formed(
                self@,
                Seq::empty(),
                Set::empty(),
                DockerView::Unavailable,
                Seq::empty(),
            );
        }
        self.docker = DockerPorts::Unavailable;
        assert(self@ =~= (ListeningView { docker: DockerView::Unavailable, ..old(self)@ }));
        self.apply();
    }

    /// The scan failed, with this message.
    pub fn set_scan_failed(&mut self, message: &str)
        ensures
            final(self)@ == old(self)@.scan_failed(message@),
            final(self)@.well_formed(),
    {
        self.services = Vec::new();
        self.scanned = false;
        self.rows = Vec::new();
        self.group_shown = false;
        self.status_shown = false;
        self.loading_shown = false;
        self.error_description = Some(message.to_owned());
        self.error_shown = true;
        assert(self@ =~= old(self)@.scan_failed(message@));
    }

    /// The calm page, while that is what is shown.
    pub fn status_page(&self) -> (r: Option<StatusPage>)
        ensures
            r is Some <==> self@.status_shown,
            r matches Some(page) ==> page@ == calm_page(),
    {
        if self.status_shown {
            Some(
                StatusPage {
                    title: "Nothing else is listening".to_owned(),
                    description: Some(
                        "Other services running on this machine will appear here.".to_owned(),
                    ),
                    icon_name: "network-server-symbolic".to_owned(),
                    error: false,
                },
            )
        } else {
            None
        }
    }

    /// The failure, while that is what is shown.
    pub fn error_page(&self) -> (r: Option<StatusPage>)
        ensures
            r is Some <==> self@.error_shown,
            r matches Some(page) ==> page@ == failure_page(self@.error_description),
    {
        if self.error_shown {
            Some(
                StatusPage {
                    title: "Could not check what's listening".to_owned(),
                    description: copy_text(&self.error_description),
                    icon_name: "dialog-error-symbolic".to_owned(),
                    error: true,
                },
            )
        } else {
            None
        }
    }

    /// The page before the first answer, while that is what is shown.
    pub fn loading_page(&self) -> (r: Option<StatusPage>)
        ensures
            r is Some <==> self@.loading_shown,
            r matches Some(page) ==> page@ == waiting_page(),
    {
        if self.loading_shown {
            Some(
                StatusPage {
                    title: "Checking what's listening…".to_owned(),
                    description: None,
                    icon_name: "content-loading-symbolic".to_owned(),
                    error: false,
                },
            )
        } else {
            None
        }
    }

    pub fn rows(&self) -> (r: &Vec<Row>)
        ensures
            views(r@) == self@.rows,
    {
        &self.rows
    }

    /// The line under the list's title: what an unmarked row means, by what
    /// has come of asking about Docker, whatever has come of scanning.
    pub fn group_description(&self) -> (r: Option<String>)
        ensures
            text_of(r) == self@.docker.note(),
    {
        match self.docker.note() {
            Some(note) => Some(note.to_owned()),
            None => None,
        }
    }

    /// Whether row `index` carries the Docker marking.
    pub fn is_marked_docker(&self, index: usize) -> (r: bool)
        ensures
            r == (index < self@.rows.len() && self@.rows[index as int].docker is Some),
    {
        if index < self.rows.len() {
            assert(self@.rows[index as int] == self.rows@[index as int]@);
            self.rows[index].docker.is_some()
        } else {
            false
        }
    }

    /// Whether row `index` has an Open button.
    pub fn open_button_for(&self, index: usize) -> (r: bool)
        ensures
            r == (index < self@.rows.len() && self@.rows[index as int].open),
    {
        if index < self.rows.len() {
            assert(self@.rows[index as int] == self.rows@[index as int]@);
            self.rows[index].open
        } else {
            false
        }
    }

    /// The port pressing row `index`'s Open button is about; `None` where
    /// there is no button to press.
    pub fn activate_open(&self, index: usize) -> (r: Option<u16>)
        ensures
            r == (if index < self@.rows.len() && self@.rows[index as int].open {
                Some(self@.rows[index as int].port)
            } else {
                None
            }),
    {
        if index < self.rows.len() {
            assert(self@.rows[index as int] == self.rows@[index as int]@);
            if self.rows[index].open {
                return Some(self.rows[index].port);
            }
        }
        None
    }

    /// The published port pressing row `index`'s Forward button is about;
    /// `None` where there is no button to press.
    pub fn forward_button_for(&self, index: usize) -> (r: Option<u16>)
        ensures
            r == (if index < self@.rows.len() {
                self@.rows[index as int].forward
            } else {
                None
            }),
    {
        if index < self.rows.len() {
            assert(self@.rows[index as int] == self.rows@[index as int]@);
            self.rows[index].forward
        } else {
            None
        }
    }
}

impl Default for ListeningSection {
    fn default() -> (r: Self)
        ensures
            r@ == ListeningView::fresh(),
    {
        Self::new()
    }
}

/// A failed scan, and not having scanned, both outlast everything else the
/// section is told: only a scan replaces them.
pub proof fn only_a_scan_moves_the_section(
    v: ListeningView,
    open_ports: Set<u16>,
    docker: DockerView,
)
    requires
        v.well_formed(),
        !v.scanned,
    ensures
        v.with_open_ports(open_ports).error_shown == v.error_shown,
        v.with_open_ports(open_ports).loading_shown == v.loading_shown,
        !v.with_open_ports(open_ports).status_shown,
        v.with_docker(docker).error_shown == v.error_shown,
        v.with_docker(docker).loading_shown == v.loading_shown,
        !v.with_docker(docker).status_shown,
{
}

/// A failed scan is never shown as a scan that found nothing.
pub proof fn a_failed_scan_is_not_an_empty_one(
    v: ListeningView,
    message: Seq<char>,
    open_ports: Set<u16>,
    docker: DockerView,
)
    ensures
        v.scan_failed(message).error_shown,
        v.scan_failed(message).error_description == Some(message),
        v.scan_failed(message).with_open_ports(open_ports).with_docker(docker).error_shown,
        !v.scan_failed(message).with_open_ports(open_ports).with_docker(docker).status_shown,
        failure_page(Some(message)) != calm_page(),
        failure_page(Some(message)) != waiting_page(),
        calm_page() != waiting_page(),
{
    assert(failure_page(Some(message)).error && !calm_page().error);
    assert(calm_page().description is Some && waiting_page().description is None);
}

/// What is on screen: the page shown, the rows, and the line under their
/// title.
pub open spec fn looks_alike(a: ListeningView, b: ListeningView) -> bool {
    &&& a.loading_shown == b.loading_shown
    &&& a.status_shown == b.status_shown
    &&& a.error_shown == b.error_shown
    &&& a.group_shown == b.group_shown
    &&& a.rows == b.rows
    &&& a.error_description == b.error_description
    &&& a.docker.note() == b.docker.note()
}

/// The three things the section is told can arrive in any order: what ends
/// up on screen is the same.
pub proof fn the_order_of_arrival_does_not_matter(
    v: ListeningView,
    services: Seq<Service>,
    open_ports: Set<u16>,
    docker: DockerView,
)
    requires
        v.well_formed(),
    ensures
        looks_alike(
            v.with_services(services).with_open_ports(open_ports),
            v.with_open_ports(open_ports).with_services(services),
        ),
        looks_alike(
            v.with_services(services).with_docker(docker),
            v.with_docker(docker).with_services(services),
        ),
        looks_alike(
            v.with_open_ports(open_ports).with_docker(docker),
            v.with_docker(docker).with_open_ports(open_ports),
        ),
{
}

/// A service porthole cannot see is never said to be private, and a private
/// one is never said to be reachable.
pub proof fn beyond_reach_never_reads_as_private(
    exposed: Service,
    private: Service,
    open_ports: Set<u16>,
)
    requires
        exposed.binding is BeyondReach,
        private.binding is LoopbackOnly,
    ensures
        plain_subtitle(exposed, open_ports) != plain_subtitle(private, open_ports),
        service_row(exposed, open_ports, None).warned,
        !service_row(private, open_ports, None).warned,
        !can_open(exposed, open_ports),
        !can_open(private, open_ports),
{
    reveal_strlit("listening only on this machine — the firewall does not affect it");
    reveal_strlit(
        "reachable over IPv6 — porthole manages IPv4 rules only and \
     cannot open or close it. Run `porthole doctor` to check your IPv6 exposure.",
    );
    assert(LOOPBACK_SUBTITLE@[0] == 'l');
    assert(BEYOND_REACH_SUBTITLE@[0] == 'r');
}

/// Two network-facing sockets on one port, bound to different addresses, read
/// as two sockets, whether or not the port is open and Docker publishes it.
pub proof fn two_sockets_on_a_port_read_as_two(
    one: Service,
    other: Service,
    open_ports: Set<u16>,
    docker: Option<Seq<Published>>,
)
    requires
        network_facing(one.binding),
        network_facing(other.binding),
        one.port == other.port,
        one.protocol == other.protocol,
        one.address@ != other.address@,
    ensures
        subtitle(one, open_ports, docker) != subtitle(other, open_ports, docker),
{
    let a = plain_subtitle(one, open_ports);
    let b = plain_subtitle(other, open_ports);
    let p = "already open · "@;
    if a == b {
        if open_ports.contains(one.port) {
            assert(a.skip(p.len() as int) =~= one.address@);
            assert(b.skip(p.len() as int) =~= other.address@);
        }
        assert(false);
    }
    if let Some(published) = docker_of(one, docker) {
        let tail = " · "@ + docker_words(published);
        let s = subtitle(one, open_ports, docker);
        let t = subtitle(other, open_ports, docker);
        assert(s =~= a + tail);
        assert(t =~= b + tail);
        if s == t {
            assert(s.take(s.len() - tail.len()) =~= a);
            assert(t.take(t.len() - tail.len()) =~= b);
        }
    }
}

/// Nothing having failed yet never reads as a failure, and what has come of
/// scanning or of reading the rules changes nothing about what is said of
/// Docker.
pub proof fn not_checked_is_not_unavailable(
    v: ListeningView,
    services: Seq<Service>,
    open_ports: Set<u16>,
    docker: DockerView,
    message: Seq<char>,
)
    ensures
        v.with_docker(docker).docker.note() == docker.note(),
        v.with_services(services).docker.note() == v.docker.note(),
        v.with_open_ports(open_ports).docker.note() == v.docker.note(),
        v.scan_failed(message).docker.note() == v.docker.note(),
        DockerView::NotChecked.note() != DockerView::Unavailable.note(),
        DockerView::Known(Seq::empty()).note() is None,
        ListeningView::fresh().docker.note() == Some(DOCKER_NOT_CHECKED_NOTE@),
{
    reveal_strlit(
        "Docker information unavailable — the porthole helper \
     could not be reached, or answered with an error, so porthole cannot say whether any of \
     these ports are already published by a container.",
    );
    reveal_strlit(
        "Docker information not checked yet — porthole cannot \
     yet say whether any of these ports are already published by a container.",
    );
    assert(DOCKER_UNAVAILABLE_NOTE@[19] == 'u');
    assert(DOCKER_NOT_CHECKED_NOTE@[19] == 'n');
}

/// An Open button stands exactly where opening could change something: on no
/// service whose port is among the open ones, whatever it is bound to; on
/// every other one bound to all interfaces or to an IPv4 address; and never
/// on one that only this machine reaches, or that only IPv6 does.
pub proof fn an_open_button_only_where_opening_helps(service: Service, open_ports: Set<u16>)
    ensures
        open_ports.contains(service.port) ==> !can_open(service, open_ports),
        !open_ports.contains(service.port) ==> match service.binding {
            Binding::AllInterfaces => can_open(service, open_ports),
            Binding::Specific(_) => can_open(service, open_ports),
            Binding::LoopbackOnly => !can_open(service, open_ports),
            Binding::BeyondReach(_) => !can_open(service, open_ports),
        },
{
}

/// Opening a port takes the Open button off every row of that port and
/// touches no row of another.
pub proof fn opening_a_port_takes_its_buttons_away(
    service: Service,
    open_ports: Set<u16>,
    docker: Option<Seq<Published>>,
    opened: u16,
)
    ensures
        service.port == opened ==> !service_row(
            service,
            open_ports.insert(opened),
            docker,
        ).open,
        service.port != opened ==> service_row(service, open_ports.insert(opened), docker)
            == service_row(service, open_ports, docker),
        service_row(service, open_ports, docker).open ==> !open_ports.contains(service.port),
{
}

/// The rows of a scan are its services, each once and none left out, and each
/// row is about its own service: its port, whether it can be opened, and
/// whether only IPv6 reaches it.
pub proof fn every_service_has_a_row_of_its_own(
    services: Seq<Service>,
    open_ports: Set<u16>,
    docker: Option<Seq<Published>>,
    i: int,
)
    requires
        0 <= i < services.len(),
    ensures
        rendered(services, open_ports, docker).len() == services.len(),
        ordered(services).len() == services.len(),
        ({
            let service = ordered(services)[i];
            let row = rendered(services, open_ports, docker)[i];
            &&& services.contains(service)
            &&& row == service_row(service, open_ports, docker)
            &&& row.port == service.port
            &&& row.open <==> !open_ports.contains(service.port) && (service.binding
                is AllInterfaces || service.binding is Specific)
            &&& row.warned <==> service.binding is BeyondReach
        }),
{
    broadcast use vstd::seq_lib::group_to_multiset_ensures;

    ordering_keeps_every_service(services);
    assert(ordered(services).to_multiset().len() == ordered(services).len());
    assert(services.to_multiset().len() == services.len());
    let service = ordered(services)[i];
    assert(ordered(services).contains(service));
    assert(ordered(services).to_multiset().count(service) > 0);
    assert(services.contains(service));
}

/// What the network can reach and porthole can open comes first, then what
/// only IPv6 reaches, then what only this machine does.
pub proof fn what_can_be_opened_comes_first(services: Seq<Service>, i: int, j: int)
    requires
        0 <= i < j < ordered(services).len(),
    ensures
        ({
            let before = ordered(services)[i].binding;
            let after = ordered(services)[j].binding;
            &&& after is AllInterfaces || after is Specific ==> before is AllInterfaces || before
                is Specific
            &&& after is BeyondReach ==> !(before is LoopbackOnly)
        }),
{
    let before = ordered(services)[i].binding;
    let after = ordered(services)[j].binding;
    assert(rank(before) <= rank(after)) by {
        ordering_is_a_stable_sort(services);
    }
}

/// Within each of the three the order of the scan stays.
pub proof fn each_group_keeps_the_order_of_the_scan(services: Seq<Service>)
    ensures
        ordered(services).filter(|s: Service| s.binding is LoopbackOnly) == services.filter(
            |s: Service| s.binding is LoopbackOnly,
        ),
        ordered(services).filter(|s: Service| s.binding is BeyondReach) == services.filter(
            |s: Service| s.binding is BeyondReach,
        ),
        ordered(services).filter(
            |s: Service| s.binding is AllInterfaces || s.binding is Specific,
        ) == services.filter(|s: Service| s.binding is AllInterfaces || s.binding is Specific),
{
    let private = |s: Service| s.binding is LoopbackOnly;
    let beyond = |s: Service| s.binding is BeyondReach;
    let facing = |s: Service| s.binding is AllInterfaces || s.binding is Specific;
    assert(of_rank(2) =~= private);
    assert(of_rank(1) =~= beyond);
    assert(of_rank(0) =~= facing);
    assert(ordered(services).filter(of_rank(2)) == services.filter(of_rank(2))
        && ordered(services).filter(of_rank(1)) == services.filter(of_rank(1))
        && ordered(services).filter(of_rank(0)) == services.filter(of_rank(0))) by {
        ordering_is_a_stable_sort(services);
    }
}

/// A row's title is its service's port, behind the process that listens on it
/// where that is known.
pub proof fn a_title_names_the_process_and_the_port(service: Service)
    ensures
        exists|port: Seq<char>| #[trigger]
            reads_as(port, service.port as nat) && (match service.process {
                Some(name) => title(service) == name@ + " · "@ + port,
                None => title(service) == port,
            }),
{
    let port = decimal(service.port as nat);
    decimal_reads_back(service.port as nat);
    assert(reads_as(port, service.port as nat));
}

/// What a row says of who can reach it goes by the binding: a service only
/// this machine reaches is said to be private, one only IPv6 reaches is said
/// to be beyond porthole, and any other gives its address, and that it is
/// already open exactly where its port is among the open ones.
pub proof fn a_subtitle_goes_by_the_binding(service: Service, open_ports: Set<u16>)
    ensures
        ({
            let text = subtitle(service, open_ports, None);
            match service.binding {
                Binding::LoopbackOnly => text == LOOPBACK_SUBTITLE@,
                Binding::BeyondReach(_) => text == BEYOND_REACH_SUBTITLE@,
                _ => if open_ports.contains(service.port) {
                    text == "already open · "@ + service.address@
                } else {
                    text == service.address@
                },
            }
        }),
        subtitle(service, open_ports, None) == plain_subtitle(service, open_ports),
{
}

/// Whether entry `i` is the first of a list that Docker publishes at this
/// port and protocol.
pub open spec fn is_first_at(
    list: Seq<Published>,
    port: u16,
    protocol: Protocol,
    i: int,
) -> bool {
    &&& 0 <= i < list.len()
    &&& list[i].host_port == port && list[i].protocol == protocol
    &&& forall|j: int|
        0 <= j < i ==> !((#[trigger] list[j]).host_port == port && list[j].protocol == protocol)
}

/// The entry a row is about is the first of the list at its own port and
/// protocol; there is none exactly where no entry of the list is at both.
pub proof fn the_first_entry_at_a_port_counts(port: u16, protocol: Protocol, list: Seq<Published>)
    ensures
        published_at(port, protocol, list) is None <==> forall|i: int|
            0 <= i < list.len() ==> !((#[trigger] list[i]).host_port == port && list[i].protocol
                == protocol),
        forall|i: int| #[trigger]
            is_first_at(list, port, protocol, i) ==> published_at(port, protocol, list) == Some(
                list[i],
            ),
    decreases list.len(),
{
    if list.len() > 0 {
        let rest = list.drop_first();
        the_first_entry_at_a_port_counts(port, protocol, rest);
        if !(list[0].host_port == port && list[0].protocol == protocol) {
            assert forall|i: int| #[trigger] is_first_at(list, port, protocol, i) implies published_at(
                port,
                protocol,
                list,
            ) == Some(list[i]) by {
                assert(rest[i - 1] == list[i]);
                assert forall|j: int| 0 <= j < i - 1 implies !((#[trigger] rest[j]).host_port
                    == port && rest[j].protocol == protocol) by {
                    assert(list[j + 1] == rest[j]);
                }
                assert(is_first_at(rest, port, protocol, i - 1));
            }
            if published_at(port, protocol, list) is None {
                assert forall|i: int| 0 <= i < list.len() implies !((
                #[trigger] list[i]).host_port == port && list[i].protocol == protocol) by {
                    if i > 0 {
                        assert(rest[i - 1] == list[i]);
                    }
                }
            } else {
                let i = choose|i: int|
                    0 <= i < rest.len() && (#[trigger] rest[i]).host_port == port
                        && rest[i].protocol == protocol;
                assert(list[i + 1] == rest[i]);
            }
        }
    }
}

/// A row is marked as Docker's exactly where the list has an entry at its own
/// port and protocol, and the marking names the address of the first such
/// entry, or every interface where it has none. What the row says without
/// Docker stays, with the marking's words behind it.
pub proof fn a_docker_marking_is_the_first_entrys(
    service: Service,
    open_ports: Set<u16>,
    list: Seq<Published>,
    i: int,
)
    ensures
        ({
            let row = service_row(service, open_ports, Some(list));
            let plain = service_row(service, open_ports, None);
            &&& plain.docker is None
            &&& row.docker is None ==> row.subtitle == plain.subtitle
            &&& row.docker matches Some(words) ==> row.subtitle == plain.subtitle + " · "@ + words
            &&& row.title == plain.title && row.open == plain.open && row.warned == plain.warned
            &&& row.docker is None <==> forall|j: int|
                0 <= j < list.len() ==> !((#[trigger] list[j]).host_port == service.port
                    && list[j].protocol == service.protocol)
            &&& is_first_at(list, service.port, service.protocol, i) ==> (
            match list[i].host_addr {
                Some(addr) => row.docker == Some("docker: published on "@ + dotted(addr)),
                None => row.docker == Some("docker: published on every interface"@),
            })
        }),
{
    the_first_entry_at_a_port_counts(service.port, service.protocol, list);
}

/// A Forward button stands exactly on a TCP service that only this machine
/// reaches and whose first entry in Docker's list is published on an address
/// of 127.0.0.0/8, and it is for the row's own port.
pub proof fn a_forward_button_only_for_a_loopback_container(
    service: Service,
    list: Seq<Published>,
    i: int,
)
    ensures
        can_forward(service, None) is None,
        can_forward(service, Some(list)) matches Some(port) ==> port == service.port
            && service.binding is LoopbackOnly && service.protocol is Tcp,
        is_first_at(list, service.port, service.protocol, i) ==> (can_forward(service, Some(list))
            is Some <==> service.binding is LoopbackOnly && service.protocol is Tcp && (
        list[i].host_addr matches Some(addr) && addr.a == 127)),
        (forall|j: int|
            0 <= j < list.len() ==> !((#[trigger] list[j]).host_port == service.port
                && list[j].protocol == service.protocol)) ==> can_forward(service, Some(list))
            is None,
        forall|open_ports: Set<u16>, docker: Option<Seq<Published>>| #[trigger]
            service_row(service, open_ports, docker).forward == can_forward(service, docker),
{
    the_first_entry_at_a_port_counts(service.port, service.protocol, list);
    published_at_is_at_the_port(service.port, service.protocol, list);
}

/// What is said of Docker under the list goes by what came of asking: nothing
/// once a list is known, and otherwise whether asking has failed or has not
/// come back. Only a known list is looked a port up in.
pub proof fn what_is_said_of_docker_goes_by_the_asking(list: Seq<Published>)
    ensures
        DockerView::Known(list).note() is None,
        DockerView::Known(list).checked() == Some(list),
        DockerView::NotChecked.note() == Some(DOCKER_NOT_CHECKED_NOTE@),
        DockerView::NotChecked.checked() is None,
        DockerView::Unavailable.note() == Some(DOCKER_UNAVAILABLE_NOTE@),
        DockerView::Unavailable.checked() is None,
{
}

/// A scan that found services shows them and nothing else, rendered from
/// everything last learned; one that found none shows the calm page; one that
/// failed shows its own message. What is known of the open ports and of
/// Docker stays through all three, and reaches the rows whenever it arrives.
pub proof fn a_scan_shows_what_it_found(
    v: ListeningView,
    services: Seq<Service>,
    open_ports: Set<u16>,
    docker: DockerView,
    message: Seq<char>,
)
    ensures
        ({
            let w = v.with_services(services);
            &&& w.scanned && w.services == services
            &&& w.open_ports == v.open_ports && w.docker == v.docker
            &&& w.error_description == v.error_description
            &&& !w.loading_shown && !w.error_shown
            &&& w.group_shown <==> services.len() > 0
            &&& w.status_shown <==> services.len() == 0
            &&& services.len() > 0 ==> w.rows == rendered(
                services,
                v.open_ports,
                v.docker.checked(),
            )
            &&& services.len() == 0 ==> w.rows.len() == 0
        }),
        ({
            let w = v.scan_failed(message);
            &&& !w.scanned && w.services.len() == 0 && w.rows.len() == 0
            &&& w.open_ports == v.open_ports && w.docker == v.docker
            &&& w.error_shown && w.error_description == Some(message)
            &&& !w.loading_shown && !w.group_shown && !w.status_shown
        }),
        v.with_open_ports(open_ports).open_ports == open_ports,
        v.with_open_ports(open_ports).services == v.services,
        v.with_open_ports(open_ports).scanned == v.scanned,
        v.with_open_ports(open_ports).docker == v.docker,
        v.with_docker(docker).docker == docker,
        v.with_docker(docker).open_ports == v.open_ports,
        v.with_docker(docker).services == v.services,
        v.with_docker(docker).scanned == v.scanned,
        v.scanned && v.services.len() > 0 ==> v.with_open_ports(open_ports).rows == rendered(
            v.services,
            open_ports,
            v.docker.checked(),
        ),
        v.scanned && v.services.len() > 0 ==> v.with_docker(docker).rows == rendered(
            v.services,
            v.open_ports,
            docker.checked(),
        ),
        !v.scanned ==> v.with_open_ports(open_ports) == (ListeningView { open_ports, ..v }),
        !v.scanned ==> v.with_docker(docker) == (ListeningView { docker, ..v }),
        v.scanned ==> v.with_open_ports(open_ports) == (ListeningView {
            open_ports,
            ..v
        }).with_services(v.services),
        v.scanned ==> v.with_docker(docker) == (ListeningView { docker, ..v }).with_services(
            v.services,
        ),
        ListeningView::fresh().loading_shown,
        !ListeningView::fresh().status_shown,
        !ListeningView::fresh().error_shown,
        !ListeningView::fresh().group_shown,
        !ListeningView::fresh().scanned,
        ListeningView::fresh().rows.len() == 0,
        ListeningView::fresh().open_ports == Set::<u16>::empty(),
        ListeningView::fresh().docker == DockerView::NotChecked,
{
}

/// Only the failure page is styled as an error, and it says what went wrong
/// in the words it was given.
pub proof fn only_the_failure_page_is_an_error(description: Option<Seq<char>>)
    ensures
        failure_page(description).error,
        failure_page(description).description == description,
        failure_page(description).title == "Could not check what's listening"@,
        failure_page(description).icon_name == "dialog-error-symbolic"@,
        !calm_page().error,
        calm_page().title == "Nothing else is listening"@,
        calm_page().icon_name == "network-server-symbolic"@,
        !waiting_page().error,
        waiting_page().title == "Checking what's listening…"@,
        waiting_page().icon_name == "content-loading-symbolic"@,
        waiting_page().description is None,
{
}

/// Looking at what is known of Docker, or at a page, shows what it holds.
pub proof fn what_is_looked_at_is_what_is_held(docker: DockerPorts, page: StatusPage)
    ensures
        docker is NotChecked <==> docker@ is NotChecked,
        docker is Unavailable <==> docker@ is Unavailable,
        docker matches DockerPorts::Known(list) ==> docker@ == DockerView::Known(list@),
        page@.title == page.title@,
        page@.icon_name == page.icon_name@,
        page@.error == page.error,
        page.description matches Some(text) ==> page@.description == Some(text@),
        page.description is None ==> page@.description is None,
{
}

} // verus!
