//! The decisions that relay UDP ports

use vstd::prelude::*;

use crate::address::{AddressFamily, SocketAddress};
use crate::command::RelayCommand;
use crate::error::{ChannelError, IoFailure, RelayPortError};
use crate::relay::{command_result, spec_command_result};
use crate::relay::connections::{spec_route, Connections, Route};

verus! {

/// Maximum UDP buffer size
pub const MAX_PKT_SIZE: usize = 10240;

/// Maximum unidirectional link idle time, in milliseconds
pub const UDP_TTL_MS: u64 = 180000;

/// Abstraction for initiating the relay builder.
#[derive(Debug)]
pub struct RelaySocket {}

/// Builder abstraction for composing a UDP relay.
#[derive(Copy, Clone, Debug)]
pub struct RelaySocketBuilder(RelayInner);

#[derive(Copy, Clone, Debug)]
struct RelayInner {
    so_reuseaddr: bool,
}

impl RelaySocket {
    /// Obtain a builder object to begin composing the relay socket.
    /// SO_REUSEADDR starts disabled.
    pub fn build() -> (b: RelaySocketBuilder)
        ensures
            b.so_reuseaddr() == false,
    {
        RelaySocketBuilder(RelayInner { so_reuseaddr: false })
    }
}

/// How a UDP socket for a given local address is to be created: its address
/// family, whether SO_REUSEADDR is switched on, and that it does not block;
/// it is then bound to that address.
#[derive(Copy, Clone, Debug, PartialEq, Eq, Structural)]
pub struct UdpSocketPlan {
    pub family: AddressFamily,
    pub set_reuse_address: bool,
    pub nonblocking: bool,
    pub bind_to: SocketAddress,
}

impl RelaySocketBuilder {
    pub closed spec fn spec_so_reuseaddr(&self) -> bool {
        self.0.so_reuseaddr
    }

    /// Change the SO_REUSEADDR option on the UDP socket.
    /// If reuseaddr is `true` the option will
    /// be set on the created socket. If it is `false` the option will be disabled.
    /// Returns the builder, so that calls can be chained.
    pub fn set_so_reuseaddr(&mut self, reuseaddr: bool) -> (r: &mut Self)
        ensures
            r.so_reuseaddr() == reuseaddr,
            *final(self) == *final(r),
    {
        self.0.so_reuseaddr = reuseaddr;
        self
    }

    /// Get the builder configuration for setting SO_REUSEADDR on the UDP socket.
    #[verifier::when_used_as_spec(spec_so_reuseaddr)]
    pub fn so_reuseaddr(&self) -> (r: bool)
        ensures
            r == self.spec_so_reuseaddr(),
    {
        self.0.so_reuseaddr
    }

    /// The socket that this builder creates and binds to `addr`: of the address's
    /// family, with SO_REUSEADDR switched on exactly where the builder asks for it,
    /// non-blocking, bound to `addr`.
    pub fn socket_plan(&self, addr: &SocketAddress) -> (plan: UdpSocketPlan)
        ensures
            plan.family == addr.spec_family(),
            (plan.family == AddressFamily::Ipv4) == (*addr is V4),
            plan.set_reuse_address == self.so_reuseaddr(),
            plan.nonblocking,
            plan.bind_to == *addr,
    {
        UdpSocketPlan {
            family: addr.family(),
            set_reuse_address: self.0.so_reuseaddr,
            nonblocking: true,
            bind_to: *addr,
        }
    }
}

pub open spec fn spec_client_bind_address(bind_addr: Option<SocketAddress>) -> SocketAddress {
    match bind_addr {
        Some(b) => b,
        None => SocketAddress::V4 { ip: 0, port: 0 },
    }
}

/// The local address that the socket of a new client link is bound to: the
/// given one, or else the IPv4 wildcard address with port 0 (any interface,
/// a port that the system picks).
pub fn client_bind_address(bind_addr: Option<SocketAddress>) -> (a: SocketAddress)
    ensures
        a == spec_client_bind_address(bind_addr),
        bind_addr matches Some(b) ==> a == b,
        bind_addr is None ==> a == (SocketAddress::V4 { ip: 0, port: 0 }),
{
    match bind_addr {
        Some(b) => b,
        None => SocketAddress::V4 { ip: 0, port: 0 },
    }
}

/// How a new link socket is to be set up: created and bound as planned, then
/// connected to `connect_to`.
#[derive(Copy, Clone, Debug, PartialEq, Eq, Structural)]
pub struct UdpLinkPlan {
    pub socket: UdpSocketPlan,
    pub connect_to: SocketAddress,
}

/// Whether a peer's link is the one already held for it, or a new one to set up.
#[derive(Debug, PartialEq, Eq)]
pub enum LinkPlan<L> {
    Reuse(L),
    Create(UdpLinkPlan),
}

/// The link back to the client at `client`: the one held for it, or else a new
/// socket that has SO_REUSEADDR switched on (so that it can share the relay's own
/// address), is bound to the address that [`client_bind_address`] gives for
/// `bind_addr`, and is connected to the client.
pub open spec fn spec_client_link_plan<V>(
    clients: Map<SocketAddress, V>,
    client: SocketAddress,
    bind_addr: Option<SocketAddress>,
) -> LinkPlan<V> {
    if clients.dom().contains(client) {
        LinkPlan::Reuse(clients[client])
    } else {
        let local = spec_client_bind_address(bind_addr);
        LinkPlan::Create(
            UdpLinkPlan {
                socket: UdpSocketPlan {
                    family: local.spec_family(),
                    set_reuse_address: true,
                    nonblocking: true,
                    bind_to: local,
                },
                connect_to: client,
            },
        )
    }
}

/// The link to the remote side for the client at `client`: the one held for it,
/// or else a new socket bound to the IPv4 wildcard address with a port that the
/// system picks, without SO_REUSEADDR, and connected to `remote`.
pub open spec fn spec_remote_link_plan<V>(
    remotes: Map<SocketAddress, V>,
    client: SocketAddress,
    remote: SocketAddress,
) -> LinkPlan<V> {
    if remotes.dom().contains(client) {
        LinkPlan::Reuse(remotes[client])
    } else {
        let local = SocketAddress::V4 { ip: 0, port: 0 };
        LinkPlan::Create(
            UdpLinkPlan {
                socket: UdpSocketPlan {
                    family: AddressFamily::Ipv4,
                    set_reuse_address: false,
                    nonblocking: true,
                    bind_to: local,
                },
                connect_to: remote,
            },
        )
    }
}

/// The link back to the client at `client` (see [`spec_client_link_plan`]).
pub fn client_link_plan<V>(
    links: &Connections<V>,
    client: SocketAddress,
    bind_addr: Option<SocketAddress>,
) -> (plan: LinkPlan<&V>)
    ensures
        match plan {
            LinkPlan::Reuse(l) => spec_client_link_plan(links.clients(), client, bind_addr)
                == LinkPlan::Reuse(*l),
            LinkPlan::Create(p) => spec_client_link_plan(links.clients(), client, bind_addr)
                == LinkPlan::<V>::Create(p),
        },
        match plan {
            LinkPlan::Reuse(l) => links.clients().dom().contains(client) && *l
                == links.clients()[client],
            LinkPlan::Create(p) => {
                &&& !links.clients().dom().contains(client)
                &&& (p.socket.family == AddressFamily::Ipv4) == (p.socket.bind_to is V4)
                &&& bind_addr matches Some(b) ==> p.socket.bind_to == b
                &&& bind_addr is None ==> p.socket.bind_to == (SocketAddress::V4 { ip: 0, port: 0 })
                &&& p.socket.set_reuse_address
                &&& p.socket.nonblocking
                &&& p.connect_to == client
            },
        },
{
    match links.client_link(&client) {
        Some(l) => LinkPlan::Reuse(l),
        None => {
            let local = client_bind_address(bind_addr);
            let mut builder = RelaySocket::build();
            builder.set_so_reuseaddr(true);
            LinkPlan::Create(UdpLinkPlan { socket: builder.socket_plan(&local), connect_to: client })
        },
    }
}

/// The link to the remote side for the client at `client` (see [`spec_remote_link_plan`]).
pub fn remote_link_plan<V>(links: &Connections<V>, client: SocketAddress, remote: SocketAddress) -> (plan:
    LinkPlan<&V>)
    ensures
        match plan {
            LinkPlan::Reuse(l) => spec_remote_link_plan(links.remotes(), client, remote)
                == LinkPlan::Reuse(*l),
            LinkPlan::Create(p) => spec_remote_link_plan(links.remotes(), client, remote)
                == LinkPlan::<V>::Create(p),
        },
        match plan {
            LinkPlan::Reuse(l) => links.remotes().dom().contains(client) && *l
                == links.remotes()[client],
            LinkPlan::Create(p) => {
                &&& !links.remotes().dom().contains(client)
                &&& p.socket.family == AddressFamily::Ipv4
                &&& p.socket.bind_to == (SocketAddress::V4 { ip: 0, port: 0 })
                &&& !p.socket.set_reuse_address
                &&& p.socket.nonblocking
                &&& p.connect_to == remote
            },
        },
{
    match links.remote_link(&client) {
        Some(l) => LinkPlan::Reuse(l),
        None => {
            let local = SocketAddress::V4 { ip: 0, port: 0 };
            let builder = RelaySocket::build();
            LinkPlan::Create(UdpLinkPlan { socket: builder.socket_plan(&local), connect_to: remote })
        },
    }
}

/// A link that has been set up for a client is the one planned for it from then
/// on: asking twice for a client's link gives the same link.
pub proof fn law_held_link_is_reused<V>(
    clients: Map<SocketAddress, V>,
    remotes: Map<SocketAddress, V>,
    client: SocketAddress,
    client_link: V,
    remote_link: V,
    bind_addr: Option<SocketAddress>,
    remote: SocketAddress,
)
    ensures
        spec_client_link_plan(clients.insert(client, client_link), client, bind_addr)
            == LinkPlan::Reuse(client_link),
        spec_remote_link_plan(remotes.insert(client, remote_link), client, remote)
            == LinkPlan::Reuse(remote_link),
{
}

/// A peer with no links gets a new link back to itself and a new link to the
/// remote side, each connected to the right end.
pub proof fn law_new_peer_gets_its_own_links<V>(
    clients: Map<SocketAddress, V>,
    remotes: Map<SocketAddress, V>,
    client: SocketAddress,
    bind_addr: Option<SocketAddress>,
    remote: SocketAddress,
)
    requires
        !clients.dom().contains(client),
        !remotes.dom().contains(client),
    ensures
        (spec_client_link_plan(clients, client, bind_addr) matches LinkPlan::Create(p)
            && p.connect_to == client && p.socket.set_reuse_address),
        (spec_remote_link_plan(remotes, client, remote) matches LinkPlan::Create(p) && p.connect_to
            == remote),
{
}

/// The two links whose traffic one relay passes between each other: the link back
/// to `client` and the link to the remote side held for that same client, once
/// both are held.
pub open spec fn spec_link_pair<V>(
    clients: Map<SocketAddress, V>,
    remotes: Map<SocketAddress, V>,
    client: SocketAddress,
) -> Option<(V, V)> {
    if clients.dom().contains(client) && remotes.dom().contains(client) {
        Some((clients[client], remotes[client]))
    } else {
        None
    }
}

/// The two links whose traffic one relay passes between each other (see [`spec_link_pair`]).
pub fn link_pair<'a, V>(links: &'a Connections<V>, client: &SocketAddress) -> (pair: Option<(&'a V, &'a V)>)
    ensures
        match pair {
            Some((c, r)) => spec_link_pair(links.clients(), links.remotes(), *client) == Some((*c, *r)),
            None => spec_link_pair(links.clients(), links.remotes(), *client) is None,
        },
{
    match links.client_link(client) {
        Some(c) => match links.remote_link(client) {
            Some(r) => Some((c, r)),
            None => None,
        },
        None => None,
    }
}

/// Each client's traffic keeps to its own links. Take two different clients with
/// no links, served by a relay bound at `my_addr` that relays to `remote`, and
/// open the links of the first, then of the second, as planned. Each gets a new
/// link back to itself (bound to the relay's address, with SO_REUSEADDR) and a
/// new link to the remote side: the second client's links are not the first's.
/// Afterwards each client's datagrams go to its own remote link, never back over
/// a link to a client, and the relay of each client's traffic joins that client's
/// own two links, so that what the remote side sends over a client's remote link
/// is passed only to that client.
pub proof fn law_clients_keep_to_their_own_links<V>(
    clients: Map<SocketAddress, V>,
    remotes: Map<SocketAddress, V>,
    first: SocketAddress,
    second: SocketAddress,
    my_addr: SocketAddress,
    remote: SocketAddress,
    first_client_link: V,
    first_remote_link: V,
    second_client_link: V,
    second_remote_link: V,
)
    requires
        first != second,
        !clients.dom().contains(first),
        !clients.dom().contains(second),
        !remotes.dom().contains(first),
        !remotes.dom().contains(second),
    ensures
        spec_client_link_plan(clients, first, Some(my_addr)) matches LinkPlan::Create(p) && p.connect_to
            == first && p.socket.bind_to == my_addr && p.socket.set_reuse_address,
        spec_remote_link_plan(remotes, first, remote) matches LinkPlan::Create(p) && p.connect_to
            == remote,
        spec_client_link_plan(clients.insert(first, first_client_link), second, Some(my_addr))
            matches LinkPlan::Create(p) && p.connect_to == second && p.socket.bind_to == my_addr
            && p.socket.set_reuse_address,
        spec_remote_link_plan(remotes.insert(first, first_remote_link), second, remote)
            matches LinkPlan::Create(p) && p.connect_to == remote,
        spec_route(
            clients.insert(first, first_client_link).insert(second, second_client_link),
            remotes.insert(first, first_remote_link).insert(second, second_remote_link),
            first,
        ) == Route::Remote(first_remote_link),
        spec_route(
            clients.insert(first, first_client_link).insert(second, second_client_link),
            remotes.insert(first, first_remote_link).insert(second, second_remote_link),
            second,
        ) == Route::Remote(second_remote_link),
        spec_link_pair(
            clients.insert(first, first_client_link).insert(second, second_client_link),
            remotes.insert(first, first_remote_link).insert(second, second_remote_link),
            first,
        ) == Some((first_client_link, first_remote_link)),
        spec_link_pair(
            clients.insert(first, first_client_link).insert(second, second_client_link),
            remotes.insert(first, first_remote_link).insert(second, second_remote_link),
            second,
        ) == Some((second_client_link, second_remote_link)),
{
}

/// A peer whose remote link is held never has its datagrams sent back over a
/// link to a client: they go to its remote link.
pub proof fn law_linked_peer_is_not_echoed<V>(
    clients: Map<SocketAddress, V>,
    remotes: Map<SocketAddress, V>,
    peer: SocketAddress,
)
    requires
        remotes.dom().contains(peer),
    ensures
        spec_route(clients, remotes, peer) == Route::Remote(remotes[peer]),
        !(spec_route(clients, remotes, peer) is Client),
{
}

/// What happened to a UDP relay that serves datagrams arriving at its bound socket,
/// besides the arrival of a datagram (see [`on_datagram`]).
#[derive(Debug, PartialEq, Eq)]
pub enum ServeEvent {
    /// A datagram from a known peer was passed over that peer's link; the
    /// outcome of that send.
    Forwarded(Result<usize, IoFailure>),
    /// Setting up the links of a new peer failed.
    LinkFailed(IoFailure),
    /// A new peer's first datagram was sent over its remote link; the outcome
    /// of that send.
    FirstSent(Result<usize, IoFailure>),
    /// The relay of a new peer's traffic has been started.
    Spawned,
    /// The command channel delivered this.
    Command(Result<RelayCommand, ChannelError>),
}

/// What a UDP relay that serves its bound socket does next.
#[derive(Debug, PartialEq, Eq)]
pub enum ServeStep<L> {
    /// Wait for whichever comes first: a datagram at the bound socket or a command.
    Receive,
    /// Send this datagram over this link.
    Forward(L, Vec<u8>),
    /// A datagram came from a peer with no links: set up its links (see
    /// [`client_link_plan`], [`remote_link_plan`]), then send `first` over its
    /// remote link.
    Open { client: SocketAddress, first: Vec<u8> },
    /// Start the relay of the new peer's traffic while watching the command channel.
    Spawn,
    /// Stop serving, with this result.
    Finish(Result<(), RelayPortError>),
}

/// Where a datagram that arrived at the bound socket goes: a failed receive ends
/// the relay with that failure; a datagram from a peer with a link goes unchanged
/// over the link that [`spec_route`] picks; a datagram from a peer with no link
/// opens its links and is then itself sent, unchanged, to the remote side.
pub fn on_datagram<V>(links: &Connections<V>, received: Result<(Vec<u8>, SocketAddress), IoFailure>) -> (step:
    ServeStep<&V>)
    ensures
        match received {
            Err(f) => step == ServeStep::<&V>::Finish(Err(RelayPortError::IoError(f))),
            Ok((d, peer)) => match spec_route(links.clients(), links.remotes(), peer) {
                Route::Remote(l) => step matches ServeStep::Forward(x, out) && *x == l && out@ == d@,
                Route::Client(l) => step matches ServeStep::Forward(x, out) && *x == l && out@ == d@,
                Route::New => step matches ServeStep::Open { client, first } && client == peer
                    && first@ == d@,
            },
        },
{
    match received {
        Err(f) => ServeStep::Finish(Err(RelayPortError::IoError(f))),
        Ok((d, peer)) => match links.route(&peer) {
            Route::Remote(l) => ServeStep::Forward(l, d),
            Route::Client(l) => ServeStep::Forward(l, d),
            Route::New => ServeStep::Open { client: peer, first: d },
        },
    }
}

pub open spec fn spec_serve_step<L>(event: ServeEvent) -> ServeStep<L> {
    match event {
        ServeEvent::Forwarded(Ok(_)) => ServeStep::Receive,
        ServeEvent::Forwarded(Err(f)) => ServeStep::Finish(Err(RelayPortError::IoError(f))),
        ServeEvent::LinkFailed(f) => ServeStep::Finish(Err(RelayPortError::IoError(f))),
        ServeEvent::FirstSent(Ok(_)) => ServeStep::Spawn,
        ServeEvent::FirstSent(Err(f)) => ServeStep::Finish(Err(RelayPortError::IoError(f))),
        ServeEvent::Spawned => ServeStep::Receive,
        ServeEvent::Command(received) => ServeStep::Finish(spec_command_result(received)),
    }
}

/// The UDP relay's decision on each event other than a datagram's arrival:
/// every failed socket operation ends it with that failure; a datagram passed on
/// leads to the next wait; once a new peer's first datagram has gone out, the
/// relay of its traffic is started while the command channel is watched, and the
/// next wait follows; a shutdown command ends it cleanly, and a failure of the
/// command channel ends it with that failure.
pub fn serve_step<L>(event: ServeEvent) -> (step: ServeStep<L>)
    ensures
        step == spec_serve_step::<L>(event),
        event matches ServeEvent::Forwarded(Err(f)) ==> step == ServeStep::<L>::Finish(
            Err(RelayPortError::IoError(f)),
        ),
        event matches ServeEvent::LinkFailed(f) ==> step == ServeStep::<L>::Finish(
            Err(RelayPortError::IoError(f)),
        ),
        event matches ServeEvent::FirstSent(Err(f)) ==> step == ServeStep::<L>::Finish(
            Err(RelayPortError::IoError(f)),
        ),
        event matches ServeEvent::Command(Err(e)) ==> step == ServeStep::<L>::Finish(
            Err(RelayPortError::InternalCommunicationError(e)),
        ),
        event matches ServeEvent::Command(Ok(_)) ==> step == ServeStep::<L>::Finish(Ok(())),
        event matches ServeEvent::Forwarded(Ok(_)) ==> step == ServeStep::<L>::Receive,
        event matches ServeEvent::FirstSent(Ok(_)) ==> step == ServeStep::<L>::Spawn,
        event is Spawned ==> step == ServeStep::<L>::Receive,
{
    match event {
        ServeEvent::Forwarded(Ok(_)) => ServeStep::Receive,
        ServeEvent::Forwarded(Err(f)) => ServeStep::Finish(Err(RelayPortError::IoError(f))),
        ServeEvent::LinkFailed(f) => ServeStep::Finish(Err(RelayPortError::IoError(f))),
        ServeEvent::FirstSent(Ok(_)) => ServeStep::Spawn,
        ServeEvent::FirstSent(Err(f)) => ServeStep::Finish(Err(RelayPortError::IoError(f))),
        ServeEvent::Spawned => ServeStep::Receive,
        ServeEvent::Command(received) => ServeStep::Finish(command_result(received)),
    }
}

/// The UDP relay does not return unless a shutdown command arrives or it meets an
/// error, which it returns: it stops cleanly exactly on a shutdown command, and
/// every other stop carries a socket failure or a failure of the command channel.
pub proof fn law_serve_stops_only_on_command_or_error<L>(event: ServeEvent)
    ensures
        spec_serve_step::<L>(event) matches ServeStep::Finish(Ok(_)) ==> event is Command,
        spec_serve_step::<L>(event) matches ServeStep::Finish(Err(e)) ==> (e is IoError
            || e is InternalCommunicationError),
        (spec_serve_step::<L>(event) == ServeStep::<L>::Finish(Ok(()))) <==> (event
            == ServeEvent::Command(Ok(RelayCommand::Shutdown))),
{
    match event {
        ServeEvent::Command(Ok(c)) => {
            match c {
                RelayCommand::Shutdown => {},
            }
        },
        _ => {},
    }
}

/// What a one-way datagram relay does next.
#[derive(Debug, PartialEq, Eq)]
pub enum ForwardStep {
    /// Send this datagram to the destination link.
    Send(Vec<u8>),
    /// Wait for the next datagram, command, or the end of the idle period.
    Receive,
    /// The link has been idle for too long: hand both sockets of the link to
    /// the relay, so that it forgets them.
    Expire,
    /// Stop relaying, with this result.
    Finish(Result<usize, RelayPortError>),
}

/// The state of a one-way relay of datagrams between two linked sockets: the
/// number of bytes sent to the destination so far, the time (in milliseconds
/// on the caller's clock) at which the link counts as idle, whether a datagram
/// is being sent, and (as ghost state) every datagram received so far.
pub struct DatagramForward {
    forwarded: usize,
    idle_deadline: u64,
    sending: bool,
    received_log: Ghost<Seq<Seq<u8>>>,
}

impl DatagramForward {
    #[verifier::type_invariant]
    spec fn inv(self) -> bool {
        self.sending ==> self.received_log@.len() > 0
    }

    /// The number of bytes sent so far.
    pub closed spec fn total(&self) -> nat {
        self.forwarded as nat
    }

    /// The time at which the link counts as idle.
    pub closed spec fn deadline(&self) -> nat {
        self.idle_deadline as nat
    }

    /// Is a datagram being sent?
    pub closed spec fn spec_sending(&self) -> bool {
        self.sending
    }

    /// Every datagram received so far, in order.
    pub closed spec fn received(&self) -> Seq<Seq<u8>> {
        self.received_log@
    }

    /// Every datagram sent on so far, in order.
    pub closed spec fn sent(&self) -> Seq<Seq<u8>> {
        if self.sending {
            self.received_log@.drop_last()
        } else {
            self.received_log@
        }
    }

    /// A relay that starts at time `now`: nothing received or sent, idle after `UDP_TTL_MS`.
    pub fn new(now: u64) -> (f: DatagramForward)
        requires
            now + UDP_TTL_MS <= u64::MAX,
        ensures
            f.total() == 0,
            f.deadline() == now + UDP_TTL_MS,
            !f.sending(),
            f.received() == Seq::<Seq<u8>>::empty(),
            f.sent() == Seq::<Seq<u8>>::empty(),
    {
        DatagramForward {
            forwarded: 0,
            idle_deadline: now + UDP_TTL_MS,
            sending: false,
            received_log: Ghost(Seq::empty()),
        }
    }

    /// The number of bytes sent so far.
    pub fn forwarded(&self) -> (n: usize)
        ensures
            n == self.total(),
    {
        self.forwarded
    }

    /// The time at which the link counts as idle.
    pub fn idle_deadline(&self) -> (t: u64)
        ensures
            t == self.deadline(),
    {
        self.idle_deadline
    }

    /// Is a datagram being sent?
    #[verifier::when_used_as_spec(spec_sending)]
    pub fn sending(&self) -> (b: bool)
        ensures
            b == self.spec_sending(),
    {
        self.sending
    }

    /// What to do with the outcome of a receive at time `now`: a datagram is
    /// sent on unchanged and starts a new idle period; an empty datagram, or a
    /// failed receive, ends the relay with the number of bytes sent so far. A
    /// receive fills at most the buffer, so at most `MAX_PKT_SIZE` bytes come from it.
    pub fn after_receive(&mut self, outcome: Result<Vec<u8>, IoFailure>, now: u64) -> (step: ForwardStep)
        requires
            !old(self).sending(),
            outcome matches Ok(d) ==> d@.len() <= MAX_PKT_SIZE,
            now + UDP_TTL_MS <= u64::MAX,
        ensures
            final(self).total() == old(self).total(),
            final(self).sent() == old(self).sent(),
            match outcome {
                Ok(d) => if d@.len() == 0 {
                    &&& step == ForwardStep::Finish(Ok(old(self).total() as usize))
                    &&& final(self).deadline() == old(self).deadline()
                    &&& final(self).received() == old(self).received()
                    &&& !final(self).sending()
                } else {
                    &&& step matches ForwardStep::Send(datagram) && datagram@ == d@
                    &&& final(self).deadline() == now + UDP_TTL_MS
                    &&& final(self).received() == old(self).received().push(d@)
                    &&& final(self).sending()
                },
                Err(_) => {
                    &&& step == ForwardStep::Finish(Ok(old(self).total() as usize))
                    &&& final(self).deadline() == old(self).deadline()
                    &&& final(self).received() == old(self).received()
                    &&& !final(self).sending()
                },
            },
    {
        proof {
            use_type_invariant(&*self);
        }
        match outcome {
            Ok(d) => {
                if d.len() == 0 {
                    ForwardStep::Finish(Ok(self.forwarded))
                } else {
                    let ghost log = self.received_log@.push(d@);
                    *self = DatagramForward {
                        forwarded: self.forwarded,
                        idle_deadline: now + UDP_TTL_MS,
                        sending: true,
                        received_log: Ghost(log),
                    };
                    proof {
                        assert(log.drop_last() =~= old(self).received_log@);
                    }
                    ForwardStep::Send(d)
                }
            },
            Err(_) => ForwardStep::Finish(Ok(self.forwarded)),
        }
    }

    /// Record the outcome of sending the datagram handed out by the last
    /// receive: the bytes that were sent are added to the count, every datagram
    /// received has now been sent on, and the relay waits for the next one; a
    /// failed send ends the relay with that failure.
    pub fn after_send(&mut self, outcome: Result<usize, IoFailure>) -> (step: ForwardStep)
        requires
            old(self).sending(),
            outcome matches Ok(m) ==> old(self).total() + m <= usize::MAX,
        ensures
            final(self).deadline() == old(self).deadline(),
            final(self).received() == old(self).received(),
            match outcome {
                Ok(m) => {
                    &&& final(self).total() == old(self).total() + m
                    &&& !final(self).sending()
                    &&& final(self).sent() == final(self).received()
                    &&& step == ForwardStep::Receive
                },
                Err(f) => {
                    &&& final(self).total() == old(self).total()
                    &&& final(self).sent() == old(self).sent()
                    &&& step == ForwardStep::Finish(Err(RelayPortError::IoError(f)))
                },
            },
    {
        match outcome {
            Ok(m) => {
                let ghost log = self.received_log@;
                *self = DatagramForward {
                    forwarded: self.forwarded + m,
                    idle_deadline: self.idle_deadline,
                    sending: false,
                    received_log: Ghost(log),
                };
                ForwardStep::Receive
            },
            Err(f) => ForwardStep::Finish(Err(RelayPortError::IoError(f))),
        }
    }

    /// What to do with what the command channel delivered: a shutdown ends the
    /// relay with a count of 0; a channel failure ends it with that failure.
    pub fn after_command(&self, received: Result<RelayCommand, ChannelError>) -> (step: ForwardStep)
        ensures
            match received {
                Ok(RelayCommand::Shutdown) => step == ForwardStep::Finish(Ok(0)),
                Err(e) => step == ForwardStep::Finish(
                    Err(RelayPortError::InternalCommunicationError(e)),
                ),
            },
    {
        match received {
            Ok(RelayCommand::Shutdown) => ForwardStep::Finish(Ok(0)),
            Err(e) => ForwardStep::Finish(Err(RelayPortError::InternalCommunicationError(e))),
        }
    }

    /// What to do when the wait for a datagram is interrupted by the clock at
    /// time `now`: the link expires once its idle deadline has come, and
    /// otherwise the relay keeps waiting.
    pub fn after_wait(&self, now: u64) -> (step: ForwardStep)
        ensures
            now >= self.deadline() ==> step == ForwardStep::Expire,
            now < self.deadline() ==> step == ForwardStep::Receive,
    {
        if now >= self.idle_deadline {
            ForwardStep::Expire
        } else {
            ForwardStep::Receive
        }
    }

    /// How the relay ends once both sockets of an expired link have been handed
    /// over to be forgotten: with a count of 0, or, where handing them over
    /// failed, with an `Unknown` error that describes why.
    pub fn after_expire(&self, handed_over: Result<(), String>) -> (step: ForwardStep)
        ensures
            handed_over is Ok ==> step == ForwardStep::Finish(Ok(0)),
            handed_over matches Err(msg) ==> step == ForwardStep::Finish(
                Err(RelayPortError::Unknown(msg)),
            ),
    {
        match handed_over {
            Ok(()) => ForwardStep::Finish(Ok(0)),
            Err(msg) => ForwardStep::Finish(Err(RelayPortError::Unknown(msg))),
        }
    }
}

/// Every failed socket operation ends the serving of the bound socket with that
/// very failure, and every command-channel failure ends it with that very
/// failure: none of them is passed over, whatever the failure is.
pub proof fn law_serve_failures_end_serving<L>(f: IoFailure, e: ChannelError, sent: usize)
    ensures
        spec_serve_step::<L>(ServeEvent::Forwarded(Err(f))) == ServeStep::<L>::Finish(
            Err(RelayPortError::IoError(f)),
        ),
        spec_serve_step::<L>(ServeEvent::LinkFailed(f)) == ServeStep::<L>::Finish(
            Err(RelayPortError::IoError(f)),
        ),
        spec_serve_step::<L>(ServeEvent::FirstSent(Err(f))) == ServeStep::<L>::Finish(
            Err(RelayPortError::IoError(f)),
        ),
        spec_serve_step::<L>(ServeEvent::Command(Err(e))) == ServeStep::<L>::Finish(
            Err(RelayPortError::InternalCommunicationError(e)),
        ),
        spec_serve_step::<L>(ServeEvent::Command(Ok(RelayCommand::Shutdown))) == ServeStep::<
            L,
        >::Finish(Ok(())),
        spec_serve_step::<L>(ServeEvent::Forwarded(Ok(sent))) == ServeStep::<L>::Receive,
        spec_serve_step::<L>(ServeEvent::FirstSent(Ok(sent))) == ServeStep::<L>::Spawn,
        spec_serve_step::<L>(ServeEvent::Spawned) == ServeStep::<L>::Receive,
{
}

/// Whatever the command channel delivers ends the serving of the bound socket.
pub proof fn law_serve_command_always_ends<L>(received: Result<RelayCommand, ChannelError>)
    ensures
        spec_serve_step::<L>(ServeEvent::Command(received)) is Finish,
{
}

/// A new link socket has the family of the address it is bound to, and is bound
/// to and connected to the right addresses: the link back to a client with no
/// link is bound to the address that [`client_bind_address`] gives (the relay's
/// own address where one is given, the IPv4 wildcard otherwise), with
/// SO_REUSEADDR, non-blocking, and connected to the client; the link to the
/// remote side is bound to the IPv4 wildcard without SO_REUSEADDR, non-blocking,
/// and connected to the remote side. A link already held is reused as it is.
pub proof fn law_link_plans<V>(
    clients: Map<SocketAddress, V>,
    remotes: Map<SocketAddress, V>,
    client: SocketAddress,
    bind_addr: Option<SocketAddress>,
    remote: SocketAddress,
)
    ensures
        spec_client_link_plan(clients, client, bind_addr) matches LinkPlan::Create(p) ==> {
            &&& p.socket.family == p.socket.bind_to.spec_family()
            &&& (p.socket.family == AddressFamily::Ipv4) == (p.socket.bind_to is V4)
            &&& bind_addr matches Some(b) ==> p.socket.bind_to == b
            &&& bind_addr is None ==> p.socket.bind_to == (SocketAddress::V4 { ip: 0, port: 0 })
            &&& p.socket.set_reuse_address
            &&& p.socket.nonblocking
            &&& p.connect_to == client
        },
        spec_remote_link_plan(remotes, client, remote) matches LinkPlan::Create(p) ==> {
            &&& p.socket.family == p.socket.bind_to.spec_family()
            &&& p.socket.family == AddressFamily::Ipv4
            &&& p.socket.bind_to == (SocketAddress::V4 { ip: 0, port: 0 })
            &&& !p.socket.set_reuse_address
            &&& p.socket.nonblocking
            &&& p.connect_to == remote
        },
        clients.dom().contains(client) <==> spec_client_link_plan(clients, client, bind_addr) is Reuse,
        remotes.dom().contains(client) <==> spec_remote_link_plan(remotes, client, remote) is Reuse,
        clients.dom().contains(client) ==> spec_client_link_plan(clients, client, bind_addr)
            == LinkPlan::Reuse(clients[client]),
        remotes.dom().contains(client) ==> spec_remote_link_plan(remotes, client, remote)
            == LinkPlan::Reuse(remotes[client]),
{
}

/// The pair that a client's relay joins is its own link back and its own remote
/// link, and there is none until both are held.
pub proof fn law_link_pair<V>(clients: Map<SocketAddress, V>, remotes: Map<SocketAddress, V>, client: SocketAddress)
    ensures
        clients.dom().contains(client) && remotes.dom().contains(client) ==> spec_link_pair(
            clients,
            remotes,
            client,
        ) == Some((clients[client], remotes[client])),
        !(clients.dom().contains(client) && remotes.dom().contains(client)) ==> spec_link_pair(
            clients,
            remotes,
            client,
        ) is None,
{
}

/// The address a new client link is bound to: the given one, else the IPv4
/// wildcard address with port 0.
pub proof fn law_client_bind_address(bind_addr: Option<SocketAddress>)
    ensures
        bind_addr matches Some(b) ==> spec_client_bind_address(bind_addr) == b,
        bind_addr is None ==> spec_client_bind_address(bind_addr) == (SocketAddress::V4 {
            ip: 0,
            port: 0,
        }),
{
}

} // verus!
