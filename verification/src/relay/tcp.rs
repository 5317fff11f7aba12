//! The decisions that relay TCP communications

use vstd::prelude::*;

use crate::address::{AddressFamily, SocketAddress};
use crate::command::RelayCommand;
use crate::error::{ChannelError, IoErrorKind, IoFailure, RelayPortError};
use crate::relay::{command_result, spec_command_result};

verus! {

/// Size of the buffer that one read of a relayed stream fills.
pub const MTU: usize = 1518;

/// Abstraction for initiating the relay builder.
#[derive(Debug)]
pub struct RelaySocket {}

/// Builder abstraction for composing a relay.
#[derive(Copy, Clone, Debug)]
pub struct RelaySocketBuilder(RelayInner);

#[derive(Copy, Clone, Debug)]
struct RelayInner {
    tcp_nodelay: bool,
    so_reuseaddr: bool,
}

impl RelaySocket {
    /// Obtain a builder object to begin composing the relay socket.
    /// Both socket options start disabled.
    pub fn build() -> (b: RelaySocketBuilder)
        ensures
            b.so_reuseaddr() == false,
            b.tcp_nodelay() == false,
    {
        RelaySocketBuilder(RelayInner { tcp_nodelay: false, so_reuseaddr: false })
    }
}

impl RelaySocketBuilder {
    pub closed spec fn spec_so_reuseaddr(&self) -> bool {
        self.0.so_reuseaddr
    }

    pub closed spec fn spec_tcp_nodelay(&self) -> bool {
        self.0.tcp_nodelay
    }

    /// Change the SO_REUSEADDR option on the TCP socket. If reuseaddr is `true` the option will
    /// be set on the created socket. If it is `false` the option will be disabled.
    /// Returns the builder, so that calls can be chained.
    pub fn set_so_reuseaddr(&mut self, reuseaddr: bool) -> (r: &mut Self)
        ensures
            r.so_reuseaddr() == reuseaddr,
            r.tcp_nodelay() == old(self).tcp_nodelay(),
            *final(self) == *final(r),
    {
        self.0.so_reuseaddr = reuseaddr;
        self
    }

    /// Change the TCP_NODELAY option on the TCP socket. If nodelay is `true` the option will
    /// be set on the created socket. If it is `false` the option will be disabled.
    /// Returns the builder, so that calls can be chained.
    pub fn set_tcp_nodelay(&mut self, nodelay: bool) -> (r: &mut Self)
        ensures
            r.tcp_nodelay() == nodelay,
            r.so_reuseaddr() == old(self).so_reuseaddr(),
            *final(self) == *final(r),
    {
        self.0.tcp_nodelay = nodelay;
        self
    }

    /// Get the builder configuration for setting SO_REUSEADDR on the TCP socket.
    #[verifier::when_used_as_spec(spec_so_reuseaddr)]
    pub fn so_reuseaddr(&self) -> (r: bool)
        ensures
            r == self.spec_so_reuseaddr(),
    {
        self.0.so_reuseaddr
    }

    /// Get the builder configuration for setting TCP_NODELAY on the TCP socket.
    #[verifier::when_used_as_spec(spec_tcp_nodelay)]
    pub fn tcp_nodelay(&self) -> (r: bool)
        ensures
            r == self.spec_tcp_nodelay(),
    {
        self.0.tcp_nodelay
    }
}

/// How a TCP socket for a given address is to be created: its address family,
/// and which options are switched on before it is used.
#[derive(Copy, Clone, Debug, PartialEq, Eq, Structural)]
pub struct SocketPlan {
    pub family: AddressFamily,
    pub set_reuseaddr: bool,
    pub set_nodelay: bool,
}

impl RelaySocketBuilder {
    /// The socket that this builder creates for `addr`: of the address's family,
    /// with SO_REUSEADDR and TCP_NODELAY switched on exactly where the builder asks
    /// for them (an option that is not asked for is left as the system sets it).
    pub fn socket_plan(&self, addr: &SocketAddress) -> (plan: SocketPlan)
        ensures
            plan.family == addr.spec_family(),
            (plan.family == AddressFamily::Ipv4) == (*addr is V4),
            plan.set_reuseaddr == self.so_reuseaddr(),
            plan.set_nodelay == self.tcp_nodelay(),
    {
        SocketPlan {
            family: addr.family(),
            set_reuseaddr: self.0.so_reuseaddr,
            set_nodelay: self.0.tcp_nodelay,
        }
    }
}

/// What a read from the source side of a relayed stream gave.
#[derive(Debug, PartialEq, Eq)]
pub enum ReadOutcome {
    /// These bytes were read (none at the end of the stream).
    Data(Vec<u8>),
    /// The read failed.
    Failed(IoFailure),
}

/// What a one-way stream relay does next.
#[derive(Debug, PartialEq, Eq)]
pub enum CopyStep {
    /// Write all of these bytes to the destination side.
    Write(Vec<u8>),
    /// Wait for the next read or command.
    Read,
    /// Stop relaying, with this result.
    Finish(Result<usize, RelayPortError>),
}

/// The state of a one-way relay of a TCP stream: the number of bytes written
/// to the destination so far, the size of the chunk being written, if any, and
/// (as ghost state) every byte read from the source so far.
pub struct StreamCopy {
    relayed: usize,
    pending: usize,
    writing: bool,
    read_log: Ghost<Seq<u8>>,
}

impl StreamCopy {
    #[verifier::type_invariant]
    spec fn inv(self) -> bool {
        &&& self.relayed + self.pending == self.read_log@.len()
        &&& !self.writing ==> self.pending == 0
    }

    /// The number of bytes written to the destination so far.
    pub closed spec fn total(&self) -> nat {
        self.relayed as nat
    }

    /// Every byte read from the source so far, in order.
    pub closed spec fn received(&self) -> Seq<u8> {
        self.read_log@
    }

    /// Every byte written to the destination so far, in order.
    pub closed spec fn delivered(&self) -> Seq<u8> {
        self.read_log@.take(self.relayed as int)
    }

    /// Is a chunk being written to the destination?
    pub closed spec fn spec_writing(&self) -> bool {
        self.writing
    }

    /// The size of the chunk being written, 0 when none is.
    pub closed spec fn spec_pending(&self) -> usize {
        self.pending
    }

    /// A relay that has read and written nothing yet.
    pub fn new() -> (c: StreamCopy)
        ensures
            c.total() == 0,
            c.received() == Seq::<u8>::empty(),
            c.delivered() == Seq::<u8>::empty(),
            !c.writing(),
            c.pending() == 0,
    {
        StreamCopy { relayed: 0, pending: 0, writing: false, read_log: Ghost(Seq::empty()) }
    }

    /// The number of bytes relayed so far.
    pub fn relayed(&self) -> (n: usize)
        ensures
            n == self.total(),
    {
        self.relayed
    }

    /// The size of the chunk being written, 0 when none is.
    #[verifier::when_used_as_spec(spec_pending)]
    pub fn pending(&self) -> (n: usize)
        ensures
            n == self.spec_pending(),
    {
        self.pending
    }

    /// Is a chunk being written to the destination?
    #[verifier::when_used_as_spec(spec_writing)]
    pub fn writing(&self) -> (w: bool)
        ensures
            w == self.spec_writing(),
    {
        self.writing
    }

    /// What to do with the outcome of a read: write the bytes that were read
    /// (none, where the peer reset the connection), or stop with the read's error.
    /// A read fills at most the buffer, so at most `MTU` bytes come from it.
    pub fn after_read(&mut self, outcome: ReadOutcome) -> (step: CopyStep)
        requires
            !old(self).writing(),
            outcome matches ReadOutcome::Data(chunk) ==> chunk@.len() <= MTU,
        ensures
            match outcome {
                ReadOutcome::Data(data) => step matches CopyStep::Write(chunk) && chunk@ == data@,
                ReadOutcome::Failed(f) => if f.kind == IoErrorKind::ConnectionReset {
                    step matches CopyStep::Write(chunk) && chunk@ == Seq::<u8>::empty()
                } else {
                    step == CopyStep::Finish(Err(RelayPortError::IoError(f)))
                },
            },
            final(self).total() == old(self).total(),
            match step {
                CopyStep::Write(chunk) => {
                    &&& final(self).writing()
                    &&& final(self).pending() == chunk@.len()
                    &&& final(self).received() == old(self).received() + chunk@
                    &&& final(self).delivered() == old(self).received()
                    &&& chunk@.len() <= MTU
                },
                _ => {
                    &&& !final(self).writing()
                    &&& final(self).pending() == 0
                    &&& final(self).received() == old(self).received()
                    &&& final(self).delivered() == final(self).received()
                },
            },
    {
        proof {
            use_type_invariant(&*self);
            let log = self.read_log@;
            assert(log.take(log.len() as int) =~= log);
        }
        match outcome {
            ReadOutcome::Data(chunk) => {
                self.start_write(&chunk);
                CopyStep::Write(chunk)
            },
            ReadOutcome::Failed(f) => {
                if f.is_connection_reset() {
                    let chunk: Vec<u8> = Vec::new();
                    self.start_write(&chunk);
                    CopyStep::Write(chunk)
                } else {
                    CopyStep::Finish(Err(RelayPortError::IoError(f)))
                }
            },
        }
    }

    fn start_write(&mut self, chunk: &Vec<u8>)
        requires
            !old(self).writing(),
            chunk@.len() <= MTU,
        ensures
            final(self).writing(),
            final(self).pending() == chunk@.len(),
            final(self).total() == old(self).total(),
            final(self).received() == old(self).received() + chunk@,
            final(self).delivered() == old(self).received(),
    {
        proof {
            use_type_invariant(&*self);
        }
        let ghost log = self.read_log@ + chunk@;
        *self = StreamCopy {
            relayed: self.relayed,
            pending: chunk.len(),
            writing: true,
            read_log: Ghost(log),
        };
        proof {
            assert(log.take(self.relayed as int) =~= old(self).read_log@);
        }
    }

    /// What to do with what the command channel delivered: a shutdown ends the
    /// relay with the number of bytes relayed so far, a channel failure ends it
    /// with that failure.
    pub fn after_command(&self, received: Result<RelayCommand, ChannelError>) -> (step: CopyStep)
        ensures
            match received {
                Ok(RelayCommand::Shutdown) => step == CopyStep::Finish(Ok(self.total() as usize)),
                Err(e) => step == CopyStep::Finish(
                    Err(RelayPortError::InternalCommunicationError(e)),
                ),
            },
    {
        match received {
            Ok(RelayCommand::Shutdown) => CopyStep::Finish(Ok(self.relayed)),
            Err(e) => CopyStep::Finish(Err(RelayPortError::InternalCommunicationError(e))),
        }
    }

    /// Record the outcome of writing the chunk handed out by the last read: a
    /// complete write adds its size to the count, so that everything read has
    /// now been delivered, and the relay reads again; a failed write ends the
    /// relay with that failure and counts nothing.
    pub fn after_write(&mut self, outcome: Result<(), IoFailure>) -> (step: CopyStep)
        requires
            old(self).writing(),
            old(self).total() + old(self).pending() <= usize::MAX,
        ensures
            final(self).received() == old(self).received(),
            outcome is Ok ==> {
                &&& final(self).total() == old(self).total() + old(self).pending()
                &&& final(self).total() == final(self).received().len()
                &&& !final(self).writing()
                &&& final(self).pending() == 0
                &&& final(self).delivered() == final(self).received()
                &&& step == CopyStep::Read
            },
            outcome matches Err(f) ==> {
                &&& final(self).total() == old(self).total()
                &&& step == CopyStep::Finish(Err(RelayPortError::IoError(f)))
            },
    {
        proof {
            use_type_invariant(&*self);
        }
        match outcome {
            Ok(()) => {
                let ghost log = self.read_log@;
                *self = StreamCopy {
                    relayed: self.relayed + self.pending,
                    pending: 0,
                    writing: false,
                    read_log: Ghost(log),
                };
                proof {
                    assert(log.take(log.len() as int) =~= log);
                }
                CopyStep::Read
            },
            Err(f) => CopyStep::Finish(Err(RelayPortError::IoError(f))),
        }
    }
}

/// Length of the queue of connections that the system accepts for a listening
/// socket before the relay takes them.
pub const LISTEN_BACKLOG: u32 = 1024;

/// What happened to a listener that relays accepted connections.
#[derive(Debug, PartialEq, Eq)]
pub enum ListenerEvent {
    /// A connection was accepted.
    Accepted,
    /// Accepting a connection failed.
    AcceptFailed(IoFailure),
    /// The relay of an accepted connection ended, with this result.
    ConnectionEnded(Result<(), RelayPortError>),
    /// The command channel delivered this.
    Command(Result<RelayCommand, ChannelError>),
}

/// What a listener that relays accepted connections does next.
#[derive(Debug, PartialEq, Eq)]
pub enum ListenerStep {
    /// Wait for whichever comes first: an incoming connection, the end of a
    /// connection being relayed, or a command.
    Accept,
    /// Relay the accepted connection in a task of its own, and wait as for `Accept`.
    Spawn,
    /// Stop listening, with this result.
    Finish(Result<(), RelayPortError>),
}

pub open spec fn spec_listener_step(event: ListenerEvent) -> ListenerStep {
    match event {
        ListenerEvent::Accepted => ListenerStep::Spawn,
        ListenerEvent::AcceptFailed(f) => ListenerStep::Finish(Err(RelayPortError::IoError(f))),
        ListenerEvent::ConnectionEnded(Ok(())) => ListenerStep::Accept,
        ListenerEvent::ConnectionEnded(Err(e)) => ListenerStep::Finish(Err(e)),
        ListenerEvent::Command(received) => ListenerStep::Finish(spec_command_result(received)),
    }
}

/// The listener's decision on each event: an accepted connection is relayed in
/// a task of its own while the listener goes on waiting; a connection whose relay
/// ends cleanly lets the listener go on, one that fails ends the listener with
/// that failure; a failed accept ends the listener with that failure; a shutdown
/// command ends it cleanly, and a failure of the command channel ends it with
/// that failure.
pub fn listener_step(event: ListenerEvent) -> (step: ListenerStep)
    ensures
        step == spec_listener_step(event),
        event is Accepted ==> step == ListenerStep::Spawn,
        event matches ListenerEvent::AcceptFailed(f) ==> step == ListenerStep::Finish(
            Err(RelayPortError::IoError(f)),
        ),
        event == ListenerEvent::ConnectionEnded(Ok(())) ==> step == ListenerStep::Accept,
        event matches ListenerEvent::ConnectionEnded(Err(e)) ==> step == ListenerStep::Finish(Err(e)),
        event matches ListenerEvent::Command(Ok(_)) ==> step == ListenerStep::Finish(Ok(())),
        event matches ListenerEvent::Command(Err(e)) ==> step == ListenerStep::Finish(
            Err(RelayPortError::InternalCommunicationError(e)),
        ),
{
    match event {
        ListenerEvent::Accepted => ListenerStep::Spawn,
        ListenerEvent::AcceptFailed(f) => ListenerStep::Finish(Err(RelayPortError::IoError(f))),
        ListenerEvent::ConnectionEnded(Ok(())) => ListenerStep::Accept,
        ListenerEvent::ConnectionEnded(Err(e)) => ListenerStep::Finish(Err(e)),
        ListenerEvent::Command(received) => ListenerStep::Finish(command_result(received)),
    }
}

/// The listener does not return unless a shutdown command arrives or it meets an
/// error, which it returns: it stops cleanly exactly on a shutdown command, every
/// other stop carries the error it met, and an accepted connection never makes it
/// wait for that connection's relay.
pub proof fn law_listener_stops_only_on_command_or_error(event: ListenerEvent)
    ensures
        (spec_listener_step(event) == ListenerStep::Finish(Ok(()))) <==> (event
            == ListenerEvent::Command(Ok(RelayCommand::Shutdown))),
        event matches ListenerEvent::AcceptFailed(f) ==> spec_listener_step(event)
            == ListenerStep::Finish(Err(RelayPortError::IoError(f))),
        event matches ListenerEvent::ConnectionEnded(Err(e)) ==> spec_listener_step(event)
            == ListenerStep::Finish(Err(e)),
        event matches ListenerEvent::Command(Err(e)) ==> spec_listener_step(event)
            == ListenerStep::Finish(Err(RelayPortError::InternalCommunicationError(e))),
        event is Accepted ==> spec_listener_step(event) == ListenerStep::Spawn,
        event == ListenerEvent::ConnectionEnded(Ok(())) ==> spec_listener_step(event)
            == ListenerStep::Accept,
{
    match event {
        ListenerEvent::Command(Ok(c)) => {
            match c {
                RelayCommand::Shutdown => {},
            }
        },
        _ => {},
    }
}

/// Whatever the command channel delivers ends the listener, and a listener
/// only ever keeps going on an accepted connection or a connection that ended
/// cleanly.
pub proof fn law_listener_command_always_ends(event: ListenerEvent)
    ensures
        event is Command ==> spec_listener_step(event) is Finish,
        !(spec_listener_step(event) is Finish) ==> (event is Accepted || event
            == ListenerEvent::ConnectionEnded(Ok(()))),
{
    match event {
        ListenerEvent::ConnectionEnded(Ok(u)) => {
            assert(u == ());
        },
        _ => {},
    }
}

/// How a socket that connects to a peer is to be set up: the socket itself, the
/// local address it is bound to first, if any, and the address it connects to.
#[derive(Copy, Clone, Debug, PartialEq, Eq, Structural)]
pub struct ConnectPlan {
    pub socket: SocketPlan,
    pub bind: Option<SocketAddress>,
    pub target: SocketAddress,
}

impl RelaySocketBuilder {
    /// The connection that this builder makes to `addr`: a socket planned as by
    /// [`RelaySocketBuilder::socket_plan`] for `addr`, bound to `bind_addr` where
    /// it is given (otherwise the system picks a local address), connected to `addr`.
    pub fn connect_plan(&self, addr: SocketAddress, bind_addr: Option<SocketAddress>) -> (plan:
        ConnectPlan)
        ensures
            plan.socket.family == addr.spec_family(),
            (plan.socket.family == AddressFamily::Ipv4) == (addr is V4),
            plan.socket.set_reuseaddr == self.so_reuseaddr(),
            plan.socket.set_nodelay == self.tcp_nodelay(),
            plan.bind == bind_addr,
            plan.target == addr,
    {
        ConnectPlan { socket: self.socket_plan(&addr), bind: bind_addr, target: addr }
    }
}

/// The builder of the sockets that a listener connects to its peer with, one per
/// accepted connection: SO_REUSEADDR and TCP_NODELAY both on.
pub fn peer_socket_builder() -> (b: RelaySocketBuilder)
    ensures
        b.so_reuseaddr(),
        b.tcp_nodelay(),
{
    let mut b = RelaySocket::build();
    b.set_so_reuseaddr(true).set_tcp_nodelay(true);
    b
}

/// The connection that a listener makes to its peer `relay_addr` for each accepted
/// connection: a socket of the peer's family with SO_REUSEADDR and TCP_NODELAY
/// switched on, not bound to any local address first, connected to `relay_addr`.
pub fn peer_connect_plan(relay_addr: SocketAddress) -> (plan: ConnectPlan)
    ensures
        plan.socket.family == relay_addr.spec_family(),
        (plan.socket.family == AddressFamily::Ipv4) == (relay_addr is V4),
        plan.socket.set_reuseaddr,
        plan.socket.set_nodelay,
        plan.bind is None,
        plan.target == relay_addr,
{
    peer_socket_builder().connect_plan(relay_addr, None)
}

/// The result of relaying one connection in both directions: the first failure,
/// client-to-remote first, or success when both directions ended cleanly.
pub fn transfer_outcome(
    client_to_remote: Result<usize, RelayPortError>,
    remote_to_client: Result<usize, RelayPortError>,
) -> (r: Result<(), RelayPortError>)
    ensures
        client_to_remote matches Err(e) ==> r == Err::<(), RelayPortError>(e),
        client_to_remote is Ok ==> (remote_to_client matches Err(e) ==> r == Err::<(), RelayPortError>(e)),
        client_to_remote is Ok && remote_to_client is Ok ==> r == Ok::<(), RelayPortError>(()),
{
    match client_to_remote {
        Err(e) => Err(e),
        Ok(_) => match remote_to_client {
            Err(e) => Err(e),
            Ok(_) => Ok(()),
        },
    }
}

/// The result of a connection's task as the listener sees it: the task's own
/// result where it ran to its end; an `Unknown` error with the description of
/// why where it could not (it panicked or was cancelled).
pub fn task_outcome(joined: Result<Result<(), RelayPortError>, String>) -> (r: Result<(), RelayPortError>)
    ensures
        joined matches Ok(result) ==> r == result,
        joined matches Err(msg) ==> r == Err::<(), RelayPortError>(RelayPortError::Unknown(msg)),
{
    match joined {
        Ok(result) => result,
        Err(msg) => Err(RelayPortError::Unknown(msg)),
    }
}

/// The result of waiting for the task that relays a connection: the task's own
/// result is not looked at; a task that could not run to its end (it panicked or
/// was cancelled) gives an `Unknown` error with the description of why.
pub fn join_outcome(joined: Result<Result<(), RelayPortError>, String>) -> (r: Result<(), RelayPortError>)
    ensures
        joined is Ok ==> r == Ok::<(), RelayPortError>(()),
        joined matches Err(msg) ==> r == Err::<(), RelayPortError>(RelayPortError::Unknown(msg)),
{
    match joined {
        Ok(_) => Ok(()),
        Err(msg) => Err(RelayPortError::Unknown(msg)),
    }
}

} // verus!
