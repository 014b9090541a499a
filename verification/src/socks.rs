//! A minimal SOCKS proxy, as a state machine.
//!
//! [`handle_conn`] makes every decision about one client connection: it is told
//! what happened on the network and answers with what to do next. It never
//! touches a socket itself. [`accept_loop`] does the same for the listening
//! socket.

use vstd::prelude::*;

use crate::handle::{Arti, ArtiView, ClientEvent};
use crate::ip::{ip_of, parse_ip, IpAddr};
use crate::proto;
use crate::proto::{
    buffered, capacity, forbid_pipelining, reply_bytes, request_addr, request_command,
    request_port, request_target, request_version, stepped, InputBuffer, Outcome, Step,
    Target,
};

verus! {

/// The result that a reply reports to the client.
#[derive(Clone, Copy, Debug, PartialEq, Eq, Structural)]
pub enum SocksStatus {
    Succeeded,
    GeneralFailure,
    NotAllowed,
    HostUnreachable,
    ConnectionRefused,
    CommandNotSupported,
    AddrtypeNotSupported,
}

impl SocksStatus {
    /// The number that stands for the status in a SOCKS5 reply.
    pub open spec fn number(self) -> u8 {
        match self {
            SocksStatus::Succeeded => 0,
            SocksStatus::GeneralFailure => 1,
            SocksStatus::NotAllowed => 2,
            SocksStatus::HostUnreachable => 4,
            SocksStatus::ConnectionRefused => 5,
            SocksStatus::CommandNotSupported => 7,
            SocksStatus::AddrtypeNotSupported => 8,
        }
    }

    /// The number that stands for the status in a SOCKS5 reply.
    pub fn code(self) -> (code: u8)
        ensures
            code == self.number(),
    {
        match self {
            SocksStatus::Succeeded => 0,
            SocksStatus::GeneralFailure => 1,
            SocksStatus::NotAllowed => 2,
            SocksStatus::HostUnreachable => 4,
            SocksStatus::ConnectionRefused => 5,
            SocksStatus::CommandNotSupported => 7,
            SocksStatus::AddrtypeNotSupported => 8,
        }
    }
}

/// Why a connection through Tor failed, as far as a client is told about it.
#[derive(Clone, Copy, Debug, PartialEq, Eq, Structural)]
pub enum ErrorKind {
    ExitPolicyRejected,
    RemoteConnectionRefused,
    RemoteHostNotFound,
    RemoteHostResolutionFailed,
    Other,
}

/// The status that reports a failure of `kind`.
pub open spec fn status_of(kind: ErrorKind) -> SocksStatus {
    match kind {
        ErrorKind::ExitPolicyRejected => SocksStatus::NotAllowed,
        ErrorKind::RemoteConnectionRefused => SocksStatus::ConnectionRefused,
        ErrorKind::RemoteHostNotFound => SocksStatus::HostUnreachable,
        ErrorKind::RemoteHostResolutionFailed => SocksStatus::HostUnreachable,
        ErrorKind::Other => SocksStatus::GeneralFailure,
    }
}

/// The status that reports a failure of `kind`.
pub fn socks_status(kind: &ErrorKind) -> (status: SocksStatus)
    ensures
        status == status_of(*kind),
{
    match kind {
        ErrorKind::ExitPolicyRejected => SocksStatus::NotAllowed,
        ErrorKind::RemoteConnectionRefused => SocksStatus::ConnectionRefused,
        ErrorKind::RemoteHostNotFound | ErrorKind::RemoteHostResolutionFailed => {
            SocksStatus::HostUnreachable
        },
        ErrorKind::Other => SocksStatus::GeneralFailure,
    }
}

/// The address family that a stream may use.
#[derive(Clone, Copy, Debug, PartialEq, Eq, Structural)]
pub enum Family {
    Any,
    Ipv4Only,
    Ipv6Only,
}

/// The family for a destination: that of an address literal, any for a name.
pub open spec fn family_of(addr: Seq<char>) -> Family {
    match ip_of(addr) {
        Some(IpAddr::V4(..)) => Family::Ipv4Only,
        Some(IpAddr::V6(..)) => Family::Ipv6Only,
        None => Family::Any,
    }
}

/// Asks to connect to a destination.
pub const CONNECT: u8 = 0x01;

/// Asks for the address of a name.
pub const RESOLVE: u8 = 0xF0;

/// Asks for the name of an address.
pub const RESOLVE_PTR: u8 = 0xF1;

/// What a request calls for.
#[derive(Clone, Copy, Debug, PartialEq, Eq, Structural)]
pub enum Plan {
    /// A connection to the destination, over `family`.
    Connect(Family),
    /// A lookup of the destination, over `family`.
    Lookup(Family),
    /// Nothing but this answer: the destination is the address asked for.
    Answer(IpAddr),
    /// A refusal.
    Refuse(SocksStatus),
}

/// What a request with `command` for the destination `addr` calls for.
pub open spec fn plan_of(command: u8, addr: Seq<char>) -> Plan {
    if command == CONNECT {
        Plan::Connect(family_of(addr))
    } else if command == RESOLVE {
        match ip_of(addr) {
            Some(ip) => Plan::Answer(ip),
            None => Plan::Lookup(Family::Any),
        }
    } else {
        Plan::Refuse(SocksStatus::CommandNotSupported)
    }
}

/// Decides what a request with `command` for the destination `addr` calls for.
pub fn plan(command: u8, addr: &str) -> (plan: Plan)
    ensures
        plan == plan_of(command, addr@),
{
    let literal = parse_ip(addr);
    let family = match literal {
        Some(IpAddr::V4(..)) => Family::Ipv4Only,
        Some(IpAddr::V6(..)) => Family::Ipv6Only,
        None => Family::Any,
    };
    if command == CONNECT {
        Plan::Connect(family)
    } else if command == RESOLVE {
        match literal {
            Some(ip) => Plan::Answer(ip),
            None => Plan::Lookup(family),
        }
    } else {
        Plan::Refuse(SocksStatus::CommandNotSupported)
    }
}

/// How far a connection has come.
pub enum Phase {
    /// The client has not made its request yet.
    Handshake,
    /// The client asked for a connection, which is being opened.
    Connecting(tor_socksproto::SocksRequest),
    /// The client asked for the address of a name, which is being looked up.
    Resolving(tor_socksproto::SocksRequest),
    /// The client is being told that its connection is open.
    Granting,
    /// The client talks to its destination.
    Relaying,
    /// The connection is over.
    Closed,
}

/// Something that happened on a connection.
#[derive(Debug, PartialEq, Eq)]
pub enum Event {
    /// The connection was accepted.
    Accepted,
    /// These bytes were read; none at the end of the stream.
    Received(Vec<u8>),
    /// Reading failed.
    ReceiveFailed,
    /// The bytes to send were written.
    Sent,
    /// Writing failed.
    SendFailed,
    /// The destination cannot be an address on the Tor network.
    AddressRejected,
    /// The connection to the destination is open.
    Connected,
    /// The connection to the destination could not be opened.
    ConnectFailed(ErrorKind),
    /// The name has these addresses.
    Resolved(Vec<IpAddr>),
    /// The name could not be looked up.
    ResolveFailed,
}

/// What to do next on a connection.
#[derive(Debug, PartialEq, Eq)]
pub enum Action {
    /// Read at most this many bytes.
    Receive(usize),
    /// Write these bytes.
    Send(Vec<u8>),
    /// Open a connection through Tor.
    Connect { addr: String, port: u16, family: Family },
    /// Look a name up through Tor.
    Resolve { addr: String, family: Family },
    /// Copy bytes in both directions until both ends are done.
    Relay,
    /// Write these bytes as far as possible, then shut the stream down.
    Finish(Vec<u8>),
    /// Drop the stream.
    Close,
}

/// An [`Action`], with its texts and bytes as sequences.
pub enum ActionView {
    Receive(nat),
    Send(Seq<u8>),
    Connect { addr: Seq<char>, port: u16, family: Family },
    Resolve { addr: Seq<char>, family: Family },
    Relay,
    Finish(Seq<u8>),
    Close,
}

impl Action {
    pub open spec fn view(&self) -> ActionView {
        match *self {
            Action::Receive(room) => ActionView::Receive(room as nat),
            Action::Send(data) => ActionView::Send(data@),
            Action::Connect { addr, port, family } => ActionView::Connect {
                addr: addr@,
                port,
                family,
            },
            Action::Resolve { addr, family } => ActionView::Resolve { addr: addr@, family },
            Action::Relay => ActionView::Relay,
            Action::Finish(data) => ActionView::Finish(data@),
            Action::Close => ActionView::Close,
        }
    }
}

/// The state of a connection.
pub struct ConnState {
    pub handshake: tor_socksproto::SocksProxyHandshake,
    /// The bytes that were read and not yet consumed.
    pub pending: Seq<u8>,
    /// How many bytes there is space for.
    pub capacity: nat,
    pub phase: Phase,
}

impl ConnState {
    /// The same connection at another phase.
    pub open spec fn at(self, phase: Phase) -> ConnState {
        ConnState { phase, ..self }
    }
}

/// The reply to `request` with `status` and `answer`.
pub open spec fn reply_to(
    request: tor_socksproto::SocksRequest,
    status: SocksStatus,
    answer: Option<IpAddr>,
) -> Seq<u8> {
    reply_bytes(
        request_version(request),
        request_target(request),
        request_port(request),
        status.number(),
        answer,
    )
}

/// A connection after its handshake made one step.
pub open spec fn after_step(s: ConnState) -> (ConnState, ActionView) {
    let (handshake, rest, outcome) = stepped(s.handshake, s.pending, s.capacity);
    after_outcome(
        ConnState { handshake, pending: rest, ..s },
        forbid_pipelining(outcome, rest),
    )
}

/// The request that the client has made when the handshake makes its next step,
/// if that step completes one.
pub open spec fn request_made(s: ConnState) -> Option<tor_socksproto::SocksRequest> {
    let (_, rest, outcome) = stepped(s.handshake, s.pending, s.capacity);
    match forbid_pipelining(outcome, rest) {
        Outcome::Finished(request) => Some(request),
        _ => None,
    }
}

/// A connection after a step of its handshake had `outcome`.
pub open spec fn after_outcome(s: ConnState, outcome: Outcome) -> (ConnState, ActionView) {
    match outcome {
        Outcome::Receive => (s, ActionView::Receive((s.capacity - s.pending.len()) as nat)),
        Outcome::Send(data) => (s, ActionView::Send(data)),
        Outcome::Finished(request) => after_request(s, request),
        Outcome::Failed => (s.at(Phase::Closed), ActionView::Close),
    }
}

/// A connection after its client made `request`.
pub open spec fn after_request(s: ConnState, request: tor_socksproto::SocksRequest) -> (
    ConnState,
    ActionView,
) {
    let addr = request_addr(request);
    match plan_of(request_command(request), addr) {
        Plan::Connect(family) => (
            s.at(Phase::Connecting(request)),
            ActionView::Connect { addr, port: request_port(request), family },
        ),
        Plan::Lookup(family) => (
            s.at(Phase::Resolving(request)),
            ActionView::Resolve { addr, family },
        ),
        Plan::Answer(ip) => (
            s.at(Phase::Closed),
            ActionView::Finish(reply_to(request, SocksStatus::Succeeded, Some(ip))),
        ),
        Plan::Refuse(status) => (
            s.at(Phase::Closed),
            ActionView::Finish(reply_to(request, status, None)),
        ),
    }
}

/// Whether `action` does justice to the destination that `request` named: a name
/// is handed on as it is, an address is connected to over its own family, at the
/// port that was asked for, and an address to resolve is answered with itself.
pub open spec fn serves_target(
    request: tor_socksproto::SocksRequest,
    action: ActionView,
) -> bool {
    &&& action matches ActionView::Connect { port, .. } ==> port == request_port(request)
    &&& match request_target(request) {
        Target::Name(name) => {
            &&& action matches ActionView::Connect { addr, .. } ==> addr == name
            &&& action matches ActionView::Resolve { addr, .. } ==> addr == name
        },
        Target::Ip(ip) => {
            &&& action matches ActionView::Connect { family, .. } ==> family == (if ip is V4 {
                Family::Ipv4Only
            } else {
                Family::Ipv6Only
            })
            &&& request_command(request) == RESOLVE ==> action == ActionView::Finish(
                reply_to(request, SocksStatus::Succeeded, Some(ip)),
            )
        },
    }
}

/// Whether a handshake makes a step after `event`: after a message to the client
/// was written, and after bytes were read that there is room for.
pub open spec fn goes_on(s: ConnState, event: Event) -> bool {
    match event {
        Event::Sent => true,
        Event::Received(data) => 0 < data@.len() <= s.capacity - s.pending.len(),
        _ => false,
    }
}

/// A connection with the bytes that `event` brought.
pub open spec fn with_input(s: ConnState, event: Event) -> ConnState {
    match event {
        Event::Received(data) => ConnState { pending: s.pending + data@, ..s },
        _ => s,
    }
}

/// A connection after `event`, and what to do then.
pub open spec fn after_event(s: ConnState, event: Event) -> (ConnState, ActionView) {
    match (s.phase, event) {
        (Phase::Handshake, Event::Accepted) if s.pending.len() < s.capacity => (
            s,
            ActionView::Receive((s.capacity - s.pending.len()) as nat),
        ),
        (Phase::Handshake, _) if goes_on(s, event) => after_step(with_input(s, event)),
        (Phase::Connecting(request), Event::Connected) => (
            s.at(Phase::Granting),
            ActionView::Send(reply_to(request, SocksStatus::Succeeded, None)),
        ),
        (Phase::Connecting(request), Event::AddressRejected) => (
            s.at(Phase::Closed),
            ActionView::Finish(reply_to(request, SocksStatus::AddrtypeNotSupported, None)),
        ),
        (Phase::Connecting(request), Event::ConnectFailed(kind)) => (
            s.at(Phase::Closed),
            ActionView::Finish(reply_to(request, status_of(kind), None)),
        ),
        (Phase::Granting, Event::Sent) => (s.at(Phase::Relaying), ActionView::Relay),
        (Phase::Resolving(request), Event::Resolved(ips)) if ips@.len() > 0 => (
            s.at(Phase::Closed),
            ActionView::Finish(reply_to(request, SocksStatus::Succeeded, Some(ips@[0]))),
        ),
        (Phase::Resolving(request), Event::Resolved(_)) => (
            s.at(Phase::Closed),
            ActionView::Finish(reply_to(request, SocksStatus::GeneralFailure, None)),
        ),
        (Phase::Resolving(request), Event::ResolveFailed) => (
            s.at(Phase::Closed),
            ActionView::Finish(reply_to(request, SocksStatus::GeneralFailure, None)),
        ),
        _ => (s.at(Phase::Closed), ActionView::Close),
    }
}

/// Whether a handshake has seen nothing of its client yet, and thus fails on a
/// client that does not begin with the number of a SOCKS version.
pub open spec fn is_fresh(handshake: tor_socksproto::SocksProxyHandshake) -> bool {
    forall|input: Seq<u8>, size: nat|
        input.len() > 0 && input[0] != 4 && input[0] != 5 ==> (#[trigger] stepped(
            handshake,
            input,
            size,
        )).2 == Outcome::Failed
}

/// One client connection.
pub struct Connection {
    handshake: tor_socksproto::SocksProxyHandshake,
    inbuf: InputBuffer,
    phase: Phase,
}

impl Connection {
    pub closed spec fn view(&self) -> ConnState {
        ConnState {
            handshake: self.handshake,
            pending: buffered(self.inbuf),
            capacity: capacity(self.inbuf),
            phase: self.phase,
        }
    }

    /// A connection on which nothing has happened yet.
    pub fn new() -> (conn: Connection)
        ensures
            conn@.phase == Phase::Handshake,
            conn@.pending == Seq::<u8>::empty(),
            conn@.capacity == 1024,
            is_fresh(conn@.handshake),
    {
        Connection {
            handshake: proto::new_handshake(),
            inbuf: InputBuffer::new(),
            phase: Phase::Handshake,
        }
    }

    /// Lets the handshake make one step.
    fn step(&mut self) -> (action: Action)
        ensures
            (final(self)@, action@) == after_step(old(self)@),
            action@ matches ActionView::Receive(room) ==> {
                &&& 0 < room
                &&& room == final(self)@.capacity - final(self)@.pending.len()
            },
            old(self)@.pending.len() == 0 && old(self)@.capacity > 0 ==> action@
                == ActionView::Receive(old(self)@.capacity),
            request_made(old(self)@) matches Some(request) ==> serves_target(request, action@),
    {
        let step = proto::handshake_step(&mut self.handshake, &mut self.inbuf);
        self.advance(step)
    }

    /// Does what a step of the handshake asks for.
    pub fn advance(&mut self, step: Step) -> (action: Action)
        ensures
            (final(self)@, action@) == after_outcome(old(self)@, step@),
            step@ matches Outcome::Finished(request) ==> serves_target(request, action@),
    {
        match step {
            Step::Receive => Action::Receive(self.inbuf.room()),
            Step::Send(data) => Action::Send(data),
            Step::Finished(request) => self.serve(request),
            Step::Failed => {
                self.phase = Phase::Closed;
                Action::Close
            },
        }
    }

    /// Serves the request that the client made.
    pub fn serve(&mut self, request: tor_socksproto::SocksRequest) -> (action: Action)
        ensures
            (final(self)@, action@) == after_request(old(self)@, request),
            serves_target(request, action@),
    {
        let addr = proto::addr(&request);
        match plan(proto::command(&request), addr.as_str()) {
            Plan::Connect(family) => {
                let port = proto::port(&request);
                self.phase = Phase::Connecting(request);
                Action::Connect { addr, port, family }
            },
            Plan::Lookup(family) => {
                self.phase = Phase::Resolving(request);
                Action::Resolve { addr, family }
            },
            Plan::Answer(ip) => {
                self.phase = Phase::Closed;
                finish(&request, SocksStatus::Succeeded, Some(ip))
            },
            Plan::Refuse(status) => {
                self.phase = Phase::Closed;
                reply_error(&request, status)
            },
        }
    }
}

/// Answers `request` for good.
fn finish(
    request: &tor_socksproto::SocksRequest,
    status: SocksStatus,
    answer: Option<IpAddr>,
) -> (action: Action)
    ensures
        action@ == ActionView::Finish(reply_to(*request, status, answer)),
{
    match proto::reply(request, status.code(), answer) {
        Some(bytes) => Action::Finish(bytes),
        None => Action::Close,
    }
}

/// Answers `request` with the failure `status`.
pub fn reply_error(request: &tor_socksproto::SocksRequest, status: SocksStatus) -> (action: Action)
    ensures
        action@ == ActionView::Finish(reply_to(*request, status, None)),
{
    finish(request, status, None)
}

/// Takes note of what happened on a connection and decides what to do next.
///
/// The handshake makes its first step when the first bytes are there. When bytes
/// are to be read there is room for at least one, so that reading none means the
/// end of the stream.
pub fn handle_conn(conn: &mut Connection, event: Event) -> (action: Action)
    ensures
        (final(conn)@, action@) == after_event(old(conn)@, event),
        action@ matches ActionView::Receive(room) ==> {
            &&& 0 < room
            &&& room == final(conn)@.capacity - final(conn)@.pending.len()
        },
        ({
            &&& old(conn)@.phase is Handshake
            &&& event is Accepted || event is Sent
            &&& old(conn)@.pending.len() == 0
            &&& old(conn)@.capacity > 0
        }) ==> action@ == ActionView::Receive(old(conn)@.capacity),
        old(conn)@.phase is Handshake && goes_on(old(conn)@, event) ==> (request_made(
            with_input(old(conn)@, event),
        ) matches Some(request) ==> serves_target(request, action@)),
{
    let mut phase = Phase::Closed;
    std::mem::swap(&mut phase, &mut conn.phase);
    match (phase, event) {
        (Phase::Handshake, Event::Accepted) => {
            let room = conn.inbuf.room();
            if room == 0 {
                return Action::Close;
            }
            conn.phase = Phase::Handshake;
            Action::Receive(room)
        },
        (Phase::Handshake, Event::Sent) => {
            conn.phase = Phase::Handshake;
            conn.step()
        },
        (Phase::Handshake, Event::Received(data)) => {
            if data.len() == 0 || data.len() > conn.inbuf.room() {
                return Action::Close;
            }
            conn.phase = Phase::Handshake;
            conn.inbuf.note_received(data.as_slice());
            conn.step()
        },
        (Phase::Connecting(request), Event::Connected) => match proto::reply(
            &request,
            SocksStatus::Succeeded.code(),
            None,
        ) {
            Some(bytes) => {
                conn.phase = Phase::Granting;
                Action::Send(bytes)
            },
            None => {
                conn.phase = Phase::Relaying;
                Action::Relay
            },
        },
        (Phase::Connecting(request), Event::AddressRejected) => reply_error(
            &request,
            SocksStatus::AddrtypeNotSupported,
        ),
        (Phase::Connecting(request), Event::ConnectFailed(kind)) => reply_error(
            &request,
            socks_status(&kind),
        ),
        (Phase::Granting, Event::Sent) => {
            conn.phase = Phase::Relaying;
            Action::Relay
        },
        (Phase::Resolving(request), Event::Resolved(ips)) => {
            if ips.len() > 0 {
                finish(&request, SocksStatus::Succeeded, Some(ips[0]))
            } else {
                reply_error(&request, SocksStatus::GeneralFailure)
            }
        },
        (Phase::Resolving(request), Event::ResolveFailed) => reply_error(
            &request,
            SocksStatus::GeneralFailure,
        ),
        _ => Action::Close,
    }
}

/// How long to wait after a failure to accept a connection, in milliseconds. Some
/// failures, such as having no file descriptors left, last for a while.
pub const ACCEPT_PAUSE: u64 = 100;

/// Something that happened on the listening socket.
pub enum AcceptEvent {
    /// A shutdown was signalled.
    Shutdown,
    /// A client connected.
    Accepted,
    /// No client could be accepted, for this reason.
    Failed(String),
}

/// What to do next on the listening socket.
#[derive(Clone, Copy, Debug, PartialEq, Eq, Structural)]
pub enum AcceptAction {
    /// Handle the connection in the background, and go on accepting.
    Handle,
    /// Go on accepting, after a pause of [`ACCEPT_PAUSE`].
    GoOn,
    /// Stop accepting.
    Stop,
}

/// What to do on the listening socket after `event`.
pub open spec fn after_accept_event(event: AcceptEvent) -> AcceptAction {
    match event {
        AcceptEvent::Shutdown => AcceptAction::Stop,
        AcceptEvent::Accepted => AcceptAction::Handle,
        AcceptEvent::Failed(_) => AcceptAction::GoOn,
    }
}

/// What a client reports about itself after `event` on its listening socket.
pub open spec fn noted_on_accept(arti: ArtiView, event: AcceptEvent) -> ArtiView {
    match event {
        AcceptEvent::Failed(e) => arti.after(ClientEvent::AcceptFailed(e)),
        _ => arti,
    }
}

/// Takes note of what happened on the listening socket and decides what to do
/// next: accept connections until a shutdown is signalled. A failure to accept
/// one is kept as the client's most recent error.
pub fn accept_loop(arti: &mut Arti, event: AcceptEvent) -> (action: AcceptAction)
    ensures
        action == after_accept_event(event),
        final(arti)@ == noted_on_accept(old(arti)@, event),
{
    match event {
        AcceptEvent::Shutdown => AcceptAction::Stop,
        AcceptEvent::Accepted => AcceptAction::Handle,
        AcceptEvent::Failed(e) => {
            arti.note(ClientEvent::AcceptFailed(e));
            AcceptAction::GoOn
        },
    }
}

} // verus!
