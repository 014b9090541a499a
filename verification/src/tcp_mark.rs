//! A TCP provider that stamps a firewall mark on every socket it opens.
//!
//! Hosts that carry a transparent VPN divert every outbound packet into a local
//! proxy, and pass packets with a certain mark (`SO_MARK`) through untouched.
//! The connections of the Tor client itself have to carry that mark, or they
//! would be fed back into the tunnel that they are supposed to carry.
//!
//! The mark has an effect only between `socket(2)` and `connect(2)`, so the
//! provider opens each socket itself. This module decides which steps that
//! takes, and in which order. A mark of zero means "do not mark".

use vstd::prelude::*;

use crate::ip::IpAddr;
use crate::text::{decimal, decimal_text};

verus! {

/// `tor_rtcompat::PreferredRuntime`, the stock runtime.
#[verifier::external_type_specification]
#[verifier::external_body]
pub struct ExPreferredRuntime(tor_rtcompat::PreferredRuntime);

/// `tor_rtcompat::PreferredRuntime::clone`: another handle on a runtime. Nothing
/// is stated of it.
pub assume_specification[ <tor_rtcompat::PreferredRuntime as Clone>::clone ](
    runtime: &tor_rtcompat::PreferredRuntime,
) -> tor_rtcompat::PreferredRuntime
;

/// What kind of error an operation ended with.
#[derive(Clone, Copy, Debug, PartialEq, Eq, Structural)]
pub enum IoErrorKind {
    Unsupported,
}

/// The error that an operation ended with.
#[derive(Clone, Copy, Debug)]
pub struct IoError {
    pub kind: IoErrorKind,
    pub message: &'static str,
}

/// The address family of a socket.
#[derive(Clone, Copy, Debug, PartialEq, Eq, Structural)]
pub enum Domain {
    Ipv4,
    Ipv6,
}

/// One step on the way to a connected socket. It is taken only when the steps
/// before it succeeded.
#[derive(Clone, Copy, Debug, PartialEq, Eq, Structural)]
pub enum SocketStep {
    /// Open a stream socket.
    Open(Domain),
    /// Set `SO_MARK` to this value.
    Mark(u32),
    /// Fail: the platform has no `SO_MARK`.
    RefuseMark,
    /// Make the socket non-blocking.
    SetNonblocking,
    /// Connect the socket.
    Connect,
}

/// The family of a socket that connects to `addr`.
pub open spec fn domain_of(addr: IpAddr) -> Domain {
    match addr {
        IpAddr::V4(..) => Domain::Ipv4,
        IpAddr::V6(..) => Domain::Ipv6,
    }
}

/// How a mark is put on a socket, on a platform with or without `SO_MARK`.
pub open spec fn mark_step(mark: u32, so_mark: bool) -> SocketStep {
    if so_mark {
        SocketStep::Mark(mark)
    } else {
        SocketStep::RefuseMark
    }
}

/// The steps that connect to `addr` with `mark`.
pub open spec fn connect_steps(mark: u32, addr: IpAddr, so_mark: bool) -> Seq<SocketStep> {
    if mark == 0 {
        seq![SocketStep::Open(domain_of(addr)), SocketStep::SetNonblocking, SocketStep::Connect]
    } else if so_mark {
        seq![
            SocketStep::Open(domain_of(addr)),
            SocketStep::Mark(mark),
            SocketStep::SetNonblocking,
            SocketStep::Connect,
        ]
    } else {
        seq![SocketStep::Open(domain_of(addr)), SocketStep::RefuseMark]
    }
}

/// Decides how `mark` is put on a socket. Without `SO_MARK` this fails, rather
/// than leave the socket unmarked: a caller that asked for an exemption must not
/// believe that it got one.
pub fn mark_socket(mark: u32, so_mark: bool) -> (step: SocketStep)
    ensures
        step == mark_step(mark, so_mark),
{
    if so_mark {
        SocketStep::Mark(mark)
    } else {
        SocketStep::RefuseMark
    }
}

/// A TCP provider that marks every socket it connects. Everything else is left
/// to the stock runtime.
pub struct MarkedTcpProvider {
    inner: tor_rtcompat::PreferredRuntime,
    mark: u32,
}

impl MarkedTcpProvider {
    /// The stock runtime.
    pub closed spec fn inner(&self) -> tor_rtcompat::PreferredRuntime {
        self.inner
    }

    /// The value for `SO_MARK`; zero disables marking.
    pub closed spec fn marks(&self) -> u32 {
        self.mark
    }

    /// Wraps `inner`, marking every connected socket with `mark`.
    pub fn new(inner: tor_rtcompat::PreferredRuntime, mark: u32) -> (provider: Self)
        ensures
            provider.inner() == inner,
            provider.marks() == mark,
    {
        MarkedTcpProvider { inner, mark }
    }

    /// The value for `SO_MARK`; zero disables marking.
    pub fn mark(&self) -> (mark: u32)
        ensures
            mark == self.marks(),
    {
        self.mark
    }

    /// The provider as text, for debugging: its name and its mark.
    pub fn debug_text(&self) -> (text: String)
        ensures
            text@ == "MarkedTcpProvider { mark: "@ + decimal(self.marks() as nat) + ", .. }"@,
    {
        let mut text = "MarkedTcpProvider { mark: ".to_owned();
        text.append(decimal_text(self.mark).as_str());
        text.append(", .. }");
        text
    }

    /// The stock runtime.
    pub fn runtime(&self) -> (runtime: &tor_rtcompat::PreferredRuntime)
        ensures
            *runtime == self.inner(),
    {
        &self.inner
    }

    /// Decides which steps connect to `addr`, on a platform with or without
    /// `SO_MARK`.
    pub fn connect(&self, addr: &IpAddr, so_mark: bool) -> (steps: Vec<SocketStep>)
        ensures
            steps@ == connect_steps(self.marks(), *addr, so_mark),
    {
        let domain = match addr {
            IpAddr::V4(..) => Domain::Ipv4,
            IpAddr::V6(..) => Domain::Ipv6,
        };
        let mut steps: Vec<SocketStep> = Vec::new();
        steps.push(SocketStep::Open(domain));
        if self.mark != 0 {
            let step = mark_socket(self.mark, so_mark);
            steps.push(step);
            if step == SocketStep::RefuseMark {
                return steps;
            }
        }
        steps.push(SocketStep::SetNonblocking);
        steps.push(SocketStep::Connect);
        steps
    }

    /// Always fails: the client opens connections and accepts none.
    pub fn listen(&self) -> (result: Result<MarkedTcpListener, IoError>)
        ensures
            result is Err,
            result->Err_0.kind == IoErrorKind::Unsupported,
            result->Err_0.message@ == "the marked TCP provider is client-only"@,
    {
        Err(
            IoError {
                kind: IoErrorKind::Unsupported,
                message: "the marked TCP provider is client-only",
            },
        )
    }
}

impl Clone for MarkedTcpProvider {
    /// A provider with the same mark, on a clone of the runtime.
    fn clone(&self) -> (provider: Self)
        ensures
            provider.marks() == self.marks(),
            vstd::pervasive::cloned(self.inner(), provider.inner()),
    {
        MarkedTcpProvider { inner: self.inner.clone(), mark: self.mark }
    }
}

/// The error that [`SocketStep::RefuseMark`] fails with.
pub fn mark_error() -> (error: IoError)
    ensures
        error.kind == IoErrorKind::Unsupported,
        error.message@ == "SO_MARK is not available on this platform"@,
{
    IoError {
        kind: IoErrorKind::Unsupported,
        message: "SO_MARK is not available on this platform",
    }
}

/// A listener. There is none: [`MarkedTcpProvider::listen`] always fails.
pub struct MarkedTcpListener {
    _never: std::convert::Infallible,
}

/// The incoming connections of a [`MarkedTcpListener`]. There are none.
pub struct MarkedIncoming {
    _never: std::convert::Infallible,
}

impl MarkedTcpListener {
    /// The evidence that there is no listener.
    pub closed spec fn evidence(&self) -> std::convert::Infallible {
        self._never
    }

    /// The evidence that there is no listener.
    pub fn never(&self) -> (never: std::convert::Infallible)
        ensures
            never == self.evidence(),
    {
        self._never
    }

    /// The incoming connections: there are none, as there is no listener.
    pub fn incoming(self) -> (incoming: MarkedIncoming)
        ensures
            incoming.evidence() == self.evidence(),
    {
        MarkedIncoming { _never: self._never }
    }
}

impl MarkedIncoming {
    /// The evidence that there are no incoming connections.
    pub closed spec fn evidence(&self) -> std::convert::Infallible {
        self._never
    }

    /// The evidence that there are no incoming connections.
    pub fn never(&self) -> (never: std::convert::Infallible)
        ensures
            never == self.evidence(),
    {
        self._never
    }
}

} // verus!
