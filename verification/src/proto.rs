//! The SOCKS wire protocol, as `tor_socksproto` speaks it.
//!
//! Everything in this module is a thin layer over that crate. What the crate
//! computes is either stated here byte for byte (replies) or given a name
//! (`stepped`, the `request_*` functions) that the rest of the library builds
//! its contracts on.

use vstd::prelude::*;

use crate::ip::{ip_of, IpAddr};

verus! {

/// `tor_socksproto::SocksProxyHandshake`, the proxy's side of a handshake.
#[verifier::external_type_specification]
#[verifier::external_body]
pub struct ExSocksProxyHandshake(tor_socksproto::SocksProxyHandshake);

/// `tor_socksproto::SocksRequest`, what a client asked for.
#[verifier::external_type_specification]
#[verifier::external_body]
pub struct ExSocksRequest(tor_socksproto::SocksRequest);

/// The bytes read from a client and not yet consumed by its handshake: a
/// `tor_socksproto::Buffer`.
#[verifier::external_body]
pub struct InputBuffer {
    inner: tor_socksproto::Buffer,
}

/// What the buffer holds, oldest byte first.
pub uninterp spec fn buffered(buffer: InputBuffer) -> Seq<u8>;

/// How many bytes the buffer was made to hold.
pub uninterp spec fn capacity(buffer: InputBuffer) -> nat;

impl InputBuffer {
    /// `tor_socksproto::Buffer::new`: an empty buffer for 1024 bytes.
    #[verifier::external_body]
    pub(crate) fn new() -> (buffer: InputBuffer)
        ensures
            buffered(buffer) == Seq::<u8>::empty(),
            capacity(buffer) == 1024,
    {
        InputBuffer { inner: tor_socksproto::Buffer::new() }
    }

    /// `tor_socksproto::Buffer::unfilled_slice`: the free part of the buffer,
    /// of which the length is returned. The buffer keeps what it holds.
    #[verifier::external_body]
    pub(crate) fn room(&mut self) -> (n: usize)
        ensures
            n + buffered(*old(self)).len() == capacity(*old(self)),
            *final(self) == *old(self),
    {
        self.inner.unfilled_slice().len()
    }

    /// `tor_socksproto::Buffer::note_received`, after `data` was put at the
    /// start of the free part: the buffer then holds `data` behind what it held.
    #[verifier::external_body]
    pub(crate) fn note_received(&mut self, data: &[u8])
        requires
            0 < data@.len(),
            data@.len() + buffered(*old(self)).len() <= capacity(*old(self)),
        ensures
            buffered(*final(self)) == buffered(*old(self)) + data@,
            capacity(*final(self)) == capacity(*old(self)),
    {
        let len = std::num::NonZeroUsize::new(data.len()).unwrap();
        self.inner.unfilled_slice()[..data.len()].copy_from_slice(data);
        self.inner.note_received(len);
    }
}

/// What a handshake asks for next.
pub enum Outcome {
    /// More bytes from the client.
    Receive,
    /// These bytes are to be sent to the client.
    Send(Seq<u8>),
    /// The client has made its request.
    Finished(tor_socksproto::SocksRequest),
    /// The client does not speak the protocol.
    Failed,
}

/// What `Handshake::step` makes of a handshake, the bytes that its buffer holds
/// and the size of that buffer: the handshake afterwards, the bytes that are
/// left, and what to do next.
pub uninterp spec fn stepped(
    handshake: tor_socksproto::SocksProxyHandshake,
    input: Seq<u8>,
    size: nat,
) -> (tor_socksproto::SocksProxyHandshake, Seq<u8>, Outcome);

/// A step of a handshake that is not allowed to leave bytes behind: with `rest`
/// left over when the client has made its request, the client sent payload
/// before it was told to, and has failed.
pub open spec fn forbid_pipelining(outcome: Outcome, rest: Seq<u8>) -> Outcome {
    if outcome is Finished && rest.len() > 0 {
        Outcome::Failed
    } else {
        outcome
    }
}

/// What a handshake asks for next.
pub enum Step {
    Receive,
    Send(Vec<u8>),
    Finished(tor_socksproto::SocksRequest),
    Failed,
}

impl Step {
    pub open spec fn view(&self) -> Outcome {
        match *self {
            Step::Receive => Outcome::Receive,
            Step::Send(data) => Outcome::Send(data@),
            Step::Finished(request) => Outcome::Finished(request),
            Step::Failed => Outcome::Failed,
        }
    }
}

/// `tor_socksproto::SocksProxyHandshake::new`: a handshake that has seen nothing
/// yet. It fails on a client whose first byte names neither SOCKS4 nor SOCKS5.
/// How it goes on with any other client is left to `stepped`.
#[verifier::external_body]
pub(crate) fn new_handshake() -> (handshake: tor_socksproto::SocksProxyHandshake)
    ensures
        forall|input: Seq<u8>, size: nat|
            input.len() > 0 && input[0] != 4 && input[0] != 5 ==> (#[trigger] stepped(
                handshake,
                input,
                size,
            )).2 == Outcome::Failed,
{
    tor_socksproto::SocksProxyHandshake::new()
}

/// `tor_socksproto::Handshake::step`, and for a finished handshake
/// `tor_socksproto::Finished::into_output_forbid_pipelining`.
///
/// The step is the one that `stepped` names, with bytes left behind a request
/// taken as a failure. The buffer keeps its size. A step that asks for more
/// bytes has consumed none and left room for at least one. With nothing to look
/// at in a buffer that has room, the step asks for more bytes.
#[verifier::external_body]
pub(crate) fn handshake_step(
    handshake: &mut tor_socksproto::SocksProxyHandshake,
    inbuf: &mut InputBuffer,
) -> (step: Step)
    ensures
        ({
            let (after, rest, outcome) = stepped(
                *old(handshake),
                buffered(*old(inbuf)),
                capacity(*old(inbuf)),
            );
            &&& *final(handshake) == after
            &&& buffered(*final(inbuf)) == rest
            &&& step@ == forbid_pipelining(outcome, rest)
        }),
        capacity(*final(inbuf)) == capacity(*old(inbuf)),
        step is Receive ==> buffered(*final(inbuf)) == buffered(*old(inbuf)) && buffered(
            *final(inbuf),
        ).len() < capacity(*final(inbuf)),
        buffered(*old(inbuf)).len() == 0 && capacity(*old(inbuf)) > 0 ==> step is Receive,
{
    match tor_socksproto::Handshake::step(handshake, &mut inbuf.inner) {
        Ok(tor_socksproto::NextStep::Recv(_)) => Step::Receive,
        Ok(tor_socksproto::NextStep::Send(data)) => Step::Send(data),
        Ok(tor_socksproto::NextStep::Finished(fin)) => match fin.into_output_forbid_pipelining() {
            Ok(request) => Step::Finished(request),
            Err(_) => Step::Failed,
        },
        Err(_) => Step::Failed,
    }
}

/// The destination of a request: an address, or a name to look up.
pub enum Target {
    Ip(IpAddr),
    Name(Seq<char>),
}

/// `SocksRequest::version` as the number that the client sent, 4 or 5.
pub uninterp spec fn request_version(request: tor_socksproto::SocksRequest) -> u8;

/// `SocksRequest::command` as the number that the client sent.
pub uninterp spec fn request_command(request: tor_socksproto::SocksRequest) -> u8;

/// `SocksRequest::port`.
pub uninterp spec fn request_port(request: tor_socksproto::SocksRequest) -> u16;

/// `SocksRequest::addr`.
pub uninterp spec fn request_target(request: tor_socksproto::SocksRequest) -> Target;

/// `SocksRequest::addr` as text.
pub uninterp spec fn request_addr(request: tor_socksproto::SocksRequest) -> Seq<char>;

/// `tor_socksproto::SocksRequest::command`.
#[verifier::external_body]
pub(crate) fn command(request: &tor_socksproto::SocksRequest) -> (command: u8)
    ensures
        command == request_command(*request),
{
    request.command().into()
}

/// `tor_socksproto::SocksRequest::port`.
#[verifier::external_body]
pub(crate) fn port(request: &tor_socksproto::SocksRequest) -> (port: u16)
    ensures
        port == request_port(*request),
{
    request.port()
}

/// `tor_socksproto::SocksRequest::addr`, written as text by `SocksAddr`'s
/// `to_string`: a name as it is, an address as a literal for that address.
#[verifier::external_body]
pub(crate) fn addr(request: &tor_socksproto::SocksRequest) -> (addr: String)
    ensures
        addr@ == request_addr(*request),
        match request_target(*request) {
            Target::Name(name) => addr@ == name,
            Target::Ip(ip) => ip_of(addr@) == Some(ip),
        },
{
    request.addr().to_string()
}

/// `n` as two bytes, the high one first.
pub open spec fn be16(n: u16) -> Seq<u8> {
    seq![(n / 256) as u8, (n % 256) as u8]
}

/// The bytes of an address, the high ones first.
pub open spec fn octets(ip: IpAddr) -> Seq<u8> {
    match ip {
        IpAddr::V4(a, b, c, d) => seq![a, b, c, d],
        IpAddr::V6(a, b, c, d, e, f, g, h) => be16(a) + be16(b) + be16(c) + be16(d) + be16(e)
            + be16(f) + be16(g) + be16(h),
    }
}

/// An address as SOCKS5 writes it: its kind, then its bytes.
pub open spec fn socks5_addr(ip: IpAddr) -> Seq<u8> {
    match ip {
        IpAddr::V4(..) => seq![1u8] + octets(ip),
        IpAddr::V6(..) => seq![4u8] + octets(ip),
    }
}

/// The unspecified address of the family that the request named; that of IPv4
/// for a name.
pub open spec fn unspecified(target: Target) -> IpAddr {
    if target is Ip && target->Ip_0 is V6 {
        IpAddr::V6(0, 0, 0, 0, 0, 0, 0, 0)
    } else {
        IpAddr::V4(0, 0, 0, 0)
    }
}

/// The reply to a request of SOCKS `version` for `target` and `port`, with
/// `status`, and with an address when one was asked for.
///
/// A SOCKS4 reply only tells success (90) from failure (91), and can carry an
/// IPv4 address. A SOCKS5 reply carries the status itself, then an address and
/// a port: `answer` and the requested port, or the unspecified address and
/// zero.
pub open spec fn reply_bytes(
    version: u8,
    target: Target,
    port: u16,
    status: u8,
    answer: Option<IpAddr>,
) -> Seq<u8> {
    if version == 4 {
        seq![0u8, if status == 0 { 90u8 } else { 91u8 }] + match answer {
            Some(IpAddr::V4(a, b, c, d)) => be16(port) + seq![a, b, c, d],
            _ => be16(0) + seq![0u8, 0u8, 0u8, 0u8],
        }
    } else {
        seq![5u8, status, 0u8] + match answer {
            Some(ip) => socks5_addr(ip) + be16(port),
            None => socks5_addr(unspecified(target)) + be16(0),
        }
    }
}

/// `tor_socksproto::SocksRequest::reply`. Formatting a reply without an address
/// or with an IP address does not fail; the bytes are those of `reply_bytes`.
#[verifier::external_body]
pub(crate) fn reply(
    request: &tor_socksproto::SocksRequest,
    status: u8,
    answer: Option<IpAddr>,
) -> (bytes: Option<Vec<u8>>)
    ensures
        bytes is Some,
        bytes->0@ == reply_bytes(
            request_version(*request),
            request_target(*request),
            request_port(*request),
            status,
            answer,
        ),
{
    let answer = match answer {
        Some(IpAddr::V4(a, b, c, d)) => Some(tor_socksproto::SocksAddr::Ip([a, b, c, d].into())),
        Some(IpAddr::V6(a, b, c, d, e, f, g, h)) => Some(
            tor_socksproto::SocksAddr::Ip([a, b, c, d, e, f, g, h].into()),
        ),
        None => None,
    };
    request.reply(status.into(), answer.as_ref()).ok()
}

} // verus!
