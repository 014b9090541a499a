//! What a running client reports about itself.

use vstd::prelude::*;

use crate::error::{error_text, set_err, ErrorSlot};

verus! {

/// The name of the library, followed by its version.
pub const VERSION: &'static str = "arti-c 0.1.0";

/// The state of a client.
pub struct ArtiView {
    /// The client has bootstrapped onto the Tor network.
    pub ready: bool,
    /// The client cannot bootstrap, or has ended with an error.
    pub failed: bool,
    /// The port that the SOCKS proxy listens on; zero before it does.
    pub socks_port: u16,
    /// The most recent error.
    pub last_error: Option<Seq<char>>,
}

/// Something that happened to a client.
pub enum ClientEvent {
    /// The SOCKS proxy listens on this port.
    Listening(u16),
    /// The client has bootstrapped.
    Bootstrapped,
    /// The client could not bootstrap, for this reason.
    BootstrapFailed(String),
    /// The SOCKS proxy could not accept a connection, for this reason.
    AcceptFailed(String),
    /// The client ended with this error.
    Ended(String),
}

impl ArtiView {
    /// A client that was just started.
    pub open spec fn started() -> ArtiView {
        ArtiView { ready: false, failed: false, socks_port: 0, last_error: None }
    }

    /// The client after `event`.
    pub open spec fn after(self, event: ClientEvent) -> ArtiView {
        match event {
            ClientEvent::Listening(port) => ArtiView { socks_port: port, ..self },
            ClientEvent::Bootstrapped => ArtiView { ready: true, ..self },
            ClientEvent::BootstrapFailed(e) => ArtiView {
                failed: true,
                last_error: Some(error_text("bootstrap failed: "@ + e@)),
                ..self
            },
            ClientEvent::AcceptFailed(e) => ArtiView {
                last_error: Some(error_text("error accepting SOCKS connection: "@ + e@)),
                ..self
            },
            ClientEvent::Ended(msg) => ArtiView {
                failed: true,
                last_error: Some(error_text(msg@)),
                ..self
            },
        }
    }

    /// The client after `events`, one after the other.
    pub open spec fn after_all(self, events: Seq<ClientEvent>) -> ArtiView
        decreases events.len(),
    {
        if events.len() == 0 {
            self
        } else {
            self.after_all(events.drop_last()).after(events.last())
        }
    }

    /// 1 if the client is ready, 0 if it is still connecting, -1 if it failed.
    pub open spec fn readiness(self) -> int {
        if self.failed {
            -1
        } else if self.ready {
            1
        } else {
            0
        }
    }
}

/// A running client, as far as its users can see it.
pub struct Arti {
    ready: bool,
    failed: bool,
    socks_port: u16,
    last_error: ErrorSlot,
}

impl Arti {
    pub closed spec fn view(&self) -> ArtiView {
        ArtiView {
            ready: self.ready,
            failed: self.failed,
            socks_port: self.socks_port,
            last_error: self.last_error@,
        }
    }

    #[verifier::type_invariant]
    spec fn failure_explained(&self) -> bool {
        self.failed ==> self.last_error@ is Some
    }

    /// A client that was just started.
    pub fn new() -> (arti: Arti)
        ensures
            arti@ == ArtiView::started(),
    {
        Arti { ready: false, failed: false, socks_port: 0, last_error: ErrorSlot::empty() }
    }

    /// Takes note of something that happened to the client.
    pub fn note(&mut self, event: ClientEvent)
        ensures
            final(self)@ == old(self)@.after(event),
    {
        proof {
            use_type_invariant(&*self);
        }
        match event {
            ClientEvent::Listening(port) => {
                self.socks_port = port;
            },
            ClientEvent::Bootstrapped => {
                self.ready = true;
            },
            ClientEvent::BootstrapFailed(e) => {
                let mut msg = "bootstrap failed: ".to_owned();
                msg.append(e.as_str());
                self.keep(true, msg);
            },
            ClientEvent::AcceptFailed(e) => {
                let mut msg = "error accepting SOCKS connection: ".to_owned();
                msg.append(e.as_str());
                let failed = self.failed;
                self.keep(failed, msg);
            },
            ClientEvent::Ended(msg) => {
                self.keep(true, msg);
            },
        }
    }

    /// Keeps `msg` as the most recent error.
    fn keep(&mut self, failed: bool, msg: String)
        ensures
            final(self)@ == (ArtiView {
                failed,
                last_error: Some(error_text(msg@)),
                ..old(self)@
            }),
    {
        let mut slot = ErrorSlot::empty();
        set_err(&mut slot, msg);
        *self =
        Arti { ready: self.ready, failed, socks_port: self.socks_port, last_error: slot };
    }
}

/// The name and version of the library. The text contains no NUL.
pub fn arti_version() -> (version: &'static str)
    ensures
        version@ == "arti-c 0.1.0"@,
        !version@.contains('\0'),
{
    proof {
        reveal_strlit("arti-c 0.1.0");
    }
    VERSION
}

/// Returns 1 if the client has fully bootstrapped onto the Tor network, 0 if it
/// is still connecting, and -1 on error, which includes a missing client. The
/// most recent error then says why the client failed.
pub fn arti_is_ready(a: Option<&Arti>) -> (ready: i32)
    ensures
        ready == (match a {
            Some(arti) => arti@.readiness(),
            None => -1,
        }),
        a matches Some(arti) ==> (ready == -1 ==> arti@.last_error is Some),
{
    match a {
        Some(arti) => {
            proof {
                use_type_invariant(arti);
            }
            if arti.failed {
                -1
            } else if arti.ready {
                1
            } else {
                0
            }
        },
        None => -1,
    }
}

/// Returns the port that the SOCKS proxy is actually listening on, or 0 without
/// a client.
pub fn arti_socks_port(a: Option<&Arti>) -> (port: u16)
    ensures
        port == (match a {
            Some(arti) => arti@.socks_port,
            None => 0u16,
        }),
{
    match a {
        Some(arti) => arti.socks_port,
        None => 0,
    }
}

/// Returns the most recent error of a client, if there is one; without a client,
/// the error of the most recent failed start, if one failed. The text contains
/// no NUL.
pub fn arti_last_error<'a>(a: Option<&'a Arti>, startup_error: &'a ErrorSlot) -> (text: Option<
    &'a str,
>)
    ensures
        ({
            let kept = match a {
                Some(arti) => arti@.last_error,
                None => startup_error@,
            };
            &&& text is Some <==> kept is Some
            &&& text matches Some(t) ==> kept == Some(t@) && !t@.contains('\0')
        }),
{
    match a {
        Some(arti) => arti.last_error.message(),
        None => startup_error.message(),
    }
}

/// A step of stopping a client.
#[derive(Clone, Copy, Debug, PartialEq, Eq, Structural)]
pub enum StopStep {
    /// Signal the shutdown to the client's thread.
    Signal,
    /// Wait for the client's thread to end.
    Join,
    /// Free the client's handle.
    Free,
}

/// The steps that stop a client, if there is one.
pub open spec fn stop_steps(running: bool) -> Seq<StopStep> {
    if running {
        seq![StopStep::Signal, StopStep::Join, StopStep::Free]
    } else {
        Seq::empty()
    }
}

/// Decides which steps stop a client. Without a client there is nothing to do.
pub fn arti_stop(a: Option<&Arti>) -> (steps: Vec<StopStep>)
    ensures
        steps@ == stop_steps(a is Some),
{
    match a {
        Some(_) => vec![StopStep::Signal, StopStep::Join, StopStep::Free],
        None => vec![],
    }
}

} // verus!
