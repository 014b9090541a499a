//! The decisions of arti-c, a minimal library that runs the Arti Tor client
//! in-process and serves a local SOCKS proxy on `127.0.0.1:<port>`.
//!
//! Nothing here touches a socket, a thread or a clock. The functions of this
//! crate are told what happened and answer with what to do next; a thin layer
//! around them does it.
//!
//! * [`handle`]: what a running client reports about itself.
//! * [`startup`]: starting a client, and the life of the thread that runs it.
//! * [`socks`]: the SOCKS proxy, one connection at a time.
//! * [`tcp_mark`]: a TCP provider that puts a firewall mark on its sockets.
//! * [`ip`], [`text`], [`error`]: address literals, decimal numbers, messages.
//! * [`proto`]: the SOCKS wire protocol of `tor_socksproto`.
//! * [`laws`], [`ip_laws`]: what holds of all of this together.

pub mod error;
pub mod handle;
pub mod ip;
pub mod ip_laws;
pub mod laws;
pub mod proto;
pub mod socks;
pub mod startup;
pub mod tcp_mark;
pub mod text;

pub use error::{set_err, ErrorSlot};
pub use handle::{
    arti_is_ready, arti_last_error, arti_socks_port, arti_stop, arti_version, Arti, ClientEvent,
    StopStep,
};
pub use startup::{arti_start, finish_start, StartOutcome, StartPlan, StartResult};
pub use tcp_mark::{MarkedIncoming, MarkedTcpListener, MarkedTcpProvider};
