//! A single-threaded relay for local datagram sockets.
//!
//! The relay receives one datagram at a time on a source endpoint and
//! forwards it to a destination endpoint, opening a fresh destination
//! connection for every message. All of the relay's decisions — endpoint
//! setup and recovery, per-message forwarding, and error reporting — are
//! captured by the state machine in [`relay`], whose transitions are
//! verified. The laws in [`laws`] state the machine's guarantees:
//! received bytes are forwarded unchanged, a stale source socket is
//! recovered, and per-message failures never stop the relay.
//!
//! The machine itself performs no I/O: a driver performs each
//! [`relay::Command`], translates the outcome into a [`relay::Event`],
//! and hands it back to [`relay::step`].

pub mod laws;
pub mod relay;

use vstd::prelude::*;

verus! {

/// The relay's immutable configuration: where to listen and where to send.
#[derive(Debug)]
pub struct Config {
    /// Filesystem path of the source (listening) datagram endpoint.
    pub srcpath: String,
    /// Filesystem path of the destination datagram endpoint.
    pub dstpath: String,
}

impl Config {
    /// Builds a configuration from a program's argument list.
    ///
    /// The first argument is skipped (by convention it is the program
    /// name); the next two are the source path and the destination path.
    /// Fewer than two usable arguments is an error.
    pub fn new(args: &[String]) -> (r: Result<Config, &'static str>)
        ensures
            args@.len() >= 3 ==> (r matches Ok(c)
                && c.srcpath@ == args@[1]@
                && c.dstpath@ == args@[2]@),
            args@.len() < 3 ==> (r matches Err(m) && m@ == "not enough arguments!"@),
    {
        if args.len() < 3 {
            return Err("not enough arguments!");
        }

        let srcpath = args[1].clone();
        let dstpath = args[2].clone();

        Ok(Config { srcpath, dstpath })
    }
}

} // verus!
