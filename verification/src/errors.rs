//! Failures of a client whose time limits are durations, and what becomes
//! of each unit of work that such a client waits for.

use crate::buffer::read_bool;
use crate::network::Outcome;
use std::time::Duration;
use vstd::prelude::*;

verus! {

/// Why an operation of a client failed.
#[derive(Debug)]
pub enum Error {
    /// A time limit ran out: `true` while connecting, `false` while
    /// receiving, and the limit that was in force.
    Timeout(bool, Duration),
    /// The server could not be reached or the handshake was refused. The
    /// text is the codec's account of it.
    StarterError(String),
    /// A message could not be sent or received. The text is the codec's
    /// account of it.
    PacketError(String),
    /// Data could not be written to or read from a buffer.
    DataError(std::io::Error),
    /// The server answered that it does not offer the function.
    ServerDenied,
}

/// Settles connecting and the handshake under a limit of `timeout`: the
/// client where both finished in time, a starter failure where either failed,
/// a timeout while connecting where the limit ran out.
pub fn connect<T>(outcome: Outcome<T>, timeout: Duration) -> (result: Result<T, Error>)
    ensures
        result == (match outcome {
            Outcome::Done(client) => Ok(client),
            Outcome::Failed(text) => Err(Error::StarterError(text)),
            Outcome::TimedOut => Err(Error::Timeout(true, timeout)),
        }),
{
    match outcome {
        Outcome::Done(client) => Ok(client),
        Outcome::Failed(text) => Err(Error::StarterError(text)),
        Outcome::TimedOut => Err(Error::Timeout(true, timeout)),
    }
}

/// Settles a send, which runs under no limit: a packet failure where the
/// codec failed.
pub fn send(outcome: Result<(), String>) -> (result: Result<(), Error>)
    ensures
        result == (match outcome {
            Ok(_) => Ok(()),
            Err(text) => Err(Error::PacketError(text)),
        }),
{
    match outcome {
        Ok(_) => Ok(()),
        Err(text) => Err(Error::PacketError(text)),
    }
}

/// Settles a receive under a limit of `timeout`: the message where it came
/// in time, a packet failure where the codec failed, a timeout while
/// receiving where the limit ran out.
pub fn recv(outcome: Outcome<Vec<u8>>, timeout: Duration) -> (result: Result<Vec<u8>, Error>)
    ensures
        result == (match outcome {
            Outcome::Done(message) => Ok(message),
            Outcome::Failed(text) => Err(Error::PacketError(text)),
            Outcome::TimedOut => Err(Error::Timeout(false, timeout)),
        }),
{
    match outcome {
        Outcome::Done(message) => Ok(message),
        Outcome::Failed(text) => Err(Error::PacketError(text)),
        Outcome::TimedOut => Err(Error::Timeout(false, timeout)),
    }
}

/// Reads the server's answer to the question whether it offers a function:
/// success where the reply starts with 1, `ServerDenied` where it starts
/// with 0, a data failure where it is empty or starts with anything else.
pub fn check_func(reply: &[u8]) -> (result: Result<(), Error>)
    ensures
        match result {
            Ok(_) => reply@.len() > 0 && reply@[0] == 1,
            Err(Error::ServerDenied) => reply@.len() > 0 && reply@[0] == 0,
            Err(Error::DataError(_)) => reply@.len() == 0 || reply@[0] > 1,
            Err(_) => false,
        },
{
    match read_bool(reply) {
        Ok(true) => Ok(()),
        Ok(false) => Err(Error::ServerDenied),
        Err(failure) => Err(Error::DataError(failure)),
    }
}

} // verus!
