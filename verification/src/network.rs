//! Failures of a session, and what a time limit that ran out means.
//!
//! The program around this crate races each unit of work against a timer and
//! reports what came of it as an [`Outcome`]. The functions here turn that
//! report into the result that the caller of the session sees.

use vstd::prelude::*;

verus! {

/// The stage code of a send.
pub const SENDING: u8 = 1;

/// The stage code of a receive.
pub const RECEIVING: u8 = 2;

/// The stage code of connecting and the handshake.
pub const CONNECTING: u8 = 3;

/// Why an operation on a session failed.
#[derive(Debug)]
pub enum NetworkError {
    /// A time limit ran out: the stage's code and the limit in seconds.
    Timeout(u8, u64),
    /// The server could not be reached or the handshake was refused. The
    /// text is the codec's account of it.
    StarterError(String),
    /// A message could not be sent or received. The text is the codec's
    /// account of it.
    PacketError(String),
    /// Data could not be written to or read from a buffer.
    BufError(std::io::Error),
    /// An earlier failure lost the cipher: the session is of no more use.
    BrokenCipher(),
    /// The server answered that it does not offer the named function.
    FunctionNotAvailable(String),
}

/// What came of one unit of work that was raced against a timer.
pub enum Outcome<T> {
    /// The work finished in time with this result.
    Done(T),
    /// The work failed in time; the text is the codec's account of it.
    Failed(String),
    /// The timer ran out first and the work was abandoned.
    TimedOut,
}

/// The name of the stage with the given code, as a timeout message prints it.
pub open spec fn stage_name_of(stage: u8) -> Seq<char> {
    if stage == SENDING {
        "Sending"@
    } else if stage == RECEIVING {
        "Receiving"@
    } else {
        "Connecting"@
    }
}

/// The result of a send or receive that ended with `outcome` under a limit of
/// `idle` seconds.
pub open spec fn exchanged<T>(outcome: Outcome<T>, stage: u8, idle: u64) -> Result<T, NetworkError> {
    match outcome {
        Outcome::Done(value) => Ok(value),
        Outcome::Failed(text) => Err(NetworkError::PacketError(text)),
        Outcome::TimedOut => Err(NetworkError::Timeout(stage, idle)),
    }
}

/// The result of a handshake that ended with `outcome` under a limit of
/// `connect` seconds.
pub open spec fn started<C>(outcome: Outcome<C>, connect: u64) -> Result<C, NetworkError> {
    match outcome {
        Outcome::Done(cipher) => Ok(cipher),
        Outcome::Failed(text) => Err(NetworkError::StarterError(text)),
        Outcome::TimedOut => Err(NetworkError::Timeout(CONNECTING, connect)),
    }
}

impl NetworkError {
    /// Whether the session is lost with this failure. Only the answer that a
    /// function is not offered leaves the session in use.
    pub open spec fn fatal(&self) -> bool {
        !(self is FunctionNotAvailable)
    }

    /// Whether the session is lost with this failure.
    pub fn is_fatal(&self) -> (fatal: bool)
        ensures
            fatal == self.fatal(),
    {
        match self {
            NetworkError::FunctionNotAvailable(_) => false,
            _ => true,
        }
    }
}

/// The name of the stage with the given code.
pub fn stage_name(stage: u8) -> (name: &'static str)
    ensures
        name@ == stage_name_of(stage),
{
    if stage == SENDING {
        "Sending"
    } else if stage == RECEIVING {
        "Receiving"
    } else {
        "Connecting"
    }
}

/// Settles a send: the successor cipher where the codec finished in time, a
/// packet failure where it failed, a timeout of the sending stage where the
/// limit of `idle` seconds ran out.
pub fn send<C>(outcome: Outcome<C>, idle: u64) -> (result: Result<C, NetworkError>)
    ensures
        result == exchanged(outcome, SENDING, idle),
{
    match outcome {
        Outcome::Done(cipher) => Ok(cipher),
        Outcome::Failed(text) => Err(NetworkError::PacketError(text)),
        Outcome::TimedOut => Err(NetworkError::Timeout(SENDING, idle)),
    }
}

/// Settles a receive: the message and the successor cipher where the codec
/// finished in time, a packet failure where it failed, a timeout of the
/// receiving stage where the limit of `idle` seconds ran out.
pub fn recv<C>(outcome: Outcome<(Vec<u8>, C)>, idle: u64) -> (result: Result<
    (Vec<u8>, C),
    NetworkError,
>)
    ensures
        result == exchanged(outcome, RECEIVING, idle),
{
    match outcome {
        Outcome::Done(received) => Ok(received),
        Outcome::Failed(text) => Err(NetworkError::PacketError(text)),
        Outcome::TimedOut => Err(NetworkError::Timeout(RECEIVING, idle)),
    }
}

/// Settles a handshake: the first cipher where the server was reached and the
/// handshake finished in time, a starter failure where either failed, a
/// timeout of the connecting stage where the limit of `connect` seconds ran
/// out. No cipher comes out of a handshake that ran out of time.
pub fn start_client<C>(outcome: Outcome<C>, connect: u64) -> (result: Result<C, NetworkError>)
    ensures
        result == started(outcome, connect),
        outcome is TimedOut ==> result == Err::<C, NetworkError>(
            NetworkError::Timeout(CONNECTING, connect),
        ),
{
    match outcome {
        Outcome::Done(cipher) => Ok(cipher),
        Outcome::Failed(text) => Err(NetworkError::StarterError(text)),
        Outcome::TimedOut => Err(NetworkError::Timeout(CONNECTING, connect)),
    }
}

} // verus!
