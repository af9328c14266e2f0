//! The operations of a session: send, receive, send and then receive, and
//! the question whether the server offers a function.
//!
//! Each operation is cut where it waits for the network. The part before
//! asks the slot for the cipher and says what is to be run; the program runs
//! it and reports the outcome; the part after puts the successor cipher back,
//! or breaks the slot, and gives the caller's result.

use crate::buffer::{read_bool, string_frame, write_string};
use crate::configuration::{get_idle_sec, Configuration};
use crate::mutable_cipher::{
    answer_of_get, lemma_broken_stays_broken, state_after_events, state_after_get,
    state_after_reset, Checkout, MutableCipher, SlotEvent, SlotState,
};
use crate::network::{exchanged, NetworkError, Outcome, RECEIVING, SENDING};
use vstd::prelude::*;

verus! {

/// What the program is to do for an operation that has begun.
pub enum Step<C> {
    /// Run the codec with this cipher and give it this many seconds.
    Run(C, u64),
    /// Another operation holds the cipher. Begin again when it has finished.
    Wait,
}

/// What beginning an operation answers on a slot in `state`, with a limit of
/// `idle` seconds in force.
pub open spec fn begun<C>(state: SlotState<C>, idle: u64) -> Result<Step<C>, NetworkError> {
    match answer_of_get(state) {
        Checkout::Granted(cipher) => Ok(Step::Run(cipher, idle)),
        Checkout::Wait => Ok(Step::Wait),
        Checkout::Broken => Err(NetworkError::BrokenCipher()),
    }
}

/// The cipher that an outcome returns to the slot: the successor, where the
/// codec delivered one.
pub open spec fn successor_sent<C>(outcome: Outcome<C>) -> Option<C> {
    match outcome {
        Outcome::Done(cipher) => Some(cipher),
        _ => None,
    }
}

/// The cipher that the outcome of a receive returns to the slot.
pub open spec fn successor_received<C>(outcome: Outcome<(Vec<u8>, C)>) -> Option<C> {
    match outcome {
        Outcome::Done(received) => Some(received.1),
        _ => None,
    }
}

/// The result of a finished send. An outcome that the slot was not waiting
/// for is no success.
pub open spec fn sent<C>(state: SlotState<C>, outcome: Outcome<C>, idle: u64) -> Result<
    (),
    NetworkError,
> {
    match exchanged(outcome, SENDING, idle) {
        Ok(_) => if state is Busy {
            Ok(())
        } else {
            Err(NetworkError::BrokenCipher())
        },
        Err(failure) => Err(failure),
    }
}

/// The result of a finished receive. An outcome that the slot was not
/// waiting for is no success.
pub open spec fn received<C>(
    state: SlotState<C>,
    outcome: Outcome<(Vec<u8>, C)>,
    idle: u64,
) -> Result<Vec<u8>, NetworkError> {
    match exchanged(outcome, RECEIVING, idle) {
        Ok(message) => if state is Busy {
            Ok(message.0)
        } else {
            Err(NetworkError::BrokenCipher())
        },
        Err(failure) => Err(failure),
    }
}

/// Begins an operation: asks the slot for the cipher and reads the limit
/// that is in force now.
fn begin<C>(slot: &mut MutableCipher<C>, config: &Configuration) -> (step: Result<
    Step<C>,
    NetworkError,
>)
    ensures
        step == begun(old(slot)@, config.idle_sec),
        final(slot)@ == state_after_get(old(slot)@),
{
    match slot.get() {
        Checkout::Granted(cipher) => Ok(Step::Run(cipher, get_idle_sec(config))),
        Checkout::Wait => Ok(Step::Wait),
        Checkout::Broken => Err(NetworkError::BrokenCipher()),
    }
}

/// Begins a send. On an idle slot the answer is to run the codec with the
/// slot's cipher under the idle limit that `config` holds at this moment,
/// and the slot is busy from now on. On a busy slot the answer is to wait.
/// On a broken slot the send fails at once and nothing is to be run.
pub fn send_begin<C>(slot: &mut MutableCipher<C>, config: &Configuration) -> (step: Result<
    Step<C>,
    NetworkError,
>)
    ensures
        step == begun(old(slot)@, config.idle_sec),
        final(slot)@ == state_after_get(old(slot)@),
{
    begin(slot, config)
}

/// Finishes a send that ran under a limit of `idle` seconds. The successor
/// cipher goes back into the slot; after a failure or a timeout the slot is
/// broken and the failure is returned.
pub fn send_end<C>(slot: &mut MutableCipher<C>, idle: u64, outcome: Outcome<C>) -> (result: Result<
    (),
    NetworkError,
>)
    ensures
        result == sent(old(slot)@, outcome, idle),
        final(slot)@ == state_after_reset(old(slot)@, successor_sent(outcome)),
{
    let waiting = slot.is_locked();
    match crate::network::send(outcome, idle) {
        Ok(cipher) => {
            slot.reset(Some(cipher));
            if waiting {
                Ok(())
            } else {
                Err(NetworkError::BrokenCipher())
            }
        },
        Err(failure) => {
            slot.reset(None);
            Err(failure)
        },
    }
}

/// Begins a receive, as [`send_begin`] begins a send.
pub fn recv_begin<C>(slot: &mut MutableCipher<C>, config: &Configuration) -> (step: Result<
    Step<C>,
    NetworkError,
>)
    ensures
        step == begun(old(slot)@, config.idle_sec),
        final(slot)@ == state_after_get(old(slot)@),
{
    begin(slot, config)
}

/// Finishes a receive that ran under a limit of `idle` seconds. The
/// successor cipher goes back into the slot and the message is returned;
/// after a failure or a timeout the slot is broken and the failure is
/// returned.
pub fn recv_end<C>(
    slot: &mut MutableCipher<C>,
    idle: u64,
    outcome: Outcome<(Vec<u8>, C)>,
) -> (result: Result<Vec<u8>, NetworkError>)
    ensures
        result == received(old(slot)@, outcome, idle),
        final(slot)@ == state_after_reset(old(slot)@, successor_received(outcome)),
{
    let waiting = slot.is_locked();
    match crate::network::recv(outcome, idle) {
        Ok(received) => {
            let (message, cipher) = received;
            slot.reset(Some(cipher));
            if waiting {
                Ok(message)
            } else {
                Err(NetworkError::BrokenCipher())
            }
        },
        Err(failure) => {
            slot.reset(None);
            Err(failure)
        },
    }
}

/// The second half of sending and then receiving. Where the send failed,
/// its failure is the result, the slot is left alone and no receive begins.
/// Where it succeeded, the receive begins.
pub fn send_recv<C>(
    slot: &mut MutableCipher<C>,
    config: &Configuration,
    sent: Result<(), NetworkError>,
) -> (step: Result<Step<C>, NetworkError>)
    ensures
        match sent {
            Ok(_) => {
                &&& step == begun(old(slot)@, config.idle_sec)
                &&& final(slot)@ == state_after_get(old(slot)@)
            },
            Err(failure) => {
                &&& step == Err::<Step<C>, NetworkError>(failure)
                &&& final(slot)@ == old(slot)@
            },
        },
{
    match sent {
        Ok(_) => recv_begin(slot, config),
        Err(failure) => Err(failure),
    }
}

/// Whether `reply` says that the function is offered.
pub open spec fn reply_is_yes(reply: Seq<u8>) -> bool {
    reply.len() > 0 && reply[0] == 1
}

/// Whether `reply` says that the function is not offered.
pub open spec fn reply_is_no(reply: Seq<u8>) -> bool {
    reply.len() > 0 && reply[0] == 0
}

/// The message that asks the server whether it offers `func`: the name as a
/// string frame.
pub fn check_func_request(func: &str) -> (request: Result<Vec<u8>, NetworkError>)
    ensures
        request matches Ok(message) && message@ == string_frame(func@),
{
    match write_string(func) {
        Ok(frame) => Ok(frame),
        Err(failure) => Err(NetworkError::BufError(failure)),
    }
}

/// Reads the server's answer to the question whether it offers `func`.
/// `Ok(true)` where the answer is yes; the failure that names `func` where
/// it is no; a buffer failure where the reply is empty or starts with
/// neither.
pub fn check_func_reply(func: &str, reply: &[u8]) -> (result: Result<bool, NetworkError>)
    ensures
        match result {
            Ok(offered) => offered && reply_is_yes(reply@),
            Err(NetworkError::FunctionNotAvailable(name)) => name@ == func@ && reply_is_no(
                reply@,
            ),
            Err(NetworkError::BufError(_)) => !reply_is_yes(reply@) && !reply_is_no(reply@),
            Err(_) => false,
        },
{
    match read_bool(reply) {
        Ok(true) => Ok(true),
        Ok(false) => Err(NetworkError::FunctionNotAvailable(func.to_owned())),
        Err(failure) => Err(NetworkError::BufError(failure)),
    }
}

/// After a send that failed or ran out of time the slot is broken, and
/// whatever is done with it later, no operation begins again: each fails
/// at once as broken, with nothing to be run.
pub proof fn lemma_failed_send_ends_session<C>(
    state: SlotState<C>,
    outcome: Outcome<C>,
    limit: u64,
    later: Seq<SlotEvent<C>>,
    idle: u64,
)
    requires
        !(outcome is Done),
    ensures
        sent(state, outcome, limit) is Err,
        state_after_reset(state, successor_sent(outcome)) == SlotState::<C>::Broken,
        begun(
            state_after_events(state_after_reset(state, successor_sent(outcome)), later),
            idle,
        ) == Err::<Step<C>, NetworkError>(NetworkError::BrokenCipher()),
{
    lemma_broken_stays_broken(later);
}

/// After a receive that failed or ran out of time the slot is broken, and
/// whatever is done with it later, no operation begins again: each fails
/// at once as broken, with nothing to be run.
pub proof fn lemma_failed_recv_ends_session<C>(
    state: SlotState<C>,
    outcome: Outcome<(Vec<u8>, C)>,
    limit: u64,
    later: Seq<SlotEvent<C>>,
    idle: u64,
)
    requires
        !(outcome is Done),
    ensures
        received(state, outcome, limit) is Err,
        state_after_reset(state, successor_received(outcome)) == SlotState::<C>::Broken,
        begun(
            state_after_events(state_after_reset(state, successor_received(outcome)), later),
            idle,
        ) == Err::<Step<C>, NetworkError>(NetworkError::BrokenCipher()),
{
    lemma_broken_stays_broken(later);
}

/// The idle limit is read when an operation begins. On an idle slot the next
/// operation runs under the limit that was written last, whatever was in
/// force before; an operation that began under an earlier limit and runs out
/// of time reports the limit it began under, whatever was written since.
pub proof fn lemma_limit_is_read_when_an_operation_begins<C>(
    cipher: C,
    earlier: Configuration,
    written: Configuration,
)
    ensures
        begun(SlotState::Idle(cipher), written.idle_sec) == Ok::<Step<C>, NetworkError>(
            Step::Run(cipher, written.idle_sec),
        ),
        sent(SlotState::<C>::Busy, Outcome::<C>::TimedOut, earlier.idle_sec) == Err::<
            (),
            NetworkError,
        >(NetworkError::Timeout(SENDING, earlier.idle_sec)),
        received(SlotState::<C>::Busy, Outcome::<(Vec<u8>, C)>::TimedOut, earlier.idle_sec)
            == Err::<Vec<u8>, NetworkError>(NetworkError::Timeout(RECEIVING, earlier.idle_sec)),
{
}

} // verus!
