//! The single slot that holds the cipher of a live session.
//!
//! Every message advances the cipher, so at any time exactly one value of it
//! is valid. The slot hands that value to one operation at a time and takes
//! its successor back. An operation that cannot return a successor leaves the
//! slot broken for good.

use vstd::prelude::*;

verus! {

/// What a slot holds, as contracts speak of it.
pub enum SlotState<C> {
    /// The cipher is in the slot and may be taken.
    Idle(C),
    /// One operation has taken the cipher and has not yet answered.
    Busy,
    /// An operation lost the cipher. Nothing will ever be handed out again.
    Broken,
}

/// What a request for the cipher is answered with.
pub enum Checkout<C> {
    /// The cipher, now owned by the caller until it is given back.
    Granted(C),
    /// Another operation holds the cipher: ask again when it has finished.
    Wait,
    /// The slot is broken.
    Broken,
}

/// The state that a request for the cipher leaves behind.
pub open spec fn state_after_get<C>(state: SlotState<C>) -> SlotState<C> {
    match state {
        SlotState::Idle(_) => SlotState::Busy,
        SlotState::Busy => SlotState::Busy,
        SlotState::Broken => SlotState::Broken,
    }
}

/// The answer to a request for the cipher.
pub open spec fn answer_of_get<C>(state: SlotState<C>) -> Checkout<C> {
    match state {
        SlotState::Idle(cipher) => Checkout::Granted(cipher),
        SlotState::Busy => Checkout::Wait,
        SlotState::Broken => Checkout::Broken,
    }
}

/// The state that giving back leaves behind. Only a busy slot accepts a
/// successor; whatever else is given back, or given back to a slot that was
/// not waiting for it, breaks the slot.
pub open spec fn state_after_reset<C>(state: SlotState<C>, cipher: Option<C>) -> SlotState<C> {
    match (state, cipher) {
        (SlotState::Busy, Some(next)) => SlotState::Idle(next),
        _ => SlotState::Broken,
    }
}

/// The holder of a session's cipher.
pub struct MutableCipher<C> {
    cipher: Option<C>,
    locked: bool,
}

impl<C> MutableCipher<C> {
    #[verifier::type_invariant]
    spec fn inv(self) -> bool {
        self.locked ==> self.cipher is None
    }

    /// The state of the slot.
    pub closed spec fn view(&self) -> SlotState<C> {
        match self.cipher {
            Some(cipher) => SlotState::Idle(cipher),
            None => if self.locked {
                SlotState::Busy
            } else {
                SlotState::Broken
            },
        }
    }

    /// A slot that holds `cipher`.
    pub fn new(cipher: C) -> (slot: Self)
        ensures
            slot@ == SlotState::Idle(cipher),
    {
        MutableCipher { cipher: Some(cipher), locked: false }
    }

    /// Ends the slot and returns the cipher if it is there.
    pub fn into_inner(self) -> (cipher: Option<C>)
        ensures
            cipher == (match self@ {
                SlotState::Idle(held) => Some(held),
                _ => None,
            }),
    {
        self.cipher
    }

    /// Asks for the cipher. An idle slot hands it over and becomes busy; a
    /// busy or broken slot hands out nothing and stays as it is.
    pub fn get(&mut self) -> (answer: Checkout<C>)
        ensures
            answer == answer_of_get(old(self)@),
            final(self)@ == state_after_get(old(self)@),
    {
        proof {
            use_type_invariant(&*self);
        }
        if self.locked {
            return Checkout::Wait;
        }
        let mut taken = MutableCipher { cipher: None, locked: false };
        core::mem::swap(self, &mut taken);
        match taken.cipher {
            Some(cipher) => {
                self.locked = true;
                Checkout::Granted(cipher)
            },
            None => Checkout::Broken,
        }
    }

    /// Gives back after an operation: its successor cipher, or `None` where
    /// the operation failed.
    pub fn reset(&mut self, cipher: Option<C>)
        ensures
            final(self)@ == state_after_reset(old(self)@, cipher),
    {
        proof {
            use_type_invariant(&*self);
        }
        if self.locked {
            self.locked = false;
            self.cipher = cipher;
        } else {
            self.cipher = None;
        }
    }

    /// Whether an operation holds the cipher.
    pub fn is_locked(&self) -> (locked: bool)
        ensures
            locked == (self@ is Busy),
    {
        proof {
            use_type_invariant(self);
        }
        self.locked
    }

    /// Whether the slot is broken.
    pub fn is_broken(&self) -> (broken: bool)
        ensures
            broken == (self@ is Broken),
    {
        !self.locked && self.cipher.is_none()
    }

    /// The slot's state in the words that a debug line prints: a cipher is
    /// never shown.
    pub fn status(&self) -> (label: &'static str)
        ensures
            label@ == (match self@ {
                SlotState::Idle(_) => "<unlocked>"@,
                SlotState::Busy => "<locked>"@,
                SlotState::Broken => "<broken>"@,
            }),
    {
        proof {
            use_type_invariant(self);
        }
        if self.locked {
            "<locked>"
        } else if self.cipher.is_some() {
            "<unlocked>"
        } else {
            "<broken>"
        }
    }
}

/// One call on a slot, as a history records it.
pub enum SlotEvent<C> {
    /// A request for the cipher.
    Get,
    /// Giving back with this successor, or with none.
    Reset(Option<C>),
}

/// The state that one call leaves behind.
pub open spec fn state_after_event<C>(state: SlotState<C>, event: SlotEvent<C>) -> SlotState<C> {
    match event {
        SlotEvent::Get => state_after_get(state),
        SlotEvent::Reset(cipher) => state_after_reset(state, cipher),
    }
}

/// The state that a history of calls leaves behind, from the first call to
/// the last.
pub open spec fn state_after_events<C>(state: SlotState<C>, events: Seq<SlotEvent<C>>) -> SlotState<
    C,
>
    decreases events.len(),
{
    if events.len() == 0 {
        state
    } else {
        state_after_event(state_after_events(state, events.drop_last()), events.last())
    }
}

/// The answer that a request gets once the first `at` calls of a history
/// have been made.
pub open spec fn answer_at<C>(state: SlotState<C>, events: Seq<SlotEvent<C>>, at: int) -> Checkout<
    C,
> {
    answer_of_get(state_after_events(state, events.take(at)))
}

/// The history of so many operations that each took the cipher and gave back
/// the next of `successors`.
pub open spec fn rounds<C>(successors: Seq<C>) -> Seq<SlotEvent<C>> {
    Seq::new(
        2 * successors.len(),
        |i: int|
            if i % 2 == 0 {
                SlotEvent::Get
            } else {
                SlotEvent::Reset(Some(successors[i / 2]))
            },
    )
}

/// The cipher that the operation with number `round` is given, where every
/// operation before it gave back its successor.
pub open spec fn cipher_of_round<C>(first: C, successors: Seq<C>, round: int) -> C {
    if round == 0 {
        first
    } else {
        successors[round - 1]
    }
}

/// A broken slot stays broken whatever is done with it.
pub proof fn lemma_broken_stays_broken<C>(events: Seq<SlotEvent<C>>)
    ensures
        state_after_events(SlotState::<C>::Broken, events) == SlotState::<C>::Broken,
    decreases events.len(),
{
    if events.len() > 0 {
        lemma_broken_stays_broken(events.drop_last());
    }
}

/// A broken slot answers every request, after whatever calls, by saying
/// that it is broken: it never hands out a cipher again.
pub proof fn lemma_broken_is_final<C>(events: Seq<SlotEvent<C>>)
    ensures
        forall|at: int|
            0 <= at <= events.len() ==> #[trigger] answer_at(SlotState::<C>::Broken, events, at)
                == Checkout::<C>::Broken,
{
    assert forall|at: int| 0 <= at <= events.len() implies #[trigger] answer_at(
        SlotState::<C>::Broken,
        events,
        at,
    ) == Checkout::<C>::Broken by {
        lemma_broken_stays_broken(events.take(at));
    }
}

/// A cipher that is handed out after some call is the successor that the
/// call just before gave back to a busy slot: none is handed out twice and
/// none is passed over.
pub proof fn lemma_granted_is_last_successor<C>(
    state: SlotState<C>,
    events: Seq<SlotEvent<C>>,
    at: int,
    cipher: C,
)
    requires
        0 < at <= events.len(),
        answer_at(state, events, at) == Checkout::Granted(cipher),
    ensures
        events[at - 1] == SlotEvent::Reset(Some(cipher)),
        state_after_events(state, events.take(at - 1)) is Busy,
{
    let before = events.take(at);
    assert(before.drop_last() =~= events.take(at - 1));
    assert(before.last() == events[at - 1]);
}

/// Between two requests that were both granted the cipher was given back:
/// no two operations hold it at one time.
pub proof fn lemma_one_holder_at_a_time<C>(
    state: SlotState<C>,
    events: Seq<SlotEvent<C>>,
    earlier: int,
    later: int,
)
    requires
        0 <= earlier < later < events.len(),
        events[earlier] is Get,
        events[later] is Get,
        answer_at(state, events, earlier) is Granted,
        answer_at(state, events, later) is Granted,
    ensures
        earlier < later - 1,
        events[later - 1] is Reset,
{
    let cipher = answer_at(state, events, later)->Granted_0;
    lemma_granted_is_last_successor(state, events, later, cipher);
}

/// While every operation gives back its successor, each is handed the
/// successor of the one before it, the first the cipher that the slot was
/// made with, and the slot ends idle with the last successor.
pub proof fn lemma_successors_form_one_chain<C>(first: C, successors: Seq<C>)
    ensures
        state_after_events(SlotState::Idle(first), rounds(successors)) == SlotState::Idle(
            cipher_of_round(first, successors, successors.len() as int),
        ),
        forall|round: int|
            0 <= round < successors.len() ==> #[trigger] answer_at(
                SlotState::Idle(first),
                rounds(successors),
                2 * round,
            ) == Checkout::Granted(cipher_of_round(first, successors, round)),
    decreases successors.len(),
{
    let start = SlotState::Idle(first);
    let history = rounds(successors);
    if successors.len() > 0 {
        let shorter = successors.drop_last();
        lemma_successors_form_one_chain(first, shorter);
        let open = history.drop_last();
        assert(open.drop_last() =~= rounds(shorter));
        assert(state_after_events(start, open) == state_after_event(
            state_after_events(start, open.drop_last()),
            open.last(),
        ));
        assert(history.drop_last().last() == SlotEvent::<C>::Get);
        assert(history.last() == SlotEvent::Reset(Some(successors.last())));
        assert(cipher_of_round(first, shorter, shorter.len() as int) == cipher_of_round(
            first,
            successors,
            successors.len() - 1,
        ));
    }
    assert forall|round: int| 0 <= round < successors.len() implies #[trigger] answer_at(
        start,
        history,
        2 * round,
    ) == Checkout::Granted(cipher_of_round(first, successors, round)) by {
        let done = successors.take(round);
        lemma_successors_form_one_chain(first, done);
        assert(history.take(2 * round) =~= rounds(done));
        assert(cipher_of_round(first, done, round) == cipher_of_round(first, successors, round));
    }
}

} // verus!
