//! Approvals of commands that wait, and what is known when one of them is cancelled.
use crate::registry::Registry;
use vstd::prelude::*;

verus! {

/// A mark for one registration of a call.
#[derive(Clone, Copy, Debug, PartialEq, Eq, Structural)]
pub struct Cancellation {
    /// Which registration it is; no two have the same.
    pub token: u64,
    pub cancelled: bool,
}

/// Where an approval that waits would note its cancellation.
#[derive(Debug)]
pub struct CancellationRef {
    pub turn: String,
    pub call: String,
    pub token: u64,
}

/// The calls whose cancellation is watched, by their turns.
pub struct Approvals {
    marks: Registry<Registry<Cancellation>>,
    /// The approvals that wait, each with what it would note.
    pending: Registry<Option<CancellationRef>>,
    next: u64,
}

/// Whether a call of a turn is watched now: as it was, or from now on.
pub open spec fn is_watched(
    before: Approvals,
    turn: Seq<char>,
    call: Seq<char>,
    after: Approvals,
) -> bool {
    &&& after.waiting() == before.waiting()
    &&& after.mark(turn, call) == match before.mark(turn, call) {
        Some(mark) => Some(mark),
        None => Some(Cancellation { token: before.next_token(), cancelled: false }),
    }
    &&& after.next_token() == if before.mark(turn, call) is Some {
        before.next_token()
    } else {
        (before.next_token() + 1) as u64
    }
    &&& forall|t: Seq<char>, c: Seq<char>|
        t != turn || c != call ==> #[trigger] after.mark(t, c) == before.mark(t, c)
}

/// Whether a call of a turn is no longer watched, and was cancelled as told.
pub open spec fn is_taken(
    before: Approvals,
    turn: Seq<char>,
    call: Seq<char>,
    cancelled: bool,
    after: Approvals,
) -> bool {
    &&& after.waiting() == before.waiting()
    &&& after.next_token() == before.next_token()
    &&& cancelled == (before.mark(turn, call) matches Some(mark) && mark.cancelled)
    &&& after.mark(turn, call) is None
    &&& forall|t: Seq<char>, c: Seq<char>|
        t != turn || c != call ==> #[trigger] after.mark(t, c) == before.mark(t, c)
}

/// Whether an approval for a call of a turn waits now.
pub open spec fn waits(
    before: Approvals,
    approval_id: Seq<char>,
    turn: Seq<char>,
    call: Seq<char>,
    after: Approvals,
) -> bool {
    &&& after.next_token() == before.next_token()
    &&& forall|t: Seq<char>, c: Seq<char>| #[trigger] after.mark(t, c) == before.mark(t, c)
    &&& after.waiting().dom() == before.waiting().dom().insert(approval_id)
    &&& after.waiting()[approval_id] matches Some(noted) ==> noted.turn@ == turn && noted.call@
        == call
    &&& match before.mark(turn, call) {
        Some(mark) => after.waiting()[approval_id] matches Some(noted) && noted.token == mark.token,
        None => after.waiting()[approval_id] is None,
    }
    &&& forall|id: Seq<char>|
        id != approval_id && #[trigger] before.waiting().dom().contains(id) ==> after.waiting()[id]
            == before.waiting()[id]
}

/// Whether an approval was cancelled, where a turn is active.
pub open spec fn is_interrupted(
    before: Approvals,
    approval_id: Seq<char>,
    turn_active: bool,
    after: Approvals,
) -> bool {
    &&& after.next_token() == before.next_token()
    &&& after.waiting() == if turn_active {
        before.waiting().remove(approval_id)
    } else {
        before.waiting()
    }
    &&& forall|t: Seq<char>, c: Seq<char>| #[trigger]
        after.mark(t, c) == if turn_active && before.cancels(approval_id, t, c) {
            Some(Cancellation { token: before.mark(t, c)->Some_0.token, cancelled: true })
        } else {
            before.mark(t, c)
        }
}

impl Approvals {
    /// The mark of a call of a turn.
    pub closed spec fn mark(self, turn: Seq<char>, call: Seq<char>) -> Option<Cancellation> {
        if self.marks.map().dom().contains(turn) && self.marks.map()[turn].map().dom().contains(call) {
            Some(self.marks.map()[turn].map()[call])
        } else {
            None
        }
    }

    /// The approvals that wait.
    pub closed spec fn waiting(self) -> Map<Seq<char>, Option<CancellationRef>> {
        self.pending.map()
    }

    /// The token of the next registration.
    pub closed spec fn next_token(self) -> u64 {
        self.next
    }

    /// Registrations have different tokens, all of them below the next one.
    pub closed spec fn well_formed(self) -> bool {
        &&& self.marks.well_formed()
        &&& self.pending.well_formed()
        &&& forall|turn: Seq<char>| #[trigger]
            self.marks.map().dom().contains(turn) ==> self.marks.map()[turn].well_formed()
        &&& forall|turn: Seq<char>, call: Seq<char>|
            (#[trigger] self.mark(turn, call)) matches Some(mark) ==> mark.token < self.next
        &&& forall|id: Seq<char>| #[trigger]
            self.pending.map().dom().contains(id) ==> (self.pending.map()[id] matches Some(noted)
                ==> noted.token < self.next)
    }

    pub fn new() -> (res: Approvals)
        ensures
            res.well_formed(),
            forall|turn: Seq<char>, call: Seq<char>| #[trigger] res.mark(turn, call) is None,
            res.waiting() == Map::<Seq<char>, Option<CancellationRef>>::empty(),
            res.next_token() == 0,
    {
        Approvals { marks: Registry::new(), pending: Registry::new(), next: 0 }
    }

    /// The mark of a call of a turn.
    pub fn find(&self, turn: &str, call: &str) -> (res: Option<Cancellation>)
        requires
            self.well_formed(),
        ensures
            res == self.mark(turn@, call@),
    {
        match self.marks.get(turn) {
            Some(calls) => match calls.get(call) {
                Some(mark) => Some(*mark),
                None => None,
            },
            None => None,
        }
    }

    /// Gives a call of a turn a mark, in place of the one it had.
    fn set(&mut self, turn: &str, call: &str, mark: Cancellation)
        requires
            old(self).well_formed(),
            mark.token < old(self).next_token(),
        ensures
            final(self).well_formed(),
            final(self).waiting() == old(self).waiting(),
            final(self).next_token() == old(self).next_token(),
            final(self).mark(turn@, call@) == Some(mark),
            forall|t: Seq<char>, c: Seq<char>|
                t != turn@ || c != call@ ==> #[trigger] final(self).mark(t, c) == old(self).mark(t, c),
    {
        let ghost before = *self;
        let mut calls = match self.marks.remove(turn) {
            Some(calls) => calls,
            None => Registry::new(),
        };
        calls.insert(call.to_owned(), mark);
        self.marks.insert(turn.to_owned(), calls);
        proof {
            assert(self.marks.map()[turn@] == calls);
            assert forall|t: Seq<char>, c: Seq<char>| t != turn@ || c != call@ implies #[trigger] self.mark(
                t,
                c,
            ) == before.mark(t, c) by {
                if t == turn@ {
                    assert(self.marks.map().dom().contains(t));
                } else {
                    assert(self.marks.map().dom().contains(t) == before.marks.map().dom().contains(
                        t,
                    ));
                }
            }
            assert(self.mark(turn@, call@) == Some(mark));
            assert forall|t: Seq<char>, c: Seq<char>|
                (#[trigger] self.mark(t, c)) is Some implies self.mark(t, c)->Some_0.token
                < self.next by {
                if t != turn@ || c != call@ {
                    assert(self.mark(t, c) == before.mark(t, c));
                }
            }
        }
    }

    /// Watches a call of a turn. One that is watched already stays as it is.
    pub fn register_command_approval_cancellation(&mut self, turn: &str, call: &str)
        requires
            old(self).well_formed(),
            old(self).next_token() < u64::MAX,
        ensures
            final(self).well_formed(),
            is_watched(*old(self), turn@, call@, *final(self)),
    {
        if self.find(turn, call).is_some() {
            return;
        }
        let token: u64 = self.next;
        let ghost before = *self;
        self.next = token + 1;
        proof {
            assert forall|t: Seq<char>, c: Seq<char>|
                (#[trigger] self.mark(t, c)) is Some implies self.mark(t, c)->Some_0.token
                < self.next by {
                assert(self.mark(t, c) == before.mark(t, c));
            }
        }
        let ghost middle = *self;
        self.set(turn, call, Cancellation { token, cancelled: false });
        proof {
            assert forall|t: Seq<char>, c: Seq<char>| t != turn@ || c != call@ implies #[trigger] self.mark(
                t,
                c,
            ) == before.mark(t, c) by {
                assert(middle.mark(t, c) == before.mark(t, c));
            }
        }
    }

    /// No longer watches a call of a turn, and tells whether it was cancelled.
    pub fn take_command_approval_cancellation(&mut self, turn: &str, call: &str) -> (res: bool)
        requires
            old(self).well_formed(),
        ensures
            final(self).well_formed(),
            is_taken(*old(self), turn@, call@, res, *final(self)),
    {
        let ghost before = *self;
        let mut calls = match self.marks.remove(turn) {
            Some(calls) => calls,
            None => {
                proof {
                    assert(self.marks.map() =~= before.marks.map());
                    assert forall|t: Seq<char>, c: Seq<char>| #[trigger] self.mark(t, c)
                        == before.mark(t, c) by {}
                }
                return false;
            },
        };
        let cancelled = match calls.remove(call) {
            Some(mark) => mark.cancelled,
            None => false,
        };
        self.marks.insert(turn.to_owned(), calls);
        proof {
            assert(self.marks.map()[turn@] == calls);
            assert forall|t: Seq<char>, c: Seq<char>| t != turn@ || c != call@ implies #[trigger] self.mark(
                t,
                c,
            ) == before.mark(t, c) by {
                if t == turn@ {
                    assert(before.marks.map().dom().contains(t));
                } else {
                    assert(self.marks.map().dom().contains(t) == before.marks.map().dom().contains(
                        t,
                    ));
                }
            }
            assert forall|t: Seq<char>, c: Seq<char>|
                (#[trigger] self.mark(t, c)) is Some implies self.mark(t, c)->Some_0.token
                < self.next by {
                if t != turn@ || c != call@ {
                    assert(self.mark(t, c) == before.mark(t, c));
                }
            }
        }
        cancelled
    }

    /// Lets an approval wait. It would note its cancellation with the call, as this is watched now.
    pub fn wait_for_approval(&mut self, approval_id: &str, turn: &str, call: &str)
        requires
            old(self).well_formed(),
        ensures
            final(self).well_formed(),
            waits(*old(self), approval_id@, turn@, call@, *final(self)),
    {
        let ghost before = *self;
        let noted = match self.find(turn, call) {
            Some(mark) => Some(
                CancellationRef { turn: turn.to_owned(), call: call.to_owned(), token: mark.token },
            ),
            None => None,
        };
        self.pending.insert(approval_id.to_owned(), noted);
        assert(self.waiting().dom() =~= before.waiting().dom().insert(approval_id@));
        proof {
            assert forall|t: Seq<char>, c: Seq<char>| #[trigger] self.mark(t, c) == before.mark(
                t,
                c,
            ) by {}
        }
    }

    /// Cancels an approval that waits, while a turn is active. The mark of its call is set before the
    /// turn is interrupted, unless the call was taken or registered anew since.
    pub fn interrupt_for_exec_approval(&mut self, approval_id: &str, turn_active: bool)
        requires
            old(self).well_formed(),
        ensures
            final(self).well_formed(),
            is_interrupted(*old(self), approval_id@, turn_active, *final(self)),
    {
        if !turn_active {
            return;
        }
        let ghost before = *self;
        let pending = self.pending.remove(approval_id);
        proof {
            assert forall|t: Seq<char>, c: Seq<char>| #[trigger] self.mark(t, c) == before.mark(
                t,
                c,
            ) by {}
        }
        let ghost middle = *self;
        match pending {
            Some(noted) => match noted {
                Some(noted) => match self.find(noted.turn.as_str(), noted.call.as_str()) {
                    Some(mark) => {
                        if mark.token == noted.token {
                            self.set(
                                noted.turn.as_str(),
                                noted.call.as_str(),
                                Cancellation { token: mark.token, cancelled: true },
                            );
                            proof {
                                assert forall|t: Seq<char>, c: Seq<char>| #[trigger] self.mark(t, c)
                                    == if before.cancels(approval_id@, t, c) {
                                    Some(
                                        Cancellation {
                                            token: before.mark(t, c)->Some_0.token,
                                            cancelled: true,
                                        },
                                    )
                                } else {
                                    before.mark(t, c)
                                } by {
                                    assert(middle.mark(t, c) == before.mark(t, c));
                                }
                            }
                        }
                    },
                    None => {},
                },
                None => {},
            },
            None => {
                assert(self.pending.map() =~= before.pending.map());
            },
        }
    }

    /// Whether cancelling an approval sets the mark of a call: the one that it noted is still there.
    pub open spec fn cancels(self, approval_id: Seq<char>, turn: Seq<char>, call: Seq<char>) -> bool {
        &&& self.waiting().dom().contains(approval_id)
        &&& self.waiting()[approval_id] matches Some(noted)
        &&& noted.turn@ == turn
        &&& noted.call@ == call
        &&& self.mark(turn, call) matches Some(mark)
        &&& mark.token == noted.token
    }

    /// An approval that waits when a call is registered does not cancel it, though it be for the same
    /// call of the same turn: that was registered before.
    pub proof fn later_calls_are_spared(
        before: Approvals,
        after: Approvals,
        approval_id: Seq<char>,
        turn: Seq<char>,
        call: Seq<char>,
    )
        requires
            before.well_formed(),
            after.waiting() == before.waiting(),
            after.mark(turn, call) == Some(
                Cancellation { token: before.next_token(), cancelled: false },
            ),
        ensures
            !after.cancels(approval_id, turn, call),
    {
    }
}

/// A call that is watched learns of the cancellation of the approval that waits for it, exactly where
/// a turn was active, and of nothing else: the approval of one call never cancels another one. It
/// learns of it once.
pub proof fn cancelled_call_is_told(
    start: Approvals,
    watched: Approvals,
    waiting: Approvals,
    interrupted: Approvals,
    taken: Approvals,
    again: Approvals,
    approval_id: Seq<char>,
    turn: Seq<char>,
    call: Seq<char>,
    other: Seq<char>,
    turn_active: bool,
    cancelled: bool,
    cancelled_again: bool,
)
    requires
        start.mark(turn, call) is None,
        other != call,
        is_watched(start, turn, call, watched),
        waits(watched, approval_id, turn, call, waiting),
        is_interrupted(waiting, approval_id, turn_active, interrupted),
        is_taken(interrupted, turn, call, cancelled, taken),
        is_taken(taken, turn, call, cancelled_again, again),
    ensures
        cancelled == turn_active,
        !cancelled_again,
        taken.mark(turn, call) is None,
        taken.mark(turn, other) == start.mark(turn, other),
        taken.waiting().dom().contains(approval_id) == !turn_active,
        forall|id: Seq<char>|
            id != approval_id && #[trigger] start.waiting().dom().contains(id)
                ==> taken.waiting().dom().contains(id) && taken.waiting()[id]
                == start.waiting()[id],
{
    assert(waiting.mark(turn, call) == watched.mark(turn, call));
    assert(waiting.mark(turn, other) == watched.mark(turn, other));
    assert(interrupted.mark(turn, other) == waiting.mark(turn, other));
}

/// An approval that waits for a call that was not watched, or was taken since, cancels nothing.
pub proof fn unwatched_call_is_not_cancelled(
    before: Approvals,
    waiting: Approvals,
    interrupted: Approvals,
    approval_id: Seq<char>,
    turn: Seq<char>,
    call: Seq<char>,
    turn_active: bool,
)
    requires
        before.mark(turn, call) is None,
        waits(before, approval_id, turn, call, waiting),
        is_interrupted(waiting, approval_id, turn_active, interrupted),
    ensures
        forall|t: Seq<char>, c: Seq<char>| #[trigger] interrupted.mark(t, c) == before.mark(t, c),
{
    assert forall|t: Seq<char>, c: Seq<char>| #[trigger] interrupted.mark(t, c) == before.mark(
        t,
        c,
    ) by {
        assert(waiting.mark(t, c) == before.mark(t, c));
    }
}

/// A call that is watched already stays so as it is, with what was told of it; one that was not is
/// watched from now on and not cancelled. No other call changes, of this turn or of another, and no
/// approval does.
pub proof fn watching_keeps_what_was_told(
    before: Approvals,
    turn: Seq<char>,
    call: Seq<char>,
    after: Approvals,
    other_turn: Seq<char>,
    other: Seq<char>,
)
    requires
        is_watched(before, turn, call, after),
    ensures
        before.mark(turn, call) is Some ==> after.mark(turn, call) == before.mark(turn, call)
            && after.next_token() == before.next_token(),
        before.mark(turn, call) is None ==> after.mark(turn, call) is Some && !after.mark(
            turn,
            call,
        )->Some_0.cancelled && after.mark(turn, call)->Some_0.token == before.next_token(),
        before.mark(turn, call) is None && before.next_token() < u64::MAX ==> after.next_token()
            == before.next_token() + 1,
        other_turn != turn || other != call ==> after.mark(other_turn, other) == before.mark(
            other_turn,
            other,
        ),
        after.waiting() == before.waiting(),
{
}

/// The cancellation of an approval reaches the call that it waits for alone: not the call of the same
/// name of another turn, not another call of its turn, and not the same call watched anew.
pub proof fn cancellation_reaches_one_call(
    before: Approvals,
    approval_id: Seq<char>,
    turn_active: bool,
    after: Approvals,
    turn: Seq<char>,
    call: Seq<char>,
)
    requires
        is_interrupted(before, approval_id, turn_active, after),
        after.mark(turn, call) != before.mark(turn, call),
    ensures
        turn_active,
        before.waiting().dom().contains(approval_id),
        before.waiting()[approval_id] matches Some(noted) && noted.turn@ == turn && noted.call@
            == call && before.mark(turn, call) is Some && noted.token == before.mark(
            turn,
            call,
        )->Some_0.token,
        after.mark(turn, call) is Some && after.mark(turn, call)->Some_0.cancelled,
        after.next_token() == before.next_token(),
{
    assert(before.cancels(approval_id, turn, call));
}

} // verus!
