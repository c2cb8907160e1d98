//! The protocol of an event-sourced aggregate: replaying history and
//! recording new facts.

use crate::encounter_event::{facts, EncounterEvent, Fact};
use uuid::Uuid;
use vstd::prelude::*;

verus! {

/// What every event-sourced aggregate offers.
///
/// An aggregate is a derived state together with a buffer of the events that
/// were raised and not yet persisted. `apply` is the state transition alone;
/// `raise` is the same transition followed by an append to the buffer.
pub trait AggregateRoot {
    /// The derived state, the buffer left out.
    type State;

    /// The derived state of this aggregate.
    spec fn state(&self) -> Self::State;

    /// The facts raised since construction or since the buffer was last
    /// cleared, oldest first.
    spec fn uncommitted(&self) -> Seq<Fact>;

    /// The state that follows `s` once `f` has happened.
    spec fn transition(s: Self::State, f: Fact) -> Self::State;

    /// The identity that a state records, if an event has set one.
    spec fn identity_in(s: Self::State) -> Option<Uuid>;

    /// The version that a state records.
    spec fn version_in(s: Self::State) -> int;

    /// The buffer of uncommitted events.
    fn events(&self) -> (buffer: &Vec<EncounterEvent>)
        ensures
            facts(buffer@) == self.uncommitted(),
    ;

    /// The aggregate's identity. It exists once an admission has been applied.
    fn id(&self) -> (identity: Uuid)
        requires
            Self::identity_in(self.state()) is Some,
        ensures
            Self::identity_in(self.state()) == Some(identity),
    ;

    /// Empties the buffer and leaves the derived state as it is.
    fn clear_events(&mut self)
        ensures
            final(self).uncommitted() == Seq::<Fact>::empty(),
            final(self).state() == old(self).state(),
    ;

    /// Moves the derived state on by one event. The buffer is not touched.
    fn apply(&mut self, e: &EncounterEvent)
        ensures
            final(self).state() == Self::transition(old(self).state(), e@),
            final(self).uncommitted() == old(self).uncommitted(),
    ;

    /// The version counter of the derived state.
    fn version(&self) -> (v: i32)
        ensures
            v == Self::version_in(self.state()),
    ;

    /// Records a new fact: the transition of `apply`, then `e` is appended to
    /// the buffer.
    fn raise(&mut self, e: EncounterEvent)
        ensures
            final(self).state() == Self::transition(old(self).state(), e@),
            final(self).uncommitted() == old(self).uncommitted().push(e@),
    ;
}

/// The state reached from `s` when the facts of `history` happen in order.
pub open spec fn replay<A: AggregateRoot>(s: A::State, history: Seq<Fact>) -> A::State
    decreases history.len(),
{
    if history.len() == 0 {
        s
    } else {
        A::transition(replay::<A>(s, history.drop_last()), history.last())
    }
}

/// Replaying a history and then one more fact is one transition from the
/// replayed history: the step on which `raise` and `apply` agree.
pub proof fn replay_then_one<A: AggregateRoot>(s: A::State, history: Seq<Fact>, f: Fact)
    ensures
        replay::<A>(s, history.push(f)) == A::transition(replay::<A>(s, history), f),
{
    assert(history.push(f).drop_last() =~= history);
}

/// Replaying two histories one after the other is replaying their
/// concatenation.
pub proof fn replay_in_two_parts<A: AggregateRoot>(
    s: A::State,
    earlier: Seq<Fact>,
    later: Seq<Fact>,
)
    ensures
        replay::<A>(s, earlier + later) == replay::<A>(replay::<A>(s, earlier), later),
    decreases later.len(),
{
    if later.len() == 0 {
        assert(earlier + later =~= earlier);
    } else {
        replay_in_two_parts::<A>(s, earlier, later.drop_last());
        assert((earlier + later).drop_last() =~= earlier + later.drop_last());
    }
}

/// Replay consistency. An aggregate whose state is the replay of a persisted
/// history, and which then records one more fact, is in the state that
/// replaying the whole sequence gives.
pub proof fn replay_consistency<A: AggregateRoot>(
    start: A::State,
    history: Seq<Fact>,
    before: A,
    after: A,
    f: Fact,
)
    requires
        before.state() == replay::<A>(start, history),
        after.state() == A::transition(before.state(), f),
    ensures
        after.state() == replay::<A>(start, history.push(f)),
{
    replay_then_one::<A>(start, history, f);
}

} // verus!
