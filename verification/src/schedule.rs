//! The periodic loop, as a state machine.
//!
//! The loop sleeps for a random while, runs one cycle, and starts over,
//! for ever. A failed cycle is reported and forgotten: nothing that a
//! cycle returns ends the loop. As with a cycle, the caller does the
//! work: it sleeps when told to [`LoopAction::Sleep`], drives a cycle
//! when told to [`LoopAction::Run`], and reports back as a
//! [`LoopEvent`].

use vstd::prelude::*;
use crate::cycle::RunError;

verus! {

/// The shortest sleep between two cycles, in seconds.
pub const MIN_SLEEP_SECS: u64 = 300;

/// The longest sleep between two cycles, in seconds.
pub const MAX_SLEEP_SECS: u64 = 1800;

/// What the caller reports to the loop.
#[derive(Debug, PartialEq, Eq)]
pub enum LoopEvent<E> {
    /// The loop has just been entered.
    Entered,
    /// The sleep is over.
    Woke,
    /// A cycle was run, with this result.
    Ran(Result<(), RunError<E>>),
}

/// What the loop asks the caller to do.
#[derive(Debug, PartialEq, Eq)]
pub enum LoopAction<E> {
    /// Sleep for `secs` seconds. `swallowed` is the failure of the
    /// cycle just run, if it failed: it is there to be logged, and has
    /// no other effect.
    Sleep { secs: u64, swallowed: Option<RunError<E>> },
    /// Run one cycle.
    Run,
}

/// The failure in a cycle's result, if there is one.
pub open spec fn failure_of<E>(result: Result<(), RunError<E>>) -> Option<RunError<E>> {
    match result {
        Ok(_) => None,
        Err(error) => Some(error),
    }
}

/// What the loop answers to `event`. `secs` stands for the random
/// length of the next sleep; the answer to [`LoopEvent::Woke`] does not
/// depend on it.
pub open spec fn next<E>(event: LoopEvent<E>, secs: u64) -> LoopAction<E> {
    match event {
        LoopEvent::Entered => LoopAction::Sleep { secs, swallowed: None },
        LoopEvent::Woke => LoopAction::Run,
        LoopEvent::Ran(result) => LoopAction::Sleep { secs, swallowed: failure_of(result) },
    }
}

/// The event that a caller reports after carrying out `action`, where
/// a cycle run at this point would return `result`.
pub open spec fn report<E>(action: LoopAction<E>, result: Result<(), RunError<E>>) -> LoopEvent<
    E,
> {
    match action {
        LoopAction::Sleep { .. } => LoopEvent::Woke,
        LoopAction::Run => LoopEvent::Ran(result),
    }
}

/// The first `turns` actions of a loop that goes on from `event`.
///
/// The world is given by two functions of the turn's number, counted
/// from `turn`: `results` says what a cycle run at that turn returns,
/// and `sleeps` what the random sleep drawn at that turn is.
pub open spec fn unroll<E>(
    event: LoopEvent<E>,
    results: spec_fn(nat) -> Result<(), RunError<E>>,
    sleeps: spec_fn(nat) -> u64,
    turn: nat,
    turns: nat,
) -> Seq<LoopAction<E>>
    decreases turns,
{
    if turns == 0 {
        Seq::empty()
    } else {
        let action = next(event, sleeps(turn));
        seq![action] + unroll(
            report(action, results(turn)),
            results,
            sleeps,
            turn + 1,
            (turns - 1) as nat,
        )
    }
}

/// Whatever the cycles return, the loop goes on: it has an action for
/// every turn, and the actions alternate. Counted from the event
/// [`LoopEvent::Woke`], the even turns run a cycle and the odd turns
/// sleep; counted from any other event it is the other way round. So
/// there is exactly one cycle between two sleeps. Each sleep takes as
/// long as was drawn for its turn, and a sleep that follows a cycle
/// carries that cycle's failure, if it failed, and nothing otherwise.
pub proof fn lemma_loop_goes_on<E>(
    event: LoopEvent<E>,
    results: spec_fn(nat) -> Result<(), RunError<E>>,
    sleeps: spec_fn(nat) -> u64,
    turn: nat,
    turns: nat,
)
    ensures
        unroll(event, results, sleeps, turn, turns).len() == turns,
        forall|i: int|
            0 <= i < turns ==> ((#[trigger] unroll(event, results, sleeps, turn, turns)[i]
                is Run) <==> ((event is Woke) <==> i % 2 == 0)),
        forall|i: int|
            0 <= i < turns ==> (#[trigger] unroll(event, results, sleeps, turn, turns)[i]
                matches LoopAction::Sleep { secs, .. } ==> secs == sleeps((turn + i) as nat)),
        forall|i: int|
            0 < i < turns ==> (#[trigger] unroll(event, results, sleeps, turn, turns)[i]
                matches LoopAction::Sleep { swallowed, .. } ==> swallowed == failure_of(
                results((turn + i - 1) as nat),
            )),
    decreases turns,
{
    if turns > 0 {
        let action = next(event, sleeps(turn));
        let after = report(action, results(turn));
        let rest = unroll(after, results, sleeps, turn + 1, (turns - 1) as nat);
        lemma_loop_goes_on(after, results, sleeps, turn + 1, (turns - 1) as nat);
        let all = unroll(event, results, sleeps, turn, turns);
        assert(all == seq![action] + rest);
        assert forall|i: int| 0 <= i < turns implies ((#[trigger] all[i] is Run) <==> ((event
            is Woke) <==> i % 2 == 0)) by {
            if i > 0 {
                assert(all[i] == rest[i - 1]);
            }
        }
        assert forall|i: int| 0 <= i < turns implies (#[trigger] all[i] matches LoopAction::Sleep {
            secs,
            ..
        } ==> secs == sleeps((turn + i) as nat)) by {
            if i > 0 {
                assert(all[i] == rest[i - 1]);
            }
        }
        assert forall|i: int| 0 < i < turns implies (#[trigger] all[i] matches LoopAction::Sleep {
            swallowed,
            ..
        } ==> swallowed == failure_of(results((turn + i - 1) as nat))) by {
            assert(all[i] == rest[i - 1]);
            if i == 1 {
                assert(rest[0] == next(after, sleeps(turn + 1)));
            }
        }
    }
}

} // verus!
