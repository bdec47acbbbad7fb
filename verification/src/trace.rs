//! Runs of the state machine: what the worker knows after a whole sequence
//! of events.

use vstd::prelude::*;
use crate::model::Core;
use crate::protocol::Event;

verus! {

/// The state after the events of `stimuli`, each with the clock reading it
/// was handled at, were handled in order, starting from `core`.
pub open spec fn run(core: Core, stimuli: Seq<(Event, i64)>) -> Core
    decreases stimuli.len(),
{
    if stimuli.len() == 0 {
        core
    } else {
        let last = stimuli.last();
        run(core, stimuli.drop_last()).step(last.0, last.1).core
    }
}

/// The state in which the event at index `i` of `stimuli` is handled; for
/// `i == stimuli.len()`, the state after all of them.
pub open spec fn state_at(core: Core, stimuli: Seq<(Event, i64)>, i: int) -> Core {
    run(core, stimuli.take(i))
}

/// Handling one more event is one more step.
pub proof fn lemma_run_unfolds(core: Core, stimuli: Seq<(Event, i64)>, i: int)
    requires
        0 <= i < stimuli.len(),
    ensures
        state_at(core, stimuli, i + 1) == state_at(core, stimuli, i).step(
            stimuli[i].0,
            stimuli[i].1,
        ).core,
{
    let longer = stimuli.take(i + 1);
    assert(longer.drop_last() =~= stimuli.take(i));
    assert(longer.last() == stimuli[i]);
}

/// A run starts in the state it is given and ends in the state after all of
/// its events.
pub proof fn lemma_run_ends(core: Core, stimuli: Seq<(Event, i64)>)
    ensures
        state_at(core, stimuli, 0) == core,
        state_at(core, stimuli, stimuli.len() as int) == run(core, stimuli),
{
    assert(stimuli.take(0) =~= Seq::<(Event, i64)>::empty());
    assert(stimuli.take(stimuli.len() as int) =~= stimuli);
}

/// Every step leads from a state the worker can be in to another.
pub proof fn lemma_step_preserves_wf(core: Core, event: Event, now: i64)
    requires
        core.wf(),
    ensures
        core.step(event, now).core.wf(),
{
}

/// Every state of a run that starts in a state the worker can be in is one
/// the worker can be in.
pub proof fn lemma_run_preserves_wf(core: Core, stimuli: Seq<(Event, i64)>, i: int)
    requires
        core.wf(),
        0 <= i <= stimuli.len(),
    ensures
        state_at(core, stimuli, i).wf(),
    decreases i,
{
    if i == 0 {
        lemma_run_ends(core, stimuli);
    } else {
        lemma_run_preserves_wf(core, stimuli, i - 1);
        lemma_run_unfolds(core, stimuli, i - 1);
        lemma_step_preserves_wf(
            state_at(core, stimuli, i - 1),
            stimuli[i - 1].0,
            stimuli[i - 1].1,
        );
    }
}

} // verus!
