//! What holds of every run of the worker.

use vstd::prelude::*;
use crate::model::Core;
use crate::protocol::{Action, Event, Phase, PlayerCommand, PlayerError};
use crate::state::{next_revision, PlaybackStatus, PlayerState};
use crate::trace::{lemma_run_ends, lemma_run_preserves_wf, lemma_run_unfolds, run, state_at};

verus! {

/// The table of status transitions: whether carrying out `command` may take
/// the status from `from` to `to`.
///
/// A load takes any status to `Loading` and `Loading` to `Playing` if it
/// plays at once, to `Paused` if not.  `Play` takes `Paused` to `Playing`,
/// `Pause` takes `Playing` to `Paused`, `Stop` takes `Playing` and `Paused`
/// to `Paused`, and a seek leaves `Loading`, `Playing` and `Paused` as they
/// are.
pub open spec fn table_allows(from: PlaybackStatus, command: PlayerCommand, to: PlaybackStatus)
    -> bool {
    match command {
        PlayerCommand::Load(request) => {
            ||| to == PlaybackStatus::Loading
            ||| from == PlaybackStatus::Loading && to == if request.autoplay {
                PlaybackStatus::Playing
            } else {
                PlaybackStatus::Paused
            }
        },
        PlayerCommand::Play => from == PlaybackStatus::Paused && to == PlaybackStatus::Playing,
        PlayerCommand::Pause => from == PlaybackStatus::Playing && to == PlaybackStatus::Paused,
        PlayerCommand::Stop => {
            (from == PlaybackStatus::Playing || from == PlaybackStatus::Paused) && to
                == PlaybackStatus::Paused
        },
        PlayerCommand::Seek(_) => from != PlaybackStatus::Stopped && to == from,
    }
}

/// The command that the worker is carrying out when it handles `event` in
/// state `core`, if any.
pub open spec fn command_served(core: Core, event: Event) -> Option<PlayerCommand> {
    match core.phase {
        Phase::Intake => match event {
            Event::Command(command) => Some(command),
            _ => None,
        },
        Phase::Resuming => Some(PlayerCommand::Play),
        Phase::Pausing => Some(PlayerCommand::Pause),
        Phase::Stopping => Some(PlayerCommand::Stop),
        Phase::Repositioning(position_ms) => Some(PlayerCommand::Seek(position_ms)),
        Phase::Preempting(request) | Phase::Clearing(request) | Phase::Resolving(request)
        | Phase::FetchingKey(request, _) | Phase::Opening(request, _, _)
        | Phase::Positioning(request) | Phase::Starting(request) => {
            Some(PlayerCommand::Load(request))
        },
        Phase::Halting | Phase::Releasing | Phase::Decoding | Phase::Rendering(_) => None,
    }
}

/// Whether handling `event` in state `core` gives playback up: the step
/// reports that a load, the decoder or the device failed, or it completes
/// the halt that the end of the track or such a failure set off.
pub open spec fn playback_ends(core: Core, event: Event, now: i64) -> bool {
    ||| core.phase is Halting
    ||| core.step(event, now).verdict matches Err(error) && error != PlayerError::NotLoaded
        && error != PlayerError::UnexpectedEvent
}

/// Whether the step that handles `event` in state `core` keeps to the table:
/// it leaves the status as it is, or takes it where the table allows the
/// command that is being carried out to take it, or gives playback up and
/// ends in `Stopped`.
pub open spec fn step_follows_table(core: Core, event: Event, now: i64) -> bool {
    let from = core.state.status;
    let to = core.step(event, now).core.state.status;
    ||| to == from
    ||| command_served(core, event) matches Some(command) && table_allows(from, command, to)
    ||| to == PlaybackStatus::Stopped && playback_ends(core, event, now)
}

/// Every step keeps to the table of status transitions.
pub proof fn law_step_follows_table(core: Core, event: Event, now: i64)
    requires
        core.wf(),
    ensures
        step_follows_table(core, event, now),
{
}

/// In every run of a worker, whatever the commands and whatever else
/// happens, every status transition is one of the table or gives playback
/// up and ends in `Stopped`.
pub proof fn law_run_follows_table(core: Core, stimuli: Seq<(Event, i64)>)
    requires
        core.wf(),
    ensures
        forall|i: int|
            0 <= i < stimuli.len() ==> #[trigger] step_follows_table(
                state_at(core, stimuli, i),
                stimuli[i].0,
                stimuli[i].1,
            ),
{
    assert forall|i: int| 0 <= i < stimuli.len() implies #[trigger] step_follows_table(
        state_at(core, stimuli, i),
        stimuli[i].0,
        stimuli[i].1,
    ) by {
        lemma_run_preserves_wf(core, stimuli, i);
        law_step_follows_table(state_at(core, stimuli, i), stimuli[i].0, stimuli[i].1);
    }
}

/// Whether the step that handles `event` in state `core` at `now` lets
/// playback run on undisturbed: the track plays before and after, no seek
/// is under way, and where the step measures the position anew, the
/// packet's timestamp is not behind where playback was taken to be.
pub open spec fn plays_on(core: Core, event: Event, now: i64) -> bool {
    &&& core.state.status == PlaybackStatus::Playing
    &&& core.step(event, now).core.state.status == PlaybackStatus::Playing
    &&& !(core.phase is Repositioning)
    &&& core.phase matches Phase::Rendering(timestamp_ms) ==> timestamp_ms
        >= core.state.effective_position_at(now as int)
}

/// While a track plays, its effective position does not go back as the
/// clock goes on.
pub proof fn law_position_follows_clock(state: PlayerState, earlier: int, later: int)
    requires
        state.status == PlaybackStatus::Playing,
        earlier <= later,
    ensures
        state.effective_position_at(earlier) <= state.effective_position_at(later),
{
}

/// A step that lets playback run on does not take the effective position
/// back: read before the step and read after it, it has not decreased.
pub proof fn law_step_keeps_position(core: Core, event: Event, now: i64, earlier: int, later: int)
    requires
        core.wf(),
        plays_on(core, event, now),
        earlier <= now <= later,
    ensures
        core.state.effective_position_at(earlier) <= core.step(
            event,
            now,
        ).core.state.effective_position_at(later),
{
}

/// Between two reads of the effective position of a playing track, with no
/// seek and no load in between, the position does not decrease: in a run
/// whose steps all let playback run on and whose clock readings do not go
/// back, a read before the run is not ahead of a read after it.
pub proof fn law_run_keeps_position(
    core: Core,
    stimuli: Seq<(Event, i64)>,
    earlier: int,
    later: int,
)
    requires
        core.wf(),
        core.state.status == PlaybackStatus::Playing,
        forall|i: int|
            0 <= i < stimuli.len() ==> #[trigger] plays_on(
                state_at(core, stimuli, i),
                stimuli[i].0,
                stimuli[i].1,
            ),
        forall|i: int, j: int| 0 <= i <= j < stimuli.len() ==> stimuli[i].1 <= stimuli[j].1,
        forall|i: int| 0 <= i < stimuli.len() ==> earlier <= (#[trigger] stimuli[i]).1 <= later,
        earlier <= later,
    ensures
        core.state.effective_position_at(earlier) <= run(
            core,
            stimuli,
        ).state.effective_position_at(later),
    decreases stimuli.len(),
{
    if stimuli.len() == 0 {
        law_position_follows_clock(core.state, earlier, later);
    } else {
        let n = stimuli.len() as int;
        let before = stimuli.drop_last();
        let last = stimuli.last();
        assert forall|i: int| 0 <= i < before.len() implies #[trigger] plays_on(
            state_at(core, before, i),
            before[i].0,
            before[i].1,
        ) by {
            assert(before.take(i) =~= stimuli.take(i));
            assert(plays_on(state_at(core, stimuli, i), stimuli[i].0, stimuli[i].1));
        }
        assert forall|i: int| 0 <= i < before.len() implies earlier <= (#[trigger] before[i]).1
            <= last.1 by {
            assert(before[i] == stimuli[i]);
        }
        law_run_keeps_position(core, before, earlier, last.1 as int);
        assert(stimuli.take(n - 1) =~= before);
        assert(plays_on(state_at(core, stimuli, n - 1), stimuli[n - 1].0, stimuli[n - 1].1));
        lemma_run_preserves_wf(core, stimuli, n - 1);
        law_step_keeps_position(run(core, before), last.0, last.1, last.1 as int, later);
    }
}

/// Whether `after` holds a change over `before` that is reported to
/// observers: anything but the position measured anew.
pub open spec fn reports_change(before: PlayerState, after: PlayerState) -> bool {
    ||| after.status != before.status
    ||| after.update_time != before.update_time
    ||| after.revision != before.revision
}

/// `newer_than` orders snapshots strictly: none is newer than itself, and
/// one that is newer than a second is newer than all that the second is
/// newer than.
pub proof fn law_newer_is_strict(first: PlayerState, second: PlayerState, third: PlayerState)
    ensures
        !first.newer_than(first),
        first.newer_than(second) && second.newer_than(third) ==> first.newer_than(third),
        !(first.newer_than(second) && second.newer_than(first)),
{
}

/// A step leaves the snapshot as it is, or measures the position anew, or
/// reports a change, which advances the revision by one as long as it has
/// not reached `u64::MAX`.  The revision never goes back.
pub proof fn law_step_counts_changes(core: Core, event: Event, now: i64)
    ensures
        core.state.revision <= core.step(event, now).core.state.revision,
        reports_change(core.state, core.step(event, now).core.state) ==> {
            &&& core.step(event, now).core.state.revision == next_revision(core.state.revision)
            &&& core.step(event, now).core.state.update_time == now
        },
        !reports_change(core.state, core.step(event, now).core.state) && core.state.revision
            < u64::MAX ==> {
            ||| core.step(event, now).core.state == core.state
            ||| core.phase matches Phase::Rendering(timestamp_ms) && core.step(
                event,
                now,
            ).core.state == core.state.refreshed(timestamp_ms, now)
        },
{
}

/// The revision never goes back in a run.
pub proof fn law_run_counts_up(core: Core, stimuli: Seq<(Event, i64)>, i: int, j: int)
    requires
        0 <= i <= j <= stimuli.len(),
    ensures
        state_at(core, stimuli, i).state.revision <= state_at(core, stimuli, j).state.revision,
    decreases j - i,
{
    if i < j {
        law_run_counts_up(core, stimuli, i, j - 1);
        lemma_run_unfolds(core, stimuli, j - 1);
        law_step_counts_changes(state_at(core, stimuli, j - 1), stimuli[j - 1].0, stimuli[j - 1].1);
    }
}

/// No reported change is lost: once a step of a run has reported a change,
/// the snapshot at the end of the run is newer than every snapshot taken
/// before that step, as long as the revision has not reached `u64::MAX`.
pub proof fn law_no_change_is_lost(core: Core, stimuli: Seq<(Event, i64)>, seen: int, i: int)
    requires
        0 <= seen <= i < stimuli.len(),
        reports_change(state_at(core, stimuli, i).state, state_at(core, stimuli, i + 1).state),
        run(core, stimuli).state.revision < u64::MAX,
    ensures
        run(core, stimuli).state.newer_than(state_at(core, stimuli, seen).state),
{
    lemma_run_ends(core, stimuli);
    lemma_run_unfolds(core, stimuli, i);
    law_step_counts_changes(state_at(core, stimuli, i), stimuli[i].0, stimuli[i].1);
    law_run_counts_up(core, stimuli, seen, i);
    law_run_counts_up(core, stimuli, i + 1, stimuli.len() as int);
}

/// The decoder and the device are never used by two sessions at once:
/// a decoder session is discarded only while the device is stopped, a new
/// one is built only while there is none, and packets are pulled and
/// written only while the track plays on the one session there is.
pub proof fn law_sessions_are_exclusive(core: Core)
    requires
        core.wf(),
    ensures
        core.pending_action() is DiscardDecoder ==> core.session && core.state.status
            != PlaybackStatus::Playing,
        core.pending_action() is OpenDecoder ==> !core.session && core.state.status
            == PlaybackStatus::Loading,
        core.pending_action() is PullPacket || core.pending_action() is WritePacket
            ==> core.session && core.state.status == PlaybackStatus::Playing,
        core.state.status == PlaybackStatus::Playing ==> core.session,
        core.state.status == PlaybackStatus::Stopped && core.phase is Intake ==> !core.session,
{
}

/// A load that arrives while a track plays has the device stopped first:
/// the old decoder session is still there and is discarded only once the
/// device has stopped, before anything of the new track is fetched.
pub proof fn law_load_stops_device_first(core: Core, command: PlayerCommand, now: i64, later: i64)
    requires
        core.wf(),
        core.phase is Intake,
        core.state.status == PlaybackStatus::Playing,
        command is Load,
    ensures
        ({
            let taken = core.step(Event::Command(command), now).core;
            let stopped = taken.step(Event::DeviceStopped, later).core;
            &&& taken.pending_action() == Action::StopDevice
            &&& taken.session
            &&& taken.state == core.state
            &&& stopped.pending_action() == Action::DiscardDecoder
            &&& stopped.state.status == PlaybackStatus::Loading
        }),
{
}

} // verus!
