//! The executable playback worker.

use vstd::prelude::*;
use crate::model::{Core, Step};
use crate::protocol::{
    Action, Event, LoadRequest, Phase, PlayerCommand, PlayerError, HEADER_OFFSET,
};
use crate::state::{PlaybackStatus, PlayerState};

verus! {

/// The playback worker: it owns the snapshot that observers see and decides,
/// event by event, what is done to the decoder and the output device.
///
/// Its view is the [`Core`] it stands for, which is always one of the states
/// that [`Core::wf`] admits.
pub struct Worker {
    core: Core,
}

impl View for Worker {
    type V = Core;

    closed spec fn view(&self) -> Core {
        self.core
    }
}

fn is_playing(core: &Core) -> (playing: bool)
    ensures
        playing == (core.state.status == PlaybackStatus::Playing),
{
    match core.state.status {
        PlaybackStatus::Playing => true,
        _ => false,
    }
}

fn at(core: &Core, phase: Phase) -> (next: Core)
    ensures
        next == core.at(phase),
{
    Core { state: core.state, session: core.session, phase }
}

fn settle(core: &Core) -> (next: Core)
    ensures
        next == core.settled(),
{
    if is_playing(core) {
        at(core, Phase::Decoding)
    } else {
        at(core, Phase::Intake)
    }
}

fn begin_load(core: &Core, request: LoadRequest, now: i64) -> (next: Core)
    ensures
        next == core.loading(request, now),
{
    Core {
        state: core.state.move_to(PlaybackStatus::Loading, request.start_ms, now),
        session: core.session,
        phase: if core.session {
            Phase::Clearing(request)
        } else {
            Phase::Resolving(request)
        },
    }
}

fn finish_load(core: &Core, request: LoadRequest, status: PlaybackStatus, now: i64) -> (next: Core)
    ensures
        next == core.loaded(request, status, now),
{
    let done = Core {
        state: core.state.move_to(status, request.start_ms, now),
        session: core.session,
        phase: Phase::Intake,
    };
    settle(&done)
}

fn give_up(core: &Core, now: i64) -> (next: Core)
    ensures
        next == core.stopped(now),
{
    Core {
        state: core.state.touch(PlaybackStatus::Stopped, now),
        session: core.session,
        phase: if core.session {
            Phase::Releasing
        } else {
            Phase::Intake
        },
    }
}

fn accept(core: Core) -> (step: Step)
    ensures
        step == Core::accept(core),
{
    Step { core, verdict: Ok(()) }
}

fn report(core: Core, error: PlayerError) -> (step: Step)
    ensures
        step == Core::report(core, error),
{
    Step { core, verdict: Err(error) }
}

fn refuse(core: &Core) -> (step: Step)
    ensures
        step == core.refuse(),
{
    report(*core, PlayerError::UnexpectedEvent)
}

fn handle_command(core: &Core, command: PlayerCommand, now: i64) -> (step: Step)
    ensures
        step == core.step_command(command, now),
{
    let playing = is_playing(core);
    match command {
        PlayerCommand::Load(request) => {
            if playing {
                accept(at(core, Phase::Preempting(request)))
            } else {
                accept(begin_load(core, request, now))
            }
        },
        PlayerCommand::Play => {
            if !core.session {
                report(*core, PlayerError::NotLoaded)
            } else if playing {
                accept(settle(core))
            } else {
                accept(at(core, Phase::Resuming))
            }
        },
        PlayerCommand::Pause => {
            if !core.session {
                report(*core, PlayerError::NotLoaded)
            } else if playing {
                accept(at(core, Phase::Pausing))
            } else {
                accept(settle(core))
            }
        },
        PlayerCommand::Stop => {
            if !core.session {
                report(*core, PlayerError::NotLoaded)
            } else if playing {
                accept(at(core, Phase::Stopping))
            } else {
                accept(
                    Core {
                        state: core.state.touch(PlaybackStatus::Paused, now),
                        session: core.session,
                        phase: Phase::Releasing,
                    },
                )
            }
        },
        PlayerCommand::Seek(position_ms) => {
            if !core.session {
                report(*core, PlayerError::NotLoaded)
            } else {
                accept(at(core, Phase::Repositioning(position_ms)))
            }
        },
    }
}

fn handle_device(core: &Core, event: Event, now: i64) -> (step: Step)
    ensures
        step == core.step_device(event, now),
{
    match event {
        Event::DeviceFault => report(give_up(core, now), PlayerError::DeviceFault),
        Event::DeviceStarted => match core.phase {
            Phase::Resuming => accept(
                Core {
                    state: core.state.move_to(PlaybackStatus::Playing, core.state.position_ms, now),
                    session: core.session,
                    phase: Phase::Decoding,
                },
            ),
            Phase::Starting(request) => {
                accept(finish_load(core, request, PlaybackStatus::Playing, now))
            },
            _ => refuse(core),
        },
        Event::DeviceStopped => match core.phase {
            Phase::Pausing => accept(
                Core {
                    state: core.state.touch(PlaybackStatus::Paused, now),
                    session: core.session,
                    phase: Phase::Intake,
                },
            ),
            Phase::Stopping => accept(
                Core {
                    state: core.state.touch(PlaybackStatus::Paused, now),
                    session: core.session,
                    phase: Phase::Releasing,
                },
            ),
            Phase::Halting => accept(give_up(core, now)),
            Phase::Preempting(request) => accept(begin_load(core, request, now)),
            _ => refuse(core),
        },
        _ => refuse(core),
    }
}

fn handle_load(core: &Core, event: Event, now: i64) -> (step: Step)
    ensures
        step == core.step_load(event, now),
{
    match core.phase {
        Phase::Clearing(request) => match event {
            Event::DecoderDiscarded => accept(
                Core { state: core.state, session: false, phase: Phase::Resolving(request) },
            ),
            _ => refuse(core),
        },
        Phase::Resolving(request) => match event {
            Event::TrackResolved(files) => {
                if files.len() > 0 {
                    accept(at(core, Phase::FetchingKey(request, files[0])))
                } else {
                    report(give_up(core, now), PlayerError::MetadataUnresolved)
                }
            },
            Event::TrackUnresolved => report(give_up(core, now), PlayerError::MetadataUnresolved),
            _ => refuse(core),
        },
        Phase::FetchingKey(request, file) => match event {
            Event::KeyFetched(key) => accept(at(core, Phase::Opening(request, file, key))),
            Event::KeyDenied => report(give_up(core, now), PlayerError::KeyFetchFailed),
            _ => refuse(core),
        },
        Phase::Opening(request, _, _) => match event {
            Event::DecoderOpened => accept(
                Core { state: core.state, session: true, phase: Phase::Positioning(request) },
            ),
            Event::StreamUnavailable => report(give_up(core, now), PlayerError::StreamOpenFailed),
            Event::DecoderRejected => {
                report(give_up(core, now), PlayerError::DecoderConstructionFailed)
            },
            _ => refuse(core),
        },
        Phase::Positioning(request) => match event {
            Event::Seeked(_) => {
                if request.autoplay {
                    accept(at(core, Phase::Starting(request)))
                } else {
                    accept(finish_load(core, request, PlaybackStatus::Paused, now))
                }
            },
            Event::DecoderFault => report(give_up(core, now), PlayerError::DecoderFault),
            _ => refuse(core),
        },
        _ => refuse(core),
    }
}

fn handle_session(core: &Core, event: Event, now: i64) -> (step: Step)
    ensures
        step == core.step_session(event, now),
{
    match core.phase {
        Phase::Releasing => match event {
            Event::DecoderDiscarded => accept(
                Core { state: core.state, session: false, phase: Phase::Intake },
            ),
            _ => refuse(core),
        },
        Phase::Repositioning(_) => match event {
            Event::Seeked(position_ms) => {
                let moved = Core {
                    state: core.state.move_to(core.state.status, position_ms, now),
                    session: core.session,
                    phase: Phase::Intake,
                };
                accept(settle(&moved))
            },
            Event::DecoderFault => {
                if is_playing(core) {
                    report(at(core, Phase::Halting), PlayerError::DecoderFault)
                } else {
                    report(give_up(core, now), PlayerError::DecoderFault)
                }
            },
            _ => refuse(core),
        },
        Phase::Decoding => match event {
            Event::Packet(timestamp_ms) => accept(at(core, Phase::Rendering(timestamp_ms))),
            Event::Gap => accept(at(core, Phase::Intake)),
            Event::EndOfStream => accept(at(core, Phase::Halting)),
            Event::DecoderFault => report(at(core, Phase::Halting), PlayerError::DecoderFault),
            _ => refuse(core),
        },
        Phase::Rendering(timestamp_ms) => match event {
            Event::Written | Event::Underflow => accept(
                Core {
                    state: core.state.refresh(timestamp_ms, now),
                    session: core.session,
                    phase: Phase::Intake,
                },
            ),
            Event::DeviceFault => report(at(core, Phase::Halting), PlayerError::DeviceFault),
            _ => refuse(core),
        },
        _ => refuse(core),
    }
}

fn handle_event(core: &Core, event: Event, now: i64) -> (step: Step)
    ensures
        step == core.step(event, now),
{
    match core.phase {
        Phase::Intake => match event {
            Event::NoCommand => accept(settle(core)),
            Event::Command(command) => handle_command(core, command, now),
            _ => refuse(core),
        },
        Phase::Resuming | Phase::Pausing | Phase::Stopping | Phase::Halting
        | Phase::Preempting(_) | Phase::Starting(_) => handle_device(core, event, now),
        Phase::Clearing(_) | Phase::Resolving(_) | Phase::FetchingKey(_, _)
        | Phase::Opening(_, _, _) | Phase::Positioning(_) => handle_load(core, event, now),
        Phase::Releasing | Phase::Repositioning(_) | Phase::Decoding | Phase::Rendering(_) => {
            handle_session(core, event, now)
        },
    }
}

impl Worker {
    #[verifier::type_invariant]
    spec fn inv(self) -> bool {
        self.core.wf()
    }

    /// Creates a worker at clock reading `now`: nothing is loaded, the status
    /// is `Stopped` and a command is awaited.
    pub fn new(now: i64) -> (worker: Worker)
        ensures
            worker@ == Core::initial(now),
            worker@.wf(),
    {
        Worker { core: Core { state: PlayerState::new(now), session: false, phase: Phase::Intake } }
    }

    /// The snapshot that observers see.
    pub fn state(&self) -> (state: PlayerState)
        ensures
            state == self@.state,
            self@.wf(),
    {
        proof {
            use_type_invariant(self);
        }
        self.core.state
    }

    /// Whether a decoder session exists.
    pub fn has_session(&self) -> (session: bool)
        ensures
            session == self@.session,
            self@.wf(),
    {
        proof {
            use_type_invariant(self);
        }
        self.core.session
    }

    /// The outside work that is owed now.  Its outcome is what
    /// [`Worker::handle`] expects next.
    pub fn next_action(&self) -> (action: Action)
        ensures
            action == self@.pending_action(),
            self@.wf(),
    {
        proof {
            use_type_invariant(self);
        }
        match self.core.phase {
            Phase::Intake => {
                if is_playing(&self.core) {
                    Action::PollCommand
                } else {
                    Action::WaitCommand
                }
            },
            Phase::Resuming | Phase::Starting(_) => Action::StartDevice,
            Phase::Pausing | Phase::Stopping | Phase::Halting | Phase::Preempting(_) => {
                Action::StopDevice
            },
            Phase::Releasing | Phase::Clearing(_) => Action::DiscardDecoder,
            Phase::Repositioning(position_ms) => Action::SeekDecoder(position_ms),
            Phase::Resolving(request) => Action::ResolveTrack(request.track),
            Phase::FetchingKey(request, file) => Action::FetchKey(request.track, file),
            Phase::Opening(_, file, key) => Action::OpenDecoder {
                file,
                key,
                header_offset: HEADER_OFFSET,
            },
            Phase::Positioning(request) => Action::SeekDecoder(request.start_ms),
            Phase::Decoding => Action::PullPacket,
            Phase::Rendering(_) => Action::WritePacket,
        }
    }

    /// Takes in what happened at clock reading `now` and moves on.
    ///
    /// `Err` carries what is to be reported upstream: a command that was
    /// turned down, a load or a playback that was given up, or an event that
    /// does not answer the action that was owed (which changes nothing).
    pub fn handle(&mut self, event: Event, now: i64) -> (verdict: Result<(), PlayerError>)
        ensures
            final(self)@ == old(self)@.step(event, now).core,
            verdict == old(self)@.step(event, now).verdict,
            old(self)@.wf(),
            final(self)@.wf(),
    {
        proof {
            use_type_invariant(&*self);
        }
        let step = handle_event(&self.core, event, now);
        self.core = step.core;
        step.verdict
    }
}

} // verus!
