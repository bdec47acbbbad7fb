//! The playback state machine as a mathematical object.
//!
//! [`Core`] is everything the worker knows; [`Core::step`] says what it knows
//! after an event and what it reports; [`Core::pending_action`] says what it
//! asks for.  The executable worker is proved to compute exactly these.

use vstd::prelude::*;
use crate::protocol::{
    Action, Event, LoadRequest, Phase, PlayerCommand, PlayerError, HEADER_OFFSET,
};
use crate::state::{PlaybackStatus, PlayerState};

verus! {

/// Everything the worker knows.
#[derive(Clone, Copy, Debug, PartialEq, Eq)]
pub struct Core {
    /// The snapshot that observers see.
    pub state: PlayerState,
    /// Whether a decoder session exists.
    pub session: bool,
    /// The outside work whose outcome is awaited.
    pub phase: Phase,
}

/// The result of handling one event.
pub struct Step {
    /// What the worker knows afterwards.
    pub core: Core,
    /// `Err` carries what is reported upstream.
    pub verdict: Result<(), PlayerError>,
}

impl Core {
    /// A worker that has just been created at clock reading `now`.
    pub open spec fn initial(now: i64) -> Core {
        Core { state: PlayerState::initial(now), session: false, phase: Phase::Intake }
    }

    /// The states that a worker can be in.  The device runs exactly while the
    /// status is `Playing`, so every phase fixes whether it runs and whether a
    /// decoder session exists.
    pub open spec fn wf(self) -> bool {
        let status = self.state.status;
        match self.phase {
            Phase::Intake => match status {
                PlaybackStatus::Stopped => !self.session,
                PlaybackStatus::Loading => false,
                PlaybackStatus::Playing => self.session,
                PlaybackStatus::Paused => true,
            },
            Phase::Resuming => status == PlaybackStatus::Paused && self.session,
            Phase::Pausing | Phase::Stopping | Phase::Halting | Phase::Preempting(_)
            | Phase::Decoding | Phase::Rendering(_) => {
                status == PlaybackStatus::Playing && self.session
            },
            Phase::Releasing => {
                (status == PlaybackStatus::Paused || status == PlaybackStatus::Stopped)
                    && self.session
            },
            Phase::Repositioning(_) => {
                (status == PlaybackStatus::Paused || status == PlaybackStatus::Playing)
                    && self.session
            },
            Phase::Clearing(_) | Phase::Positioning(_) => {
                status == PlaybackStatus::Loading && self.session
            },
            Phase::Starting(request) => {
                status == PlaybackStatus::Loading && self.session && request.autoplay
            },
            Phase::Resolving(_) | Phase::FetchingKey(_, _) | Phase::Opening(_, _, _) => {
                status == PlaybackStatus::Loading && !self.session
            },
        }
    }

    /// The outside work that is owed in this state.
    pub open spec fn pending_action(self) -> Action {
        match self.phase {
            Phase::Intake => if self.state.status == PlaybackStatus::Playing {
                Action::PollCommand
            } else {
                Action::WaitCommand
            },
            Phase::Resuming | Phase::Starting(_) => Action::StartDevice,
            Phase::Pausing | Phase::Stopping | Phase::Halting | Phase::Preempting(_) => {
                Action::StopDevice
            },
            Phase::Releasing | Phase::Clearing(_) => Action::DiscardDecoder,
            Phase::Repositioning(position_ms) => Action::SeekDecoder(position_ms),
            Phase::Resolving(request) => Action::ResolveTrack(request.track),
            Phase::FetchingKey(request, file) => Action::FetchKey(request.track, file),
            Phase::Opening(_, file, key) => Action::OpenDecoder {
                file,
                key,
                header_offset: HEADER_OFFSET,
            },
            Phase::Positioning(request) => Action::SeekDecoder(request.start_ms),
            Phase::Decoding => Action::PullPacket,
            Phase::Rendering(_) => Action::WritePacket,
        }
    }

    /// This state with another phase.
    pub open spec fn at(self, phase: Phase) -> Core {
        Core { phase, ..self }
    }

    /// This state at the end of the command part of a loop iteration: a
    /// playing worker goes on to pull a packet, any other awaits a command.
    pub open spec fn settled(self) -> Core {
        if self.state.status == PlaybackStatus::Playing {
            self.at(Phase::Decoding)
        } else {
            self.at(Phase::Intake)
        }
    }

    /// This state once a load has been taken up at `now`, the device being
    /// stopped: the status is `Loading`, the position is where the load
    /// starts, and an old decoder session is discarded before anything else.
    pub open spec fn loading(self, request: LoadRequest, now: i64) -> Core {
        Core {
            state: self.state.moved(PlaybackStatus::Loading, request.start_ms, now),
            session: self.session,
            phase: if self.session {
                Phase::Clearing(request)
            } else {
                Phase::Resolving(request)
            },
        }
    }

    /// This state once a load has come through at `now`, with the status it
    /// ends in.
    pub open spec fn loaded(self, request: LoadRequest, status: PlaybackStatus, now: i64) -> Core {
        Core {
            state: self.state.moved(status, request.start_ms, now),
            session: self.session,
            phase: Phase::Intake,
        }.settled()
    }

    /// This state once playback was given up at `now`, the device being
    /// stopped: the status is `Stopped`, and a decoder session is discarded
    /// next.
    pub open spec fn stopped(self, now: i64) -> Core {
        Core {
            state: self.state.touched(PlaybackStatus::Stopped, now),
            session: self.session,
            phase: if self.session {
                Phase::Releasing
            } else {
                Phase::Intake
            },
        }
    }

    /// The step that ends in `core` and reports nothing.
    pub open spec fn accept(core: Core) -> Step {
        Step { core, verdict: Ok(()) }
    }

    /// The step that ends in `core` and reports `error`.
    pub open spec fn report(core: Core, error: PlayerError) -> Step {
        Step { core, verdict: Err(error) }
    }

    /// The step that turns down an event that does not answer the action
    /// that was owed.
    pub open spec fn refuse(self) -> Step {
        Core::report(self, PlayerError::UnexpectedEvent)
    }

    /// Handling a command at `now`.  A command that needs a decoder session
    /// is turned down where there is none; one that asks for what already
    /// holds changes nothing.
    pub open spec fn step_command(self, command: PlayerCommand, now: i64) -> Step {
        let playing = self.state.status == PlaybackStatus::Playing;
        if !(command is Load) && !self.session {
            Core::report(self, PlayerError::NotLoaded)
        } else {
            match command {
                PlayerCommand::Load(request) => if playing {
                    Core::accept(self.at(Phase::Preempting(request)))
                } else {
                    Core::accept(self.loading(request, now))
                },
                PlayerCommand::Play => if playing {
                    Core::accept(self.settled())
                } else {
                    Core::accept(self.at(Phase::Resuming))
                },
                PlayerCommand::Pause => if playing {
                    Core::accept(self.at(Phase::Pausing))
                } else {
                    Core::accept(self.settled())
                },
                PlayerCommand::Stop => if playing {
                    Core::accept(self.at(Phase::Stopping))
                } else {
                    Core::accept(
                        Core {
                            state: self.state.touched(PlaybackStatus::Paused, now),
                            session: self.session,
                            phase: Phase::Releasing,
                        },
                    )
                },
                PlayerCommand::Seek(position_ms) => {
                    Core::accept(self.at(Phase::Repositioning(position_ms)))
                },
            }
        }
    }

    /// Handling the outcome of a device start or stop that a command or a
    /// halt asked for.
    pub open spec fn step_device(self, event: Event, now: i64) -> Step {
        match (self.phase, event) {
            (Phase::Resuming, Event::DeviceStarted) => Core::accept(
                Core {
                    state: self.state.moved(PlaybackStatus::Playing, self.state.position_ms, now),
                    session: self.session,
                    phase: Phase::Decoding,
                },
            ),
            (Phase::Pausing, Event::DeviceStopped) => Core::accept(
                Core {
                    state: self.state.touched(PlaybackStatus::Paused, now),
                    session: self.session,
                    phase: Phase::Intake,
                },
            ),
            (Phase::Stopping, Event::DeviceStopped) => Core::accept(
                Core {
                    state: self.state.touched(PlaybackStatus::Paused, now),
                    session: self.session,
                    phase: Phase::Releasing,
                },
            ),
            (Phase::Halting, Event::DeviceStopped) => Core::accept(self.stopped(now)),
            (Phase::Preempting(request), Event::DeviceStopped) => {
                Core::accept(self.loading(request, now))
            },
            (Phase::Starting(request), Event::DeviceStarted) => {
                Core::accept(self.loaded(request, PlaybackStatus::Playing, now))
            },
            (_, Event::DeviceFault) => Core::report(self.stopped(now), PlayerError::DeviceFault),
            _ => self.refuse(),
        }
    }

    /// Handling the outcome of a stage of a load that builds the decoder
    /// session.  A stage that fails ends the load in `Stopped`.
    pub open spec fn step_load(self, event: Event, now: i64) -> Step {
        match (self.phase, event) {
            (Phase::Clearing(request), Event::DecoderDiscarded) => Core::accept(
                Core { session: false, phase: Phase::Resolving(request), ..self },
            ),
            (Phase::Resolving(request), Event::TrackResolved(files)) => {
                if files@.len() > 0 {
                    Core::accept(self.at(Phase::FetchingKey(request, files@[0])))
                } else {
                    Core::report(self.stopped(now), PlayerError::MetadataUnresolved)
                }
            },
            (Phase::Resolving(_), Event::TrackUnresolved) => {
                Core::report(self.stopped(now), PlayerError::MetadataUnresolved)
            },
            (Phase::FetchingKey(request, file), Event::KeyFetched(key)) => {
                Core::accept(self.at(Phase::Opening(request, file, key)))
            },
            (Phase::FetchingKey(_, _), Event::KeyDenied) => {
                Core::report(self.stopped(now), PlayerError::KeyFetchFailed)
            },
            (Phase::Opening(request, _, _), Event::DecoderOpened) => Core::accept(
                Core { session: true, phase: Phase::Positioning(request), ..self },
            ),
            (Phase::Opening(_, _, _), Event::StreamUnavailable) => {
                Core::report(self.stopped(now), PlayerError::StreamOpenFailed)
            },
            (Phase::Opening(_, _, _), Event::DecoderRejected) => {
                Core::report(self.stopped(now), PlayerError::DecoderConstructionFailed)
            },
            (Phase::Positioning(request), Event::Seeked(_)) => {
                if request.autoplay {
                    Core::accept(self.at(Phase::Starting(request)))
                } else {
                    Core::accept(self.loaded(request, PlaybackStatus::Paused, now))
                }
            },
            (Phase::Positioning(_), Event::DecoderFault) => {
                Core::report(self.stopped(now), PlayerError::DecoderFault)
            },
            _ => self.refuse(),
        }
    }

    /// Handling the outcome of work on the decoder session that is in use:
    /// a seek, a packet pulled, a packet written, the session discarded.
    pub open spec fn step_session(self, event: Event, now: i64) -> Step {
        let playing = self.state.status == PlaybackStatus::Playing;
        match (self.phase, event) {
            (Phase::Releasing, Event::DecoderDiscarded) => Core::accept(
                Core { session: false, phase: Phase::Intake, ..self },
            ),
            (Phase::Repositioning(_), Event::Seeked(position_ms)) => Core::accept(
                Core {
                    state: self.state.moved(self.state.status, position_ms, now),
                    session: self.session,
                    phase: Phase::Intake,
                }.settled(),
            ),
            (Phase::Repositioning(_), Event::DecoderFault) => {
                if playing {
                    Core::report(self.at(Phase::Halting), PlayerError::DecoderFault)
                } else {
                    Core::report(self.stopped(now), PlayerError::DecoderFault)
                }
            },
            (Phase::Decoding, Event::Packet(timestamp_ms)) => {
                Core::accept(self.at(Phase::Rendering(timestamp_ms)))
            },
            (Phase::Decoding, Event::Gap) => Core::accept(self.at(Phase::Intake)),
            (Phase::Decoding, Event::EndOfStream) => Core::accept(self.at(Phase::Halting)),
            (Phase::Decoding, Event::DecoderFault) => {
                Core::report(self.at(Phase::Halting), PlayerError::DecoderFault)
            },
            (Phase::Rendering(timestamp_ms), Event::Written)
            | (Phase::Rendering(timestamp_ms), Event::Underflow) => Core::accept(
                Core {
                    state: self.state.refreshed(timestamp_ms, now),
                    session: self.session,
                    phase: Phase::Intake,
                },
            ),
            (Phase::Rendering(_), Event::DeviceFault) => {
                Core::report(self.at(Phase::Halting), PlayerError::DeviceFault)
            },
            _ => self.refuse(),
        }
    }

    /// What the worker knows and reports after `event` at clock reading
    /// `now`.
    pub open spec fn step(self, event: Event, now: i64) -> Step {
        match self.phase {
            Phase::Intake => match event {
                Event::NoCommand => Core::accept(self.settled()),
                Event::Command(command) => self.step_command(command, now),
                _ => self.refuse(),
            },
            Phase::Resuming | Phase::Pausing | Phase::Stopping | Phase::Halting
            | Phase::Preempting(_) | Phase::Starting(_) => self.step_device(event, now),
            Phase::Clearing(_) | Phase::Resolving(_) | Phase::FetchingKey(_, _)
            | Phase::Opening(_, _, _) | Phase::Positioning(_) => self.step_load(event, now),
            Phase::Releasing | Phase::Repositioning(_) | Phase::Decoding
            | Phase::Rendering(_) => self.step_session(event, now),
        }
    }
}

} // verus!
