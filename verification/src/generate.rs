//! Driving the server through a pregeneration.
//!
//! A [`Generation`] decides; its owner acts. The owner alternates between two
//! questions, which each [`Step`] names: [`Generation::poll`] with whether to go
//! on, and [`Generation::read_console`] with what the server printed. Each time
//! it performs the step: first the report, then the commands, then the cache.

use crate::commands::{
    flush_command, load_commands, push_flush_and_stop, push_load_commands, push_release_and_flush,
    release_commands, stop_command,
};
use crate::console::{
    compile, is_saved_line, matches_stdout, printed, regex_pattern, Text, SAVED_PATTERN,
};
use crate::controller::{ControllerError, Plan, PregenController};
use crate::dimensions::Dimensions;
use crate::state::PregenState;
use crate::walk::{chunk_at, last_ring, middle_block, next_spot, ring_size, valid, Spot};
use regex::Regex;
use vstd::prelude::*;

verus! {

/// The number of chunks that are loaded between two saves.
pub const SAVE_INTERVAL: u32 = 512;

/// What a generation is doing.
#[derive(Clone, Copy, Debug, PartialEq, Eq, Structural)]
pub enum Phase {
    /// Loading chunks.
    Generating,
    /// Waiting for the server to save, and then going on.
    Saving,
    /// Waiting for the server to save after the last chunk, and then at an end.
    Finishing,
    /// Waiting for the server to save after an interruption, and then at an end.
    Interrupting,
    /// At an end.
    Finished,
}

/// How a generation ended.
#[derive(Clone, Copy, Debug, PartialEq, Eq, Structural)]
pub enum Outcome {
    /// It was told to stop.
    Interrupted,
    /// All chunks were generated in this radius in blocks.
    Completed { radius: u32 },
    /// The server ended after attempting to save the world, without interruption.
    ServerEnded,
}

impl Outcome {
    /// Describes the outcome, if it is an error.
    pub fn error(self) -> (text: Option<&'static str>)
        ensures
            text is Some <==> self is ServerEnded,
            text matches Some(text) ==> text@ == "server ended after attempting to save world"@,
    {
        match self {
            Outcome::ServerEnded => Some("server ended after attempting to save world"),
            _ => None,
        }
    }
}

/// What the owner of a generation does after performing a step.
#[derive(Clone, Copy, Debug, PartialEq, Eq, Structural)]
pub enum Next {
    /// Call `poll`.
    Poll,
    /// Call `read_console` with the next line of the server.
    ReadConsole,
    /// Stop.
    Finish(Outcome),
}

/// What the owner of a generation is to perform, in the order of the fields.
#[derive(Debug)]
pub struct Step {
    /// A radius in blocks and a number of chunks, for each new ring.
    pub report: Option<(u32, u32)>,
    /// Commands for the server.
    pub commands: String,
    /// A state to cache, once the server has saved all chunks before it.
    pub cache: Option<PregenState>,
    pub next: Next,
}

/// A step in mathematical terms.
pub struct StepModel {
    pub report: Option<(nat, nat)>,
    pub commands: Seq<char>,
    pub cache: Option<Spot>,
    pub next: Next,
}

impl View for Step {
    type V = StepModel;

    open spec fn view(&self) -> StepModel {
        StepModel {
            report: match self.report {
                Some((radius, chunks)) => Some((radius as nat, chunks as nat)),
                None => None,
            },
            commands: self.commands@,
            cache: match self.cache {
                Some(state) => Some(state@),
                None => None,
            },
            next: self.next,
        }
    }
}

/// How the server replied to a command to save, as far as is known.
#[derive(Clone, Copy, Debug, PartialEq, Eq, Structural)]
pub enum Reply {
    /// It printed something else.
    Other,
    /// It printed that it saved.
    Saved,
    /// It will not print anything any more.
    Ended,
}

/// A generation in mathematical terms.
pub struct Session {
    pub dimensions: Dimensions,
    /// The chunk to load next.
    pub spot: Spot,
    pub max_ring: nat,
    /// The number of chunks loaded since the last save.
    pub unsaved: nat,
    /// The last ring that was reported.
    pub reported: Option<nat>,
    pub phase: Phase,
}

/// The session that a plan starts with.
pub open spec fn started(plan: Plan, dimensions: Dimensions) -> Session {
    Session {
        dimensions,
        spot: plan.spot,
        max_ring: plan.max_ring,
        unsaved: 0,
        reported: None,
        phase: Phase::Generating,
    }
}

/// What every session of a generation satisfies.
pub open spec fn sound(s: Session) -> bool {
    &&& valid(s.spot)
    &&& s.max_ring <= last_ring(u32::MAX as nat)
    &&& s.spot.ring <= s.max_ring || s.spot == (Spot { ring: s.max_ring + 1, index: 0 })
    &&& s.unsaved < SAVE_INTERVAL
    &&& s.phase is Finishing ==> s.spot.ring > s.max_ring
}

/// The commands that load the chunk at a spot.
pub open spec fn load_spot(dimensions: Dimensions, spot: Spot) -> Seq<char> {
    let (x, z) = chunk_at(spot);
    load_commands(dimensions, middle_block(x), middle_block(z))
}

/// What is reported before the chunk at the session's spot is loaded: for each
/// new ring, the radius of the rings before it and the number of its chunks
/// that are left.
pub open spec fn report_for(s: Session) -> Option<(nat, nat)> {
    if s.reported == Some(s.spot.ring) {
        None
    } else {
        Some((16 * s.spot.ring, (ring_size(s.spot.ring) - s.spot.index) as nat))
    }
}

/// What `poll` does.
pub open spec fn polled(s: Session, running: bool) -> (Session, StepModel) {
    if !running {
        (
            Session { phase: Phase::Interrupting, ..s },
            StepModel {
                report: None,
                commands: flush_command() + stop_command(),
                cache: None,
                next: Next::ReadConsole,
            },
        )
    } else if s.spot.ring > s.max_ring {
        (
            Session { phase: Phase::Finishing, ..s },
            StepModel {
                report: None,
                commands: flush_command() + stop_command(),
                cache: None,
                next: Next::ReadConsole,
            },
        )
    } else if s.unsaved + 1 < SAVE_INTERVAL {
        (
            Session {
                spot: next_spot(s.spot),
                unsaved: s.unsaved + 1,
                reported: Some(s.spot.ring),
                ..s
            },
            StepModel {
                report: report_for(s),
                commands: load_spot(s.dimensions, s.spot),
                cache: None,
                next: Next::Poll,
            },
        )
    } else {
        (
            Session {
                spot: next_spot(s.spot),
                unsaved: 0,
                reported: Some(s.spot.ring),
                phase: Phase::Saving,
                ..s
            },
            StepModel {
                report: report_for(s),
                commands: load_spot(s.dimensions, s.spot) + release_commands() + flush_command(),
                cache: None,
                next: Next::ReadConsole,
            },
        )
    }
}

/// What `handle_reply` does.
pub open spec fn replied(s: Session, reply: Reply) -> (Session, StepModel) {
    match reply {
        Reply::Other => (
            s,
            StepModel { report: None, commands: seq![], cache: None, next: Next::ReadConsole },
        ),
        Reply::Saved => if s.phase is Saving {
            (
                Session { phase: Phase::Generating, ..s },
                StepModel { report: None, commands: seq![], cache: Some(s.spot), next: Next::Poll },
            )
        } else if s.phase is Interrupting {
            (
                Session { phase: Phase::Finished, ..s },
                StepModel {
                    report: None,
                    commands: seq![],
                    cache: Some(s.spot),
                    next: Next::Finish(Outcome::Interrupted),
                },
            )
        } else {
            (
                Session { phase: Phase::Finished, ..s },
                StepModel {
                    report: None,
                    commands: seq![],
                    cache: Some(s.spot),
                    next: Next::Finish(Outcome::Completed { radius: (16 * s.spot.ring) as u32 }),
                },
            )
        },
        Reply::Ended => (
            Session { phase: Phase::Finished, ..s },
            StepModel {
                report: None,
                commands: seq![],
                cache: None,
                next: Next::Finish(
                    if s.phase is Interrupting {
                        Outcome::Interrupted
                    } else {
                        Outcome::ServerEnded
                    },
                ),
            },
        ),
    }
}

/// Whether a generation in this phase waits for the server to save.
pub open spec fn awaits_save(phase: Phase) -> bool {
    phase is Saving || phase is Finishing || phase is Interrupting
}

/// What a line of the console, or its end, says about a save.
pub open spec fn reply_in(text: Option<Text>) -> Reply {
    match text {
        None => Reply::Ended,
        Some(text) => if printed(text) matches Some(line) && is_saved_line(line) {
            Reply::Saved
        } else {
            Reply::Other
        },
    }
}

/// A pregeneration in progress.
#[derive(Debug)]
pub struct Generation {
    dimensions: Dimensions,
    state: PregenState,
    max_ring: u32,
    unsaved: u32,
    reported: Option<u32>,
    phase: Phase,
    saved: Regex,
}

impl View for Generation {
    type V = Session;

    closed spec fn view(&self) -> Session {
        Session {
            dimensions: self.dimensions,
            spot: self.state@,
            max_ring: self.max_ring as nat,
            unsaved: self.unsaved as nat,
            reported: match self.reported {
                Some(ring) => Some(ring as nat),
                None => None,
            },
            phase: self.phase,
        }
    }
}

impl PregenController {
    /// Starts issuing commands to the server for the chosen dimensions. Each step
    /// carries a radius and a number of chunks for each new ring, for logging
    /// purposes, and, after a successful `save-all flush` only, a state for caching
    /// purposes.
    pub fn generate_chunks(self, dimensions: Dimensions) -> (g: Generation)
        requires
            self.wf(),
        ensures
            g.wf(),
            g@ == started(self@, dimensions),
    {
        let (state, max_ring) = self.into_parts();

        Generation {
            dimensions,
            state,
            max_ring,
            unsaved: 0,
            reported: None,
            phase: Phase::Generating,
            saved: compile(SAVED_PATTERN),
        }
    }
}

impl Generation {
    pub open spec fn wf(self) -> bool {
        &&& sound(self@)
        &&& self.listens()
    }

    /// It holds the pattern of the line that reports a finished save.
    pub closed spec fn listens(self) -> bool {
        regex_pattern(self.saved) == SAVED_PATTERN@
    }

    /// Goes on with the next chunk so long as `running` holds. Else, and after the
    /// last chunk, has the server save and stop.
    pub fn poll(&mut self, running: bool) -> (step: Step)
        requires
            old(self).wf(),
            old(self)@.phase is Generating,
            running && old(self)@.spot.ring <= old(self)@.max_ring ==> 16 * (old(self)@.spot.ring
                + 1) <= i32::MAX + 1,
        ensures
            final(self).wf(),
            (final(self)@, step@) == polled(old(self)@, running),
    {
        let mut commands = String::new();

        if !running {
            push_flush_and_stop(&mut commands);
            self.phase = Phase::Interrupting;
            return Step { report: None, commands, cache: None, next: Next::ReadConsole };
        }
        let ring: u32 = self.state.ring();

        if ring > self.max_ring {
            push_flush_and_stop(&mut commands);
            self.phase = Phase::Finishing;
            return Step { report: None, commands, cache: None, next: Next::ReadConsole };
        }
        let known: bool = match self.reported {
            Some(reported) => reported == ring,
            None => false,
        };
        let report: Option<(u32, u32)> = if known {
            None
        } else {
            Some((ring * 16, self.state.num_values() - self.state.index()))
        };
        self.reported = Some(ring);

        let (x, z) = self.state.block();
        push_load_commands(&mut commands, self.dimensions, x, z);

        self.state.increment();
        self.unsaved = self.unsaved + 1;

        if self.unsaved == SAVE_INTERVAL {
            self.unsaved = 0;
            push_release_and_flush(&mut commands);
            self.phase = Phase::Saving;
            Step { report, commands, cache: None, next: Next::ReadConsole }
        } else {
            Step { report, commands, cache: None, next: Next::Poll }
        }
    }

    /// Takes the next line of the server, or the end of its output, while a save
    /// is awaited.
    pub fn read_console(&mut self, text: Option<Text>) -> (step: Step)
        requires
            old(self).wf(),
            awaits_save(old(self)@.phase),
            old(self)@.phase is Finishing && reply_in(text) is Saved ==> 16 * old(self)@.spot.ring
                <= u32::MAX,
        ensures
            final(self).wf(),
            (final(self)@, step@) == replied(old(self)@, reply_in(text)),
    {
        let reply: Reply = match &text {
            None => Reply::Ended,
            Some(text) => if matches_stdout(&self.saved, text) {
                Reply::Saved
            } else {
                Reply::Other
            },
        };
        self.handle_reply(reply)
    }

    /// Takes what the server's output says about the awaited save.
    pub fn handle_reply(&mut self, reply: Reply) -> (step: Step)
        requires
            old(self).wf(),
            awaits_save(old(self)@.phase),
            old(self)@.phase is Finishing && reply is Saved ==> 16 * old(self)@.spot.ring
                <= u32::MAX,
        ensures
            final(self).wf(),
            (final(self)@, step@) == replied(old(self)@, reply),
    {
        let commands = String::new();

        match reply {
            Reply::Other => Step { report: None, commands, cache: None, next: Next::ReadConsole },
            Reply::Saved => {
                let cache = Some(self.state);
                match self.phase {
                    Phase::Saving => {
                        self.phase = Phase::Generating;
                        Step { report: None, commands, cache, next: Next::Poll }
                    },
                    Phase::Interrupting => {
                        self.phase = Phase::Finished;
                        Step {
                            report: None,
                            commands,
                            cache,
                            next: Next::Finish(Outcome::Interrupted),
                        }
                    },
                    _ => {
                        self.phase = Phase::Finished;
                        let radius: u32 = self.state.ring() * 16;
                        Step {
                            report: None,
                            commands,
                            cache,
                            next: Next::Finish(Outcome::Completed { radius }),
                        }
                    },
                }
            },
            Reply::Ended => {
                let outcome: Outcome = match self.phase {
                    Phase::Interrupting => Outcome::Interrupted,
                    _ => Outcome::ServerEnded,
                };
                self.phase = Phase::Finished;
                Step { report: None, commands, cache: None, next: Next::Finish(outcome) }
            },
        }
    }
}

/// A generation starts with the chunk and for the rings that its controller was created
/// for, in the dimensions that it is started for, with nothing loaded and nothing
/// reported.
pub proof fn law_generation_starts_as_controlled(
    radius: u32,
    state: Option<PregenState>,
    c: PregenController,
    dimensions: Dimensions,
    g: Generation,
)
    requires
        call_ensures(
            PregenController::new,
            (radius, state),
            Ok::<Option<PregenController>, ControllerError>(Some(c)),
        ),
        call_ensures(PregenController::generate_chunks, (c, dimensions), g),
    ensures
        state is None ==> g@.spot == (Spot { ring: 0, index: 0 }),
        state matches Some(s) ==> g@.spot == s@,
        16 * g@.max_ring < radius <= 16 * (g@.max_ring + 1),
        g@.dimensions == dimensions,
        g@.unsaved == 0,
        g@.reported is None,
        g@.phase is Generating,
{
}

/// Only a server that ended without an interruption is an error.
pub proof fn law_only_a_lost_server_is_an_error(outcome: Outcome, text: Option<&'static str>)
    requires
        call_ensures(Outcome::error, (outcome,), text),
    ensures
        text is Some <==> outcome == Outcome::ServerEnded,
        text matches Some(text) ==> text@ == "server ended after attempting to save world"@,
{
}

} // verus!
