//! What holds of single steps of a session, and of the lines that come in while a
//! save is awaited.

use crate::commands::{
    block_text, law_end_saves_and_then_stops, law_one_load_line_for_each_chosen_dimension,
    law_save_releases_every_dimension, load_commands,
};
use crate::console::{law_saved_lines, Text};
use crate::controller::Plan;
use crate::dimensions::Dimensions;
use crate::generate::{
    polled, replied, reply_in, sound, started, Next, Outcome, Phase, Reply, Session, Step,
};
use crate::lines::{ends_its_lines, lines};
use crate::walk::{
    chunk_at, law_step_keeps_valid_and_advances_by_one, middle_block, rank, valid,
};
use vstd::prelude::*;

verus! {

/// A session that has just started is about the chunk, the last ring and the
/// dimensions that it was started with, and about nothing else.
pub proof fn law_session_starts_as_planned(plan: Plan, dimensions: Dimensions)
    ensures
        ({
            let s = started(plan, dimensions);
            &&& s.spot == plan.spot
            &&& s.max_ring == plan.max_ring
            &&& s.dimensions == dimensions
            &&& s.unsaved == 0
            &&& s.reported is None
            &&& s.phase == Phase::Generating
        }),
{
}

/// A step stands for the values of its fields.
pub proof fn law_step_stands_for_its_fields(step: Step)
    ensures
        step@.commands == step.commands@,
        step@.next == step.next,
        step.report is None <==> step@.report is None,
        step.report matches Some(report) ==> step@.report == Some(
            (report.0 as nat, report.1 as nat),
        ),
        step.cache is None <==> step@.cache is None,
        step.cache matches Some(state) ==> step@.cache == Some(state@),
{
}

/// Each step names the question that its new phase answers to: whether to go on while
/// chunks are loaded, what the server prints while a save is awaited, and none at an
/// end.
pub proof fn law_step_names_the_question_of_its_phase(s: Session, running: bool, reply: Reply)
    ensures
        s.phase is Generating ==> {
            let (t, step) = polled(s, running);
            &&& step.next == Next::Poll <==> t.phase is Generating
            &&& step.next == Next::ReadConsole <==> t.phase is Saving || t.phase is Finishing
                || t.phase is Interrupting
            &&& !(t.phase is Finished)
        },
        s.phase is Saving || s.phase is Finishing || s.phase is Interrupting ==> {
            let (t, step) = replied(s, reply);
            &&& step.next == Next::Poll <==> t.phase is Generating
            &&& step.next == Next::ReadConsole <==> t.phase is Saving || t.phase is Finishing
                || t.phase is Interrupting
            &&& step.next is Finish <==> t.phase is Finished
        },
{
}

/// No step changes the dimensions or the last ring.
pub proof fn law_steps_keep_the_plan(s: Session, running: bool, reply: Reply)
    ensures
        polled(s, running).0.dimensions == s.dimensions,
        polled(s, running).0.max_ring == s.max_ring,
        replied(s, reply).0.dimensions == s.dimensions,
        replied(s, reply).0.max_ring == s.max_ring,
{
}

/// Going on within the last ring loads the chunk that the session points at, in each
/// chosen dimension, and moves on by one chunk. With the 512th chunk since the last
/// save it also has the server let go of all chunks and save, and awaits that.
pub proof fn law_going_on_loads_one_chunk(s: Session)
    requires
        sound(s),
        s.phase is Generating,
        s.spot.ring <= s.max_ring,
    ensures
        ({
            let (t, step) = polled(s, true);
            let (x, z) = chunk_at(s.spot);
            &&& valid(t.spot)
            &&& rank(t.spot) == rank(s.spot) + 1
            &&& step.cache is None
            &&& ends_its_lines(step.commands)
            &&& s.unsaved < 511 ==> {
                &&& lines(step.commands) == lines(
                    load_commands(s.dimensions, 16 * x + 8, 16 * z + 8),
                )
                &&& t.unsaved == s.unsaved + 1
                &&& t.phase is Generating
            }
            &&& s.unsaved >= 511 ==> {
                &&& lines(step.commands) == lines(
                    load_commands(s.dimensions, 16 * x + 8, 16 * z + 8),
                ) + seq![
                    "execute in overworld run forceload remove all"@,
                    "execute in the_nether run forceload remove all"@,
                    "execute in the_end run forceload remove all"@,
                    "save-all flush"@,
                ]
                &&& t.unsaved == 0
                &&& t.phase is Saving
            }
        }),
{
    let (x, z) = chunk_at(s.spot);
    law_step_keeps_valid_and_advances_by_one(s.spot);
    law_one_load_line_for_each_chosen_dimension(s.dimensions, middle_block(x), middle_block(z));
    law_save_releases_every_dimension(
        load_commands(s.dimensions, middle_block(x), middle_block(z)),
    );
}

/// In each chosen dimension, and in no other, going on sends the line that loads the
/// chunk by its middle block.
pub proof fn law_going_on_sends_the_line_of_each_chosen_dimension(s: Session)
    requires
        sound(s),
        s.phase is Generating,
        s.spot.ring <= s.max_ring,
    ensures
        ({
            let sent = lines(polled(s, true).1.commands);
            let (x, z) = chunk_at(s.spot);
            let block = block_text(16 * x + 8, 16 * z + 8);
            &&& s.dimensions.overworld ==> sent.contains(
                "execute in overworld run forceload add "@ + block,
            )
            &&& s.dimensions.nether ==> sent.contains(
                "execute in the_nether run forceload add "@ + block,
            )
            &&& s.dimensions.end ==> sent.contains(
                "execute in the_end run forceload add "@ + block,
            )
        }),
{
    let (x, z) = chunk_at(s.spot);
    let loads = lines(load_commands(s.dimensions, 16 * x + 8, 16 * z + 8));
    let sent = lines(polled(s, true).1.commands);
    let block = block_text(16 * x + 8, 16 * z + 8);
    let a = "execute in overworld run forceload add "@ + block;
    let b = "execute in the_nether run forceload add "@ + block;
    let c = "execute in the_end run forceload add "@ + block;
    law_going_on_loads_one_chunk(s);
    law_one_load_line_for_each_chosen_dimension(s.dimensions, 16 * x + 8, 16 * z + 8);
    assert forall|line: Seq<char>| loads.contains(line) implies #[trigger] sent.contains(line) by {
        let i = choose|i: int| 0 <= i < loads.len() && loads[i] == line;
        assert(sent[i] == line);
    }
    assert(s.dimensions.overworld ==> loads.contains(a));
    assert(s.dimensions.nether ==> loads.contains(b));
    assert(s.dimensions.end ==> loads.contains(c));
}

/// A chunk is preceded by a report exactly if its ring has not just been reported: the
/// radius of the rings before in blocks, and how many chunks of the ring are left.
pub proof fn law_going_on_reports_a_new_ring(s: Session)
    requires
        sound(s),
        s.phase is Generating,
        s.spot.ring <= s.max_ring,
    ensures
        ({
            let (t, step) = polled(s, true);
            &&& step.report is None <==> s.reported == Some(s.spot.ring)
            &&& step.report matches Some((radius, chunks)) ==> {
                &&& radius == 16 * s.spot.ring
                &&& chunks + s.spot.index == 8 * s.spot.ring + 4
            }
            &&& t.reported == Some(s.spot.ring)
        }),
{
}

/// Going on after the last chunk, or an interruption at any time, loads nothing: it has
/// the server save and stop, awaits the save, and leaves all else as it was.
pub proof fn law_end_saves_and_awaits(s: Session)
    requires
        sound(s),
        s.phase is Generating,
    ensures
        ({
            let (t, step) = polled(s, false);
            &&& t == (Session { phase: Phase::Interrupting, ..s })
            &&& step.report is None
            &&& step.cache is None
            &&& step.next == Next::ReadConsole
            &&& ends_its_lines(step.commands)
            &&& lines(step.commands) == seq!["save-all flush"@, "stop"@]
        }),
        s.spot.ring > s.max_ring ==> {
            let (t, step) = polled(s, true);
            &&& t == (Session { phase: Phase::Finishing, ..s })
            &&& step.report is None
            &&& step.cache is None
            &&& step.next == Next::ReadConsole
            &&& ends_its_lines(step.commands)
            &&& lines(step.commands) == seq!["save-all flush"@, "stop"@]
        },
{
    law_end_saves_and_then_stops();
}

/// While a save is awaited, nothing that the server says makes the session report,
/// load or move on; its phase is all that changes.
pub proof fn law_replies_change_the_phase_only(s: Session, reply: Reply)
    ensures
        ({
            let (t, step) = replied(s, reply);
            &&& t == (Session { phase: t.phase, ..s })
            &&& step.report is None
            &&& step.commands.len() == 0
        }),
{
}

/// While a save is awaited, for whichever reason, a line that is not the confirmation
/// leaves the whole session as it was, does nothing and asks for another line.
pub proof fn law_other_line_is_skipped(s: Session)
    requires
        s.phase is Saving || s.phase is Finishing || s.phase is Interrupting,
    ensures
        ({
            let (t, step) = replied(s, Reply::Other);
            &&& t == s
            &&& step.report is None
            &&& step.commands.len() == 0
            &&& step.cache is None
            &&& step.next == Next::ReadConsole
        }),
{
}

/// The confirmation of a save hands out the state to cache, which is the session's. A
/// session that saved between chunks then goes on, an interrupted one ends as
/// interrupted, and one at its end ends as completed, with the radius of all its rings.
pub proof fn law_confirmation_hands_out_the_state(s: Session)
    requires
        sound(s),
        16 * s.spot.ring <= u32::MAX,
    ensures
        ({
            let (t, step) = replied(s, Reply::Saved);
            &&& step.cache == Some(s.spot)
            &&& s.phase is Saving ==> t.phase is Generating && step.next == Next::Poll
            &&& s.phase is Interrupting ==> t.phase is Finished && step.next == Next::Finish(
                Outcome::Interrupted,
            )
            &&& s.phase is Finishing ==> t.phase is Finished && (step.next matches Next::Finish(
                Outcome::Completed { radius },
            ) && radius == 16 * (s.max_ring + 1))
        }),
{
}

/// If the server ends while a save is awaited, no state is handed out. That is an error
/// unless the session was interrupted.
pub proof fn law_lost_server_hands_out_nothing(s: Session)
    requires
        s.phase is Saving || s.phase is Finishing || s.phase is Interrupting,
    ensures
        ({
            let (t, step) = replied(s, Reply::Ended);
            &&& t.phase is Finished
            &&& step.cache is None
            &&& s.phase is Interrupting ==> step.next == Next::Finish(Outcome::Interrupted)
            &&& !(s.phase is Interrupting) ==> step.next == Next::Finish(Outcome::ServerEnded)
        }),
{
}

/// Whether a line of the output confirms a save: it is on the standard output and ends
/// with the words for it.
pub open spec fn confirms(text: Text) -> bool {
    text matches Text::Stdout(line) && exists|p: Seq<char>|
        line@ == #[trigger] (p + ": Saved the game"@)
}

/// What the console says about a save: that it is done, if and only if a line confirms
/// it, and that the server has ended, if and only if there is no line.
pub proof fn law_console_is_read_for_confirmations(text: Option<Text>)
    ensures
        reply_in(text) is Saved <==> (text matches Some(t) && confirms(t)),
        reply_in(text) is Ended <==> text is None,
{
    if let Some(Text::Stdout(line)) = text {
        law_saved_lines(line@);
    }
}

/// The session after some lines of the console.
pub open spec fn after_lines(s: Session, texts: Seq<Text>) -> Session
    decreases texts.len(),
{
    if texts.len() == 0 {
        s
    } else {
        replied(after_lines(s, texts.drop_last()), reply_in(Some(texts.last()))).0
    }
}

/// However many lines come before the confirmation of an awaited save, the session
/// awaits it unchanged, and the confirmation then does what it does at once. In between
/// each line is answered by asking for the next one, without a command or a state.
pub proof fn law_confirmation_is_awaited(s: Session, texts: Seq<Text>, text: Text)
    requires
        s.phase is Saving || s.phase is Finishing || s.phase is Interrupting,
        forall|i: int| 0 <= i < texts.len() ==> !confirms(#[trigger] texts[i]),
    ensures
        after_lines(s, texts) == s,
        confirms(text) ==> replied(after_lines(s, texts), reply_in(Some(text))) == replied(
            s,
            Reply::Saved,
        ),
        !confirms(text) ==> {
            let (t, step) = replied(after_lines(s, texts), reply_in(Some(text)));
            &&& t == s
            &&& step.commands.len() == 0
            &&& step.cache is None
            &&& step.next == Next::ReadConsole
        },
    decreases texts.len(),
{
    law_console_is_read_for_confirmations(Some(text));
    if texts.len() > 0 {
        let before = texts.drop_last();
        assert forall|i: int| 0 <= i < before.len() implies !confirms(#[trigger] before[i]) by {
            assert(before[i] == texts[i]);
        }
        law_confirmation_is_awaited(s, before, texts.last());
    }
}

/// Between the command to save and the next chunk there is a confirmed save: after a
/// step that awaits one, whatever lines come, the session takes no chunk on before a
/// line among them confirms.
pub proof fn law_no_chunk_before_the_save_is_confirmed(s: Session, texts: Seq<Text>)
    requires
        sound(s),
        s.phase is Generating,
        polled(s, true).1.next == Next::ReadConsole,
        after_lines(polled(s, true).0, texts).phase is Generating,
    ensures
        exists|i: int| 0 <= i < texts.len() && confirms(#[trigger] texts[i]),
{
    let t = polled(s, true).0;
    if forall|i: int| 0 <= i < texts.len() ==> !confirms(#[trigger] texts[i]) {
        law_step_names_the_question_of_its_phase(s, true, Reply::Other);
        if texts.len() > 0 {
            law_confirmation_is_awaited(t, texts, texts.last());
        }
    }
}

} // verus!
