//! Waiting for the server to take commands.

use crate::console::{
    compile, is_done_line, is_eula_line, is_starting_line, matches_stdout, printed,
    regex_pattern, Text, DONE_PATTERN, EULA_PATTERN, STARTING_PATTERN,
};
use regex::Regex;
use vstd::prelude::*;

verus! {

/// How far the server has come.
#[derive(Clone, Copy, Debug, PartialEq, Eq, Structural)]
pub enum StartupPhase {
    /// It has not said that it starts.
    Launched,
    /// It has said that it starts.
    Starting,
    /// It has said that it takes commands.
    Ready,
    /// It ended.
    Ended,
}

/// Why a server does not take commands.
#[derive(Clone, Copy, Debug, PartialEq, Eq, Structural)]
pub enum StartupError {
    /// It ended before it started up.
    NotStarted,
    /// It ended while it started up, after it had asked for agreement to the license.
    EulaNotAgreed,
    /// It ended while it started up.
    NotReady,
}

/// What is known about a server after another line of its output.
#[derive(Clone, Copy, Debug, PartialEq, Eq, Structural)]
pub enum Progress {
    /// More lines are needed.
    Waiting,
    /// It takes commands.
    Ready,
    /// It will not take commands.
    Failed(StartupError),
}

/// A startup in mathematical terms.
pub struct StartupModel {
    pub phase: StartupPhase,
    /// Whether the server has asked for agreement to the license.
    pub eula: bool,
}

/// Whether a line of the output says that the server starts.
pub open spec fn says_starting(text: Text) -> bool {
    printed(text) matches Some(line) && is_starting_line(line)
}

/// Whether a line of the output says that the server takes commands.
pub open spec fn says_done(text: Text) -> bool {
    printed(text) matches Some(line) && is_done_line(line)
}

/// Whether a line of the output asks for agreement to the license.
pub open spec fn says_eula(text: Text) -> bool {
    printed(text) matches Some(line) && is_eula_line(line)
}

/// The startup of a server of which nothing has been heard.
pub open spec fn launched() -> StartupModel {
    StartupModel { phase: StartupPhase::Launched, eula: false }
}

/// What a line of the output, or its end, changes.
pub open spec fn heard(m: StartupModel, text: Option<Text>) -> StartupModel {
    match text {
        None => StartupModel { phase: StartupPhase::Ended, ..m },
        Some(text) => if m.phase is Launched {
            if says_starting(text) {
                StartupModel { phase: StartupPhase::Starting, ..m }
            } else {
                m
            }
        } else if says_done(text) {
            StartupModel { phase: StartupPhase::Ready, ..m }
        } else if says_eula(text) {
            StartupModel { eula: true, ..m }
        } else {
            m
        },
    }
}

/// What is then known about the server.
pub open spec fn progress_after(m: StartupModel, text: Option<Text>) -> Progress {
    if text is None {
        Progress::Failed(
            if m.phase is Launched {
                StartupError::NotStarted
            } else if m.eula {
                StartupError::EulaNotAgreed
            } else {
                StartupError::NotReady
            },
        )
    } else if heard(m, text).phase is Ready {
        Progress::Ready
    } else {
        Progress::Waiting
    }
}

/// Follows the output of a server that starts.
#[derive(Debug)]
pub struct Startup {
    phase: StartupPhase,
    match_eula: bool,
    re_start: Regex,
    re_done: Regex,
    re_eula: Regex,
}

impl View for Startup {
    type V = StartupModel;

    closed spec fn view(&self) -> StartupModel {
        StartupModel { phase: self.phase, eula: self.match_eula }
    }
}

impl Startup {
    /// It holds the patterns of the lines that matter.
    pub closed spec fn wf(self) -> bool {
        &&& regex_pattern(self.re_start) == STARTING_PATTERN@
        &&& regex_pattern(self.re_done) == DONE_PATTERN@
        &&& regex_pattern(self.re_eula) == EULA_PATTERN@
    }

    /// Follows a server of which nothing has been heard.
    pub fn new() -> (startup: Startup)
        ensures
            startup.wf(),
            startup@ == launched(),
    {
        Startup {
            phase: StartupPhase::Launched,
            match_eula: false,
            re_start: compile(STARTING_PATTERN),
            re_done: compile(DONE_PATTERN),
            re_eula: compile(EULA_PATTERN),
        }
    }

    /// Takes the next line of the server, or the end of its output.
    pub fn read_console(&mut self, text: Option<Text>) -> (progress: Progress)
        requires
            old(self).wf(),
            old(self)@.phase is Launched || old(self)@.phase is Starting,
        ensures
            final(self).wf(),
            final(self)@ == heard(old(self)@, text),
            progress == progress_after(old(self)@, text),
    {
        let launched: bool = match self.phase {
            StartupPhase::Launched => true,
            _ => false,
        };

        match text {
            None => {
                self.phase = StartupPhase::Ended;
                if launched {
                    Progress::Failed(StartupError::NotStarted)
                } else if self.match_eula {
                    Progress::Failed(StartupError::EulaNotAgreed)
                } else {
                    Progress::Failed(StartupError::NotReady)
                }
            },
            Some(text) => {
                if launched {
                    if matches_stdout(&self.re_start, &text) {
                        self.phase = StartupPhase::Starting;
                    }
                    Progress::Waiting
                } else if matches_stdout(&self.re_done, &text) {
                    self.phase = StartupPhase::Ready;
                    Progress::Ready
                } else {
                    if matches_stdout(&self.re_eula, &text) {
                        self.match_eula = true;
                    }
                    Progress::Waiting
                }
            },
        }
    }
}

/// The startup after some lines, of which none is heard once the server is ready.
pub open spec fn heard_all(lines: Seq<Text>) -> StartupModel
    decreases lines.len(),
{
    if lines.len() == 0 {
        launched()
    } else {
        let m = heard_all(lines.drop_last());
        if m.phase is Ready {
            m
        } else {
            heard(m, Some(lines.last()))
        }
    }
}

/// Whether some line says that the server starts.
pub open spec fn said_starting(lines: Seq<Text>) -> bool {
    exists|i: int| 0 <= i < lines.len() && says_starting(#[trigger] lines[i])
}

/// Whether a line for which `second` holds comes after one that says that the
/// server starts.
pub open spec fn said_while_starting(lines: Seq<Text>, second: spec_fn(Text) -> bool) -> bool {
    exists|i: int, j: int|
        0 <= i < j < lines.len() && says_starting(#[trigger] lines[i]) && second(#[trigger] lines[j])
}

/// The server takes commands exactly if it has said that it starts, and said
/// after that that it takes commands.
pub proof fn law_ready_after_starting_and_done(lines: Seq<Text>)
    ensures
        heard_all(lines).phase is Ready <==> said_while_starting(lines, |t: Text| says_done(t)),
{
    lemma_heard_all(lines);
}

/// A server that ends while it starts up is said to need agreement to the license
/// exactly if it has asked for that since it said that it starts.
pub proof fn law_eula_is_blamed_if_asked_for(lines: Seq<Text>)
    requires
        heard_all(lines).phase is Starting,
    ensures
        progress_after(heard_all(lines), None) == Progress::Failed(
            if said_while_starting(lines, |t: Text| says_eula(t)) {
                StartupError::EulaNotAgreed
            } else {
                StartupError::NotReady
            },
        ),
{
    lemma_heard_all(lines);
}

/// A server that ends is said not to have started exactly if it never said that
/// it starts.
pub proof fn law_not_started_without_starting_line(lines: Seq<Text>)
    ensures
        progress_after(heard_all(lines), None) == Progress::Failed(StartupError::NotStarted)
            <==> !said_starting(lines),
{
    lemma_heard_all(lines);
}

proof fn lemma_heard_all(lines: Seq<Text>)
    ensures
        !(heard_all(lines).phase is Ended),
        heard_all(lines).phase is Launched <==> !said_starting(lines),
        heard_all(lines).phase is Ready <==> said_while_starting(lines, |t: Text| says_done(t)),
        !(heard_all(lines).phase is Ready) ==> (heard_all(lines).eula <==> said_while_starting(
            lines,
            |t: Text| says_eula(t),
        )),
    decreases lines.len(),
{
    if lines.len() > 0 {
        lemma_heard_all(lines.drop_last());
        lemma_said_starting(lines);
        lemma_said_while_starting(lines, |t: Text| says_done(t));
        lemma_said_while_starting(lines, |t: Text| says_eula(t));
    }
}

proof fn lemma_said_starting(lines: Seq<Text>)
    requires
        lines.len() > 0,
    ensures
        said_starting(lines) <==> said_starting(lines.drop_last()) || says_starting(lines.last()),
{
    let before = lines.drop_last();
    assert(forall|i: int| 0 <= i < before.len() ==> #[trigger] lines[i] == before[i]);
    if said_starting(before) {
        let i = choose|i: int| 0 <= i < before.len() && says_starting(#[trigger] before[i]);
        assert(says_starting(lines[i]));
    }
}

proof fn lemma_said_while_starting(lines: Seq<Text>, second: spec_fn(Text) -> bool)
    requires
        lines.len() > 0,
    ensures
        said_while_starting(lines, second) <==> said_while_starting(lines.drop_last(), second) || (
        said_starting(lines.drop_last()) && second(lines.last())),
{
    let before = lines.drop_last();
    assert(forall|i: int| 0 <= i < before.len() ==> #[trigger] lines[i] == before[i]);
    if said_while_starting(before, second) {
        let (i, j) = choose|i: int, j: int|
            0 <= i < j < before.len() && says_starting(#[trigger] before[i]) && second(
                #[trigger] before[j],
            );
        assert(says_starting(lines[i]) && second(lines[j]));
    }
    if said_starting(before) && second(lines.last()) {
        let i = choose|i: int| 0 <= i < before.len() && says_starting(#[trigger] before[i]);
        assert(says_starting(lines[i]) && second(lines[lines.len() - 1]));
    }
}

/// As long as the server is not ready, the answer to a further line is that it is
/// ready exactly if it has said before that it starts and this line says that it takes
/// commands. The answer to every other line, one that asks for agreement to the
/// license among them, is to wait.
pub proof fn law_ready_is_answered_to_the_done_line_only(earlier: Seq<Text>, text: Text)
    requires
        !said_while_starting(earlier, |t: Text| says_done(t)),
    ensures
        progress_after(heard_all(earlier), Some(text)) == (if said_starting(earlier) && says_done(
            text,
        ) {
            Progress::Ready
        } else {
            Progress::Waiting
        }),
{
    lemma_heard_all(earlier);
}

/// When the output ends before the server is ready, the answer is why: it never said
/// that it starts, or it asked for agreement to the license after it had, or neither.
pub proof fn law_end_is_answered_with_its_reason(earlier: Seq<Text>)
    requires
        !said_while_starting(earlier, |t: Text| says_done(t)),
    ensures
        progress_after(heard_all(earlier), None) == Progress::Failed(
            if !said_starting(earlier) {
                StartupError::NotStarted
            } else if said_while_starting(earlier, |t: Text| says_eula(t)) {
                StartupError::EulaNotAgreed
            } else {
                StartupError::NotReady
            },
        ),
{
    lemma_heard_all(earlier);
}

/// The answer agrees with what is kept: ready if and only if the phase is, a failure
/// if and only if the output has ended, and else to wait, with the dialogue still open.
pub proof fn law_answer_agrees_with_the_phase(m: StartupModel, text: Option<Text>)
    requires
        m.phase is Launched || m.phase is Starting,
    ensures
        progress_after(m, text) is Ready <==> heard(m, text).phase is Ready,
        progress_after(m, text) is Failed <==> heard(m, text).phase is Ended,
        progress_after(m, text) is Failed <==> text is None,
        progress_after(m, text) is Waiting <==> heard(m, text).phase is Launched || heard(
            m,
            text,
        ).phase is Starting,
{
}

/// A line for which none of the three tests holds changes nothing.
pub proof fn law_unrelated_line_changes_nothing(m: StartupModel, text: Text)
    requires
        m.phase is Launched || m.phase is Starting,
        !says_starting(text),
        !says_done(text),
        !says_eula(text),
    ensures
        heard(m, Some(text)) == m,
        progress_after(m, Some(text)) == Progress::Waiting,
{
}

/// The three tests look at the standard output only, for the words that matter.
pub proof fn law_tests_look_for_their_lines(text: Text)
    ensures
        text is Stderr ==> !says_starting(text) && !says_done(text) && !says_eula(text),
        text matches Text::Stdout(line) ==> {
            &&& says_starting(text) <==> is_starting_line(line@)
            &&& says_done(text) <==> is_done_line(line@)
            &&& says_eula(text) <==> is_eula_line(line@)
        },
{
}

/// Nothing has been heard at first.
pub proof fn law_startup_begins_with_nothing_heard()
    ensures
        launched().phase == StartupPhase::Launched,
        !launched().eula,
        heard_all(seq![]) == launched(),
{
}

} // verus!
