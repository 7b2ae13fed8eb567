//! The lines that the server prints, and the few of them that matter.

use crate::lines::one_line;
use regex::Regex;
use vstd::prelude::*;

verus! {

/// Matches the line that reports a finished save.
pub const SAVED_PATTERN: &'static str = ": Saved the game$";

/// Matches the line that reports that the server starts.
pub const STARTING_PATTERN: &'static str = ": Starting minecraft server version .*$";

/// Matches the line that reports that the server takes commands.
pub const DONE_PATTERN: &'static str = ": Done (.+)! For help, type \"help\"$";

/// Matches the line that asks for agreement to the license.
pub const EULA_PATTERN: &'static str =
    ": You need to agree to the EULA in order to run the server\\. Go to eula\\.txt for more info\\.$";

/// A line of the server's output.
#[derive(Clone, Debug)]
pub enum Text {
    Stdout(String),
    Stderr(String),
}

/// What the server printed to its standard output, if the line is of that.
pub open spec fn printed(text: Text) -> Option<Seq<char>> {
    match text {
        Text::Stdout(line) => Some(line@),
        Text::Stderr(_) => None,
    }
}

/// Whether `part` stands in `line` at position `at`.
pub open spec fn stands_at(line: Seq<char>, at: int, part: Seq<char>) -> bool {
    &&& 0 <= at <= at + part.len() <= line.len()
    &&& line.subrange(at, at + part.len()) =~= part
}

pub open spec fn ends_with(line: Seq<char>, part: Seq<char>) -> bool {
    stands_at(line, line.len() - part.len(), part)
}

/// Whether no character from `from` up to `to` is a line feed.
pub open spec fn on_one_line(line: Seq<char>, from: int, to: int) -> bool {
    forall|k: int| from <= k < to ==> line[k] != '\n'
}

/// Whether a line reports a finished save.
pub open spec fn is_saved_line(line: Seq<char>) -> bool {
    ends_with(line, ": Saved the game"@)
}

/// Whether a line reports that the server starts.
pub open spec fn is_starting_line(line: Seq<char>) -> bool {
    let head = ": Starting minecraft server version "@;
    exists|at: int|
        #[trigger] stands_at(line, at, head) && on_one_line(line, at + head.len(), line.len() as int)
}

/// Whether a line reports that the server takes commands.
pub open spec fn is_done_line(line: Seq<char>) -> bool {
    let head = ": Done "@;
    let tail = "! For help, type \"help\""@;
    let end = line.len() - tail.len();
    &&& ends_with(line, tail)
    &&& exists|at: int| #[trigger]
        stands_at(line, at, head) && at + head.len() < end && on_one_line(line, at + head.len(), end)
}

/// Whether a line asks for agreement to the license.
pub open spec fn is_eula_line(line: Seq<char>) -> bool {
    ends_with(
        line,
        ": You need to agree to the EULA in order to run the server. Go to eula.txt for more info."@,
    )
}

/// A compiled regular expression of the `regex` crate.
#[verifier::external_type_specification]
#[verifier::external_body]
pub struct ExRegex(regex::Regex);

/// The error of the `regex` crate for a pattern that it cannot compile.
#[verifier::external_type_specification]
#[verifier::external_body]
pub struct ExRegexError(regex::Error);

/// Whether a pattern is one of the four above.
pub open spec fn known_pattern(pattern: Seq<char>) -> bool {
    ||| pattern == SAVED_PATTERN@
    ||| pattern == STARTING_PATTERN@
    ||| pattern == DONE_PATTERN@
    ||| pattern == EULA_PATTERN@
}

/// The pattern that `regex::Regex::new` compiled a regular expression from, which
/// is what `regex::Regex::as_str` returns.
pub uninterp spec fn regex_pattern(re: Regex) -> Seq<char>;

/// Calls `regex::Regex::new` on one of the four patterns. It fails only on a pattern
/// that is not valid or that compiles to something very large, and the four are
/// short and of valid syntax. The compiled expression keeps the pattern.
#[verifier::external_body]
fn regex_new(pattern: &str) -> (r: Result<Regex, regex::Error>)
    requires
        known_pattern(pattern@),
    ensures
        r is Ok,
        r matches Ok(re) ==> regex_pattern(re) == pattern@,
{
    Regex::new(pattern)
}

/// Calls `regex::Regex::is_match` on an expression for one of the four patterns
/// above, and says of each which lines it matches: other than the escaped dots,
/// a dot stands for any character but a line feed, `*` and `+` for any number of
/// repetitions and for at least one, `$` for the end of the line handed in, and
/// every other character for itself, anywhere in the line.
#[verifier::external_body]
fn regex_is_match(re: &Regex, line: &str) -> (b: bool)
    requires
        known_pattern(regex_pattern(*re)),
    ensures
        regex_pattern(*re) == SAVED_PATTERN@ ==> b == is_saved_line(line@),
        regex_pattern(*re) == STARTING_PATTERN@ ==> b == is_starting_line(line@),
        regex_pattern(*re) == DONE_PATTERN@ ==> b == is_done_line(line@),
        regex_pattern(*re) == EULA_PATTERN@ ==> b == is_eula_line(line@),
{
    re.is_match(line)
}

/// Compiles one of the patterns.
pub(crate) fn compile(pattern: &str) -> (re: Regex)
    requires
        known_pattern(pattern@),
    ensures
        regex_pattern(re) == pattern@,
{
    regex_new(pattern).unwrap()
}

/// Whether the server printed, on its standard output, a line that matches.
pub(crate) fn matches_stdout(re: &Regex, text: &Text) -> (b: bool)
    requires
        known_pattern(regex_pattern(*re)),
    ensures
        printed(*text) is None ==> !b,
        printed(*text) matches Some(line) ==> {
            &&& regex_pattern(*re) == SAVED_PATTERN@ ==> b == is_saved_line(line)
            &&& regex_pattern(*re) == STARTING_PATTERN@ ==> b == is_starting_line(line)
            &&& regex_pattern(*re) == DONE_PATTERN@ ==> b == is_done_line(line)
            &&& regex_pattern(*re) == EULA_PATTERN@ ==> b == is_eula_line(line)
        },
{
    match text {
        Text::Stdout(line) => regex_is_match(re, line.as_str()),
        Text::Stderr(_) => false,
    }
}

/// A line reports a save exactly if it ends with the words.
pub proof fn law_saved_lines(line: Seq<char>)
    ensures
        is_saved_line(line) <==> exists|p: Seq<char>| line == #[trigger] (p + ": Saved the game"@),
{
    lemma_ends_with(line, ": Saved the game"@);
}

/// A line asks for agreement to the license exactly if it ends with the words.
pub proof fn law_eula_lines(line: Seq<char>)
    ensures
        is_eula_line(line) <==> exists|p: Seq<char>|
            line == #[trigger] (p
                + ": You need to agree to the EULA in order to run the server. Go to eula.txt for more info."@),
{
    lemma_ends_with(
        line,
        ": You need to agree to the EULA in order to run the server. Go to eula.txt for more info."@,
    );
}

/// A line reports that the server starts exactly if it holds the words, and nothing
/// but the rest of that line after them.
pub proof fn law_starting_lines(line: Seq<char>)
    ensures
        is_starting_line(line) <==> exists|p: Seq<char>, v: Seq<char>|
            line == #[trigger] (p + ": Starting minecraft server version "@ + v) && one_line(v),
{
    let head = ": Starting minecraft server version "@;
    if is_starting_line(line) {
        let at = choose|at: int| #[trigger]
            stands_at(line, at, head) && on_one_line(line, at + head.len(), line.len() as int);
        let p = line.take(at);
        let v = line.skip(at + head.len());
        assert(line == p + line.subrange(at, at + head.len()) + v);
        assert(line == p + head + v);
        assert(one_line(v));
    }
    if exists|p: Seq<char>, v: Seq<char>| line == #[trigger] (p + head + v) && one_line(v) {
        let (p, v) = choose|p: Seq<char>, v: Seq<char>|
            line == #[trigger] (p + head + v) && one_line(v);
        let at = p.len() as int;
        assert(line.subrange(at, at + head.len()) == head);
        assert(stands_at(line, at, head));
        assert forall|k: int| at + head.len() <= k < line.len() implies line[k] != '\n' by {
            assert(line[k] == v[k - at - head.len()]);
        }
    }
}

/// A line reports that the server takes commands exactly if it ends with the words for
/// that, with something between them, on the same line.
pub proof fn law_done_lines(line: Seq<char>)
    ensures
        is_done_line(line) <==> exists|p: Seq<char>, t: Seq<char>|
            line == #[trigger] (p + ": Done "@ + t + "! For help, type \"help\""@) && t.len() > 0
                && one_line(t),
{
    let head = ": Done "@;
    let tail = "! For help, type \"help\""@;
    let end = line.len() - tail.len();
    if is_done_line(line) {
        let at = choose|at: int| #[trigger]
            stands_at(line, at, head) && at + head.len() < end && on_one_line(
                line,
                at + head.len(),
                end,
            );
        let p = line.take(at);
        let t = line.subrange(at + head.len(), end);
        assert(line == p + line.subrange(at, at + head.len()) + t + line.subrange(
            end,
            end + tail.len(),
        ));
        assert(line == p + head + t + tail);
        assert(one_line(t));
    }
    if exists|p: Seq<char>, t: Seq<char>|
        line == #[trigger] (p + head + t + tail) && t.len() > 0 && one_line(t) {
        let (p, t) = choose|p: Seq<char>, t: Seq<char>|
            line == #[trigger] (p + head + t + tail) && t.len() > 0 && one_line(t);
        let at = p.len() as int;
        assert(line.subrange(at, at + head.len()) == head);
        assert(line.subrange(end, end + tail.len()) == tail);
        assert(stands_at(line, at, head));
        assert forall|k: int| at + head.len() <= k < end implies line[k] != '\n' by {
            assert(line[k] == t[k - at - head.len()]);
        }
    }
}

proof fn lemma_ends_with(line: Seq<char>, part: Seq<char>)
    ensures
        ends_with(line, part) <==> exists|p: Seq<char>| line == #[trigger] (p + part),
{
    let end = line.len() - part.len();
    if ends_with(line, part) {
        assert(line == line.take(end) + line.subrange(end, end + part.len()));
        assert(line == line.take(end) + part);
    }
    if exists|p: Seq<char>| line == #[trigger] (p + part) {
        let p = choose|p: Seq<char>| line == #[trigger] (p + part);
        assert(line.subrange(end, end + part.len()) == part);
    }
}

/// Of the output of the server, only its standard output counts, and all of it does.
pub proof fn law_only_standard_output_counts(text: Text)
    ensures
        text matches Text::Stdout(line) ==> printed(text) == Some(line@),
        text is Stderr ==> printed(text) is None,
{
}

} // verus!
