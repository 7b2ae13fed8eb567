//! Texts as lines.

use vstd::prelude::*;

verus! {

/// The parts of a text between its line feeds. The last part is what follows the
/// last line feed, so it is empty if the text ends its last line.
pub open spec fn parts(text: Seq<char>) -> Seq<Seq<char>>
    decreases text.len(),
{
    if text.len() == 0 {
        seq![seq![]]
    } else {
        let before = parts(text.drop_last());
        if text.last() == '\n' {
            before.push(seq![])
        } else {
            before.drop_last().push(before.last().push(text.last()))
        }
    }
}

/// Whether every line of a text is ended.
pub open spec fn ends_its_lines(text: Seq<char>) -> bool {
    parts(text).last() == Seq::<char>::empty()
}

/// The lines of a text that ends its lines.
pub open spec fn lines(text: Seq<char>) -> Seq<Seq<char>> {
    parts(text).drop_last()
}

/// Whether a text has no line feed.
pub open spec fn one_line(text: Seq<char>) -> bool {
    forall|i: int| 0 <= i < text.len() ==> text[i] != '\n'
}

pub(crate) proof fn lemma_parts_nonempty(text: Seq<char>)
    ensures
        parts(text).len() > 0,
    decreases text.len(),
{
    if text.len() > 0 {
        lemma_parts_nonempty(text.drop_last());
    }
}

proof fn lemma_parts_extend(text: Seq<char>, more: Seq<char>)
    requires
        one_line(more),
    ensures
        parts(text + more) == parts(text).drop_last().push(parts(text).last() + more),
    decreases more.len(),
{
    lemma_parts_nonempty(text);
    if more.len() == 0 {
        assert(text + more == text);
        assert(parts(text).last() + more == parts(text).last());
    } else {
        let less = more.drop_last();
        lemma_parts_extend(text, less);
        assert((text + more).drop_last() == text + less);
        assert(parts(text).last() + more == (parts(text).last() + less).push(more.last()));
    }
}

/// Appending an ended line to a text that ends its lines adds that line.
pub(crate) proof fn lemma_append_line(text: Seq<char>, line: Seq<char>)
    requires
        ends_its_lines(text),
        one_line(line),
    ensures
        ends_its_lines(text + line + seq!['\n']),
        lines(text + line + seq!['\n']) == lines(text).push(line),
{
    lemma_parts_nonempty(text);
    lemma_parts_extend(text, line);
    let all = text + line + seq!['\n'];
    assert(all.drop_last() == text + line);
    assert(parts(text).last() + line == line);
}

/// No text has no lines.
pub(crate) proof fn lemma_no_lines()
    ensures
        ends_its_lines(seq![]),
        lines(seq![]) == Seq::<Seq<char>>::empty(),
{
}

} // verus!
