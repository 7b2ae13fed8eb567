//! The commands that the server is given.

use crate::dimensions::Dimensions;
use crate::lines::{ends_its_lines, lemma_append_line, lemma_no_lines, lines, one_line};
use crate::text::{
    law_signed_decimals_tell_integers_apart, lemma_signed_decimal_is_one_word, push_signed_decimal,
    signed_decimal,
};
use vstd::prelude::*;
use vstd::string::StringExecFns;

verus! {

/// The command that saves the world.
pub open spec fn flush_command() -> Seq<char> {
    "save-all flush\n"@
}

/// The command that stops the server.
pub open spec fn stop_command() -> Seq<char> {
    "stop\n"@
}

/// The command that loads the chunk of a block in one dimension.
pub open spec fn load_command(dimension: Seq<char>, x: int, z: int) -> Seq<char> {
    "execute in "@ + dimension + " run forceload add "@ + signed_decimal(x) + " "@
        + signed_decimal(z) + "\n"@
}

/// The commands that load the chunk of a block in the chosen dimensions.
pub open spec fn load_commands(dimensions: Dimensions, x: int, z: int) -> Seq<char> {
    (if dimensions.overworld {
        load_command("overworld"@, x, z)
    } else {
        seq![]
    }) + (if dimensions.nether {
        load_command("the_nether"@, x, z)
    } else {
        seq![]
    }) + (if dimensions.end {
        load_command("the_end"@, x, z)
    } else {
        seq![]
    })
}

/// The commands that let the server unload all chunks again.
pub open spec fn release_commands() -> Seq<char> {
    "execute in overworld run forceload remove all\n"@
        + "execute in the_nether run forceload remove all\n"@
        + "execute in the_end run forceload remove all\n"@
}

fn push_load_command(out: &mut String, dimension: &str, x: i32, z: i32)
    ensures
        final(out)@ == old(out)@ + load_command(dimension@, x as int, z as int),
{
    out.append("execute in ");
    out.append(dimension);
    out.append(" run forceload add ");
    push_signed_decimal(out, x);
    out.append(" ");
    push_signed_decimal(out, z);
    out.append("\n");
}

/// Appends the commands that load the chunk of a block.
pub(crate) fn push_load_commands(out: &mut String, dimensions: Dimensions, x: i32, z: i32)
    ensures
        final(out)@ == old(out)@ + load_commands(dimensions, x as int, z as int),
{
    if dimensions.overworld {
        push_load_command(out, "overworld", x, z);
    }
    if dimensions.nether {
        push_load_command(out, "the_nether", x, z);
    }
    if dimensions.end {
        push_load_command(out, "the_end", x, z);
    }
}

/// Appends the commands that let the server unload all chunks again and save
/// the world.
pub(crate) fn push_release_and_flush(out: &mut String)
    ensures
        final(out)@ == old(out)@ + release_commands() + flush_command(),
{
    out.append("execute in overworld run forceload remove all\n");
    out.append("execute in the_nether run forceload remove all\n");
    out.append("execute in the_end run forceload remove all\n");
    out.append("save-all flush\n");
}

/// Appends the commands that save the world and stop the server.
pub(crate) fn push_flush_and_stop(out: &mut String)
    ensures
        final(out)@ == old(out)@ + flush_command() + stop_command(),
{
    out.append("save-all flush\n");
    out.append("stop\n");
}

/// A block as it stands in a command.
pub open spec fn block_text(x: int, z: int) -> Seq<char> {
    signed_decimal(x) + " "@ + signed_decimal(z)
}

/// The commands for a block are one line for each chosen dimension and no other
/// line. Each is the same but for the name of its dimension, and names the block by
/// both of its coordinates.
pub proof fn law_one_load_line_for_each_chosen_dimension(d: Dimensions, x: int, z: int)
    ensures
        ({
            let text = load_commands(d, x, z);
            &&& ends_its_lines(text)
            &&& lines(text).no_duplicates()
            &&& forall|line: Seq<char>| #[trigger]
                lines(text).contains(line) <==> {
                    ||| d.overworld && line == "execute in overworld run forceload add "@
                        + block_text(x, z)
                    ||| d.nether && line == "execute in the_nether run forceload add "@
                        + block_text(x, z)
                    ||| d.end && line == "execute in the_end run forceload add "@ + block_text(x, z)
                }
        }),
{
    let a = "execute in overworld run forceload add "@ + block_text(x, z);
    let b = "execute in the_nether run forceload add "@ + block_text(x, z);
    let c = "execute in the_end run forceload add "@ + block_text(x, z);
    lemma_load_lines(x, z);
    lemma_no_lines();
    let t0 = Seq::<char>::empty();
    let t1 = if d.overworld {
        t0 + a + seq!['\n']
    } else {
        t0
    };
    let t2 = if d.nether {
        t1 + b + seq!['\n']
    } else {
        t1
    };
    let t3 = if d.end {
        t2 + c + seq!['\n']
    } else {
        t2
    };
    if d.overworld {
        lemma_append_line(t0, a);
    }
    if d.nether {
        lemma_append_line(t1, b);
    }
    if d.end {
        lemma_append_line(t2, c);
    }
    assert(load_commands(d, x, z) == t3);
    let l1 = if d.overworld {
        seq![a]
    } else {
        seq![]
    };
    let l2 = if d.nether {
        l1.push(b)
    } else {
        l1
    };
    let l3 = if d.end {
        l2.push(c)
    } else {
        l2
    };
    assert(lines(t1) == l1);
    assert(lines(t3) == l3);
    if d.overworld {
        assert(l3[0] == a);
    }
    if d.nether {
        assert(l3[l1.len() as int] == b);
    }
    if d.end {
        assert(l3[l2.len() as int] == c);
    }
}

proof fn lemma_load_lines(x: int, z: int)
    ensures
        ({
            let a = "execute in overworld run forceload add "@ + block_text(x, z);
            let b = "execute in the_nether run forceload add "@ + block_text(x, z);
            let c = "execute in the_end run forceload add "@ + block_text(x, z);
            &&& load_command("overworld"@, x, z) == a + seq!['\n']
            &&& load_command("the_nether"@, x, z) == b + seq!['\n']
            &&& load_command("the_end"@, x, z) == c + seq!['\n']
            &&& one_line(a)
            &&& one_line(b)
            &&& one_line(c)
            &&& a != b
            &&& a != c
            &&& b != c
        }),
{
    reveal_strlit("execute in ");
    reveal_strlit("overworld");
    reveal_strlit("the_nether");
    reveal_strlit("the_end");
    reveal_strlit(" run forceload add ");
    reveal_strlit(" ");
    reveal_strlit("\n");
    reveal_strlit("execute in overworld run forceload add ");
    reveal_strlit("execute in the_nether run forceload add ");
    reveal_strlit("execute in the_end run forceload add ");
    lemma_signed_decimal_is_one_word(x);
    lemma_signed_decimal_is_one_word(z);
    let a = "execute in overworld run forceload add "@ + block_text(x, z);
    let b = "execute in the_nether run forceload add "@ + block_text(x, z);
    let c = "execute in the_end run forceload add "@ + block_text(x, z);
    assert(load_command("overworld"@, x, z) == a + seq!['\n']);
    assert(load_command("the_nether"@, x, z) == b + seq!['\n']);
    assert(load_command("the_end"@, x, z) == c + seq!['\n']);
    assert(one_line(block_text(x, z)));
    assert(one_line("execute in overworld run forceload add "@));
    assert(one_line("execute in the_nether run forceload add "@));
    assert(one_line("execute in the_end run forceload add "@));
    assert(a[11] == 'o' && b[11] == 't' && c[11] == 't');
    assert(b[15] == 'n' && c[15] == 'e');
}

/// Different blocks read differently.
pub proof fn law_block_texts_tell_blocks_apart(x: int, z: int, x2: int, z2: int)
    requires
        block_text(x, z) == block_text(x2, z2),
    ensures
        x == x2,
        z == z2,
{
    reveal_strlit(" ");
    lemma_signed_decimal_is_one_word(x);
    lemma_signed_decimal_is_one_word(x2);
    let n = signed_decimal(x).len() as int;
    let n2 = signed_decimal(x2).len() as int;
    let text = block_text(x, z);
    assert(text[n] == ' ');
    assert(text[n2] == ' ');
    if n < n2 {
        assert(text[n] == signed_decimal(x2)[n]);
    } else if n2 < n {
        assert(text[n2] == signed_decimal(x)[n2]);
    }
    assert(text.take(n) == signed_decimal(x));
    assert(text.take(n) == signed_decimal(x2));
    assert(text.skip(n + 1) == signed_decimal(z));
    assert(text.skip(n + 1) == signed_decimal(z2));
    law_signed_decimals_tell_integers_apart(x, x2);
    law_signed_decimals_tell_integers_apart(z, z2);
}

/// Behind other lines, the commands for a save let all chunks of every dimension go,
/// and then save.
pub proof fn law_save_releases_every_dimension(text: Seq<char>)
    requires
        ends_its_lines(text),
    ensures
        ends_its_lines(text + release_commands() + flush_command()),
        lines(text + release_commands() + flush_command()) == lines(text) + seq![
            "execute in overworld run forceload remove all"@,
            "execute in the_nether run forceload remove all"@,
            "execute in the_end run forceload remove all"@,
            "save-all flush"@,
        ],
{
    reveal_strlit("execute in overworld run forceload remove all");
    reveal_strlit("execute in the_nether run forceload remove all");
    reveal_strlit("execute in the_end run forceload remove all");
    reveal_strlit("save-all flush");
    reveal_strlit("execute in overworld run forceload remove all\n");
    reveal_strlit("execute in the_nether run forceload remove all\n");
    reveal_strlit("execute in the_end run forceload remove all\n");
    reveal_strlit("save-all flush\n");
    let a = "execute in overworld run forceload remove all"@;
    let b = "execute in the_nether run forceload remove all"@;
    let c = "execute in the_end run forceload remove all"@;
    let f = "save-all flush"@;
    let t1 = text + a + seq!['\n'];
    let t2 = t1 + b + seq!['\n'];
    let t3 = t2 + c + seq!['\n'];
    lemma_append_line(text, a);
    lemma_append_line(t1, b);
    lemma_append_line(t2, c);
    lemma_append_line(t3, f);
    assert("execute in overworld run forceload remove all\n"@ == a + seq!['\n']);
    assert("execute in the_nether run forceload remove all\n"@ == b + seq!['\n']);
    assert("execute in the_end run forceload remove all\n"@ == c + seq!['\n']);
    assert("save-all flush\n"@ == f + seq!['\n']);
    assert(text + release_commands() + flush_command() == t3 + f + seq!['\n']);
    assert(lines(text).push(a).push(b).push(c).push(f) == lines(text) + seq![a, b, c, f]);
}

/// The commands at an end save first and stop then.
pub proof fn law_end_saves_and_then_stops()
    ensures
        ends_its_lines(flush_command() + stop_command()),
        lines(flush_command() + stop_command()) == seq!["save-all flush"@, "stop"@],
{
    reveal_strlit("save-all flush");
    reveal_strlit("stop");
    reveal_strlit("save-all flush\n");
    reveal_strlit("stop\n");
    let f = "save-all flush"@;
    let s = "stop"@;
    let t1 = Seq::<char>::empty() + f + seq!['\n'];
    lemma_no_lines();
    lemma_append_line(Seq::empty(), f);
    lemma_append_line(t1, s);
    assert("save-all flush\n"@ == f + seq!['\n']);
    assert("stop\n"@ == s + seq!['\n']);
    assert(flush_command() + stop_command() == t1 + s + seq!['\n']);
    assert(Seq::<Seq<char>>::empty().push(f).push(s) == seq![f, s]);
}

} // verus!
