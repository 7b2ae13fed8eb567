//! Numbers in decimal.

use vstd::prelude::*;
use vstd::string::StringExecFns;

verus! {

/// The digit for a number below ten.
pub open spec fn digit(d: int) -> char {
    (('0' as int) + d) as char
}

/// A natural number in decimal, without leading zeros.
pub open spec fn decimal(n: nat) -> Seq<char>
    decreases n,
{
    if n < 10 {
        seq![digit(n as int)]
    } else {
        decimal(n / 10).push(digit((n % 10) as int))
    }
}

/// An integer in decimal, with a minus sign if it is negative.
pub open spec fn signed_decimal(i: int) -> Seq<char> {
    if i < 0 {
        seq!['-'] + decimal((-i) as nat)
    } else {
        decimal(i as nat)
    }
}

fn digit_text(d: u32) -> (text: &'static str)
    requires
        d < 10,
    ensures
        text@ == seq![digit(d as int)],
{
    proof {
        reveal_strlit("0");
        reveal_strlit("1");
        reveal_strlit("2");
        reveal_strlit("3");
        reveal_strlit("4");
        reveal_strlit("5");
        reveal_strlit("6");
        reveal_strlit("7");
        reveal_strlit("8");
        reveal_strlit("9");
    }
    match d {
        0 => "0",
        1 => "1",
        2 => "2",
        3 => "3",
        4 => "4",
        5 => "5",
        6 => "6",
        7 => "7",
        8 => "8",
        _ => "9",
    }
}

/// Appends a number in decimal.
pub(crate) fn push_decimal(out: &mut String, n: u32)
    ensures
        final(out)@ == old(out)@ + decimal(n as nat),
    decreases n,
{
    if n >= 10 {
        push_decimal(out, n / 10);
    }
    out.append(digit_text(n % 10));
}

/// Appends a signed number in decimal.
pub(crate) fn push_signed_decimal(out: &mut String, i: i32)
    ensures
        final(out)@ == old(out)@ + signed_decimal(i as int),
{
    if i < 0 {
        proof {
            reveal_strlit("-");
        }
        out.append("-");
        // The magnitude of the least number does not fit its own type.
        push_decimal(out, (-(i as i64)) as u32);
    } else {
        push_decimal(out, i as u32);
    }
}

/// The number that a sequence of digits stands for.
pub open spec fn value_of(digits: Seq<char>) -> int
    decreases digits.len(),
{
    if digits.len() == 0 {
        0
    } else {
        10 * value_of(digits.drop_last()) + (digits.last() as int - 48)
    }
}

/// Whether a text is a number: digits from `0` to `9`, at least one, and no zero in
/// front of others.
pub open spec fn is_numeral(text: Seq<char>) -> bool {
    &&& text.len() > 0
    &&& forall|i: int| 0 <= i < text.len() ==> '0' <= #[trigger] text[i] <= '9'
    &&& text.len() > 1 ==> text[0] != '0'
}

/// The decimal of a number is the numeral that stands for it.
pub proof fn law_decimal_stands_for_its_number(n: nat)
    ensures
        is_numeral(decimal(n)),
        value_of(decimal(n)) == n,
    decreases n,
{
    reveal_with_fuel(value_of, 2);
    if n >= 10 {
        law_decimal_stands_for_its_number(n / 10);
        assert(decimal(n).drop_last() == decimal(n / 10));
        if decimal(n / 10).len() == 1 {
            assert(decimal(n / 10).drop_last() == Seq::<char>::empty());
            assert(value_of(decimal(n / 10)) == decimal(n / 10)[0] as int - 48);
        }
    } else {
        assert(decimal(n).drop_last() == Seq::<char>::empty());
    }
}

/// The decimal of an integer is the numeral of its magnitude, behind a minus sign
/// exactly if it is negative.
pub proof fn law_signed_decimal_stands_for_its_number(i: int)
    ensures
        i >= 0 ==> is_numeral(signed_decimal(i)) && value_of(signed_decimal(i)) == i,
        i < 0 ==> signed_decimal(i).len() > 0 && signed_decimal(i)[0] == '-' && is_numeral(
            signed_decimal(i).drop_first(),
        ) && value_of(signed_decimal(i).drop_first()) == -i,
{
    if i >= 0 {
        law_decimal_stands_for_its_number(i as nat);
    } else {
        law_decimal_stands_for_its_number((-i) as nat);
        assert(signed_decimal(i).drop_first() == decimal((-i) as nat));
    }
}

/// Different integers have different decimals.
pub proof fn law_signed_decimals_tell_integers_apart(a: int, b: int)
    requires
        signed_decimal(a) == signed_decimal(b),
    ensures
        a == b,
{
    law_signed_decimal_stands_for_its_number(a);
    law_signed_decimal_stands_for_its_number(b);
}

/// A decimal holds neither a blank nor a line feed.
pub(crate) proof fn lemma_signed_decimal_is_one_word(i: int)
    ensures
        forall|k: int|
            0 <= k < signed_decimal(i).len() ==> #[trigger] signed_decimal(i)[k] != '\n'
                && signed_decimal(i)[k] != ' ',
{
    law_signed_decimal_stands_for_its_number(i);
    if i < 0 {
        let digits = signed_decimal(i).drop_first();
        assert forall|k: int| 0 <= k < signed_decimal(i).len() implies #[trigger] signed_decimal(
            i,
        )[k] != '\n' && signed_decimal(i)[k] != ' ' by {
            if k > 0 {
                assert(digits[k - 1] == signed_decimal(i)[k]);
            }
        }
    }
}

} // verus!
