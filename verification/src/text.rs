//! Numbers and hands as text.

use vstd::prelude::*;
use vstd::string::StringExecFns;

verus! {

/// The text of one decimal digit.
pub open spec fn digit_text(digit: nat) -> Seq<char> {
    if digit == 0 {
        "0"@
    } else if digit == 1 {
        "1"@
    } else if digit == 2 {
        "2"@
    } else if digit == 3 {
        "3"@
    } else if digit == 4 {
        "4"@
    } else if digit == 5 {
        "5"@
    } else if digit == 6 {
        "6"@
    } else if digit == 7 {
        "7"@
    } else if digit == 8 {
        "8"@
    } else {
        "9"@
    }
}

/// A number in decimal, without leading zeros.
pub open spec fn decimal_text(n: nat) -> Seq<char>
    decreases n,
{
    if n < 10 {
        digit_text(n)
    } else {
        decimal_text(n / 10) + digit_text(n % 10)
    }
}

/// The numbers of a hand in decimal, with a comma and a space between two of
/// them.
pub open spec fn items_text(items: Seq<u8>) -> Seq<char>
    decreases items.len(),
{
    if items.len() == 0 {
        Seq::empty()
    } else if items.len() == 1 {
        decimal_text(items[0] as nat)
    } else {
        items_text(items.drop_last()) + ", "@ + decimal_text(items.last() as nat)
    }
}

/// A hand as text: its numbers between square brackets.
pub open spec fn list_text(items: Seq<u8>) -> Seq<char> {
    "["@ + items_text(items) + "]"@
}

/// The number that a character stands for as a decimal digit.
pub open spec fn digit_value(c: char) -> nat {
    (c as nat - 48) as nat
}

/// The number that a text of decimal digits stands for.
pub open spec fn decimal_value(text: Seq<char>) -> nat
    decreases text.len(),
{
    if text.len() == 0 {
        0
    } else {
        10 * decimal_value(text.drop_last()) + digit_value(text.last())
    }
}

/// The text of a digit is one character, the digit itself: `'0'` for 0 up
/// to `'9'` for 9.
pub proof fn law_digit_text_is_the_digit(digit: nat)
    requires
        digit < 10,
    ensures
        digit_text(digit).len() == 1,
        digit_text(digit)[0] as nat == 48 + digit,
        digit_value(digit_text(digit)[0]) == digit,
{
    reveal_strlit("0");
    reveal_strlit("1");
    reveal_strlit("2");
    reveal_strlit("3");
    reveal_strlit("4");
    reveal_strlit("5");
    reveal_strlit("6");
    reveal_strlit("7");
    reveal_strlit("8");
    reveal_strlit("9");
}

/// The decimal text of a number reads back as that number, and it has no
/// leading zero but for the number zero itself.
pub proof fn law_decimal_text_reads_back(n: nat)
    ensures
        decimal_text(n).len() >= 1,
        decimal_value(decimal_text(n)) == n,
        n > 0 ==> decimal_text(n)[0] != '0',
    decreases n,
{
    law_digit_text_is_the_digit(n % 10);
    if n < 10 {
        let text = digit_text(n);
        assert(text.drop_last() =~= Seq::<char>::empty());
        assert(decimal_value(text.drop_last()) == 0);
    } else {
        law_decimal_text_reads_back(n / 10);
        let text = decimal_text(n);
        let head = decimal_text(n / 10);
        assert(text.drop_last() =~= head);
        assert(text.last() == digit_text(n % 10)[0]);
        assert(text[0] == head[0]);
    }
}

/// The text of the last decimal digit of a number.
pub fn digit_str(n: u8) -> (text: &'static str)
    ensures
        text@ == digit_text((n % 10) as nat),
{
    match n % 10 {
        0 => "0",
        1 => "1",
        2 => "2",
        3 => "3",
        4 => "4",
        5 => "5",
        6 => "6",
        7 => "7",
        8 => "8",
        _ => "9",
    }
}

/// Appends a number in decimal to a text.
pub fn push_decimal(text: &mut String, n: u128)
    ensures
        final(text)@ == old(text)@ + decimal_text(n as nat),
    decreases n,
{
    if n >= 10 {
        push_decimal(text, n / 10);
    }
    text.append(digit_str((n % 10) as u8));
    assert(text@ =~= old(text)@ + decimal_text(n as nat));
}

/// Appends a hand to a text: its numbers in decimal, with a comma and a space
/// between two of them, all between square brackets.
pub fn push_list(text: &mut String, items: &[u8])
    ensures
        final(text)@ == old(text)@ + list_text(items@),
{
    text.append("[");
    let mut i: usize = 0;
    while i < items.len()
        invariant
            i <= items.len(),
            text@ == old(text)@ + "["@ + items_text(items@.take(i as int)),
        decreases items.len() - i,
    {
        let ghost before = text@;
        if i > 0 {
            text.append(", ");
        }
        push_decimal(text, items[i] as u128);
        proof {
            let shown = items@.take(i as int + 1);
            assert(shown.drop_last() =~= items@.take(i as int));
            assert(shown.last() == items@[i as int]);
            assert(text@ =~= old(text)@ + "["@ + items_text(shown));
        }
        i = i + 1;
    }
    assert(items@.take(i as int) =~= items@);
    text.append("]");
    assert(text@ =~= old(text)@ + list_text(items@));
}

} // verus!
