//! How a connection identifier is written: in decimal, without padding.
//!
//! Envelopes carry their origin as text, and a session recognises its own
//! envelopes by that text. Two identifiers must therefore never share a
//! text; `lemma_decimal_injective` proves that they do not.

use crate::broker::{id_after, law_ids_are_not_reused};
use vstd::prelude::*;
use vstd::string::StringExecFns;

verus! {

/// The character of one decimal digit.
pub open spec fn digit_char(digit: nat) -> char {
    if digit == 0 {
        '0'
    } else if digit == 1 {
        '1'
    } else if digit == 2 {
        '2'
    } else if digit == 3 {
        '3'
    } else if digit == 4 {
        '4'
    } else if digit == 5 {
        '5'
    } else if digit == 6 {
        '6'
    } else if digit == 7 {
        '7'
    } else if digit == 8 {
        '8'
    } else {
        '9'
    }
}

/// The decimal digits of `n`, most significant first; zero is "0".
pub open spec fn decimal(n: nat) -> Seq<char>
    decreases n,
{
    if n < 10 {
        seq![digit_char(n)]
    } else {
        decimal(n / 10).push(digit_char(n % 10))
    }
}

/// The digit that a character stands for; zero for any other character.
pub open spec fn digit_value(c: char) -> nat {
    if c == '1' {
        1
    } else if c == '2' {
        2
    } else if c == '3' {
        3
    } else if c == '4' {
        4
    } else if c == '5' {
        5
    } else if c == '6' {
        6
    } else if c == '7' {
        7
    } else if c == '8' {
        8
    } else if c == '9' {
        9
    } else {
        0
    }
}

/// The number that a sequence of digits denotes.
pub open spec fn denoted(digits: Seq<char>) -> nat
    decreases digits.len(),
{
    if digits.len() == 0 {
        0
    } else {
        denoted(digits.drop_last()) * 10 + digit_value(digits.last())
    }
}

/// Reading the decimal text of a number gives the number back.
pub proof fn lemma_decimal_denotes(n: nat)
    ensures
        denoted(decimal(n)) == n,
    decreases n,
{
    if n < 10 {
        let text = decimal(n);
        assert(text.drop_last() =~= Seq::<char>::empty());
        assert(denoted(text.drop_last()) == 0);
        assert(text.last() == digit_char(n));
    } else {
        lemma_decimal_denotes(n / 10);
        let text = decimal(n);
        assert(text.drop_last() =~= decimal(n / 10));
        assert(text.last() == digit_char(n % 10));
    }
}

/// Different numbers have different decimal texts.
pub proof fn lemma_decimal_injective(a: nat, b: nat)
    ensures
        decimal(a) == decimal(b) <==> a == b,
{
    lemma_decimal_denotes(a);
    lemma_decimal_denotes(b);
}

/// Connection identifiers stay apart as text: two calls of the identifier
/// source that lie less than `usize::MAX + 1` calls apart give identifiers
/// whose decimal texts differ, so no session takes another's envelope for
/// its own.
pub proof fn law_connection_texts_are_not_reused(first: usize, earlier: nat, later: nat)
    requires
        earlier < later,
        later - earlier <= usize::MAX,
    ensures
        decimal(id_after(first, earlier) as nat) != decimal(id_after(first, later) as nat),
{
    law_ids_are_not_reused(first, earlier, later);
    lemma_decimal_injective(id_after(first, earlier) as nat, id_after(first, later) as nat);
}

/// The text of one digit.
fn digit_text(digit: usize) -> (text: &'static str)
    requires
        digit < 10,
    ensures
        text@ == seq![digit_char(digit as nat)],
{
    proof {
        reveal_strlit("0");
        reveal_strlit("1");
        reveal_strlit("2");
        reveal_strlit("3");
        reveal_strlit("4");
        reveal_strlit("5");
        reveal_strlit("6");
        reveal_strlit("7");
        reveal_strlit("8");
        reveal_strlit("9");
    }
    let text = if digit == 0 {
        "0"
    } else if digit == 1 {
        "1"
    } else if digit == 2 {
        "2"
    } else if digit == 3 {
        "3"
    } else if digit == 4 {
        "4"
    } else if digit == 5 {
        "5"
    } else if digit == 6 {
        "6"
    } else if digit == 7 {
        "7"
    } else if digit == 8 {
        "8"
    } else {
        "9"
    };
    assert(text@ =~= seq![digit_char(digit as nat)]);
    text
}

/// Writes a connection identifier in decimal.
pub fn id_text(id: usize) -> (text: String)
    ensures
        text@ == decimal(id as nat),
{
    let mut text = String::from_str(digit_text(id % 10));
    let mut rest: usize = id / 10;
    proof {
        if rest > 0 {
            assert(decimal(id as nat) =~= decimal(rest as nat) + text@);
        } else {
            assert(decimal(id as nat) =~= text@);
        }
    }
    while rest > 0
        invariant
            rest > 0 ==> decimal(id as nat) == decimal(rest as nat) + text@,
            rest == 0 ==> decimal(id as nat) == text@,
        decreases rest,
    {
        let ghost before = text@;
        let ghost above = rest;
        text = String::from_str(digit_text(rest % 10)).concat(text.as_str());
        rest = rest / 10;
        proof {
            let digit = seq![digit_char((above % 10) as nat)];
            assert(text@ == digit + before);
            if rest > 0 {
                assert(decimal(above as nat) == decimal(rest as nat).push(
                    digit_char((above % 10) as nat),
                ));
                assert(decimal(above as nat) =~= decimal(rest as nat) + digit);
                assert(decimal(id as nat) =~= decimal(rest as nat) + text@);
            } else {
                assert(decimal(above as nat) =~= digit);
                assert(decimal(id as nat) =~= text@);
            }
        }
    }
    text
}

} // verus!
