//! Episode numbering: the decimal token under which the remote site files
//! an episode, derived from the episode's position in the listing.

use crate::decimal::{digit_value, digits_value};
use vstd::prelude::*;
use vstd::string::StringExecFns;

verus! {

/// The character that writes the decimal digit `d`.
pub open spec fn digit_char(d: nat) -> char
    recommends
        d < 10,
{
    if d == 0 {
        '0'
    } else if d == 1 {
        '1'
    } else if d == 2 {
        '2'
    } else if d == 3 {
        '3'
    } else if d == 4 {
        '4'
    } else if d == 5 {
        '5'
    } else if d == 6 {
        '6'
    } else if d == 7 {
        '7'
    } else if d == 8 {
        '8'
    } else {
        '9'
    }
}

/// The decimal numeral of `n`, most significant digit first, without
/// leading zeros (the numeral of zero is `0`).
pub open spec fn decimal_digits(n: nat) -> Seq<char>
    decreases n,
{
    if n < 10 {
        seq![digit_char(n)]
    } else {
        decimal_digits(n / 10).push(digit_char(n % 10))
    }
}

/// The token of the episode at zero-based position `index`: the numeral of
/// `index + 1`, with one leading zero where that number is below ten.
pub open spec fn episode_token_chars(index: nat) -> Seq<char> {
    if index + 1 < 10 {
        seq!['0'] + decimal_digits(index + 1)
    } else {
        decimal_digits(index + 1)
    }
}

/// The one-character text of a decimal digit.
fn digit_text(d: u8) -> (r: &'static str)
    requires
        d < 10,
    ensures
        r@ == seq![digit_char(d as nat)],
{
    proof {
        reveal_strlit("0");
        reveal_strlit("1");
        reveal_strlit("2");
        reveal_strlit("3");
        reveal_strlit("4");
        reveal_strlit("5");
        reveal_strlit("6");
        reveal_strlit("7");
        reveal_strlit("8");
        reveal_strlit("9");
    }
    let r = match d {
        0 => "0",
        1 => "1",
        2 => "2",
        3 => "3",
        4 => "4",
        5 => "5",
        6 => "6",
        7 => "7",
        8 => "8",
        _ => "9",
    };
    assert(r@ =~= seq![digit_char(d as nat)]);
    r
}

/// Writes `n` as a decimal numeral.
pub fn format_decimal(n: u128) -> (r: String)
    ensures
        r@ == decimal_digits(n as nat),
    decreases n,
{
    if n < 10 {
        String::from_str(digit_text(n as u8))
    } else {
        let mut text = format_decimal(n / 10);
        let last = digit_text((n % 10) as u8);
        text.append(last);
        assert(text@ =~= decimal_digits(n as nat));
        text
    }
}

/// Produces the token of the episode at zero-based position `index`.
pub fn episode_token(index: usize) -> (r: String)
    ensures
        r@ == episode_token_chars(index as nat),
{
    let number: u128 = index as u128 + 1;
    let numeral = format_decimal(number);
    if number < 10 {
        proof {
            reveal_strlit("0");
        }
        let padded = String::from_str("0").concat(numeral.as_str());
        assert(padded@ =~= episode_token_chars(index as nat));
        padded
    } else {
        numeral
    }
}

/// The numeral of a number writes that number: it has at least one
/// character, and its digits have the number as their value.
pub proof fn lemma_decimal_digits_value(n: nat)
    ensures
        decimal_digits(n).len() >= 1,
        digits_value(decimal_digits(n)) == Some(n),
    decreases n,
{
    let numeral = decimal_digits(n);
    if n < 10 {
        assert(numeral.drop_last() =~= Seq::<char>::empty());
        assert(digits_value(Seq::<char>::empty()) == Some(0nat));
        assert(digit_value(digit_char(n)) == Some(n));
    } else {
        lemma_decimal_digits_value(n / 10);
        assert(numeral.drop_last() =~= decimal_digits(n / 10));
        assert(numeral.last() == digit_char(n % 10));
        assert(digit_value(digit_char(n % 10)) == Some(n % 10));
    }
}

/// The numeral of a number of ten or more has at least two characters.
pub proof fn lemma_decimal_digits_len(n: nat)
    requires
        n >= 10,
    ensures
        decimal_digits(n).len() >= 2,
{
    lemma_decimal_digits_value(n / 10);
}

/// The token of each of the first nine episodes has two characters: a zero,
/// then the digit of the episode's one-based number.
pub proof fn lemma_token_below_ten(index: nat)
    requires
        index < 9,
    ensures
        episode_token_chars(index) == seq!['0', digit_char(index + 1)],
        episode_token_chars(index).len() == 2,
{
    assert(episode_token_chars(index) =~= seq!['0', digit_char(index + 1)]);
}

/// The token of every later episode is the plain numeral of its one-based
/// number, with two characters or more.
pub proof fn lemma_token_from_ten(index: nat)
    requires
        index >= 9,
    ensures
        episode_token_chars(index) == decimal_digits(index + 1),
        episode_token_chars(index).len() >= 2,
{
    lemma_decimal_digits_len(index + 1);
}

/// The digits of a token have the episode's one-based number as their
/// value, padded or not.
pub proof fn lemma_token_value(index: nat)
    ensures
        digits_value(episode_token_chars(index)) == Some(index + 1),
{
    lemma_decimal_digits_value(index + 1);
    if index + 1 < 10 {
        let token = episode_token_chars(index);
        lemma_token_below_ten(index);
        assert(token.drop_last() =~= seq!['0']);
        assert(seq!['0'].drop_last() =~= Seq::<char>::empty());
        assert(digits_value(Seq::<char>::empty()) == Some(0nat));
        assert(digit_value('0') == Some(0nat));
        assert(digits_value(seq!['0']) == Some(0nat));
        assert(digit_value(digit_char(index + 1)) == Some(index + 1));
    }
}

/// Episodes at different positions have different tokens.
pub proof fn lemma_tokens_differ(first: nat, second: nat)
    requires
        first != second,
    ensures
        episode_token_chars(first) != episode_token_chars(second),
{
    lemma_token_value(first);
    lemma_token_value(second);
}

} // verus!
