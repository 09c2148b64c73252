//! Small string-building helpers shared by the text-producing modules.

use vstd::prelude::*;

verus! {

/// Append one character to a `String` (`String::push`).
#[verifier::external_body]
pub(crate) fn push_char(s: &mut String, c: char)
    ensures
        final(s)@ == old(s)@.push(c),
{
    s.push(c);
}

}

verus! {

/// The character for decimal digit `d`.
pub open spec fn digit(d: nat) -> char {
    if d == 0 {
        '0'
    } else if d == 1 {
        '1'
    } else if d == 2 {
        '2'
    } else if d == 3 {
        '3'
    } else if d == 4 {
        '4'
    } else if d == 5 {
        '5'
    } else if d == 6 {
        '6'
    } else if d == 7 {
        '7'
    } else if d == 8 {
        '8'
    } else {
        '9'
    }
}

/// `n` written in decimal, without leading zeros ("0" for zero).
pub open spec fn decimal(n: nat) -> Seq<char>
    decreases n,
{
    if n < 10 {
        seq![digit(n)]
    } else {
        decimal(n / 10).push(digit(n % 10))
    }
}

/// `n` (below 100) written with exactly two digits, as `{:02}` does.
pub open spec fn two_digits(n: nat) -> Seq<char> {
    seq![digit(n / 10), digit(n % 10)]
}

/// The character for decimal digit `d`.
pub(crate) fn digit_char(d: u64) -> (c: char)
    requires
        d < 10,
    ensures
        c == digit(d as nat),
{
    match d {
        0 => '0',
        1 => '1',
        2 => '2',
        3 => '3',
        4 => '4',
        5 => '5',
        6 => '6',
        7 => '7',
        8 => '8',
        _ => '9',
    }
}

/// Append `n` in decimal.
pub(crate) fn push_decimal(s: &mut String, n: u64)
    ensures
        final(s)@ == old(s)@ + decimal(n as nat),
    decreases n,
{
    if n >= 10 {
        push_decimal(s, n / 10);
    }
    push_char(s, digit_char(n % 10));
    proof {
        if n < 10 {
            assert(n % 10 == n);
        }
    }
    assert(s@ =~= old(s)@ + decimal(n as nat)) by {
        reveal_with_fuel(decimal, 2);
    }
}

/// Append `n` (below 100) with exactly two digits.
pub(crate) fn push_two_digits(s: &mut String, n: u64)
    requires
        n < 100,
    ensures
        final(s)@ == old(s)@ + two_digits(n as nat),
{
    push_char(s, digit_char(n / 10));
    push_char(s, digit_char(n % 10));
    assert(s@ =~= old(s)@ + two_digits(n as nat));
}

/// The value of a decimal digit character.
pub open spec fn digit_value(c: char) -> int {
    c as int - '0' as int
}

/// The number that the digits `s` spell, most significant first.
pub open spec fn decimal_value(s: Seq<char>) -> int
    decreases s.len(),
{
    if s.len() == 0 {
        0
    } else {
        decimal_value(s.drop_last()) * 10 + digit_value(s.last())
    }
}

/// Whether every character of `s` is a decimal digit.
pub open spec fn all_digits(s: Seq<char>) -> bool {
    forall|i: int| 0 <= i < s.len() ==> '0' <= #[trigger] s[i] && s[i] <= '9'
}

/// Each digit character stands for its digit.
pub proof fn lemma_digit_value(d: nat)
    requires
        d < 10,
    ensures
        digit_value(digit(d)) == d,
        '0' <= digit(d) && digit(d) <= '9',
{
}

/// Writing a number in decimal and reading the digits back gives the number.
pub proof fn lemma_decimal_reads_back(n: nat)
    ensures
        decimal_value(decimal(n)) == n,
        all_digits(decimal(n)),
        decimal(n).len() >= 1,
    decreases n,
{
    if n < 10 {
        lemma_digit_value(n);
        let s = decimal(n);
        assert(s.drop_last() =~= Seq::<char>::empty());
        assert(decimal_value(s.drop_last()) == 0);
        assert(s.last() == digit(n));
        assert(decimal_value(s) == decimal_value(s.drop_last()) * 10 + digit_value(s.last()));
    } else {
        lemma_decimal_reads_back(n / 10);
        lemma_digit_value(n % 10);
        let s = decimal(n);
        assert(s.drop_last() =~= decimal(n / 10));
        assert(s.last() == digit(n % 10));
        assert(decimal_value(s) == decimal_value(s.drop_last()) * 10 + digit_value(s.last()));
        assert((n / 10) * 10 + n % 10 == n) by (nonlinear_arith);
        assert forall|i: int| 0 <= i < s.len() implies '0' <= #[trigger] s[i] && s[i] <= '9' by {
            if i < s.len() - 1 {
                assert(s[i] == decimal(n / 10)[i]);
            }
        }
    }
}

/// Two-digit writing reads back too, and is two digits long.
pub proof fn lemma_two_digits_read_back(n: nat)
    requires
        n < 100,
    ensures
        decimal_value(two_digits(n)) == n,
        all_digits(two_digits(n)),
        two_digits(n).len() == 2,
{
    lemma_digit_value(n / 10);
    lemma_digit_value(n % 10);
    let s = two_digits(n);
    let first = s.drop_last();
    assert(first =~= seq![digit(n / 10)]);
    assert(first.drop_last() =~= Seq::<char>::empty());
    assert(decimal_value(first) == decimal_value(first.drop_last()) * 10 + digit_value(first.last()));
    assert(decimal_value(first) == n / 10);
    assert(decimal_value(s) == decimal_value(first) * 10 + digit_value(s.last()));
    assert((n / 10) * 10 + n % 10 == n) by (nonlinear_arith);
}

} // verus!
