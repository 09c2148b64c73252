//! Human-friendly durations ("45m", "1h 30m"), read and written by the
//! `humantime` crate.

use vstd::prelude::*;

use crate::span::Span;

verus! {

/// The text `humantime::format_duration` gives for a duration of `nanos`
/// nanoseconds.
pub uninterp spec fn humantime_format(nanos: nat) -> Seq<char>;

/// What `humantime::parse_duration` makes of `text`: the length in
/// nanoseconds, or the text of its error.
pub uninterp spec fn humantime_parse(text: Seq<char>) -> Result<nat, Seq<char>>;

/// `humantime::format_duration`, displayed: e.g. "2h 37m", "32ms", "0s".
/// The contract claims only that the text is a function of the length.
#[verifier::external_body]
pub(crate) fn format_span(span: Span) -> (r: String)
    ensures
        r@ == humantime_format(span@),
{
    humantime::format_duration(std::time::Duration::new(span.as_secs(), span.subsec_nanos())).to_string()
}

/// Whether `c` is one of the ASCII digits `0`-`9`.
pub open spec fn is_ascii_digit(c: char) -> bool {
    '0' <= c && c <= '9'
}

/// Whether `c` ends the number before it in a duration text: a unit letter
/// (ASCII or `µ`) or the decimal point. Anything else (spaces among them)
/// leaves the number going.
pub open spec fn ends_number(c: char) -> bool {
    ('a' <= c && c <= 'z') || ('A' <= c && c <= 'Z') || c == 'µ' || c == '.'
}

/// Whether the number that `text` ends in already holds a non-zero digit,
/// so that a further digit is significant.
pub open spec fn number_started(text: Seq<char>) -> bool
    decreases text.len(),
{
    if text.len() == 0 {
        false
    } else if is_ascii_digit(text.last()) {
        text.last() != '0' || number_started(text.drop_last())
    } else if ends_number(text.last()) {
        false
    } else {
        number_started(text.drop_last())
    }
}

/// How many significant digits `text` holds: every digit but the leading
/// zeros of a number.
pub open spec fn significant_digits(text: Seq<char>) -> nat
    decreases text.len(),
{
    if text.len() == 0 {
        0
    } else {
        significant_digits(text.drop_last()) + if is_ascii_digit(text.last()) && (text.last()
            != '0' || number_started(text.drop_last())) {
            1nat
        } else {
            0nat
        }
    }
}

/// The most significant digits a duration text may hold.
pub const MAX_DURATION_DIGITS: usize = 11;

/// The error for a duration text with more than `MAX_DURATION_DIGITS`
/// significant digits.
pub const TOO_MANY_DIGITS: &'static str = "number is too large: a duration is written with at most 11 significant digits";

/// `humantime::parse_duration`: the parsed length, or the error displayed as
/// text. The contract claims only that the outcome is a function of the text.
///
/// `humantime::parse_duration` panics on some texts whose seconds add up to
/// `u64::MAX` (it then builds a `Duration` from exactly one billion extra
/// nanoseconds). Each item of a duration text is a number (digits, possibly
/// spread over spaces, then perhaps a decimal point and a fraction) and a
/// unit of at most a year (31,557,600 s). An item whose significant digits
/// number `t` adds less than `2 * 10^t` years, and one with none adds
/// nothing, so a text with at most 11 significant digits adds up to less than
/// `2 * 10^11` years, about 6.4 * 10^18 s, below `u64::MAX` s: the `requires`
/// keeps every panicking text out.
#[verifier::external_body]
fn parse_humantime(text: &str) -> (r: Result<Span, String>)
    requires
        significant_digits(text@) <= MAX_DURATION_DIGITS,
    ensures
        match r {
            Ok(span) => humantime_parse(text@) == Ok::<nat, Seq<char>>(span@),
            Err(message) => humantime_parse(text@) == Err::<nat, Seq<char>>(message@),
        },
{
    match humantime::parse_duration(text) {
        Ok(d) => Ok(Span::new(d.as_secs(), d.subsec_nanos())),
        Err(error) => Err(error.to_string()),
    }
}

/// Count the significant digits of `text`.
fn count_significant_digits(text: &str) -> (r: usize)
    ensures
        r == significant_digits(text@),
{
    let n = text.unicode_len();
    let mut count: usize = 0;
    let mut started = false;
    let mut i: usize = 0;
    assert(text@.subrange(0, 0) =~= Seq::<char>::empty());
    while i < n
        invariant
            n == text@.len(),
            i <= n,
            count <= i,
            count == significant_digits(text@.subrange(0, i as int)),
            started == number_started(text@.subrange(0, i as int)),
        decreases n - i,
    {
        let c = text.get_char(i);
        assert(text@.subrange(0, i + 1).drop_last() =~= text@.subrange(0, i as int));
        assert(text@.subrange(0, i + 1).last() == c);
        if '0' <= c && c <= '9' {
            if c != '0' || started {
                count = count + 1;
                started = true;
            }
        } else if ('a' <= c && c <= 'z') || ('A' <= c && c <= 'Z') || c == 'µ' || c == '.' {
            started = false;
        }
        i = i + 1;
    }
    assert(text@.subrange(0, n as int) =~= text@);
    count
}

/// Read a duration written with friendly units, e.g. "45m", "1h 30m", "90s".
/// A text with more than `MAX_DURATION_DIGITS` significant digits is refused
/// with `TOO_MANY_DIGITS`; otherwise the outcome is `humantime`'s, its error
/// explained as text.
pub fn parse_duration(input: &str) -> (r: Result<Span, String>)
    ensures
        significant_digits(input@) > MAX_DURATION_DIGITS ==> r is Err && r->Err_0@
            == TOO_MANY_DIGITS@,
        significant_digits(input@) <= MAX_DURATION_DIGITS ==> match humantime_parse(input@) {
            Ok(nanos) => r is Ok && r->Ok_0@ == nanos,
            Err(message) => r is Err && r->Err_0@ == message,
        },
{
    if count_significant_digits(input) > MAX_DURATION_DIGITS {
        return Err(String::from_str(TOO_MANY_DIGITS));
    }
    parse_humantime(input)
}

} // verus!
