//! The text of a progress line.
//!
//! A line reads `<total> <H:MM:SS> [<rate>b/s]`: all bytes counted so far,
//! the time since the start, and the momentary rate. It comes in three
//! segments, so that each can be given a look of its own.

use vstd::prelude::*;
use vstd::arithmetic::div_mod::lemma_mod_mod;
use vstd::string::StringExecFns;
use crate::stats::Progress;

verus! {

/// The character for one decimal digit.
pub open spec fn digit_char(d: nat) -> char
    recommends
        d < 10,
{
    if d == 0 {
        '0'
    } else if d == 1 {
        '1'
    } else if d == 2 {
        '2'
    } else if d == 3 {
        '3'
    } else if d == 4 {
        '4'
    } else if d == 5 {
        '5'
    } else if d == 6 {
        '6'
    } else if d == 7 {
        '7'
    } else if d == 8 {
        '8'
    } else {
        '9'
    }
}

/// The decimal numeral of `n`, with no leading zero but for zero itself.
pub open spec fn decimal(n: nat) -> Seq<char>
    decreases n,
{
    if n < 10 {
        seq![digit_char(n)]
    } else {
        decimal(n / 10).push(digit_char(n % 10))
    }
}

/// The numeral of a number below a hundred, in two digits.
pub open spec fn two_digits(n: nat) -> Seq<char>
    recommends
        n < 100,
{
    seq![digit_char(n / 10), digit_char(n % 10)]
}

/// A span of `secs` seconds as hours, minutes and seconds: `H:MM:SS`, the
/// hours in as many digits as they take.
pub open spec fn clock_text(secs: nat) -> Seq<char> {
    decimal(secs / 3600) + seq![':'] + two_digits(secs % 3600 / 60) + seq![':'] + two_digits(
        secs % 60,
    )
}

/// The first segment of a progress line: the total and a blank.
pub open spec fn bytes_text(total: nat) -> Seq<char> {
    decimal(total).push(' ')
}

/// The last segment of a progress line: the rate, as the caller has put it
/// in figures, with its unit and in brackets, after a blank.
pub open spec fn rate_text(figures: Seq<char>) -> Seq<char> {
    seq![' ', '['] + figures + seq!['b', '/', 's', ']']
}

/// The string of one decimal digit.
fn digit_str(d: u64) -> (text: &'static str)
    requires
        d < 10,
    ensures
        text@ == seq![digit_char(d as nat)],
{
    proof {
        reveal_strlit("0");
        reveal_strlit("1");
        reveal_strlit("2");
        reveal_strlit("3");
        reveal_strlit("4");
        reveal_strlit("5");
        reveal_strlit("6");
        reveal_strlit("7");
        reveal_strlit("8");
        reveal_strlit("9");
    }
    let text = if d == 0 {
        "0"
    } else if d == 1 {
        "1"
    } else if d == 2 {
        "2"
    } else if d == 3 {
        "3"
    } else if d == 4 {
        "4"
    } else if d == 5 {
        "5"
    } else if d == 6 {
        "6"
    } else if d == 7 {
        "7"
    } else if d == 8 {
        "8"
    } else {
        "9"
    };
    assert(text@ =~= seq![digit_char(d as nat)]);
    text
}

/// Appends the decimal numeral of `n` to `text`.
fn push_decimal(text: &mut String, n: u64)
    ensures
        final(text)@ == old(text)@ + decimal(n as nat),
    decreases n,
{
    if n >= 10 {
        push_decimal(text, n / 10);
    }
    text.append(digit_str(n % 10));
    assert(text@ =~= old(text)@ + decimal(n as nat));
}

/// Appends the numeral of `n` in two digits to `text`.
fn push_two_digits(text: &mut String, n: u64)
    requires
        n < 100,
    ensures
        final(text)@ == old(text)@ + two_digits(n as nat),
{
    text.append(digit_str(n / 10));
    text.append(digit_str(n % 10));
    assert(text@ =~= old(text)@ + two_digits(n as nat));
}

/// Appends a colon to `text`.
fn push_colon(text: &mut String)
    ensures
        final(text)@ == old(text)@ + seq![':'],
{
    proof {
        reveal_strlit(":");
    }
    text.append(":");
    assert(text@ =~= old(text)@ + seq![':']);
}

/// The seconds that are left of the last hour and those that are left of
/// the last minute leave the same seconds.
proof fn lemma_seconds_of_minute(secs: nat)
    ensures
        secs % 3600 % 60 == secs % 60,
{
    lemma_mod_mod(secs as int, 60, 60);
}

/// A number of seconds that can be shown as a span of time.
pub trait TimeOutput {
    /// The span in seconds.
    spec fn seconds(&self) -> nat;

    /// The span as `H:MM:SS`.
    fn as_time(&self) -> (text: String)
        ensures
            text@ == clock_text(self.seconds()),
    ;
}

impl TimeOutput for u64 {
    open spec fn seconds(&self) -> nat {
        *self as nat
    }

    fn as_time(&self) -> (text: String) {
        let (hours, left) = (*self / 3600, *self % 3600);
        let (minutes, seconds) = (left / 60, left % 60);
        proof {
            lemma_seconds_of_minute(*self as nat);
        }
        let mut text = String::new();
        push_decimal(&mut text, hours);
        push_colon(&mut text);
        push_two_digits(&mut text, minutes);
        push_colon(&mut text);
        push_two_digits(&mut text, seconds);
        assert(text@ =~= clock_text(*self as nat));
        text
    }
}

/// The three segments of a progress line.
#[derive(Debug, PartialEq, Eq)]
pub struct ProgressText {
    /// The total and a blank.
    pub bytes: String,
    /// The time since the start.
    pub elapsed: String,
    /// The rate in brackets, after a blank.
    pub rate: String,
}

impl ProgressText {
    /// The whole line.
    pub open spec fn line(self) -> Seq<char> {
        self.bytes@ + self.elapsed@ + self.rate@
    }
}

impl Progress {
    /// The text of the progress line for these figures. The rate is a
    /// fraction and is put in figures by the caller.
    pub fn text(&self, rate_figures: &str) -> (text: ProgressText)
        ensures
            text.bytes@ == bytes_text(self.total as nat),
            text.elapsed@ == clock_text(self.uptime_secs as nat),
            text.rate@ == rate_text(rate_figures@),
    {
        let mut bytes = String::new();
        push_decimal(&mut bytes, self.total as u64);
        bytes.append(" ");
        let mut rate = String::new();
        rate.append(" [");
        rate.append(rate_figures);
        rate.append("b/s]");
        proof {
            reveal_strlit(" ");
            reveal_strlit(" [");
            reveal_strlit("b/s]");
            assert(bytes@ =~= bytes_text(self.total as nat));
            assert(rate@ =~= rate_text(rate_figures@));
        }
        ProgressText { bytes, elapsed: self.uptime_secs.as_time(), rate }
    }
}

} // verus!
