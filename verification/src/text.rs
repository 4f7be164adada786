//! Searching in text.

use vstd::prelude::*;
use vstd::string::StringExecFns;

verus! {

/// `pattern` stands in `text` at place `at`.
pub open spec fn occurs_at(pattern: Seq<char>, text: Seq<char>, at: int) -> bool {
    &&& 0 <= at
    &&& at + pattern.len() <= text.len()
    &&& text.subrange(at, at + pattern.len()) == pattern
}

/// `pattern` stands somewhere in `text`.
pub open spec fn occurs_in(pattern: Seq<char>, text: Seq<char>) -> bool {
    exists|at: int| occurs_at(pattern, text, at)
}

/// `str::contains` with a string as the pattern: whether the pattern
/// matches a part of the text.
#[verifier::external_body]
pub(crate) fn contains(text: &str, pattern: &str) -> (found: bool)
    ensures
        found == occurs_in(pattern@, text@),
{
    text.contains(pattern)
}

/// Whether two string slices hold the same text.
pub fn equal(a: &str, b: &str) -> (same: bool)
    ensures
        same == (a@ == b@),
{
    String::from_str(a) == String::from_str(b)
}

/// `str::starts_with` with a string as the pattern: whether the text begins
/// with the pattern.
#[verifier::external_body]
pub(crate) fn starts_with(text: &str, pattern: &str) -> (found: bool)
    ensures
        found == occurs_at(pattern@, text@, 0),
{
    text.starts_with(pattern)
}

/// The value of `c` as a digit: `0` to `9`, then the letters of either case
/// from ten on. Nothing for any other character, or where the value does not
/// lie below `radix`.
pub open spec fn digit_value(c: char, radix: u32) -> Option<nat> {
    let code = c as u32;
    let value: int = if 48 <= code <= 57 {
        code - 48
    } else if 97 <= code <= 122 {
        code - 97 + 10
    } else if 65 <= code <= 90 {
        code - 65 + 10
    } else {
        36
    };
    if value < radix {
        Some(value as nat)
    } else {
        None
    }
}

/// Every character of `digits` is a digit in `radix`.
pub open spec fn all_digits(digits: Seq<char>, radix: u32) -> bool {
    forall|i: int| 0 <= i < digits.len() ==> (#[trigger] digit_value(digits[i], radix)) is Some
}

/// The number that `digits` write in `radix`, the most significant first.
pub open spec fn number_of(digits: Seq<char>, radix: u32) -> nat
    decreases digits.len(),
{
    if digits.len() == 0 {
        0
    } else {
        number_of(digits.drop_last(), radix) * (radix as nat) + digit_value(
            digits.last(),
            radix,
        ).unwrap_or(0)
    }
}

/// The number that `text` writes in `radix`: one or more digits, which a
/// single `+` may precede. Nothing for any other text.
pub open spec fn unsigned_of(text: Seq<char>, radix: u32) -> Option<nat> {
    let digits = if text.len() > 0 && text[0] == '+' {
        text.drop_first()
    } else {
        text
    };
    if digits.len() > 0 && all_digits(digits, radix) {
        Some(number_of(digits, radix))
    } else {
        None
    }
}

/// `u8::from_str_radix`: the number that the text writes, where it writes
/// one that a `u8` holds.
#[verifier::external_body]
pub(crate) fn parse_u8(text: &str, radix: u32) -> (value: Option<u8>)
    requires
        2 <= radix <= 36,
    ensures
        value is Some <==> (unsigned_of(text@, radix) matches Some(n) && n <= u8::MAX),
        value matches Some(v) ==> unsigned_of(text@, radix) == Some(v as nat),
{
    u8::from_str_radix(text, radix).ok()
}

/// `u32::from_str_radix`: the number that the text writes, where it writes
/// one that a `u32` holds.
#[verifier::external_body]
pub(crate) fn parse_u32(text: &str, radix: u32) -> (value: Option<u32>)
    requires
        2 <= radix <= 36,
    ensures
        value is Some <==> (unsigned_of(text@, radix) matches Some(n) && n <= u32::MAX),
        value matches Some(v) ==> unsigned_of(text@, radix) == Some(v as nat),
{
    u32::from_str_radix(text, radix).ok()
}

/// The place of the first line feed in `text`, or the length of `text`
/// where it holds none.
pub open spec fn line_end(text: Seq<char>) -> int
    decreases text.len(),
{
    if text.len() == 0 || text[0] == '\n' {
        0
    } else {
        1 + line_end(text.drop_first())
    }
}

/// The lines of `text`. A line ends with a line feed, or with a carriage
/// return and a line feed; neither belongs to the line. The last line needs
/// no ending, and a carriage return without a line feed stays in its line.
pub open spec fn lines_of(text: Seq<char>) -> Seq<Seq<char>>
    decreases text.len(),
    via lines_of_decreases
{
    if text.len() == 0 {
        Seq::empty()
    } else {
        let end = line_end(text);
        if end == text.len() {
            seq![text]
        } else {
            let line = text.take(end);
            let bare = if line.len() > 0 && line.last() == '\r' {
                line.drop_last()
            } else {
                line
            };
            seq![bare] + lines_of(text.skip(end + 1))
        }
    }
}

#[via_fn]
proof fn lines_of_decreases(text: Seq<char>) {
    lemma_line_end_bounds(text);
}

/// A line's end lies within the text.
pub proof fn lemma_line_end_bounds(text: Seq<char>)
    ensures
        0 <= line_end(text) <= text.len(),
    decreases text.len(),
{
    if text.len() > 0 && text[0] != '\n' {
        lemma_line_end_bounds(text.drop_first());
    }
}

/// `str::lines`, collected: the lines of the text, without their endings.
#[verifier::external_body]
pub(crate) fn lines<'a>(text: &'a str) -> (lines: Vec<&'a str>)
    ensures
        lines@.len() == lines_of(text@).len(),
        forall|i: int| 0 <= i < lines@.len() ==> (#[trigger] lines@[i])@ == lines_of(text@)[i],
{
    text.lines().collect()
}

/// The parts of a line that white space separates, in order, as
/// `str::split_whitespace` gives them.
pub uninterp spec fn fields_of(line: Seq<char>) -> Seq<Seq<char>>;

/// `str::split_whitespace`, collected: the parts of the line between runs
/// of white space.
#[verifier::external_body]
pub(crate) fn fields<'a>(line: &'a str) -> (fields: Vec<&'a str>)
    ensures
        fields@.len() == fields_of(line@).len(),
        forall|i: int| 0 <= i < fields@.len() ==> (#[trigger] fields@[i])@ == fields_of(line@)[i],
{
    line.split_whitespace().collect()
}

} // verus!
