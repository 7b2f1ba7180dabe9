//! Reading the wall clock. What time it shows cannot be known here; what is
//! known is the shape of the text in which it comes back, and the functions
//! that use the text are verified for every text of that shape.

use vstd::prelude::*;

verus! {

/// The pattern of the timestamp in an archive's name: year, month, day,
/// hour, minute and second, in an order that sorts by age.
pub open spec fn archive_stamp_pattern() -> Seq<char> {
    "%Y-%m-%d_%H-%M-%S"@
}

/// The pattern of [`archive_stamp_pattern`] as a string.
pub fn archive_pattern() -> (r: &'static str)
    ensures
        r@ == archive_stamp_pattern(),
{
    "%Y-%m-%d_%H-%M-%S"
}

/// Whether a character is a decimal digit.
pub open spec fn is_digit(c: char) -> bool {
    '0' <= c && c <= '9'
}

/// Whether a text can be the stamp in an archive's name: six numbers with
/// `-` and `_` between them. The year has four digits, or a sign and more;
/// each other number has two. So a stamp has at least 19 characters, each a
/// digit, `-`, `_` or `+`.
pub open spec fn is_archive_stamp(text: Seq<char>) -> bool {
    &&& text.len() >= 19
    &&& forall|i: int|
        0 <= i < text.len() ==> {
            let c = #[trigger] text[i];
            is_digit(c) || c == '-' || c == '_' || c == '+'
        }
}

/// Whether a text can be the timestamp of a line: a date, a time of day with
/// or without a fraction of the second, and the word `UTC`. Each character
/// is a digit, `-`, `:`, `.`, a space, `+` or a letter of `UTC`, and the
/// text ends in a space and `UTC`.
pub open spec fn is_timestamp(text: Seq<char>) -> bool {
    &&& seq![' ', 'U', 'T', 'C'].is_suffix_of(text)
    &&& forall|i: int|
        0 <= i < text.len() ==> {
            let c = #[trigger] text[i];
            is_digit(c) || c == '-' || c == ':' || c == '.' || c == ' ' || c == '+' || c == 'U'
                || c == 'T' || c == 'C'
        }
}

/// A stamp holds no `/`: put behind a path it names a file of the same
/// directory.
pub proof fn lemma_stamp_holds_no_slash(stamp: Seq<char>)
    requires
        is_archive_stamp(stamp),
    ensures
        !stamp.contains('/'),
{
}

/// Reads the clock with `SystemTime::now`, turns the instant into chrono's
/// `DateTime<Utc>` with its `From<SystemTime>`, and renders it with the
/// `Display` form of `DateTime<Utc>`.
///
/// The conversion takes a clock on either side of the year 1970. It fails
/// only beyond the years that chrono can hold, some 262,000 on either side
/// of the year 0, where no system clock stands. The form is the date as
/// year, month and day with `-` between them, a space, the time of day with
/// `:` between its parts and a fraction of the second where there is one, a
/// space, and `UTC`; a year outside 0 to 9999 carries its sign.
#[verifier::external_body]
pub(crate) fn utc_now_text() -> (text: String)
    ensures
        is_timestamp(text@),
{
    chrono::DateTime::<chrono::Utc>::from(std::time::SystemTime::now()).to_string()
}

/// Reads the clock with `SystemTime::now`, turns the instant into chrono's
/// `DateTime<Utc>` with its `From<SystemTime>`, and renders it with
/// `DateTime::format`, by the pattern given.
///
/// The conversion takes a clock on either side of the year 1970. It fails
/// only beyond the years that chrono can hold, some 262,000 on either side
/// of the year 0, where no system clock stands. The pattern is held to the
/// one that archives are named by: `format` fails on a pattern that it
/// cannot read. Of that pattern it writes the year in four digits, or with
/// a sign and more, every other field in two digits, and copies the `-` and
/// `_` between them.
#[verifier::external_body]
pub(crate) fn utc_now_formatted(pattern: &str) -> (text: String)
    requires
        pattern@ == archive_stamp_pattern(),
    ensures
        is_archive_stamp(text@),
{
    chrono::DateTime::<chrono::Utc>::from(std::time::SystemTime::now()).format(pattern).to_string()
}

} // verus!
