//! The calls this crate makes into other crates. Each function here is
//! believed, not proved: its body is not read by the verifier.

use vstd::prelude::*;
use crate::time::{is_time_text, representable, valid_offset};

verus! {

/// `chrono::Utc::now().timestamp()`: the system clock, in whole seconds since
/// the epoch. Which second comes back is not stated; only that it is one that
/// a `DateTime<Utc>` holds, since it was read out of one. `Utc::now` panics on
/// a machine whose clock stands before 1970.
#[verifier::external_body]
pub(crate) fn current_seconds() -> (secs: i64)
    ensures
        representable(secs as int),
{
    chrono::Utc::now().timestamp()
}

/// `chrono::DateTime::from_timestamp(secs, 0)`, moved to the machine's time
/// zone with `with_timezone(&Local)`, and of that `offset().local_minus_utc()`:
/// how many seconds the clocks of the machine's time zone are ahead of UTC at
/// that instant. `from_timestamp` gives a value exactly for the seconds from
/// the first of the year -262143 to the last of the year 262142, which
/// `representable` spells out in seconds. Which offset comes back depends on
/// the time zone of the machine; a `FixedOffset` is always less than a day.
/// `with_timezone` panics on a machine whose time zone data puts local time a
/// day or more from UTC.
#[verifier::external_body]
pub(crate) fn local_offset(secs: i64) -> (offset: Option<i32>)
    ensures
        offset is Some <==> representable(secs as int),
        offset matches Some(ahead) ==> valid_offset(ahead as int),
{
    let instant = chrono::DateTime::from_timestamp(secs, 0)?;
    Some(instant.with_timezone(&chrono::Local).offset().local_minus_utc())
}

/// The date and time of day that clocks show at an instant, `secs` seconds
/// after the epoch, where they are `offset` seconds ahead of UTC, as `chrono`
/// writes them with the format `%F %H:%M:%S`.
pub uninterp spec fn clock_text(secs: int, offset: int) -> Seq<char>;

/// `chrono::FixedOffset::east_opt(offset)` and
/// `chrono::DateTime::from_timestamp(secs, 0)`, the one moved to the other
/// with `with_timezone` and written with `format("%F %H:%M:%S")`. `east_opt`
/// gives a value exactly for the offsets of less than a day, `from_timestamp`
/// exactly for the seconds that `representable` admits. The text is a
/// function of the second and the offset. Its layout is that of the format:
/// `%F` is the year with four digits, or with a sign and four digits or more
/// outside the years 0 to 9999, then month and day with two digits each
/// behind a hyphen; `%H`, `%M` and `%S` have two digits each.
#[verifier::external_body]
pub(crate) fn time_text_at(secs: i64, offset: i32) -> (text: Option<String>)
    ensures
        text is Some <==> (representable(secs as int) && valid_offset(offset as int)),
        text matches Some(written) ==> written@ == clock_text(secs as int, offset as int),
        text matches Some(written) ==> is_time_text(written@),
{
    let zone = chrono::FixedOffset::east_opt(offset)?;
    let instant = chrono::DateTime::from_timestamp(secs, 0)?;
    Some(instant.with_timezone(&zone).format("%F %H:%M:%S").to_string())
}

/// The number of terminal columns that a text takes up, as
/// `unicode_width::UnicodeWidthStr::width` counts them: wide characters count
/// twice, combining ones not at all, by the tables of that crate.
pub uninterp spec fn display_width(text: Seq<char>) -> nat;

/// `unicode_width::UnicodeWidthStr::width`. The result is a function of the
/// characters alone.
#[verifier::external_body]
pub(crate) fn text_width(text: &str) -> (width: usize)
    ensures
        width as nat == display_width(text@),
{
    unicode_width::UnicodeWidthStr::width(text)
}

/// `std::path::PathBuf`, carried through as it is: nothing here looks inside.
#[verifier::external_type_specification]
#[verifier::external_body]
pub struct ExPathBuf(std::path::PathBuf);

/// `dirs::home_dir`: the home directory of the user, as the environment and
/// the system's user records give it. Nothing is stated of the result.
#[verifier::external_body]
pub(crate) fn home_dir() -> Option<std::path::PathBuf> {
    dirs::home_dir()
}

/// The bytes that spell a path.
pub uninterp spec fn path_bytes(path: std::path::PathBuf) -> Seq<u8>;

/// The bytes that spell a path after `PathBuf::push` has extended it by a
/// name, by the path syntax of the platform that the crate is built for.
pub uninterp spec fn joined(path: Seq<u8>, name: Seq<char>) -> Seq<u8>;

/// `PathBuf::push` with a file name: the path is extended by that name. How
/// the extended path is spelled is a matter of the path it was and of the
/// name, and of nothing else.
#[verifier::external_body]
pub(crate) fn push_name(path: &mut std::path::PathBuf, name: &str)
    ensures
        path_bytes(*final(path)) == joined(path_bytes(*old(path)), name@),
{
    path.push(name)
}

/// `String::push` appends one character.
pub assume_specification[ String::push ](s: &mut String, ch: char)
    ensures
        final(s)@ == old(s)@.push(ch),
;

} // verus!
