//! Instants at which tasks are created and completed.

use vstd::prelude::*;
use crate::outside::{clock_text, current_seconds, local_offset, time_text_at};

verus! {

/// The first second, counted from 1970-01-01 00:00:00 UTC, of the calendar
/// that times are written in: midnight on 1 January of the year -262143.
pub const MIN_SECONDS: i64 = -8_334_601_228_800;

/// The last second of that calendar: 23:59:59 on 31 December of the year
/// 262142.
pub const MAX_SECONDS: i64 = 8_210_266_876_799;

/// Whether a count of seconds since the epoch names an instant of the
/// calendar.
pub open spec fn representable(secs: int) -> bool {
    MIN_SECONDS <= secs <= MAX_SECONDS
}

/// An instant in UTC, at the precision of one second.
///
/// Every value is an instant of the calendar: see [`representable`].
#[derive(Clone, Copy, Debug)]
pub struct Timestamp {
    secs: i64,
}

impl View for Timestamp {
    type V = int;

    /// Seconds since 1970-01-01 00:00:00 UTC.
    closed spec fn view(&self) -> int {
        self.secs as int
    }
}

impl Timestamp {
    #[verifier::type_invariant]
    spec fn in_range(self) -> bool {
        representable(self.secs as int)
    }

    /// The instant `secs` seconds after the epoch, if there is one.
    pub fn from_secs(secs: i64) -> (stamp: Option<Timestamp>)
        ensures
            stamp is Some <==> representable(secs as int),
            stamp matches Some(t) ==> t@ == secs,
    {
        if MIN_SECONDS <= secs && secs <= MAX_SECONDS {
            Some(Timestamp { secs })
        } else {
            None
        }
    }

    /// Seconds since the epoch.
    pub fn secs(&self) -> (secs: i64)
        ensures
            secs == self@,
            representable(secs as int),
    {
        proof {
            use_type_invariant(self);
        }
        self.secs
    }

    /// The current instant, read from the system clock.
    pub fn now() -> (stamp: Timestamp)
        ensures
            representable(stamp@),
    {
        Timestamp { secs: current_seconds() }
    }

    /// The instant as date and time of day on clocks that are `offset`
    /// seconds ahead of UTC, such as `2024-01-31 18:05:00`. There are such
    /// clocks for offsets of less than a day.
    pub fn text_at(&self, offset: i32) -> (text: Option<String>)
        ensures
            text is Some <==> valid_offset(offset as int),
            text matches Some(written) ==> written@ == clock_text(self@, offset as int)
                && is_time_text(written@),
    {
        proof {
            use_type_invariant(self);
        }
        time_text_at(self.secs, offset)
    }

    /// The instant as date and time of day in the time zone of the machine.
    /// How far that zone is ahead of UTC at the instant depends on the
    /// machine.
    pub(crate) fn local_text(&self) -> (text: String)
        ensures
            is_time_text(text@),
            exists|offset: int| valid_offset(offset) && text@ == #[trigger] clock_text(self@, offset),
    {
        proof {
            use_type_invariant(self);
        }
        let offset: i32 = match local_offset(self.secs) {
            Some(ahead) => ahead,
            None => {
                // Not reached: every timestamp is an instant of the calendar.
                assert(false);
                0
            },
        };
        match self.text_at(offset) {
            Some(text) => text,
            None => {
                // Not reached: the offset of a time zone is less than a day.
                assert(false);
                String::new()
            },
        }
    }
}

/// Whether clocks can be `offset` seconds ahead of UTC: by less than a day,
/// either way.
pub open spec fn valid_offset(offset: int) -> bool {
    -86_400 < offset < 86_400
}

/// Whether a character is a decimal digit.
pub open spec fn is_digit(c: char) -> bool {
    '0' <= c <= '9'
}

/// Whether a text is a year as a date spells it: four digits, or a sign and
/// four digits or more.
pub open spec fn is_year_text(text: Seq<char>) -> bool {
    ||| text.len() == 4 && forall|i: int| 0 <= i < 4 ==> is_digit(#[trigger] text[i])
    ||| {
        &&& text.len() >= 5
        &&& text[0] == '+' || text[0] == '-'
        &&& forall|i: int| 1 <= i < text.len() ==> is_digit(#[trigger] text[i])
    }
}

/// Whether a text is a date and a time of day in the layout
/// `2024-01-31 18:05:00`: a year, and behind it month, day, hour, minute and
/// second with two digits each.
pub open spec fn is_time_text(text: Seq<char>) -> bool {
    let n = text.len() as int;
    &&& n >= 19
    &&& is_year_text(text.subrange(0, n - 15))
    &&& text[n - 15] == '-'
    &&& is_digit(text[n - 14])
    &&& is_digit(text[n - 13])
    &&& text[n - 12] == '-'
    &&& is_digit(text[n - 11])
    &&& is_digit(text[n - 10])
    &&& text[n - 9] == ' '
    &&& is_digit(text[n - 8])
    &&& is_digit(text[n - 7])
    &&& text[n - 6] == ':'
    &&& is_digit(text[n - 5])
    &&& is_digit(text[n - 4])
    &&& text[n - 3] == ':'
    &&& is_digit(text[n - 2])
    &&& is_digit(text[n - 1])
}

} // verus!
