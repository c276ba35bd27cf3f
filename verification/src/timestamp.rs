//! The point in time that a commit carries, and its text in a commit record:
//! seconds since the Unix epoch, a space, and the offset from UTC as a sign
//! followed by two digits of hours and two of minutes.

use crate::numeral::{decimal, push_decimal, push_signed_decimal, signed_decimal, DASH, PLUS};
use vstd::prelude::*;

verus! {

/// The ASCII space.
pub const SPACE: u8 = 32;

/// A fixed point in time together with the UTC offset it is shown in.
#[derive(Clone, Copy, Debug, PartialEq, Eq)]
pub struct Timestamp {
    /// Seconds since 1970-01-01T00:00:00Z.
    pub seconds: i64,
    /// Seconds east of UTC.
    pub utc_offset: i32,
}

/// The magnitude of a UTC offset, in whole minutes.
pub open spec fn offset_minutes(utc_offset: int) -> nat {
    if utc_offset < 0 {
        ((-utc_offset) / 60) as nat
    } else {
        (utc_offset / 60) as nat
    }
}

/// The sign byte of a UTC offset: `+` east of UTC, `-` at or west of it.
pub open spec fn offset_sign(utc_offset: int) -> u8 {
    if utc_offset > 0 {
        PLUS
    } else {
        DASH
    }
}

/// A UTC offset as sign, hours and minutes, e.g. `+0530`; the zero offset
/// reads `-0000`.
pub open spec fn offset_text(utc_offset: int) -> Seq<u8> {
    seq![offset_sign(utc_offset)] + decimal(offset_minutes(utc_offset) / 60, 2) + decimal(
        offset_minutes(utc_offset) % 60,
        2,
    )
}

impl Timestamp {
    /// The text of this timestamp in a commit record.
    pub open spec fn spec_render(self) -> Seq<u8> {
        signed_decimal(self.seconds as int) + seq![SPACE] + offset_text(self.utc_offset as int)
    }

    /// The time `seconds` after the epoch, shown `utc_offset` seconds east
    /// of UTC.
    pub fn new(seconds: i64, utc_offset: i32) -> (timestamp: Timestamp)
        ensures
            timestamp.seconds == seconds,
            timestamp.utc_offset == utc_offset,
    {
        Timestamp { seconds, utc_offset }
    }

    /// Renders the timestamp as it stands in the author and committer lines.
    pub fn render(&self) -> (text: Vec<u8>)
        ensures
            text@ == self.spec_render(),
    {
        let mut text: Vec<u8> = Vec::new();
        push_signed_decimal(&mut text, self.seconds);
        text.push(SPACE);
        let offset: i64 = self.utc_offset as i64;
        let magnitude: i64 = if offset < 0 {
            -offset
        } else {
            offset
        };
        let minutes: u64 = (magnitude / 60) as u64;
        text.push(
            if offset > 0 {
                PLUS
            } else {
                DASH
            },
        );
        push_decimal(&mut text, minutes / 60, 2);
        push_decimal(&mut text, minutes % 60, 2);
        assert(text@ =~= self.spec_render());
        text
    }
}

} // verus!
