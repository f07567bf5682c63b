//! Simple utility functions: parsing an "hh:mm" time-of-day string.

use vstd::prelude::*;

use crate::strutil::{parse_u32_dec, spec_parse_u32, spec_split, split_char};

verus! {

/// A wall-clock time of day.
#[derive(Debug, PartialEq, Eq, Structural, Clone, Copy)]
pub struct TimeOfDay {
    pub hh: u32,
    pub mm: u32,
}

impl TimeOfDay {
    /// A valid time of day: an hour below 24, a minute below 60.
    pub open spec fn wf(self) -> bool {
        self.hh < 24 && self.mm < 60
    }

    /// Seconds since midnight.
    pub open spec fn spec_seconds(self) -> int {
        self.hh * 3600 + self.mm * 60
    }

    /// Seconds since midnight.
    pub fn seconds(&self) -> (r: u32)
        requires
            self.wf(),
        ensures
            r == self.spec_seconds(),
    {
        self.hh * 3600 + self.mm * 60
    }
}

/// The view of an optional string.
pub open spec fn view_opt_str(o: Option<String>) -> Option<Seq<char>> {
    match o {
        Some(s) => Some(s@),
        None => None,
    }
}

/// What parsing an "hh:mm" string yields.  The text left of the first colon
/// must be a decimal hour, else there is no result at all; the text between
/// the first and second colon is the minute, defaulting to 0 when absent or
/// not decimal; an hour of 24 or more or a minute of 60 or more yields no
/// result.
pub open spec fn spec_parse_hm(time_str: Option<Seq<char>>) -> Option<TimeOfDay> {
    match time_str {
        None => None,
        Some(s) => {
            let parts = spec_split(s, ':');
            match spec_parse_u32(parts[0]) {
                None => None,
                Some(hh) => {
                    let mm = if parts.len() < 2 {
                        0u32
                    } else {
                        match spec_parse_u32(parts[1]) {
                            Some(m) => m,
                            None => 0u32,
                        }
                    };
                    if hh < 24 && mm < 60 {
                        Some(TimeOfDay { hh, mm })
                    } else {
                        None
                    }
                },
            }
        },
    }
}

/// Parse a string with the expected format "hh:mm" and return the time of
/// day it names for the current day.
///
/// If the minute part is not parsable the time is set at `hh:00`; if the
/// hour is not parsable, or the time named does not exist, there is no
/// result.
pub fn parse_from_hmstr(time_str: &Option<String>) -> (r: Option<TimeOfDay>)
    ensures
        r == spec_parse_hm(view_opt_str(*time_str)),
        r matches Some(t) ==> t.wf(),
{
    let s = match time_str {
        Some(s) => s,
        None => {
            return None;
        },
    };
    let parts = split_char(s.as_str(), ':');
    let ghost sparts = spec_split(s@, ':');
    assert(parts.deep_view() == sparts);
    assert(parts@.len() == sparts.len());
    assert(parts@.len() >= 1);
    assert(parts.deep_view()[0] == parts@[0]@);
    let hh = match parse_u32_dec(parts[0].as_str()) {
        Some(h) => h,
        None => {
            return None;
        },
    };
    let mm: u32 = if parts.len() < 2 {
        0
    } else {
        assert(parts.deep_view()[1] == parts@[1]@);
        match parse_u32_dec(parts[1].as_str()) {
            Some(m) => m,
            None => 0,
        }
    };
    if hh < 24 && mm < 60 {
        Some(TimeOfDay { hh, mm })
    } else {
        None
    }
}

} // verus!
