//! A calendar timestamp held as plain field values, with its rendering.

use crate::text::{append_pad2, append_year, pad2_spec, year_spec};
use vstd::prelude::*;
use vstd::string::*;

verus! {

/// A moment in UTC, as calendar and clock fields.
#[derive(Debug, Clone, Copy, PartialEq, Eq, Structural)]
pub struct Timestamp {
    pub year: i32,
    pub month: u32,
    pub day: u32,
    pub hour: u32,
    pub minute: u32,
    pub second: u32,
}

impl Timestamp {
    /// Field ranges of a calendar timestamp.
    pub open spec fn wf(&self) -> bool {
        &&& 1 <= self.month <= 12
        &&& 1 <= self.day <= 31
        &&& self.hour <= 23
        &&& self.minute <= 59
        &&& self.second <= 59
    }

    /// Builds a timestamp from its fields.
    pub fn new(year: i32, month: u32, day: u32, hour: u32, minute: u32, second: u32) -> (r:
        Timestamp)
        ensures
            r == (Timestamp { year, month, day, hour, minute, second }),
    {
        Timestamp { year, month, day, hour, minute, second }
    }

    /// The timestamp in `YYYY-MM-DDTHH:MM:SSZ` form.
    pub open spec fn render_spec(&self) -> Seq<char> {
        year_spec(self.year as int) + seq!['-'] + pad2_spec(self.month as nat) + seq!['-']
            + pad2_spec(self.day as nat) + seq!['T'] + pad2_spec(self.hour as nat) + seq![':']
            + pad2_spec(self.minute as nat) + seq![':'] + pad2_spec(self.second as nat) + seq!['Z']
    }

    /// Renders the timestamp as `YYYY-MM-DDTHH:MM:SSZ`.
    pub fn render(&self) -> (r: String)
        ensures
            r@ == self.render_spec(),
    {
        let mut s = String::new();
        append_year(&mut s, self.year);
        s.push('-');
        append_pad2(&mut s, self.month);
        s.push('-');
        append_pad2(&mut s, self.day);
        s.push('T');
        append_pad2(&mut s, self.hour);
        s.push(':');
        append_pad2(&mut s, self.minute);
        s.push(':');
        append_pad2(&mut s, self.second);
        s.push('Z');
        proof {
            assert(s@ =~= self.render_spec());
        }
        s
    }
}

} // verus!
