//! The timeout attached to a connected device.

use vstd::prelude::*;
use crate::duration_text::{format_whole_seconds, formatted_duration, parsed_duration};
use crate::mac_address::MacAddress;
use crate::time_span::TimeSpan;

verus! {

/// How long a device may stay connected, and whether to remove it on exit.
#[derive(Clone, Copy, Debug)]
pub struct Timeout {
    pub mac_address: MacAddress,
    /// The time left before the device is removed; `None` for no limit.
    pub duration: Option<TimeSpan>,
    /// Whether the device is removed when the application closes.
    pub remove_on_close: bool,
}

/// The timeout a newly seen connected device gets: no limit, removed on close.
pub open spec fn default_timeout(mac_address: MacAddress) -> Timeout {
    Timeout { mac_address, duration: None, remove_on_close: true }
}

/// The text shown for a timeout's duration, counted in whole seconds.
pub open spec fn spec_duration_str(t: Timeout) -> Option<Seq<char>> {
    match t.duration {
        Some(d) => Some(formatted_duration(d.secs)),
        None => None,
    }
}

/// The text shown for a timeout's duration, or `None` where it has no limit.
pub open spec fn spec_duration_str_or_none(t: Timeout) -> Seq<char> {
    match t.duration {
        Some(d) => formatted_duration(d.secs),
        None => seq!['N', 'o', 'n', 'e'],
    }
}

impl Timeout {
    /// Well-formedness: the remaining time is a well-formed span.
    pub open spec fn wf(self) -> bool {
        self.duration matches Some(d) ==> d.wf()
    }

    /// The timeout a newly seen connected device gets.
    pub fn default_from(mac_address: MacAddress) -> (r: Timeout)
        ensures
            r == default_timeout(mac_address),
            r.wf(),
    {
        Timeout { mac_address, duration: None, remove_on_close: true }
    }

    /// The remaining time in human-readable form, sub-second part dropped.
    pub fn duration_str(&self) -> (r: Option<String>)
        ensures
            r matches Some(s) ==> spec_duration_str(*self) == Some(s@),
            r matches Some(s) ==> (self.duration matches Some(d) && parsed_duration(s@) == Some(
                (d.secs, 0u32),
            )),
            r is None ==> spec_duration_str(*self) is None,
    {
        match self.duration {
            Some(d) => Some(format_whole_seconds(d.whole_seconds().secs)),
            None => None,
        }
    }

    /// The remaining time in human-readable form, or `None` as text.
    pub fn duration_str_or_none(&self) -> (r: String)
        ensures
            r@ == spec_duration_str_or_none(*self),
    {
        match self.duration_str() {
            Some(s) => s,
            None => {
                let r = String::from_str("None");
                proof {
                    reveal_strlit("None");
                }
                r
            },
        }
    }

    /// Drops the time limit.
    pub fn clear_duration(&mut self)
        ensures
            *final(self) == (Timeout { duration: None, ..*old(self) }),
    {
        self.duration = None;
    }
}

} // verus!
