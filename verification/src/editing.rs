//! Editing the timeout of one device through a text field.

use vstd::prelude::*;
use crate::duration_text::{
    duration_text_in_range, format_whole_seconds, formatted_duration, is_duration_text_in_range,
    parse_duration_text, parsed_duration,
};
use crate::mac_address::MacAddress;
use crate::time_span::TimeSpan;
use crate::timeout::Timeout;

verus! {

/// The state of the timeout editor of one device.
#[derive(Debug)]
pub struct TimeoutEditing {
    pub mac_address: MacAddress,
    pub text_edit_buffer: String,
    pub buffer_prev_had_focus: bool,
}

/// The duration the editor leaves in the timeout after a frame: the text it
/// held is read when the field has just lost focus, is within range (the
/// seconds it can add up to stay below `u64::MAX`) and reads as a duration.
pub open spec fn committed_duration(
    buffer: Seq<char>,
    prev_had_focus: bool,
    edit_has_focus: bool,
    current: Option<TimeSpan>,
) -> Option<TimeSpan> {
    if prev_had_focus && !edit_has_focus && duration_text_in_range(buffer) {
        match parsed_duration(buffer) {
            Some(p) => Some(TimeSpan { secs: p.0, nanos: p.1 }),
            None => current,
        }
    } else {
        current
    }
}

/// The typed text changes the timeout only in the frame in which the field
/// loses focus; in any other frame the duration stays as it was.
pub proof fn lemma_commit_only_on_focus_loss(
    buffer: Seq<char>,
    prev_had_focus: bool,
    edit_has_focus: bool,
    current: Option<TimeSpan>,
)
    requires
        !(prev_had_focus && !edit_has_focus),
    ensures
        committed_duration(buffer, prev_had_focus, edit_has_focus, current) == current,
{
}

/// The text an unfocused field shows for a duration.
pub open spec fn shown_text(duration: Option<TimeSpan>) -> Seq<char> {
    match duration {
        Some(d) => formatted_duration(d.secs),
        None => Seq::empty(),
    }
}

/// An empty string with room for `capacity` bytes (`String::with_capacity`).
#[verifier::external_body]
fn string_with_capacity(capacity: usize) -> (r: String)
    ensures
        r@ == Seq::<char>::empty(),
{
    String::with_capacity(capacity)
}

impl TimeoutEditing {
    /// A fresh editor for the device with the given address.
    pub fn new_of(mac_address: MacAddress) -> (r: TimeoutEditing)
        ensures
            r.mac_address == mac_address,
            r.text_edit_buffer@ == Seq::<char>::empty(),
            !r.buffer_prev_had_focus,
    {
        TimeoutEditing {
            mac_address,
            text_edit_buffer: string_with_capacity(16),
            buffer_prev_had_focus: false,
        }
    }

    /// The end of one frame of the editor, once its text field has been drawn:
    /// the text is committed when the field loses focus, an unfocused field is
    /// reset to show the timeout, and a click marks the field as focused.
    pub fn finish_frame(&mut self, timeout: &mut Timeout, edit_has_focus: bool, clicked: bool)
        requires
            old(timeout).wf(),
        ensures
            final(timeout).wf(),
            final(timeout).mac_address == old(timeout).mac_address,
            final(timeout).remove_on_close == old(timeout).remove_on_close,
            !(old(self).buffer_prev_had_focus && !edit_has_focus) ==> final(timeout).duration
                == old(timeout).duration,
            final(timeout).duration == committed_duration(
                old(self).text_edit_buffer@,
                old(self).buffer_prev_had_focus,
                edit_has_focus,
                old(timeout).duration,
            ),
            final(self).mac_address == old(self).mac_address,
            final(self).text_edit_buffer@ == if edit_has_focus {
                old(self).text_edit_buffer@
            } else {
                shown_text(final(timeout).duration)
            },
            !edit_has_focus ==> (final(timeout).duration matches Some(d) ==> parsed_duration(
                final(self).text_edit_buffer@,
            ) == Some((d.secs, 0u32))),
            final(self).buffer_prev_had_focus == (clicked || (edit_has_focus
                && old(self).buffer_prev_had_focus)),
    {
        if self.buffer_prev_had_focus && !edit_has_focus {
            if is_duration_text_in_range(self.text_edit_buffer.as_str()) {
                if let Some(duration) = parse_duration_text(self.text_edit_buffer.as_str()) {
                    timeout.duration = Some(duration);
                }
            }
        }
        if !edit_has_focus {
            self.text_edit_buffer = match timeout.duration {
                Some(d) => format_whole_seconds(d.whole_seconds().secs),
                None => String::new(),
            };
            self.buffer_prev_had_focus = false;
        }
        if clicked {
            self.buffer_prev_had_focus = true;
        }
    }
}

} // verus!
