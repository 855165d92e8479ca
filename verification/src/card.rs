//! What the card of a device shows.

use vstd::prelude::*;
use vstd::string::StringSliceAdditionalSpecFns;
use vstd::utf8::{decode_utf8, encode_utf8_decode_utf8, is_char_boundary};
use crate::device::{BluetoothDevice, opt_string_view};
use crate::timeout::{Timeout, spec_duration_str_or_none};

verus! {

/// The longest name a card shows, in bytes.
pub const NAME_LIMIT: usize = 20;

/// Whether a name can be cut to `max` bytes as the card does: a name longer
/// than `max` bytes (`str::len`) is cut after `max - 1` bytes, which must end
/// a character.
pub open spec fn truncatable(name: &str, max: usize) -> bool {
    name.len() > max ==> max >= 1 && is_char_boundary(name.spec_bytes(), max - 1)
}

/// Whether a name can be cut to `max` bytes as the card does.
pub fn can_truncate(name: &str, max: usize) -> (r: bool)
    ensures
        r == truncatable(name, max),
{
    !(name.len() > max) || (max >= 1 && name.is_char_boundary(max - 1))
}

/// A name cut to fit: a name longer than `max` bytes keeps its first
/// `max - 1` bytes followed by an ellipsis.
pub open spec fn spec_truncated_name(name: &str, max: usize) -> Seq<char> {
    if name.len() > max {
        decode_utf8(name.spec_bytes().subrange(0, max - 1)) + seq!['…']
    } else {
        name@
    }
}

/// Cuts a name to fit a card.
pub fn truncated_name(name: &str, max: usize) -> (r: String)
    requires
        truncatable(name, max),
    ensures
        r@ == spec_truncated_name(name, max),
{
    if name.len() > max {
        let (head, _) = name.split_at(max - 1);
        proof {
            encode_utf8_decode_utf8(head@);
        }
        let mut r = head.to_owned();
        r.append("…");
        proof {
            reveal_strlit("…");
        }
        r
    } else {
        name.to_owned()
    }
}

/// The name a card shows for a device: its name, or `Unknown`.
pub open spec fn spec_display_name(device: BluetoothDevice) -> Seq<char> {
    match opt_string_view(device.name) {
        Some(n) => n,
        None => seq!['U', 'n', 'k', 'n', 'o', 'w', 'n'],
    }
}

/// The name a card shows for a device: its name, or `Unknown`.
pub fn display_name(device: &BluetoothDevice) -> (r: &str)
    ensures
        r@ == spec_display_name(*device),
{
    match &device.name {
        Some(n) => n.as_str(),
        None => {
            proof {
                reveal_strlit("Unknown");
            }
            "Unknown"
        },
    }
}

/// The line of a connected device's card that shows its timeout.
pub fn timeout_label(timeout: &Timeout) -> (r: String)
    ensures
        r@ == seq!['T', 'i', 'm', 'e', 'o', 'u', 't', ':', ' '] + spec_duration_str_or_none(*timeout),
{
    let mut r = String::from_str("Timeout: ");
    proof {
        reveal_strlit("Timeout: ");
    }
    let d = timeout.duration_str_or_none();
    r.append(d.as_str());
    r
}

} // verus!
