//! Log records shown to the user, and how their message is collected.

use vstd::prelude::*;

verus! {

/// The severity of a log record (the levels of the `tracing` crate).
#[derive(Clone, Copy, Debug, PartialEq, Eq, Structural)]
pub enum LogLevel {
    Trace,
    Debug,
    Info,
    Warn,
    Error,
}

/// A log record: its level and its message.
#[derive(Clone, Debug)]
pub struct Log {
    pub level: LogLevel,
    pub message: String,
}

/// The character with ASCII upper-case letters turned to lower case.
pub open spec fn ascii_lower(c: char) -> char {
    if 'A' <= c && c <= 'Z' {
        ((c as int) + 32) as char
    } else {
        c
    }
}

/// The name of the field that carries a record's message.
pub open spec fn message_field_name() -> Seq<char> {
    seq!['m', 'e', 's', 's', 'a', 'g', 'e']
}

/// Whether a field name is `message`, ignoring ASCII case.
pub open spec fn is_message_field(name: Seq<char>) -> bool {
    name.len() == 7 && forall|i: int| 0 <= i < 7 ==> ascii_lower(#[trigger] name[i]) == message_field_name()[i]
}

fn lower(c: char) -> (r: char)
    ensures
        r == ascii_lower(c),
{
    if 'A' <= c && c <= 'Z' {
        let u: u8 = (c as u8) + 32;
        u as char
    } else {
        c
    }
}

/// Whether a field name is `message`, ignoring ASCII case.
pub fn message_field(name: &str) -> (r: bool)
    ensures
        r == is_message_field(name@),
{
    if name.unicode_len() != 7 {
        return false;
    }
    let expected: [char; 7] = ['m', 'e', 's', 's', 'a', 'g', 'e'];
    assert(expected@ =~= message_field_name());
    let mut i: usize = 0;
    while i < 7
        invariant
            0 <= i <= 7,
            name@.len() == 7,
            expected@ == message_field_name(),
            forall|j: int| 0 <= j < i ==> ascii_lower(#[trigger] name@[j]) == message_field_name()[j],
        decreases 7 - i,
    {
        if lower(name.get_char(i)) != expected[i] {
            return false;
        }
        i = i + 1;
    }
    true
}

/// Collects one field of an event into the message being built: the
/// field's printed value is appended where the field is the message.
pub fn record_message_field(message: &mut String, field_name: &str, value_text: &str)
    ensures
        final(message)@ == if is_message_field(field_name@) {
            old(message)@ + value_text@
        } else {
            old(message)@
        },
{
    if message_field(field_name) {
        message.append(value_text);
    }
}

} // verus!
