//! How a log record is shown as a notification.

use vstd::prelude::*;
use crate::logging::LogLevel;

verus! {

/// The colour of a notification's frame and title.
#[derive(Clone, Copy, Debug, PartialEq, Eq, Structural)]
pub enum NotificationColor {
    LightBlue,
    Orange,
    Red,
    Green,
    LightGray,
}

/// The colour that marks a level.
pub open spec fn spec_level_color(level: LogLevel) -> NotificationColor {
    match level {
        LogLevel::Debug => NotificationColor::LightBlue,
        LogLevel::Warn => NotificationColor::Orange,
        LogLevel::Error => NotificationColor::Red,
        LogLevel::Info => NotificationColor::Green,
        LogLevel::Trace => NotificationColor::LightGray,
    }
}

/// The name a level prints as.
pub open spec fn level_name(level: LogLevel) -> Seq<char> {
    match level {
        LogLevel::Trace => seq!['T', 'R', 'A', 'C', 'E'],
        LogLevel::Debug => seq!['D', 'E', 'B', 'U', 'G'],
        LogLevel::Info => seq!['I', 'N', 'F', 'O'],
        LogLevel::Warn => seq!['W', 'A', 'R', 'N'],
        LogLevel::Error => seq!['E', 'R', 'R', 'O', 'R'],
    }
}

/// The colour that marks a level.
pub fn level_color(level: LogLevel) -> (r: NotificationColor)
    ensures
        r == spec_level_color(level),
{
    match level {
        LogLevel::Debug => NotificationColor::LightBlue,
        LogLevel::Warn => NotificationColor::Orange,
        LogLevel::Error => NotificationColor::Red,
        LogLevel::Info => NotificationColor::Green,
        LogLevel::Trace => NotificationColor::LightGray,
    }
}

/// The title of a notification: the level's name, left-aligned and padded
/// with spaces to eight characters.
pub fn level_label(level: LogLevel) -> (r: String)
    ensures
        r@.len() == 8,
        r@.subrange(0, level_name(level).len() as int) == level_name(level),
        forall|i: int| level_name(level).len() <= i < 8 ==> r@[i] == ' ',
{
    match level {
        LogLevel::Trace => {
            let r = String::from_str("TRACE   ");
            proof {
                reveal_strlit("TRACE   ");
            }
            assert(r@.subrange(0, 5) =~= level_name(level));
            r
        },
        LogLevel::Debug => {
            let r = String::from_str("DEBUG   ");
            proof {
                reveal_strlit("DEBUG   ");
            }
            assert(r@.subrange(0, 5) =~= level_name(level));
            r
        },
        LogLevel::Info => {
            let r = String::from_str("INFO    ");
            proof {
                reveal_strlit("INFO    ");
            }
            assert(r@.subrange(0, 4) =~= level_name(level));
            r
        },
        LogLevel::Warn => {
            let r = String::from_str("WARN    ");
            proof {
                reveal_strlit("WARN    ");
            }
            assert(r@.subrange(0, 4) =~= level_name(level));
            r
        },
        LogLevel::Error => {
            let r = String::from_str("ERROR   ");
            proof {
                reveal_strlit("ERROR   ");
            }
            assert(r@.subrange(0, 5) =~= level_name(level));
            r
        },
    }
}

} // verus!
