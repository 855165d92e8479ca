//! Bluetooth devices as the operating system reports them.

use vstd::prelude::*;
use crate::mac_address::MacAddress;
use crate::mac_address::string_from_chars;

verus! {

/// A time stamp in the layout of the Win32 `SYSTEMTIME` structure.
#[derive(Clone, Copy, Debug, PartialEq, Eq, Structural)]
pub struct SystemTime {
    pub year: u16,
    pub month: u16,
    pub day_of_week: u16,
    pub day: u16,
    pub hour: u16,
    pub minute: u16,
    pub second: u16,
    pub milliseconds: u16,
}

/// The time stamp the system reports for "never": midnight of 1 January 1601.
pub open spec fn system_epoch() -> SystemTime {
    SystemTime {
        year: 1601,
        month: 1,
        day_of_week: 1,
        day: 1,
        hour: 0,
        minute: 0,
        second: 0,
        milliseconds: 0,
    }
}

/// The time stamp the system reports for "never".
pub fn epoch() -> (r: SystemTime)
    ensures
        r == system_epoch(),
{
    SystemTime {
        year: 1601,
        month: 1,
        day_of_week: 1,
        day: 1,
        hour: 0,
        minute: 0,
        second: 0,
        milliseconds: 0,
    }
}

/// A date and time of day without a time zone.
#[derive(Clone, Copy, Debug, PartialEq, Eq, Structural)]
pub struct DateTime {
    pub year: i32,
    pub month: u32,
    pub day: u32,
    pub hour: u32,
    pub minute: u32,
    pub second: u32,
    pub millisecond: u32,
}

/// Leap years of the proleptic Gregorian calendar.
pub open spec fn is_leap_year(year: int) -> bool {
    year % 4 == 0 && (year % 100 != 0 || year % 400 == 0)
}

/// The number of days in a month (1 to 12) of a year.
pub open spec fn days_in_month(year: int, month: int) -> int {
    if month == 2 {
        if is_leap_year(year) {
            29
        } else {
            28
        }
    } else if month == 4 || month == 6 || month == 9 || month == 11 {
        30
    } else {
        31
    }
}

/// Whether the calendar date exists in the proleptic Gregorian calendar.
pub open spec fn valid_calendar_date(year: int, month: int, day: int) -> bool {
    1 <= month <= 12 && 1 <= day <= days_in_month(year, month)
}

/// Whether the time of day exists; a millisecond count of 1000 or more stands
/// for a leap second and is allowed only in the 59th second.
pub open spec fn valid_clock_time(hour: int, minute: int, second: int, milli: int) -> bool {
    hour < 24 && minute < 60 && second < 60 && (milli < 1000 || (second == 59 && milli < 2000))
}

/// Whether a time stamp names a real date and time of day.
pub open spec fn system_time_valid(st: SystemTime) -> bool {
    valid_calendar_date(st.year as int, st.month as int, st.day as int) && valid_clock_time(
        st.hour as int,
        st.minute as int,
        st.second as int,
        st.milliseconds as int,
    )
}

/// Whether `chrono::NaiveDate::from_ymd_opt` accepts the date. chrono accepts a
/// proleptic Gregorian date whose year lies within about 262000 years of year 0,
/// which every `u16` year does.
#[verifier::external_body]
fn calendar_date_exists(year: u16, month: u16, day: u16) -> (r: bool)
    ensures
        r == valid_calendar_date(year as int, month as int, day as int),
{
    chrono::NaiveDate::from_ymd_opt(year as i32, month as u32, day as u32).is_some()
}

/// Whether `chrono::NaiveTime::from_hms_milli_opt` accepts the time of day: hour
/// below 24, minute and second below 60, milliseconds below 1000, or below 2000
/// in the 59th second (a leap second).
#[verifier::external_body]
fn clock_time_exists(hour: u16, minute: u16, second: u16, milli: u16) -> (r: bool)
    ensures
        r == valid_clock_time(hour as int, minute as int, second as int, milli as int),
{
    chrono::NaiveTime::from_hms_milli_opt(hour as u32, minute as u32, second as u32, milli as u32).is_some()
}

/// Whether a time stamp can be turned into a date and time: the "never" stamp
/// or a stamp that names a real date and time of day.
pub fn system_time_convertible(st: SystemTime) -> (r: bool)
    ensures
        r == (st == system_epoch() || system_time_valid(st)),
{
    st == epoch() || (calendar_date_exists(st.year, st.month, st.day) && clock_time_exists(
        st.hour,
        st.minute,
        st.second,
        st.milliseconds,
    ))
}

/// The date and time a time stamp names, or `None` for the "never" stamp.
pub open spec fn spec_opt_date_time(st: SystemTime) -> Option<DateTime> {
    if st == system_epoch() {
        None
    } else {
        Some(
            DateTime {
                year: st.year as i32,
                month: st.month as u32,
                day: st.day as u32,
                hour: st.hour as u32,
                minute: st.minute as u32,
                second: st.second as u32,
                millisecond: st.milliseconds as u32,
            },
        )
    }
}

/// Converts a time stamp: `None` for the "never" stamp, else its date and time.
/// A stamp that names no real date or time is left out (the conversion cannot make one).
pub fn into_opt_naive_date(system_time: SystemTime) -> (r: Option<DateTime>)
    requires
        system_time == system_epoch() || system_time_valid(system_time),
    ensures
        r == spec_opt_date_time(system_time),
{
    if system_time == epoch() {
        None
    } else {
        Some(
            DateTime {
                year: system_time.year as i32,
                month: system_time.month as u32,
                day: system_time.day as u32,
                hour: system_time.hour as u32,
                minute: system_time.minute as u32,
                second: system_time.second as u32,
                millisecond: system_time.milliseconds as u32,
            },
        )
    }
}

/// A UTF-16 code unit that opens a surrogate pair.
pub open spec fn is_high_surrogate(u: u16) -> bool {
    0xD800 <= u && u < 0xDC00
}

/// A UTF-16 code unit that closes a surrogate pair.
pub open spec fn is_low_surrogate(u: u16) -> bool {
    0xDC00 <= u && u < 0xE000
}

/// UTF-16 decoded with each unpaired surrogate replaced by U+FFFD: a high
/// surrogate followed by a low one makes one character above U+FFFF, any
/// other surrogate unit becomes U+FFFD, and every other unit is its own character.
pub open spec fn utf16_lossy(units: Seq<u16>) -> Seq<char>
    decreases units.len(),
{
    if units.len() == 0 {
        Seq::empty()
    } else if units.len() >= 2 && is_high_surrogate(units[0]) && is_low_surrogate(units[1]) {
        seq![(0x10000 + (units[0] - 0xD800) * 0x400 + (units[1] - 0xDC00)) as char] + utf16_lossy(
            units.subrange(2, units.len() as int),
        )
    } else if is_high_surrogate(units[0]) || is_low_surrogate(units[0]) {
        seq!['\u{FFFD}'] + utf16_lossy(units.subrange(1, units.len() as int))
    } else {
        seq![units[0] as char] + utf16_lossy(units.subrange(1, units.len() as int))
    }
}

/// Decodes UTF-16 with `String::from_utf16_lossy`, which its documentation
/// describes as decoding and replacing invalid data (each unpaired surrogate)
/// with U+FFFD.
#[verifier::external_body]
fn decode_utf16_lossy(units: &Vec<u16>) -> (r: Vec<char>)
    ensures
        r@ == utf16_lossy(units@),
{
    String::from_utf16_lossy(units.as_slice()).chars().collect()
}

/// The characters with every trailing NUL character removed.
pub open spec fn trim_trailing_nuls(s: Seq<char>) -> Seq<char>
    decreases s.len(),
{
    if s.len() > 0 && s.last() == '\0' {
        trim_trailing_nuls(s.drop_last())
    } else {
        s
    }
}

/// The name a fixed-size UTF-16 name buffer holds: decoded, NUL padding
/// removed, and `None` where nothing is left.
pub open spec fn spec_device_name(units: Seq<u16>) -> Option<Seq<char>> {
    let name = trim_trailing_nuls(utf16_lossy(units));
    if name.len() == 0 {
        None
    } else {
        Some(name)
    }
}

/// The view of an optional string.
pub open spec fn opt_string_view(s: Option<String>) -> Option<Seq<char>> {
    match s {
        Some(s) => Some(s@),
        None => None,
    }
}

/// Reads a device name out of a NUL-padded UTF-16 buffer.
pub fn device_name(units: &Vec<u16>) -> (r: Option<String>)
    ensures
        opt_string_view(r) == spec_device_name(units@),
{
    let mut chars = decode_utf16_lossy(units);
    let ghost all = chars@;
    while chars.len() > 0 && chars[chars.len() - 1] == '\0'
        invariant
            trim_trailing_nuls(chars@) == trim_trailing_nuls(all),
        decreases chars.len(),
    {
        let ghost before = chars@;
        chars.pop();
        assert(chars@ =~= before.drop_last());
    }
    if chars.len() == 0 {
        None
    } else {
        Some(string_from_chars(&chars))
    }
}

/// What the system reports of one device, in the layout of `BLUETOOTH_DEVICE_INFO`.
#[derive(Clone, Debug)]
pub struct RawDeviceInfo {
    pub address: MacAddress,
    pub class_of_device: u32,
    pub connected: bool,
    pub remembered: bool,
    pub authenticated: bool,
    pub last_seen: SystemTime,
    pub last_used: SystemTime,
    pub name: Vec<u16>,
}

impl RawDeviceInfo {
    /// Whether both time stamps can be converted.
    pub open spec fn times_valid(&self) -> bool {
        &&& (self.last_seen == system_epoch() || system_time_valid(self.last_seen))
        &&& (self.last_used == system_epoch() || system_time_valid(self.last_used))
    }

    /// Whether both time stamps can be converted.
    pub fn times_convertible(&self) -> (r: bool)
        ensures
            r == self.times_valid(),
    {
        system_time_convertible(self.last_seen) && system_time_convertible(self.last_used)
    }
}

/// A Bluetooth device.
#[derive(Clone, Debug)]
pub struct BluetoothDevice {
    pub mac_address: MacAddress,
    pub name: Option<String>,
    pub class: u32,
    pub connected: bool,
    pub remembered: bool,
    pub authenticated: bool,
    pub last_seen: Option<DateTime>,
    pub last_used: Option<DateTime>,
}

/// The device a system report describes.
pub open spec fn spec_device_from_info(info: RawDeviceInfo, d: BluetoothDevice) -> bool {
    &&& d.mac_address == info.address
    &&& opt_string_view(d.name) == spec_device_name(info.name@)
    &&& d.class == info.class_of_device
    &&& d.connected == info.connected
    &&& d.remembered == info.remembered
    &&& d.authenticated == info.authenticated
    &&& d.last_seen == spec_opt_date_time(info.last_seen)
    &&& d.last_used == spec_opt_date_time(info.last_used)
}

/// A device built from a report keeps the address, class and each flag the
/// system reported, each on its own: connected, remembered and authenticated
/// are never derived from one another.
pub proof fn lemma_device_keeps_reported_flags(info: RawDeviceInfo, d: BluetoothDevice)
    requires
        spec_device_from_info(info, d),
    ensures
        d.mac_address == info.address,
        d.class == info.class_of_device,
        d.connected == info.connected,
        d.remembered == info.remembered,
        d.authenticated == info.authenticated,
{
}

/// Builds the device a system report describes.
pub fn device_from_info(info: &RawDeviceInfo) -> (d: BluetoothDevice)
    requires
        info.times_valid(),
    ensures
        spec_device_from_info(*info, d),
        d.mac_address == info.address,
        d.class == info.class_of_device,
        d.connected == info.connected,
        d.remembered == info.remembered,
        d.authenticated == info.authenticated,
{
    BluetoothDevice {
        mac_address: info.address,
        name: device_name(&info.name),
        class: info.class_of_device,
        connected: info.connected,
        remembered: info.remembered,
        authenticated: info.authenticated,
        last_seen: into_opt_naive_date(info.last_seen),
        last_used: into_opt_naive_date(info.last_used),
    }
}

} // verus!
