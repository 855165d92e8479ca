use bluetooth_timeout::app::BluetoothApp;
use bluetooth_timeout::duration_text::is_duration_text_in_range;
use bluetooth_timeout::device::BluetoothDevice;
use bluetooth_timeout::editing::TimeoutEditing;
use bluetooth_timeout::mac_address::MacAddress;
use bluetooth_timeout::time_span::TimeSpan;
use bluetooth_timeout::timeout::Timeout;

fn mac(last: u8) -> MacAddress {
    MacAddress::from([0x00, 0x11, 0x22, 0x33, 0x44, last])
}

fn device(last: u8, connected: bool) -> BluetoothDevice {
    BluetoothDevice {
        mac_address: mac(last),
        name: Some(format!("dev{last}")),
        class: 0,
        connected,
        remembered: true,
        authenticated: true,
        last_seen: None,
        last_used: None,
    }
}

fn secs(s: u64) -> TimeSpan {
    TimeSpan::from_secs(s)
}

#[test]
fn checked_sub_borrows_a_second() {
    let a = TimeSpan { secs: 5, nanos: 100 };
    let b = TimeSpan { secs: 2, nanos: 200 };
    assert_eq!(a.checked_sub(b), Some(TimeSpan { secs: 2, nanos: 999_999_900 }));
    assert_eq!(b.checked_sub(a), None);
    assert_eq!(a.checked_sub(a), Some(TimeSpan::zero()));
}

#[test]
fn default_timeout_has_no_limit_and_removes_on_close() {
    let t = Timeout::default_from(mac(1));
    assert_eq!(t.duration, None);
    assert!(t.remove_on_close);
    assert_eq!(t.duration_str(), None);
    assert_eq!(t.duration_str_or_none(), "None");
}

#[test]
fn duration_text_drops_sub_seconds() {
    let t = Timeout { mac_address: mac(1), duration: Some(TimeSpan { secs: 9420, nanos: 5 }), remove_on_close: true };
    assert_eq!(t.duration_str(), Some("2h 37m".to_string()));
    assert_eq!(t.duration_str_or_none(), "2h 37m");
    let zero = Timeout { mac_address: mac(1), duration: Some(TimeSpan { secs: 0, nanos: 7 }), remove_on_close: true };
    assert_eq!(zero.duration_str_or_none(), "0s");
}

#[test]
fn process_timeout_counts_down_and_removes_expired() {
    let mut app = BluetoothApp::new_now();
    app.devices = vec![device(1, true), device(2, true), device(3, false)];
    app.timeouts = vec![
        Timeout { mac_address: mac(1), duration: Some(secs(10)), remove_on_close: true },
        Timeout { mac_address: mac(2), duration: Some(secs(3)), remove_on_close: false },
        Timeout { mac_address: mac(3), duration: Some(secs(1)), remove_on_close: true },
        Timeout { mac_address: mac(4), duration: None, remove_on_close: true },
    ];
    let removed = app.process_timeout(secs(4));
    // expired: mac 2 (3s < 4s) and mac 3 (1s < 4s), in order
    assert_eq!(removed, vec![mac(2), mac(3)]);
    // kept: only connected devices 1 and 2
    assert_eq!(app.timeouts.len(), 2);
    assert_eq!(app.timeouts[0].mac_address, mac(1));
    assert_eq!(app.timeouts[0].duration, Some(secs(6)));
    assert_eq!(app.timeouts[1].mac_address, mac(2));
    assert_eq!(app.timeouts[1].duration, Some(TimeSpan::zero()));
    assert!(!app.timeouts[1].remove_on_close);
}

#[test]
fn process_timeout_adds_default_for_new_connections() {
    let mut app = BluetoothApp::new_now();
    app.devices = vec![device(1, true), device(2, false), device(5, true), device(5, true)];
    let removed = app.process_timeout(secs(1));
    assert!(removed.is_empty());
    assert_eq!(app.timeouts.len(), 2);
    assert_eq!(app.timeouts[0].mac_address, mac(1));
    assert_eq!(app.timeouts[1].mac_address, mac(5));
    assert_eq!(app.timeouts[1].duration, None);
    assert!(app.timeouts[1].remove_on_close);
}

#[test]
fn timeout_exactly_used_up_is_not_expired() {
    let mut app = BluetoothApp::new_now();
    app.devices = vec![device(1, true)];
    app.timeouts = vec![Timeout { mac_address: mac(1), duration: Some(secs(4)), remove_on_close: true }];
    let removed = app.process_timeout(secs(4));
    assert!(removed.is_empty());
    assert_eq!(app.timeouts[0].duration, Some(TimeSpan::zero()));
    // a zero timeout expires on the next non-empty update
    let removed = app.process_timeout(TimeSpan { secs: 0, nanos: 1 });
    assert_eq!(removed, vec![mac(1)]);
}

#[test]
fn on_exit_removes_devices_marked_for_it() {
    let mut app = BluetoothApp::new_now();
    app.timeouts = vec![
        Timeout { mac_address: mac(1), duration: None, remove_on_close: true },
        Timeout { mac_address: mac(2), duration: None, remove_on_close: false },
        Timeout { mac_address: mac(3), duration: Some(secs(2)), remove_on_close: true },
    ];
    assert_eq!(app.on_exit(), vec![mac(1), mac(3)]);
    assert!(app.timeouts.is_empty());
}

#[test]
fn newly_connected_device_is_removed_on_exit() {
    let mut app = BluetoothApp::new_now();
    app.devices = vec![device(9, true)];
    app.process_timeout(secs(1));
    assert_eq!(app.on_exit(), vec![mac(9)]);
}

#[test]
fn timeout_index_for_gets_or_adds() {
    let mut app = BluetoothApp::new_now();
    app.timeouts = vec![Timeout { mac_address: mac(1), duration: Some(secs(3)), remove_on_close: false }];
    app.timeouts.push(Timeout::default_from(mac(1)));
    assert_eq!(app.timeout_index_for(mac(1)), 0);
    app.timeouts.pop();
    assert_eq!(app.timeouts.len(), 1);
    assert_eq!(app.timeout_index_for(mac(2)), 1);
    assert_eq!(app.timeouts.len(), 2);
    assert_eq!(app.timeouts[1].duration, None);
}

#[test]
fn editor_commits_text_when_focus_is_lost() {
    let mut editing = TimeoutEditing::new_of(mac(1));
    assert_eq!(editing.text_edit_buffer, "");
    assert!(!editing.buffer_prev_had_focus);
    let mut timeout = Timeout::default_from(mac(1));
    // the field is clicked
    editing.finish_frame(&mut timeout, true, true);
    assert!(editing.buffer_prev_had_focus);
    editing.text_edit_buffer = "1h 25s".to_string();
    editing.finish_frame(&mut timeout, true, false);
    assert_eq!(timeout.duration, None);
    // focus is lost: the text is read
    editing.finish_frame(&mut timeout, false, false);
    assert_eq!(timeout.duration, Some(secs(3625)));
    assert_eq!(editing.text_edit_buffer, "1h 25s");
    assert!(!editing.buffer_prev_had_focus);
}

#[test]
fn editor_keeps_timeout_on_unreadable_text() {
    let mut editing = TimeoutEditing::new_of(mac(1));
    let mut timeout = Timeout { mac_address: mac(1), duration: Some(TimeSpan { secs: 90, nanos: 10 }), remove_on_close: true };
    editing.buffer_prev_had_focus = true;
    editing.text_edit_buffer = "soon".to_string();
    editing.finish_frame(&mut timeout, false, false);
    assert_eq!(timeout.duration, Some(TimeSpan { secs: 90, nanos: 10 }));
    assert_eq!(editing.text_edit_buffer, "1m 30s");
}

#[test]
fn editor_reads_sub_second_text() {
    let mut editing = TimeoutEditing::new_of(mac(1));
    let mut timeout = Timeout::default_from(mac(1));
    editing.buffer_prev_had_focus = true;
    editing.text_edit_buffer = "4.2s".to_string();
    editing.finish_frame(&mut timeout, false, false);
    assert_eq!(timeout.duration, Some(TimeSpan { secs: 4, nanos: 200_000_000 }));
    assert_eq!(editing.text_edit_buffer, "4s");
}

#[test]
fn editor_without_focus_shows_empty_text_for_no_limit() {
    let mut editing = TimeoutEditing::new_of(mac(1));
    editing.text_edit_buffer = "typed".to_string();
    let mut timeout = Timeout::default_from(mac(1));
    editing.finish_frame(&mut timeout, false, false);
    assert_eq!(editing.text_edit_buffer, "");
    let mut t = Timeout { mac_address: mac(1), duration: Some(secs(5)), remove_on_close: true };
    t.clear_duration();
    assert_eq!(t.duration, None);
}

#[test]
fn duration_texts_near_the_limit() {
    assert!(is_duration_text_in_range("1h 25s"));
    assert!(is_duration_text_in_range("12345678901s"));
    assert!(is_duration_text_in_range("123456789012s"));
    assert!(is_duration_text_in_range("10000000000000000000s"));
    assert!(is_duration_text_in_range("99999999999999999999999"));
    assert!(is_duration_text_in_range("100000000000y"));
    assert!(!is_duration_text_in_range("1000000000000y"));
    assert!(!is_duration_text_in_range("18446744073709551615s 1000ms"));
    // a text that would make the reader overflow is left unread
    let mut editing = TimeoutEditing::new_of(mac(1));
    let mut timeout = Timeout { mac_address: mac(1), duration: Some(secs(60)), remove_on_close: true };
    editing.buffer_prev_had_focus = true;
    editing.text_edit_buffer = "18446744073709551615s 1000ms".to_string();
    editing.finish_frame(&mut timeout, false, false);
    assert_eq!(timeout.duration, Some(secs(60)));
    assert_eq!(editing.text_edit_buffer, "1m");
}

#[test]
fn long_numbers_are_read() {
    let mut editing = TimeoutEditing::new_of(mac(1));
    let mut timeout = Timeout::default_from(mac(1));
    editing.buffer_prev_had_focus = true;
    editing.text_edit_buffer = "123456789012s".to_string();
    editing.finish_frame(&mut timeout, false, false);
    assert_eq!(timeout.duration, Some(secs(123_456_789_012)));
}

#[test]
fn duration_text_reads_back() {
    let t = Timeout { mac_address: mac(1), duration: Some(TimeSpan { secs: 31_557_600 + 2_630_016 + 86_400 + 3_661, nanos: 9 }), remove_on_close: true };
    let text = t.duration_str().unwrap();
    assert_eq!(text, "1year 1month 1day 1h 1m 1s");
    let mut editing = TimeoutEditing::new_of(mac(1));
    let mut other = Timeout::default_from(mac(1));
    editing.buffer_prev_had_focus = true;
    editing.text_edit_buffer = text;
    editing.finish_frame(&mut other, false, false);
    assert_eq!(other.duration, Some(secs(31_557_600 + 2_630_016 + 86_400 + 3_661)));
}
