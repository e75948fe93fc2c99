use crossterm_winapi::console::Console;
use crossterm_winapi::coord::Coord;
use crossterm_winapi::coord::WindowPositions;
use crossterm_winapi::device::Device;
use crossterm_winapi::error::ConsoleError;
use crossterm_winapi::error::ERROR_INVALID_HANDLE;
use crossterm_winapi::error::ERROR_INVALID_PARAMETER;
use crossterm_winapi::handle::Handle;
use crossterm_winapi::handle::HandleType;
use crossterm_winapi::handle::STD_INPUT_ID;
use crossterm_winapi::handle::STD_OUTPUT_ID;
use crossterm_winapi::input::InputRecord;
use crossterm_winapi::input::KeyEventRecord;
use crossterm_winapi::input::MouseEvent;
use crossterm_winapi::input::RawInputRecord;
use crossterm_winapi::input::RawKeyEvent;
use crossterm_winapi::input::RawMouseEvent;

fn sample_key(down: i32, code: u16, unit: u16) -> RawInputRecord {
    RawInputRecord::Key(RawKeyEvent {
        key_down: down,
        repeat_count: 1,
        virtual_key_code: code,
        virtual_scan_code: 30,
        unicode_char: unit,
        control_key_state: 0x20,
    })
}

#[test]
fn new_wraps_the_output_channel() {
    let console = Console::new().unwrap();
    assert_eq!(console.handle.id, STD_OUTPUT_ID);
}

#[test]
fn from_wraps_the_given_handle() {
    let console = Console::from(Handle::new(HandleType::InputHandle).unwrap());
    assert_eq!(console.handle.id, STD_INPUT_ID);
    let raw = Console::from(42u64);
    assert_eq!(raw.handle.id, 42);
}

#[test]
fn resolved_lookup_reports_a_missing_channel() {
    assert_eq!(Handle::from_resolved(Some(7)), Ok(Handle { id: 7 }));
    assert_eq!(
        Handle::from_resolved(None),
        Err(ConsoleError::DeviceUnavailable)
    );
}

#[test]
fn set_text_attribute_persists_on_the_device() {
    let mut dev = Device::new(80, 24, 7);
    let console = Console::new().unwrap();
    assert_eq!(console.set_text_attribute(&mut dev, 0x1E), Ok(()));
    assert_eq!(dev.attribute, 0x1E);
}

#[test]
fn set_text_attribute_rejects_a_closed_handle() {
    let mut dev = Device::new(80, 24, 7);
    let console = Console::from(999u64);
    assert_eq!(
        console.set_text_attribute(&mut dev, 0x1E),
        Err(ConsoleError::DeviceCallFailed(ERROR_INVALID_HANDLE))
    );
    assert_eq!(dev.last_error, ERROR_INVALID_HANDLE);
    assert_eq!(dev.attribute, 7);
}

#[test]
fn set_console_info_accepts_a_window_inside_the_buffer() {
    let mut dev = Device::new(80, 24, 7);
    let console = Console::new().unwrap();
    let rect = WindowPositions::new(0, 0, 79, 23);
    assert_eq!(console.set_console_info(&mut dev, true, rect), Ok(()));
    assert_eq!(dev.window, rect);
}

#[test]
fn set_console_info_rejects_a_window_past_the_buffer() {
    let mut dev = Device::new(80, 24, 7);
    let console = Console::new().unwrap();
    let rect = WindowPositions::new(0, 0, 200, 23);
    assert_eq!(
        console.set_console_info(&mut dev, true, rect),
        Err(ConsoleError::DeviceCallFailed(ERROR_INVALID_PARAMETER))
    );
    assert_eq!(dev.last_error, ERROR_INVALID_PARAMETER);
    assert_eq!(dev.window, WindowPositions::new(0, 0, 79, 23));
}

#[test]
fn set_console_info_applies_relative_deltas() {
    let mut dev = Device::new(80, 24, 7);
    let console = Console::new().unwrap();
    let base = WindowPositions::new(10, 5, 20, 15);
    assert_eq!(console.set_console_info(&mut dev, true, base), Ok(()));
    let delta = WindowPositions::new(-2, 1, -2, 1);
    assert_eq!(console.set_console_info(&mut dev, false, delta), Ok(()));
    assert_eq!(dev.window, WindowPositions::new(8, 6, 18, 16));
}

#[test]
fn fill_with_character_writes_the_requested_cells() {
    let mut dev = Device::new(80, 24, 7);
    let console = Console::new().unwrap();
    let written = console
        .fill_whit_character(&mut dev, Coord::new(0, 0), 5, 'x')
        .unwrap();
    assert_eq!(written, 5);
    assert_eq!(&dev.chars[0..6], &[b'x', b'x', b'x', b'x', b'x', b' ']);
    assert!(dev.attrs.iter().all(|a| *a == 7));
}

#[test]
fn fill_with_character_stops_at_the_end_of_the_buffer() {
    let mut dev = Device::new(80, 24, 7);
    let console = Console::new().unwrap();
    let written = console
        .fill_whit_character(&mut dev, Coord::new(79, 23), 100, 'q')
        .unwrap();
    assert_eq!(written, 1);
    assert_eq!(dev.chars[80 * 24 - 1], b'q');
    assert_eq!(dev.chars[80 * 24 - 2], b' ');
}

#[test]
fn fill_with_character_wraps_to_the_next_row() {
    let mut dev = Device::new(80, 24, 7);
    let console = Console::new().unwrap();
    let written = console
        .fill_whit_character(&mut dev, Coord::new(78, 0), 4, 'w')
        .unwrap();
    assert_eq!(written, 4);
    assert_eq!(dev.chars[78], b'w');
    assert_eq!(dev.chars[79], b'w');
    assert_eq!(dev.chars[80], b'w');
    assert_eq!(dev.chars[81], b'w');
    assert_eq!(dev.chars[82], b' ');
}

#[test]
fn fill_with_character_rejects_a_start_outside_the_buffer() {
    let mut dev = Device::new(80, 24, 7);
    let console = Console::new().unwrap();
    assert_eq!(
        console.fill_whit_character(&mut dev, Coord::new(80, 0), 1, 'x'),
        Err(ConsoleError::DeviceCallFailed(ERROR_INVALID_PARAMETER))
    );
    assert_eq!(
        console.fill_whit_character(&mut dev, Coord::new(0, -1), 1, 'x'),
        Err(ConsoleError::DeviceCallFailed(ERROR_INVALID_PARAMETER))
    );
}

#[test]
fn fill_with_attribute_leaves_characters_untouched() {
    let mut dev = Device::new(80, 24, 7);
    let console = Console::new().unwrap();
    let written = console
        .fill_whit_attribute(&mut dev, Coord::new(2, 1), 3, 0x4E)
        .unwrap();
    assert_eq!(written, 3);
    assert_eq!(&dev.attrs[82..86], &[0x4E, 0x4E, 0x4E, 7]);
    assert!(dev.chars.iter().all(|c| *c == b' '));
}

#[test]
fn fill_with_attribute_reports_the_partial_count() {
    let mut dev = Device::new(80, 24, 7);
    let console = Console::new().unwrap();
    let written = console
        .fill_whit_attribute(&mut dev, Coord::new(0, 23), 200, 0x4E)
        .unwrap();
    assert_eq!(written, 80);
}

#[test]
fn largest_window_size_reports_the_device_metric() {
    let mut dev = Device::new(80, 24, 7);
    dev.largest = Coord::new(120, 50);
    let console = Console::new().unwrap();
    assert_eq!(console.largest_window_size(&dev), Coord::new(120, 50));
}

#[test]
fn largest_window_size_defaults_to_zero_on_a_closed_handle() {
    let dev = Device::new(80, 24, 7);
    let console = Console::from(999u64);
    assert_eq!(console.largest_window_size(&dev), Coord::new(0, 0));
}

#[test]
fn write_rejects_invalid_utf8_before_any_device_call() {
    let mut dev = Device::new(80, 24, 7);
    let console = Console::new().unwrap();
    assert_eq!(
        console.write_char_buffer(&mut dev, &[0x80]),
        Err(ConsoleError::EncodingError)
    );
    assert_eq!(dev.write_calls, 0);
    assert_eq!(dev.screen.len(), 0);
}

#[test]
fn write_reports_utf8_byte_length_not_utf16_units() {
    let mut dev = Device::new(80, 24, 7);
    let console = Console::new().unwrap();
    let bytes = "\u{e9}".as_bytes();
    assert_eq!(bytes.len(), 2);
    assert_eq!(console.write_char_buffer(&mut dev, bytes), Ok(2));
    assert_eq!(dev.write_calls, 1);
    assert_eq!(dev.screen.len(), 1);
    assert_eq!(dev.screen[0].unit, 0xE9);
}

#[test]
fn write_encodes_supplementary_text_as_surrogate_pairs() {
    let mut dev = Device::new(80, 24, 7);
    let console = Console::new().unwrap();
    let bytes = "\u{1F600}".as_bytes();
    assert_eq!(bytes.len(), 4);
    assert_eq!(console.write_char_buffer(&mut dev, bytes), Ok(4));
    assert_eq!(dev.screen.len(), 2);
    assert_eq!(dev.screen[0].unit, 0xD83D);
    assert_eq!(dev.screen[1].unit, 0xDE00);
}

#[test]
fn write_tags_output_with_the_current_attribute() {
    let mut dev = Device::new(80, 24, 7);
    let console = Console::new().unwrap();
    console.set_text_attribute(&mut dev, 0x4F).unwrap();
    console.write_char_buffer(&mut dev, b"ok").unwrap();
    assert_eq!(dev.screen.len(), 2);
    assert!(dev.screen.iter().all(|u| u.attribute == 0x4F));
}

#[test]
fn two_consoles_on_one_handle_share_channel_state() {
    let mut dev = Device::new(80, 24, 7);
    let first = Console::new().unwrap();
    let second = Console::from(first.handle);
    first.set_text_attribute(&mut dev, 0x2A).unwrap();
    second.write_char_buffer(&mut dev, b"hi").unwrap();
    assert_eq!(dev.screen.len(), 2);
    assert_eq!(dev.screen[0].unit, u16::from(b'h'));
    assert!(dev.screen.iter().all(|u| u.attribute == 0x2A));
}

#[test]
fn event_count_is_stable_without_input_activity() {
    let mut dev = Device::new(80, 24, 7);
    dev.push_input(sample_key(1, 0x41, 97));
    dev.push_input(sample_key(0, 0x41, 97));
    let console = Console::from(STD_INPUT_ID);
    let first = console.number_of_console_input_events(&mut dev).unwrap();
    let second = console.number_of_console_input_events(&mut dev).unwrap();
    assert_eq!(first, 2);
    assert_eq!(second, 2);
    assert_eq!(dev.queue.len(), 2);
}

#[test]
fn read_console_input_on_empty_queue_issues_no_read_call() {
    let mut dev = Device::new(80, 24, 7);
    let console = Console::from(STD_INPUT_ID);
    let (count, records) = console.read_console_input(&mut dev).unwrap();
    assert_eq!(count, 0);
    assert!(records.is_empty());
    assert_eq!(dev.read_calls, 0);
}

#[test]
fn read_console_input_drains_the_queue_in_order() {
    let mut dev = Device::new(80, 24, 7);
    dev.push_input(sample_key(1, 0x48, 104));
    dev.push_input(RawInputRecord::Mouse(RawMouseEvent {
        position_x: 3,
        position_y: 9,
        button_state: 1,
        control_key_state: 0,
        event_flags: 0,
    }));
    dev.push_input(RawInputRecord::WindowBufferSize(100, 40));
    dev.push_input(RawInputRecord::Focus(1));
    dev.push_input(RawInputRecord::Menu(5));
    let console = Console::from(STD_INPUT_ID);
    let (count, records) = console.read_console_input(&mut dev).unwrap();
    assert_eq!(count, 5);
    assert_eq!(records.len(), 5);
    assert_eq!(
        records[0],
        InputRecord::KeyEvent(KeyEventRecord {
            key_down: true,
            repeat_count: 1,
            virtual_key_code: 0x48,
            virtual_scan_code: 30,
            u_char: 104,
            control_key_state: 0x20,
        })
    );
    assert_eq!(
        records[1],
        InputRecord::MouseEvent(MouseEvent {
            mouse_position: Coord::new(3, 9),
            button_state: 1,
            control_key_state: 0,
            event_flags: 0,
        })
    );
    assert_eq!(
        records[2],
        InputRecord::WindowBufferSizeEvent(Coord::new(100, 40))
    );
    assert_eq!(records[3], InputRecord::FocusEvent(true));
    assert_eq!(records[4], InputRecord::MenuEvent(5));
    assert_eq!(dev.queue.len(), 0);
    assert_eq!(dev.read_calls, 1);
}

#[test]
fn read_console_input_rejects_a_closed_handle() {
    let mut dev = Device::new(80, 24, 7);
    dev.push_input(sample_key(1, 0x41, 97));
    let console = Console::from(999u64);
    assert_eq!(
        console.read_console_input(&mut dev),
        Err(ConsoleError::DeviceCallFailed(ERROR_INVALID_HANDLE))
    );
    assert_eq!(dev.queue.len(), 1);
}

#[test]
fn read_single_event_round_trips_one_key_record() {
    let mut dev = Device::new(80, 24, 7);
    dev.push_input(sample_key(1, 0x5A, 122));
    let console = Console::from(STD_INPUT_ID);
    let got = console.read_single_input_event(&mut dev).unwrap();
    assert_eq!(
        got,
        Some(InputRecord::KeyEvent(KeyEventRecord {
            key_down: true,
            repeat_count: 1,
            virtual_key_code: 0x5A,
            virtual_scan_code: 30,
            u_char: 122,
            control_key_state: 0x20,
        }))
    );
    assert_eq!(dev.queue.len(), 0);
    assert_eq!(dev.read_calls, 1);
}

#[test]
fn read_single_event_on_empty_queue_returns_none_at_once() {
    let mut dev = Device::new(80, 24, 7);
    let console = Console::from(STD_INPUT_ID);
    assert_eq!(console.read_single_input_event(&mut dev), Ok(None));
    assert_eq!(dev.read_calls, 0);
}

#[test]
fn read_single_event_leaves_later_records_pending() {
    let mut dev = Device::new(80, 24, 7);
    dev.push_input(sample_key(1, 0x41, 97));
    dev.push_input(sample_key(0, 0x41, 97));
    let console = Console::from(STD_INPUT_ID);
    let got = console.read_single_input_event(&mut dev).unwrap();
    assert!(matches!(got, Some(InputRecord::KeyEvent(k)) if k.key_down));
    assert_eq!(dev.queue.len(), 1);
}
