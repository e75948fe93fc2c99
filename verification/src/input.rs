use vstd::prelude::*;

use crate::coord::Coord;

verus! {

/// A keyboard record as the device delivers it: flags still in their raw
/// integer form.
#[derive(Clone, Copy, Debug, PartialEq, Eq, Structural)]
pub struct RawKeyEvent {
    /// Non-zero when the key is down, zero when it is released.
    pub key_down: i32,
    /// How often the key stroke is repeated in this record.
    pub repeat_count: u16,
    /// The device's virtual key code.
    pub virtual_key_code: u16,
    /// The device's virtual scan code.
    pub virtual_scan_code: u16,
    /// The UTF-16 unit the key produces, or zero.
    pub unicode_char: u16,
    /// Modifier-key state bitmask.
    pub control_key_state: u32,
}

/// A mouse record as the device delivers it.
#[derive(Clone, Copy, Debug, PartialEq, Eq, Structural)]
pub struct RawMouseEvent {
    /// Cell column of the pointer.
    pub position_x: i16,
    /// Cell row of the pointer.
    pub position_y: i16,
    /// Button state bitmask.
    pub button_state: u32,
    /// Modifier-key state bitmask.
    pub control_key_state: u32,
    /// Kind of mouse action, as a flag word.
    pub event_flags: u32,
}

/// One record of the device's input queue, with its fields still in the
/// device's raw integer representation.  The queue delivers exactly these
/// five kinds.
#[derive(Clone, Copy, Debug, PartialEq, Eq, Structural)]
pub enum RawInputRecord {
    /// A key press or release.
    Key(RawKeyEvent),
    /// A mouse action.
    Mouse(RawMouseEvent),
    /// The screen buffer was resized to the given width and height.
    WindowBufferSize(i16, i16),
    /// A menu command, by its identifier.
    Menu(u32),
    /// The console gained (non-zero) or lost (zero) focus.
    Focus(i32),
}

/// A keyboard event, decoded for callers.
#[derive(Clone, Copy, Debug, PartialEq, Eq, Structural)]
pub struct KeyEventRecord {
    /// True when the key is down, false when it is released.
    pub key_down: bool,
    /// How often the key stroke is repeated in this record.
    pub repeat_count: u16,
    /// The device's virtual key code.
    pub virtual_key_code: u16,
    /// The device's virtual scan code.
    pub virtual_scan_code: u16,
    /// The UTF-16 unit the key produces, or zero.
    pub u_char: u16,
    /// Modifier-key state bitmask.
    pub control_key_state: u32,
}

/// A mouse event, decoded for callers.
#[derive(Clone, Copy, Debug, PartialEq, Eq, Structural)]
pub struct MouseEvent {
    /// The cell the pointer is on.
    pub mouse_position: Coord,
    /// Button state bitmask.
    pub button_state: u32,
    /// Modifier-key state bitmask.
    pub control_key_state: u32,
    /// Kind of mouse action, as a flag word.
    pub event_flags: u32,
}

/// One discrete input event, decoded once at the console boundary so that
/// no caller ever inspects a raw device record.  Produced only by reading
/// from the device.
#[derive(Clone, Copy, Debug, PartialEq, Eq, Structural)]
pub enum InputRecord {
    /// A key press or release.
    KeyEvent(KeyEventRecord),
    /// A mouse action.
    MouseEvent(MouseEvent),
    /// The screen buffer was resized to the given size.
    WindowBufferSizeEvent(Coord),
    /// The console gained or lost focus.
    FocusEvent(bool),
    /// A menu command, by its identifier.
    MenuEvent(u32),
}

/// The decoded form of one raw device record.
pub open spec fn record_of_raw(r: RawInputRecord) -> InputRecord {
    match r {
        RawInputRecord::Key(k) => InputRecord::KeyEvent(
            KeyEventRecord {
                key_down: k.key_down != 0,
                repeat_count: k.repeat_count,
                virtual_key_code: k.virtual_key_code,
                virtual_scan_code: k.virtual_scan_code,
                u_char: k.unicode_char,
                control_key_state: k.control_key_state,
            },
        ),
        RawInputRecord::Mouse(m) => InputRecord::MouseEvent(
            MouseEvent {
                mouse_position: Coord { x: m.position_x, y: m.position_y },
                button_state: m.button_state,
                control_key_state: m.control_key_state,
                event_flags: m.event_flags,
            },
        ),
        RawInputRecord::WindowBufferSize(x, y) => InputRecord::WindowBufferSizeEvent(
            Coord { x, y },
        ),
        RawInputRecord::Menu(command_id) => InputRecord::MenuEvent(command_id),
        RawInputRecord::Focus(set_focus) => InputRecord::FocusEvent(set_focus != 0),
    }
}

/// Decodes one raw device record into the event callers see.
pub fn convert_input_record(r: &RawInputRecord) -> (out: InputRecord)
    ensures
        out == record_of_raw(*r),
{
    match r {
        RawInputRecord::Key(k) => InputRecord::KeyEvent(
            KeyEventRecord {
                key_down: k.key_down != 0,
                repeat_count: k.repeat_count,
                virtual_key_code: k.virtual_key_code,
                virtual_scan_code: k.virtual_scan_code,
                u_char: k.unicode_char,
                control_key_state: k.control_key_state,
            },
        ),
        RawInputRecord::Mouse(m) => InputRecord::MouseEvent(
            MouseEvent {
                mouse_position: Coord { x: m.position_x, y: m.position_y },
                button_state: m.button_state,
                control_key_state: m.control_key_state,
                event_flags: m.event_flags,
            },
        ),
        RawInputRecord::WindowBufferSize(x, y) => InputRecord::WindowBufferSizeEvent(
            Coord { x: *x, y: *y },
        ),
        RawInputRecord::Menu(command_id) => InputRecord::MenuEvent(*command_id),
        RawInputRecord::Focus(set_focus) => InputRecord::FocusEvent(*set_focus != 0),
    }
}

} // verus!
