use vstd::prelude::*;

use crate::console::cell_index;
use crate::console::console_write_spec;
use crate::console::coord_in_buffer;
use crate::console::fill_count;
use crate::console::fill_whit_attribute_spec;
use crate::console::fill_whit_character_spec;
use crate::console::number_of_console_input_events_spec;
use crate::console::read_console_input_spec;
use crate::console::read_single_input_event_spec;
use crate::console::set_console_info_spec;
use crate::console::set_text_attribute_spec;
use crate::console::tagged_units;
use crate::console::write_char_buffer_spec;
use crate::console::Console;
use crate::coord::Coord;
use crate::coord::WindowPositions;
use crate::device::DeviceView;
use crate::encode::utf8_ok;
use crate::error::ConsoleError;
use crate::error::ERROR_INVALID_PARAMETER;
use crate::input::InputRecord;
use crate::input::KeyEventRecord;
use crate::input::RawInputRecord;
use crate::input::RawKeyEvent;

verus! {

/// A fill never reports more cells written than were requested; and a fill
/// that starts inside the screen buffer succeeds even when the requested
/// count runs past the end of the buffer, reporting the partial count the
/// device reached.
pub proof fn lemma_fill_reports_at_most_requested(
    d: DeviceView,
    id: u64,
    start: Coord,
    count: u32,
    ch: char,
    attribute: u16,
)
    requires
        d.wf(),
    ensures
        fill_whit_character_spec(d, id, start, count, ch).1 matches Ok(n) ==> n <= count,
        fill_whit_attribute_spec(d, id, start, count, attribute).1 matches Ok(n) ==> n <= count,
        d.is_open(id) && coord_in_buffer(d, start) ==> (fill_whit_character_spec(
            d,
            id,
            start,
            count,
            ch,
        ).1 matches Ok(n) && n == fill_count(d, start, count)),
        d.is_open(id) && coord_in_buffer(d, start) ==> (fill_whit_attribute_spec(
            d,
            id,
            start,
            count,
            attribute,
        ).1 matches Ok(n) && n == fill_count(d, start, count)),
{
    if d.is_open(id) && coord_in_buffer(d, start) {
        assert(0 <= cell_index(d, start) && cell_index(d, start) < d.total_cells())
            by (nonlinear_arith)
            requires
                0 <= start.x && (start.x as int) < d.width as int,
                0 <= start.y && (start.y as int) < d.height as int,
                cell_index(d, start) == start.y as int * d.width as int + start.x as int,
                d.total_cells() == d.width as int * d.height as int,
        ;
    }
}

/// Querying the pending-event count consumes nothing: on an open channel
/// the device is left exactly as it was, and two consecutive queries with
/// no intervening input activity answer alike.
pub proof fn lemma_event_count_stable(d: DeviceView, id: u64)
    ensures
        d.is_open(id) ==> number_of_console_input_events_spec(d, id).0 == d,
        number_of_console_input_events_spec(
            number_of_console_input_events_spec(d, id).0,
            id,
        ).1 == number_of_console_input_events_spec(d, id).1,
{
}

/// With zero pending events the batch read answers `(0, empty)` at once:
/// no read call is issued and the device is left untouched.
pub proof fn lemma_read_console_input_empty(d: DeviceView, id: u64)
    requires
        d.is_open(id),
        d.queue.len() == 0,
    ensures
        read_console_input_spec(d, id).0 == d,
        read_console_input_spec(d, id).0.read_calls == d.read_calls,
        read_console_input_spec(d, id).1 matches Ok(p) && p.0 == 0 && p.1
            == Seq::<InputRecord>::empty(),
{
}

/// A queue holding exactly one pending keyboard record answers a single
/// read with that record, every field of the raw record carried over, and
/// leaves the queue empty after one read call.
pub proof fn lemma_read_single_key_event(d: DeviceView, id: u64, k: RawKeyEvent)
    requires
        d.wf(),
        d.is_open(id),
        d.read_calls < u64::MAX,
        d.queue == seq![RawInputRecord::Key(k)],
    ensures
        read_single_input_event_spec(d, id).1 == Ok::<Option<InputRecord>, ConsoleError>(
            Some(
                InputRecord::KeyEvent(
                    KeyEventRecord {
                        key_down: k.key_down != 0,
                        repeat_count: k.repeat_count,
                        virtual_key_code: k.virtual_key_code,
                        virtual_scan_code: k.virtual_scan_code,
                        u_char: k.unicode_char,
                        control_key_state: k.control_key_state,
                    },
                ),
            ),
        ),
        read_single_input_event_spec(d, id).0.queue == Seq::<RawInputRecord>::empty(),
        read_single_input_event_spec(d, id).0.read_calls == d.read_calls + 1,
{
    assert(d.queue[0] == RawInputRecord::Key(k));
    assert(d.queue.skip(1) =~= Seq::<RawInputRecord>::empty());
}

/// Bytes that are not valid UTF-8 are rejected with the local encoding
/// error before any device call: no write call is issued and the device
/// is untouched.
pub proof fn lemma_write_invalid_utf8_rejected_locally(d: DeviceView, id: u64, bytes: Seq<u8>)
    requires
        !utf8_ok(bytes),
    ensures
        write_char_buffer_spec(d, id, bytes).0 == d,
        write_char_buffer_spec(d, id, bytes).0.write_calls == d.write_calls,
        write_char_buffer_spec(d, id, bytes).1 == Err::<usize, ConsoleError>(
            ConsoleError::EncodingError,
        ),
{
}

/// A successful write reports the UTF-8 byte length of its input — even
/// when the UTF-16 form handed to the device has a different unit count.
pub proof fn lemma_write_reports_utf8_byte_count(d: DeviceView, id: u64, bytes: Seq<u8>)
    requires
        d.is_open(id),
        utf8_ok(bytes),
    ensures
        write_char_buffer_spec(d, id, bytes).1 == Ok::<usize, ConsoleError>(
            bytes.len() as usize,
        ),
{
}

/// In absolute mode the device accepts exactly the rectangles that lie,
/// non-empty, inside the screen buffer; anything else is rejected with the
/// invalid-parameter code.
pub proof fn lemma_set_console_info_absolute(d: DeviceView, id: u64, rect: WindowPositions)
    requires
        d.is_open(id),
    ensures
        (set_console_info_spec(d, id, true, rect).1 is Ok) <==> (0 <= rect.left && rect.left
            <= rect.right && (rect.right as int) < d.width as int && 0 <= rect.top && rect.top
            <= rect.bottom && (rect.bottom as int) < d.height as int),
        set_console_info_spec(d, id, true, rect).1 matches Err(e) ==> e
            == ConsoleError::DeviceCallFailed(ERROR_INVALID_PARAMETER),
{
}

/// A console carries no state beyond its handle: the text attribute set
/// through one console wrapping a handle governs a write issued through
/// another console wrapping the same handle.
pub proof fn lemma_consoles_share_channel_state(
    d: DeviceView,
    a: Console,
    b: Console,
    value: u16,
    units: Seq<u16>,
)
    requires
        a.handle == b.handle,
        d.is_open(a.handle.id),
    ensures
        ({
            let d1 = set_text_attribute_spec(d, a.handle.id, value).0;
            let step = console_write_spec(d1, b.handle.id, units);
            step.1 == Ok::<(), ConsoleError>(()) && step.0.screen == d.screen + tagged_units(
                units,
                value,
            )
        }),
{
}

} // verus!
