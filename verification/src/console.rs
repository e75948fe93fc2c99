use vstd::prelude::*;

use crate::coord::Coord;
use crate::coord::WindowPositions;
use crate::device::Device;
use crate::device::DeviceView;
use crate::device::ScreenUnit;
use crate::encode::decode_utf8;
use crate::encode::encode_utf16;
use crate::encode::utf16_encode;
use crate::encode::utf8_ok;
use crate::encode::utf8_scalars;
use crate::error::ConsoleError;
use crate::error::ERROR_INVALID_HANDLE;
use crate::error::ERROR_INVALID_PARAMETER;
use crate::handle::Handle;
use crate::handle::HandleType;
use crate::handle::STD_OUTPUT_ID;
use crate::input::record_of_raw;
use crate::input::convert_input_record;
use crate::input::InputRecord;
use crate::input::RawInputRecord;

verus! {

/// Basic operations on a console device, all issued against the one handle
/// the console wraps.  A console holds no other state: every observable
/// effect of an operation lives in the [`Device`] it is applied to, so two
/// consoles wrapping the same handle act on the same channel state.
#[derive(Clone, Copy, Debug, PartialEq, Eq, Structural)]
pub struct Console {
    /// The handle every operation of this console targets.
    pub handle: Handle,
}

/// The device after a failing call: the last-error code is set, nothing
/// else changes.
pub open spec fn device_failed(d: DeviceView, code: u32) -> DeviceView {
    DeviceView { last_error: code, ..d }
}

/// What setting the text attribute does: on an open channel the device's
/// current attribute becomes `value`; otherwise the call fails.
pub open spec fn set_text_attribute_spec(d: DeviceView, id: u64, value: u16) -> (DeviceView,
    Result<(), ConsoleError>) {
    if d.is_open(id) {
        (DeviceView { attribute: value, ..d }, Ok(()))
    } else {
        (
            device_failed(d, ERROR_INVALID_HANDLE),
            Err(ConsoleError::DeviceCallFailed(ERROR_INVALID_HANDLE)),
        )
    }
}

/// The window edges a repositioning call asks for: the rectangle itself in
/// absolute mode, the current window shifted by the rectangle's deltas in
/// relative mode.
pub open spec fn window_target(d: DeviceView, absolute: bool, rect: WindowPositions) -> (
    int,
    int,
    int,
    int,
) {
    if absolute {
        (rect.left as int, rect.top as int, rect.right as int, rect.bottom as int)
    } else {
        (
            d.window.left + rect.left,
            d.window.top + rect.top,
            d.window.right + rect.right,
            d.window.bottom + rect.bottom,
        )
    }
}

/// Whether the device accepts the window edges (left, top, right, bottom):
/// a non-empty rectangle lying inside the screen buffer.
pub open spec fn window_acceptable(d: DeviceView, t: (int, int, int, int)) -> bool {
    0 <= t.0 && t.0 <= t.2 && t.2 < d.width as int && 0 <= t.1 && t.1 <= t.3 && t.3 < d.height as int
}

/// What repositioning the visible window does: an acceptable target
/// rectangle becomes the window; anything else is rejected by the device.
pub open spec fn set_console_info_spec(
    d: DeviceView,
    id: u64,
    absolute: bool,
    rect: WindowPositions,
) -> (DeviceView, Result<(), ConsoleError>) {
    if !d.is_open(id) {
        (
            device_failed(d, ERROR_INVALID_HANDLE),
            Err(ConsoleError::DeviceCallFailed(ERROR_INVALID_HANDLE)),
        )
    } else {
        let t = window_target(d, absolute, rect);
        if window_acceptable(d, t) {
            (
                DeviceView {
                    window: WindowPositions {
                        left: t.0 as i16,
                        top: t.1 as i16,
                        right: t.2 as i16,
                        bottom: t.3 as i16,
                    },
                    ..d
                },
                Ok(()),
            )
        } else {
            (
                device_failed(d, ERROR_INVALID_PARAMETER),
                Err(ConsoleError::DeviceCallFailed(ERROR_INVALID_PARAMETER)),
            )
        }
    }
}

/// Row-major index of the cell at `c`.
pub open spec fn cell_index(d: DeviceView, c: Coord) -> int {
    c.y as int * d.width as int + c.x as int
}

/// Whether `c` addresses a cell of the screen buffer.
pub open spec fn coord_in_buffer(d: DeviceView, c: Coord) -> bool {
    0 <= c.x && (c.x as int) < d.width as int && 0 <= c.y && (c.y as int) < d.height as int
}

/// How many cells a fill starting at `c` for `count` cells reaches: the
/// device stops at the end of the screen buffer.
pub open spec fn fill_count(d: DeviceView, c: Coord, count: u32) -> int {
    let room = d.total_cells() - cell_index(d, c);
    if count as int <= room {
        count as int
    } else {
        room
    }
}

/// `s` with the `n` entries from `start` on replaced by `val`.
pub open spec fn filled_seq<T>(s: Seq<T>, start: int, n: int, val: T) -> Seq<T> {
    Seq::new(s.len(), |j: int| if start <= j < start + n { val } else { s[j] })
}

/// The device's narrow form of a fill character: its code point truncated
/// to one byte.
pub open spec fn narrow_char(c: char) -> u8 {
    (c as u32) as u8
}

/// What filling cells with a character does: `count` cells from `start`
/// on, wrapping at the buffer width and stopping at the end of the buffer,
/// take the narrow form of the character; attributes are untouched.  The
/// call reports how many cells it wrote, fails on a start coordinate
/// outside the buffer, and never writes more than `count` cells.
pub open spec fn fill_whit_character_spec(
    d: DeviceView,
    id: u64,
    start: Coord,
    count: u32,
    ch: char,
) -> (DeviceView, Result<u32, ConsoleError>) {
    if !d.is_open(id) {
        (
            device_failed(d, ERROR_INVALID_HANDLE),
            Err(ConsoleError::DeviceCallFailed(ERROR_INVALID_HANDLE)),
        )
    } else if !coord_in_buffer(d, start) {
        (
            device_failed(d, ERROR_INVALID_PARAMETER),
            Err(ConsoleError::DeviceCallFailed(ERROR_INVALID_PARAMETER)),
        )
    } else {
        (
            DeviceView {
                chars: filled_seq(
                    d.chars,
                    cell_index(d, start),
                    fill_count(d, start, count),
                    narrow_char(ch),
                ),
                ..d
            },
            Ok(fill_count(d, start, count) as u32),
        )
    }
}

/// What filling cells with an attribute does: the same cell addressing as
/// the character fill, writing the attribute and leaving characters
/// untouched.
pub open spec fn fill_whit_attribute_spec(
    d: DeviceView,
    id: u64,
    start: Coord,
    count: u32,
    attribute: u16,
) -> (DeviceView, Result<u32, ConsoleError>) {
    if !d.is_open(id) {
        (
            device_failed(d, ERROR_INVALID_HANDLE),
            Err(ConsoleError::DeviceCallFailed(ERROR_INVALID_HANDLE)),
        )
    } else if !coord_in_buffer(d, start) {
        (
            device_failed(d, ERROR_INVALID_PARAMETER),
            Err(ConsoleError::DeviceCallFailed(ERROR_INVALID_PARAMETER)),
        )
    } else {
        (
            DeviceView {
                attrs: filled_seq(
                    d.attrs,
                    cell_index(d, start),
                    fill_count(d, start, count),
                    attribute,
                ),
                ..d
            },
            Ok(fill_count(d, start, count) as u32),
        )
    }
}

/// What the largest-window query returns: the device's answer on an open
/// channel, and the device's zero default otherwise — this call has no
/// failure signal.
pub open spec fn largest_window_size_spec(d: DeviceView, id: u64) -> Coord {
    if d.is_open(id) {
        d.largest
    } else {
        Coord { x: 0, y: 0 }
    }
}

/// Bounds of the cell index, and that the whole buffer fits comfortably in
/// a machine word.
proof fn lemma_cell_index_bounds(w: int, h: int, x: int, y: int)
    requires
        0 <= x < w,
        0 <= y < h,
        w <= 0x8000,
        h <= 0x8000,
    ensures
        0 <= y * w + x < h * w,
        h * w <= 0x4000_0000,
{
    assert(y * w + x < h * w && h * w <= 0x4000_0000) by (nonlinear_arith)
        requires
            0 <= x < w,
            0 <= y < h,
            w <= 0x8000,
            h <= 0x8000,
    ;
}

/// The units of `units`, each tagged with the attribute `attr`.
pub open spec fn tagged_units(units: Seq<u16>, attr: u16) -> Seq<ScreenUnit> {
    Seq::new(units.len(), |i: int| ScreenUnit { unit: units[i], attribute: attr })
}

/// What one write call does: on an open channel the units are appended to
/// the output transcript, each under the device's current text attribute;
/// either way the call is counted.
pub open spec fn console_write_spec(d: DeviceView, id: u64, units: Seq<u16>) -> (
    DeviceView,
    Result<(), ConsoleError>,
) {
    if d.is_open(id) {
        (
            DeviceView {
                screen: d.screen + tagged_units(units, d.attribute),
                write_calls: (d.write_calls + 1) as u64,
                ..d
            },
            Ok(()),
        )
    } else {
        (
            DeviceView {
                write_calls: (d.write_calls + 1) as u64,
                last_error: ERROR_INVALID_HANDLE,
                ..d
            },
            Err(ConsoleError::DeviceCallFailed(ERROR_INVALID_HANDLE)),
        )
    }
}

/// What writing a byte buffer does.  Bytes that are not valid UTF-8 are
/// rejected before any device call; valid bytes are re-encoded as UTF-16
/// and written in one call, and the reported count is the UTF-8 byte
/// length of the input — not the number of UTF-16 units the device
/// counted.
pub open spec fn write_char_buffer_spec(d: DeviceView, id: u64, bytes: Seq<u8>) -> (
    DeviceView,
    Result<usize, ConsoleError>,
) {
    if !utf8_ok(bytes) {
        (d, Err(ConsoleError::EncodingError))
    } else {
        let step = console_write_spec(d, id, utf16_encode(utf8_scalars(bytes)));
        match step.1 {
            Ok(u) => (step.0, Ok(bytes.len() as usize)),
            Err(e) => (step.0, Err(e)),
        }
    }
}

/// What querying the pending-event count does: the count of queued
/// records, consuming none of them.
pub open spec fn number_of_console_input_events_spec(d: DeviceView, id: u64) -> (
    DeviceView,
    Result<u32, ConsoleError>,
) {
    if d.is_open(id) {
        (d, Ok(d.queue.len() as u32))
    } else {
        (
            device_failed(d, ERROR_INVALID_HANDLE),
            Err(ConsoleError::DeviceCallFailed(ERROR_INVALID_HANDLE)),
        )
    }
}

/// What one batched read call does: it is counted, and on an open channel
/// the first `req` pending records — fewer when fewer are pending — leave
/// the queue and come back decoded, oldest first.
pub open spec fn read_input_spec(d: DeviceView, id: u64, req: u32) -> (
    DeviceView,
    Result<(u32, Seq<InputRecord>), ConsoleError>,
) {
    if !d.is_open(id) {
        (
            DeviceView {
                read_calls: (d.read_calls + 1) as u64,
                last_error: ERROR_INVALID_HANDLE,
                ..d
            },
            Err(ConsoleError::DeviceCallFailed(ERROR_INVALID_HANDLE)),
        )
    } else {
        let n = if req as int <= d.queue.len() {
            req as int
        } else {
            d.queue.len() as int
        };
        (
            DeviceView {
                queue: d.queue.skip(n),
                read_calls: (d.read_calls + 1) as u64,
                ..d
            },
            Ok((n as u32, d.queue.take(n).map_values(|r: RawInputRecord| record_of_raw(r)))),
        )
    }
}

/// What the batch read of all pending records does: the pending count is
/// queried first, and with zero pending the answer is immediate — no read
/// call is issued.  Otherwise one read call fetches at most that count.
pub open spec fn read_console_input_spec(d: DeviceView, id: u64) -> (
    DeviceView,
    Result<(u32, Seq<InputRecord>), ConsoleError>,
) {
    if !d.is_open(id) {
        (
            device_failed(d, ERROR_INVALID_HANDLE),
            Err(ConsoleError::DeviceCallFailed(ERROR_INVALID_HANDLE)),
        )
    } else if d.queue.len() == 0 {
        (d, Ok((0u32, Seq::<InputRecord>::empty())))
    } else {
        read_input_spec(d, id, d.queue.len() as u32)
    }
}

/// What reading a single event does: with zero pending the answer is
/// immediate and no read call is issued; otherwise one read call fetches
/// exactly the oldest pending record.
pub open spec fn read_single_input_event_spec(d: DeviceView, id: u64) -> (
    DeviceView,
    Result<Option<InputRecord>, ConsoleError>,
) {
    if !d.is_open(id) {
        (
            device_failed(d, ERROR_INVALID_HANDLE),
            Err(ConsoleError::DeviceCallFailed(ERROR_INVALID_HANDLE)),
        )
    } else if d.queue.len() == 0 {
        (d, Ok(None))
    } else {
        (read_input_spec(d, id, 1).0, Ok(Some(record_of_raw(d.queue[0]))))
    }
}

/// Whether `id` names an open channel of the device: the check every
/// device call makes before doing its work.
fn channel_is_open(dev: &Device, id: u64) -> (b: bool)
    ensures
        b == dev@.is_open(id),
{
    let mut i: usize = 0;
    while i < dev.open.len()
        invariant
            i <= dev.open@.len(),
            forall|j: int| 0 <= j < i ==> dev.open@[j] != id,
        decreases dev.open@.len() - i,
    {
        if dev.open[i] == id {
            proof {
                assert(dev.open@[i as int] == id);
            }
            return true;
        }
        i += 1;
    }
    proof {
        assert(!dev.open@.contains(id));
    }
    false
}

/// Replaces the `n` entries of `v` from `start` on by `val`.
fn fill_range<T: Copy>(v: &mut Vec<T>, start: usize, n: usize, val: T)
    requires
        start + n <= old(v)@.len(),
    ensures
        final(v)@ == filled_seq(old(v)@, start as int, n as int, val),
{
    proof {
        assert(v@ =~= filled_seq(old(v)@, start as int, 0, val));
    }
    let mut k: usize = 0;
    while k < n
        invariant
            k <= n,
            start + n <= v.len(),
            v@.len() == old(v)@.len(),
            v@ == filled_seq(old(v)@, start as int, k as int, val),
        decreases n - k,
    {
        let idx: usize = start + k;
        v[idx] = val;
        proof {
            assert(v@ =~= filled_seq(old(v)@, start as int, k + 1, val));
        }
        k += 1;
    }
}

/// Appends `units` to the transcript `screen`, tagging each with `attr`.
fn append_tagged(screen: &mut Vec<ScreenUnit>, units: &Vec<u16>, attr: u16)
    ensures
        final(screen)@ == old(screen)@ + tagged_units(units@, attr),
{
    proof {
        assert(screen@ =~= old(screen)@ + tagged_units(units@.take(0), attr));
    }
    let mut i: usize = 0;
    while i < units.len()
        invariant
            i <= units@.len(),
            screen@ == old(screen)@ + tagged_units(units@.take(i as int), attr),
        decreases units@.len() - i,
    {
        screen.push(ScreenUnit { unit: units[i], attribute: attr });
        proof {
            assert(screen@ =~= old(screen)@ + tagged_units(units@.take(i + 1), attr));
        }
        i += 1;
    }
    proof {
        assert(units@.take(units@.len() as int) =~= units@);
    }
}

impl Console {
    /// Wraps the process-wide output channel.  The standard channels of
    /// the device model always resolve, so this succeeds; a platform
    /// lookup that finds no channel reports it through
    /// [`Handle::from_resolved`].
    pub fn new() -> (r: Result<Console, ConsoleError>)
        ensures
            r == Ok::<Console, ConsoleError>(Console { handle: Handle { id: STD_OUTPUT_ID } }),
    {
        match Handle::new(HandleType::OutputHandle) {
            Ok(handle) => Ok(Console { handle }),
            Err(e) => Err(e),
        }
    }

    /// Sets the character-rendering attribute applied to text written from
    /// now on through this console's channel.  Already-rendered cells keep
    /// their attribute.
    pub fn set_text_attribute(&self, dev: &mut Device, value: u16) -> (r: Result<
        (),
        ConsoleError,
    >)
        ensures
            final(dev)@ == set_text_attribute_spec(old(dev)@, self.handle.id, value).0,
            r == set_text_attribute_spec(old(dev)@, self.handle.id, value).1,
    {
        if !channel_is_open(dev, self.handle.id) {
            dev.last_error = ERROR_INVALID_HANDLE;
            proof {
                assert(dev@ =~= device_failed(old(dev)@, ERROR_INVALID_HANDLE));
            }
            return Err(ConsoleError::DeviceCallFailed(ERROR_INVALID_HANDLE));
        }
        dev.attribute = value;
        proof {
            assert(dev@ =~= (DeviceView { attribute: value, ..old(dev)@ }));
        }
        Ok(())
    }

    /// Repositions or resizes the visible window within the screen buffer.
    /// With `absolute` the rectangle gives the new edges themselves; without
    /// it, deltas against the current window.  The device rejects a target
    /// rectangle that is empty or reaches outside the screen buffer.
    pub fn set_console_info(&self, dev: &mut Device, absolute: bool, rect: WindowPositions) -> (r:
        Result<(), ConsoleError>)
        requires
            old(dev)@.wf(),
        ensures
            final(dev)@ == set_console_info_spec(old(dev)@, self.handle.id, absolute, rect).0,
            r == set_console_info_spec(old(dev)@, self.handle.id, absolute, rect).1,
            final(dev)@.wf(),
    {
        if !channel_is_open(dev, self.handle.id) {
            dev.last_error = ERROR_INVALID_HANDLE;
            proof {
                assert(dev@ =~= device_failed(old(dev)@, ERROR_INVALID_HANDLE));
            }
            return Err(ConsoleError::DeviceCallFailed(ERROR_INVALID_HANDLE));
        }
        let left: i32;
        let top: i32;
        let right: i32;
        let bottom: i32;
        if absolute {
            left = rect.left as i32;
            top = rect.top as i32;
            right = rect.right as i32;
            bottom = rect.bottom as i32;
        } else {
            left = dev.window.left as i32 + rect.left as i32;
            top = dev.window.top as i32 + rect.top as i32;
            right = dev.window.right as i32 + rect.right as i32;
            bottom = dev.window.bottom as i32 + rect.bottom as i32;
        }
        if 0 <= left && left <= right && right < dev.width as i32 && 0 <= top && top <= bottom
            && bottom < dev.height as i32 {
            dev.window = WindowPositions {
                left: left as i16,
                top: top as i16,
                right: right as i16,
                bottom: bottom as i16,
            };
            proof {
                let t = window_target(old(dev)@, absolute, rect);
                assert(dev@ =~= (DeviceView {
                    window: WindowPositions {
                        left: t.0 as i16,
                        top: t.1 as i16,
                        right: t.2 as i16,
                        bottom: t.3 as i16,
                    },
                    ..old(dev)@
                }));
            }
            Ok(())
        } else {
            dev.last_error = ERROR_INVALID_PARAMETER;
            proof {
                assert(dev@ =~= device_failed(old(dev)@, ERROR_INVALID_PARAMETER));
            }
            Err(ConsoleError::DeviceCallFailed(ERROR_INVALID_PARAMETER))
        }
    }

    /// Writes `filling_char` (narrowed to the device's one-byte character
    /// form) into `cells_to_write` consecutive cells starting at
    /// `start_location`, scanning left to right and wrapping at the buffer
    /// width.  Reports how many cells were written, which is fewer than
    /// asked when the fill runs past the end of the buffer.
    pub fn fill_whit_character(
        &self,
        dev: &mut Device,
        start_location: Coord,
        cells_to_write: u32,
        filling_char: char,
    ) -> (r: Result<u32, ConsoleError>)
        requires
            old(dev)@.wf(),
        ensures
            final(dev)@ == fill_whit_character_spec(
                old(dev)@,
                self.handle.id,
                start_location,
                cells_to_write,
                filling_char,
            ).0,
            r == fill_whit_character_spec(
                old(dev)@,
                self.handle.id,
                start_location,
                cells_to_write,
                filling_char,
            ).1,
            final(dev)@.wf(),
    {
        if !channel_is_open(dev, self.handle.id) {
            dev.last_error = ERROR_INVALID_HANDLE;
            proof {
                assert(dev@ =~= device_failed(old(dev)@, ERROR_INVALID_HANDLE));
            }
            return Err(ConsoleError::DeviceCallFailed(ERROR_INVALID_HANDLE));
        }
        if start_location.x < 0 || start_location.y < 0 || start_location.x as i32
            >= dev.width as i32 || start_location.y as i32 >= dev.height as i32 {
            dev.last_error = ERROR_INVALID_PARAMETER;
            proof {
                assert(dev@ =~= device_failed(old(dev)@, ERROR_INVALID_PARAMETER));
            }
            return Err(ConsoleError::DeviceCallFailed(ERROR_INVALID_PARAMETER));
        }
        proof {
            lemma_cell_index_bounds(
                dev@.width as int,
                dev@.height as int,
                start_location.x as int,
                start_location.y as int,
            );
        }
        let idx: usize = (start_location.y as usize) * (dev.width as usize) + (
        start_location.x as usize);
        let room: usize = dev.chars.len() - idx;
        let cnt: usize = if (cells_to_write as usize) <= room {
            cells_to_write as usize
        } else {
            room
        };
        let val: u8 = (filling_char as u32) as u8;
        fill_range(&mut dev.chars, idx, cnt, val);
        proof {
            assert(dev@ =~= (DeviceView {
                chars: filled_seq(
                    old(dev)@.chars,
                    cell_index(old(dev)@, start_location),
                    fill_count(old(dev)@, start_location, cells_to_write),
                    narrow_char(filling_char),
                ),
                ..old(dev)@
            }));
        }
        Ok(cnt as u32)
    }

    /// Sets the rendering attribute of `cells_to_write` consecutive cells
    /// starting at `start_location`, with the same cell addressing as the
    /// character fill; the cells' characters are untouched.
    pub fn fill_whit_attribute(
        &self,
        dev: &mut Device,
        start_location: Coord,
        cells_to_write: u32,
        dw_attribute: u16,
    ) -> (r: Result<u32, ConsoleError>)
        requires
            old(dev)@.wf(),
        ensures
            final(dev)@ == fill_whit_attribute_spec(
                old(dev)@,
                self.handle.id,
                start_location,
                cells_to_write,
                dw_attribute,
            ).0,
            r == fill_whit_attribute_spec(
                old(dev)@,
                self.handle.id,
                start_location,
                cells_to_write,
                dw_attribute,
            ).1,
            final(dev)@.wf(),
    {
        if !channel_is_open(dev, self.handle.id) {
            dev.last_error = ERROR_INVALID_HANDLE;
            proof {
                assert(dev@ =~= device_failed(old(dev)@, ERROR_INVALID_HANDLE));
            }
            return Err(ConsoleError::DeviceCallFailed(ERROR_INVALID_HANDLE));
        }
        if start_location.x < 0 || start_location.y < 0 || start_location.x as i32
            >= dev.width as i32 || start_location.y as i32 >= dev.height as i32 {
            dev.last_error = ERROR_INVALID_PARAMETER;
            proof {
                assert(dev@ =~= device_failed(old(dev)@, ERROR_INVALID_PARAMETER));
            }
            return Err(ConsoleError::DeviceCallFailed(ERROR_INVALID_PARAMETER));
        }
        proof {
            lemma_cell_index_bounds(
                dev@.width as int,
                dev@.height as int,
                start_location.x as int,
                start_location.y as int,
            );
        }
        let idx: usize = (start_location.y as usize) * (dev.width as usize) + (
        start_location.x as usize);
        let room: usize = dev.attrs.len() - idx;
        let cnt: usize = if (cells_to_write as usize) <= room {
            cells_to_write as usize
        } else {
            room
        };
        fill_range(&mut dev.attrs, idx, cnt, dw_attribute);
        proof {
            assert(dev@ =~= (DeviceView {
                attrs: filled_seq(
                    old(dev)@.attrs,
                    cell_index(old(dev)@, start_location),
                    fill_count(old(dev)@, start_location, cells_to_write),
                    dw_attribute,
                ),
                ..old(dev)@
            }));
        }
        Ok(cnt as u32)
    }

    /// The largest size the window could be resized to under the device's
    /// current metrics.  This query has no failure signal: on a channel the
    /// device does not know it reports the zero coordinate.
    pub fn largest_window_size(&self, dev: &Device) -> (c: Coord)
        ensures
            c == largest_window_size_spec(dev@, self.handle.id),
    {
        if channel_is_open(dev, self.handle.id) {
            dev.largest
        } else {
            Coord { x: 0, y: 0 }
        }
    }

    /// Writes a byte buffer, which must be valid UTF-8 text, at the
    /// cursor.  The text is re-encoded to the device's UTF-16 form and
    /// written in one call.  The reported count is the UTF-8 byte length
    /// of the input, not the device's UTF-16 unit count: the two differ on
    /// text outside ASCII.
    pub fn write_char_buffer(&self, dev: &mut Device, buf: &[u8]) -> (r: Result<
        usize,
        ConsoleError,
    >)
        requires
            old(dev)@.write_calls < u64::MAX,
        ensures
            final(dev)@ == write_char_buffer_spec(old(dev)@, self.handle.id, buf@).0,
            r == write_char_buffer_spec(old(dev)@, self.handle.id, buf@).1,
    {
        let scalars = match decode_utf8(buf) {
            Some(s) => s,
            None => {
                return Err(ConsoleError::EncodingError);
            },
        };
        let units = encode_utf16(&scalars);
        if !channel_is_open(dev, self.handle.id) {
            dev.write_calls = dev.write_calls + 1;
            dev.last_error = ERROR_INVALID_HANDLE;
            proof {
                assert(dev@ =~= console_write_spec(
                    old(dev)@,
                    self.handle.id,
                    utf16_encode(utf8_scalars(buf@)),
                ).0);
            }
            return Err(ConsoleError::DeviceCallFailed(ERROR_INVALID_HANDLE));
        }
        let attr = dev.attribute;
        append_tagged(&mut dev.screen, &units, attr);
        dev.write_calls = dev.write_calls + 1;
        proof {
            assert(dev@ =~= console_write_spec(
                old(dev)@,
                self.handle.id,
                utf16_encode(utf8_scalars(buf@)),
            ).0);
        }
        Ok(buf.len())
    }

    /// The number of input records the device has queued, consuming none
    /// of them.
    pub fn number_of_console_input_events(&self, dev: &mut Device) -> (r: Result<
        u32,
        ConsoleError,
    >)
        requires
            old(dev)@.wf(),
        ensures
            final(dev)@ == number_of_console_input_events_spec(old(dev)@, self.handle.id).0,
            r == number_of_console_input_events_spec(old(dev)@, self.handle.id).1,
            final(dev)@.wf(),
    {
        if !channel_is_open(dev, self.handle.id) {
            dev.last_error = ERROR_INVALID_HANDLE;
            proof {
                assert(dev@ =~= device_failed(old(dev)@, ERROR_INVALID_HANDLE));
            }
            return Err(ConsoleError::DeviceCallFailed(ERROR_INVALID_HANDLE));
        }
        Ok(dev.queue.len() as u32)
    }

    /// One batched device read: fetches up to `buf_len` pending records,
    /// tolerating the device handing back fewer, and decodes them in
    /// their original order.  The device's read call blocks until a record
    /// is pending, so callers check the pending count first.
    fn read_input(&self, dev: &mut Device, buf_len: u32) -> (r: Result<
        (u32, Vec<InputRecord>),
        ConsoleError,
    >)
        requires
            old(dev)@.wf(),
            old(dev)@.read_calls < u64::MAX,
            buf_len >= 1,
            old(dev)@.queue.len() >= 1,
        ensures
            final(dev)@ == read_input_spec(old(dev)@, self.handle.id, buf_len).0,
            (read_input_spec(old(dev)@, self.handle.id, buf_len).1 matches Ok(p) ==> r matches Ok(
                q,
            ) && q.0 == p.0 && q.1@ == p.1),
            (read_input_spec(old(dev)@, self.handle.id, buf_len).1 matches Err(e) ==> r
                == Err::<(u32, Vec<InputRecord>), ConsoleError>(e)),
            final(dev)@.wf(),
    {
        dev.read_calls = dev.read_calls + 1;
        if !channel_is_open(dev, self.handle.id) {
            dev.last_error = ERROR_INVALID_HANDLE;
            proof {
                assert(dev@ =~= read_input_spec(old(dev)@, self.handle.id, buf_len).0);
            }
            return Err(ConsoleError::DeviceCallFailed(ERROR_INVALID_HANDLE));
        }
        let n: usize = if (buf_len as usize) <= dev.queue.len() {
            buf_len as usize
        } else {
            dev.queue.len()
        };
        let ghost mid = dev@;
        let mut records: Vec<InputRecord> = Vec::new();
        let mut i: usize = 0;
        while i < n
            invariant
                i <= n,
                dev@ == mid,
                n <= dev.queue@.len(),
                records@ == dev.queue@.take(i as int).map_values(
                    |rr: RawInputRecord| record_of_raw(rr),
                ),
            decreases n - i,
        {
            let rec = convert_input_record(&dev.queue[i]);
            records.push(rec);
            proof {
                assert(dev.queue@.take(i + 1).drop_last() =~= dev.queue@.take(i as int));
                assert(records@ =~= dev.queue@.take(i + 1).map_values(
                    |rr: RawInputRecord| record_of_raw(rr),
                ));
            }
            i += 1;
        }
        let mut rest: Vec<RawInputRecord> = Vec::new();
        let mut j: usize = n;
        while j < dev.queue.len()
            invariant
                n <= j <= dev.queue@.len(),
                dev@ == mid,
                rest@ == dev.queue@.subrange(n as int, j as int),
            decreases dev.queue@.len() - j,
        {
            let raw = dev.queue[j];
            rest.push(raw);
            proof {
                assert(rest@ =~= dev.queue@.subrange(n as int, j + 1));
            }
            j += 1;
        }
        proof {
            assert(rest@ =~= dev.queue@.skip(n as int));
        }
        dev.queue = rest;
        proof {
            assert(dev@ =~= read_input_spec(old(dev)@, self.handle.id, buf_len).0);
        }
        Ok((n as u32, records))
    }

    /// Reads every record the device has pending, in one batched call: the
    /// pending count is queried first, and with zero pending the call
    /// returns the empty batch at once, issuing no device read.  On
    /// failure no record is considered consumed.
    pub fn read_console_input(&self, dev: &mut Device) -> (r: Result<
        (u32, Vec<InputRecord>),
        ConsoleError,
    >)
        requires
            old(dev)@.wf(),
            old(dev)@.read_calls < u64::MAX,
        ensures
            final(dev)@ == read_console_input_spec(old(dev)@, self.handle.id).0,
            (read_console_input_spec(old(dev)@, self.handle.id).1 matches Ok(p) ==> r matches Ok(
                q,
            ) && q.0 == p.0 && q.1@ == p.1),
            (read_console_input_spec(old(dev)@, self.handle.id).1 matches Err(e) ==> r
                == Err::<(u32, Vec<InputRecord>), ConsoleError>(e)),
            final(dev)@.wf(),
    {
        let buf_len = match self.number_of_console_input_events(dev) {
            Ok(l) => l,
            Err(e) => {
                return Err(e);
            },
        };
        if buf_len == 0 {
            return Ok((0, Vec::new()));
        }
        self.read_input(dev, buf_len)
    }

    /// Reads the oldest pending record, if any: the pending count is
    /// queried first, and with zero pending the answer is `None` at once,
    /// issuing no device read.
    pub fn read_single_input_event(&self, dev: &mut Device) -> (r: Result<
        Option<InputRecord>,
        ConsoleError,
    >)
        requires
            old(dev)@.wf(),
            old(dev)@.read_calls < u64::MAX,
        ensures
            final(dev)@ == read_single_input_event_spec(old(dev)@, self.handle.id).0,
            r == read_single_input_event_spec(old(dev)@, self.handle.id).1,
            final(dev)@.wf(),
    {
        let buf_len = match self.number_of_console_input_events(dev) {
            Ok(l) => l,
            Err(e) => {
                return Err(e);
            },
        };
        if buf_len == 0 {
            return Ok(None);
        }
        match self.read_input(dev, 1) {
            Ok(pair) => {
                let (got, records) = pair;
                proof {
                    let p = read_input_spec(old(dev)@, self.handle.id, 1).1->Ok_0;
                    assert(records@ == p.1);
                    assert(p.1 == old(dev)@.queue.take(1).map_values(
                        |rr: RawInputRecord| record_of_raw(rr),
                    ));
                    assert(records@[0] == record_of_raw(old(dev)@.queue[0]));
                }
                let rec = records[0];
                Ok(Some(rec))
            },
            Err(e) => Err(e),
        }
    }
}

impl From<Handle> for Console {
    /// A console whose operations run on the given handle.
    fn from(handle: Handle) -> (c: Console) {
        Console { handle }
    }
}

impl vstd::std_specs::convert::FromSpecImpl<Handle> for Console {
    open spec fn obeys_from_spec() -> bool {
        true
    }

    open spec fn from_spec(handle: Handle) -> Console {
        Console { handle }
    }
}

impl From<u64> for Console {
    /// A console whose operations run on the channel with the given raw
    /// identifier.
    fn from(raw: u64) -> (c: Console) {
        Console { handle: Handle { id: raw } }
    }
}

impl vstd::std_specs::convert::FromSpecImpl<u64> for Console {
    open spec fn obeys_from_spec() -> bool {
        true
    }

    open spec fn from_spec(raw: u64) -> Console {
        Console { handle: Handle { id: raw } }
    }
}

} // verus!
