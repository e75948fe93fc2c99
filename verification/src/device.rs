use vstd::prelude::*;

use crate::coord::Coord;
use crate::coord::WindowPositions;
use crate::handle::STD_ERROR_ID;
use crate::handle::STD_INPUT_ID;
use crate::handle::STD_OUTPUT_ID;
use crate::input::RawInputRecord;

verus! {

/// One UTF-16 unit of the output transcript, together with the text
/// attribute that was current when it was written.
#[derive(Clone, Copy, Debug, PartialEq, Eq, Structural)]
pub struct ScreenUnit {
    /// The UTF-16 unit handed to the device's write call.
    pub unit: u16,
    /// The character-rendering attribute in force at that write.
    pub attribute: u16,
}

/// Widest screen-buffer edge the device accepts: coordinates are signed
/// 16-bit, so an edge index must stay at or below this.
pub const MAX_EDGE: u16 = 0x7FFF;

/// The console device: one channel table, one screen buffer, one input
/// queue.  This is the state every console operation acts on; the
/// operations in [`crate::console`] say exactly how each call reads and
/// changes it.  Consoles hold no copy of any of this state — only a
/// handle — so every console wrapping an open channel of one device sees
/// the same state.
pub struct Device {
    /// Identifiers of the channels that are open on this device.
    pub open: Vec<u64>,
    /// The character-rendering attribute applied to subsequently written text.
    pub attribute: u16,
    /// Screen-buffer width in cells.
    pub width: u16,
    /// Screen-buffer height in cells.
    pub height: u16,
    /// The character of each cell, row-major, in the device's narrow form.
    pub chars: Vec<u8>,
    /// The attribute of each cell, row-major.
    pub attrs: Vec<u16>,
    /// The visible window within the screen buffer.
    pub window: WindowPositions,
    /// The largest window size the device would currently allow.
    pub largest: Coord,
    /// Pending input records, oldest first.
    pub queue: Vec<RawInputRecord>,
    /// Transcript of the units written through the console write call.
    pub screen: Vec<ScreenUnit>,
    /// How often the batched input-read call was issued.
    pub read_calls: u64,
    /// How often the write call was issued.
    pub write_calls: u64,
    /// The last-error code the most recent failing call left behind.
    pub last_error: u32,
}

/// The mathematical value of a [`Device`].
#[verifier::ext_equal]
pub ghost struct DeviceView {
    /// Identifiers of the open channels.
    pub open: Seq<u64>,
    /// The current text attribute.
    pub attribute: u16,
    /// Screen-buffer width in cells.
    pub width: u16,
    /// Screen-buffer height in cells.
    pub height: u16,
    /// The character of each cell, row-major.
    pub chars: Seq<u8>,
    /// The attribute of each cell, row-major.
    pub attrs: Seq<u16>,
    /// The visible window within the screen buffer.
    pub window: WindowPositions,
    /// The largest window size the device would currently allow.
    pub largest: Coord,
    /// Pending input records, oldest first.
    pub queue: Seq<RawInputRecord>,
    /// Transcript of the units written through the console write call.
    pub screen: Seq<ScreenUnit>,
    /// How often the batched input-read call was issued.
    pub read_calls: u64,
    /// How often the write call was issued.
    pub write_calls: u64,
    /// The last-error code of the most recent failing call.
    pub last_error: u32,
}

impl View for Device {
    type V = DeviceView;

    open spec fn view(&self) -> DeviceView {
        DeviceView {
            open: self.open@,
            attribute: self.attribute,
            width: self.width,
            height: self.height,
            chars: self.chars@,
            attrs: self.attrs@,
            window: self.window,
            largest: self.largest,
            queue: self.queue@,
            screen: self.screen@,
            read_calls: self.read_calls,
            write_calls: self.write_calls,
            last_error: self.last_error,
        }
    }
}

impl DeviceView {
    /// Cells in the screen buffer.
    pub open spec fn total_cells(self) -> int {
        self.width as int * self.height as int
    }

    /// Well-formedness of a device: the cell grids cover the buffer, the
    /// buffer fits the signed 16-bit coordinate space, and the queue length
    /// fits the 32-bit count the device reports.
    pub open spec fn wf(self) -> bool {
        &&& self.chars.len() == self.total_cells()
        &&& self.attrs.len() == self.total_cells()
        &&& self.width <= MAX_EDGE
        &&& self.height <= MAX_EDGE
        &&& self.queue.len() < 0x1_0000_0000
    }

    /// Whether `id` names an open channel of this device.
    pub open spec fn is_open(self, id: u64) -> bool {
        self.open.contains(id)
    }
}

/// A vector of `n` copies of `val`.
fn filled_vec<T: Copy>(n: usize, val: T) -> (v: Vec<T>)
    ensures
        v@ == Seq::new(n as nat, |i: int| val),
{
    let mut v: Vec<T> = Vec::new();
    let mut i: usize = 0;
    while i < n
        invariant
            i <= n,
            v@.len() == i,
            forall|j: int| 0 <= j < i ==> v@[j] == val,
        decreases n - i,
    {
        v.push(val);
        i += 1;
    }
    proof {
        assert(v@ =~= Seq::new(n as nat, |i: int| val));
    }
    v
}

impl Device {
    /// A fresh device with a `width` by `height` screen buffer: standard
    /// channels open, blank cells under attribute `attribute`, the window
    /// covering the whole buffer, and an empty input queue.
    pub fn new(width: u16, height: u16, attribute: u16) -> (d: Device)
        requires
            1 <= width <= MAX_EDGE,
            1 <= height <= MAX_EDGE,
        ensures
            d@.wf(),
            d@.open == seq![STD_INPUT_ID, STD_OUTPUT_ID, STD_ERROR_ID],
            d@.attribute == attribute,
            d@.width == width,
            d@.height == height,
            d@.chars == Seq::new(width as nat * height as nat, |i: int| 32u8),
            d@.attrs == Seq::new(width as nat * height as nat, |i: int| attribute),
            d@.window == (WindowPositions {
                left: 0,
                top: 0,
                right: (width - 1) as i16,
                bottom: (height - 1) as i16,
            }),
            d@.largest == (Coord { x: width as i16, y: height as i16 }),
            d@.queue == Seq::<RawInputRecord>::empty(),
            d@.screen == Seq::<ScreenUnit>::empty(),
            d@.read_calls == 0,
            d@.write_calls == 0,
            d@.last_error == 0,
    {
        proof {
            assert((width as int) * (height as int) < 0x4000_0000) by (nonlinear_arith)
                requires
                    width <= 0x7FFF,
                    height <= 0x7FFF,
            ;
        }
        let total: usize = (width as usize) * (height as usize);
        let mut open: Vec<u64> = Vec::new();
        open.push(STD_INPUT_ID);
        open.push(STD_OUTPUT_ID);
        open.push(STD_ERROR_ID);
        let chars: Vec<u8> = filled_vec(total, 32u8);
        let attrs: Vec<u16> = filled_vec(total, attribute);
        proof {
            assert(open@ =~= seq![STD_INPUT_ID, STD_OUTPUT_ID, STD_ERROR_ID]);
            assert(chars@ =~= Seq::new(width as nat * height as nat, |i: int| 32u8));
            assert(attrs@ =~= Seq::new(width as nat * height as nat, |i: int| attribute));
        }
        Device {
            open,
            attribute,
            width,
            height,
            chars,
            attrs,
            window: WindowPositions {
                left: 0,
                top: 0,
                right: (width - 1) as i16,
                bottom: (height - 1) as i16,
            },
            largest: Coord { x: width as i16, y: height as i16 },
            queue: Vec::new(),
            screen: Vec::new(),
            read_calls: 0,
            write_calls: 0,
            last_error: 0,
        }
    }

    /// Enqueues one pending input record, as the platform's keyboard,
    /// mouse or window subsystem would.
    pub fn push_input(&mut self, r: RawInputRecord)
        requires
            old(self)@.queue.len() < 0xFFFF_FFFF,
        ensures
            final(self)@ == (DeviceView { queue: old(self)@.queue.push(r), ..old(self)@ }),
    {
        self.queue.push(r);
    }

}

} // verus!
