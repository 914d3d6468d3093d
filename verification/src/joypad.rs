use vstd::prelude::*;

verus! {

/// The eight buttons and the row of the matrix that the joypad register exposes.
///
/// `mode` selects the direction row when set and the action row when clear.
#[derive(Clone, Copy, Debug, PartialEq, Eq, Structural)]
pub struct Joypad {
    pub mode: bool,
    pub right: bool,
    pub left: bool,
    pub up: bool,
    pub down: bool,
    pub a: bool,
    pub b: bool,
    pub start: bool,
    pub select: bool,
}

/// One active-low line of the button matrix: 0 while pressed, 1 while released.
pub open spec fn line(pressed: bool) -> u8 {
    if pressed {
        0u8
    } else {
        1u8
    }
}

fn line_of(pressed: bool) -> (r: u8)
    ensures
        r == line(pressed),
{
    if pressed {
        0
    } else {
        1
    }
}

/// A row of four lines under the row marker `high`, which holds bits 7 to 4.
pub open spec fn row(high: u8, l3: bool, l2: bool, l1: bool, l0: bool) -> u8 {
    high | (line(l3) << 3) | (line(l2) << 2) | (line(l1) << 1) | line(l0)
}

impl Joypad {
    /// All buttons released, action row exposed.
    pub open spec fn released() -> Joypad {
        Joypad {
            mode: false,
            right: false,
            left: false,
            up: false,
            down: false,
            a: false,
            b: false,
            start: false,
            select: false,
        }
    }

    pub fn new() -> (r: Joypad)
        ensures
            r == Joypad::released(),
    {
        Joypad {
            mode: false,
            right: false,
            left: false,
            up: false,
            down: false,
            a: false,
            b: false,
            start: false,
            select: false,
        }
    }

    /// The byte that a read of the joypad register yields.
    pub open spec fn spec_read(self) -> u8 {
        if self.mode {
            row(0xE0u8, self.down, self.up, self.left, self.right)
        } else {
            row(0xD0u8, self.start, self.select, self.a, self.b)
        }
    }

    pub fn read(&self) -> (r: u8)
        ensures
            r == self.spec_read(),
    {
        if self.mode {
            0xE0u8 | (line_of(self.down) << 3) | (line_of(self.up) << 2) | (line_of(self.left) << 1)
                | line_of(self.right)
        } else {
            0xD0u8 | (line_of(self.start) << 3) | (line_of(self.select) << 2) | (line_of(self.a)
                << 1) | line_of(self.b)
        }
    }

    /// A write to the joypad register selects the row by bit 5 and leaves the
    /// buttons alone.
    pub fn write(&mut self, value: u8)
        ensures
            *final(self) == (Joypad { mode: (value & 0x20) != 0, ..*old(self) }),
    {
        self.mode = (value & 0x20) != 0;
    }
}

/// Whatever is pressed, bits 7 and 6 of the register read as set, and exactly one of
/// bits 5 and 4 is set: bit 5 with the direction row, bit 4 with the action row.
pub proof fn lemma_read_high_bits(pad: Joypad)
    ensures
        pad.spec_read() & 0xC0 == 0xC0,
        pad.mode ==> pad.spec_read() & 0x30 == 0x20,
        !pad.mode ==> pad.spec_read() & 0x30 == 0x10,
{
    lemma_row_bits(0xE0u8, line(pad.down), line(pad.up), line(pad.left), line(pad.right));
    lemma_row_bits(0xD0u8, line(pad.start), line(pad.select), line(pad.a), line(pad.b));
}

/// A line of the exposed row reads 0 exactly when its button is pressed.
pub proof fn lemma_read_lines(pad: Joypad)
    ensures
        pad.mode ==> (pad.spec_read() & 8 == 0 <==> pad.down) && (pad.spec_read() & 4 == 0
            <==> pad.up) && (pad.spec_read() & 2 == 0 <==> pad.left) && (pad.spec_read() & 1 == 0
            <==> pad.right),
        !pad.mode ==> (pad.spec_read() & 8 == 0 <==> pad.start) && (pad.spec_read() & 4 == 0
            <==> pad.select) && (pad.spec_read() & 2 == 0 <==> pad.a) && (pad.spec_read() & 1 == 0
            <==> pad.b),
{
    lemma_row_bits(0xE0u8, line(pad.down), line(pad.up), line(pad.left), line(pad.right));
    lemma_row_bits(0xD0u8, line(pad.start), line(pad.select), line(pad.a), line(pad.b));
}

proof fn lemma_row_bits(high: u8, l3: u8, l2: u8, l1: u8, l0: u8)
    by (bit_vector)
    requires
        high == 0xE0u8 || high == 0xD0u8,
        l3 <= 1,
        l2 <= 1,
        l1 <= 1,
        l0 <= 1,
    ensures
        ({
            let r = high | (l3 << 3) | (l2 << 2) | (l1 << 1) | l0;
            &&& r & 0xC0 == 0xC0
            &&& (high == 0xE0u8 ==> r & 0x30 == 0x20)
            &&& (high == 0xD0u8 ==> r & 0x30 == 0x10)
            &&& (r & 8 == 0 <==> l3 == 0)
            &&& (r & 4 == 0 <==> l2 == 0)
            &&& (r & 2 == 0 <==> l1 == 0)
            &&& (r & 1 == 0 <==> l0 == 0)
        }),
{
}

impl Default for Joypad {
    fn default() -> (r: Joypad)
        ensures
            r == Joypad::released(),
    {
        Joypad::new()
    }
}

} // verus!
