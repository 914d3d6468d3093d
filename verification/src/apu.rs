use vstd::prelude::*;

verus! {

/// The sound unit. It accepts register writes and produces no sound.
#[derive(Clone, Copy, Debug, PartialEq, Eq, Structural)]
pub struct Apu {}

impl Apu {
    pub fn new() -> (r: Apu)
        ensures
            r == (Apu {  }),
    {
        Apu {  }
    }

    /// A write to a sound register is accepted and has no effect.
    pub fn write_io_register(&mut self, _addr: u16, _value: u8)
        ensures
            *final(self) == *old(self),
    {
    }
}

} // verus!
