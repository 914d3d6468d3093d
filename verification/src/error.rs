use vstd::prelude::*;

verus! {

/// The ways in which loading or running a program can fail.
#[derive(Clone, Copy, Debug, PartialEq, Eq, Structural)]
pub enum GbError {
    /// The cartridge header does not declare a plain ROM without a bank controller.
    UnsupportedMapper,
    /// The boot ROM image holds fewer than 256 bytes.
    BiosShort,
    /// The fetched byte is not an instruction of the processor.
    UnknownOpcode(u8),
}

} // verus!
