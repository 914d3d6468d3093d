use crate::error::GbError;
use vstd::prelude::*;

verus! {

/// Offset of the header byte that names the cartridge's bank controller.
pub const MAPPER_OFFSET: usize = 0x147;

/// A plain ROM image without a bank controller.
#[derive(Debug)]
pub struct Cartridge {
    pub rom: Vec<u8>,
}

/// An image is accepted when it reaches the mapper byte and that byte is 0.
pub open spec fn accepts(image: Seq<u8>) -> bool {
    image.len() > MAPPER_OFFSET && image[MAPPER_OFFSET as int] == 0
}

impl Cartridge {
    /// A cartridge slot with nothing in it.
    pub fn new() -> (r: Cartridge)
        ensures
            r.rom@ == Seq::<u8>::empty(),
    {
        Cartridge { rom: Vec::new() }
    }

    /// Takes `image` as the cartridge, or refuses it.
    pub fn from_bytes(image: Vec<u8>) -> (r: Result<Cartridge, GbError>)
        ensures
            accepts(image@) ==> r is Ok && r->Ok_0.rom@ == image@,
            !accepts(image@) ==> r == Err::<Cartridge, GbError>(GbError::UnsupportedMapper),
    {
        if image.len() > MAPPER_OFFSET && image[MAPPER_OFFSET] == 0 {
            Ok(Cartridge { rom: image })
        } else {
            Err(GbError::UnsupportedMapper)
        }
    }

    /// Replaces the image by `image`, or refuses it and keeps the present one.
    pub fn load_bytes(&mut self, image: Vec<u8>) -> (r: Result<(), GbError>)
        ensures
            accepts(image@) ==> r is Ok && final(self).rom@ == image@,
            !accepts(image@) ==> r == Err::<(), GbError>(GbError::UnsupportedMapper) && *final(self)
                == *old(self),
    {
        if image.len() > MAPPER_OFFSET && image[MAPPER_OFFSET] == 0 {
            self.rom = image;
            Ok(())
        } else {
            Err(GbError::UnsupportedMapper)
        }
    }

    /// Number of bytes in the image.
    pub fn len(&self) -> (r: usize)
        ensures
            r == self.rom@.len(),
    {
        self.rom.len()
    }

    pub fn read_rom_u8(&self, addr: u16) -> (r: u8)
        requires
            addr < self.rom@.len(),
        ensures
            r == self.rom@[addr as int],
    {
        self.rom[addr as usize]
    }

    /// There is no bank controller to receive the write: nothing changes.
    pub fn write_rom_u8(&mut self, _addr: u16, _value: u8)
        ensures
            *final(self) == *old(self),
    {
    }

    /// There is no cartridge RAM: nothing changes.
    pub fn write_ram_u8(&mut self, _addr: u16, _value: u8)
        ensures
            *final(self) == *old(self),
    {
    }
}

impl Default for Cartridge {
    fn default() -> (r: Cartridge)
        ensures
            r.rom@ == Seq::<u8>::empty(),
    {
        Cartridge::new()
    }
}

} // verus!
