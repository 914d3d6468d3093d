pub mod apu;
pub mod bits;
pub mod bus;
pub mod cartridge;
pub mod cpu;
pub mod error;
pub mod gameboy;
pub mod joypad;
pub mod platform;
pub mod ppu;

pub use error::GbError;
pub use gameboy::Gameboy;
pub use platform::{GBEvent, Platform};
