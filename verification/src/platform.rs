use vstd::prelude::*;

verus! {

/// What the host can tell the machine.
#[derive(Clone, Copy, Debug, PartialEq, Eq, Structural)]
pub enum GBEvent {
    /// The user asked to leave.
    Quit,
}

/// The host: a screen that shows finished frames and a source of events.
pub trait Platform {
    /// Shows a finished frame: 144 lines of 160 pixels, the top line first,
    /// each pixel with red in bits 23 to 16, green in bits 15 to 8 and blue
    /// in bits 7 to 0.
    fn present_buffer(&mut self, buffer: &[u32; 23040]);

    /// Hands over the next waiting event, if there is one.
    fn process_events(&mut self) -> Option<GBEvent>;
}

} // verus!
