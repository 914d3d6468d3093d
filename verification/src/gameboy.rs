use crate::bus::{lemma_dma_keeps_rest, lemma_spend_paced, Bus};
use crate::cpu::access::{machine, Machine};
use crate::cpu::costs::lemma_step_keeps;
use crate::cpu::CPU;
use crate::error::GbError;
use crate::platform::{GBEvent, Platform};
use crate::ppu::timing::{
    lemma_frame_position, lemma_spend_screen_off, FRAME_CLOCKS, VISIBLE_CLOCKS,
};
use vstd::prelude::*;

verus! {

/// The most steps that `run_frame` makes before it gives the host a turn.
/// A frame lasts 70224 T-states and every step spends at least four.
pub const FRAME_STEP_LIMIT: u32 = 70224;

/// The most events that `run_frame` takes from the host after one frame.
pub const FRAME_EVENT_LIMIT: u32 = 256;

/// The whole machine: processor, bus, and whether the host wants it to run on.
#[derive(Debug)]
pub struct Gameboy {
    pub cpu: CPU,
    pub bus: Bus,
    pub running: bool,
}

/// The machine after up to `fuel` rounds, each one step of the processor
/// and then the spending of the cycles that the step charged. The rounds end
/// when the picture unit reports a frame done, or with the round in which an
/// opcode named no instruction.
#[verifier::opaque]
pub open spec fn spec_emulate(m: Machine, fuel: nat) -> Machine
    decreases fuel,
{
    if m.bus.ppu.frame_done || fuel == 0 {
        m
    } else {
        let n = m.spec_step();
        let after = Machine { bus: n.bus.spec_spend(), ..n };
        if m.spec_step_status() is Err {
            after
        } else {
            spec_emulate(after, (fuel - 1) as nat)
        }
    }
}

/// What those rounds report: the error of the round that met an opcode
/// that names no instruction, if there was one.
#[verifier::opaque]
pub open spec fn spec_emulate_status(m: Machine, fuel: nat) -> Result<(), GbError>
    decreases fuel,
{
    if m.bus.ppu.frame_done || fuel == 0 {
        Ok(())
    } else {
        let n = m.spec_step();
        let after = Machine { bus: n.bus.spec_spend(), ..n };
        if m.spec_step_status() is Err {
            m.spec_step_status()
        } else {
            spec_emulate_status(after, (fuel - 1) as nat)
        }
    }
}

impl Gameboy {
    /// Between frames nothing is left to spend, the bus is well formed and
    /// the picture unit keeps its pace.
    pub open spec fn wf(self) -> bool {
        &&& self.bus.wf()
        &&& self.bus.ppu.paced()
        &&& self.bus.cycles_to_spend == 0
    }

    pub fn is_well_formed(&self) -> (r: bool)
        ensures
            r == self.wf(),
    {
        self.bus.is_well_formed() && self.bus.ppu.is_paced() && self.bus.cycles_to_spend == 0
    }

    /// The processor and the bus as one machine.
    pub open spec fn machine(self) -> Machine {
        machine(self.cpu, self.bus)
    }

    pub fn new() -> (r: Gameboy)
        ensures
            r.cpu == CPU::reset(),
            r.bus.is_reset(),
            !r.running,
            r.wf(),
    {
        Gameboy { cpu: CPU::new(), bus: Bus::new(), running: false }
    }

    /// Takes the first 256 bytes of `image` as the boot ROM, or refuses an
    /// image that is shorter.
    pub fn load_bios(&mut self, image: &[u8]) -> (r: Result<(), GbError>)
        ensures
            Bus::accepts_bios(image@) ==> r is Ok && final(self).bus.bios@ == image@.subrange(
                0,
                0x100,
            ) && *final(self) == (Gameboy {
                bus: Bus { bios: final(self).bus.bios, ..old(self).bus },
                ..*old(self)
            }),
            !Bus::accepts_bios(image@) ==> r == Err::<(), GbError>(GbError::BiosShort)
                && *final(self) == *old(self),
    {
        self.bus.load_bios(image)
    }

    /// Puts `image` into the cartridge slot, or refuses it.
    pub fn load_rom(&mut self, image: Vec<u8>) -> (r: Result<(), GbError>)
        ensures
            crate::cartridge::accepts(image@) ==> r is Ok && final(self).bus.cart.rom@ == image@
                && *final(self) == (Gameboy {
                bus: Bus { cart: final(self).bus.cart, ..old(self).bus },
                ..*old(self)
            }),
            !crate::cartridge::accepts(image@) ==> r == Err::<(), GbError>(
                GbError::UnsupportedMapper,
            ) && *final(self) == *old(self),
    {
        self.bus.load_rom(image)
    }

    /// One round: a step of the processor, then the spending of its cycles.
    pub fn round(&mut self) -> (r: Result<(), GbError>)
        requires
            old(self).wf(),
        ensures
            final(self).wf(),
            final(self).running == old(self).running,
            final(self).cpu == old(self).machine().spec_step().cpu,
            final(self).bus == old(self).machine().spec_step().bus.spec_spend(),
            r == old(self).machine().spec_step_status(),
    {
        let r = self.cpu.step(&mut self.bus);
        proof {
            lemma_spend_paced(self.bus);
        }
        self.bus.spend();
        r
    }

    /// Runs the machine until the picture unit reports a frame done, for
    /// `FRAME_STEP_LIMIT` rounds at most.
    pub fn emulate_frame(&mut self) -> (r: Result<(), GbError>)
        requires
            old(self).wf(),
        ensures
            final(self).wf(),
            final(self).running == old(self).running,
            final(self).machine() == spec_emulate(old(self).machine(), FRAME_STEP_LIMIT as nat),
            r == spec_emulate_status(old(self).machine(), FRAME_STEP_LIMIT as nat),
    {
        let mut rounds: u32 = 0;
        while !self.bus.is_frame_done() && rounds < FRAME_STEP_LIMIT
            invariant
                self.wf(),
                self.running == old(self).running,
                rounds <= FRAME_STEP_LIMIT,
                spec_emulate(self.machine(), (FRAME_STEP_LIMIT - rounds) as nat) == spec_emulate(
                    old(self).machine(),
                    FRAME_STEP_LIMIT as nat,
                ),
                spec_emulate_status(self.machine(), (FRAME_STEP_LIMIT - rounds) as nat)
                    == spec_emulate_status(old(self).machine(), FRAME_STEP_LIMIT as nat),
            decreases FRAME_STEP_LIMIT - rounds,
        {
            reveal_with_fuel(spec_emulate, 2);
            reveal_with_fuel(spec_emulate_status, 2);
            match self.round() {
                Ok(()) => {},
                Err(e) => {
                    return Err(e);
                },
            }
            rounds += 1;
        }
        reveal_with_fuel(spec_emulate, 1);
        reveal_with_fuel(spec_emulate_status, 1);
        Ok(())
    }

    /// What an event does to the machine: `Quit` ends the run.
    pub fn handle_event(&mut self, event: GBEvent)
        ensures
            *final(self) == (Gameboy { running: false, ..*old(self) }),
    {
        match event {
            GBEvent::Quit => {
                self.running = false;
            },
        }
    }

    /// Runs the machine for one frame, hands the frame buffer to the host,
    /// withdraws the report of the frame, and takes the events that the host
    /// has waiting, `FRAME_EVENT_LIMIT` at most. An opcode that names no
    /// instruction ends the frame at once, with nothing handed to the host.
    pub fn run_frame<P: Platform>(&mut self, platform: &mut P) -> (r: Result<(), GbError>)
        requires
            old(self).wf(),
        ensures
            final(self).wf(),
            r == spec_emulate_status(old(self).machine(), FRAME_STEP_LIMIT as nat),
            final(self).cpu == spec_emulate(old(self).machine(), FRAME_STEP_LIMIT as nat).cpu,
            r is Err ==> final(self).bus == spec_emulate(
                old(self).machine(),
                FRAME_STEP_LIMIT as nat,
            ).bus && final(self).running == old(self).running,
            r is Ok ==> final(self).bus == (Bus {
                ppu: crate::ppu::PPU {
                    frame_done: false,
                    ..spec_emulate(old(self).machine(), FRAME_STEP_LIMIT as nat).bus.ppu
                },
                ..spec_emulate(old(self).machine(), FRAME_STEP_LIMIT as nat).bus
            }),
            final(self).running ==> old(self).running,
    {
        let status = self.emulate_frame();
        if status.is_err() {
            return status;
        }
        platform.present_buffer(self.bus.frame_buffer());
        self.bus.ack_frame_done();
        let ghost shown = *self;
        let mut taken: u32 = 0;
        while taken < FRAME_EVENT_LIMIT
            invariant
                self.cpu == shown.cpu,
                self.bus == shown.bus,
                self.running ==> shown.running,
            decreases FRAME_EVENT_LIMIT - taken,
        {
            match platform.process_events() {
                Some(event) => self.handle_event(event),
                None => {
                    break ;
                },
            }
            taken += 1;
        }
        status
    }
}

/// What a round does to the frame, from a machine that is well formed
/// between rounds. The step costs one to nine cycles. If the screen is on
/// when they are spent, the position in the frame moves on by four T-states
/// for each, modulo the 70224 T-states of a frame; a frame is reported done
/// exactly when the position wraps, and spending requests the VBlank
/// interrupt exactly when the position reaches the start of line 144. With the
/// screen off the position stays. Either way the machine is well formed again.
#[verifier::rlimit(30)]
pub proof fn lemma_round_frame_position(m: Machine)
    requires
        m.bus.wf(),
        m.bus.ppu.paced(),
        m.bus.cycles_to_spend == 0,
    ensures
        ({
            let stepped = m.spec_step();
            let after = stepped.bus.spec_spend();
            let clocks = 4 * stepped.cycles();
            let position = m.bus.ppu.frame_position();
            let wraps = position + clocks >= FRAME_CLOCKS;
            &&& 1 <= stepped.cycles() <= 9
            &&& after.wf() && after.ppu.paced() && after.cycles_to_spend == 0
            &&& 0 <= position < FRAME_CLOCKS
            &&& (stepped.bus.ppu.enable() ==> after.ppu.frame_position() == (if wraps {
                position + clocks - FRAME_CLOCKS
            } else {
                position + clocks
            }) && after.ppu.frame_done == (m.bus.ppu.frame_done || wraps) && after.ppu.vblank_irq
                == (stepped.bus.ppu.vblank_irq || position < VISIBLE_CLOCKS
                <= after.ppu.frame_position()))
            &&& (!stepped.bus.ppu.enable() ==> after.ppu.timing() == m.bus.ppu.timing())
        }),
{
    let stepped = m.spec_step();
    lemma_step_keeps(m);
    let clocks = (4 * stepped.cycles()) as u32;
    let spent = Bus { ppu: stepped.bus.ppu.spec_spend(clocks), ..stepped.bus };
    lemma_spend_paced(stepped.bus);
    lemma_dma_keeps_rest(spent, clocks as nat);
    if stepped.bus.ppu.enable() {
        lemma_frame_position(stepped.bus.ppu, clocks);
    } else {
        lemma_spend_screen_off(stepped.bus.ppu, clocks);
    }
}

/// Whether, in each of the next `rounds` rounds that `spec_emulate` makes from
/// `m`, every opcode names an instruction and the screen is on when the
/// cycles of the round are spent.
pub open spec fn screen_stays_on(m: Machine, rounds: nat) -> bool
    decreases rounds,
{
    if m.bus.ppu.frame_done || rounds == 0 {
        true
    } else {
        let n = m.spec_step();
        let after = Machine { bus: n.bus.spec_spend(), ..n };
        &&& m.spec_step_status() is Ok
        &&& n.bus.ppu.enable()
        &&& screen_stays_on(after, (rounds - 1) as nat)
    }
}

/// While the screen stays on, the rounds of a frame end with the frame
/// reported done, as soon as there are enough of them for the T-states that
/// the frame has left, at four to a round. 17556 rounds are always enough, so
/// that `FRAME_STEP_LIMIT` ends a frame only after the screen was off.
pub proof fn lemma_frame_completes(m: Machine, fuel: nat)
    requires
        m.bus.wf(),
        m.bus.ppu.paced(),
        m.bus.cycles_to_spend == 0,
        screen_stays_on(m, fuel),
        4 * fuel >= FRAME_CLOCKS - m.bus.ppu.frame_position(),
    ensures
        spec_emulate(m, fuel).bus.ppu.frame_done,
        spec_emulate_status(m, fuel) is Ok,
    decreases fuel,
{
    reveal_with_fuel(spec_emulate, 2);
    reveal_with_fuel(spec_emulate_status, 2);
    lemma_round_frame_position(m);
    if !m.bus.ppu.frame_done {
        let n = m.spec_step();
        let after = Machine { bus: n.bus.spec_spend(), ..n };
        if !after.bus.ppu.frame_done {
            lemma_frame_completes(after, (fuel - 1) as nat);
        }
    }
}

/// T-states that the rounds of `spec_emulate` spend: four for each cycle
/// that their steps charge.
#[verifier::opaque]
pub open spec fn spec_emulate_clocks(m: Machine, fuel: nat) -> int
    decreases fuel,
{
    if m.bus.ppu.frame_done || fuel == 0 {
        0
    } else {
        let n = m.spec_step();
        let after = Machine { bus: n.bus.spec_spend(), ..n };
        if m.spec_step_status() is Err {
            4 * n.cycles()
        } else {
            4 * n.cycles() + spec_emulate_clocks(after, (fuel - 1) as nat)
        }
    }
}

/// The period of a frame. While the screen stays on, the rounds that end
/// with the frame reported done spend the T-states that the frame had left,
/// and those by which the last step ran into the next frame, which are fewer
/// than 36. From one report to the next that makes 70224 T-states, give or
/// take what one step costs.
pub proof fn lemma_frame_period(m: Machine, fuel: nat)
    requires
        m.bus.wf(),
        m.bus.ppu.paced(),
        m.bus.cycles_to_spend == 0,
        !m.bus.ppu.frame_done,
        screen_stays_on(m, fuel),
        4 * fuel >= FRAME_CLOCKS - m.bus.ppu.frame_position(),
    ensures
        ({
            let last = spec_emulate(m, fuel);
            &&& last.bus.ppu.frame_done
            &&& 0 <= last.bus.ppu.frame_position() < 36
            &&& spec_emulate_clocks(m, fuel) == FRAME_CLOCKS - m.bus.ppu.frame_position()
                + last.bus.ppu.frame_position()
        }),
    decreases fuel,
{
    lemma_round_frame_position(m);
    let n = m.spec_step();
    let after = Machine { bus: n.bus.spec_spend(), ..n };
    let rest = (fuel - 1) as nat;
    assert(spec_emulate(m, fuel) == spec_emulate(after, rest)) by {
        reveal_with_fuel(spec_emulate, 1);
    }
    assert(spec_emulate_clocks(m, fuel) == 4 * n.cycles() + spec_emulate_clocks(after, rest)) by {
        reveal_with_fuel(spec_emulate_clocks, 1);
    }
    if after.bus.ppu.frame_done {
        assert(spec_emulate(after, rest) == after) by {
            reveal_with_fuel(spec_emulate, 1);
        }
        assert(spec_emulate_clocks(after, rest) == 0) by {
            reveal_with_fuel(spec_emulate_clocks, 1);
        }
    } else {
        lemma_frame_period(after, rest);
    }
}

/// Whether the round that starts at `m` takes the frame to the start of
/// line 144: the round in which spending requests the VBlank interrupt.
pub open spec fn reaches_vblank(m: Machine) -> bool {
    let after = m.spec_step().bus.spec_spend();
    m.bus.ppu.frame_position() < VISIBLE_CLOCKS <= after.ppu.frame_position()
}

/// How many of the rounds of `spec_emulate` reach the start of line 144.
#[verifier::opaque]
pub open spec fn spec_emulate_vblanks(m: Machine, fuel: nat) -> nat
    decreases fuel,
{
    if m.bus.ppu.frame_done || fuel == 0 {
        0
    } else {
        let n = m.spec_step();
        let after = Machine { bus: n.bus.spec_spend(), ..n };
        let here: nat = if reaches_vblank(m) {
            1
        } else {
            0
        };
        if m.spec_step_status() is Err {
            here
        } else {
            here + spec_emulate_vblanks(after, (fuel - 1) as nat)
        }
    }
}

/// The VBlank interrupt is requested once in a frame. While the screen stays
/// on, exactly one of the rounds that end with the frame reported done
/// reaches the start of line 144, if the frame has not passed it yet, and
/// none does otherwise; and by `lemma_round_frame_position` that round is the
/// one in which the request is made.
pub proof fn lemma_one_vblank_per_frame(m: Machine, fuel: nat)
    requires
        m.bus.wf(),
        m.bus.ppu.paced(),
        m.bus.cycles_to_spend == 0,
        !m.bus.ppu.frame_done,
        screen_stays_on(m, fuel),
        4 * fuel >= FRAME_CLOCKS - m.bus.ppu.frame_position(),
    ensures
        spec_emulate_vblanks(m, fuel) == (if m.bus.ppu.frame_position() < VISIBLE_CLOCKS {
            1nat
        } else {
            0nat
        }),
    decreases fuel,
{
    lemma_round_frame_position(m);
    let n = m.spec_step();
    let after = Machine { bus: n.bus.spec_spend(), ..n };
    let rest = (fuel - 1) as nat;
    let here: nat = if reaches_vblank(m) {
        1
    } else {
        0
    };
    assert(spec_emulate_vblanks(m, fuel) == here + spec_emulate_vblanks(after, rest)) by {
        reveal_with_fuel(spec_emulate_vblanks, 1);
    }
    if after.bus.ppu.frame_done {
        assert(spec_emulate_vblanks(after, rest) == 0) by {
            reveal_with_fuel(spec_emulate_vblanks, 1);
        }
    } else {
        lemma_one_vblank_per_frame(after, rest);
    }
}

impl Default for Gameboy {
    fn default() -> (r: Gameboy)
        ensures
            r.cpu == CPU::reset(),
            r.bus.is_reset(),
            !r.running,
            r.wf(),
    {
        Gameboy::new()
    }
}

} // verus!
