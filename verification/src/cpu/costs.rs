use crate::bus::Bus;
use crate::cpu::access::Machine;
use vstd::prelude::*;

verus! {

/// Machine cycles that the next instruction costs.
pub open spec fn instruction_cost(m: Machine) -> int {
    m.spec_run_instruction().cycles() - m.cycles()
}

/// A conditional JR or JP costs exactly one cycle more when it is taken:
/// three against two for JR cc, four against three for JP cc. A CALL cc that
/// is taken costs that cycle and the two cycles that push the return address:
/// six against three.
pub proof fn lemma_branch_cost(m: Machine, taken: bool)
    requires
        m.room(5),
    ensures
        m.spec_jr(true).cycles() == m.spec_jr(false).cycles() + 1,
        m.spec_jp(true).cycles() == m.spec_jp(false).cycles() + 1,
        m.spec_call(true).cycles() == m.spec_call(false).cycles() + 3,
        m.spec_jr(taken).cycles() - m.cycles() == (if taken {
            2int
        } else {
            1int
        }),
        m.spec_jp(taken).cycles() - m.cycles() == (if taken {
            3int
        } else {
            2int
        }),
        m.spec_call(taken).cycles() - m.cycles() == (if taken {
            5int
        } else {
            2int
        }),
{
    reveal(Machine::spec_jr);
    reveal(Machine::spec_jp);
    reveal(Machine::spec_call);
    reveal(Bus::spec_write);
}

/// The conditional branches as instructions: JR cc at 0x20, 0x28, 0x30 and
/// 0x38, JP cc at 0xC2, 0xCA, 0xD2 and 0xDA, CALL cc at 0xC4, 0xCC, 0xD4 and
/// 0xDC, each with its condition in bits 4 and 3, cost what `lemma_branch_cost`
/// says and the cycle of the fetch.
pub proof fn lemma_branch_instruction_cost(m: Machine)
    requires
        m.room(6),
    ensures
        ({
            let op = m.operand();
            let taken = m.cpu.condition(((op / 8) % 4) as u8);
            &&& (op == 0x20 || op == 0x28 || op == 0x30 || op == 0x38 ==> instruction_cost(m) == (
            if taken {
                3int
            } else {
                2int
            }))
            &&& (op == 0xC2 || op == 0xCA || op == 0xD2 || op == 0xDA ==> instruction_cost(m) == (
            if taken {
                4int
            } else {
                3int
            }))
            &&& (op == 0xC4 || op == 0xCC || op == 0xD4 || op == 0xDC ==> instruction_cost(m) == (
            if taken {
                6int
            } else {
                3int
            }))
        }),
{
    let op = m.operand();
    let taken = m.cpu.condition(((op / 8) % 4) as u8);
    lemma_branch_cost(m.advance(1), taken);
}

/// NOP costs one cycle. A load between registers costs one; a load from or
/// to the byte at HL costs two. LD (nn),A costs four.
pub proof fn lemma_load_cost(m: Machine)
    requires
        m.room(6),
    ensures
        ({
            let op = m.operand();
            &&& (op == 0x00 ==> instruction_cost(m) == 1)
            &&& (0x40 <= op < 0x80 && op != 0x76 ==> instruction_cost(m) == (if op % 8 == 6 || (op
                / 8) % 8 == 6 {
                2int
            } else {
                1int
            }))
            &&& (op == 0xEA ==> instruction_cost(m) == 4)
        }),
{
    reveal(Machine::spec_load);
    reveal(Machine::spec_store_absolute);
    reveal(Bus::spec_write);
}

proof fn lemma_writes_keep()
    ensures
        forall|bus: Bus, addr: u16, value: u8| (#[trigger] bus.spec_write(addr, value)).keeps(bus),
{
    assert forall|bus: Bus, addr: u16, value: u8| (#[trigger] bus.spec_write(addr, value)).keeps(
        bus,
    ) by {
        crate::bus::lemma_write_keeps(bus, addr, value);
    }
}

proof fn lemma_control_keeps(m: Machine)
    requires
        m.room(5),
    ensures
        forall|taken: bool| (#[trigger] m.spec_jr(taken)).keeps(m, 5),
        forall|taken: bool| (#[trigger] m.spec_jp(taken)).keeps(m, 5),
        forall|taken: bool| (#[trigger] m.spec_call(taken)).keeps(m, 5),
        forall|taken: bool| (#[trigger] m.spec_ret_cond(taken)).keeps(m, 5),
        forall|addr: u16| (#[trigger] m.spec_rst(addr)).keeps(m, 5),
        m.spec_ret().keeps(m, 5),
        m.spec_reti().keeps(m, 5),
        m.spec_jp_hl().keeps(m, 5),
{
    lemma_writes_keep();
    assert forall|taken: bool| (#[trigger] m.spec_jr(taken)).keeps(m, 5) by {
        reveal(Machine::spec_jr);
    }
    assert forall|taken: bool| (#[trigger] m.spec_jp(taken)).keeps(m, 5) by {
        reveal(Machine::spec_jp);
    }
    assert forall|taken: bool| (#[trigger] m.spec_call(taken)).keeps(m, 5) by {
        reveal(Machine::spec_call);
    }
    assert forall|taken: bool| (#[trigger] m.spec_ret_cond(taken)).keeps(m, 5) by {
        reveal(Machine::spec_ret_cond);
        reveal(Machine::spec_ret);
    }
    assert forall|addr: u16| (#[trigger] m.spec_rst(addr)).keeps(m, 5) by {
        reveal(Machine::spec_rst);
    }
    assert(m.spec_ret().keeps(m, 5)) by {
        reveal(Machine::spec_ret);
    }
    assert(m.spec_reti().keeps(m, 5)) by {
        reveal(Machine::spec_reti);
        reveal(Machine::spec_ret);
    }
    assert(m.spec_jp_hl().keeps(m, 5)) by {
        reveal(Machine::spec_jp_hl);
    }
}

proof fn lemma_wide_keeps(m: Machine)
    requires
        m.room(5),
    ensures
        m.spec_store_sp().keeps(m, 5),
        forall|index: u8| (#[trigger] m.spec_load_wide(index)).keeps(m, 5),
        forall|index: u8| (#[trigger] m.spec_add_wide(index)).keeps(m, 5),
        forall|index: u8| (#[trigger] m.spec_inc_wide(index)).keeps(m, 5),
        forall|index: u8| (#[trigger] m.spec_dec_wide(index)).keeps(m, 5),
        forall|index: u8| (#[trigger] m.spec_pop_pair(index)).keeps(m, 5),
        forall|index: u8| (#[trigger] m.spec_push_pair(index)).keeps(m, 5),
        m.spec_load_hl_sp().keeps(m, 5),
        m.spec_load_sp_hl().keeps(m, 5),
{
    lemma_writes_keep();
    assert(m.spec_store_sp().keeps(m, 5)) by {
        reveal(Machine::spec_store_sp);
    }
    assert forall|index: u8| (#[trigger] m.spec_load_wide(index)).keeps(m, 5) by {
        reveal(Machine::spec_load_wide);
    }
    assert forall|index: u8| (#[trigger] m.spec_add_wide(index)).keeps(m, 5) by {
        reveal(Machine::spec_add_wide);
    }
    assert forall|index: u8| (#[trigger] m.spec_inc_wide(index)).keeps(m, 5) by {
        reveal(Machine::spec_inc_wide);
    }
    assert forall|index: u8| (#[trigger] m.spec_dec_wide(index)).keeps(m, 5) by {
        reveal(Machine::spec_dec_wide);
    }
    assert forall|index: u8| (#[trigger] m.spec_pop_pair(index)).keeps(m, 5) by {
        reveal(Machine::spec_pop_pair);
    }
    assert forall|index: u8| (#[trigger] m.spec_push_pair(index)).keeps(m, 5) by {
        reveal(Machine::spec_push_pair);
    }
    assert(m.spec_load_hl_sp().keeps(m, 5)) by {
        reveal(Machine::spec_load_hl_sp);
    }
    assert(m.spec_load_sp_hl().keeps(m, 5)) by {
        reveal(Machine::spec_load_sp_hl);
    }
}

#[verifier::rlimit(30)]
proof fn lemma_byte_keeps(m: Machine)
    requires
        m.room(5),
    ensures
        forall|index: u8| (#[trigger] m.spec_store_a(index)).keeps(m, 5),
        forall|index: u8| (#[trigger] m.spec_load_a(index)).keeps(m, 5),
        forall|index: u8| (#[trigger] m.spec_inc(index)).keeps(m, 5),
        forall|index: u8| (#[trigger] m.spec_dec(index)).keeps(m, 5),
        forall|index: u8| (#[trigger] m.spec_load_immediate(index)).keeps(m, 5),
        forall|target: u8, source: u8| (#[trigger] m.spec_load(target, source)).keeps(m, 5),
        forall|kind: u8, source: u8| (#[trigger] m.spec_alu(kind, source)).keeps(m, 5),
        forall|kind: u8| (#[trigger] m.spec_alu_immediate(kind)).keeps(m, 5),
{
    lemma_writes_keep();
    assert forall|index: u8| (#[trigger] m.spec_store_a(index)).keeps(m, 5) by {
        reveal(Machine::spec_store_a);
    }
    assert forall|index: u8| (#[trigger] m.spec_load_a(index)).keeps(m, 5) by {
        reveal(Machine::spec_load_a);
    }
    assert forall|index: u8| (#[trigger] m.spec_inc(index)).keeps(m, 5) by {
        reveal(Machine::spec_inc);
    }
    assert forall|index: u8| (#[trigger] m.spec_dec(index)).keeps(m, 5) by {
        reveal(Machine::spec_dec);
    }
    assert forall|index: u8| (#[trigger] m.spec_load_immediate(index)).keeps(m, 5) by {
        reveal(Machine::spec_load_immediate);
    }
    assert forall|target: u8, source: u8| (#[trigger] m.spec_load(target, source)).keeps(
        m,
        5,
    ) by {
        reveal(Machine::spec_load);
    }
    assert forall|kind: u8, source: u8| (#[trigger] m.spec_alu(kind, source)).keeps(m, 5) by {
        reveal(Machine::spec_alu);
    }
    assert forall|kind: u8| (#[trigger] m.spec_alu_immediate(kind)).keeps(m, 5) by {
        reveal(Machine::spec_alu_immediate);
    }
}

#[verifier::rlimit(30)]
proof fn lemma_second_page_keeps(m: Machine, op: u8)
    requires
        m.room(2),
    ensures
        m.spec_execute_cb(op).keeps(m, 2),
{
    reveal(Machine::spec_execute_cb);
    lemma_writes_keep();
    let index = (op % 8) as u8;
    let read = m.after_operand8(index);
    assert(read.keeps(m, 1));
    assert(read.room(1));
    assert forall|value: u8| (#[trigger] read.with_operand8(index, value)).keeps(read, 1) by {}
    assert forall|cpu: crate::cpu::CPU, value: u8| (#[trigger] read.with_cpu(cpu).with_operand8(
        index,
        value,
    )).keeps(read, 1) by {}
}

#[verifier::rlimit(30)]
proof fn lemma_page_keeps(m: Machine)
    requires
        m.room(5),
    ensures
        m.spec_store_high().keeps(m, 5),
        m.spec_load_high().keeps(m, 5),
        m.spec_store_high_c().keeps(m, 5),
        m.spec_store_absolute().keeps(m, 5),
        m.spec_load_absolute().keeps(m, 5),
        m.spec_run_cb().keeps(m, 5),
{
    lemma_writes_keep();
    assert(m.spec_store_high().keeps(m, 5)) by {
        reveal(Machine::spec_store_high);
    }
    assert(m.spec_load_high().keeps(m, 5)) by {
        reveal(Machine::spec_load_high);
    }
    assert(m.spec_store_high_c().keeps(m, 5)) by {
        reveal(Machine::spec_store_high_c);
    }
    assert(m.spec_store_absolute().keeps(m, 5)) by {
        reveal(Machine::spec_store_absolute);
    }
    assert(m.spec_load_absolute().keeps(m, 5)) by {
        reveal(Machine::spec_load_absolute);
    }
    assert(m.spec_run_cb().keeps(m, 5)) by {
        reveal(Machine::spec_run_cb);
        lemma_second_page_keeps(m.advance(1), m.operand());
    }
}

#[verifier::rlimit(30)]
proof fn lemma_execute_low_keeps(m: Machine, op: u8)
    requires
        m.room(5),
    ensures
        m.spec_execute_low(op).keeps(m, 5),
{
    lemma_control_keeps(m);
    lemma_wide_keeps(m);
    lemma_byte_keeps(m);
}

#[verifier::rlimit(30)]
proof fn lemma_execute_high_keeps(m: Machine, op: u8)
    requires
        m.room(5),
    ensures
        m.spec_execute_high(op).keeps(m, 5),
{
    lemma_control_keeps(m);
    lemma_wide_keeps(m);
    lemma_byte_keeps(m);
    lemma_page_keeps(m);
}

/// Whatever the instruction, it costs at least the cycle of its fetch and at
/// most six cycles, leaves the picture unit where it stands in the frame, and
/// keeps a well-formed bus well formed.
#[verifier::rlimit(30)]
pub proof fn lemma_instruction_keeps(m: Machine)
    requires
        m.room(6),
    ensures
        m.spec_run_instruction().keeps(m, 6),
        1 <= instruction_cost(m) <= 6,
{
    let fetched = m.advance(1);
    let op = m.operand();
    if op < 0x40 {
        lemma_execute_low_keeps(fetched, op);
    } else if op < 0xC0 {
        lemma_byte_keeps(fetched);
    } else {
        lemma_execute_high_keeps(fetched, op);
    }
}

/// A step costs at least one cycle and at most nine: the instruction or the
/// idle cycle, and the three cycles of an interrupt that is taken. It leaves
/// the picture unit where it stands in the frame and keeps a well-formed bus
/// well formed.
pub proof fn lemma_step_keeps(m: Machine)
    requires
        m.room(9),
    ensures
        m.spec_step().keeps(m, 9),
        m.spec_step().cycles() >= m.cycles() + 1,
{
    reveal(Machine::spec_step);
    lemma_writes_keep();
    lemma_instruction_keeps(m);
}

} // verus!
