//! The mathematical model of the CPU: what each instruction does to the
//! registers, memory, halt flag and cycle count, and what a run does.
use vstd::prelude::*;

use crate::alu::{alu_operation, dec_flags, dec_result, inc_flags, inc_result, sub_flags};
use crate::error::CpuError;
use crate::memory::{load, store, MEMORY_SIZE};
use crate::registers::{high_byte, lemma_pair_split, low_byte, pair, Registers, R8_HL_MEMORY};

verus! {

/// The most machine cycles that any one instruction takes.
pub const MAX_INSTRUCTION_CYCLES: u64 = 6;

/// The opcode that halts the CPU.
pub const HALT_OPCODE: u8 = 0x76;

/// The whole state that instructions read and change.
pub ghost struct Machine {
    pub regs: Registers,
    pub mem: Seq<u8>,
    pub halted: bool,
    pub cycles: int,
}

impl Machine {
    /// Memory has its fixed size.
    pub open spec fn wf(self) -> bool {
        self.mem.len() == MEMORY_SIZE
    }

    pub open spec fn tick(self, n: int) -> Machine {
        Machine { cycles: self.cycles + n, ..self }
    }

    pub open spec fn with_regs(self, regs: Registers) -> Machine {
        Machine { regs, ..self }
    }
}

/// The byte at PC, and the registers with PC moved past it.
pub open spec fn fetch8(regs: Registers, mem: Seq<u8>) -> Result<(u8, Registers), CpuError> {
    match load(mem, regs.pc) {
        Ok(v) => Ok((v, Registers { pc: regs.pc.wrapping_add(1), ..regs })),
        Err(e) => Err(e),
    }
}

/// The little-endian 16-bit value at PC, and the registers with PC moved
/// past it.
pub open spec fn fetch16(regs: Registers, mem: Seq<u8>) -> Result<(u16, Registers), CpuError> {
    match fetch8(regs, mem) {
        Ok((lo, r1)) => match fetch8(r1, mem) {
            Ok((hi, r2)) => Ok((pair(hi, lo), r2)),
            Err(e) => Err(e),
        },
        Err(e) => Err(e),
    }
}

/// Pushing `v`: SP steps down and the high byte is written, then SP steps
/// down again and the low byte is written.
pub open spec fn push16(regs: Registers, mem: Seq<u8>, v: u16) -> Result<(Registers, Seq<u8>), CpuError> {
    let sp1 = regs.sp.wrapping_sub(1);
    let sp2 = sp1.wrapping_sub(1);
    match store(mem, sp1, high_byte(v)) {
        Ok(mem1) => match store(mem1, sp2, low_byte(v)) {
            Ok(mem2) => Ok((Registers { sp: sp2, ..regs }, mem2)),
            Err(e) => Err(e),
        },
        Err(e) => Err(e),
    }
}

/// Popping: the low byte is read at SP, the high byte at SP + 1, and SP
/// moves up by two.
pub open spec fn pop16(regs: Registers, mem: Seq<u8>) -> Result<(u16, Registers), CpuError> {
    let sp1 = regs.sp.wrapping_add(1);
    match load(mem, regs.sp) {
        Ok(lo) => match load(mem, sp1) {
            Ok(hi) => Ok((pair(hi, lo), Registers { sp: sp1.wrapping_add(1), ..regs })),
            Err(e) => Err(e),
        },
        Err(e) => Err(e),
    }
}

/// Cost of an 8-bit operand access: one more cycle through memory.
pub open spec fn operand_cycles(sel: u8) -> int {
    if sel == R8_HL_MEMORY { 1 } else { 0 }
}

/// The 3-bit field of an opcode at bits 5 to 3.
pub open spec fn bits_5_3(op: u8) -> u8 {
    (op >> 3u8) & 7u8
}

/// The 2-bit field of an opcode at bits 5 and 4.
pub open spec fn bits_5_4(op: u8) -> u8 {
    (op >> 4u8) & 3u8
}

/// The 2-bit condition field of an opcode, at bits 4 and 3.
pub open spec fn bits_4_3(op: u8) -> u8 {
    (op >> 3u8) & 3u8
}

/// The 3-bit field of an opcode at bits 2 to 0.
pub open spec fn bits_2_0(op: u8) -> u8 {
    op & 7u8
}

/// `ld r16, imm16`: three cycles.
pub open spec fn load_r16_immediate(m: Machine, sel: u8) -> Result<Machine, CpuError> {
    match fetch16(m.regs, m.mem) {
        Ok((v, regs)) => Ok(m.with_regs(regs.with_r16(sel, v)).tick(3)),
        Err(e) => Err(e),
    }
}

/// `ld [imm16], sp`: low byte of SP at the address, high byte after it;
/// five cycles.
pub open spec fn store_sp_immediate(m: Machine) -> Result<Machine, CpuError> {
    match fetch16(m.regs, m.mem) {
        Ok((address, regs)) => match store(m.mem, address, low_byte(regs.sp)) {
            Ok(mem1) => match store(mem1, address.wrapping_add(1), high_byte(regs.sp)) {
                Ok(mem2) => Ok(Machine { regs, mem: mem2, ..m }.tick(5)),
                Err(e) => Err(e),
            },
            Err(e) => Err(e),
        },
        Err(e) => Err(e),
    }
}

/// `inc r16` and `dec r16`: wrapping, no flags; two cycles.
pub open spec fn step_r16(m: Machine, sel: u8, increment: bool) -> Machine {
    let v = m.regs.r16(sel);
    let n = if increment { v.wrapping_add(1) } else { v.wrapping_sub(1) };
    m.with_regs(m.regs.with_r16(sel, n)).tick(2)
}

/// `inc r8` and `dec r8`: Z, N and H from the result, C kept; one cycle, or
/// three through memory.
pub open spec fn step_r8(m: Machine, sel: u8, increment: bool) -> Result<Machine, CpuError> {
    match m.regs.read_r8(m.mem, sel) {
        Ok(v) => {
            let res = if increment { inc_result(v) } else { dec_result(v) };
            let flags = if increment { inc_flags(v, m.regs.f) } else { dec_flags(v, m.regs.f) };
            match (Registers { f: flags, ..m.regs }).write_r8(m.mem, sel, res) {
                Ok((regs, mem)) => Ok(Machine { regs, mem, ..m }.tick(1 + 2 * operand_cycles(sel))),
                Err(e) => Err(e),
            }
        },
        Err(e) => Err(e),
    }
}

/// `ld r8, imm8`: two cycles, or three through memory.
pub open spec fn load_r8_immediate(m: Machine, sel: u8) -> Result<Machine, CpuError> {
    match fetch8(m.regs, m.mem) {
        Ok((v, regs)) => match regs.write_r8(m.mem, sel, v) {
            Ok((regs2, mem)) => Ok(Machine { regs: regs2, mem, ..m }.tick(2 + operand_cycles(sel))),
            Err(e) => Err(e),
        },
        Err(e) => Err(e),
    }
}

/// `jr e8` (taken) and `jr cc, e8`: the signed offset is always read; when
/// taken it is added to PC, three cycles, else two.
pub open spec fn jump_relative(m: Machine, taken: bool) -> Result<Machine, CpuError> {
    match fetch8(m.regs, m.mem) {
        Ok((e, regs)) => if taken {
            Ok(m.with_regs(Registers { pc: regs.pc.wrapping_add_signed(e as i8 as i16), ..regs }).tick(3))
        } else {
            Ok(m.with_regs(regs).tick(2))
        },
        Err(e) => Err(e),
    }
}

/// Quadrant 0 (`00xxxxxx`): no-op, immediate loads, increments and
/// decrements, relative jumps; any other byte is not implemented.
pub open spec fn quadrant0(m: Machine, op: u8) -> Result<Machine, CpuError> {
    if op == 0x00 {
        Ok(m.tick(1))
    } else if op & 0xCF == 0x01 {
        load_r16_immediate(m, bits_5_4(op))
    } else if op == 0x08 {
        store_sp_immediate(m)
    } else if op & 0xCF == 0x03 {
        Ok(step_r16(m, bits_5_4(op), true))
    } else if op & 0xCF == 0x0B {
        Ok(step_r16(m, bits_5_4(op), false))
    } else if op & 0xC7 == 0x04 {
        step_r8(m, bits_5_3(op), true)
    } else if op & 0xC7 == 0x05 {
        step_r8(m, bits_5_3(op), false)
    } else if op & 0xC7 == 0x06 {
        load_r8_immediate(m, bits_5_3(op))
    } else if op == 0x18 {
        jump_relative(m, true)
    } else if op & 0xE7 == 0x20 {
        jump_relative(m, m.regs.condition(bits_4_3(op)))
    } else {
        Err(CpuError::UnimplementedOpcode { opcode: op })
    }
}

/// Quadrant 1 (`01xxxxxx`): HALT, or `ld dst, src` with one cycle more
/// when either side is memory.
pub open spec fn quadrant1(m: Machine, op: u8) -> Result<Machine, CpuError> {
    if op == HALT_OPCODE {
        Ok(Machine { halted: true, ..m }.tick(1))
    } else {
        let dst = bits_5_3(op);
        let src = bits_2_0(op);
        match m.regs.read_r8(m.mem, src) {
            Ok(v) => match m.regs.write_r8(m.mem, dst, v) {
                Ok((regs, mem)) => Ok(Machine { regs, mem, ..m }.tick(
                    1 + operand_cycles(src) + operand_cycles(dst),
                )),
                Err(e) => Err(e),
            },
            Err(e) => Err(e),
        }
    }
}

/// The registers after ALU operation `kind` on the accumulator and `v`:
/// A and F take what the ALU returns.
pub open spec fn alu_registers(regs: Registers, kind: u8, v: u8) -> Registers {
    let (a, f) = alu_operation(kind, regs.a, v, regs.f);
    Registers { a, f, ..regs }
}

/// The machine after ALU operation `kind` on the accumulator and `v`.
pub open spec fn apply_alu(m: Machine, kind: u8, v: u8) -> Machine {
    m.with_regs(alu_registers(m.regs, kind, v))
}

/// Quadrant 2 (`10xxxxxx`): ALU operation on the accumulator and an 8-bit
/// operand; one cycle, or two through memory.
pub open spec fn quadrant2(m: Machine, op: u8) -> Result<Machine, CpuError> {
    let src = bits_2_0(op);
    match m.regs.read_r8(m.mem, src) {
        Ok(v) => Ok(apply_alu(m, bits_5_3(op), v).tick(1 + operand_cycles(src))),
        Err(e) => Err(e),
    }
}

/// ALU operation with the byte after the opcode: two cycles.
pub open spec fn alu_immediate(m: Machine, kind: u8) -> Result<Machine, CpuError> {
    match fetch8(m.regs, m.mem) {
        Ok((v, regs)) => Ok(apply_alu(m.with_regs(regs), kind, v).tick(2)),
        Err(e) => Err(e),
    }
}

/// `ret cc`: when the condition holds PC is popped, five cycles; else two.
pub open spec fn return_conditional(m: Machine, cc: u8) -> Result<Machine, CpuError> {
    if m.regs.condition(cc) {
        match pop16(m.regs, m.mem) {
            Ok((address, regs)) => Ok(m.with_regs(Registers { pc: address, ..regs }).tick(5)),
            Err(e) => Err(e),
        }
    } else {
        Ok(m.tick(2))
    }
}

/// `jp cc, imm16`: the address is always read; when the condition holds it
/// goes to PC, four cycles, else three.
pub open spec fn jump_conditional(m: Machine, cc: u8) -> Result<Machine, CpuError> {
    match fetch16(m.regs, m.mem) {
        Ok((address, regs)) => if regs.condition(cc) {
            Ok(m.with_regs(Registers { pc: address, ..regs }).tick(4))
        } else {
            Ok(m.with_regs(regs).tick(3))
        },
        Err(e) => Err(e),
    }
}

/// `call cc, imm16`: the address is always read; when the condition holds
/// the PC after the operand is pushed and PC takes the address, six cycles,
/// else three.
pub open spec fn call_conditional(m: Machine, cc: u8) -> Result<Machine, CpuError> {
    match fetch16(m.regs, m.mem) {
        Ok((address, regs)) => if regs.condition(cc) {
            match push16(regs, m.mem, regs.pc) {
                Ok((regs2, mem)) => Ok(Machine { regs: Registers { pc: address, ..regs2 }, mem, ..m }.tick(6)),
                Err(e) => Err(e),
            }
        } else {
            Ok(m.with_regs(regs).tick(3))
        },
        Err(e) => Err(e),
    }
}

/// `rst tgt3`: PC is pushed and becomes `target * 8`; four cycles.
pub open spec fn restart(m: Machine, target: u8) -> Result<Machine, CpuError> {
    match push16(m.regs, m.mem, m.regs.pc) {
        Ok((regs, mem)) => Ok(Machine { regs: Registers { pc: (target * 8) as u16, ..regs }, mem, ..m }.tick(4)),
        Err(e) => Err(e),
    }
}

/// `pop r16stk`: three cycles.
pub open spec fn pop_pair(m: Machine, sel: u8) -> Result<Machine, CpuError> {
    match pop16(m.regs, m.mem) {
        Ok((v, regs)) => Ok(m.with_regs(regs.with_r16_stack(sel, v)).tick(3)),
        Err(e) => Err(e),
    }
}

/// `push r16stk`: four cycles.
pub open spec fn push_pair(m: Machine, sel: u8) -> Result<Machine, CpuError> {
    match push16(m.regs, m.mem, m.regs.r16_stack(sel)) {
        Ok((regs, mem)) => Ok(Machine { regs, mem, ..m }.tick(4)),
        Err(e) => Err(e),
    }
}

/// Quadrant 3 (`11xxxxxx`): immediate ALU operations, conditional returns,
/// jumps and calls, restarts, push and pop; any other byte is not
/// implemented.
pub open spec fn quadrant3(m: Machine, op: u8) -> Result<Machine, CpuError> {
    if op & 0xC7 == 0xC6 {
        alu_immediate(m, bits_5_3(op))
    } else if op & 0xE7 == 0xC0 {
        return_conditional(m, bits_4_3(op))
    } else if op & 0xE7 == 0xC2 {
        jump_conditional(m, bits_4_3(op))
    } else if op & 0xE7 == 0xC4 {
        call_conditional(m, bits_4_3(op))
    } else if op & 0xC7 == 0xC7 {
        restart(m, bits_5_3(op))
    } else if op & 0xCF == 0xC1 {
        pop_pair(m, bits_5_4(op))
    } else if op & 0xCF == 0xC5 {
        push_pair(m, bits_5_4(op))
    } else {
        Err(CpuError::UnimplementedOpcode { opcode: op })
    }
}

/// The quadrant of an opcode: its top two bits.
pub open spec fn quadrant(op: u8) -> u8 {
    op >> 6u8
}

/// Executing opcode `op` (already fetched, PC past it).
pub open spec fn execute(m: Machine, op: u8) -> Result<Machine, CpuError> {
    match quadrant(op) {
        0 => quadrant0(m, op),
        1 => quadrant1(m, op),
        2 => quadrant2(m, op),
        _ => quadrant3(m, op),
    }
}

/// One fetch-decode-execute step: the opcode at PC is read, PC moves past
/// it, and the opcode is executed.
pub open spec fn step(m: Machine) -> Result<Machine, CpuError> {
    match fetch8(m.regs, m.mem) {
        Ok((op, regs)) => execute(m.with_regs(regs), op),
        Err(e) => Err(e),
    }
}

/// Every instruction that completes takes at least one cycle and at most
/// `MAX_INSTRUCTION_CYCLES`.
pub proof fn lemma_execute_cycles(m: Machine, op: u8)
    ensures
        execute(m, op) is Ok ==> m.cycles + 1 <= execute(m, op)->Ok_0.cycles <= m.cycles
            + MAX_INSTRUCTION_CYCLES,
{
}

pub proof fn lemma_step_cycles(m: Machine)
    ensures
        step(m) is Ok ==> m.cycles + 1 <= step(m)->Ok_0.cycles <= m.cycles + MAX_INSTRUCTION_CYCLES,
{
    if let Ok((op, regs)) = fetch8(m.regs, m.mem) {
        lemma_execute_cycles(m.with_regs(regs), op);
    }
}

/// Running from `m` with the program ending at `bound`: stop with the state
/// as it is once halted or once PC is at or past the bound; otherwise fail
/// if the cycle counter has no room for another instruction, else step and
/// go on. A fault ends the run with its error.
pub open spec fn run_from(m: Machine, bound: int) -> Result<Machine, CpuError>
    decreases u64::MAX - m.cycles,
    via run_from_decreases
{
    if m.halted || m.regs.pc >= bound {
        Ok(m)
    } else if m.cycles > u64::MAX - MAX_INSTRUCTION_CYCLES {
        Err(CpuError::CycleCounterOverflow)
    } else {
        match step(m) {
            Ok(n) => run_from(n, bound),
            Err(e) => Err(e),
        }
    }
}

#[via_fn]
proof fn run_from_decreases(m: Machine, bound: int) {
    lemma_step_cycles(m);
}

/// Compare (`cp a, r8` and `cp a, imm8`) never changes the accumulator or
/// memory: it writes only F, with the flags that `sub` of the same operand
/// without carry gives (and, for the immediate form, moves PC past the
/// operand).
pub proof fn law_compare_writes_only_flags(m: Machine, op: u8)
    requires
        op & 0xF8 == 0xB8 || op == 0xFE,
    ensures
        op != 0xFE && execute(m, op) is Ok ==> {
            let v = m.regs.read_r8(m.mem, bits_2_0(op))->Ok_0;
            execute(m, op)->Ok_0.regs == Registers { f: sub_flags(m.regs.a, v, false), ..m.regs }
                && execute(m, op)->Ok_0.mem == m.mem
        },
        op == 0xFE && execute(m, op) is Ok ==> {
            let (v, regs) = fetch8(m.regs, m.mem)->Ok_0;
            execute(m, op)->Ok_0.regs == Registers { f: sub_flags(m.regs.a, v, false), ..regs }
                && execute(m, op)->Ok_0.mem == m.mem
        },
{
    if op == 0xFE {
        assert(quadrant(0xFEu8) == 3 && 0xFEu8 & 0xC7u8 == 0xC6u8 && bits_5_3(0xFEu8) == 7) by (bit_vector);
    } else {
        assert(op & 0xF8u8 == 0xB8u8 ==> quadrant(op) == 2 && bits_5_3(op) == 7) by (bit_vector);
    }
}

/// The opcode of `push` for stack pair `sel` (BC, DE, HL, AF).
pub open spec fn push_opcode(sel: u8) -> u8 {
    (0xC5 + sel * 16) as u8
}

/// The opcode of `pop` for stack pair `sel` (BC, DE, HL, AF).
pub open spec fn pop_opcode(sel: u8) -> u8 {
    (0xC1 + sel * 16) as u8
}

proof fn lemma_stack_opcodes(sel: u8)
    requires
        sel < 4,
    ensures
        quadrant(push_opcode(sel)) == 3,
        push_opcode(sel) & 0xC7 != 0xC6,
        push_opcode(sel) & 0xE7 != 0xC0,
        push_opcode(sel) & 0xE7 != 0xC2,
        push_opcode(sel) & 0xE7 != 0xC4,
        push_opcode(sel) & 0xC7 != 0xC7,
        push_opcode(sel) & 0xCF != 0xC1,
        push_opcode(sel) & 0xCF == 0xC5,
        bits_5_4(push_opcode(sel)) == sel,
        quadrant(pop_opcode(sel)) == 3,
        pop_opcode(sel) & 0xC7 != 0xC6,
        pop_opcode(sel) & 0xE7 != 0xC0,
        pop_opcode(sel) & 0xE7 != 0xC2,
        pop_opcode(sel) & 0xE7 != 0xC4,
        pop_opcode(sel) & 0xC7 != 0xC7,
        pop_opcode(sel) & 0xCF == 0xC1,
        bits_5_4(pop_opcode(sel)) == sel,
{
    let p = push_opcode(sel);
    let q = pop_opcode(sel);
    assert(sel < 4 && p == 0xC5u8 + sel * 16u8 && q == 0xC1u8 + sel * 16u8 ==> {
        &&& p >> 6u8 == 3 && p & 0xC7u8 != 0xC6u8 && p & 0xE7u8 != 0xC0u8 && p & 0xE7u8 != 0xC2u8
        &&& p & 0xE7u8 != 0xC4u8 && p & 0xC7u8 != 0xC7u8 && p & 0xCFu8 != 0xC1u8 && p & 0xCFu8 == 0xC5u8
        &&& (p >> 4u8) & 3u8 == sel
        &&& q >> 6u8 == 3 && q & 0xC7u8 != 0xC6u8 && q & 0xE7u8 != 0xC0u8 && q & 0xE7u8 != 0xC2u8
        &&& q & 0xE7u8 != 0xC4u8 && q & 0xC7u8 != 0xC7u8 && q & 0xCFu8 == 0xC1u8
        &&& (q >> 4u8) & 3u8 == sel
    }) by (bit_vector);
}

/// Push then pop of the same stack pair (BC, DE, HL or AF) gives back every
/// register as it was, the pair's 16-bit value and SP included, whenever the
/// push succeeds.
pub proof fn law_push_pop_round_trip(m: Machine, sel: u8)
    requires
        m.wf(),
        sel < 4,
    ensures
        execute(m, push_opcode(sel)) is Ok ==> {
            let pushed = execute(m, push_opcode(sel))->Ok_0;
            &&& execute(pushed, pop_opcode(sel)) is Ok
            &&& execute(pushed, pop_opcode(sel))->Ok_0.regs == m.regs
            &&& execute(pushed, pop_opcode(sel))->Ok_0.regs.r16_stack(sel) == m.regs.r16_stack(sel)
            &&& execute(pushed, pop_opcode(sel))->Ok_0.regs.sp == m.regs.sp
        },
{
    lemma_stack_opcodes(sel);
    if execute(m, push_opcode(sel)) is Ok {
        let v = m.regs.r16_stack(sel);
        lemma_pair_split(v, 0, 0);
        let sp1 = m.regs.sp.wrapping_sub(1);
        let sp2 = sp1.wrapping_sub(1);
        assert(sp2.wrapping_add(1) == sp1 && sp1.wrapping_add(1) == m.regs.sp);
        let pushed = execute(m, push_opcode(sel))->Ok_0;
        assert(pushed.mem[sp2 as int] == low_byte(v));
        assert(pushed.mem[sp1 as int] == high_byte(v));
        let popped = execute(pushed, pop_opcode(sel))->Ok_0;
        assert(popped.regs == m.regs);
    }
}

/// HALT sets the halt flag, takes one cycle and loads nothing: registers and
/// memory stay as they were.
pub proof fn law_halt(m: Machine)
    ensures
        execute(m, HALT_OPCODE) == Ok::<Machine, CpuError>(Machine { halted: true, ..m }.tick(1)),
{
    assert(quadrant(0x76u8) == 1) by (bit_vector);
}

/// No opcode but HALT sets or clears the halt flag.
pub proof fn law_only_halt_changes_halt_flag(m: Machine, op: u8)
    requires
        op != HALT_OPCODE,
    ensures
        execute(m, op) is Ok ==> execute(m, op)->Ok_0.halted == m.halted,
{
}

/// Every quadrant-1 byte other than HALT copies its source operand to its
/// destination operand and leaves the halt flag as it was.
pub proof fn law_load_copies(m: Machine, op: u8)
    requires
        m.wf(),
        quadrant(op) == 1,
        op != HALT_OPCODE,
    ensures
        execute(m, op) is Ok ==> {
            let n = execute(m, op)->Ok_0;
            &&& n.halted == m.halted
            &&& n.regs.read_r8(n.mem, bits_5_3(op)) == m.regs.read_r8(m.mem, bits_2_0(op))
        },
{
    assert(bits_5_3(op) < 8) by (bit_vector);
}

/// Bytes of immediate operand that a conditional branch reads.
pub open spec fn branch_operand_len(op: u8) -> int {
    if op & 0xE7 == 0x20 { 1 } else if op & 0xE7 == 0xC0 { 0 } else { 2 }
}

/// Whether `op` is a conditional relative jump, return, absolute jump or call.
pub open spec fn is_conditional_branch(op: u8) -> bool {
    op & 0xE7 == 0x20 || op & 0xE7 == 0xC0 || op & 0xE7 == 0xC2 || op & 0xE7 == 0xC4
}

/// Cycles that executing `op` from `m` takes.
pub open spec fn cost(m: Machine, op: u8) -> int {
    execute(m, op)->Ok_0.cycles - m.cycles
}

/// A conditional jump, call or return whose condition is false only moves PC
/// past its immediate operand (memory and every other register untouched),
/// and takes strictly fewer cycles than the same opcode where the condition
/// holds.
pub proof fn law_branch_not_taken(m: Machine, t: Machine, op: u8)
    requires
        is_conditional_branch(op),
        !m.regs.condition(bits_4_3(op)),
        t.regs.condition(bits_4_3(op)),
    ensures
        execute(m, op) is Ok ==> {
            let n = execute(m, op)->Ok_0;
            &&& n.regs == Registers { pc: (m.regs.pc + branch_operand_len(op)) as u16, ..m.regs }
            &&& n.mem == m.mem
            &&& n.halted == m.halted
        },
        execute(m, op) is Ok && execute(t, op) is Ok ==> cost(m, op) < cost(t, op),
{
    assert(op & 0xE7u8 == 0x20u8 ==> quadrant(op) == 0 && op != 0 && op & 0xCFu8 != 0x01u8 && op != 0x08u8
        && op & 0xCFu8 != 0x03u8 && op & 0xCFu8 != 0x0Bu8 && op & 0xC7u8 != 0x04u8 && op & 0xC7u8 != 0x05u8
        && op & 0xC7u8 != 0x06u8 && op != 0x18u8) by (bit_vector);
    assert((op & 0xE7u8 == 0xC0u8 || op & 0xE7u8 == 0xC2u8 || op & 0xE7u8 == 0xC4u8) ==> quadrant(op) == 3
        && op & 0xC7u8 != 0xC6u8) by (bit_vector);
    let pc1 = m.regs.pc.wrapping_add(1);
    let pc2 = pc1.wrapping_add(1);
    if (m.regs.pc as int) < 8192 {
        assert(pc1 == (m.regs.pc + 1) as u16);
        if (pc1 as int) < 8192 {
            assert(pc2 == (m.regs.pc + 2) as u16);
        }
    }
    assert((m.regs.pc + 0) as u16 == m.regs.pc);
}

} // verus!
