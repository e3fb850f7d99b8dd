//! The four quadrant handlers and the instruction routines they dispatch to.
//! Each routine changes the registers, memory and cycle counter exactly as
//! the model in `machine` says; on a fault the state it leaves is not
//! specified.
use vstd::prelude::*;

use crate::alu::{alu_dec, alu_inc, apply_alu_operation};
use crate::error::CpuError;
use crate::machine::{
    alu_immediate, alu_registers, bits_2_0, bits_4_3, bits_5_3, bits_5_4, call_conditional, fetch16, fetch8,
    jump_conditional, jump_relative, load_r16_immediate, load_r8_immediate, pop16,
    pop_pair, push16, push_pair, quadrant0, quadrant1, quadrant2, quadrant3, restart,
    return_conditional, step_r16, step_r8, store_sp_immediate, Machine, HALT_OPCODE,
    MAX_INSTRUCTION_CYCLES,
};
use crate::memory::Memory;
use crate::registers::{Registers, R8_HL_MEMORY};

verus! {

/// The machine that a handler's arguments make up.
pub open spec fn machine_of(registers: Registers, memory: Seq<u8>, halted: bool, cycles: u64) -> Machine {
    Machine { regs: registers, mem: memory, halted, cycles: cycles as int }
}

/// A handler's result and the state it left agree with `expected`: the
/// same state on success, the same error on a fault.
pub open spec fn agrees(
    expected: Result<Machine, CpuError>,
    r: Result<(), CpuError>,
    registers: Registers,
    memory: Seq<u8>,
    halted: bool,
    cycles: u64,
) -> bool {
    match expected {
        Ok(m) => r is Ok && m == machine_of(registers, memory, halted, cycles),
        Err(e) => r == Err::<(), CpuError>(e),
    }
}

fn field_5_3(op: u8) -> (r: u8)
    ensures
        r == bits_5_3(op),
        r < 8,
{
    assert((op >> 3u8) & 7u8 < 8u8) by (bit_vector);
    (op >> 3) & 7
}

fn field_5_4(op: u8) -> (r: u8)
    ensures
        r == bits_5_4(op),
        r < 4,
{
    assert((op >> 4u8) & 3u8 < 4u8) by (bit_vector);
    (op >> 4) & 3
}

fn field_4_3(op: u8) -> (r: u8)
    ensures
        r == bits_4_3(op),
        r < 4,
{
    assert((op >> 3u8) & 3u8 < 4u8) by (bit_vector);
    (op >> 3) & 3
}

fn field_2_0(op: u8) -> (r: u8)
    ensures
        r == bits_2_0(op),
        r < 8,
{
    assert(op & 7u8 < 8u8) by (bit_vector);
    op & 7
}

/// Reads the byte at PC and moves PC past it.
fn fetch_imm8(registers: &mut Registers, memory: &Memory) -> (r: Result<u8, CpuError>)
    ensures
        match fetch8(*old(registers), memory.bytes()) {
            Ok((v, regs)) => r == Ok::<u8, CpuError>(v) && *final(registers) == regs,
            Err(e) => r == Err::<u8, CpuError>(e),
        },
{
    match memory.load(registers.pc) {
        Ok(v) => {
            registers.pc = registers.pc.wrapping_add(1);
            Ok(v)
        },
        Err(e) => Err(e),
    }
}

/// Reads the little-endian 16-bit value at PC and moves PC past it.
fn fetch_imm16(registers: &mut Registers, memory: &Memory) -> (r: Result<u16, CpuError>)
    ensures
        match fetch16(*old(registers), memory.bytes()) {
            Ok((v, regs)) => r == Ok::<u16, CpuError>(v) && *final(registers) == regs,
            Err(e) => r == Err::<u16, CpuError>(e),
        },
{
    let lo = match fetch_imm8(registers, memory) {
        Ok(v) => v,
        Err(e) => return Err(e),
    };
    let hi = match fetch_imm8(registers, memory) {
        Ok(v) => v,
        Err(e) => return Err(e),
    };
    Ok((hi as u16) * 256 + lo as u16)
}

/// Pushes a 16-bit value: high byte first, each write after SP steps down.
fn push_value(registers: &mut Registers, memory: &mut Memory, value: u16) -> (r: Result<(), CpuError>)
    ensures
        match push16(*old(registers), old(memory).bytes(), value) {
            Ok((regs, mem)) => r is Ok && *final(registers) == regs && final(memory).bytes() == mem,
            Err(e) => r == Err::<(), CpuError>(e),
        },
{
    let sp1 = registers.sp.wrapping_sub(1);
    let sp2 = sp1.wrapping_sub(1);
    if let Err(e) = memory.store(sp1, (value / 256) as u8) {
        return Err(e);
    }
    if let Err(e) = memory.store(sp2, (value % 256) as u8) {
        return Err(e);
    }
    registers.sp = sp2;
    Ok(())
}

/// Pops a 16-bit value: low byte at SP, high byte at SP + 1.
fn pop_value(registers: &mut Registers, memory: &Memory) -> (r: Result<u16, CpuError>)
    ensures
        match pop16(*old(registers), memory.bytes()) {
            Ok((v, regs)) => r == Ok::<u16, CpuError>(v) && *final(registers) == regs,
            Err(e) => r == Err::<u16, CpuError>(e),
        },
{
    let sp1 = registers.sp.wrapping_add(1);
    let lo = match memory.load(registers.sp) {
        Ok(v) => v,
        Err(e) => return Err(e),
    };
    let hi = match memory.load(sp1) {
        Ok(v) => v,
        Err(e) => return Err(e),
    };
    registers.sp = sp1.wrapping_add(1);
    Ok((hi as u16) * 256 + lo as u16)
}

/// Applies ALU operation `kind` to the accumulator and `v`.
fn apply_to_accumulator(registers: &mut Registers, kind: u8, v: u8)
    requires
        kind < 8,
    ensures
        *final(registers) == alu_registers(*old(registers), kind, v),
{
    let (a, f) = apply_alu_operation(kind, registers.a, v, registers.f);
    registers.a = a;
    registers.f = f;
}

/// `ld r16, imm16`.
fn ld_r16_imm16(cycle_counter: &mut u64, registers: &mut Registers, memory: &mut Memory, sel: u8) -> (r: Result<(), CpuError>)
    requires
        sel < 4,
        *old(cycle_counter) <= u64::MAX - MAX_INSTRUCTION_CYCLES,
    ensures
        agrees(load_r16_immediate(machine_of(*old(registers), old(memory).bytes(), false, *old(cycle_counter)), sel), r, *final(registers), final(memory).bytes(), false, *final(cycle_counter)),
{
    let value = match fetch_imm16(registers, memory) {
        Ok(v) => v,
        Err(e) => return Err(e),
    };
    registers.set_r16_register_value(sel, value);
    *cycle_counter = *cycle_counter + 3;
    Ok(())
}

/// `ld [imm16], sp`.
fn ld_imm16_sp(cycle_counter: &mut u64, registers: &mut Registers, memory: &mut Memory) -> (r: Result<(), CpuError>)
    requires
        *old(cycle_counter) <= u64::MAX - MAX_INSTRUCTION_CYCLES,
    ensures
        agrees(store_sp_immediate(machine_of(*old(registers), old(memory).bytes(), false, *old(cycle_counter))), r, *final(registers), final(memory).bytes(), false, *final(cycle_counter)),
{
    let address = match fetch_imm16(registers, memory) {
        Ok(v) => v,
        Err(e) => return Err(e),
    };
    if let Err(e) = memory.store(address, (registers.sp % 256) as u8) {
        return Err(e);
    }
    if let Err(e) = memory.store(address.wrapping_add(1), (registers.sp / 256) as u8) {
        return Err(e);
    }
    *cycle_counter = *cycle_counter + 5;
    Ok(())
}

/// `inc r16` when `increment`, else `dec r16`.
fn inc_dec_r16(cycle_counter: &mut u64, registers: &mut Registers, memory: &mut Memory, sel: u8, increment: bool) -> (r: Result<(), CpuError>)
    requires
        sel < 4,
        *old(cycle_counter) <= u64::MAX - MAX_INSTRUCTION_CYCLES,
    ensures
        agrees(Ok(step_r16(machine_of(*old(registers), old(memory).bytes(), false, *old(cycle_counter)), sel, increment)), r, *final(registers), final(memory).bytes(), false, *final(cycle_counter)),
{
    let value = registers.get_r16_register_value(sel);
    let next = if increment {
        value.wrapping_add(1)
    } else {
        value.wrapping_sub(1)
    };
    registers.set_r16_register_value(sel, next);
    *cycle_counter = *cycle_counter + 2;
    Ok(())
}

/// `inc r8` when `increment`, else `dec r8`.
fn inc_dec_r8(cycle_counter: &mut u64, registers: &mut Registers, memory: &mut Memory, sel: u8, increment: bool) -> (r: Result<(), CpuError>)
    requires
        sel < 8,
        *old(cycle_counter) <= u64::MAX - MAX_INSTRUCTION_CYCLES,
    ensures
        agrees(step_r8(machine_of(*old(registers), old(memory).bytes(), false, *old(cycle_counter)), sel, increment), r, *final(registers), final(memory).bytes(), false, *final(cycle_counter)),
{
    let value = match registers.get_r8_register_value(sel, memory) {
        Ok(v) => v,
        Err(e) => return Err(e),
    };
    let (result, flags) = if increment {
        alu_inc(value, registers.f)
    } else {
        alu_dec(value, registers.f)
    };
    registers.f = flags;
    if let Err(e) = registers.set_r8_register_value(sel, result, memory) {
        return Err(e);
    }
    if sel == R8_HL_MEMORY {
        *cycle_counter = *cycle_counter + 3;
    } else {
        *cycle_counter = *cycle_counter + 1;
    }
    Ok(())
}

/// `ld r8, imm8`.
fn ld_r8_imm8(cycle_counter: &mut u64, registers: &mut Registers, memory: &mut Memory, sel: u8) -> (r: Result<(), CpuError>)
    requires
        sel < 8,
        *old(cycle_counter) <= u64::MAX - MAX_INSTRUCTION_CYCLES,
    ensures
        agrees(load_r8_immediate(machine_of(*old(registers), old(memory).bytes(), false, *old(cycle_counter)), sel), r, *final(registers), final(memory).bytes(), false, *final(cycle_counter)),
{
    let value = match fetch_imm8(registers, memory) {
        Ok(v) => v,
        Err(e) => return Err(e),
    };
    if let Err(e) = registers.set_r8_register_value(sel, value, memory) {
        return Err(e);
    }
    if sel == R8_HL_MEMORY {
        *cycle_counter = *cycle_counter + 3;
    } else {
        *cycle_counter = *cycle_counter + 2;
    }
    Ok(())
}

/// `jr e8`, taken when `taken`.
fn jr(cycle_counter: &mut u64, registers: &mut Registers, memory: &mut Memory, taken: bool) -> (r: Result<(), CpuError>)
    requires
        *old(cycle_counter) <= u64::MAX - MAX_INSTRUCTION_CYCLES,
    ensures
        agrees(jump_relative(machine_of(*old(registers), old(memory).bytes(), false, *old(cycle_counter)), taken), r, *final(registers), final(memory).bytes(), false, *final(cycle_counter)),
{
    let offset = match fetch_imm8(registers, memory) {
        Ok(v) => v,
        Err(e) => return Err(e),
    };
    if taken {
        registers.pc = registers.pc.wrapping_add_signed(offset as i8 as i16);
        *cycle_counter = *cycle_counter + 3;
    } else {
        *cycle_counter = *cycle_counter + 2;
    }
    Ok(())
}

/// ALU operation `kind` with the byte after the opcode.
fn alu_imm8(cycle_counter: &mut u64, registers: &mut Registers, memory: &mut Memory, kind: u8) -> (r: Result<(), CpuError>)
    requires
        kind < 8,
        *old(cycle_counter) <= u64::MAX - MAX_INSTRUCTION_CYCLES,
    ensures
        agrees(alu_immediate(machine_of(*old(registers), old(memory).bytes(), false, *old(cycle_counter)), kind), r, *final(registers), final(memory).bytes(), false, *final(cycle_counter)),
{
    let value = match fetch_imm8(registers, memory) {
        Ok(v) => v,
        Err(e) => return Err(e),
    };
    apply_to_accumulator(registers, kind, value);
    *cycle_counter = *cycle_counter + 2;
    Ok(())
}

/// `ret cc`.
fn ret_cc(cycle_counter: &mut u64, registers: &mut Registers, memory: &mut Memory, cc: u8) -> (r: Result<(), CpuError>)
    requires
        cc < 4,
        *old(cycle_counter) <= u64::MAX - MAX_INSTRUCTION_CYCLES,
    ensures
        agrees(return_conditional(machine_of(*old(registers), old(memory).bytes(), false, *old(cycle_counter)), cc), r, *final(registers), final(memory).bytes(), false, *final(cycle_counter)),
{
    if registers.should_execute(cc) {
        let address = match pop_value(registers, memory) {
            Ok(v) => v,
            Err(e) => return Err(e),
        };
        registers.pc = address;
        *cycle_counter = *cycle_counter + 5;
    } else {
        *cycle_counter = *cycle_counter + 2;
    }
    Ok(())
}

/// `jp cc, imm16`.
fn jp_cc(cycle_counter: &mut u64, registers: &mut Registers, memory: &mut Memory, cc: u8) -> (r: Result<(), CpuError>)
    requires
        cc < 4,
        *old(cycle_counter) <= u64::MAX - MAX_INSTRUCTION_CYCLES,
    ensures
        agrees(jump_conditional(machine_of(*old(registers), old(memory).bytes(), false, *old(cycle_counter)), cc), r, *final(registers), final(memory).bytes(), false, *final(cycle_counter)),
{
    let address = match fetch_imm16(registers, memory) {
        Ok(v) => v,
        Err(e) => return Err(e),
    };
    if registers.should_execute(cc) {
        registers.pc = address;
        *cycle_counter = *cycle_counter + 4;
    } else {
        *cycle_counter = *cycle_counter + 3;
    }
    Ok(())
}

/// `call cc, imm16`.
fn call_cc(cycle_counter: &mut u64, registers: &mut Registers, memory: &mut Memory, cc: u8) -> (r: Result<(), CpuError>)
    requires
        cc < 4,
        *old(cycle_counter) <= u64::MAX - MAX_INSTRUCTION_CYCLES,
    ensures
        agrees(call_conditional(machine_of(*old(registers), old(memory).bytes(), false, *old(cycle_counter)), cc), r, *final(registers), final(memory).bytes(), false, *final(cycle_counter)),
{
    let address = match fetch_imm16(registers, memory) {
        Ok(v) => v,
        Err(e) => return Err(e),
    };
    if registers.should_execute(cc) {
        let return_address = registers.pc;
        if let Err(e) = push_value(registers, memory, return_address) {
            return Err(e);
        }
        registers.pc = address;
        *cycle_counter = *cycle_counter + 6;
    } else {
        *cycle_counter = *cycle_counter + 3;
    }
    Ok(())
}

/// `rst tgt3`.
fn rst(cycle_counter: &mut u64, registers: &mut Registers, memory: &mut Memory, target: u8) -> (r: Result<(), CpuError>)
    requires
        target < 8,
        *old(cycle_counter) <= u64::MAX - MAX_INSTRUCTION_CYCLES,
    ensures
        agrees(restart(machine_of(*old(registers), old(memory).bytes(), false, *old(cycle_counter)), target), r, *final(registers), final(memory).bytes(), false, *final(cycle_counter)),
{
    let return_address = registers.pc;
    if let Err(e) = push_value(registers, memory, return_address) {
        return Err(e);
    }
    registers.pc = (target as u16) * 8;
    *cycle_counter = *cycle_counter + 4;
    Ok(())
}

/// `pop r16stk`.
fn pop_r16(cycle_counter: &mut u64, registers: &mut Registers, memory: &mut Memory, sel: u8) -> (r: Result<(), CpuError>)
    requires
        sel < 4,
        *old(cycle_counter) <= u64::MAX - MAX_INSTRUCTION_CYCLES,
    ensures
        agrees(pop_pair(machine_of(*old(registers), old(memory).bytes(), false, *old(cycle_counter)), sel), r, *final(registers), final(memory).bytes(), false, *final(cycle_counter)),
{
    let value = match pop_value(registers, memory) {
        Ok(v) => v,
        Err(e) => return Err(e),
    };
    registers.set_r16_register_stack_value(sel, value);
    *cycle_counter = *cycle_counter + 3;
    Ok(())
}

/// `push r16stk`.
fn push_r16(cycle_counter: &mut u64, registers: &mut Registers, memory: &mut Memory, sel: u8) -> (r: Result<(), CpuError>)
    requires
        sel < 4,
        *old(cycle_counter) <= u64::MAX - MAX_INSTRUCTION_CYCLES,
    ensures
        agrees(push_pair(machine_of(*old(registers), old(memory).bytes(), false, *old(cycle_counter)), sel), r, *final(registers), final(memory).bytes(), false, *final(cycle_counter)),
{
    let value = registers.get_r16_register_stack_value(sel);
    if let Err(e) = push_value(registers, memory, value) {
        return Err(e);
    }
    *cycle_counter = *cycle_counter + 4;
    Ok(())
}

/// Handler of quadrant 0 (`00xxxxxx`): no-op, immediate loads, increments
/// and decrements, relative jumps.
#[derive(Clone, Copy, Debug, Default)]
pub struct Type0InstructionHandler {}

impl Type0InstructionHandler {
    pub fn handle_instruction(
        &self,
        instruction: u8,
        cycle_counter: &mut u64,
        registers: &mut Registers,
        memory: &mut Memory,
    ) -> (r: Result<(), CpuError>)
        requires
            *old(cycle_counter) <= u64::MAX - MAX_INSTRUCTION_CYCLES,
        ensures
            agrees(
                quadrant0(machine_of(*old(registers), old(memory).bytes(), false, *old(cycle_counter)), instruction),
                r,
                *final(registers),
                final(memory).bytes(),
                false,
                *final(cycle_counter),
            ),
    {
        if instruction == 0x00 {
            *cycle_counter = *cycle_counter + 1;
            Ok(())
        } else if instruction & 0xCF == 0x01 {
            ld_r16_imm16(cycle_counter, registers, memory, field_5_4(instruction))
        } else if instruction == 0x08 {
            ld_imm16_sp(cycle_counter, registers, memory)
        } else if instruction & 0xCF == 0x03 {
            inc_dec_r16(cycle_counter, registers, memory, field_5_4(instruction), true)
        } else if instruction & 0xCF == 0x0B {
            inc_dec_r16(cycle_counter, registers, memory, field_5_4(instruction), false)
        } else if instruction & 0xC7 == 0x04 {
            inc_dec_r8(cycle_counter, registers, memory, field_5_3(instruction), true)
        } else if instruction & 0xC7 == 0x05 {
            inc_dec_r8(cycle_counter, registers, memory, field_5_3(instruction), false)
        } else if instruction & 0xC7 == 0x06 {
            ld_r8_imm8(cycle_counter, registers, memory, field_5_3(instruction))
        } else if instruction == 0x18 {
            jr(cycle_counter, registers, memory, true)
        } else if instruction & 0xE7 == 0x20 {
            let taken = registers.should_execute(field_4_3(instruction));
            jr(cycle_counter, registers, memory, taken)
        } else {
            Err(CpuError::UnimplementedOpcode { opcode: instruction })
        }
    }
}

/// Handler of quadrant 3 (`11xxxxxx`): immediate ALU operations,
/// conditional returns, jumps and calls, restarts, push and pop.
#[derive(Clone, Copy, Debug, Default)]
pub struct Type3InstructionHandler {}

impl Type3InstructionHandler {
    pub fn handle_instruction(
        &self,
        instruction: u8,
        cycle_counter: &mut u64,
        registers: &mut Registers,
        memory: &mut Memory,
    ) -> (r: Result<(), CpuError>)
        requires
            *old(cycle_counter) <= u64::MAX - MAX_INSTRUCTION_CYCLES,
        ensures
            agrees(
                quadrant3(machine_of(*old(registers), old(memory).bytes(), false, *old(cycle_counter)), instruction),
                r,
                *final(registers),
                final(memory).bytes(),
                false,
                *final(cycle_counter),
            ),
    {
        if instruction & 0xC7 == 0xC6 {
            alu_imm8(cycle_counter, registers, memory, field_5_3(instruction))
        } else if instruction & 0xE7 == 0xC0 {
            ret_cc(cycle_counter, registers, memory, field_4_3(instruction))
        } else if instruction & 0xE7 == 0xC2 {
            jp_cc(cycle_counter, registers, memory, field_4_3(instruction))
        } else if instruction & 0xE7 == 0xC4 {
            call_cc(cycle_counter, registers, memory, field_4_3(instruction))
        } else if instruction & 0xC7 == 0xC7 {
            rst(cycle_counter, registers, memory, field_5_3(instruction))
        } else if instruction & 0xCF == 0xC1 {
            pop_r16(cycle_counter, registers, memory, field_5_4(instruction))
        } else if instruction & 0xCF == 0xC5 {
            push_r16(cycle_counter, registers, memory, field_5_4(instruction))
        } else {
            Err(CpuError::UnimplementedOpcode { opcode: instruction })
        }
    }
}

/// Handler of quadrant 1 (`01xxxxxx`): register and memory loads, and HALT.
#[derive(Clone, Copy, Debug, Default)]
pub struct Type1InstructionHandler {}

impl Type1InstructionHandler {
    pub fn handle_instruction(
        &self,
        instruction: u8,
        cycle_counter: &mut u64,
        registers: &mut Registers,
        memory: &mut Memory,
        is_halting: &mut bool,
    ) -> (r: Result<(), CpuError>)
        requires
            *old(cycle_counter) <= u64::MAX - MAX_INSTRUCTION_CYCLES,
        ensures
            agrees(
                quadrant1(
                    machine_of(*old(registers), old(memory).bytes(), *old(is_halting), *old(cycle_counter)),
                    instruction,
                ),
                r,
                *final(registers),
                final(memory).bytes(),
                *final(is_halting),
                *final(cycle_counter),
            ),
    {
        if instruction == HALT_OPCODE {
            *cycle_counter = *cycle_counter + 1;
            *is_halting = true;
            return Ok(());
        }
        let destination = field_5_3(instruction);
        let source = field_2_0(instruction);
        let value = match registers.get_r8_register_value(source, memory) {
            Ok(v) => v,
            Err(e) => return Err(e),
        };
        if let Err(e) = registers.set_r8_register_value(destination, value, memory) {
            return Err(e);
        }
        let mut cycles: u64 = 1;
        if source == R8_HL_MEMORY {
            cycles = cycles + 1;
        }
        if destination == R8_HL_MEMORY {
            cycles = cycles + 1;
        }
        *cycle_counter = *cycle_counter + cycles;
        Ok(())
    }
}

/// Handler of quadrant 2 (`10xxxxxx`): ALU operations on the accumulator.
#[derive(Clone, Copy, Debug, Default)]
pub struct Type2InstructionHandler {}

impl Type2InstructionHandler {
    pub fn handle_instruction(
        &self,
        instruction: u8,
        cycle_counter: &mut u64,
        registers: &mut Registers,
        memory: &Memory,
    ) -> (r: Result<(), CpuError>)
        requires
            *old(cycle_counter) <= u64::MAX - MAX_INSTRUCTION_CYCLES,
        ensures
            agrees(
                quadrant2(machine_of(*old(registers), memory.bytes(), false, *old(cycle_counter)), instruction),
                r,
                *final(registers),
                memory.bytes(),
                false,
                *final(cycle_counter),
            ),
    {
        let kind = field_5_3(instruction);
        let operand = field_2_0(instruction);
        let value = match registers.get_r8_register_value(operand, memory) {
            Ok(v) => v,
            Err(e) => return Err(e),
        };
        apply_to_accumulator(registers, kind, value);
        if operand == R8_HL_MEMORY {
            *cycle_counter = *cycle_counter + 2;
        } else {
            *cycle_counter = *cycle_counter + 1;
        }
        Ok(())
    }
}

} // verus!
