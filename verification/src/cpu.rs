//! The executable interpreter.
//!
//! [`CPU`] owns the registers, the status byte, the stack pointer, the
//! program counter and the full 64KB address space.  Every method's contract
//! ties its effect to the abstract machine in [`crate::machine`]: the ghost
//! view of the state after a call is a spec function of the view before it.
//! The run loop terminates when it decodes the BRK opcode, and reports an
//! unrecognized byte as a recoverable error instead of failing.

use vstd::prelude::*;

use crate::flags::{
    flag_set, flag_set_to, reset_status, with_flag, with_negative_of, with_zero_of, without_flag,
    Flag,
};
use crate::machine::{
    operand_addr, read8, read16, sign_extend, spec_adc, spec_advance, spec_asl_a, spec_asl_mem,
    spec_asl_result, spec_branch, spec_compare_status, spec_dec_mem, spec_exec_op, spec_inc_mem,
    spec_jump, spec_load, spec_lsr_a, spec_lsr_mem, spec_lsr_result, spec_new, spec_pull8,
    spec_pull16, spec_push8, spec_push16, spec_reset, spec_rol_a, spec_rol_mem, spec_rol_result,
    spec_ror_a, spec_ror_mem, spec_ror_result, spec_run, spec_set_a, spec_set_x, spec_set_y,
    spec_step, wrap_add8, wrap_add16, wrap_sub8, write8, write16, CpuView,
};
use crate::opcodes::{decode, op_wf, spec_decode, AddressingMode, OpCode, Operation};

verus! {

/// The page the descending stack lives in.
const STACK: u16 = 0x0100;

/// The stack pointer's value after a reset.
const STACK_RESET: u8 = 0xFD;

/// The address the reset vector lives at: the two bytes there hold the
/// program's entry address.
const RESET_VECTOR: u16 = 0xFFFC;

/// The start of the ROM window that `load` copies a program image into.
const ROM_START: u16 = 0x8000;

/// The number of bytes in the ROM window, from 0x8000 through 0xFFFF.
const ROM_SIZE: usize = 0x8000;

/// An error the interpreter reports to its caller instead of failing.
#[derive(Clone, Copy, PartialEq, Eq, Structural, Debug)]
pub enum EmuError {
    /// A program image larger than the 32KB ROM window was handed to `load`.
    ProgramTooLarge,
    /// The engine fetched a byte that is not in the instruction table.
    IllegalOpcode { opcode: u8, address: u16 },
    /// The run retired 2^64 - 1 instructions without reaching BRK.  At one
    /// instruction per nanosecond that bound lies centuries away; it exists
    /// so that the run loop provably makes progress.
    StepLimit,
}

/// The complete processor state.
pub struct CPU {
    pub register_a: u8,
    pub register_x: u8,
    pub register_y: u8,
    pub status: u8,
    /// The program counter: always the address of the next byte to fetch.
    pub counter: u16,
    /// The program counter as it stood right after the last opcode fetch.
    pub counter_state: u16,
    /// Index into the stack page; `STACK + stack_pointer` addresses the next
    /// free slot.
    pub stack_pointer: u8,
    /// The full 64KB address space; always exactly 0x10000 bytes (see
    /// [`CPU::wf`]).
    pub memory: Vec<u8>,
}

impl View for CPU {
    type V = CpuView;

    open spec fn view(&self) -> CpuView {
        CpuView {
            a: self.register_a,
            x: self.register_x,
            y: self.register_y,
            status: self.status,
            pc: self.counter,
            pc_state: self.counter_state,
            sp: self.stack_pointer,
            mem: self.memory@,
        }
    }
}

impl CPU {
    /// The structural invariant every constructor establishes and every
    /// method preserves: the address space covers exactly the 16-bit range.
    pub open spec fn wf(&self) -> bool {
        self@.wf()
    }
}

/// A flat 64KB byte store with little-endian 16-bit composites.  Reading and
/// writing have no effect beyond the stored byte; addresses are always
/// reduced to the 16-bit range before the call, so no out-of-range access
/// can occur.
pub trait Memory {
    /// The stored bytes, as the contracts speak of them.
    spec fn mem(&self) -> Seq<u8>;

    /// The address space covers exactly the 16-bit range.
    open spec fn mem_wf(&self) -> bool {
        self.mem().len() == 0x10000
    }

    /// The byte stored at `addr`.
    fn mem_read(&self, addr: u16) -> (data: u8)
        requires
            self.mem_wf(),
        ensures
            data == read8(self.mem(), addr),
    ;

    /// Store `data` at `addr`.
    fn mem_write(&mut self, addr: u16, data: u8)
        requires
            old(self).mem_wf(),
        ensures
            final(self).mem() == write8(old(self).mem(), addr, data),
    ;

    /// The little-endian 16-bit word at `pos`; the high byte comes from
    /// `pos + 1` with 16-bit wraparound.
    fn mem_read_u16(&self, pos: u16) -> (data: u16)
        requires
            self.mem_wf(),
        ensures
            data == read16(self.mem(), pos),
    ;

    /// Store `data` little-endian at `pos` and `pos + 1` (with 16-bit
    /// wraparound).
    fn mem_write_u16(&mut self, pos: u16, data: u16)
        requires
            old(self).mem_wf(),
        ensures
            final(self).mem() == write16(old(self).mem(), pos, data),
    ;
}

impl Memory for CPU {
    open spec fn mem(&self) -> Seq<u8> {
        self.memory@
    }

    fn mem_read(&self, addr: u16) -> (data: u8) {
        self.memory[addr as usize]
    }

    fn mem_write(&mut self, addr: u16, data: u8)
        ensures
            final(self)@ == (CpuView { mem: write8(old(self)@.mem, addr, data), ..old(self)@ }),
    {
        self.memory[addr as usize] = data;
    }

    fn mem_read_u16(&self, pos: u16) -> (data: u16) {
        let lo = self.mem_read(pos);
        let hi = self.mem_read(pos.wrapping_add(1));
        lo as u16 + 256 * (hi as u16)
    }

    fn mem_write_u16(&mut self, pos: u16, data: u16)
        ensures
            final(self)@ == (CpuView { mem: write16(old(self)@.mem, pos, data), ..old(self)@ }),
    {
        let lo = (data % 256) as u8;
        let hi = (data / 256) as u8;
        self.mem_write(pos, lo);
        self.mem_write(pos.wrapping_add(1), hi);
    }
}

impl CPU {
    /// The power-on state: zeroed registers and memory, the hardware-default
    /// status byte, the stack pointer at its reset value.
    pub fn new() -> (cpu: CPU)
        ensures
            cpu.wf(),
            cpu@ == spec_new(),
    {
        let mut memory: Vec<u8> = Vec::new();
        let mut i: usize = 0;
        while i < 0x10000
            invariant
                i <= 0x10000,
                memory@.len() == i,
                forall|j: int| 0 <= j < i ==> memory@[j] == 0u8,
            decreases 0x10000 - i,
        {
            memory.push(0);
            i = i + 1;
        }
        let cpu = CPU {
            register_a: 0,
            register_x: 0,
            register_y: 0,
            status: reset_status_byte(),
            counter: 0,
            counter_state: 0,
            stack_pointer: STACK_RESET,
            memory,
        };
        proof {
            assert(cpu@.mem =~= spec_new().mem);
            assert(cpu@ =~= spec_new());
        }
        cpu
    }

    /// True iff `flag` is set in the status byte.
    pub fn get_flag(&self, flag: Flag) -> (r: bool)
        ensures
            r == flag_set(self.status, flag),
    {
        self.status & flag.mask() != 0
    }

    /// Set `flag` in the status byte.
    pub fn set_flag(&mut self, flag: Flag)
        ensures
            final(self)@ == (CpuView { status: with_flag(old(self).status, flag), ..old(self)@ }),
    {
        self.status = self.status | flag.mask();
    }

    /// Clear `flag` in the status byte.
    pub fn clear_flag(&mut self, flag: Flag)
        ensures
            final(self)@ == (CpuView {
                status: without_flag(old(self).status, flag),
                ..old(self)@
            }),
    {
        self.status = self.status & !flag.mask();
    }

    /// Set `flag` when `value` holds and clear it when it does not.
    pub fn set_flag_to(&mut self, flag: Flag, value: bool)
        ensures
            final(self)@ == (CpuView {
                status: flag_set_to(old(self).status, flag, value),
                ..old(self)@
            }),
    {
        if value {
            self.set_flag(flag);
        } else {
            self.clear_flag(flag);
        }
    }

    /// Apply one of the two derived flag rules to a just-produced result
    /// byte: Zero is set iff the byte is 0; Negative is set iff its bit 7
    /// is 1.  No other flag can be updated this way.
    pub fn update_flag(&mut self, flag: Flag, register: u8)
        requires
            flag is Zero || flag is Negative,
        ensures
            flag is Zero ==> final(self)@ == (CpuView {
                status: with_zero_of(old(self).status, register),
                ..old(self)@
            }),
            flag is Negative ==> final(self)@ == (CpuView {
                status: with_negative_of(old(self).status, register),
                ..old(self)@
            }),
    {
        match flag {
            Flag::Zero => {
                if register == 0 {
                    self.set_flag(Flag::Zero);
                } else {
                    self.clear_flag(Flag::Zero);
                }
            },
            Flag::Negative => {
                if register >> 7 == 1 {
                    self.set_flag(Flag::Negative);
                } else {
                    self.clear_flag(Flag::Negative);
                }
            },
            _ => {
                assert(false);
            },
        }
    }

    /// Push one byte: store it at `STACK + stack_pointer`, then decrement the
    /// stack pointer with 8-bit wraparound.
    pub fn stack_push(&mut self, data: u8)
        requires
            old(self).wf(),
        ensures
            final(self).wf(),
            final(self)@ == spec_push8(old(self)@, data),
    {
        self.mem_write(STACK + self.stack_pointer as u16, data);
        self.stack_pointer = self.stack_pointer.wrapping_sub(1);
    }

    /// Pull one byte: increment the stack pointer with 8-bit wraparound, then
    /// read `STACK + stack_pointer`.
    pub fn stack_pull(&mut self) -> (data: u8)
        requires
            old(self).wf(),
        ensures
            final(self).wf(),
            final(self)@ == spec_pull8(old(self)@).0,
            data == spec_pull8(old(self)@).1,
    {
        self.stack_pointer = self.stack_pointer.wrapping_add(1);
        self.mem_read(STACK + self.stack_pointer as u16)
    }

    /// Push a 16-bit value, high byte first, so that pulling restores
    /// little-endian order.
    pub fn stack_push_u16(&mut self, data: u16)
        requires
            old(self).wf(),
        ensures
            final(self).wf(),
            final(self)@ == spec_push16(old(self)@, data),
    {
        let hi = (data / 256) as u8;
        let lo = (data % 256) as u8;
        self.stack_push(hi);
        self.stack_push(lo);
    }

    /// Pull a 16-bit value: low byte first, then high byte.
    pub fn stack_pull_u16(&mut self) -> (data: u16)
        requires
            old(self).wf(),
        ensures
            final(self).wf(),
            final(self)@ == spec_pull16(old(self)@).0,
            data == spec_pull16(old(self)@).1,
    {
        let lo = self.stack_pull();
        let hi = self.stack_pull();
        lo as u16 + 256 * (hi as u16)
    }
}

/// The register a load instruction targets.
pub enum Register {
    A,
    X,
    Y,
}

impl CPU {
    /// Store `value` in the accumulator and apply the Zero/Negative rules.
    fn set_register_a(&mut self, value: u8)
        ensures
            final(self)@ == spec_set_a(old(self)@, value),
    {
        self.register_a = value;
        self.update_flag(Flag::Zero, value);
        self.update_flag(Flag::Negative, value);
    }

    /// Store `value` in X and apply the Zero/Negative rules.
    fn set_register_x(&mut self, value: u8)
        ensures
            final(self)@ == spec_set_x(old(self)@, value),
    {
        self.register_x = value;
        self.update_flag(Flag::Zero, value);
        self.update_flag(Flag::Negative, value);
    }

    /// Store `value` in Y and apply the Zero/Negative rules.
    fn set_register_y(&mut self, value: u8)
        ensures
            final(self)@ == spec_set_y(old(self)@, value),
    {
        self.register_y = value;
        self.update_flag(Flag::Zero, value);
        self.update_flag(Flag::Negative, value);
    }

    /// Add `data` and the Carry flag into the accumulator: Carry is set iff
    /// the sum exceeds 255, Overflow iff the operands share a sign the result
    /// does not, and the truncated sum defines Zero/Negative.
    pub fn register_a_add(&mut self, data: u8)
        ensures
            final(self)@ == spec_adc(old(self)@, data),
    {
        let carry: u16 = if self.get_flag(Flag::Carry) {
            1
        } else {
            0
        };
        let sum: u16 = self.register_a as u16 + data as u16 + carry;
        self.set_flag_to(Flag::Carry, sum > 0xFF);
        let result = (sum % 256) as u8;
        self.set_flag_to(Flag::Overflow, (data ^ result) & (result ^ self.register_a) & 0x80 != 0);
        self.register_a = result;
        self.update_flag(Flag::Zero, result);
        self.update_flag(Flag::Negative, result);
    }

    /// Restore the registers, flags and stack pointer to their reset values
    /// and load the program counter from the reset vector.
    pub fn reset_interrupt(&mut self)
        requires
            old(self).wf(),
        ensures
            final(self).wf(),
            final(self)@ == spec_reset(old(self)@),
    {
        self.register_a = 0;
        self.register_x = 0;
        self.register_y = 0;
        self.status = reset_status_byte();
        self.counter = self.mem_read_u16(RESET_VECTOR);
        self.counter_state = self.counter;
        self.stack_pointer = STACK_RESET;
    }

    /// The effective operand address for `mode`, computed from the program
    /// counter (which points at the byte after the opcode), the index
    /// registers and memory.  `NONE_ADDRESSING` marks instructions without a
    /// memory operand; resolving it would be a defect in the instruction
    /// table, so it is excluded outright.
    pub fn get_operand_addr(&self, mode: AddressingMode) -> (addr: u16)
        requires
            self.wf(),
            mode != AddressingMode::NONE_ADDRESSING,
        ensures
            addr == operand_addr(self@, mode),
    {
        match mode {
            AddressingMode::IMMEDIATE => self.counter,
            AddressingMode::ZERO_PAGE => self.mem_read(self.counter) as u16,
            AddressingMode::ABSOLUTE => self.mem_read_u16(self.counter),
            AddressingMode::ZERO_PAGE_X => {
                let pos = self.mem_read(self.counter);
                pos.wrapping_add(self.register_x) as u16
            },
            AddressingMode::ZERO_PAGE_Y => {
                let pos = self.mem_read(self.counter);
                pos.wrapping_add(self.register_y) as u16
            },
            AddressingMode::ABSOLUTE_X => {
                let base = self.mem_read_u16(self.counter);
                base.wrapping_add(self.register_x as u16)
            },
            AddressingMode::ABSOLUTE_Y => {
                let base = self.mem_read_u16(self.counter);
                base.wrapping_add(self.register_y as u16)
            },
            AddressingMode::INDIRECT_X => {
                let base = self.mem_read(self.counter);
                let ptr = base.wrapping_add(self.register_x);
                let lo = self.mem_read(ptr as u16);
                let hi = self.mem_read(ptr.wrapping_add(1) as u16);
                lo as u16 + 256 * (hi as u16)
            },
            AddressingMode::INDIRECT_Y => {
                let base = self.mem_read(self.counter);
                let lo = self.mem_read(base as u16);
                let hi = self.mem_read(base.wrapping_add(1) as u16);
                let deref_base = lo as u16 + 256 * (hi as u16);
                deref_base.wrapping_add(self.register_y as u16)
            },
            AddressingMode::NONE_ADDRESSING => {
                assert(false);
                0
            },
        }
    }

    /// Compare `value` (a register) with the memory operand: Carry is set iff
    /// the operand is at most `value`, and the wrapping difference defines
    /// Zero/Negative.
    pub fn compare(&mut self, mode: AddressingMode, value: u8)
        requires
            old(self).wf(),
            mode != AddressingMode::NONE_ADDRESSING,
        ensures
            final(self).wf(),
            final(self)@ == (CpuView {
                status: spec_compare_status(
                    old(self)@.status,
                    read8(old(self)@.mem, operand_addr(old(self)@, mode)),
                    value,
                ),
                ..old(self)@
            }),
    {
        let addr = self.get_operand_addr(mode);
        let data = self.mem_read(addr);
        if data <= value {
            self.set_flag(Flag::Carry);
        } else {
            self.clear_flag(Flag::Carry);
        }
        let result = value.wrapping_sub(data);
        self.update_flag(Flag::Zero, result);
        self.update_flag(Flag::Negative, result);
    }

    /// Shift the accumulator left; bit 7 lands in Carry.
    pub fn arithmetic_shift_left_a(&mut self)
        ensures
            final(self)@ == spec_asl_a(old(self)@),
    {
        let data = self.register_a;
        self.set_flag_to(Flag::Carry, data >> 7 == 1);
        let result = data << 1;
        self.register_a = result;
        self.update_flag(Flag::Zero, result);
        self.update_flag(Flag::Negative, result);
    }

    /// Shift the memory operand left in place; bit 7 lands in Carry.
    pub fn arithmetic_shift_left(&mut self, mode: AddressingMode) -> (data: u8)
        requires
            old(self).wf(),
            mode != AddressingMode::NONE_ADDRESSING,
        ensures
            final(self).wf(),
            final(self)@ == spec_asl_mem(old(self)@, operand_addr(old(self)@, mode)),
            data == spec_asl_result(read8(old(self)@.mem, operand_addr(old(self)@, mode))),
    {
        let addr = self.get_operand_addr(mode);
        let data = self.mem_read(addr);
        self.set_flag_to(Flag::Carry, data >> 7 == 1);
        let result = data << 1;
        self.mem_write(addr, result);
        self.update_flag(Flag::Zero, result);
        self.update_flag(Flag::Negative, result);
        result
    }

    /// Shift the accumulator right; bit 0 lands in Carry.
    pub fn logical_shift_right_a(&mut self)
        ensures
            final(self)@ == spec_lsr_a(old(self)@),
    {
        let data = self.register_a;
        self.set_flag_to(Flag::Carry, data & 1 == 1);
        let result = data >> 1;
        self.register_a = result;
        self.update_flag(Flag::Zero, result);
        self.update_flag(Flag::Negative, result);
    }

    /// Shift the memory operand right in place; bit 0 lands in Carry.
    pub fn logical_shift_right(&mut self, mode: AddressingMode) -> (data: u8)
        requires
            old(self).wf(),
            mode != AddressingMode::NONE_ADDRESSING,
        ensures
            final(self).wf(),
            final(self)@ == spec_lsr_mem(old(self)@, operand_addr(old(self)@, mode)),
            data == spec_lsr_result(read8(old(self)@.mem, operand_addr(old(self)@, mode))),
    {
        let addr = self.get_operand_addr(mode);
        let data = self.mem_read(addr);
        self.set_flag_to(Flag::Carry, data & 1 == 1);
        let result = data >> 1;
        self.mem_write(addr, result);
        self.update_flag(Flag::Zero, result);
        self.update_flag(Flag::Negative, result);
        result
    }

    /// Rotate the accumulator left through Carry: bit 7 lands in Carry and
    /// the old Carry enters at bit 0.
    pub fn rotate_left_a(&mut self)
        ensures
            final(self)@ == spec_rol_a(old(self)@),
    {
        let data = self.register_a;
        let had_carry = self.get_flag(Flag::Carry);
        self.set_flag_to(Flag::Carry, data >> 7 == 1);
        let mut result = data << 1;
        if had_carry {
            result = result | 1;
        }
        self.register_a = result;
        self.update_flag(Flag::Zero, result);
        self.update_flag(Flag::Negative, result);
    }

    /// Rotate the memory operand left through Carry, in place.
    pub fn rotate_left(&mut self, mode: AddressingMode) -> (data: u8)
        requires
            old(self).wf(),
            mode != AddressingMode::NONE_ADDRESSING,
        ensures
            final(self).wf(),
            final(self)@ == spec_rol_mem(old(self)@, operand_addr(old(self)@, mode)),
            data == spec_rol_result(
                read8(old(self)@.mem, operand_addr(old(self)@, mode)),
                flag_set(old(self)@.status, Flag::Carry),
            ),
    {
        let addr = self.get_operand_addr(mode);
        let data = self.mem_read(addr);
        let had_carry = self.get_flag(Flag::Carry);
        self.set_flag_to(Flag::Carry, data >> 7 == 1);
        let mut result = data << 1;
        if had_carry {
            result = result | 1;
        }
        self.mem_write(addr, result);
        self.update_flag(Flag::Zero, result);
        self.update_flag(Flag::Negative, result);
        result
    }

    /// Rotate the accumulator right through Carry: bit 0 lands in Carry and
    /// the old Carry enters at bit 7.
    pub fn rotate_right_a(&mut self)
        ensures
            final(self)@ == spec_ror_a(old(self)@),
    {
        let data = self.register_a;
        let had_carry = self.get_flag(Flag::Carry);
        self.set_flag_to(Flag::Carry, data & 1 == 1);
        let mut result = data >> 1;
        if had_carry {
            result = result | 0x80;
        }
        self.register_a = result;
        self.update_flag(Flag::Zero, result);
        self.update_flag(Flag::Negative, result);
    }

    /// Rotate the memory operand right through Carry, in place.
    pub fn rotate_right(&mut self, mode: AddressingMode) -> (data: u8)
        requires
            old(self).wf(),
            mode != AddressingMode::NONE_ADDRESSING,
        ensures
            final(self).wf(),
            final(self)@ == spec_ror_mem(old(self)@, operand_addr(old(self)@, mode)),
            data == spec_ror_result(
                read8(old(self)@.mem, operand_addr(old(self)@, mode)),
                flag_set(old(self)@.status, Flag::Carry),
            ),
    {
        let addr = self.get_operand_addr(mode);
        let data = self.mem_read(addr);
        let had_carry = self.get_flag(Flag::Carry);
        self.set_flag_to(Flag::Carry, data & 1 == 1);
        let mut result = data >> 1;
        if had_carry {
            result = result | 0x80;
        }
        self.mem_write(addr, result);
        self.update_flag(Flag::Zero, result);
        self.update_flag(Flag::Negative, result);
        result
    }

    /// Read the memory operand into the chosen register and apply the
    /// Zero/Negative rules.
    pub fn load_into(&mut self, mode: AddressingMode, register: Register)
        requires
            old(self).wf(),
            mode != AddressingMode::NONE_ADDRESSING,
        ensures
            final(self).wf(),
            ({
                let value = read8(old(self)@.mem, operand_addr(old(self)@, mode));
                match register {
                    Register::A => final(self)@ == spec_set_a(old(self)@, value),
                    Register::X => final(self)@ == spec_set_x(old(self)@, value),
                    Register::Y => final(self)@ == spec_set_y(old(self)@, value),
                }
            }),
    {
        let addr = self.get_operand_addr(mode);
        let value = self.mem_read(addr);
        match register {
            Register::A => self.set_register_a(value),
            Register::X => self.set_register_x(value),
            Register::Y => self.set_register_y(value),
        }
    }

    /// Decrement the memory operand in place with 8-bit wraparound; the
    /// result defines Zero/Negative and is returned.
    pub fn decrement_memory(&mut self, mode: AddressingMode) -> (data: u8)
        requires
            old(self).wf(),
            mode != AddressingMode::NONE_ADDRESSING,
        ensures
            final(self).wf(),
            final(self)@ == spec_dec_mem(old(self)@, operand_addr(old(self)@, mode)),
            data == wrap_sub8(read8(old(self)@.mem, operand_addr(old(self)@, mode)), 1),
    {
        let addr = self.get_operand_addr(mode);
        let data = self.mem_read(addr).wrapping_sub(1);
        self.mem_write(addr, data);
        self.update_flag(Flag::Zero, data);
        self.update_flag(Flag::Negative, data);
        data
    }

    /// Increment the memory operand in place with 8-bit wraparound; the
    /// result defines Zero/Negative and is returned.
    pub fn increment_memory(&mut self, mode: AddressingMode) -> (data: u8)
        requires
            old(self).wf(),
            mode != AddressingMode::NONE_ADDRESSING,
        ensures
            final(self).wf(),
            final(self)@ == spec_inc_mem(old(self)@, operand_addr(old(self)@, mode)),
            data == wrap_add8(read8(old(self)@.mem, operand_addr(old(self)@, mode)), 1),
    {
        let addr = self.get_operand_addr(mode);
        let data = self.mem_read(addr).wrapping_add(1);
        self.mem_write(addr, data);
        self.update_flag(Flag::Zero, data);
        self.update_flag(Flag::Negative, data);
        data
    }

    /// Decrement X with 8-bit wraparound; the result defines Zero/Negative.
    pub fn decrement_x(&mut self, _mode: AddressingMode)
        ensures
            final(self)@ == spec_set_x(old(self)@, wrap_sub8(old(self).register_x, 1)),
    {
        let value = self.register_x.wrapping_sub(1);
        self.set_register_x(value);
    }

    /// Decrement Y with 8-bit wraparound; the result defines Zero/Negative.
    pub fn decrement_y(&mut self, _mode: AddressingMode)
        ensures
            final(self)@ == spec_set_y(old(self)@, wrap_sub8(old(self).register_y, 1)),
    {
        let value = self.register_y.wrapping_sub(1);
        self.set_register_y(value);
    }

    /// A conditional branch.  When `case` holds, add the sign-extended offset
    /// byte at the program counter to the address of the following
    /// instruction; when it does not, leave the state untouched (the engine
    /// then skips the offset byte through the generic length advance).
    pub fn branch(&mut self, case: bool)
        requires
            old(self).wf(),
        ensures
            final(self).wf(),
            case ==> final(self)@ == (CpuView {
                pc: wrap_add16(
                    wrap_add16(old(self)@.pc, 1),
                    sign_extend(read8(old(self)@.mem, old(self)@.pc)),
                ),
                ..old(self)@
            }),
            !case ==> final(self)@ == old(self)@,
    {
        if case {
            let jump = self.mem_read(self.counter);
            let rel: u16 = if jump >= 0x80 {
                jump as u16 + 0xFF00
            } else {
                jump as u16
            };
            self.counter = self.counter.wrapping_add(1).wrapping_add(rel);
        }
    }

    /// JMP.  Absolute mode jumps to the operand word; `NONE_ADDRESSING` tags
    /// the indirect form, which follows the pointer and reproduces the
    /// hardware quirk: a pointer whose low byte is 0xFF takes its high byte
    /// from the start of the pointer's own page, not the next page.
    pub fn jump(&mut self, mode: AddressingMode)
        requires
            old(self).wf(),
            mode is ABSOLUTE || mode is NONE_ADDRESSING,
        ensures
            final(self).wf(),
            final(self)@ == spec_jump(old(self)@, mode),
    {
        let addr = self.mem_read_u16(self.counter);
        match mode {
            AddressingMode::ABSOLUTE => {
                self.counter = addr;
            },
            AddressingMode::NONE_ADDRESSING => {
                let target = if addr & 0x00FF == 0x00FF {
                    let lo = self.mem_read(addr);
                    let hi = self.mem_read(addr & 0xFF00);
                    lo as u16 + 256 * (hi as u16)
                } else {
                    self.mem_read_u16(addr)
                };
                self.counter = target;
            },
            _ => {
                assert(false);
            },
        }
    }
}

impl CPU {
    /// Copy `program` into memory starting at `start`, leaving everything
    /// else as it was.  The caller has already checked that the image fits
    /// below the end of the address space.
    fn copy_program(&mut self, start: u16, program: &Vec<u8>)
        requires
            old(self).wf(),
            start + program@.len() <= 0x10000,
        ensures
            final(self).wf(),
            final(self)@ == (CpuView {
                mem: Seq::new(
                    0x10000,
                    |i: int|
                        if start <= i < start + program@.len() {
                            program@[i - start]
                        } else {
                            old(self)@.mem[i]
                        },
                ),
                ..old(self)@
            }),
    {
        let ghost orig = self@;
        let mut i: usize = 0;
        while i < program.len()
            invariant
                self.wf(),
                i <= program@.len(),
                start + program@.len() <= 0x10000,
                self@ == (CpuView { mem: self@.mem, ..orig }),
                forall|j: int|
                    start <= j < start + i ==> self@.mem[j] == program@[j - start],
                forall|j: int|
                    0 <= j < 0x10000 && !(start <= j < start + i) ==> self@.mem[j] == orig.mem[j],
            decreases program@.len() - i,
        {
            self.mem_write(start + i as u16, program[i]);
            i = i + 1;
        }
        proof {
            assert(self@.mem =~= Seq::new(
                0x10000,
                |j: int|
                    if start <= j < start + program@.len() {
                        program@[j - start]
                    } else {
                        orig.mem[j]
                    },
            ));
            assert(self@ =~= (CpuView {
                mem: Seq::new(
                    0x10000,
                    |j: int|
                        if start <= j < start + program@.len() {
                            program@[j - start]
                        } else {
                            orig.mem[j]
                        },
                ),
                ..orig
            }));
        }
    }

    /// Load a program image into the 32KB ROM window at 0x8000 and write the
    /// reset vector to point at it.  An image larger than the window is
    /// rejected untouched; it is the one load-time error.
    pub fn load(&mut self, program: Vec<u8>) -> (r: Result<(), EmuError>)
        requires
            old(self).wf(),
        ensures
            final(self).wf(),
            program@.len() <= 0x8000 ==> r is Ok && final(self)@ == spec_load(
                old(self)@,
                program@,
            ),
            program@.len() > 0x8000 ==> r == Err::<(), EmuError>(EmuError::ProgramTooLarge)
                && final(self)@ == old(self)@,
    {
        if program.len() > ROM_SIZE {
            return Err(EmuError::ProgramTooLarge);
        }
        self.copy_program(ROM_START, &program);
        self.mem_write_u16(RESET_VECTOR, ROM_START);
        Ok(())
    }

    /// Skip the operand bytes the instruction handler did not itself
    /// consume: advance the program counter by the encoded length minus the
    /// opcode byte.
    fn advance(&mut self, op: OpCode)
        requires
            op.length >= 1,
        ensures
            final(self)@ == spec_advance(old(self)@, op),
    {
        self.counter = self.counter.wrapping_add((op.length - 1) as u16);
    }

    /// Resolve a branch: take it when `case` holds, otherwise skip the
    /// offset byte.
    fn branch_and_skip(&mut self, case: bool)
        requires
            old(self).wf(),
        ensures
            final(self).wf(),
            final(self)@ == spec_branch(old(self)@, case),
    {
        self.branch(case);
        if !case {
            self.counter = self.counter.wrapping_add(1);
        }
    }

    /// Execute one decoded instruction.  The program counter stands on the
    /// first operand byte; control-flow handlers set it themselves and
    /// everything else gets the generic length-based advance afterwards, so
    /// the two mechanisms never conflict.
    fn execute_decoded(&mut self, op: OpCode)
        requires
            old(self).wf(),
            op_wf(op),
        ensures
            final(self).wf(),
            final(self)@ == spec_exec_op(old(self)@, op),
    {
        match op.operation {
            Operation::BRK => {},
            Operation::NOP => {
                self.advance(op);
            },
            Operation::ADC => {
                let addr = self.get_operand_addr(op.mode);
                let value = self.mem_read(addr);
                self.register_a_add(value);
                self.advance(op);
            },
            Operation::SBC => {
                let addr = self.get_operand_addr(op.mode);
                let value = self.mem_read(addr);
                self.register_a_add(value ^ 0xFF);
                self.advance(op);
            },
            Operation::AND => {
                let addr = self.get_operand_addr(op.mode);
                let value = self.mem_read(addr);
                let result = self.register_a & value;
                self.set_register_a(result);
                self.advance(op);
            },
            Operation::EOR => {
                let addr = self.get_operand_addr(op.mode);
                let value = self.mem_read(addr);
                let result = self.register_a ^ value;
                self.set_register_a(result);
                self.advance(op);
            },
            Operation::ORA => {
                let addr = self.get_operand_addr(op.mode);
                let value = self.mem_read(addr);
                let result = self.register_a | value;
                self.set_register_a(result);
                self.advance(op);
            },
            Operation::ASL => {
                if op.mode == AddressingMode::NONE_ADDRESSING {
                    self.arithmetic_shift_left_a();
                } else {
                    let _ = self.arithmetic_shift_left(op.mode);
                }
                self.advance(op);
            },
            Operation::LSR => {
                if op.mode == AddressingMode::NONE_ADDRESSING {
                    self.logical_shift_right_a();
                } else {
                    let _ = self.logical_shift_right(op.mode);
                }
                self.advance(op);
            },
            Operation::ROL => {
                if op.mode == AddressingMode::NONE_ADDRESSING {
                    self.rotate_left_a();
                } else {
                    let _ = self.rotate_left(op.mode);
                }
                self.advance(op);
            },
            Operation::ROR => {
                if op.mode == AddressingMode::NONE_ADDRESSING {
                    self.rotate_right_a();
                } else {
                    let _ = self.rotate_right(op.mode);
                }
                self.advance(op);
            },
            Operation::INC => {
                let _ = self.increment_memory(op.mode);
                self.advance(op);
            },
            Operation::DEC => {
                let _ = self.decrement_memory(op.mode);
                self.advance(op);
            },
            Operation::DEX => {
                self.decrement_x(op.mode);
                self.advance(op);
            },
            Operation::DEY => {
                self.decrement_y(op.mode);
                self.advance(op);
            },
            Operation::INX => {
                let value = self.register_x.wrapping_add(1);
                self.set_register_x(value);
                self.advance(op);
            },
            Operation::INY => {
                let value = self.register_y.wrapping_add(1);
                self.set_register_y(value);
                self.advance(op);
            },
            Operation::CMP => {
                let value = self.register_a;
                self.compare(op.mode, value);
                self.advance(op);
            },
            Operation::CPX => {
                let value = self.register_x;
                self.compare(op.mode, value);
                self.advance(op);
            },
            Operation::CPY => {
                let value = self.register_y;
                self.compare(op.mode, value);
                self.advance(op);
            },
            Operation::JMP => {
                self.jump(op.mode);
            },
            Operation::JSR => {
                let ret = self.counter.wrapping_add(1);
                self.stack_push_u16(ret);
                let target = self.mem_read_u16(self.counter);
                self.counter = target;
            },
            Operation::RTS => {
                let value = self.stack_pull_u16();
                self.counter = value.wrapping_add(1);
            },
            Operation::RTI => {
                let value = self.stack_pull();
                self.status = value;
                self.clear_flag(Flag::BreakCommand);
                self.clear_flag(Flag::BreakCommand2);
                let target = self.stack_pull_u16();
                self.counter = target;
            },
            Operation::BCC => {
                let case = !self.get_flag(Flag::Carry);
                self.branch_and_skip(case);
            },
            Operation::BCS => {
                let case = self.get_flag(Flag::Carry);
                self.branch_and_skip(case);
            },
            Operation::BEQ => {
                let case = self.get_flag(Flag::Zero);
                self.branch_and_skip(case);
            },
            Operation::BMI => {
                let case = self.get_flag(Flag::Negative);
                self.branch_and_skip(case);
            },
            Operation::BNE => {
                let case = !self.get_flag(Flag::Zero);
                self.branch_and_skip(case);
            },
            Operation::BPL => {
                let case = !self.get_flag(Flag::Negative);
                self.branch_and_skip(case);
            },
            Operation::BVC => {
                let case = !self.get_flag(Flag::Overflow);
                self.branch_and_skip(case);
            },
            Operation::BVS => {
                let case = self.get_flag(Flag::Overflow);
                self.branch_and_skip(case);
            },
            Operation::BIT => {
                let addr = self.get_operand_addr(op.mode);
                let data = self.mem_read(addr);
                let masked = self.register_a & data;
                self.set_flag_to(Flag::Zero, masked == 0);
                self.set_flag_to(Flag::Negative, data & 0x80 > 0);
                self.set_flag_to(Flag::Overflow, data & 0x40 > 0);
                self.advance(op);
            },
            Operation::LDA => {
                self.load_into(op.mode, Register::A);
                self.advance(op);
            },
            Operation::LDX => {
                self.load_into(op.mode, Register::X);
                self.advance(op);
            },
            Operation::LDY => {
                self.load_into(op.mode, Register::Y);
                self.advance(op);
            },
            Operation::STA => {
                let addr = self.get_operand_addr(op.mode);
                let value = self.register_a;
                self.mem_write(addr, value);
                self.advance(op);
            },
            Operation::STX => {
                let addr = self.get_operand_addr(op.mode);
                let value = self.register_x;
                self.mem_write(addr, value);
                self.advance(op);
            },
            Operation::STY => {
                let addr = self.get_operand_addr(op.mode);
                let value = self.register_y;
                self.mem_write(addr, value);
                self.advance(op);
            },
            Operation::CLC => {
                self.clear_flag(Flag::Carry);
                self.advance(op);
            },
            Operation::CLD => {
                self.clear_flag(Flag::DecimalMode);
                self.advance(op);
            },
            Operation::CLI => {
                self.clear_flag(Flag::InterruptDisable);
                self.advance(op);
            },
            Operation::CLV => {
                self.clear_flag(Flag::Overflow);
                self.advance(op);
            },
            Operation::SEC => {
                self.set_flag(Flag::Carry);
                self.advance(op);
            },
            Operation::SED => {
                self.set_flag(Flag::DecimalMode);
                self.advance(op);
            },
            Operation::SEI => {
                self.set_flag(Flag::InterruptDisable);
                self.advance(op);
            },
            Operation::TAX => {
                let value = self.register_a;
                self.set_register_x(value);
                self.advance(op);
            },
            Operation::TAY => {
                let value = self.register_a;
                self.set_register_y(value);
                self.advance(op);
            },
            Operation::TSX => {
                let value = self.stack_pointer;
                self.set_register_x(value);
                self.advance(op);
            },
            Operation::TXA => {
                let value = self.register_x;
                self.set_register_a(value);
                self.advance(op);
            },
            Operation::TXS => {
                self.stack_pointer = self.register_x;
                self.advance(op);
            },
            Operation::TYA => {
                let value = self.register_y;
                self.set_register_a(value);
                self.advance(op);
            },
            Operation::PHA => {
                let value = self.register_a;
                self.stack_push(value);
                self.advance(op);
            },
            Operation::PHP => {
                let value = (self.status | Flag::BreakCommand.mask())
                    | Flag::BreakCommand2.mask();
                self.stack_push(value);
                self.advance(op);
            },
            Operation::PLA => {
                let value = self.stack_pull();
                self.register_a = value;
                self.advance(op);
            },
            Operation::PLP => {
                let value = self.stack_pull();
                self.status = value;
                self.clear_flag(Flag::BreakCommand);
                self.clear_flag(Flag::BreakCommand2);
                self.advance(op);
            },
        }
    }

    /// Retire one instruction: fetch the byte at the program counter,
    /// advance past it, and then halt (`Ok(false)`, the byte was BRK),
    /// execute it (`Ok(true)`), or report an unrecognized byte, leaving the
    /// state as it stood after the fetch.
    pub fn step(&mut self) -> (r: Result<bool, EmuError>)
        requires
            old(self).wf(),
        ensures
            final(self).wf(),
            final(self)@ == spec_step(old(self)@).post,
            r == Ok::<bool, EmuError>(true) <==> spec_step(old(self)@).event is Ran,
            r == Ok::<bool, EmuError>(false) <==> spec_step(old(self)@).event is Halted,
            r is Err ==> spec_step(old(self)@).event is Illegal && r == Err::<bool, EmuError>(
                EmuError::IllegalOpcode {
                    opcode: read8(old(self)@.mem, old(self)@.pc),
                    address: old(self)@.pc,
                },
            ),
    {
        let address = self.counter;
        let opcode = self.mem_read(address);
        self.counter = self.counter.wrapping_add(1);
        self.counter_state = self.counter;
        if opcode == 0 {
            return Ok(false);
        }
        match decode(opcode) {
            None => Err(EmuError::IllegalOpcode { opcode, address }),
            Some(op) => {
                self.execute_decoded(op);
                Ok(true)
            },
        }
    }

    /// The fetch/decode/execute loop: retire instructions until BRK halts
    /// the run (`Ok`), or an unrecognized byte stops it, or 2^64 - 1
    /// instructions have retired without either.  In the first two cases the
    /// final state is the terminal state [`spec_run`] reaches from the
    /// starting state; in the last, no fuel below the bound reaches a
    /// terminal state at all.
    pub fn run(&mut self) -> (r: Result<(), EmuError>)
        requires
            old(self).wf(),
        ensures
            final(self).wf(),
            r is Ok ==> exists|n: nat|
                (#[trigger] spec_run(old(self)@, n)) matches Some(t) && t.post == final(self)@
                    && t.event is Halted,
            r matches Err(e) && e is IllegalOpcode ==> exists|n: nat|
                (#[trigger] spec_run(old(self)@, n)) matches Some(t) && t.post == final(self)@
                    && t.event is Illegal,
            r matches Err(EmuError::IllegalOpcode { opcode, address }) ==> wrap_add16(address, 1)
                == final(self)@.pc && opcode == read8(final(self)@.mem, address) && opcode != 0
                && spec_decode(opcode) is None,
            r == Err::<(), EmuError>(EmuError::StepLimit) ==> forall|m: nat|
                m < u64::MAX ==> (#[trigger] spec_run(old(self)@, m)) is None,
            r matches Err(e) ==> !(e is ProgramTooLarge),
            r is Ok || (r matches Err(e) && e is IllegalOpcode) ==> forall|m: nat|
                (#[trigger] spec_run(old(self)@, m)) matches Some(t) ==> t.post == final(self)@
                    && (t.event is Halted <==> r is Ok),
    {
        let ghost start = self@;
        let ghost mut steps: nat = 0;
        let mut remaining: u64 = u64::MAX;
        while remaining > 0
            invariant
                self.wf(),
                start == old(self)@,
                steps + remaining == u64::MAX,
                forall|m: nat| spec_run(start, m + steps) == #[trigger] spec_run(self@, m),
                forall|m: nat| m < steps ==> (#[trigger] spec_run(start, m)) is None,
            decreases remaining,
        {
            remaining = remaining - 1;
            let ghost pre = self@;
            let outcome = self.step();
            match outcome {
                Ok(true) => {
                    proof {
                        assert forall|m: nat|
                            spec_run(start, m + (steps + 1)) == #[trigger] spec_run(
                                self@,
                                m,
                            ) by {
                            crate::machine::lemma_spec_run_unfold(pre, m);
                            assert(spec_run(pre, m + 1) == spec_run(self@, m));
                            assert(spec_run(start, (m + 1) + steps) == spec_run(pre, m + 1));
                        }
                        assert forall|m: nat| m < steps + 1 implies (#[trigger] spec_run(
                            start,
                            m,
                        )) is None by {
                            if m == steps {
                                assert(spec_run(start, 0 + steps) == spec_run(pre, 0));
                                assert(spec_run(pre, 0) is None);
                            }
                        }
                        steps = steps + 1;
                    }
                },
                Ok(false) => {
                    proof {
                        assert(spec_run(pre, 0) == Some(spec_step(pre)));
                        assert(spec_run(start, 0 + steps) == spec_run(pre, 0));
                        assert forall|m: nat| (#[trigger] spec_run(start, m)) is Some implies
                            spec_run(start, m) == spec_run(start, steps) by {
                            crate::machine::lemma_spec_run_deterministic(start, m, steps);
                        }
                    }
                    return Ok(());
                },
                Err(e) => {
                    proof {
                        assert(spec_run(pre, 0) == Some(spec_step(pre)));
                        assert(spec_run(start, 0 + steps) == spec_run(pre, 0));
                        assert forall|m: nat| (#[trigger] spec_run(start, m)) is Some implies
                            spec_run(start, m) == spec_run(start, steps) by {
                            crate::machine::lemma_spec_run_deterministic(start, m, steps);
                        }
                    }
                    return Err(e);
                },
            }
        }
        Err(EmuError::StepLimit)
    }

    /// Load a program image, reset the processor, and run until BRK or an
    /// illegal opcode.  An image larger than the ROM window is rejected
    /// untouched.
    pub fn load_and_run(&mut self, program: Vec<u8>) -> (r: Result<(), EmuError>)
        requires
            old(self).wf(),
        ensures
            final(self).wf(),
            program@.len() > 0x8000 ==> r == Err::<(), EmuError>(EmuError::ProgramTooLarge)
                && final(self)@ == old(self)@,
            program@.len() <= 0x8000 ==> ({
                let start = spec_reset(spec_load(old(self)@, program@));
                &&& (r is Ok ==> exists|n: nat|
                    (#[trigger] spec_run(start, n)) matches Some(t) && t.post == final(self)@
                        && t.event is Halted)
                &&& (r matches Err(e) && e is IllegalOpcode ==> exists|n: nat|
                    (#[trigger] spec_run(start, n)) matches Some(t) && t.post == final(self)@
                        && t.event is Illegal)
                &&& (r == Err::<(), EmuError>(EmuError::StepLimit) ==> forall|m: nat|
                    m < u64::MAX ==> (#[trigger] spec_run(start, m)) is None)
                &&& (r matches Err(e) ==> !(e is ProgramTooLarge))
                &&& (r is Ok || (r matches Err(e) && e is IllegalOpcode) ==> forall|m: nat|
                    (#[trigger] spec_run(start, m)) matches Some(t) ==> t.post == final(self)@
                        && (t.event is Halted <==> r is Ok))
            }),
    {
        match self.load(program) {
            Ok(_) => {},
            Err(e) => {
                return Err(e);
            },
        }
        self.reset_interrupt();
        self.run()
    }
}

/// The hardware-default status byte: InterruptDisable and bit 5 set.
fn reset_status_byte() -> (r: u8)
    ensures
        r == reset_status(),
{
    0x24
}

/// The machine code of the bundled snake demo game.  It is a fixture for the
/// host application, not part of the interpreter's own logic: the program
/// reads a random byte at 0x00FE and the last key pressed at 0x00FF, and
/// draws by writing the screen bytes at 0x0200 through 0x05FF.
pub const SNAKE_GAME: [u8; 309] = [
    0x20, 0x06, 0x06, 0x20, 0x38, 0x06, 0x20, 0x0d, 0x06, 0x20, 0x2a, 0x06, 0x60, 0xa9, 0x02,
    0x85, 0x02, 0xa9, 0x04, 0x85, 0x03, 0xa9, 0x11, 0x85, 0x10, 0xa9, 0x10, 0x85, 0x12, 0xa9,
    0x0f, 0x85, 0x14, 0xa9, 0x04, 0x85, 0x11, 0x85, 0x13, 0x85, 0x15, 0x60, 0xa5, 0xfe, 0x85,
    0x00, 0xa5, 0xfe, 0x29, 0x03, 0x18, 0x69, 0x02, 0x85, 0x01, 0x60, 0x20, 0x4d, 0x06, 0x20,
    0x8d, 0x06, 0x20, 0xc3, 0x06, 0x20, 0x19, 0x07, 0x20, 0x20, 0x07, 0x20, 0x2d, 0x07, 0x4c,
    0x38, 0x06, 0xa5, 0xff, 0xc9, 0x77, 0xf0, 0x0d, 0xc9, 0x64, 0xf0, 0x14, 0xc9, 0x73, 0xf0,
    0x1b, 0xc9, 0x61, 0xf0, 0x22, 0x60, 0xa9, 0x04, 0x24, 0x02, 0xd0, 0x26, 0xa9, 0x01, 0x85,
    0x02, 0x60, 0xa9, 0x08, 0x24, 0x02, 0xd0, 0x1b, 0xa9, 0x02, 0x85, 0x02, 0x60, 0xa9, 0x01,
    0x24, 0x02, 0xd0, 0x10, 0xa9, 0x04, 0x85, 0x02, 0x60, 0xa9, 0x02, 0x24, 0x02, 0xd0, 0x05,
    0xa9, 0x08, 0x85, 0x02, 0x60, 0x60, 0x20, 0x94, 0x06, 0x20, 0xa8, 0x06, 0x60, 0xa5, 0x00,
    0xc5, 0x10, 0xd0, 0x0d, 0xa5, 0x01, 0xc5, 0x11, 0xd0, 0x07, 0xe6, 0x03, 0xe6, 0x03, 0x20,
    0x2a, 0x06, 0x60, 0xa2, 0x02, 0xb5, 0x10, 0xc5, 0x10, 0xd0, 0x06, 0xb5, 0x11, 0xc5, 0x11,
    0xf0, 0x09, 0xe8, 0xe8, 0xe4, 0x03, 0xf0, 0x06, 0x4c, 0xaa, 0x06, 0x4c, 0x35, 0x07, 0x60,
    0xa6, 0x03, 0xca, 0x8a, 0xb5, 0x10, 0x95, 0x12, 0xca, 0x10, 0xf9, 0xa5, 0x02, 0x4a, 0xb0,
    0x09, 0x4a, 0xb0, 0x19, 0x4a, 0xb0, 0x1f, 0x4a, 0xb0, 0x2f, 0xa5, 0x10, 0x38, 0xe9, 0x20,
    0x85, 0x10, 0x90, 0x01, 0x60, 0xc6, 0x11, 0xa9, 0x01, 0xc5, 0x11, 0xf0, 0x28, 0x60, 0xe6,
    0x10, 0xa9, 0x1f, 0x24, 0x10, 0xf0, 0x1f, 0x60, 0xa5, 0x10, 0x18, 0x69, 0x20, 0x85, 0x10,
    0xb0, 0x01, 0x60, 0xe6, 0x11, 0xa9, 0x06, 0xc5, 0x11, 0xf0, 0x0c, 0x60, 0xc6, 0x10, 0xa5,
    0x10, 0x29, 0x1f, 0xc9, 0x1f, 0xf0, 0x01, 0x60, 0x4c, 0x35, 0x07, 0xa0, 0x00, 0xa5, 0xfe,
    0x91, 0x00, 0x60, 0xa6, 0x03, 0xa9, 0x00, 0x81, 0x10, 0xa2, 0x00, 0xa9, 0x01, 0x81, 0x10,
    0x60, 0xa2, 0x00, 0xea, 0xea, 0xca, 0xd0, 0xfb, 0x60,
];

/// Where the snake demo is loaded.
const SNAKE_START: u16 = 0x0600;

impl CPU {
    /// Copy the bundled snake demo into memory at 0x0600 and point the reset
    /// vector at it.
    pub fn load_snake(&mut self)
        requires
            old(self).wf(),
        ensures
            final(self).wf(),
            final(self)@ == crate::machine::spec_load_at(old(self)@, 0x0600, SNAKE_GAME@),
    {
        let mut bytes: Vec<u8> = Vec::new();
        let mut i: usize = 0;
        while i < 309
            invariant
                i <= 309,
                bytes@.len() == i,
                forall|j: int| 0 <= j < i ==> bytes@[j] == SNAKE_GAME@[j],
            decreases 309 - i,
        {
            bytes.push(SNAKE_GAME[i]);
            i = i + 1;
        }
        proof {
            assert(bytes@ =~= SNAKE_GAME@);
        }
        self.copy_program(SNAKE_START, &bytes);
        self.mem_write_u16(RESET_VECTOR, SNAKE_START);
    }
}

} // verus!
