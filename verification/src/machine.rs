//! The abstract machine.
//!
//! Everything the interpreter does is written down here as mathematical
//! functions over [`CpuView`], a ghost snapshot of the whole processor state:
//! registers, flags, stack pointer, program counter and the 64KB address
//! space as a sequence of bytes.  [`spec_step`] is the transition function
//! for retiring one instruction; [`spec_run`] iterates it with bounded fuel.
//! The executable engine in [`crate::cpu`] is proved to follow these
//! functions exactly.
//!
//! All addresses are taken modulo 65536 and all zero-page-relative pointers
//! modulo 256; arithmetic here never faults, matching the hardware.

use vstd::prelude::*;

use crate::flags::{
    flag_set, flag_set_to, with_flag, with_nz_of, without_flag, Flag,
};
use crate::opcodes::{spec_decode, AddressingMode, OpCode, Operation};

verus! {

/// 8-bit wraparound addition.
pub open spec fn wrap_add8(a: u8, b: u8) -> u8 {
    vstd::wrapping::u8_specs::wrapping_add(a, b)
}

/// 8-bit wraparound subtraction.
pub open spec fn wrap_sub8(a: u8, b: u8) -> u8 {
    vstd::wrapping::u8_specs::wrapping_sub(a, b)
}

/// 16-bit wraparound addition.
pub open spec fn wrap_add16(a: u16, b: u16) -> u16 {
    vstd::wrapping::u16_specs::wrapping_add(a, b)
}

/// A signed 8-bit branch offset, sign-extended to 16 bits so it can be added
/// with 16-bit wraparound.
pub open spec fn sign_extend(b: u8) -> u16 {
    if b >= 0x80 {
        (b + 0xFF00) as u16
    } else {
        b as u16
    }
}

/// A ghost snapshot of the complete processor state.
#[verifier::ext_equal]
pub struct CpuView {
    pub a: u8,
    pub x: u8,
    pub y: u8,
    pub status: u8,
    /// The program counter: the address of the next byte to fetch.
    pub pc: u16,
    /// The program counter as it stood right after the last opcode fetch.
    pub pc_state: u16,
    pub sp: u8,
    /// The full 64KB address space.
    pub mem: Seq<u8>,
}

impl CpuView {
    /// The one structural invariant: the address space covers exactly the
    /// 16-bit range.
    pub open spec fn wf(self) -> bool {
        self.mem.len() == 0x10000
    }
}

/// The byte stored at `addr`.
pub open spec fn read8(mem: Seq<u8>, addr: u16) -> u8 {
    mem[addr as int]
}

/// The address space with `data` stored at `addr`.
pub open spec fn write8(mem: Seq<u8>, addr: u16, data: u8) -> Seq<u8> {
    mem.update(addr as int, data)
}

/// The little-endian 16-bit word stored at `pos`; the high byte comes from
/// `pos + 1` with 16-bit wraparound.
pub open spec fn read16(mem: Seq<u8>, pos: u16) -> u16 {
    (read8(mem, pos) + 256 * read8(mem, wrap_add16(pos, 1))) as u16
}

/// The address space with `data` stored little-endian at `pos` and
/// `pos + 1` (with 16-bit wraparound).
pub open spec fn write16(mem: Seq<u8>, pos: u16, data: u16) -> Seq<u8> {
    write8(write8(mem, pos, (data % 256) as u8), wrap_add16(pos, 1), (data / 256) as u8)
}

/// The effective operand address for each addressing mode, computed from the
/// program counter (which points at the byte after the opcode), the index
/// registers and memory.  `NONE_ADDRESSING` has no memory operand; the
/// resolver is never asked for it, and this total function returns 0 there.
pub open spec fn operand_addr(v: CpuView, mode: AddressingMode) -> u16 {
    match mode {
        AddressingMode::IMMEDIATE => v.pc,
        AddressingMode::ZERO_PAGE => read8(v.mem, v.pc) as u16,
        AddressingMode::ZERO_PAGE_X => wrap_add8(read8(v.mem, v.pc), v.x) as u16,
        AddressingMode::ZERO_PAGE_Y => wrap_add8(read8(v.mem, v.pc), v.y) as u16,
        AddressingMode::ABSOLUTE => read16(v.mem, v.pc),
        AddressingMode::ABSOLUTE_X => wrap_add16(read16(v.mem, v.pc), v.x as u16),
        AddressingMode::ABSOLUTE_Y => wrap_add16(read16(v.mem, v.pc), v.y as u16),
        AddressingMode::INDIRECT_X => {
            let ptr = wrap_add8(read8(v.mem, v.pc), v.x);
            let lo = read8(v.mem, ptr as u16);
            let hi = read8(v.mem, wrap_add8(ptr, 1) as u16);
            (lo + 256 * hi) as u16
        },
        AddressingMode::INDIRECT_Y => {
            let base = read8(v.mem, v.pc);
            let lo = read8(v.mem, base as u16);
            let hi = read8(v.mem, wrap_add8(base, 1) as u16);
            wrap_add16((lo + 256 * hi) as u16, v.y as u16)
        },
        AddressingMode::NONE_ADDRESSING => 0,
    }
}

/// Store `value` in the accumulator and apply the Zero/Negative rules.
pub open spec fn spec_set_a(v: CpuView, value: u8) -> CpuView {
    CpuView { a: value, status: with_nz_of(v.status, value), ..v }
}

/// Store `value` in X and apply the Zero/Negative rules.
pub open spec fn spec_set_x(v: CpuView, value: u8) -> CpuView {
    CpuView { x: value, status: with_nz_of(v.status, value), ..v }
}

/// Store `value` in Y and apply the Zero/Negative rules.
pub open spec fn spec_set_y(v: CpuView, value: u8) -> CpuView {
    CpuView { y: value, status: with_nz_of(v.status, value), ..v }
}

/// Add-with-carry into the accumulator: `sum = A + data + Carry`; Carry is
/// set iff the sum exceeds 255; Overflow is set iff the sign bits of the
/// operands agree and disagree with the sign of the result; the truncated sum
/// lands in A, which defines Zero and Negative.
pub open spec fn spec_adc(v: CpuView, data: u8) -> CpuView {
    let carry_in: int = if flag_set(v.status, Flag::Carry) {
        1
    } else {
        0
    };
    let sum = v.a + data + carry_in;
    let result = (sum % 256) as u8;
    let s_carry = flag_set_to(v.status, Flag::Carry, sum > 0xFF);
    let s_over = flag_set_to(s_carry, Flag::Overflow, (data ^ result) & (result ^ v.a) & 0x80
        != 0);
    CpuView { a: result, status: with_nz_of(s_over, result), ..v }
}

/// Compare a register with a memory operand: Carry is set iff the operand is
/// at most the register, and the wrapping difference defines Zero/Negative.
pub open spec fn spec_compare_status(status: u8, data: u8, reg: u8) -> u8 {
    with_nz_of(flag_set_to(status, Flag::Carry, data <= reg), wrap_sub8(reg, data))
}

/// Status byte after a shift or rotate: the shifted-out bit lands in Carry
/// and the result byte defines Zero/Negative.
pub open spec fn spec_shift_status(status: u8, carry: bool, result: u8) -> u8 {
    with_nz_of(flag_set_to(status, Flag::Carry, carry), result)
}

/// A left shift: bit 7 is shifted out into Carry.
pub open spec fn spec_asl_result(data: u8) -> u8 {
    data << 1
}

/// A right shift: bit 0 is shifted out into Carry.
pub open spec fn spec_lsr_result(data: u8) -> u8 {
    data >> 1
}

/// A left rotate: the old Carry enters at bit 0.
pub open spec fn spec_rol_result(data: u8, carry_in: bool) -> u8 {
    if carry_in {
        (data << 1) | 1
    } else {
        data << 1
    }
}

/// A right rotate: the old Carry enters at bit 7.
pub open spec fn spec_ror_result(data: u8, carry_in: bool) -> u8 {
    if carry_in {
        (data >> 1) | 0x80
    } else {
        data >> 1
    }
}

/// Shift the accumulator left; the shifted-out bit lands in Carry.
pub open spec fn spec_asl_a(v: CpuView) -> CpuView {
    CpuView {
        a: spec_asl_result(v.a),
        status: spec_shift_status(v.status, v.a >> 7 == 1, spec_asl_result(v.a)),
        ..v
    }
}

/// Shift the byte at `addr` left in place; the shifted-out bit lands in
/// Carry.
pub open spec fn spec_asl_mem(v: CpuView, addr: u16) -> CpuView {
    let data = read8(v.mem, addr);
    CpuView {
        mem: write8(v.mem, addr, spec_asl_result(data)),
        status: spec_shift_status(v.status, data >> 7 == 1, spec_asl_result(data)),
        ..v
    }
}

/// Shift the accumulator right; the shifted-out bit lands in Carry.
pub open spec fn spec_lsr_a(v: CpuView) -> CpuView {
    CpuView {
        a: spec_lsr_result(v.a),
        status: spec_shift_status(v.status, v.a & 1 == 1, spec_lsr_result(v.a)),
        ..v
    }
}

/// Shift the byte at `addr` right in place; the shifted-out bit lands in
/// Carry.
pub open spec fn spec_lsr_mem(v: CpuView, addr: u16) -> CpuView {
    let data = read8(v.mem, addr);
    CpuView {
        mem: write8(v.mem, addr, spec_lsr_result(data)),
        status: spec_shift_status(v.status, data & 1 == 1, spec_lsr_result(data)),
        ..v
    }
}

/// Rotate the accumulator left through Carry.
pub open spec fn spec_rol_a(v: CpuView) -> CpuView {
    let carry_in = flag_set(v.status, Flag::Carry);
    CpuView {
        a: spec_rol_result(v.a, carry_in),
        status: spec_shift_status(v.status, v.a >> 7 == 1, spec_rol_result(v.a, carry_in)),
        ..v
    }
}

/// Rotate the byte at `addr` left through Carry, in place.
pub open spec fn spec_rol_mem(v: CpuView, addr: u16) -> CpuView {
    let carry_in = flag_set(v.status, Flag::Carry);
    let data = read8(v.mem, addr);
    CpuView {
        mem: write8(v.mem, addr, spec_rol_result(data, carry_in)),
        status: spec_shift_status(v.status, data >> 7 == 1, spec_rol_result(data, carry_in)),
        ..v
    }
}

/// Rotate the accumulator right through Carry.
pub open spec fn spec_ror_a(v: CpuView) -> CpuView {
    let carry_in = flag_set(v.status, Flag::Carry);
    CpuView {
        a: spec_ror_result(v.a, carry_in),
        status: spec_shift_status(v.status, v.a & 1 == 1, spec_ror_result(v.a, carry_in)),
        ..v
    }
}

/// Rotate the byte at `addr` right through Carry, in place.
pub open spec fn spec_ror_mem(v: CpuView, addr: u16) -> CpuView {
    let carry_in = flag_set(v.status, Flag::Carry);
    let data = read8(v.mem, addr);
    CpuView {
        mem: write8(v.mem, addr, spec_ror_result(data, carry_in)),
        status: spec_shift_status(v.status, data & 1 == 1, spec_ror_result(data, carry_in)),
        ..v
    }
}

/// Increment the byte at `addr` in place with 8-bit wraparound; the result
/// defines Zero/Negative.
pub open spec fn spec_inc_mem(v: CpuView, addr: u16) -> CpuView {
    let data = wrap_add8(read8(v.mem, addr), 1);
    CpuView { mem: write8(v.mem, addr, data), status: with_nz_of(v.status, data), ..v }
}

/// Decrement the byte at `addr` in place with 8-bit wraparound; the result
/// defines Zero/Negative.
pub open spec fn spec_dec_mem(v: CpuView, addr: u16) -> CpuView {
    let data = wrap_sub8(read8(v.mem, addr), 1);
    CpuView { mem: write8(v.mem, addr, data), status: with_nz_of(v.status, data), ..v }
}

/// Push one byte: store it at `0x0100 + SP`, then decrement SP with 8-bit
/// wraparound.
pub open spec fn spec_push8(v: CpuView, data: u8) -> CpuView {
    CpuView {
        mem: write8(v.mem, (0x100 + v.sp) as u16, data),
        sp: wrap_sub8(v.sp, 1),
        ..v
    }
}

/// Push a 16-bit value, high byte first, so that pulling restores
/// little-endian order.
pub open spec fn spec_push16(v: CpuView, data: u16) -> CpuView {
    spec_push8(spec_push8(v, (data / 256) as u8), (data % 256) as u8)
}

/// Pull one byte: increment SP with 8-bit wraparound, then read
/// `0x0100 + SP`.
pub open spec fn spec_pull8(v: CpuView) -> (CpuView, u8) {
    let sp1 = wrap_add8(v.sp, 1);
    (CpuView { sp: sp1, ..v }, read8(v.mem, (0x100 + sp1) as u16))
}

/// Pull a 16-bit value: low byte first, then high byte.
pub open spec fn spec_pull16(v: CpuView) -> (CpuView, u16) {
    let (v1, lo) = spec_pull8(v);
    let (v2, hi) = spec_pull8(v1);
    (v2, (lo + 256 * hi) as u16)
}

/// A taken branch adds the sign-extended offset byte to the address of the
/// following instruction; a branch not taken just skips the offset byte.
pub open spec fn spec_branch(v: CpuView, taken: bool) -> CpuView {
    if taken {
        CpuView {
            pc: wrap_add16(wrap_add16(v.pc, 1), sign_extend(read8(v.mem, v.pc))),
            ..v
        }
    } else {
        CpuView { pc: wrap_add16(v.pc, 1), ..v }
    }
}

/// The condition each branch operation tests.
pub open spec fn branch_cond(status: u8, operation: Operation) -> bool {
    match operation {
        Operation::BCC => !flag_set(status, Flag::Carry),
        Operation::BCS => flag_set(status, Flag::Carry),
        Operation::BEQ => flag_set(status, Flag::Zero),
        Operation::BMI => flag_set(status, Flag::Negative),
        Operation::BNE => !flag_set(status, Flag::Zero),
        Operation::BPL => !flag_set(status, Flag::Negative),
        Operation::BVC => !flag_set(status, Flag::Overflow),
        Operation::BVS => flag_set(status, Flag::Overflow),
        _ => false,
    }
}

/// JMP.  Absolute mode jumps to the operand word.  Indirect mode (tagged
/// `NONE_ADDRESSING` in the table) follows the pointer, reproducing the
/// hardware quirk: when the pointer's low byte is 0xFF, the high byte of the
/// target is fetched from the start of the pointer's own page rather than
/// from the next page.
pub open spec fn spec_jump(v: CpuView, mode: AddressingMode) -> CpuView {
    let addr = read16(v.mem, v.pc);
    if mode is ABSOLUTE {
        CpuView { pc: addr, ..v }
    } else {
        let target = if addr & 0x00FF == 0x00FF {
            let lo = read8(v.mem, addr);
            let hi = read8(v.mem, addr & 0xFF00);
            (lo + 256 * hi) as u16
        } else {
            read16(v.mem, addr)
        };
        CpuView { pc: target, ..v }
    }
}

/// JSR: push the address of the last byte of the JSR instruction (the return
/// address minus one), then jump to the operand word.  The pushes happen
/// first, so the operand is read from the updated address space.
pub open spec fn spec_jsr(v: CpuView) -> CpuView {
    let pushed = spec_push16(v, wrap_add16(v.pc, 1));
    CpuView { pc: read16(pushed.mem, v.pc), ..pushed }
}

/// RTS: pull the return address and add one.
pub open spec fn spec_rts(v: CpuView) -> CpuView {
    let (v1, value) = spec_pull16(v);
    CpuView { pc: wrap_add16(value, 1), ..v1 }
}

/// RTI: pull the status byte (clearing both break-command bits), then pull
/// the program counter.
pub open spec fn spec_rti(v: CpuView) -> CpuView {
    let (v1, s) = spec_pull8(v);
    let restored = CpuView {
        status: without_flag(without_flag(s, Flag::BreakCommand), Flag::BreakCommand2),
        ..v1
    };
    let (v2, value) = spec_pull16(restored);
    CpuView { pc: value, ..v2 }
}

/// Skip the operand bytes the handler did not itself consume: advance the
/// program counter by the encoded length minus the opcode byte.
pub open spec fn spec_advance(v: CpuView, op: OpCode) -> CpuView {
    CpuView { pc: wrap_add16(v.pc, (op.length - 1) as u16), ..v }
}

/// The effect of one decoded instruction, starting from the state right after
/// the opcode fetch (the program counter points at the first operand byte).
/// Control-flow operations set the program counter themselves and must not
/// also receive the generic length-based advance; everything else ends with
/// [`spec_advance`].
pub open spec fn spec_exec_op(v: CpuView, op: OpCode) -> CpuView {
    match op.operation {
        Operation::BRK => v,
        Operation::NOP => spec_advance(v, op),

        Operation::ADC => spec_advance(
            spec_adc(v, read8(v.mem, operand_addr(v, op.mode))),
            op,
        ),
        Operation::SBC => spec_advance(
            spec_adc(v, read8(v.mem, operand_addr(v, op.mode)) ^ 0xFF),
            op,
        ),

        Operation::AND => spec_advance(
            spec_set_a(v, v.a & read8(v.mem, operand_addr(v, op.mode))),
            op,
        ),
        Operation::EOR => spec_advance(
            spec_set_a(v, v.a ^ read8(v.mem, operand_addr(v, op.mode))),
            op,
        ),
        Operation::ORA => spec_advance(
            spec_set_a(v, v.a | read8(v.mem, operand_addr(v, op.mode))),
            op,
        ),

        Operation::ASL => spec_advance(
            if op.mode is NONE_ADDRESSING {
                spec_asl_a(v)
            } else {
                spec_asl_mem(v, operand_addr(v, op.mode))
            },
            op,
        ),
        Operation::LSR => spec_advance(
            if op.mode is NONE_ADDRESSING {
                spec_lsr_a(v)
            } else {
                spec_lsr_mem(v, operand_addr(v, op.mode))
            },
            op,
        ),
        Operation::ROL => spec_advance(
            if op.mode is NONE_ADDRESSING {
                spec_rol_a(v)
            } else {
                spec_rol_mem(v, operand_addr(v, op.mode))
            },
            op,
        ),
        Operation::ROR => spec_advance(
            if op.mode is NONE_ADDRESSING {
                spec_ror_a(v)
            } else {
                spec_ror_mem(v, operand_addr(v, op.mode))
            },
            op,
        ),

        Operation::INC => spec_advance(spec_inc_mem(v, operand_addr(v, op.mode)), op),
        Operation::DEC => spec_advance(spec_dec_mem(v, operand_addr(v, op.mode)), op),
        Operation::DEX => spec_advance(spec_set_x(v, wrap_sub8(v.x, 1)), op),
        Operation::DEY => spec_advance(spec_set_y(v, wrap_sub8(v.y, 1)), op),
        Operation::INX => spec_advance(spec_set_x(v, wrap_add8(v.x, 1)), op),
        Operation::INY => spec_advance(spec_set_y(v, wrap_add8(v.y, 1)), op),

        Operation::CMP => spec_advance(
            CpuView {
                status: spec_compare_status(
                    v.status,
                    read8(v.mem, operand_addr(v, op.mode)),
                    v.a,
                ),
                ..v
            },
            op,
        ),
        Operation::CPX => spec_advance(
            CpuView {
                status: spec_compare_status(
                    v.status,
                    read8(v.mem, operand_addr(v, op.mode)),
                    v.x,
                ),
                ..v
            },
            op,
        ),
        Operation::CPY => spec_advance(
            CpuView {
                status: spec_compare_status(
                    v.status,
                    read8(v.mem, operand_addr(v, op.mode)),
                    v.y,
                ),
                ..v
            },
            op,
        ),

        Operation::JMP => spec_jump(v, op.mode),
        Operation::JSR => spec_jsr(v),
        Operation::RTS => spec_rts(v),
        Operation::RTI => spec_rti(v),

        Operation::BCC | Operation::BCS | Operation::BEQ | Operation::BMI | Operation::BNE
        | Operation::BPL | Operation::BVC | Operation::BVS => spec_branch(
            v,
            branch_cond(v.status, op.operation),
        ),

        Operation::BIT => spec_advance(
            {
                let data = read8(v.mem, operand_addr(v, op.mode));
                let s_zero = flag_set_to(v.status, Flag::Zero, v.a & data == 0);
                let s_neg = flag_set_to(s_zero, Flag::Negative, data & 0x80 > 0);
                CpuView { status: flag_set_to(s_neg, Flag::Overflow, data & 0x40 > 0), ..v }
            },
            op,
        ),

        Operation::LDA => spec_advance(
            spec_set_a(v, read8(v.mem, operand_addr(v, op.mode))),
            op,
        ),
        Operation::LDX => spec_advance(
            spec_set_x(v, read8(v.mem, operand_addr(v, op.mode))),
            op,
        ),
        Operation::LDY => spec_advance(
            spec_set_y(v, read8(v.mem, operand_addr(v, op.mode))),
            op,
        ),

        Operation::STA => spec_advance(
            CpuView { mem: write8(v.mem, operand_addr(v, op.mode), v.a), ..v },
            op,
        ),
        Operation::STX => spec_advance(
            CpuView { mem: write8(v.mem, operand_addr(v, op.mode), v.x), ..v },
            op,
        ),
        Operation::STY => spec_advance(
            CpuView { mem: write8(v.mem, operand_addr(v, op.mode), v.y), ..v },
            op,
        ),

        Operation::CLC => spec_advance(
            CpuView { status: without_flag(v.status, Flag::Carry), ..v },
            op,
        ),
        Operation::CLD => spec_advance(
            CpuView { status: without_flag(v.status, Flag::DecimalMode), ..v },
            op,
        ),
        Operation::CLI => spec_advance(
            CpuView { status: without_flag(v.status, Flag::InterruptDisable), ..v },
            op,
        ),
        Operation::CLV => spec_advance(
            CpuView { status: without_flag(v.status, Flag::Overflow), ..v },
            op,
        ),
        Operation::SEC => spec_advance(
            CpuView { status: with_flag(v.status, Flag::Carry), ..v },
            op,
        ),
        Operation::SED => spec_advance(
            CpuView { status: with_flag(v.status, Flag::DecimalMode), ..v },
            op,
        ),
        Operation::SEI => spec_advance(
            CpuView { status: with_flag(v.status, Flag::InterruptDisable), ..v },
            op,
        ),

        Operation::TAX => spec_advance(spec_set_x(v, v.a), op),
        Operation::TAY => spec_advance(spec_set_y(v, v.a), op),
        Operation::TSX => spec_advance(spec_set_x(v, v.sp), op),
        Operation::TXA => spec_advance(spec_set_a(v, v.x), op),
        Operation::TXS => spec_advance(CpuView { sp: v.x, ..v }, op),
        Operation::TYA => spec_advance(spec_set_a(v, v.y), op),

        Operation::PHA => spec_advance(spec_push8(v, v.a), op),
        Operation::PHP => spec_advance(
            spec_push8(v, with_flag(with_flag(v.status, Flag::BreakCommand), Flag::BreakCommand2)),
            op,
        ),
        Operation::PLA => spec_advance(
            {
                let (v1, value) = spec_pull8(v);
                CpuView { a: value, ..v1 }
            },
            op,
        ),
        Operation::PLP => spec_advance(
            {
                let (v1, value) = spec_pull8(v);
                CpuView {
                    status: without_flag(
                        without_flag(value, Flag::BreakCommand),
                        Flag::BreakCommand2,
                    ),
                    ..v1
                }
            },
            op,
        ),
    }
}

/// How one engine step ended.
pub enum StepEvent {
    /// An instruction was decoded and executed; the run goes on.
    Ran,
    /// The fetched byte was the BRK opcode; the run terminates.
    Halted,
    /// The fetched byte is not in the instruction table.
    Illegal,
}

/// The outcome of one engine step: the state after it and how it ended.
#[verifier::ext_equal]
pub struct StepSpec {
    pub post: CpuView,
    pub event: StepEvent,
}

/// One step of the fetch/decode/execute loop: read the byte at the program
/// counter, advance the counter past it, and then halt (BRK), fail (an
/// unrecognized byte, leaving the state otherwise as it stands), or execute
/// the decoded instruction.
pub open spec fn spec_step(v: CpuView) -> StepSpec {
    let opcode = read8(v.mem, v.pc);
    let pc1 = wrap_add16(v.pc, 1);
    let fetched = CpuView { pc: pc1, pc_state: pc1, ..v };
    if opcode == 0 {
        StepSpec { post: fetched, event: StepEvent::Halted }
    } else {
        match spec_decode(opcode) {
            Some(op) => StepSpec { post: spec_exec_op(fetched, op), event: StepEvent::Ran },
            None => StepSpec { post: fetched, event: StepEvent::Illegal },
        }
    }
}

/// Iterate [`spec_step`] for at most `fuel` executed instructions.  The
/// result is the terminal step (a halt or an illegal opcode) if one is
/// reached within the fuel bound, and `None` otherwise.  A run that reaches a
/// terminal step yields the same terminal step for every sufficient fuel.
pub open spec fn spec_run(v: CpuView, fuel: nat) -> Option<StepSpec>
    decreases fuel,
{
    let s = spec_step(v);
    if s.event is Ran {
        if fuel == 0 {
            None
        } else {
            spec_run(s.post, (fuel - 1) as nat)
        }
    } else {
        Some(s)
    }
}

/// Unrolling rule for [`spec_run`]: one executed instruction consumes one
/// unit of fuel.
pub proof fn lemma_spec_run_unfold(v: CpuView, fuel: nat)
    requires
        spec_step(v).event is Ran,
    ensures
        spec_run(v, fuel + 1) == spec_run(spec_step(v).post, fuel),
{
}

/// The machine is deterministic: every fuel bound that reaches a terminal
/// step reaches the same one.
pub proof fn lemma_spec_run_deterministic(v: CpuView, n1: nat, n2: nat)
    requires
        spec_run(v, n1) is Some,
        spec_run(v, n2) is Some,
    ensures
        spec_run(v, n1) == spec_run(v, n2),
    decreases n1,
{
    if spec_step(v).event is Ran {
        lemma_spec_run_deterministic(spec_step(v).post, (n1 - 1) as nat, (n2 - 1) as nat);
    }
}

/// The power-on state: zeroed registers and memory, the status byte at its
/// hardware default, the stack pointer at 0xFD.
pub open spec fn spec_new() -> CpuView {
    CpuView {
        a: 0,
        x: 0,
        y: 0,
        status: crate::flags::reset_status(),
        pc: 0,
        pc_state: 0,
        sp: 0xFD,
        mem: Seq::new(0x10000, |i: int| 0u8),
    }
}

/// The state after a hardware reset: registers cleared, the status byte at
/// its hardware default, the stack pointer at 0xFD, and the program counter
/// loaded from the reset vector at 0xFFFC.
pub open spec fn spec_reset(v: CpuView) -> CpuView {
    CpuView {
        a: 0,
        x: 0,
        y: 0,
        status: crate::flags::reset_status(),
        pc: read16(v.mem, 0xFFFC),
        pc_state: read16(v.mem, 0xFFFC),
        sp: 0xFD,
        mem: v.mem,
    }
}

/// The address space after copying `program` in starting at `start` and
/// writing `start` into the reset vector at 0xFFFC.
pub open spec fn spec_load_at(v: CpuView, start: u16, program: Seq<u8>) -> CpuView {
    let copied = Seq::new(
        0x10000,
        |i: int|
            if start <= i < start + program.len() {
                program[i - start]
            } else {
                v.mem[i]
            },
    );
    CpuView { mem: write16(copied, 0xFFFC, start), ..v }
}

/// The address space after loading a program image into the ROM window at
/// 0x8000 and pointing the reset vector at it.
pub open spec fn spec_load(v: CpuView, program: Seq<u8>) -> CpuView {
    spec_load_at(v, 0x8000, program)
}

} // verus!
