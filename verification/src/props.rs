//! Laws of the abstract machine.
//!
//! These proof functions state, once and for all inputs, behaviours that the
//! instruction semantics promise: they are the machine-checked counterparts
//! of the interpreter's documented guarantees.  Each is stated over
//! [`CpuView`] and the spec functions that the executable methods' contracts
//! use, so they carry over to every run of the executable engine.

use vstd::prelude::*;

use crate::flags::{flag_set, Flag};
use crate::machine::{
    read8, read16, spec_jump, spec_load, spec_pull16, spec_push16, spec_reset, spec_run,
    spec_step, wrap_add16, wrap_sub8, CpuView,
};
use crate::opcodes::AddressingMode;

verus! {

/// Law: pushing a 16-bit value on the stack and pulling a 16-bit value back
/// returns exactly the pushed value and restores the stack pointer, for
/// every machine state and every value.
pub proof fn lemma_stack_round_trip(v: CpuView, value: u16)
    requires
        v.wf(),
    ensures
        spec_pull16(spec_push16(v, value)).1 == value,
        spec_pull16(spec_push16(v, value)).0.sp == v.sp,
{
}

/// Law: a JMP Indirect through a pointer whose address ends in 0xFF takes
/// the high byte of its target from the start of the pointer's own page —
/// not from the next page, as a straight 16-bit read would.
pub proof fn lemma_jmp_indirect_page_boundary(v: CpuView)
    requires
        v.wf(),
        read16(v.mem, v.pc) & 0x00FF == 0x00FF,
    ensures
        spec_jump(v, AddressingMode::NONE_ADDRESSING).pc == read8(v.mem, read16(v.mem, v.pc))
            + 256 * read8(v.mem, read16(v.mem, v.pc) & 0xFF00),
{
}

/// The hypotheses of the JSR/RTS round trip: a JSR instruction stands at the
/// program counter, the first byte of the subroutine it targets is RTS, and
/// the two stack slots the call writes collide neither with the JSR operand
/// bytes nor with that first byte.  (When they collide — say a stack pointer
/// of 1 with the JSR at 0x0100 — the pushes rewrite the very code being run
/// and no round trip can be promised.)
pub open spec fn jsr_rts_separated(v: CpuView) -> bool {
    let operand_lo = wrap_add16(v.pc, 1);
    let operand_hi = wrap_add16(v.pc, 2);
    let target = read16(v.mem, operand_lo);
    let slot0 = (0x100 + v.sp) as u16;
    let slot1 = (0x100 + wrap_sub8(v.sp, 1)) as u16;
    &&& read8(v.mem, v.pc) == 0x20
    &&& read8(v.mem, target) == 0x60
    &&& slot0 != operand_lo && slot0 != operand_hi && slot0 != target
    &&& slot1 != operand_lo && slot1 != operand_hi && slot1 != target
}

/// Law: executing JSR to address A from address B, then RTS at A, moves
/// control to A in between and leaves the program counter at B + 3 — the
/// instruction after the JSR — with the stack pointer restored.
pub proof fn lemma_jsr_rts_round_trip(v: CpuView)
    requires
        v.wf(),
        jsr_rts_separated(v),
    ensures
        spec_step(v).event is Ran,
        spec_step(v).post.pc == read16(v.mem, wrap_add16(v.pc, 1)),
        spec_step(spec_step(v).post).event is Ran,
        spec_step(spec_step(v).post).post.pc == wrap_add16(v.pc, 3),
        spec_step(spec_step(v).post).post.sp == v.sp,
{
}

/// Law: for every byte `value`, running the program `LDA #value; BRK` from a
/// fresh load leaves the accumulator holding `value`, with the Zero flag set
/// iff `value` is 0 and the Negative flag set iff bit 7 of `value` is 1.
/// One executed instruction reaches the halt, and every sufficient fuel
/// reaches the same one.
pub proof fn lemma_lda_immediate(c: CpuView, value: u8, n: nat)
    ensures
        ({
            let start = spec_reset(spec_load(c, seq![0xA9u8, value, 0x00u8]));
            &&& n >= 1 ==> (spec_run(start, n) matches Some(t) && t.event is Halted
                && t.post.a == value && (flag_set(t.post.status, Flag::Zero) <==> value == 0) && (
            flag_set(t.post.status, Flag::Negative) <==> value >> 7 == 1))
            &&& n == 0 ==> spec_run(start, n) is None
        }),
{
    let program = seq![0xA9u8, value, 0x00u8];
    let start = spec_reset(spec_load(c, program));
    assert(read8(start.mem, 0xFFFC) == 0x00 && read8(start.mem, 0xFFFD) == 0x80);
    assert(start.pc == 0x8000);
    assert(read8(start.mem, 0x8000) == 0xA9);
    assert(read8(start.mem, 0x8001) == value);
    assert(read8(start.mem, 0x8002) == 0x00);
    assert(0x24u8 | 0x02 == 0x26 && 0x24u8 & !0x02 == 0x24 && 0x26u8 | 0x80 == 0xA6 && 0x26u8
        & !0x80 == 0x26 && 0x24u8 | 0x80 == 0xA4 && 0x24u8 & !0x80 == 0x24 && 0x26u8 & 0x02 != 0
        && 0xA6u8 & 0x02 != 0 && 0x24u8 & 0x02 == 0 && 0xA4u8 & 0x02 == 0 && 0xA6u8 & 0x80 != 0
        && 0xA4u8 & 0x80 != 0 && 0x26u8 & 0x80 == 0 && 0x24u8 & 0x80 == 0) by (bit_vector);
    let first = spec_step(start);
    assert(first.event is Ran);
    assert(first.post.pc == 0x8002 && first.post.a == value);
    let second = spec_step(first.post);
    assert(second.event is Halted);
    if n >= 1 {
        assert(spec_run(start, n) == spec_run(first.post, (n - 1) as nat));
        assert(spec_run(first.post, (n - 1) as nat) == Some(second));
    }
}

} // verus!
