//! Laws of the processor that span several operations, proved over the model
//! in `state`, which the functions of `cpu` are proved to follow.
use vstd::prelude::*;
use crate::state::{
    CpuState, is_readable, is_writable, stack_addr, rotated_left, rotated_right,
};

verus! {

proof fn lemma_status_bits(b: u8, c: u8, z: u8, i: u8, d: u8, k: u8, v: u8, n: u8)
    requires
        c == 0 || c == 1,
        z == 0 || z == 2,
        i == 0 || i == 4,
        d == 0 || d == 8,
        k == 0 || k == 0x10,
        v == 0 || v == 0x40,
        n == 0 || n == 0x80,
        b == c + z + i + d + k + 0x20 + v + n,
    ensures
        (b & 0x01 != 0) == (c == 1),
        (b & 0x02 != 0) == (z == 2),
        (b & 0x04 != 0) == (i == 4),
        (b & 0x08 != 0) == (d == 8),
        (b & 0x40 != 0) == (v == 0x40),
        (b & 0x80 != 0) == (n == 0x80),
{
    assert((b & 0x01 != 0) == (c == 1) && (b & 0x02 != 0) == (z == 2) && (b & 0x04 != 0) == (i
        == 4) && (b & 0x08 != 0) == (d == 8) && (b & 0x40 != 0) == (v == 0x40) && (b & 0x80 != 0)
        == (n == 0x80)) by (bit_vector)
        requires
            c == 0 || c == 1,
            z == 0 || z == 2,
            i == 0 || i == 4,
            d == 0 || d == 8,
            k == 0 || k == 0x10,
            v == 0 || v == 0x40,
            n == 0 || n == 0x80,
            b == c + z + i + d + k + 0x20 + v + n,
    ;
}

/// Pushing the status byte and pulling it back into the flags (PHP, then
/// PLP) leaves every flag as it was, whatever the break bit.
pub proof fn law_status_round_trip(s: CpuState, brk: bool)
    ensures
        s.with_status(s.status_byte(brk)) == s,
{
    let c: u8 = if s.flag_carry { 1 } else { 0 };
    let z: u8 = if s.flag_zero { 2 } else { 0 };
    let i: u8 = if s.flag_interrupt_disable { 4 } else { 0 };
    let d: u8 = if s.flag_decimal { 8 } else { 0 };
    let k: u8 = if brk { 0x10 } else { 0 };
    let v: u8 = if s.flag_overflow { 0x40 } else { 0 };
    let n: u8 = if s.flag_negative { 0x80 } else { 0 };
    lemma_status_bits(s.status_byte(brk), c, z, i, d, k, v, n);
}

/// The status byte after the flags were loaded from `byte` is `byte` with
/// bit 5 set and bit 4 taken from the break bit.
pub proof fn law_status_of_loaded_byte(s: CpuState, byte: u8, brk: bool)
    ensures
        s.with_status(byte).status_byte(brk) == (byte & 0xCF) | 0x20 | (if brk {
            0x10u8
        } else {
            0u8
        }),
{
    let t = s.with_status(byte);
    let c: u8 = if t.flag_carry { 1 } else { 0 };
    let z: u8 = if t.flag_zero { 2 } else { 0 };
    let i: u8 = if t.flag_interrupt_disable { 4 } else { 0 };
    let d: u8 = if t.flag_decimal { 8 } else { 0 };
    let k: u8 = if brk { 0x10 } else { 0 };
    let v: u8 = if t.flag_overflow { 0x40 } else { 0 };
    let n: u8 = if t.flag_negative { 0x80 } else { 0 };
    assert(t.status_byte(brk) == c + z + i + d + k + 0x20 + v + n);
    assert(c + z + i + d + k + 0x20 + v + n == (byte & 0xCF) | 0x20 | k) by (bit_vector)
        requires
            (c == 1) == (byte & 0x01 != 0),
            c == 0 || c == 1,
            (z == 2) == (byte & 0x02 != 0),
            z == 0 || z == 2,
            (i == 4) == (byte & 0x04 != 0),
            i == 0 || i == 4,
            (d == 8) == (byte & 0x08 != 0),
            d == 0 || d == 8,
            k == 0 || k == 0x10,
            (v == 0x40) == (byte & 0x40 != 0),
            v == 0 || v == 0x40,
            (n == 0x80) == (byte & 0x80 != 0),
            n == 0 || n == 0x80,
    ;
}

/// A pull gives back the byte that the last push wrote and brings the stack
/// pointer back to where it was; the pushed byte stays in its stack slot.
pub proof fn law_pull_after_push(s: CpuState, v: u8)
    requires
        s.wf(),
    ensures
        s.pushed(v).pulled_value() == v,
        s.pushed(v).pulled() == s.store(stack_addr(s.stack_pointer), v),
{
}

/// Rotating left and then right through the carry (ROL, then ROR) gives back
/// the byte and the carry; so does rotating right and then left.
pub proof fn law_rotations_undo_each_other(v: u8, carry: bool)
    ensures
        rotated_right(rotated_left(v, carry), v >= 0x80) == v,
        (rotated_left(v, carry) % 2 == 1) == carry,
        rotated_left(rotated_right(v, carry), v % 2 == 1) == v,
        (rotated_right(v, carry) >= 0x80) == carry,
{
}

/// A read gives back what the last write to the same RAM cell wrote, under
/// any of the addresses that mirror the cell; a write leaves every other
/// readable address as it was.
pub proof fn law_read_after_write(s: CpuState, written: u16, v: u8, read: u16)
    requires
        s.wf(),
        is_writable(written),
        is_readable(read),
    ensures
        s.store(written, v).mem(read) == if read < 0x2000 && written % 0x800 == read % 0x800 {
            v
        } else {
            s.mem(read)
        },
{
}

/// A step never changes the program ROM or the header, nor the size of RAM.
pub proof fn law_step_keeps_rom(s: CpuState)
    requires
        s.wf(),
        s.can_step(),
    ensures
        s.stepped().wf(),
        s.stepped().rom == s.rom,
        s.stepped().header == s.header,
{
    reveal(CpuState::stepped);
    reveal(CpuState::instruction_ok);
}

/// A step sets the halted flag exactly when it carries out HLT (0x02), so a
/// run that stops at the halted flag stops at the first HLT.
pub proof fn law_only_hlt_halts(s: CpuState)
    requires
        s.can_step(),
        !s.halted,
    ensures
        s.stepped().halted <==> s.opcode() == 0x02,
{
    reveal(CpuState::stepped);
    reveal(CpuState::instruction_ok);
}

/// An RTS that runs with the stack that a JSR left behind returns to the
/// instruction after that JSR, with the stack pointer back where it was
/// before the JSR.
pub proof fn law_rts_returns_after_jsr(s: CpuState, u: CpuState)
    requires
        s.can_step(),
        s.opcode() == 0x20,
        s.wf(),
        u.can_step(),
        u.opcode() == 0x60,
        u.stack_pointer == s.stepped().stack_pointer,
        u.ram == s.stepped().ram,
    ensures
        u.stepped().program_counter == s.program_counter + 3,
        u.stepped().stack_pointer == s.stack_pointer,
{
    assert(s.fetchable(2)) by {
        reveal(CpuState::instruction_ok);
    };
    let ret = (s.program_counter + 2) as u16;
    let t = s.advanced(2).pushed((ret / 0x100) as u8).pushed((ret % 0x100) as u8);
    assert(s.stepped().stack_pointer == t.stack_pointer && s.stepped().ram == t.ram) by {
        reveal(CpuState::stepped);
    };
    assert(u.stepped().program_counter == u.advanced(1).return_addr()
        && u.stepped().stack_pointer == u.advanced(1).pulled().pulled().stack_pointer) by {
        reveal(CpuState::stepped);
        reveal(CpuState::instruction_ok);
        assert(u.instruction_ok(0x60));
    };
    let w = u.advanced(1);
    assert(w.pulled_value() == ret % 0x100);
    assert(w.pulled().pulled_value() == ret / 0x100);
}

/// Resetting twice from the same ROM file is the same as resetting once.
pub proof fn law_reset_idempotent(s: CpuState, file: Seq<u8>)
    requires
        file.len() >= 0x8010,
    ensures
        s.reset_from(file).reset_from(file) == s.reset_from(file),
{
    assert(s.reset_from(file).reset_from(file) =~= s.reset_from(file));
}

} // verus!
