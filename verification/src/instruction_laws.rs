//! What each instruction does, stated field by field in terms of the state
//! before the step, as an instruction reference would: registers, flags,
//! memory, stack pointer, program counter and cycles. Each law is proved of
//! `CpuState::stepped`, which `Cpu::step` is proved to follow.
use vstd::prelude::*;
use crate::state::{CpuState, is_readable, is_writable};

verus! {

/// `s` with the program counter moved on by `len` bytes and a step of `cost`
/// cycles counted; every register, flag and memory as in `s`.
pub open spec fn moved_on(s: CpuState, len: int, cost: u64) -> CpuState {
    CpuState {
        program_counter: (s.program_counter + len) as u16,
        current_step_cycles: cost,
        cycles: (s.cycles + cost) as u64,
        ..s
    }
}

/// The byte `i` places after the opcode.
pub open spec fn byte_after(s: CpuState, i: int) -> u8 {
    s.mem((s.program_counter + i) as u16)
}

/// The address in the two bytes after the opcode, low byte first.
pub open spec fn address_after(s: CpuState) -> u16 {
    (byte_after(s, 2) * 256 + byte_after(s, 1)) as u16
}

/// The RAM index of the stack slot `k` places above the stack pointer,
/// wrapping within page 1.
pub open spec fn stack_index(s: CpuState, k: int) -> int {
    0x100 + (s.stack_pointer + k) % 256
}

/// A relative branch (BPL 0x10, BMI 0x30, BVC 0x50, BVS 0x70, BCC 0x90, BCS 0xB0,
/// BNE 0xD0, BEQ 0xF0) is taken exactly when its flag has the value that the
/// mnemonic names (N clear, N set, V clear, V set, C clear, C set, Z clear,
/// Z set). Taken, it goes to the address after the instruction plus the signed
/// offset byte, modulo 0x10000, in 3 cycles, or 4 when that leaves the page of
/// the next instruction; not taken, it goes on to the next instruction in 2
/// cycles. Nothing else changes.
pub proof fn law_branches(s: CpuState)
    requires
        s.can_step(),
        s.opcode() == 0x10 || s.opcode() == 0x30 || s.opcode() == 0x50 || s.opcode() == 0x70
            || s.opcode() == 0x90 || s.opcode() == 0xB0 || s.opcode() == 0xD0 || s.opcode()
            == 0xF0,
    ensures
        ({
            let op = s.opcode();
            let taken = if op == 0x10 {
                !s.flag_negative
            } else if op == 0x30 {
                s.flag_negative
            } else if op == 0x50 {
                !s.flag_overflow
            } else if op == 0x70 {
                s.flag_overflow
            } else if op == 0x90 {
                !s.flag_carry
            } else if op == 0xB0 {
                s.flag_carry
            } else if op == 0xD0 {
                !s.flag_zero
            } else {
                s.flag_zero
            };
            let next = s.program_counter + 2;
            let b = byte_after(s, 1);
            let target = (next + (if b < 128 { b as int } else { b - 256 })) % 0x10000;
            let cost: u64 = if !taken {
                2
            } else if next / 256 != target / 256 {
                4
            } else {
                3
            };
            s.stepped() == (CpuState {
                program_counter: (if taken { target } else { next }) as u16,
                ..moved_on(s, 0, cost)
            })
        }),
{
    reveal(CpuState::stepped);
    reveal(CpuState::instruction_ok);
}

/// HLT sets the halted flag; NOP does nothing; CLC, SEC, CLI, SEI, CLV, CLD
/// and SED clear or set the one flag they name; TXS copies X into the stack
/// pointer and leaves the flags alone. Each is one byte long; HLT takes 1
/// cycle, the others 2.
pub proof fn law_one_byte_flag_instructions(s: CpuState)
    requires
        s.can_step(),
    ensures
        s.opcode() == 0x02 ==> s.stepped() == (CpuState { halted: true, ..moved_on(s, 1, 1) }),
        s.opcode() == 0xEA ==> s.stepped() == moved_on(s, 1, 2),
        s.opcode() == 0x18 ==> s.stepped() == (CpuState {
            flag_carry: false,
            ..moved_on(s, 1, 2)
        }),
        s.opcode() == 0x38 ==> s.stepped() == (CpuState { flag_carry: true, ..moved_on(s, 1, 2) }),
        s.opcode() == 0x58 ==> s.stepped() == (CpuState {
            flag_interrupt_disable: false,
            ..moved_on(s, 1, 2)
        }),
        s.opcode() == 0x78 ==> s.stepped() == (CpuState {
            flag_interrupt_disable: true,
            ..moved_on(s, 1, 2)
        }),
        s.opcode() == 0xB8 ==> s.stepped() == (CpuState {
            flag_overflow: false,
            ..moved_on(s, 1, 2)
        }),
        s.opcode() == 0xD8 ==> s.stepped() == (CpuState {
            flag_decimal: false,
            ..moved_on(s, 1, 2)
        }),
        s.opcode() == 0xF8 ==> s.stepped() == (CpuState {
            flag_decimal: true,
            ..moved_on(s, 1, 2)
        }),
        s.opcode() == 0x9A ==> s.stepped() == (CpuState {
            stack_pointer: s.x_reg,
            ..moved_on(s, 1, 2)
        }),
{
    reveal(CpuState::stepped);
    reveal(CpuState::instruction_ok);
}

/// TAX, TXA, TAY, TYA and TSX copy the register they name first into the one
/// they name second; INX and INY add one and DEX and DEY subtract one, modulo
/// 256. Each sets Z when the new value is 0 and N when its bit 7 is set, is
/// one byte long and takes 2 cycles; nothing else changes.
pub proof fn law_transfers_and_counters(s: CpuState)
    requires
        s.can_step(),
    ensures
        s.opcode() == 0xAA ==> s.stepped() == (CpuState {
            x_reg: s.a_reg,
            flag_zero: s.a_reg == 0,
            flag_negative: s.a_reg >= 128,
            ..moved_on(s, 1, 2)
        }),
        s.opcode() == 0x8A ==> s.stepped() == (CpuState {
            a_reg: s.x_reg,
            flag_zero: s.x_reg == 0,
            flag_negative: s.x_reg >= 128,
            ..moved_on(s, 1, 2)
        }),
        s.opcode() == 0xA8 ==> s.stepped() == (CpuState {
            y_reg: s.a_reg,
            flag_zero: s.a_reg == 0,
            flag_negative: s.a_reg >= 128,
            ..moved_on(s, 1, 2)
        }),
        s.opcode() == 0x98 ==> s.stepped() == (CpuState {
            a_reg: s.y_reg,
            flag_zero: s.y_reg == 0,
            flag_negative: s.y_reg >= 128,
            ..moved_on(s, 1, 2)
        }),
        s.opcode() == 0xBA ==> s.stepped() == (CpuState {
            x_reg: s.stack_pointer,
            flag_zero: s.stack_pointer == 0,
            flag_negative: s.stack_pointer >= 128,
            ..moved_on(s, 1, 2)
        }),
        s.opcode() == 0xE8 ==> s.stepped() == (CpuState {
            x_reg: ((s.x_reg + 1) % 256) as u8,
            flag_zero: s.x_reg == 255,
            flag_negative: (s.x_reg + 1) % 256 >= 128,
            ..moved_on(s, 1, 2)
        }),
        s.opcode() == 0xC8 ==> s.stepped() == (CpuState {
            y_reg: ((s.y_reg + 1) % 256) as u8,
            flag_zero: s.y_reg == 255,
            flag_negative: (s.y_reg + 1) % 256 >= 128,
            ..moved_on(s, 1, 2)
        }),
        s.opcode() == 0xCA ==> s.stepped() == (CpuState {
            x_reg: ((s.x_reg + 255) % 256) as u8,
            flag_zero: s.x_reg == 1,
            flag_negative: s.x_reg == 0 || s.x_reg > 128,
            ..moved_on(s, 1, 2)
        }),
        s.opcode() == 0x88 ==> s.stepped() == (CpuState {
            y_reg: ((s.y_reg + 255) % 256) as u8,
            flag_zero: s.y_reg == 1,
            flag_negative: s.y_reg == 0 || s.y_reg > 128,
            ..moved_on(s, 1, 2)
        }),
{
    reveal(CpuState::stepped);
    reveal(CpuState::instruction_ok);
}

/// INY undoes DEY and DEY undoes INY; INX and DEX undo each other likewise.
pub proof fn law_increment_undoes_decrement(s: CpuState, u: CpuState)
    requires
        s.can_step(),
        u.can_step(),
    ensures
        s.opcode() == 0x88 && u.opcode() == 0xC8 && u.y_reg == s.stepped().y_reg
            ==> u.stepped().y_reg == s.y_reg,
        s.opcode() == 0xC8 && u.opcode() == 0x88 && u.y_reg == s.stepped().y_reg
            ==> u.stepped().y_reg == s.y_reg,
        s.opcode() == 0xCA && u.opcode() == 0xE8 && u.x_reg == s.stepped().x_reg
            ==> u.stepped().x_reg == s.x_reg,
        s.opcode() == 0xE8 && u.opcode() == 0xCA && u.x_reg == s.stepped().x_reg
            ==> u.stepped().x_reg == s.x_reg,
{
    lemma_counter_registers(s);
    lemma_counter_registers(u);
}

proof fn lemma_counter_registers(s: CpuState)
    requires
        s.can_step(),
    ensures
        s.opcode() == 0xE8 ==> s.stepped().x_reg == (s.x_reg + 1) % 256,
        s.opcode() == 0xC8 ==> s.stepped().y_reg == (s.y_reg + 1) % 256,
        s.opcode() == 0xCA ==> s.stepped().x_reg == (s.x_reg + 255) % 256,
        s.opcode() == 0x88 ==> s.stepped().y_reg == (s.y_reg + 255) % 256,
{
    reveal(CpuState::stepped);
    reveal(CpuState::instruction_ok);
}

/// On the accumulator, ASL doubles A modulo 256 and moves its bit 7 into the
/// carry; LSR halves A and moves its bit 0 into the carry; ROL doubles A, adds
/// the old carry and moves bit 7 into the carry; ROR halves A, adds 128 when
/// the carry was set and moves bit 0 into the carry. Each sets Z when the new
/// A is 0 and N when its bit 7 is set, is one byte long and takes 2 cycles.
pub proof fn law_accumulator_shifts(s: CpuState)
    requires
        s.can_step(),
    ensures
        ({
            let a = s.a_reg;
            let c: int = if s.flag_carry { 1 } else { 0 };
            &&& s.opcode() == 0x0A ==> s.stepped() == (CpuState {
                a_reg: ((a * 2) % 256) as u8,
                flag_carry: a >= 128,
                flag_zero: (a * 2) % 256 == 0,
                flag_negative: (a * 2) % 256 >= 128,
                ..moved_on(s, 1, 2)
            })
            &&& s.opcode() == 0x4A ==> s.stepped() == (CpuState {
                a_reg: a / 2,
                flag_carry: a % 2 == 1,
                flag_zero: a / 2 == 0,
                flag_negative: false,
                ..moved_on(s, 1, 2)
            })
            &&& s.opcode() == 0x2A ==> s.stepped() == (CpuState {
                a_reg: ((a * 2) % 256 + c) as u8,
                flag_carry: a >= 128,
                flag_zero: (a * 2) % 256 + c == 0,
                flag_negative: (a * 2) % 256 + c >= 128,
                ..moved_on(s, 1, 2)
            })
            &&& s.opcode() == 0x6A ==> s.stepped() == (CpuState {
                a_reg: (a / 2 + 128 * c) as u8,
                flag_carry: a % 2 == 1,
                flag_zero: a / 2 + 128 * c == 0,
                flag_negative: s.flag_carry,
                ..moved_on(s, 1, 2)
            })
        }),
{
    reveal(CpuState::stepped);
    reveal(CpuState::instruction_ok);
}

/// On memory, ASL, ROL, LSR and ROR change the byte at their address as they
/// change A in `law_accumulator_shifts`: the address is the zero page byte
/// after the opcode (ROL 0x26, LSR 0x46, ROR 0x66: two bytes, 5 cycles) or the
/// absolute address after it (ASL 0x0E, ROL 0x2E, LSR 0x4E, ROR 0x6E: three
/// bytes, 6 cycles). The new byte goes to the RAM cell of the address, the
/// carry takes the bit shifted out, Z and N describe the new byte, and the
/// address bus holds the address; A and everything else stay.
pub proof fn law_memory_shifts(s: CpuState)
    requires
        s.can_step(),
    ensures
        ({
            let c: int = if s.flag_carry { 1 } else { 0 };
            let zp = byte_after(s, 1) as u16;
            let abs = address_after(s);
            let mz = s.mem(zp);
            let ma = s.mem(abs);
            &&& s.opcode() == 0x0E ==> s.stepped() == (CpuState {
                ram: s.ram.update((abs % 0x800) as int, ((ma * 2) % 256) as u8),
                address_bus: abs,
                flag_carry: ma >= 128,
                flag_zero: (ma * 2) % 256 == 0,
                flag_negative: (ma * 2) % 256 >= 128,
                ..moved_on(s, 3, 6)
            })
            &&& s.opcode() == 0x26 ==> s.stepped() == (CpuState {
                ram: s.ram.update((zp % 0x800) as int, ((mz * 2) % 256 + c) as u8),
                address_bus: zp,
                flag_carry: mz >= 128,
                flag_zero: (mz * 2) % 256 + c == 0,
                flag_negative: (mz * 2) % 256 + c >= 128,
                ..moved_on(s, 2, 5)
            })
            &&& s.opcode() == 0x2E ==> s.stepped() == (CpuState {
                ram: s.ram.update((abs % 0x800) as int, ((ma * 2) % 256 + c) as u8),
                address_bus: abs,
                flag_carry: ma >= 128,
                flag_zero: (ma * 2) % 256 + c == 0,
                flag_negative: (ma * 2) % 256 + c >= 128,
                ..moved_on(s, 3, 6)
            })
            &&& s.opcode() == 0x46 ==> s.stepped() == (CpuState {
                ram: s.ram.update((zp % 0x800) as int, mz / 2),
                address_bus: zp,
                flag_carry: mz % 2 == 1,
                flag_zero: mz / 2 == 0,
                flag_negative: false,
                ..moved_on(s, 2, 5)
            })
            &&& s.opcode() == 0x4E ==> s.stepped() == (CpuState {
                ram: s.ram.update((abs % 0x800) as int, ma / 2),
                address_bus: abs,
                flag_carry: ma % 2 == 1,
                flag_zero: ma / 2 == 0,
                flag_negative: false,
                ..moved_on(s, 3, 6)
            })
            &&& s.opcode() == 0x66 ==> s.stepped() == (CpuState {
                ram: s.ram.update((zp % 0x800) as int, (mz / 2 + 128 * c) as u8),
                address_bus: zp,
                flag_carry: mz % 2 == 1,
                flag_zero: mz / 2 + 128 * c == 0,
                flag_negative: s.flag_carry,
                ..moved_on(s, 2, 5)
            })
            &&& s.opcode() == 0x6E ==> s.stepped() == (CpuState {
                ram: s.ram.update((abs % 0x800) as int, (ma / 2 + 128 * c) as u8),
                address_bus: abs,
                flag_carry: ma % 2 == 1,
                flag_zero: ma / 2 + 128 * c == 0,
                flag_negative: s.flag_carry,
                ..moved_on(s, 3, 6)
            })
        }),
{
    reveal(CpuState::stepped);
    reveal(CpuState::instruction_ok);
}

/// LDA, LDX and LDY immediate load the byte after the opcode into the register
/// they name (two bytes, 2 cycles); LDA zero page (two bytes, 3 cycles) and
/// LDA absolute (three bytes, 4 cycles) load the byte that a read of their
/// address gives, and put the address on the address bus. Each sets Z when the
/// loaded byte is 0 and N when its bit 7 is set; nothing else changes.
pub proof fn law_loads(s: CpuState)
    requires
        s.can_step(),
    ensures
        ({
            let imm = byte_after(s, 1);
            let zp = byte_after(s, 1) as u16;
            let abs = address_after(s);
            &&& s.opcode() == 0xA9 ==> s.stepped() == (CpuState {
                a_reg: imm,
                flag_zero: imm == 0,
                flag_negative: imm >= 128,
                ..moved_on(s, 2, 2)
            })
            &&& s.opcode() == 0xA2 ==> s.stepped() == (CpuState {
                x_reg: imm,
                flag_zero: imm == 0,
                flag_negative: imm >= 128,
                ..moved_on(s, 2, 2)
            })
            &&& s.opcode() == 0xA0 ==> s.stepped() == (CpuState {
                y_reg: imm,
                flag_zero: imm == 0,
                flag_negative: imm >= 128,
                ..moved_on(s, 2, 2)
            })
            &&& s.opcode() == 0xA5 ==> s.stepped() == (CpuState {
                a_reg: s.mem(zp),
                address_bus: zp,
                flag_zero: s.mem(zp) == 0,
                flag_negative: s.mem(zp) >= 128,
                ..moved_on(s, 2, 3)
            })
            &&& s.opcode() == 0xAD ==> s.stepped() == (CpuState {
                a_reg: s.mem(abs),
                address_bus: abs,
                flag_zero: s.mem(abs) == 0,
                flag_negative: s.mem(abs) >= 128,
                ..moved_on(s, 3, 4)
            })
        }),
{
    reveal(CpuState::stepped);
    reveal(CpuState::instruction_ok);
}

/// STA, STX and STY write the register they name (A, X, Y) to the RAM cell of
/// their address: the zero page byte after the opcode (0x85, 0x86, 0x84: two
/// bytes, 3 cycles) or the absolute address after it (0x8D, 0x8E, 0x8C: three
/// bytes, 4 cycles), and put the address on the address bus. Registers and
/// flags stay. JMP absolute (0x4C) goes to the absolute address after the
/// opcode, puts it on the address bus and takes 3 cycles.
pub proof fn law_stores_and_jump(s: CpuState)
    requires
        s.can_step(),
    ensures
        ({
            let zp = byte_after(s, 1) as u16;
            let abs = address_after(s);
            let zi = (zp % 0x800) as int;
            let ai = (abs % 0x800) as int;
            &&& s.opcode() == 0x85 ==> s.stepped() == (CpuState {
                ram: s.ram.update(zi, s.a_reg),
                address_bus: zp,
                ..moved_on(s, 2, 3)
            })
            &&& s.opcode() == 0x86 ==> s.stepped() == (CpuState {
                ram: s.ram.update(zi, s.x_reg),
                address_bus: zp,
                ..moved_on(s, 2, 3)
            })
            &&& s.opcode() == 0x84 ==> s.stepped() == (CpuState {
                ram: s.ram.update(zi, s.y_reg),
                address_bus: zp,
                ..moved_on(s, 2, 3)
            })
            &&& s.opcode() == 0x8D ==> s.stepped() == (CpuState {
                ram: s.ram.update(ai, s.a_reg),
                address_bus: abs,
                ..moved_on(s, 3, 4)
            })
            &&& s.opcode() == 0x8E ==> s.stepped() == (CpuState {
                ram: s.ram.update(ai, s.x_reg),
                address_bus: abs,
                ..moved_on(s, 3, 4)
            })
            &&& s.opcode() == 0x8C ==> s.stepped() == (CpuState {
                ram: s.ram.update(ai, s.y_reg),
                address_bus: abs,
                ..moved_on(s, 3, 4)
            })
            &&& s.opcode() == 0x4C ==> s.stepped() == (CpuState {
                program_counter: abs,
                address_bus: abs,
                ..moved_on(s, 3, 3)
            })
        }),
{
    reveal(CpuState::stepped);
    reveal(CpuState::instruction_ok);
}

/// PHA writes A, and PHP the status byte (carry, zero, interrupt disable and
/// decimal in bits 0 to 3, bit 4 and bit 5 set, overflow in bit 6, negative in
/// bit 7), to the stack slot at 0x100 plus the stack pointer and move the
/// stack pointer down by one, modulo 256 (one byte, 3 cycles). PLA and PLP
/// move the stack pointer up by one, modulo 256, and read the slot it then
/// designates: PLA into A, setting Z and N from it; PLP into the six flags,
/// each from its bit (one byte, 4 cycles). Nothing else changes.
pub proof fn law_push_and_pull(s: CpuState)
    requires
        s.can_step(),
        s.wf(),
    ensures
        ({
            let sp_down = ((s.stack_pointer + 255) % 256) as u8;
            let sp_up = ((s.stack_pointer + 1) % 256) as u8;
            let top = s.ram[stack_index(s, 1)];
            let status = (if s.flag_carry { 1int } else { 0 }) + (if s.flag_zero {
                2int
            } else {
                0
            }) + (if s.flag_interrupt_disable { 4int } else { 0 }) + (if s.flag_decimal {
                8int
            } else {
                0
            }) + 0x10 + 0x20 + (if s.flag_overflow { 0x40int } else { 0 }) + (if s.flag_negative {
                0x80int
            } else {
                0
            });
            &&& s.opcode() == 0x48 ==> s.stepped() == (CpuState {
                ram: s.ram.update(stack_index(s, 0), s.a_reg),
                stack_pointer: sp_down,
                ..moved_on(s, 1, 3)
            })
            &&& s.opcode() == 0x08 ==> s.stepped() == (CpuState {
                ram: s.ram.update(stack_index(s, 0), status as u8),
                stack_pointer: sp_down,
                ..moved_on(s, 1, 3)
            })
            &&& s.opcode() == 0x68 ==> s.stepped() == (CpuState {
                a_reg: top,
                stack_pointer: sp_up,
                flag_zero: top == 0,
                flag_negative: top >= 128,
                ..moved_on(s, 1, 4)
            })
            &&& s.opcode() == 0x28 ==> s.stepped() == (CpuState {
                stack_pointer: sp_up,
                flag_carry: top & 0x01 != 0,
                flag_zero: top & 0x02 != 0,
                flag_interrupt_disable: top & 0x04 != 0,
                flag_decimal: top & 0x08 != 0,
                flag_overflow: top & 0x40 != 0,
                flag_negative: top & 0x80 != 0,
                ..moved_on(s, 1, 4)
            })
        }),
{
    reveal(CpuState::stepped);
    reveal(CpuState::instruction_ok);
}

/// JSR pushes the address of its own last byte, high byte first, moving the
/// stack pointer down by two modulo 256, and goes to the absolute address
/// after the opcode, in 6 cycles; nothing else changes.
pub proof fn law_jsr(s: CpuState)
    requires
        s.can_step(),
        s.wf(),
        s.opcode() == 0x20,
    ensures
        ({
            let ret = s.program_counter + 2;
            s.stepped() == (CpuState {
                program_counter: address_after(s),
                ram: s.ram.update(stack_index(s, 0), (ret / 256) as u8).update(
                    stack_index(s, 255),
                    (ret % 256) as u8,
                ),
                stack_pointer: ((s.stack_pointer + 254) % 256) as u8,
                ..moved_on(s, 0, 6)
            })
        }),
{
    assert(s.fetchable(2)) by {
        reveal(CpuState::instruction_ok);
    };
    let ret = (s.program_counter + 2) as u16;
    let n2 = s.advanced(2);
    let t = n2.pushed((ret / 256) as u8).pushed((ret % 256) as u8);
    assert(s.stepped() == (CpuState { program_counter: s.absolute_addr(), ..t }.finished(6))) by {
        reveal(CpuState::stepped);
    };
    assert(t.ram =~= s.ram.update(stack_index(s, 0), (ret / 256) as u8).update(
        stack_index(s, 255),
        (ret % 256) as u8,
    ));
}

/// RTS pulls an address, low byte first, moving the stack pointer up by two
/// modulo 256, and goes to the byte after that address, in 6 cycles; nothing
/// else changes.
pub proof fn law_rts(s: CpuState)
    requires
        s.can_step(),
        s.wf(),
        s.opcode() == 0x60,
    ensures
        s.stepped() == (CpuState {
            program_counter: (s.ram[stack_index(s, 2)] * 256 + s.ram[stack_index(s, 1)]
                + 1) as u16,
            stack_pointer: ((s.stack_pointer + 2) % 256) as u8,
            ..moved_on(s, 0, 6)
        }),
{
    let n1 = s.advanced(1);
    assert(s.stepped() == (CpuState {
        program_counter: n1.return_addr() as u16,
        ..n1.pulled().pulled()
    }.finished(6))) by {
        reveal(CpuState::stepped);
    };
}

/// A PLP that runs with the stack that a PHP left behind brings back every
/// flag as it was before the PHP, the overflow flag among them, and the stack
/// pointer too.
pub proof fn law_plp_restores_php(s: CpuState, u: CpuState)
    requires
        s.can_step(),
        s.wf(),
        s.opcode() == 0x08,
        u.can_step(),
        u.wf(),
        u.opcode() == 0x28,
        u.stack_pointer == s.stepped().stack_pointer,
        u.ram == s.stepped().ram,
    ensures
        u.stepped().flag_carry == s.flag_carry,
        u.stepped().flag_zero == s.flag_zero,
        u.stepped().flag_interrupt_disable == s.flag_interrupt_disable,
        u.stepped().flag_decimal == s.flag_decimal,
        u.stepped().flag_overflow == s.flag_overflow,
        u.stepped().flag_negative == s.flag_negative,
        u.stepped().stack_pointer == s.stack_pointer,
{
    law_push_and_pull(s);
    law_push_and_pull(u);
    crate::laws::law_status_round_trip(s, true);
    assert(u.ram[stack_index(u, 1)] == s.status_byte(true));
}

/// The `n` bytes of an instruction from the program counter on can be
/// fetched: each is readable and the program counter does not pass 0xFFFF.
pub open spec fn bytes_served(s: CpuState, n: int) -> bool {
    &&& s.program_counter + n <= 0xFFFF
    &&& forall|i: int| 0 <= i < n ==> is_readable(#[trigger] ((s.program_counter + i) as u16))
}

/// When a step runs to its end, by the instruction under the program counter:
/// the one-byte instructions when their byte can be fetched; those with a
/// zero page address, an immediate byte or a branch offset when both their
/// bytes can; JMP when its three bytes can; JSR when its two bytes can be
/// fetched and its third read; LDA absolute when also its address is readable;
/// the stores and shifts to an absolute address when also that address is RAM
/// (below 0x2000); RTS when the address it returns to is at most 0xFFFF. In
/// each case the cycle counter must not pass `u64::MAX`. No other opcode runs.
pub proof fn law_when_a_step_runs(s: CpuState)
    requires
        is_readable(s.program_counter),
        s.wf(),
    ensures
        ({
            let op = s.opcode();
            let room = s.cycles + s.stepped().current_step_cycles <= u64::MAX;
            let abs = address_after(s);
            let lo = s.ram[stack_index(s, 1)];
            let hi = s.ram[stack_index(s, 2)];
            &&& (op == 0x02 || op == 0x08 || op == 0x0A || op == 0x18 || op == 0x28 || op == 0x2A
                || op == 0x38 || op == 0x48 || op == 0x4A || op == 0x58 || op == 0x68 || op
                == 0x6A || op == 0x78 || op == 0x88 || op == 0x8A || op == 0x98 || op == 0x9A
                || op == 0xA8 || op == 0xAA || op == 0xB8 || op == 0xBA || op == 0xC8 || op
                == 0xCA || op == 0xD8 || op == 0xE8 || op == 0xEA || op == 0xF8) ==> (
            s.can_step() <==> bytes_served(s, 1) && room)
            &&& (op == 0x10 || op == 0x30 || op == 0x50 || op == 0x70 || op == 0x90 || op == 0xB0
                || op == 0xD0 || op == 0xF0 || op == 0x26 || op == 0x46 || op == 0x66 || op
                == 0x84 || op == 0x85 || op == 0x86 || op == 0xA0 || op == 0xA2 || op == 0xA5
                || op == 0xA9) ==> (s.can_step() <==> bytes_served(s, 2) && room)
            &&& op == 0x4C ==> (s.can_step() <==> bytes_served(s, 3) && room)
            &&& op == 0x20 ==> (s.can_step() <==> bytes_served(s, 2) && is_readable(
                (s.program_counter + 2) as u16,
            ) && room)
            &&& op == 0xAD ==> (s.can_step() <==> bytes_served(s, 3) && is_readable(abs) && room)
            &&& (op == 0x0E || op == 0x2E || op == 0x4E || op == 0x6E || op == 0x8C || op == 0x8D
                || op == 0x8E) ==> (s.can_step() <==> bytes_served(s, 3) && abs < 0x2000 && room)
            &&& op == 0x60 ==> (s.can_step() <==> bytes_served(s, 1) && hi * 256 + lo + 1
                <= 0xFFFF && room)
            &&& !(op == 0x02 || op == 0x08 || op == 0x0A || op == 0x0E || op == 0x10 || op == 0x18
                || op == 0x20 || op == 0x26 || op == 0x28 || op == 0x2A || op == 0x2E || op
                == 0x30 || op == 0x38 || op == 0x46 || op == 0x48 || op == 0x4A || op == 0x4C
                || op == 0x4E || op == 0x50 || op == 0x58 || op == 0x60 || op == 0x66 || op
                == 0x68 || op == 0x6A || op == 0x6E || op == 0x70 || op == 0x78 || op == 0x84
                || op == 0x85 || op == 0x86 || op == 0x88 || op == 0x8A || op == 0x8C || op
                == 0x8D || op == 0x8E || op == 0x90 || op == 0x98 || op == 0x9A || op == 0xA0
                || op == 0xA2 || op == 0xA5 || op == 0xA8 || op == 0xA9 || op == 0xAA || op
                == 0xAD || op == 0xB0 || op == 0xB8 || op == 0xBA || op == 0xC8 || op == 0xCA
                || op == 0xD0 || op == 0xD8 || op == 0xE8 || op == 0xEA || op == 0xF0 || op
                == 0xF8) ==> !s.can_step()
        }),
{
    reveal(CpuState::instruction_ok);
    assert(is_readable((s.program_counter + 0) as u16));
    assert(bytes_served(s, 2) <==> s.fetchable(2)) by {
        if s.fetchable(2) {
            assert forall|i: int| 0 <= i < 2 implies is_readable(
                #[trigger] ((s.program_counter + i) as u16),
            ) by {
                if i == 1 {
                }
            }
        }
        if bytes_served(s, 2) {
            assert(is_readable(((s.program_counter + 1) as u16)));
        }
    };
    assert(bytes_served(s, 3) <==> s.fetchable(3)) by {
        if s.fetchable(3) {
            assert forall|i: int| 0 <= i < 3 implies is_readable(
                #[trigger] ((s.program_counter + i) as u16),
            ) by {
                if i == 1 {
                }
            }
        }
        if bytes_served(s, 3) {
            assert(is_readable(((s.program_counter + 1) as u16)));
            assert(is_readable(((s.program_counter + 2) as u16)));
        }
    };
}

/// Resetting from a ROM file sets the cycle counter to 7, clears every RAM
/// cell, loads the header from the file's first 0x10 bytes and the program
/// ROM from the 0x8000 bytes after them, takes the program counter from ROM
/// file bytes 0x800C (low) and 0x800D (high), sets the stack pointer to 0xFD
/// and the interrupt disable flag, and leaves A, X, Y, the other flags, the
/// address bus, the halted flag and the step's cycle count alone.
pub proof fn law_reset_loads_file(s: CpuState, file: Seq<u8>)
    requires
        file.len() >= 0x8010,
    ensures
        ({
            let t = s.reset_from(file);
            &&& t.cycles == 7
            &&& t.ram.len() == 0x800
            &&& forall|i: int| 0 <= i < 0x800 ==> #[trigger] t.ram[i] == 0
            &&& t.header.len() == 0x10
            &&& forall|i: int| 0 <= i < 0x10 ==> #[trigger] t.header[i] == file[i]
            &&& t.rom.len() == 0x8000
            &&& forall|i: int| 0 <= i < 0x8000 ==> #[trigger] t.rom[i] == file[i + 0x10]
            &&& t.program_counter == file[0x800D] * 256 + file[0x800C]
            &&& t.stack_pointer == 0xFD
            &&& t.flag_interrupt_disable
            &&& t.a_reg == s.a_reg && t.x_reg == s.x_reg && t.y_reg == s.y_reg
            &&& t.flag_carry == s.flag_carry && t.flag_zero == s.flag_zero
            &&& t.flag_decimal == s.flag_decimal && t.flag_overflow == s.flag_overflow
            &&& t.flag_negative == s.flag_negative
            &&& t.address_bus == s.address_bus && t.halted == s.halted
            &&& t.current_step_cycles == s.current_step_cycles
        }),
{
}

/// After a reset from a ROM file, the memory map serves reads and writes below
/// 0x2000, where every byte reads 0; serves nothing from 0x2000 to 0x7FFF; and
/// serves reads, not writes, from 0x8000 on, where address `a` reads ROM file
/// byte `a - 0x8000 + 0x10`.
pub proof fn law_memory_map_after_reset(s: CpuState, file: Seq<u8>, a: u16)
    requires
        file.len() >= 0x8010,
    ensures
        ({
            let t = s.reset_from(file);
            &&& a < 0x2000 ==> is_readable(a) && is_writable(a) && t.mem(a) == 0
            &&& 0x2000 <= a < 0x8000 ==> !is_readable(a) && !is_writable(a)
            &&& a >= 0x8000 ==> is_readable(a) && !is_writable(a) && t.mem(a) == file[a
                - 0x8000 + 0x10]
        }),
{
}

} // verus!
