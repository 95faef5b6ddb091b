//! The mathematical model of the processor: its registers, flags and memory as
//! plain values, and the meaning of every operation the processor carries out.
use vstd::prelude::*;

verus! {

/// Bytes of internal RAM; the first 0x2000 addresses mirror them.
pub const RAM_SIZE: usize = 0x800;

/// Bytes of program ROM, mapped at 0x8000..=0xFFFF.
pub const ROM_SIZE: usize = 0x8000;

/// Bytes of the cartridge header in front of the program ROM in a ROM file.
pub const HEADER_SIZE: usize = 0x10;

/// Smallest length of a ROM file: the header followed by the whole program ROM.
pub const ROM_FILE_MIN_LEN: usize = 0x8010;

/// What a `Cpu` holds, with its memories as sequences.
#[verifier::ext_equal]
pub struct CpuState {
    pub halted: bool,
    pub current_step_cycles: u64,
    pub cycles: u64,
    pub program_counter: u16,
    pub stack_pointer: u8,
    pub a_reg: u8,
    pub x_reg: u8,
    pub y_reg: u8,
    pub address_bus: u16,
    pub flag_carry: bool,
    pub flag_zero: bool,
    pub flag_interrupt_disable: bool,
    pub flag_decimal: bool,
    pub flag_overflow: bool,
    pub flag_negative: bool,
    pub header: Seq<u8>,
    pub ram: Seq<u8>,
    pub rom: Seq<u8>,
}

/// An address that a read can be served from: mirrored RAM or ROM.
pub open spec fn is_readable(addr: u16) -> bool {
    addr < 0x2000 || addr >= 0x8000
}

/// An address that a write can go to: mirrored RAM.
pub open spec fn is_writable(addr: u16) -> bool {
    addr < 0x2000
}

/// The address of the stack slot that the stack pointer `sp` designates.
pub open spec fn stack_addr(sp: u8) -> u16 {
    (0x100 + sp) as u16
}

/// `v` shifted left by one bit; bit 7 falls off.
pub open spec fn shifted_left(v: u8) -> u8 {
    ((v * 2) % 256) as u8
}

/// `v` shifted right by one bit; bit 0 falls off.
pub open spec fn shifted_right(v: u8) -> u8 {
    v / 2
}

/// `v` rotated left through the carry: the old carry enters bit 0.
pub open spec fn rotated_left(v: u8, carry_in: bool) -> u8 {
    ((v * 2) % 256 + if carry_in { 1int } else { 0int }) as u8
}

/// `v` rotated right through the carry: the old carry enters bit 7.
pub open spec fn rotated_right(v: u8, carry_in: bool) -> u8 {
    (v / 2 + if carry_in { 0x80int } else { 0int }) as u8
}

/// The value of a branch offset byte read as a two's complement number.
pub open spec fn signed_offset(b: u8) -> int {
    if b < 0x80 { b as int } else { b - 0x100 }
}

/// Where a relative branch from `pc` by the offset byte `off` lands, modulo 0x10000.
pub open spec fn relative_target(pc: u16, off: u8) -> u16 {
    ((pc + signed_offset(off)) % 0x10000) as u16
}

/// The bit that a flag contributes to the status byte.
pub open spec fn flag_bit(flag: bool, bit: int) -> int {
    if flag { bit } else { 0 }
}

impl CpuState {
    /// The memories have the sizes that a `Cpu` gives them.
    pub open spec fn wf(self) -> bool {
        &&& self.header.len() == 0x10
        &&& self.ram.len() == 0x800
        &&& self.rom.len() == 0x8000
    }

    /// The byte that a read of `addr` gives back.
    pub open spec fn mem(self, addr: u16) -> u8 {
        if addr < 0x2000 {
            self.ram[(addr % 0x800) as int]
        } else {
            self.rom[addr - 0x8000]
        }
    }

    /// The state after `v` is written to the RAM cell that `addr` mirrors.
    pub open spec fn store(self, addr: u16, v: u8) -> CpuState {
        CpuState { ram: self.ram.update((addr % 0x800) as int, v), ..self }
    }

    /// The zero and negative flags set from `v`.
    pub open spec fn with_nz(self, v: u8) -> CpuState {
        CpuState { flag_zero: v == 0, flag_negative: v >= 0x80, ..self }
    }

    /// The carry set to `carry_out`, then zero and negative from `result`.
    pub open spec fn after_shift(self, result: u8, carry_out: bool) -> CpuState {
        CpuState { flag_carry: carry_out, ..self }.with_nz(result)
    }

    /// The flags packed into a byte, bit 0 to bit 7: carry, zero, interrupt
    /// disable, decimal, break (`brk`), always 1, overflow, negative.
    pub open spec fn status_byte(self, brk: bool) -> u8 {
        (flag_bit(self.flag_carry, 0x01) + flag_bit(self.flag_zero, 0x02) + flag_bit(
            self.flag_interrupt_disable,
            0x04,
        ) + flag_bit(self.flag_decimal, 0x08) + flag_bit(brk, 0x10) + 0x20 + flag_bit(
            self.flag_overflow,
            0x40,
        ) + flag_bit(self.flag_negative, 0x80)) as u8
    }

    /// The six flags loaded from bits 0, 1, 2, 3, 6 and 7 of `s`.
    pub open spec fn with_status(self, s: u8) -> CpuState {
        CpuState {
            flag_carry: s & 0x01 != 0,
            flag_zero: s & 0x02 != 0,
            flag_interrupt_disable: s & 0x04 != 0,
            flag_decimal: s & 0x08 != 0,
            flag_overflow: s & 0x40 != 0,
            flag_negative: s & 0x80 != 0,
            ..self
        }
    }

    /// The state after `v` is pushed onto the stack.
    pub open spec fn pushed(self, v: u8) -> CpuState {
        let s = self.store(stack_addr(self.stack_pointer), v);
        CpuState { stack_pointer: (if self.stack_pointer == 0 { 0xFFint } else { self.stack_pointer - 1 }) as u8, ..s }
    }

    /// The stack pointer after a pull.
    pub open spec fn pulled_sp(self) -> u8 {
        ((self.stack_pointer + 1) % 0x100) as u8
    }

    /// The byte that a pull gives back.
    pub open spec fn pulled_value(self) -> u8 {
        self.mem(stack_addr(self.pulled_sp()))
    }

    /// The state after a pull.
    pub open spec fn pulled(self) -> CpuState {
        CpuState { stack_pointer: self.pulled_sp(), ..self }
    }

    /// The program counter moved forward by `n`.
    pub open spec fn advanced(self, n: int) -> CpuState {
        CpuState { program_counter: (self.program_counter + n) as u16, ..self }
    }

    /// The address bus set to `addr`.
    pub open spec fn with_bus(self, addr: u16) -> CpuState {
        CpuState { address_bus: addr, ..self }
    }

    /// The cycle counters at the end of a step that took `cost` cycles.
    pub open spec fn finished(self, cost: u64) -> CpuState {
        CpuState { current_step_cycles: cost, cycles: (self.cycles + cost) as u64, ..self }
    }

    /// The byte `i` places after the program counter.
    pub open spec fn operand(self, i: int) -> u8 {
        self.mem((self.program_counter + i) as u16)
    }

    /// The opcode under the program counter.
    pub open spec fn opcode(self) -> u8 {
        self.operand(0)
    }

    /// The zero page address that the byte after the opcode names.
    pub open spec fn zero_page_addr(self) -> u16 {
        self.operand(1) as u16
    }

    /// The absolute address that the two bytes after the opcode name, low byte first.
    pub open spec fn absolute_addr(self) -> u16 {
        (self.operand(2) * 0x100 + self.operand(1)) as u16
    }

    /// Where a taken branch goes: the relative offset after the opcode, added
    /// to the address of the next instruction, modulo 0x10000.
    pub open spec fn branch_target(self) -> u16 {
        relative_target((self.program_counter + 2) as u16, self.operand(1))
    }

    /// `n` bytes can be fetched from the program counter on: each is readable
    /// and the program counter does not pass 0xFFFF.
    pub open spec fn fetchable(self, n: int) -> bool {
        &&& self.program_counter + n <= 0xFFFF
        &&& is_readable(self.program_counter)
        &&& n >= 2 ==> is_readable((self.program_counter + 1) as u16)
        &&& n >= 3 ==> is_readable((self.program_counter + 2) as u16)
    }

    /// The address that an RTS returns to: the pulled address plus one.
    pub open spec fn return_addr(self) -> int {
        self.pulled().pulled_value() * 0x100 + self.pulled_value() + 1
    }

    /// The accesses that the instruction `op` makes all stay within what the
    /// memory map serves.
    #[verifier::opaque]
    pub open spec fn instruction_ok(self, op: u8) -> bool {
        match op {
            0x02 | 0x08 | 0x0A | 0x18 | 0x28 | 0x2A | 0x38 | 0x48 | 0x4A | 0x58 | 0x68 | 0x6A
            | 0x78 | 0x88 | 0x8A | 0x98 | 0x9A | 0xA8 | 0xAA | 0xB8 | 0xBA | 0xC8 | 0xCA | 0xD8
            | 0xE8 | 0xEA | 0xF8 => self.fetchable(1),
            0x10 | 0x30 | 0x50 | 0x70 | 0x90 | 0xB0 | 0xD0 | 0xF0 | 0x26 | 0x46 | 0x66 | 0x84
            | 0x85 | 0x86 | 0xA0 | 0xA2 | 0xA5 | 0xA9 => self.fetchable(2),
            0x20 => self.fetchable(2) && is_readable((self.program_counter + 2) as u16),
            0x4C => self.fetchable(3),
            0xAD => self.fetchable(3) && is_readable(self.absolute_addr()),
            0x0E | 0x2E | 0x4E | 0x6E | 0x8C | 0x8D | 0x8E => self.fetchable(3) && is_writable(
                self.absolute_addr(),
            ),
            0x60 => self.fetchable(1) && self.return_addr() <= 0xFFFF,
            _ => false,
        }
    }

    /// A step from this state runs to its end: the opcode is fetched and
    /// implemented, every access it makes is served, and the cycle counter
    /// does not pass `u64::MAX`.
    pub open spec fn can_step(self) -> bool {
        &&& self.fetchable(1)
        &&& self.instruction_ok(self.opcode())
        &&& self.cycles + self.stepped().current_step_cycles <= u64::MAX
    }

    /// The state after a taken or untaken relative branch.
    pub open spec fn branched(self, cond: bool) -> CpuState {
        let target = self.branch_target();
        let next = self.advanced(2);
        if cond {
            let cost: u64 = if next.program_counter / 0x100 != target / 0x100 { 4 } else { 3 };
            CpuState { program_counter: target, ..next }.finished(cost)
        } else {
            next.finished(2)
        }
    }

    /// The state after one instruction, the one under the program counter.
    #[verifier::opaque]
    pub open spec fn stepped(self) -> CpuState {
        let op = self.opcode();
        let imm = self.operand(1);
        let zp = self.zero_page_addr();
        let abs = self.absolute_addr();
        let n1 = self.advanced(1);
        let n2 = self.advanced(2);
        let n3 = self.advanced(3);
        let c = self.flag_carry;
        match op {
            // HLT
            0x02 => CpuState { halted: true, ..n1 }.finished(1),
            // PHP
            0x08 => n1.pushed(self.status_byte(true)).finished(3),
            // ASL A
            0x0A => CpuState { a_reg: shifted_left(self.a_reg), ..n1 }.after_shift(
                shifted_left(self.a_reg),
                self.a_reg >= 0x80,
            ).finished(2),
            // ASL absolute
            0x0E => n3.with_bus(abs).store(abs, shifted_left(self.mem(abs))).after_shift(
                shifted_left(self.mem(abs)),
                self.mem(abs) >= 0x80,
            ).finished(6),
            // BPL
            0x10 => self.branched(!self.flag_negative),
            // CLC
            0x18 => CpuState { flag_carry: false, ..n1 }.finished(2),
            // JSR: pushes the address of its own last byte, high byte first
            0x20 => CpuState {
                program_counter: abs,
                ..n2.pushed((n2.program_counter / 0x100) as u8).pushed(
                    (n2.program_counter % 0x100) as u8,
                )
            }.finished(6),
            // ROL zero page
            0x26 => n2.with_bus(zp).store(zp, rotated_left(self.mem(zp), c)).after_shift(
                rotated_left(self.mem(zp), c),
                self.mem(zp) >= 0x80,
            ).finished(5),
            // PLP
            0x28 => n1.pulled().with_status(n1.pulled_value()).finished(4),
            // ROL A
            0x2A => CpuState { a_reg: rotated_left(self.a_reg, c), ..n1 }.after_shift(
                rotated_left(self.a_reg, c),
                self.a_reg >= 0x80,
            ).finished(2),
            // ROL absolute
            0x2E => n3.with_bus(abs).store(abs, rotated_left(self.mem(abs), c)).after_shift(
                rotated_left(self.mem(abs), c),
                self.mem(abs) >= 0x80,
            ).finished(6),
            // BMI
            0x30 => self.branched(self.flag_negative),
            // SEC
            0x38 => CpuState { flag_carry: true, ..n1 }.finished(2),
            // LSR zero page
            0x46 => n2.with_bus(zp).store(zp, shifted_right(self.mem(zp))).after_shift(
                shifted_right(self.mem(zp)),
                self.mem(zp) % 2 == 1,
            ).finished(5),
            // PHA
            0x48 => n1.pushed(self.a_reg).finished(3),
            // LSR A
            0x4A => CpuState { a_reg: shifted_right(self.a_reg), ..n1 }.after_shift(
                shifted_right(self.a_reg),
                self.a_reg % 2 == 1,
            ).finished(2),
            // JMP absolute
            0x4C => CpuState { program_counter: abs, ..n3.with_bus(abs) }.finished(3),
            // LSR absolute
            0x4E => n3.with_bus(abs).store(abs, shifted_right(self.mem(abs))).after_shift(
                shifted_right(self.mem(abs)),
                self.mem(abs) % 2 == 1,
            ).finished(6),
            // BVC
            0x50 => self.branched(!self.flag_overflow),
            // CLI
            0x58 => CpuState { flag_interrupt_disable: false, ..n1 }.finished(2),
            // RTS
            0x60 => CpuState {
                program_counter: n1.return_addr() as u16,
                ..n1.pulled().pulled()
            }.finished(6),
            // ROR zero page
            0x66 => n2.with_bus(zp).store(zp, rotated_right(self.mem(zp), c)).after_shift(
                rotated_right(self.mem(zp), c),
                self.mem(zp) % 2 == 1,
            ).finished(5),
            // PLA
            0x68 => CpuState { a_reg: n1.pulled_value(), ..n1.pulled() }.with_nz(
                n1.pulled_value(),
            ).finished(4),
            // ROR A
            0x6A => CpuState { a_reg: rotated_right(self.a_reg, c), ..n1 }.after_shift(
                rotated_right(self.a_reg, c),
                self.a_reg % 2 == 1,
            ).finished(2),
            // ROR absolute
            0x6E => n3.with_bus(abs).store(abs, rotated_right(self.mem(abs), c)).after_shift(
                rotated_right(self.mem(abs), c),
                self.mem(abs) % 2 == 1,
            ).finished(6),
            // BVS
            0x70 => self.branched(self.flag_overflow),
            // SEI
            0x78 => CpuState { flag_interrupt_disable: true, ..n1 }.finished(2),
            // STY, STA, STX zero page
            0x84 => n2.with_bus(zp).store(zp, self.y_reg).finished(3),
            0x85 => n2.with_bus(zp).store(zp, self.a_reg).finished(3),
            0x86 => n2.with_bus(zp).store(zp, self.x_reg).finished(3),
            // DEY
            0x88 => {
                let v = ((self.y_reg + 0xFF) % 0x100) as u8;
                CpuState { y_reg: v, ..n1 }.with_nz(v).finished(2)
            },
            // TXA
            0x8A => CpuState { a_reg: self.x_reg, ..n1 }.with_nz(self.x_reg).finished(2),
            // STY, STA, STX absolute
            0x8C => n3.with_bus(abs).store(abs, self.y_reg).finished(4),
            0x8D => n3.with_bus(abs).store(abs, self.a_reg).finished(4),
            0x8E => n3.with_bus(abs).store(abs, self.x_reg).finished(4),
            // BCC
            0x90 => self.branched(!self.flag_carry),
            // TYA
            0x98 => CpuState { a_reg: self.y_reg, ..n1 }.with_nz(self.y_reg).finished(2),
            // TXS
            0x9A => CpuState { stack_pointer: self.x_reg, ..n1 }.finished(2),
            // LDY, LDX immediate
            0xA0 => CpuState { y_reg: imm, ..n2 }.with_nz(imm).finished(2),
            0xA2 => CpuState { x_reg: imm, ..n2 }.with_nz(imm).finished(2),
            // LDA zero page
            0xA5 => CpuState { a_reg: self.mem(zp), ..n2.with_bus(zp) }.with_nz(
                self.mem(zp),
            ).finished(3),
            // TAY
            0xA8 => CpuState { y_reg: self.a_reg, ..n1 }.with_nz(self.a_reg).finished(2),
            // LDA immediate
            0xA9 => CpuState { a_reg: imm, ..n2 }.with_nz(imm).finished(2),
            // TAX
            0xAA => CpuState { x_reg: self.a_reg, ..n1 }.with_nz(self.a_reg).finished(2),
            // LDA absolute
            0xAD => CpuState { a_reg: self.mem(abs), ..n3.with_bus(abs) }.with_nz(
                self.mem(abs),
            ).finished(4),
            // BCS
            0xB0 => self.branched(self.flag_carry),
            // CLV
            0xB8 => CpuState { flag_overflow: false, ..n1 }.finished(2),
            // TSX
            0xBA => CpuState { x_reg: self.stack_pointer, ..n1 }.with_nz(
                self.stack_pointer,
            ).finished(2),
            // INY
            0xC8 => {
                let v = ((self.y_reg + 1) % 0x100) as u8;
                CpuState { y_reg: v, ..n1 }.with_nz(v).finished(2)
            },
            // DEX
            0xCA => {
                let v = ((self.x_reg + 0xFF) % 0x100) as u8;
                CpuState { x_reg: v, ..n1 }.with_nz(v).finished(2)
            },
            // BNE
            0xD0 => self.branched(!self.flag_zero),
            // CLD
            0xD8 => CpuState { flag_decimal: false, ..n1 }.finished(2),
            // INX
            0xE8 => {
                let v = ((self.x_reg + 1) % 0x100) as u8;
                CpuState { x_reg: v, ..n1 }.with_nz(v).finished(2)
            },
            // NOP
            0xEA => n1.finished(2),
            // BEQ
            0xF0 => self.branched(self.flag_zero),
            // SED
            0xF8 => CpuState { flag_decimal: true, ..n1 }.finished(2),
            _ => self,
        }
    }

    /// A step that can run adds the cycles it took to the cycle counter, and
    /// takes between 1 and 7 cycles.
    pub proof fn lemma_stepped_cycles(self)
        requires
            self.can_step(),
        ensures
            self.stepped().cycles == self.cycles + self.stepped().current_step_cycles,
            1 <= self.stepped().current_step_cycles <= 7,
    {
        reveal(CpuState::stepped);
        reveal(CpuState::instruction_ok);
    }

    /// A step that can run starts at an opcode that the processor carries out.
    pub proof fn lemma_can_step_opcode(self)
        requires
            self.can_step(),
        ensures
            ({
                let op = self.opcode();
                ||| op == 0x02 || op == 0x08 || op == 0x0A || op == 0x0E || op == 0x10
                ||| op == 0x18 || op == 0x20 || op == 0x26 || op == 0x28 || op == 0x2A
                ||| op == 0x2E || op == 0x30 || op == 0x38 || op == 0x46 || op == 0x48
                ||| op == 0x4A || op == 0x4C || op == 0x4E || op == 0x50 || op == 0x58
                ||| op == 0x60 || op == 0x66 || op == 0x68 || op == 0x6A || op == 0x6E
                ||| op == 0x70 || op == 0x78 || op == 0x84 || op == 0x85 || op == 0x86
                ||| op == 0x88 || op == 0x8A || op == 0x8C || op == 0x8D || op == 0x8E
                ||| op == 0x90 || op == 0x98 || op == 0x9A || op == 0xA0 || op == 0xA2
                ||| op == 0xA5 || op == 0xA8 || op == 0xA9 || op == 0xAA || op == 0xAD
                ||| op == 0xB0 || op == 0xB8 || op == 0xBA || op == 0xC8 || op == 0xCA
                ||| op == 0xD0 || op == 0xD8 || op == 0xE8 || op == 0xEA || op == 0xF0
                ||| op == 0xF8
            }),
    {
        reveal(CpuState::instruction_ok);
    }

    /// The state after a reset from the ROM file `file`: cycles at 7, RAM
    /// cleared, header and program ROM loaded, the program counter taken from
    /// the reset vector at 0xFFFC (low byte) and 0xFFFD, the stack pointer at
    /// 0xFD and interrupts disabled; everything else as it was.
    pub open spec fn reset_from(self, file: Seq<u8>) -> CpuState {
        let rom = file.subrange(0x10, 0x8010);
        CpuState {
            cycles: 7,
            ram: Seq::new(0x800, |i: int| 0u8),
            rom: rom,
            header: file.subrange(0, 0x10),
            program_counter: (rom[0x7FFD] * 0x100 + rom[0x7FFC]) as u16,
            stack_pointer: 0xFD,
            flag_interrupt_disable: true,
            ..self
        }
    }

    /// The state of a processor that was just created.
    pub open spec fn power_on() -> CpuState {
        CpuState {
            halted: false,
            current_step_cycles: 0,
            cycles: 4,
            program_counter: 0,
            stack_pointer: 0xFD,
            a_reg: 0,
            x_reg: 0,
            y_reg: 0,
            address_bus: 0,
            flag_carry: false,
            flag_zero: false,
            flag_interrupt_disable: true,
            flag_decimal: false,
            flag_overflow: false,
            flag_negative: false,
            header: Seq::new(0x10, |i: int| 0u8),
            ram: Seq::new(0x800, |i: int| 0u8),
            rom: Seq::new(0x8000, |i: int| 0u8),
        }
    }
}

} // verus!
