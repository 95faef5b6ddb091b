//! The processor: registers, flags, RAM, program ROM, and the instructions it
//! carries out, each proved to do what `CpuState` says of it.
use vstd::prelude::*;
use crate::state::{
    CpuState, is_readable, is_writable, shifted_left, shifted_right, rotated_left,
    rotated_right, signed_offset, relative_target,
};

verus! {

pub struct Cpu {
    pub halted: bool,
    pub current_step_cycles: u64,
    pub cycles: u64,
    pub program_counter: u16,
    pub stack_pointer: u8,
    pub a_reg: u8,
    pub x_reg: u8,
    pub y_reg: u8,
    pub address_bus: u16,
    pub flag_carry: bool,
    pub flag_zero: bool,
    pub flag_interrupt_disable: bool,
    pub flag_decimal: bool,
    pub flag_overflow: bool,
    pub flag_negative: bool,
    pub header: [u8; 0x10],
    pub ram: [u8; 0x800],
    pub rom: [u8; 0x8000],
}

impl View for Cpu {
    type V = CpuState;

    open spec fn view(&self) -> CpuState {
        CpuState {
            halted: self.halted,
            current_step_cycles: self.current_step_cycles,
            cycles: self.cycles,
            program_counter: self.program_counter,
            stack_pointer: self.stack_pointer,
            a_reg: self.a_reg,
            x_reg: self.x_reg,
            y_reg: self.y_reg,
            address_bus: self.address_bus,
            flag_carry: self.flag_carry,
            flag_zero: self.flag_zero,
            flag_interrupt_disable: self.flag_interrupt_disable,
            flag_decimal: self.flag_decimal,
            flag_overflow: self.flag_overflow,
            flag_negative: self.flag_negative,
            header: self.header@,
            ram: self.ram@,
            rom: self.rom@,
        }
    }
}

proof fn lemma_mirror_index(address: u16)
    ensures
        address & 0x07FF == address % 0x800,
        address & 0x07FF < 0x800,
{
    assert(address & 0x07FF == address % 0x800) by (bit_vector);
    assert(address & 0x07FF < 0x800) by (bit_vector);
}

proof fn lemma_join_bytes(high: u8, low: u8)
    ensures
        ((high as u16) << 8u16) | (low as u16) == high * 0x100 + low,
        ((high as u16) << 8u16) + (low as u16) == high * 0x100 + low,
{
    assert(((high as u16) << 8u16) | (low as u16) == high * 0x100 + low) by (bit_vector);
    assert(((high as u16) << 8u16) + (low as u16) == high * 0x100 + low) by (bit_vector);
}

proof fn lemma_split_word(w: u16)
    ensures
        (w >> 8u16) as u8 == w / 0x100,
        (w & 0xFF) as u8 == w % 0x100,
        (w & 0xFF00) == (w / 0x100) * 0x100,
{
    assert((w >> 8u16) as u8 == w / 0x100) by (bit_vector);
    assert((w & 0xFF) as u8 == w % 0x100) by (bit_vector);
    assert((w & 0xFF00) == (w / 0x100) * 0x100) by (bit_vector);
}

proof fn lemma_shift_bits(v: u8)
    ensures
        v << 1u8 == shifted_left(v),
        (v << 1u8) | 1 == rotated_left(v, true),
        v >> 1u8 == shifted_right(v),
        (v >> 1u8) | 0x80 == rotated_right(v, true),
        (v & 1 != 0) == (v % 2 == 1),
        (v & 0x80 != 0) == (v >= 0x80),
{
    assert(v << 1u8 == ((v * 2) % 256) as u8) by (bit_vector);
    assert((v << 1u8) | 1 == ((v * 2) % 256 + 1) as u8) by (bit_vector);
    assert(v >> 1u8 == v / 2) by (bit_vector);
    assert((v >> 1u8) | 0x80 == (v / 2 + 0x80) as u8) by (bit_vector);
    assert((v & 1 != 0) == (v % 2 == 1)) by (bit_vector);
    assert((v & 0x80 != 0) == (v >= 0x80)) by (bit_vector);
}

proof fn lemma_single_bits()
    ensures
        1u8 << 0u8 == 1u8,
        1u8 << 1u8 == 2u8,
        1u8 << 2u8 == 4u8,
        1u8 << 3u8 == 8u8,
        1u8 << 4u8 == 0x10u8,
        1u8 << 5u8 == 0x20u8,
        1u8 << 6u8 == 0x40u8,
        1u8 << 7u8 == 0x80u8,
{
    assert(1u8 << 0u8 == 1u8) by (bit_vector);
    assert(1u8 << 1u8 == 2u8) by (bit_vector);
    assert(1u8 << 2u8 == 4u8) by (bit_vector);
    assert(1u8 << 3u8 == 8u8) by (bit_vector);
    assert(1u8 << 4u8 == 0x10u8) by (bit_vector);
    assert(1u8 << 5u8 == 0x20u8) by (bit_vector);
    assert(1u8 << 6u8 == 0x40u8) by (bit_vector);
    assert(1u8 << 7u8 == 0x80u8) by (bit_vector);
}

proof fn lemma_or_below(s: u8, k: u8)
    requires
        k == 1 || k == 2 || k == 4 || k == 8 || k == 0x10 || k == 0x20 || k == 0x40 || k == 0x80,
        s < k,
    ensures
        s | k == s + k,
{
    assert(s | k == s + k) by (bit_vector)
        requires
            k == 1 || k == 2 || k == 4 || k == 8 || k == 0x10 || k == 0x20 || k == 0x40 || k
                == 0x80,
            s < k,
    ;
}

/// The memories of every processor have the sizes that `CpuState::wf` asks for.
pub proof fn lemma_view_wf(cpu: &Cpu)
    ensures
        cpu@.wf(),
{
}

impl Cpu {
    /// A processor in its power-on state: all memories zero, the stack
    /// pointer at 0xFD, interrupts disabled and the cycle counter at 4.
    pub fn new() -> (cpu: Self)
        ensures
            cpu@ == CpuState::power_on(),
    {
        let cpu = Self {
            halted: false,
            current_step_cycles: 0,
            cycles: 4,
            program_counter: 0,
            stack_pointer: 0xFD,
            a_reg: 0,
            x_reg: 0,
            y_reg: 0,
            address_bus: 0,
            flag_carry: false,
            flag_zero: false,
            flag_interrupt_disable: true,
            flag_decimal: false,
            flag_overflow: false,
            flag_negative: false,
            header: [0;0x10],
            ram: [0;0x800],
            rom: [0;0x8000],
        };
        assert(cpu.header@ =~= Seq::new(0x10, |i: int| 0u8));
        assert(cpu.ram@ =~= Seq::new(0x800, |i: int| 0u8));
        assert(cpu.rom@ =~= Seq::new(0x8000, |i: int| 0u8));
        cpu
    }

    /// Loads a ROM file and resets the processor: cycles at 7, RAM cleared,
    /// the header from the first 0x10 bytes of the file, the program ROM from
    /// the 0x8000 bytes after it, the program counter from the reset vector
    /// at 0xFFFC, the stack pointer at 0xFD and interrupts disabled.
    pub fn reset(&mut self, rom_file: &[u8])
        requires
            rom_file@.len() >= 0x8010,
        ensures
            final(self)@ == old(self)@.reset_from(rom_file@),
    {
        self.cycles = 7;

        // Clear ram
        self.ram = [0;0x800];

        assert(self.ram@ =~= Seq::new(0x800, |i: int| 0u8));
        let ghost cleared = self@;

        // Setup ROM from file
        let mut i: usize = 0;
        while i < 0x8000
            invariant
                rom_file@.len() >= 0x8010,
                i <= 0x8000,
                self@ == (CpuState { rom: self.rom@, ..cleared }),
                forall|j: int| 0 <= j < i ==> self.rom@[j] == rom_file@[j + 0x10],
            decreases 0x8000 - i,
        {
            self.rom[i] = rom_file[i + 0x10];
            i += 1;
        }
        let mut i: usize = 0;
        while i < 0x10
            invariant
                rom_file@.len() >= 0x8010,
                i <= 0x10,
                self@ == (CpuState { rom: self.rom@, header: self.header@, ..cleared }),
                forall|j: int| 0 <= j < 0x8000 ==> self.rom@[j] == rom_file@[j + 0x10],
                forall|j: int| 0 <= j < i ==> self.header@[j] == rom_file@[j],
            decreases 0x10 - i,
        {
            self.header[i] = rom_file[i];
            i += 1;
        }
        assert(self.rom@ =~= rom_file@.subrange(0x10, 0x8010));
        assert(self.header@ =~= rom_file@.subrange(0, 0x10));

        // Read PC
        let pc_lower = self.read(0xFFFC);
        let pc_upper = self.read(0xFFFD);
        proof {
            lemma_join_bytes(pc_upper, pc_lower);
        }
        self.program_counter = ((pc_upper as u16) << 8) + pc_lower as u16;

        // Setup Stack Stack pointer
        self.stack_pointer = 0xFD;

        // Reset flags
        self.flag_interrupt_disable = true;
    }

    /// Whether the `n` bytes from the program counter on can be fetched.
    fn fetchable(&self, n: u16) -> (ok: bool)
        requires
            1 <= n <= 3,
        ensures
            ok == self@.fetchable(n as int),
    {
        let pc = self.program_counter;
        if pc as u32 + n as u32 > 0xFFFF {
            return false;
        }
        Self::serves_read(pc) && (n < 2 || Self::serves_read(pc + 1)) && (n < 3
            || Self::serves_read(pc + 2))
    }

    /// The absolute address in the two bytes after the opcode, low byte first.
    fn absolute_operand(&self) -> (addr: u16)
        requires
            self@.fetchable(3),
        ensures
            addr == self@.absolute_addr(),
    {
        let low = self.read(self.program_counter + 1);
        let high = self.read(self.program_counter + 2);
        proof {
            lemma_join_bytes(high, low);
        }
        ((high as u16) << 8) | low as u16
    }

    /// Whether every access that the instruction `op_code` makes from this
    /// state is served by the memory map.
    fn instruction_ok(&self, op_code: u8) -> (ok: bool)
        ensures
            ok == self@.instruction_ok(op_code),
    {
        proof {
            reveal(CpuState::instruction_ok);
        }
        match op_code {
            0x02 | 0x08 | 0x0A | 0x18 | 0x28 | 0x2A | 0x38 | 0x48 | 0x4A | 0x58 | 0x68 | 0x6A
            | 0x78 | 0x88 | 0x8A | 0x98 | 0x9A | 0xA8 | 0xAA | 0xB8 | 0xBA | 0xC8 | 0xCA | 0xD8
            | 0xE8 | 0xEA | 0xF8 => self.fetchable(1),
            0x10 | 0x30 | 0x50 | 0x70 | 0x90 | 0xB0 | 0xD0 | 0xF0 | 0x26 | 0x46 | 0x66 | 0x84
            | 0x85 | 0x86 | 0xA0 | 0xA2 | 0xA5 | 0xA9 => self.fetchable(2),
            0x20 => self.fetchable(2) && Self::serves_read(self.program_counter + 2),
            0x4C => self.fetchable(3),
            0xAD => self.fetchable(3) && Self::serves_read(self.absolute_operand()),
            0x0E | 0x2E | 0x4E | 0x6E | 0x8C | 0x8D | 0x8E => self.fetchable(3)
                && Self::serves_write(self.absolute_operand()),
            0x60 => {
                if !self.fetchable(1) {
                    return false;
                }
                let sp_low = self.stack_pointer.wrapping_add(1);
                let low = self.read(0x100 + sp_low as u16);
                let sp_high = sp_low.wrapping_add(1);
                let high = self.read(0x100 + sp_high as u16);
                (high as u32) * 0x100 + low as u32 + 1 <= 0xFFFF
            },
            _ => false,
        }
    }

    /// The cycles that the instruction under the program counter takes.
    #[verifier::rlimit(50)]
    pub fn next_step_cycles(&self) -> (cost: u64)
        requires
            self@.fetchable(1),
            self@.instruction_ok(self@.opcode()),
        ensures
            cost == self@.stepped().current_step_cycles,
    {
        proof {
            reveal(CpuState::stepped);
            reveal(CpuState::instruction_ok);
        }
        let op_code = self.read(self.program_counter);
        match op_code {
            0x02 => 1,
            0x0A | 0x18 | 0x2A | 0x38 | 0x4A | 0x58 | 0x6A | 0x78 | 0x88 | 0x8A | 0x98 | 0x9A
            | 0xA0 | 0xA2 | 0xA8 | 0xA9 | 0xAA | 0xB8 | 0xBA | 0xC8 | 0xCA | 0xD8 | 0xE8 | 0xEA
            | 0xF8 => 2,
            0x08 | 0x48 | 0x4C | 0x84 | 0x85 | 0x86 | 0xA5 => 3,
            0x28 | 0x68 | 0x8C | 0x8D | 0x8E | 0xAD => 4,
            0x26 | 0x46 | 0x66 => 5,
            0x0E | 0x20 | 0x2E | 0x4E | 0x60 | 0x6E => 6,
            _ => {
                // the relative branches
                let condition = match op_code {
                    0x10 => !self.flag_negative,
                    0x30 => self.flag_negative,
                    0x50 => !self.flag_overflow,
                    0x70 => self.flag_overflow,
                    0x90 => !self.flag_carry,
                    0xB0 => self.flag_carry,
                    0xD0 => !self.flag_zero,
                    _ => self.flag_zero,
                };
                if !condition {
                    return 2;
                }
                let next = self.program_counter + 2;
                let offset = self.read(self.program_counter + 1);
                let target = next.wrapping_add_signed(offset as i8 as i16);
                proof {
                    assert(offset < 0x80 ==> (offset as i8) as i16 == offset as i16)
                        by (bit_vector);
                    assert(offset >= 0x80 ==> (offset as i8) as i16 == offset as i16 - 0x100)
                        by (bit_vector);
                    assert(target == relative_target(next, offset));
                }
                if next / 0x100 != target / 0x100 {
                    4
                } else {
                    3
                }
            },
        }
    }

    /// Whether a step from this state runs to its end: the opcode under the
    /// program counter is carried out, every access it makes is served, and
    /// the cycle counter does not pass `u64::MAX`.
    pub fn can_step(&self) -> (ok: bool)
        ensures
            ok == self@.can_step(),
    {
        if !self.fetchable(1) {
            return false;
        }
        let op_code = self.read(self.program_counter);
        if !self.instruction_ok(op_code) {
            return false;
        }
        let cost = self.next_step_cycles();
        cost <= u64::MAX - self.cycles
    }

    /// Whether a read of `address` is served: RAM (mirrored below 0x2000) or ROM.
    pub fn serves_read(address: u16) -> (served: bool)
        ensures
            served == is_readable(address),
    {
        address < 0x2000 || address >= 0x8000
    }

    /// Whether a write to `address` is served: RAM (mirrored below 0x2000).
    pub fn serves_write(address: u16) -> (served: bool)
        ensures
            served == is_writable(address),
    {
        address < 0x2000
    }

    /// The byte at `address`: a RAM cell below 0x2000, every 0x800 bytes
    /// mirroring the same cells, and the program ROM from 0x8000 on.
    pub fn read(&self, address: u16) -> (value: u8)
        requires
            is_readable(address),
        ensures
            value == self@.mem(address),
    {
        if address < 0x2000 {
            // Mirrored RAM
            proof {
                lemma_mirror_index(address);
            }
            self.ram[(address & 0x07FF) as usize]
        } else {
            self.rom[(address - 0x8000) as usize]
        }
    }

    /// Writes `value` to the RAM cell that `address` mirrors.
    pub fn write(&mut self, address: u16, value: u8)
        requires
            is_writable(address),
        ensures
            final(self)@ == old(self)@.store(address, value),
    {
        // Mirrored RAM
        proof {
            lemma_mirror_index(address);
        }
        self.ram[(address & 0x07FF) as usize] = value;
    }

    /// Reads the byte under the program counter and moves the counter past it.
    pub fn read_from_and_advance_pc(&mut self) -> (result: u8)
        requires
            old(self)@.fetchable(1),
        ensures
            result == old(self)@.operand(0),
            final(self)@ == old(self)@.advanced(1),
    {
        let result = self.read(self.program_counter);
        self.program_counter += 1;
        result
    }

    /// Reads a relative offset and, when `condition` holds, jumps by it,
    /// counting a cycle for the offset, one for the jump and one more when
    /// the jump leaves the page of the next instruction.
    pub fn branch_if(&mut self, condition: bool)
        requires
            old(self)@.fetchable(1),
            old(self).current_step_cycles + 3 <= u64::MAX,
        ensures
            ({
                let s = old(self)@;
                let next = s.advanced(1);
                let target = relative_target(next.program_counter, s.operand(0));
                let crossed: u64 = if next.program_counter / 0x100 != target / 0x100 {
                    1
                } else {
                    0
                };
                final(self)@ == if condition {
                    CpuState {
                        program_counter: target,
                        current_step_cycles: (s.current_step_cycles + 2 + crossed) as u64,
                        ..next
                    }
                } else {
                    CpuState { current_step_cycles: (s.current_step_cycles + 1) as u64, ..next }
                }
            }),
    {
        let branch_addr = self.read_from_and_advance_pc();
        self.current_step_cycles += 1;

        if condition {
            let signed_branch_addr: i16 = branch_addr as i8 as i16;
            proof {
                assert(branch_addr < 0x80 ==> (branch_addr as i8) as i16 == branch_addr as i16)
                    by (bit_vector);
                assert(branch_addr >= 0x80 ==> (branch_addr as i8) as i16 == branch_addr as i16
                    - 0x100) by (bit_vector);
                assert(signed_branch_addr == signed_offset(branch_addr));
            }

            let old_pc = self.program_counter;

            self.program_counter = self.program_counter.wrapping_add_signed(signed_branch_addr);
            assert(self.program_counter == relative_target(old_pc, branch_addr));

            // Lower PC write
            self.current_step_cycles += 1;

            // Possible upper PC write
            proof {
                lemma_split_word(old_pc);
                lemma_split_word(self.program_counter);
            }
            if (old_pc & 0xFF00) != (self.program_counter & 0xFF00) {
                self.current_step_cycles += 1;
            }
        }
    }

    /// Sets the zero and negative flags from `result`.
    pub fn update_zero_and_negative_flags(&mut self, result: u8)
        ensures
            final(self)@ == old(self)@.with_nz(result),
    {
        self.flag_zero = result == 0;
        proof {
            lemma_shift_bits(result);
        }
        self.flag_negative = (result & 0b1000_0000) != 0;
    }

    /// Writes `value` to the stack slot at 0x100 plus the stack pointer, then
    /// moves the stack pointer down, wrapping below 0.
    pub fn push(&mut self, value: u8)
        ensures
            final(self)@ == old(self)@.pushed(value),
    {
        let address: u16 = 0x100 + self.stack_pointer as u16;
        self.write(address, value);
        self.stack_pointer = self.stack_pointer.wrapping_sub(1);
    }

    /// Moves the stack pointer up, wrapping past 0xFF, then reads the stack
    /// slot it designates.
    pub fn pull(&mut self) -> (value: u8)
        ensures
            value == old(self)@.pulled_value(),
            final(self)@ == old(self)@.pulled(),
    {
        self.stack_pointer = self.stack_pointer.wrapping_add(1);
        let address: u16 = 0x100 + self.stack_pointer as u16;
        self.read(address)
    }

    /// The flags packed into a byte; `b_flag` gives bit 4, bit 5 is always set.
    pub fn status_as_bytes(&self, b_flag: bool) -> (status: u8)
        ensures
            status == self@.status_byte(b_flag),
    {
        let mut status: u8 = 0;
        proof {
            lemma_single_bits();
        }
        if self.flag_carry {
            proof { lemma_or_below(status, 1); }
            status |= 1 << 0;
        }
        if self.flag_zero {
            proof { lemma_or_below(status, 2); }
            status |= 1 << 1;
        }
        if self.flag_interrupt_disable {
            proof { lemma_or_below(status, 4); }
            status |= 1 << 2;
        }
        if self.flag_decimal {
            proof { lemma_or_below(status, 8); }
            status |= 1 << 3;
        }

        if b_flag {
            proof { lemma_or_below(status, 0x10); }
            status |= 1 << 4;
        }
        proof { lemma_or_below(status, 0x20); }
        status |= 1 << 5; // Bit 5: Always 1

        if self.flag_overflow {
            proof { lemma_or_below(status, 0x40); }
            status |= 1 << 6;
        }
        if self.flag_negative {
            proof { lemma_or_below(status, 0x80); }
            status |= 1 << 7;
        }

        status
    }

    /// Loads carry, zero, interrupt disable, decimal, overflow and negative
    /// from bits 0, 1, 2, 3, 6 and 7 of `status`.
    pub fn set_status_from_byte(&mut self, status: u8)
        ensures
            final(self)@ == old(self)@.with_status(status),
    {
        proof {
            lemma_single_bits();
        }
        self.flag_carry = (status & (1 << 0)) != 0;
        self.flag_zero = (status & (1 << 1)) != 0;
        self.flag_interrupt_disable = (status & (1 << 2)) != 0;
        self.flag_decimal = (status & (1 << 3)) != 0;

        self.flag_overflow = (status & (1 << 6)) != 0;
        self.flag_negative = (status & (1 << 7)) != 0;
    }

    /// Rotates `input` left through the carry and sets carry, negative and
    /// zero from it; returns the rotated byte.
    pub fn rol_raw(&mut self, input: u8) -> (output: u8)
        ensures
            output == rotated_left(input, old(self).flag_carry),
            final(self)@ == old(self)@.after_shift(output, input >= 0x80),
    {
        let mut input = input;
        proof {
            lemma_shift_bits(input);
        }
        let next_carry = input >= 0x80;
        input <<= 1;
        if self.flag_carry {
            input |= 1;
        }
        self.flag_carry = next_carry;
        self.flag_negative = input >= 0x80;
        self.flag_zero = input == 0;
        input
    }

    /// Rotates `input` left through the carry and writes it to `address`.
    pub fn rol_value(&mut self, address: u16, input: u8)
        requires
            is_writable(address),
        ensures
            final(self)@ == old(self)@.after_shift(
                rotated_left(input, old(self).flag_carry),
                input >= 0x80,
            ).store(address, rotated_left(input, old(self).flag_carry)),
    {
        let output = self.rol_raw(input);
        self.write(address, output);
    }

    /// Rotates `input` right through the carry and sets carry, negative and
    /// zero from it; returns the rotated byte.
    pub fn ror_raw(&mut self, input: u8) -> (output: u8)
        ensures
            output == rotated_right(input, old(self).flag_carry),
            final(self)@ == old(self)@.after_shift(output, input % 2 == 1),
    {
        let mut input = input;
        proof {
            lemma_shift_bits(input);
        }
        let next_carry = (input & 1) != 0;

        input >>= 1;

        if self.flag_carry {
            input |= 0b1000_0000;
        }

        proof {
            lemma_shift_bits(input);
        }
        self.flag_carry = next_carry;
        self.flag_negative = (input & 0b1000_0000) != 0;
        self.flag_zero = input == 0;

        input
    }

    /// Rotates `input` right through the carry and writes it to `address`.
    pub fn ror_value(&mut self, address: u16, input: u8)
        requires
            is_writable(address),
        ensures
            final(self)@ == old(self)@.after_shift(
                rotated_right(input, old(self).flag_carry),
                input % 2 == 1,
            ).store(address, rotated_right(input, old(self).flag_carry)),
    {
        let output = self.ror_raw(input);
        self.write(address, output);
    }

    /// Shifts `input` right by one bit, bit 0 into the carry, and sets
    /// negative (always clear) and zero from it; returns the shifted byte.
    pub fn lsr_raw(&mut self, input: u8) -> (output: u8)
        ensures
            output == shifted_right(input),
            final(self)@ == old(self)@.after_shift(output, input % 2 == 1),
    {
        let mut input = input;
        proof {
            lemma_shift_bits(input);
        }
        self.flag_carry = (input & 1) != 0;

        input >>= 1;

        self.flag_negative = false;
        self.flag_zero = input == 0;

        input
    }

    /// Shifts `input` right by one bit and writes it to `address`.
    pub fn lsr_value(&mut self, address: u16, input: u8)
        requires
            is_writable(address),
        ensures
            final(self)@ == old(self)@.after_shift(shifted_right(input), input % 2 == 1).store(
                address,
                shifted_right(input),
            ),
    {
        let output = self.lsr_raw(input);
        self.write(address, output);
    }

    /// Reads a zero page address from the instruction into the address bus,
    /// counting one cycle.
    pub fn read_zero_page_addr(&mut self)
        requires
            old(self)@.fetchable(1),
            old(self).current_step_cycles + 1 <= u64::MAX,
        ensures
            final(self)@ == (CpuState {
                address_bus: old(self)@.operand(0) as u16,
                current_step_cycles: (old(self).current_step_cycles + 1) as u64,
                ..old(self)@.advanced(1)
            }),
    {
        let lower_addr = self.read_from_and_advance_pc();
        self.current_step_cycles += 1;

        self.address_bus = lower_addr as u16;
    }

    /// Reads an absolute address, low byte first, from the instruction into
    /// the address bus, counting one cycle per byte.
    pub fn read_absolute_addr(&mut self)
        requires
            old(self)@.fetchable(2),
            old(self).current_step_cycles + 2 <= u64::MAX,
        ensures
            final(self)@ == (CpuState {
                address_bus: (old(self)@.operand(1) * 0x100 + old(self)@.operand(0)) as u16,
                current_step_cycles: (old(self).current_step_cycles + 2) as u64,
                ..old(self)@.advanced(2)
            }),
    {
        let low_byte = self.read_from_and_advance_pc();
        self.current_step_cycles += 1;

        let high_byte = self.read_from_and_advance_pc();
        self.current_step_cycles += 1;

        proof {
            lemma_join_bytes(high_byte, low_byte);
        }
        self.address_bus = ((high_byte as u16) << 8) | low_byte as u16;
    }

    /// Carries out the stack instructions: PHP, JSR, PLP, PHA, RTS, PLA, after the opcode
    /// `op_code` was fetched from the state `s` and one cycle was counted.
    #[verifier::spinoff_prover]
    #[verifier::rlimit(40)]
    fn execute_stack_op(&mut self, op_code: u8, Ghost(s): Ghost<CpuState>)
        requires
            s.can_step(),
            op_code == s.opcode(),
            op_code == 0x08 || op_code == 0x20 || op_code == 0x28 || op_code == 0x48 || op_code == 0x60 || op_code == 0x68,
            old(self)@ == (CpuState { current_step_cycles: 1, ..s.advanced(1) }),
        ensures
            final(self)@ == (CpuState { cycles: s.cycles, ..s.stepped() }),
    {
        reveal(CpuState::stepped);
        reveal(CpuState::instruction_ok);
        match op_code {
            // PHP
            0x08 => {
                let status = self.status_as_bytes(true);
                self.push(status);
                self.current_step_cycles += 2;
            },
            // JSR
            0x20 => {
                let jmp_low = self.read_from_and_advance_pc();
                let jmp_high = self.read(self.program_counter);
                proof {
                    lemma_split_word(self.program_counter);
                    lemma_join_bytes(jmp_high, jmp_low);
                }
                let pc_high: u8 = (self.program_counter >> 8) as u8;
                self.push(pc_high);
                let pc_low: u8 = (self.program_counter & 0xFF) as u8;
                self.push(pc_low);
                self.program_counter = ((jmp_high as u16) << 8) | jmp_low as u16;
                self.current_step_cycles += 5;
            },
            // PLP
            0x28 => {
                let status = self.pull();
                self.set_status_from_byte(status);

                self.current_step_cycles += 3;
            },
            // PHA
            0x48 => {
                let value = self.a_reg;
                self.push(value);
                self.current_step_cycles += 2;
            },
            // RTS
            0x60 => {
                let jmp_low = self.pull();
                let jmp_high = self.pull();
                proof {
                    lemma_join_bytes(jmp_high, jmp_low);
                }
                self.program_counter = ((jmp_high as u16) << 8) | jmp_low as u16;
                self.program_counter += 1;
                self.current_step_cycles += 5;
            },
            // PLA
            0x68 => {
                let result = self.pull();
                self.a_reg = result;
                self.update_zero_and_negative_flags(result);

                self.current_step_cycles += 3;
            },
            _ => {},
        }
    }

    /// Carries out the shifts and rotations of a memory byte: ASL, ROL, LSR, ROR, after the opcode
    /// `op_code` was fetched from the state `s` and one cycle was counted.
    #[verifier::spinoff_prover]
    #[verifier::rlimit(40)]
    fn execute_read_modify_write(&mut self, op_code: u8, Ghost(s): Ghost<CpuState>)
        requires
            s.can_step(),
            op_code == s.opcode(),
            op_code == 0x0E || op_code == 0x26 || op_code == 0x2E || op_code == 0x46 || op_code == 0x4E || op_code == 0x66 || op_code == 0x6E,
            old(self)@ == (CpuState { current_step_cycles: 1, ..s.advanced(1) }),
        ensures
            final(self)@ == (CpuState { cycles: s.cycles, ..s.stepped() }),
    {
        reveal(CpuState::stepped);
        reveal(CpuState::instruction_ok);
        match op_code {
            // ASL Absolute
            0x0E => {
                self.read_absolute_addr();
                let mut mem_value = self.read(self.address_bus);
                proof {
                    lemma_shift_bits(mem_value);
                }

                self.flag_carry = mem_value > 127;
                mem_value <<= 1;

                self.write(self.address_bus, mem_value);
                self.update_zero_and_negative_flags(mem_value);

                self.current_step_cycles += 3;
            },
            // ROL Zero Page
            0x26 => {
                self.read_zero_page_addr();
                let value = self.read(self.address_bus);
                self.rol_value(self.address_bus, value);
                self.current_step_cycles += 3;
            },
            // ROL Absoulute
            0x2E => {
                self.read_absolute_addr();
                let value = self.read(self.address_bus);
                self.rol_value(self.address_bus, value);
                self.current_step_cycles += 3;
            },
            // LSR Zero Page
            0x46 => {
                self.read_zero_page_addr();
                let value = self.read(self.address_bus);
                self.lsr_value(self.address_bus, value);
                self.current_step_cycles += 3;
            },
            // LSR Absoulute
            0x4E => {
                self.read_absolute_addr();
                let value = self.read(self.address_bus);
                self.lsr_value(self.address_bus, value);
                self.current_step_cycles += 3;
            },
            // ROR Zero Page
            0x66 => {
                self.read_zero_page_addr();
                let value = self.read(self.address_bus);
                self.ror_value(self.address_bus, value);
                self.current_step_cycles += 3;
            },
            // ROR Absoulute
            0x6E => {
                self.read_absolute_addr();
                let value = self.read(self.address_bus);
                self.ror_value(self.address_bus, value);
                self.current_step_cycles += 3;
            },
            _ => {},
        }
    }

    /// Carries out the jump, loads and stores that take an address or an immediate byte, after the opcode
    /// `op_code` was fetched from the state `s` and one cycle was counted.
    #[verifier::spinoff_prover]
    #[verifier::rlimit(40)]
    fn execute_load_store(&mut self, op_code: u8, Ghost(s): Ghost<CpuState>)
        requires
            s.can_step(),
            op_code == s.opcode(),
            op_code == 0x4C || op_code == 0x84 || op_code == 0x85 || op_code == 0x86 || op_code == 0x8C || op_code == 0x8D || op_code == 0x8E || op_code == 0xA0 || op_code == 0xA2 || op_code == 0xA5 || op_code == 0xA9 || op_code == 0xAD,
            old(self)@ == (CpuState { current_step_cycles: 1, ..s.advanced(1) }),
        ensures
            final(self)@ == (CpuState { cycles: s.cycles, ..s.stepped() }),
    {
        reveal(CpuState::stepped);
        reveal(CpuState::instruction_ok);
        match op_code {
            // JMP Absoulute
            0x4C => {
                self.read_absolute_addr();
                self.program_counter = self.address_bus;
            },
            // STY Zero Page
            0x84 => {
                self.read_zero_page_addr();

                self.write(self.address_bus, self.y_reg);
                self.current_step_cycles += 1;
            },
            // STA Zero Page
            0x85 => {
                self.read_zero_page_addr();

                self.write(self.address_bus, self.a_reg);
                self.current_step_cycles += 1;
            },
            // STX Zero Page
            0x86 => {
                self.read_zero_page_addr();

                self.write(self.address_bus, self.x_reg);
                self.current_step_cycles += 1;
            },
            // STY Absoulute
            0x8C => {
                self.read_absolute_addr();
                self.write(self.address_bus, self.y_reg);
                self.current_step_cycles += 1;
            },
            // STA Absoulute
            0x8D => {
                self.read_absolute_addr();
                self.write(self.address_bus, self.a_reg);
                self.current_step_cycles += 1;
            },
            // STX Absoulute
            0x8E => {
                self.read_absolute_addr();
                self.write(self.address_bus, self.x_reg);
                self.current_step_cycles += 1;
            },
            // LDY Imm
            0xA0 => {
                let result = self.read_from_and_advance_pc();
                self.current_step_cycles += 1;

                self.y_reg = result;
                self.update_zero_and_negative_flags(result);
            },
            // LDX Imm
            0xA2 => {
                let result = self.read_from_and_advance_pc();
                self.current_step_cycles += 1;

                self.x_reg = result;
                self.update_zero_and_negative_flags(result);
            },
            // LDA Zero Page
            0xA5 => {
                self.read_zero_page_addr();

                let result = self.read(self.address_bus);
                self.current_step_cycles += 1;

                self.a_reg = result;
                self.update_zero_and_negative_flags(result);
            },
            // LDA Imm
            0xA9 => {
                let result = self.read_from_and_advance_pc();
                self.current_step_cycles += 1;

                self.a_reg = result;
                self.update_zero_and_negative_flags(result);
            },
            // LDA Absoulute
            0xAD => {
                self.read_absolute_addr();
                let result = self.read(self.address_bus);

                self.a_reg = result;
                self.update_zero_and_negative_flags(result);
                self.current_step_cycles += 1;
            },
            _ => {},
        }
    }

    /// Carries out HLT, NOP, TXS and the instructions that set or clear one flag, after the opcode
    /// `op_code` was fetched from the state `s` and one cycle was counted.
    #[verifier::spinoff_prover]
    #[verifier::rlimit(40)]
    fn execute_flag_op(&mut self, op_code: u8, Ghost(s): Ghost<CpuState>)
        requires
            s.can_step(),
            op_code == s.opcode(),
            op_code == 0x02 || op_code == 0x18 || op_code == 0x38 || op_code == 0x58 || op_code == 0x78 || op_code == 0xB8 || op_code == 0xD8 || op_code == 0xF8 || op_code == 0xEA || op_code == 0x9A,
            old(self)@ == (CpuState { current_step_cycles: 1, ..s.advanced(1) }),
        ensures
            final(self)@ == (CpuState { cycles: s.cycles, ..s.stepped() }),
    {
        reveal(CpuState::stepped);
        reveal(CpuState::instruction_ok);
        match op_code {
            // HLT
            0x02 => {
                self.halted = true;
            },
            // CLC
            0x18 => {
                self.flag_carry = false;
                self.current_step_cycles += 1;
            },
            // SEC
            0x38 => {
                self.flag_carry = true;
                self.current_step_cycles += 1;
            },
            // CLI
            0x58 => {
                // Delay by one cycle
                self.flag_interrupt_disable = false;
                self.current_step_cycles += 1;
            },
            // SEI
            0x78 => {
                // Needs to be delayed by 1 cycle?
                self.flag_interrupt_disable = true;
                self.current_step_cycles += 1;
            },
            // CLV
            0xB8 => {
                self.flag_overflow = false;
                self.current_step_cycles += 1;
            },
            // CLD
            0xD8 => {
                self.flag_decimal = false;
                self.current_step_cycles += 1;
            },
            // SED
            0xF8 => {
                self.flag_decimal = true;
                self.current_step_cycles += 1;
            },
            // NOP
            0xEA => {
                self.current_step_cycles += 1;
            },
            // TXS
            0x9A => {
                self.stack_pointer = self.x_reg;
                self.current_step_cycles += 1;
            },
            _ => {},
        }
    }

    /// Carries out the shifts and rotations of the accumulator, transfers, increments and decrements, after the opcode
    /// `op_code` was fetched from the state `s` and one cycle was counted.
    #[verifier::spinoff_prover]
    #[verifier::rlimit(40)]
    fn execute_register_op(&mut self, op_code: u8, Ghost(s): Ghost<CpuState>)
        requires
            s.can_step(),
            op_code == s.opcode(),
            op_code == 0x0A || op_code == 0x2A || op_code == 0x4A || op_code == 0x6A || op_code == 0x88 || op_code == 0x8A || op_code == 0x98 || op_code == 0xA8 || op_code == 0xAA || op_code == 0xBA || op_code == 0xC8 || op_code == 0xCA || op_code == 0xE8,
            old(self)@ == (CpuState { current_step_cycles: 1, ..s.advanced(1) }),
        ensures
            final(self)@ == (CpuState { cycles: s.cycles, ..s.stepped() }),
    {
        reveal(CpuState::stepped);
        reveal(CpuState::instruction_ok);
        match op_code {
            // ASL Accumulator
            0x0A => {
                proof {
                    lemma_shift_bits(self.a_reg);
                }
                self.flag_carry = self.a_reg > 127;
                self.a_reg <<= 1;
                let result = self.a_reg;
                self.update_zero_and_negative_flags(result);
                self.current_step_cycles += 1;
            },
            // ROL A
            0x2A => {
                let value = self.a_reg;
                self.a_reg = self.rol_raw(value);
                self.current_step_cycles += 1;
            },
            // LSR A
            0x4A => {
                let value = self.a_reg;
                self.a_reg = self.lsr_raw(value);
                self.current_step_cycles += 1;
            },
            // ROR A
            0x6A => {
                let value = self.a_reg;
                self.a_reg = self.ror_raw(value);
                self.current_step_cycles += 1;
            },
            // DEY
            0x88 => {
                self.y_reg = self.y_reg.wrapping_sub(1);
                let result = self.y_reg;
                self.update_zero_and_negative_flags(result);
                self.current_step_cycles += 1;
            },
            // TXA
            0x8A => {
                self.a_reg = self.x_reg;
                let result = self.a_reg;
                self.update_zero_and_negative_flags(result);
                self.current_step_cycles += 1;
            },
            // TYA
            0x98 => {
                self.a_reg = self.y_reg;
                let result = self.a_reg;
                self.update_zero_and_negative_flags(result);
                self.current_step_cycles += 1;
            },
            // TAY
            0xA8 => {
                self.y_reg = self.a_reg;
                let result = self.y_reg;
                self.update_zero_and_negative_flags(result);
                self.current_step_cycles += 1;
            },
            // TAX
            0xAA => {
                self.x_reg = self.a_reg;
                let result = self.x_reg;
                self.update_zero_and_negative_flags(result);
                self.current_step_cycles += 1;
            },
            // TSX
            0xBA => {
                self.x_reg = self.stack_pointer;
                let result = self.x_reg;
                self.update_zero_and_negative_flags(result);
                self.current_step_cycles += 1;
            },
            // INY
            0xC8 => {
                self.y_reg = self.y_reg.wrapping_add(1);
                let result = self.y_reg;
                self.update_zero_and_negative_flags(result);
                self.current_step_cycles += 1;
            },
            // DEX
            0xCA => {
                self.x_reg = self.x_reg.wrapping_sub(1);
                let result = self.x_reg;
                self.update_zero_and_negative_flags(result);
                self.current_step_cycles += 1;
            },
            // INX
            0xE8 => {
                self.x_reg = self.x_reg.wrapping_add(1);
                let result = self.x_reg;
                self.update_zero_and_negative_flags(result);
                self.current_step_cycles += 1;
            },
            _ => {},
        }
    }

    /// Carries out the relative branches: BPL, BMI, BVC, BVS, BCC, BCS, BNE,
    /// BEQ, after the opcode `op_code` was fetched from the state `s` and one
    /// cycle was counted.
    #[verifier::spinoff_prover]
    #[verifier::rlimit(40)]
    fn execute_branch(&mut self, op_code: u8, Ghost(s): Ghost<CpuState>)
        requires
            s.can_step(),
            op_code == s.opcode(),
            op_code == 0x10 || op_code == 0x30 || op_code == 0x50 || op_code == 0x70 || op_code
                == 0x90 || op_code == 0xB0 || op_code == 0xD0 || op_code == 0xF0,
            old(self)@ == (CpuState { current_step_cycles: 1, ..s.advanced(1) }),
        ensures
            final(self)@ == (CpuState { cycles: s.cycles, ..s.stepped() }),
    {
        reveal(CpuState::stepped);
        reveal(CpuState::instruction_ok);
        match op_code {
            // BPL
            0x10 => self.branch_if(!self.flag_negative),
            // BMI
            0x30 => self.branch_if(self.flag_negative),
            // BVC (Overflow Clear)
            0x50 => self.branch_if(!self.flag_overflow),
            // BVS (Overflow Set)
            0x70 => self.branch_if(self.flag_overflow),
            // BCC
            0x90 => self.branch_if(!self.flag_carry),
            // BCS
            0xB0 => self.branch_if(self.flag_carry),
            // BNE
            0xD0 => self.branch_if(!self.flag_zero),
            // BEQ
            0xF0 => self.branch_if(self.flag_zero),
            _ => {},
        }
    }

    /// Carries out the instruction under the program counter: fetches it,
    /// does what `CpuState::stepped` says of it, and adds the cycles it took
    /// to the cycle counter.
    #[verifier::spinoff_prover]
    #[verifier::rlimit(80)]
    pub fn step(&mut self)
        requires
            old(self)@.can_step(),
        ensures
            final(self)@ == old(self)@.stepped(),
    {
        let ghost s0 = self@;
        proof {
            s0.lemma_can_step_opcode();
        }
        let op_code = self.read_from_and_advance_pc();
        // Take one cycle to read
        self.current_step_cycles = 1;

        match op_code {
            // BPL, BMI, BVC, BVS, BCC, BCS, BNE, BEQ
            0x10 | 0x30 | 0x50 | 0x70 | 0x90 | 0xB0 | 0xD0 | 0xF0 => {
                self.execute_branch(op_code, Ghost(s0))
            },
            // PHP, JSR, PLP, PHA, RTS, PLA
            0x08 | 0x20 | 0x28 | 0x48 | 0x60 | 0x68 => self.execute_stack_op(op_code, Ghost(s0)),
            // ASL, ROL, LSR, ROR on memory
            0x0E | 0x26 | 0x2E | 0x46 | 0x4E | 0x66 | 0x6E => {
                self.execute_read_modify_write(op_code, Ghost(s0))
            },
            // JMP, STY, STA, STX, LDY, LDX, LDA
            0x4C | 0x84 | 0x85 | 0x86 | 0x8C | 0x8D | 0x8E | 0xA0 | 0xA2 | 0xA5 | 0xA9 | 0xAD => {
                self.execute_load_store(op_code, Ghost(s0))
            },
            // HLT, CLC, SEC, CLI, SEI, CLV, CLD, SED, NOP, TXS
            0x02 | 0x18 | 0x38 | 0x58 | 0x78 | 0xB8 | 0xD8 | 0xF8 | 0xEA | 0x9A => {
                self.execute_flag_op(op_code, Ghost(s0))
            },
            // ASL, ROL, LSR, ROR on A, DEY, TXA, TYA, TAY, TAX, TSX, INY, DEX, INX
            0x0A | 0x2A | 0x4A | 0x6A | 0x88 | 0x8A | 0x98 | 0xA8 | 0xAA | 0xBA | 0xC8 | 0xCA
            | 0xE8 => self.execute_register_op(op_code, Ghost(s0)),
            // every other opcode is left out by `can_step`
            _ => {},
        }
        assert(self@ == (CpuState { cycles: s0.cycles, ..s0.stepped() }));
        proof {
            s0.lemma_stepped_cycles();
        }
        self.cycles += self.current_step_cycles;
    }
}

} // verus!
