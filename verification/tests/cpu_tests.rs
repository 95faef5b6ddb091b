use nes_cpu::cpu::Cpu;

/// A ROM file whose program ROM holds `program` at 0x8000 and whose reset
/// vector points there.
fn rom_file_with(program: &[u8]) -> Vec<u8> {
    let mut file = vec![0u8; 0x8010];
    for (i, b) in program.iter().enumerate() {
        file[0x10 + i] = *b;
    }
    file[0x10 + 0x7FFC] = 0x00;
    file[0x10 + 0x7FFD] = 0x80;
    file
}

fn cpu_running(program: &[u8]) -> Cpu {
    let mut cpu = Cpu::new();
    cpu.reset(&rom_file_with(program));
    cpu
}

fn run_until_halt(cpu: &mut Cpu, max_steps: usize) {
    let mut steps = 0;
    while !cpu.halted {
        assert!(cpu.can_step());
        cpu.step();
        steps += 1;
        assert!(steps <= max_steps);
    }
}

#[test]
fn new_is_power_on_state() {
    let cpu = Cpu::new();
    assert!(!cpu.halted);
    assert_eq!(cpu.current_step_cycles, 0);
    assert_eq!(cpu.cycles, 4);
    assert_eq!(cpu.program_counter, 0);
    assert_eq!(cpu.stack_pointer, 0xFD);
    assert_eq!((cpu.a_reg, cpu.x_reg, cpu.y_reg), (0, 0, 0));
    assert_eq!(cpu.address_bus, 0);
    assert!(cpu.flag_interrupt_disable);
    assert!(!cpu.flag_carry && !cpu.flag_zero && !cpu.flag_decimal);
    assert!(!cpu.flag_overflow && !cpu.flag_negative);
    assert!(cpu.ram.iter().all(|b| *b == 0));
    assert!(cpu.rom.iter().all(|b| *b == 0));
    assert!(cpu.header.iter().all(|b| *b == 0));
}

#[test]
fn reset_loads_rom_header_and_vector() {
    let mut file = vec![0u8; 0x8010];
    for i in 0..0x10 {
        file[i] = 0xA0 + i as u8;
    }
    file[0x10] = 0x11;
    file[0x10 + 0x1234] = 0x22;
    file[0x10 + 0x7FFC] = 0x34;
    file[0x10 + 0x7FFD] = 0x92;
    let mut cpu = Cpu::new();
    cpu.ram[7] = 9;
    cpu.a_reg = 5;
    cpu.stack_pointer = 0x10;
    cpu.flag_interrupt_disable = false;
    cpu.reset(&file);
    assert_eq!(cpu.program_counter, 0x9234);
    assert_eq!(cpu.cycles, 7);
    assert_eq!(cpu.stack_pointer, 0xFD);
    assert!(cpu.flag_interrupt_disable);
    assert_eq!(cpu.ram[7], 0);
    assert_eq!(cpu.a_reg, 5);
    assert_eq!(cpu.rom[0], 0x11);
    assert_eq!(cpu.rom[0x1234], 0x22);
    assert_eq!(cpu.header[0], 0xA0);
    assert_eq!(cpu.header[0xF], 0xAF);
}

#[test]
fn reset_twice_is_reset_once() {
    let file = rom_file_with(&[0xEA, 0x02]);
    let mut once = Cpu::new();
    once.reset(&file);
    let mut twice = Cpu::new();
    twice.reset(&file);
    twice.reset(&file);
    assert_eq!(once.program_counter, twice.program_counter);
    assert_eq!(once.cycles, twice.cycles);
    assert_eq!(once.stack_pointer, twice.stack_pointer);
    assert_eq!(once.rom[..], twice.rom[..]);
}

#[test]
fn ram_is_mirrored_below_0x2000() {
    let mut cpu = Cpu::new();
    cpu.write(0x0005, 0x77);
    assert_eq!(cpu.read(0x0005), 0x77);
    assert_eq!(cpu.read(0x0805), 0x77);
    assert_eq!(cpu.read(0x1805), 0x77);
    cpu.write(0x1FFF, 0x12);
    assert_eq!(cpu.ram[0x7FF], 0x12);
    assert_eq!(cpu.read(0x07FF), 0x12);
    assert_eq!(cpu.read(0x0006), 0);
}

#[test]
fn rom_is_read_from_0x8000() {
    let cpu = cpu_running(&[0xA9, 0x42]);
    assert_eq!(cpu.read(0x8000), 0xA9);
    assert_eq!(cpu.read(0x8001), 0x42);
    assert_eq!(cpu.read(0xFFFD), 0x80);
}

#[test]
fn memory_map_serves() {
    assert!(Cpu::serves_read(0x0000));
    assert!(Cpu::serves_read(0x1FFF));
    assert!(!Cpu::serves_read(0x2000));
    assert!(!Cpu::serves_read(0x7FFF));
    assert!(Cpu::serves_read(0x8000));
    assert!(Cpu::serves_write(0x1FFF));
    assert!(!Cpu::serves_write(0x8000));
}

#[test]
fn status_byte_packs_flags() {
    let mut cpu = Cpu::new();
    cpu.flag_interrupt_disable = false;
    assert_eq!(cpu.status_as_bytes(false), 0x20);
    assert_eq!(cpu.status_as_bytes(true), 0x30);
    cpu.flag_carry = true;
    cpu.flag_negative = true;
    assert_eq!(cpu.status_as_bytes(false), 0xA1);
    cpu.flag_zero = true;
    cpu.flag_interrupt_disable = true;
    cpu.flag_decimal = true;
    cpu.flag_overflow = true;
    assert_eq!(cpu.status_as_bytes(true), 0xFF);
    assert_eq!(cpu.status_as_bytes(false), 0xEF);
}

#[test]
fn status_byte_loads_flags() {
    let mut cpu = Cpu::new();
    cpu.set_status_from_byte(0xFF);
    assert!(cpu.flag_carry && cpu.flag_zero && cpu.flag_interrupt_disable);
    assert!(cpu.flag_decimal && cpu.flag_overflow && cpu.flag_negative);
    cpu.set_status_from_byte(0x30);
    assert!(!cpu.flag_carry && !cpu.flag_zero && !cpu.flag_interrupt_disable);
    assert!(!cpu.flag_decimal && !cpu.flag_overflow && !cpu.flag_negative);
    cpu.set_status_from_byte(0x41);
    assert!(cpu.flag_carry && cpu.flag_overflow && !cpu.flag_negative);
}

#[test]
fn status_round_trip_keeps_flags() {
    let mut cpu = Cpu::new();
    cpu.flag_carry = true;
    cpu.flag_decimal = true;
    cpu.flag_overflow = true;
    let byte = cpu.status_as_bytes(true);
    let mut other = Cpu::new();
    other.set_status_from_byte(byte);
    assert_eq!(other.status_as_bytes(true), byte);
    assert_eq!(other.status_as_bytes(false), byte & 0xEF);
}

#[test]
fn push_then_pull_gives_value_back() {
    let mut cpu = Cpu::new();
    cpu.push(0x42);
    assert_eq!(cpu.stack_pointer, 0xFC);
    assert_eq!(cpu.ram[0x1FD], 0x42);
    cpu.push(0x43);
    assert_eq!(cpu.pull(), 0x43);
    assert_eq!(cpu.pull(), 0x42);
    assert_eq!(cpu.stack_pointer, 0xFD);
}

#[test]
fn stack_pointer_wraps() {
    let mut cpu = Cpu::new();
    cpu.stack_pointer = 0;
    cpu.push(0x99);
    assert_eq!(cpu.stack_pointer, 0xFF);
    assert_eq!(cpu.ram[0x100], 0x99);
    assert_eq!(cpu.pull(), 0x99);
    assert_eq!(cpu.stack_pointer, 0);
}

#[test]
fn rotations() {
    let mut cpu = Cpu::new();
    cpu.flag_carry = false;
    assert_eq!(cpu.rol_raw(0x80), 0x00);
    assert!(cpu.flag_carry && cpu.flag_zero && !cpu.flag_negative);
    assert_eq!(cpu.rol_raw(0x40), 0x81);
    assert!(!cpu.flag_carry && cpu.flag_negative && !cpu.flag_zero);

    cpu.flag_carry = true;
    assert_eq!(cpu.ror_raw(0x01), 0x80);
    assert!(cpu.flag_carry && cpu.flag_negative && !cpu.flag_zero);
    cpu.flag_carry = false;
    assert_eq!(cpu.ror_raw(0x01), 0x00);
    assert!(cpu.flag_carry && cpu.flag_zero);
}

#[test]
fn rol_then_ror_undoes() {
    let mut cpu = Cpu::new();
    for v in 0..=255u8 {
        for carry in [false, true] {
            cpu.flag_carry = carry;
            let r = cpu.rol_raw(v);
            assert_eq!(cpu.ror_raw(r), v);
            assert_eq!(cpu.flag_carry, carry);
        }
    }
}

#[test]
fn lsr_shifts_into_carry() {
    let mut cpu = Cpu::new();
    cpu.flag_negative = true;
    assert_eq!(cpu.lsr_raw(0x03), 0x01);
    assert!(cpu.flag_carry && !cpu.flag_negative && !cpu.flag_zero);
    assert_eq!(cpu.lsr_raw(0x01), 0x00);
    assert!(cpu.flag_carry && cpu.flag_zero);
    assert_eq!(cpu.lsr_raw(0xFE), 0x7F);
    assert!(!cpu.flag_carry);
}

#[test]
fn value_forms_write_to_memory() {
    let mut cpu = Cpu::new();
    cpu.flag_carry = true;
    cpu.rol_value(0x0010, 0x01);
    assert_eq!(cpu.ram[0x10], 0x03);
    cpu.flag_carry = true;
    cpu.ror_value(0x0811, 0x02);
    assert_eq!(cpu.ram[0x11], 0x81);
    cpu.lsr_value(0x0012, 0x08);
    assert_eq!(cpu.ram[0x12], 0x04);
}

#[test]
fn zero_and_negative_flags() {
    let mut cpu = Cpu::new();
    cpu.update_zero_and_negative_flags(0);
    assert!(cpu.flag_zero && !cpu.flag_negative);
    cpu.update_zero_and_negative_flags(0x80);
    assert!(!cpu.flag_zero && cpu.flag_negative);
    cpu.update_zero_and_negative_flags(0x7F);
    assert!(!cpu.flag_zero && !cpu.flag_negative);
}

#[test]
fn address_reads() {
    let mut cpu = cpu_running(&[0x34, 0x12, 0x56]);
    cpu.current_step_cycles = 0;
    cpu.read_absolute_addr();
    assert_eq!(cpu.address_bus, 0x1234);
    assert_eq!(cpu.program_counter, 0x8002);
    assert_eq!(cpu.current_step_cycles, 2);
    cpu.read_zero_page_addr();
    assert_eq!(cpu.address_bus, 0x0056);
    assert_eq!(cpu.current_step_cycles, 3);
    let mut cpu = cpu_running(&[0x9A]);
    assert_eq!(cpu.read_from_and_advance_pc(), 0x9A);
    assert_eq!(cpu.program_counter, 0x8001);
}

#[test]
fn branch_if_counts_cycles() {
    // not taken
    let mut cpu = cpu_running(&[0x05]);
    cpu.current_step_cycles = 1;
    cpu.branch_if(false);
    assert_eq!(cpu.program_counter, 0x8001);
    assert_eq!(cpu.current_step_cycles, 2);
    // taken, same page
    let mut cpu = cpu_running(&[0x05]);
    cpu.current_step_cycles = 1;
    cpu.branch_if(true);
    assert_eq!(cpu.program_counter, 0x8006);
    assert_eq!(cpu.current_step_cycles, 3);
    // taken backwards, across a page
    let mut cpu = cpu_running(&[0xFD]);
    cpu.current_step_cycles = 1;
    cpu.branch_if(true);
    assert_eq!(cpu.program_counter, 0x7FFE);
    assert_eq!(cpu.current_step_cycles, 4);
}

#[test]
fn load_store_program() {
    // LDA #$42; STA $10; LDX #$00; LDY #$80; STX $0200; STY $11; LDA $10; HLT
    let program = [
        0xA9, 0x42, 0x85, 0x10, 0xA2, 0x00, 0xA0, 0x80, 0x8E, 0x00, 0x02, 0x84, 0x11, 0xAD,
        0x10, 0x00, 0x02,
    ];
    let mut cpu = cpu_running(&program);
    cpu.ram[0x200] = 0x55;
    run_until_halt(&mut cpu, 20);
    assert_eq!(cpu.a_reg, 0x42);
    assert_eq!(cpu.ram[0x10], 0x42);
    assert_eq!(cpu.ram[0x200], 0x00);
    assert_eq!(cpu.ram[0x11], 0x80);
    assert_eq!(cpu.x_reg, 0);
    assert_eq!(cpu.y_reg, 0x80);
    assert!(!cpu.flag_zero && !cpu.flag_negative);
    // 7 + 2 + 3 + 2 + 2 + 4 + 3 + 4 + 1
    assert_eq!(cpu.cycles, 28);
    assert_eq!(cpu.program_counter, 0x8011);
}

#[test]
fn step_cycle_counts() {
    let mut cpu = cpu_running(&[0xEA, 0x08, 0x28, 0x02]);
    assert_eq!(cpu.next_step_cycles(), 2);
    cpu.step();
    assert_eq!(cpu.current_step_cycles, 2);
    assert_eq!(cpu.next_step_cycles(), 3);
    cpu.step();
    assert_eq!(cpu.current_step_cycles, 3);
    assert_eq!(cpu.next_step_cycles(), 4);
    cpu.step();
    assert_eq!(cpu.current_step_cycles, 4);
    cpu.step();
    assert_eq!(cpu.current_step_cycles, 1);
    assert_eq!(cpu.cycles, 7 + 2 + 3 + 4 + 1);
    assert!(cpu.halted);
}

#[test]
fn php_plp_keeps_flags() {
    // SEC; SED; PHP; CLC; CLD; PLP; HLT
    let mut cpu = cpu_running(&[0x38, 0xF8, 0x08, 0x18, 0xD8, 0x28, 0x02]);
    run_until_halt(&mut cpu, 10);
    assert!(cpu.flag_carry && cpu.flag_decimal && cpu.flag_interrupt_disable);
    assert_eq!(cpu.ram[0x1FD], 0x3D);
    assert_eq!(cpu.stack_pointer, 0xFD);
}

#[test]
fn pha_pla() {
    // LDA #$80; PHA; LDA #$00; PLA; HLT
    let mut cpu = cpu_running(&[0xA9, 0x80, 0x48, 0xA9, 0x00, 0x68, 0x02]);
    run_until_halt(&mut cpu, 10);
    assert_eq!(cpu.a_reg, 0x80);
    assert!(cpu.flag_negative && !cpu.flag_zero);
    assert_eq!(cpu.stack_pointer, 0xFD);
}

#[test]
fn jsr_and_rts() {
    // 8000: JSR $8010; 8003: LDX #$07; 8005: HLT; 8010: LDY #$09; 8012: RTS
    let mut program = vec![0u8; 0x20];
    program[0..6].copy_from_slice(&[0x20, 0x10, 0x80, 0xA2, 0x07, 0x02]);
    program[0x10..0x13].copy_from_slice(&[0xA0, 0x09, 0x60]);
    let mut cpu = cpu_running(&program);
    cpu.step();
    assert_eq!(cpu.program_counter, 0x8010);
    assert_eq!(cpu.current_step_cycles, 6);
    assert_eq!(cpu.stack_pointer, 0xFB);
    assert_eq!(cpu.ram[0x1FD], 0x80);
    assert_eq!(cpu.ram[0x1FC], 0x02);
    cpu.step();
    cpu.step();
    assert_eq!(cpu.program_counter, 0x8003);
    assert_eq!(cpu.stack_pointer, 0xFD);
    assert_eq!(cpu.current_step_cycles, 6);
    run_until_halt(&mut cpu, 5);
    assert_eq!((cpu.x_reg, cpu.y_reg), (7, 9));
}

#[test]
fn jmp_absolute() {
    let mut program = vec![0u8; 0x10];
    program[0..3].copy_from_slice(&[0x4C, 0x08, 0x80]);
    program[8] = 0x02;
    let mut cpu = cpu_running(&program);
    cpu.step();
    assert_eq!(cpu.program_counter, 0x8008);
    assert_eq!(cpu.address_bus, 0x8008);
    assert_eq!(cpu.current_step_cycles, 3);
}

#[test]
fn countdown_loop_with_branches() {
    // LDX #$03; loop: DEX; BNE loop; HLT
    let mut cpu = cpu_running(&[0xA2, 0x03, 0xCA, 0xD0, 0xFD, 0x02]);
    run_until_halt(&mut cpu, 20);
    assert_eq!(cpu.x_reg, 0);
    assert!(cpu.flag_zero);
    // 7 + 2 + 3 * 2 (DEX) + 2 * 3 (taken) + 2 (not taken) + 1
    assert_eq!(cpu.cycles, 24);
}

#[test]
fn branch_flags_select() {
    // CLC; BCS +2; BCC +1; HLT(skipped); HLT
    let mut cpu = cpu_running(&[0x18, 0xB0, 0x02, 0x90, 0x01, 0x02, 0x02]);
    cpu.step();
    cpu.step();
    assert_eq!(cpu.program_counter, 0x8003);
    cpu.step();
    assert_eq!(cpu.program_counter, 0x8006);
}

#[test]
fn shifts_in_memory_and_accumulator() {
    // LDA #$81; ASL A; ROL A; LSR A; ROR A; HLT
    let mut cpu = cpu_running(&[0xA9, 0x81, 0x0A, 0x2A, 0x4A, 0x6A, 0x02]);
    cpu.step();
    cpu.step();
    assert_eq!(cpu.a_reg, 0x02);
    assert!(cpu.flag_carry);
    cpu.step();
    assert_eq!(cpu.a_reg, 0x05);
    assert!(!cpu.flag_carry);
    cpu.step();
    assert_eq!(cpu.a_reg, 0x02);
    assert!(cpu.flag_carry);
    cpu.step();
    assert_eq!(cpu.a_reg, 0x81);
    assert!(!cpu.flag_carry && cpu.flag_negative);
}

#[test]
fn read_modify_write_in_memory() {
    // ASL $0300; ROL $20; LSR $0300; ROR $21; HLT
    let program = [0x0E, 0x00, 0x03, 0x26, 0x20, 0x4E, 0x00, 0x03, 0x66, 0x21, 0x02];
    let mut cpu = cpu_running(&program);
    cpu.ram[0x300] = 0xC0;
    cpu.ram[0x20] = 0x01;
    cpu.ram[0x21] = 0x04;
    cpu.step();
    assert_eq!(cpu.ram[0x300], 0x80);
    assert!(cpu.flag_carry && cpu.flag_negative);
    assert_eq!(cpu.current_step_cycles, 6);
    cpu.step();
    assert_eq!(cpu.ram[0x20], 0x03);
    assert!(!cpu.flag_carry);
    assert_eq!(cpu.current_step_cycles, 5);
    cpu.step();
    assert_eq!(cpu.ram[0x300], 0x40);
    assert!(!cpu.flag_carry);
    cpu.step();
    assert_eq!(cpu.ram[0x21], 0x02);
    assert_eq!(cpu.address_bus, 0x21);
}

#[test]
fn transfers_and_counters() {
    // LDA #$FF; TAX; INX; TXA; TAY; DEY; TYA; TSX; LDX #$10; TXS; HLT
    let program = [0xA9, 0xFF, 0xAA, 0xE8, 0x8A, 0xA8, 0x88, 0x98, 0xBA, 0xA2, 0x10, 0x9A, 0x02];
    let mut cpu = cpu_running(&program);
    cpu.step();
    cpu.step();
    assert_eq!(cpu.x_reg, 0xFF);
    cpu.step();
    assert_eq!(cpu.x_reg, 0x00);
    assert!(cpu.flag_zero);
    cpu.step();
    cpu.step();
    cpu.step();
    assert_eq!(cpu.y_reg, 0xFF);
    assert!(cpu.flag_negative);
    cpu.step();
    assert_eq!(cpu.a_reg, 0xFF);
    cpu.step();
    assert_eq!(cpu.x_reg, 0xFD);
    run_until_halt(&mut cpu, 5);
    assert_eq!(cpu.stack_pointer, 0x10);
}

#[test]
fn flag_instructions() {
    // SEC; SEI; SED; CLV; CLI; CLD; CLC; NOP; HLT
    let mut cpu = cpu_running(&[0x38, 0x78, 0xF8, 0xB8, 0x58, 0xD8, 0x18, 0xEA, 0x02]);
    cpu.flag_overflow = true;
    cpu.step();
    assert!(cpu.flag_carry);
    cpu.step();
    cpu.step();
    assert!(cpu.flag_interrupt_disable && cpu.flag_decimal);
    cpu.step();
    assert!(!cpu.flag_overflow);
    run_until_halt(&mut cpu, 10);
    assert!(!cpu.flag_carry && !cpu.flag_decimal && !cpu.flag_interrupt_disable);
}

#[test]
fn steps_that_cannot_run() {
    // unimplemented opcode
    let cpu = cpu_running(&[0x00]);
    assert!(!cpu.can_step());
    // write to ROM
    let cpu = cpu_running(&[0x8D, 0x00, 0x80]);
    assert!(!cpu.can_step());
    // write to an unmapped address
    let cpu = cpu_running(&[0x85, 0x10, 0x8D, 0x00, 0x40]);
    assert!(cpu.can_step());
    let mut cpu = cpu;
    cpu.step();
    assert!(!cpu.can_step());
    // load from an unmapped address
    let cpu = cpu_running(&[0xAD, 0x00, 0x30]);
    assert!(!cpu.can_step());
    // program counter in an unmapped region
    let mut cpu = Cpu::new();
    cpu.program_counter = 0x3000;
    assert!(!cpu.can_step());
    // program counter at the end of memory
    let mut cpu = cpu_running(&[]);
    cpu.program_counter = 0xFFFF;
    cpu.rom[0x7FFF] = 0xEA;
    assert!(!cpu.can_step());
    // RTS to past the end of memory
    let mut cpu = cpu_running(&[0x60]);
    cpu.stack_pointer = 0xFB;
    cpu.ram[0x1FC] = 0xFF;
    cpu.ram[0x1FD] = 0xFF;
    assert!(!cpu.can_step());
    cpu.ram[0x1FC] = 0xFE;
    assert!(cpu.can_step());
    cpu.step();
    assert_eq!(cpu.program_counter, 0xFFFF);
    // cycle counter at its limit
    let mut cpu = cpu_running(&[0xEA]);
    cpu.cycles = u64::MAX - 1;
    assert!(!cpu.can_step());
    cpu.cycles = u64::MAX - 2;
    assert!(cpu.can_step());
    cpu.step();
    assert_eq!(cpu.cycles, u64::MAX);
}
