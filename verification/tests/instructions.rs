use ntsc_nes::{Cpu, Emulator, EmulatorError, StatusFlags};

/// A machine with the usual sizes and `program` in RAM from address 0,
/// where the program counter stands at power-on.
fn machine_with(program: &[u8]) -> Emulator {
    let mut emulator = Emulator::new(0x800, 0x8000);
    for (offset, byte) in program.iter().enumerate() {
        assert_eq!(emulator.bus.write(offset as u16, *byte), Ok(()));
    }
    emulator
}

#[test]
fn power_on_state() {
    let emulator = Emulator::new(0x800, 0x8000);
    let expected = Cpu {
        flags: StatusFlags {
            carry_flag: false,
            zero_flag: false,
            interrupt_disable_flag: true,
            overflow_flag: false,
            negative_flag: false,
        },
        program_counter: 0,
        stack_pointer: 0,
        halted: false,
        reg_a: 0,
        reg_x: 0,
        reg_y: 0,
    };
    assert_eq!(emulator.cpu, expected);
    assert_eq!(Cpu::new(), expected);
    assert_eq!(StatusFlags::new(), expected.flags);
    assert_eq!(emulator.bus.ram(), vec![0xFFu8; 0x800]);
}

#[test]
fn flags_follow_the_result() {
    let mut flags = StatusFlags::new();
    flags.set_result(0x00);
    assert!(flags.zero_flag && !flags.negative_flag);
    flags.set_result(0x01);
    assert!(!flags.zero_flag && !flags.negative_flag);
    flags.set_result(0x7F);
    assert!(!flags.zero_flag && !flags.negative_flag);
    flags.set_result(0x80);
    assert!(!flags.zero_flag && flags.negative_flag);
    flags.set_result(0xFF);
    assert!(!flags.zero_flag && flags.negative_flag);
    assert!(flags.interrupt_disable_flag && !flags.carry_flag && !flags.overflow_flag);
}

#[test]
fn hlt_halts_in_zero_cycles() {
    let mut emulator = machine_with(&[0x02]);
    let before = emulator.cpu;
    assert_eq!(emulator.emulate_cpu(), Ok(0));
    assert_eq!(emulator.cpu, Cpu { halted: true, program_counter: 1, ..before });
}

#[test]
fn lda_immediate_zero_sets_zero_flag() {
    let mut emulator = machine_with(&[0xA9, 0x00]);
    emulator.cpu.reg_a = 0x55;
    emulator.cpu.flags.negative_flag = true;
    assert_eq!(emulator.emulate_cpu(), Ok(2));
    assert_eq!(emulator.cpu.reg_a, 0x00);
    assert!(emulator.cpu.flags.zero_flag);
    assert!(!emulator.cpu.flags.negative_flag);
    assert_eq!(emulator.cpu.program_counter, 2);
}

#[test]
fn lda_immediate_0x80_sets_negative_flag() {
    let mut emulator = machine_with(&[0xA9, 0x80]);
    emulator.cpu.flags.zero_flag = true;
    assert_eq!(emulator.emulate_cpu(), Ok(2));
    assert_eq!(emulator.cpu.reg_a, 0x80);
    assert!(emulator.cpu.flags.negative_flag);
    assert!(!emulator.cpu.flags.zero_flag);
}

#[test]
fn lda_immediate_0x7f_clears_both_flags() {
    let mut emulator = machine_with(&[0xA9, 0x7F]);
    emulator.cpu.flags.zero_flag = true;
    emulator.cpu.flags.negative_flag = true;
    assert_eq!(emulator.emulate_cpu(), Ok(2));
    assert_eq!(emulator.cpu.reg_a, 0x7F);
    assert!(!emulator.cpu.flags.negative_flag);
    assert!(!emulator.cpu.flags.zero_flag);
}

#[test]
fn ldx_and_ldy_immediate_leave_flags_alone() {
    let mut emulator = machine_with(&[0xA2, 0x00, 0xA0, 0x80]);
    let flags = emulator.cpu.flags;
    assert_eq!(emulator.emulate_cpu(), Ok(2));
    assert_eq!(emulator.cpu.reg_x, 0x00);
    assert_eq!(emulator.cpu.flags, flags);
    assert_eq!(emulator.emulate_cpu(), Ok(2));
    assert_eq!(emulator.cpu.reg_y, 0x80);
    assert_eq!(emulator.cpu.flags, flags);
    assert_eq!(emulator.cpu.program_counter, 4);
    assert_eq!(emulator.cpu.reg_a, 0);
}

#[test]
fn lda_zero_page_reads_the_operand_address() {
    let mut emulator = machine_with(&[0xA5, 0x40]);
    assert_eq!(emulator.bus.write(0x0040, 0x00), Ok(()));
    let flags = emulator.cpu.flags;
    emulator.cpu.reg_a = 9;
    assert_eq!(emulator.emulate_cpu(), Ok(3));
    assert_eq!(emulator.cpu.reg_a, 0x00);
    assert_eq!(emulator.cpu.flags, flags);
    assert_eq!(emulator.cpu.program_counter, 2);
}

#[test]
fn lda_absolute_reads_low_byte_first() {
    let mut emulator = machine_with(&[0xAD, 0x34, 0x02]);
    assert_eq!(emulator.bus.write(0x0234, 0x99), Ok(()));
    assert_eq!(emulator.bus.write(0x0402, 0x11), Ok(()));
    let flags = emulator.cpu.flags;
    assert_eq!(emulator.emulate_cpu(), Ok(4));
    assert_eq!(emulator.cpu.reg_a, 0x99);
    assert_eq!(emulator.cpu.flags, flags);
    assert_eq!(emulator.cpu.program_counter, 3);
}

#[test]
fn lda_absolute_from_the_reserved_region_reads_zero() {
    let mut emulator = machine_with(&[0xAD, 0x00, 0x40]);
    emulator.cpu.reg_a = 7;
    assert_eq!(emulator.emulate_cpu(), Ok(4));
    assert_eq!(emulator.cpu.reg_a, 0);
}

#[test]
fn zero_page_stores_write_each_register() {
    let mut emulator = machine_with(&[0x85, 0x10, 0x86, 0x11, 0x84, 0x12]);
    emulator.cpu.reg_a = 0xAA;
    emulator.cpu.reg_x = 0xBB;
    emulator.cpu.reg_y = 0xCC;
    let flags = emulator.cpu.flags;
    assert_eq!(emulator.emulate_cpu(), Ok(3));
    assert_eq!(emulator.emulate_cpu(), Ok(3));
    assert_eq!(emulator.emulate_cpu(), Ok(3));
    assert_eq!(emulator.bus.read(0x10), 0xAA);
    assert_eq!(emulator.bus.read(0x11), 0xBB);
    assert_eq!(emulator.bus.read(0x12), 0xCC);
    assert_eq!(emulator.cpu.program_counter, 6);
    assert_eq!(emulator.cpu.flags, flags);
}

#[test]
fn absolute_stores_write_each_register() {
    let mut emulator = machine_with(&[0x8D, 0x00, 0x03, 0x8E, 0x01, 0x03, 0x8C, 0x02, 0x03]);
    emulator.cpu.reg_a = 0x01;
    emulator.cpu.reg_x = 0x02;
    emulator.cpu.reg_y = 0x03;
    assert_eq!(emulator.emulate_cpu(), Ok(4));
    assert_eq!(emulator.emulate_cpu(), Ok(4));
    assert_eq!(emulator.emulate_cpu(), Ok(4));
    assert_eq!(emulator.bus.read(0x0300), 0x01);
    assert_eq!(emulator.bus.read(0x0301), 0x02);
    assert_eq!(emulator.bus.read(0x0302), 0x03);
    assert_eq!(emulator.cpu.program_counter, 9);
}

#[test]
fn store_to_rom_fails_with_the_address() {
    let mut emulator = machine_with(&[0x8D, 0x34, 0x92]);
    emulator.cpu.reg_a = 0x77;
    let ram = emulator.bus.ram();
    let before = emulator.cpu;
    assert_eq!(emulator.emulate_cpu(), Err(EmulatorError::InvalidWriteTarget(0x9234)));
    assert_eq!(emulator.bus.read(0x9234), 0x00);
    assert_eq!(emulator.bus.ram(), ram);
    assert_eq!(emulator.cpu, Cpu { program_counter: 3, ..before });
}

#[test]
fn store_to_the_reserved_region_fails_with_the_address() {
    let mut emulator = machine_with(&[0x8E, 0x00, 0x08]);
    assert_eq!(emulator.emulate_cpu(), Err(EmulatorError::InvalidWriteTarget(0x0800)));
    let mut small = Emulator::new(0x20, 0x8000);
    assert_eq!(small.bus.write(0, 0x84), Ok(()));
    assert_eq!(small.bus.write(1, 0x20), Ok(()));
    assert_eq!(small.emulate_cpu(), Err(EmulatorError::InvalidWriteTarget(0x0020)));
    assert_eq!(small.cpu.program_counter, 2);
}

#[test]
fn undecodable_byte_is_reported_with_the_byte() {
    let mut emulator = Emulator::new(0x800, 0x8000);
    let before = emulator.cpu;
    assert_eq!(emulator.emulate_cpu(), Err(EmulatorError::UnimplementedOpcode(0xFF)));
    assert_eq!(emulator.cpu, Cpu { program_counter: 1, ..before });
    assert_eq!(emulator.bus.ram(), vec![0xFFu8; 0x800]);
}

#[test]
fn pha_then_pla_restores_accumulator_and_stack_pointer() {
    let mut emulator = machine_with(&[0x48, 0x68]);
    emulator.cpu.reg_a = 0x5A;
    emulator.cpu.stack_pointer = 0xFD;
    assert_eq!(emulator.emulate_cpu(), Ok(3));
    assert_eq!(emulator.cpu.stack_pointer, 0xFC);
    emulator.cpu.reg_a = 0x00;
    assert_eq!(emulator.emulate_cpu(), Ok(4));
    assert_eq!(emulator.cpu.reg_a, 0x5A);
    assert_eq!(emulator.cpu.stack_pointer, 0xFD);
    assert!(!emulator.cpu.flags.zero_flag);
    assert!(!emulator.cpu.flags.negative_flag);
}

#[test]
fn push_stores_in_the_stack_page() {
    let mut emulator = Emulator::new(0x800, 0x8000);
    emulator.cpu.stack_pointer = 0xFF;
    assert_eq!(emulator.push(0x42), Ok(()));
    assert_eq!(emulator.bus.read(0x01FF), 0x42);
    assert_eq!(emulator.bus.read(0x00FF), 0xFF);
    assert_eq!(emulator.cpu.stack_pointer, 0xFE);
    assert_eq!(emulator.pull(), 0x42);
    assert_eq!(emulator.cpu.stack_pointer, 0xFF);
}

#[test]
fn stack_pointer_wraps_in_both_directions() {
    let mut emulator = Emulator::new(0x800, 0x8000);
    assert_eq!(emulator.cpu.stack_pointer, 0x00);
    assert_eq!(emulator.push(0x11), Ok(()));
    assert_eq!(emulator.bus.read(0x0100), 0x11);
    assert_eq!(emulator.cpu.stack_pointer, 0xFF);
    assert_eq!(emulator.pull(), 0x11);
    assert_eq!(emulator.cpu.stack_pointer, 0x00);
}

#[test]
fn pushes_and_pulls_are_last_in_first_out() {
    let mut emulator = Emulator::new(0x800, 0x8000);
    emulator.cpu.stack_pointer = 0x80;
    assert_eq!(emulator.push(1), Ok(()));
    assert_eq!(emulator.push(2), Ok(()));
    assert_eq!(emulator.push(3), Ok(()));
    assert_eq!(emulator.pull(), 3);
    assert_eq!(emulator.pull(), 2);
    assert_eq!(emulator.pull(), 1);
    assert_eq!(emulator.cpu.stack_pointer, 0x80);
}

#[test]
fn push_without_ram_under_the_stack_fails() {
    let mut emulator = Emulator::new(0x100, 0x8000);
    emulator.cpu.stack_pointer = 0x10;
    let before = emulator.cpu;
    assert_eq!(emulator.push(0x42), Err(EmulatorError::InvalidWriteTarget(0x0110)));
    assert_eq!(emulator.cpu, before);
    assert_eq!(emulator.pull(), 0x00);
    assert_eq!(emulator.cpu.stack_pointer, 0x11);
}

#[test]
fn pla_sets_flags_from_the_value_pulled() {
    let mut emulator = machine_with(&[0x68, 0x68]);
    emulator.cpu.stack_pointer = 0x0F;
    assert_eq!(emulator.bus.write(0x0110, 0x00), Ok(()));
    assert_eq!(emulator.bus.write(0x0111, 0x80), Ok(()));
    assert_eq!(emulator.emulate_cpu(), Ok(4));
    assert_eq!(emulator.cpu.reg_a, 0x00);
    assert!(emulator.cpu.flags.zero_flag && !emulator.cpu.flags.negative_flag);
    assert_eq!(emulator.emulate_cpu(), Ok(4));
    assert_eq!(emulator.cpu.reg_a, 0x80);
    assert!(!emulator.cpu.flags.zero_flag && emulator.cpu.flags.negative_flag);
    assert_eq!(emulator.cpu.stack_pointer, 0x11);
}

#[test]
fn pha_leaves_flags_alone() {
    let mut emulator = machine_with(&[0x48]);
    emulator.cpu.reg_a = 0x00;
    let flags = emulator.cpu.flags;
    assert_eq!(emulator.emulate_cpu(), Ok(3));
    assert_eq!(emulator.cpu.flags, flags);
    assert_eq!(emulator.bus.read(0x0100), 0x00);
}

#[test]
fn bne_with_zero_clear_and_offset_fe_goes_back_two() {
    let mut emulator = Emulator::new(0x800, 0x8000);
    assert_eq!(emulator.bus.write(0x0200, 0xD0), Ok(()));
    assert_eq!(emulator.bus.write(0x0201, 0xFE), Ok(()));
    emulator.cpu.program_counter = 0x0200;
    emulator.cpu.flags.zero_flag = false;
    let before = emulator.cpu;
    assert_eq!(emulator.emulate_cpu(), Ok(3));
    assert_eq!(emulator.cpu.program_counter, 0x0202 - 2);
    assert_eq!(emulator.cpu, before);
}

#[test]
fn beq_with_zero_clear_falls_through() {
    let mut emulator = Emulator::new(0x800, 0x8000);
    assert_eq!(emulator.bus.write(0x0200, 0xF0), Ok(()));
    assert_eq!(emulator.bus.write(0x0201, 0x10), Ok(()));
    emulator.cpu.program_counter = 0x0200;
    emulator.cpu.flags.zero_flag = false;
    let before = emulator.cpu;
    assert_eq!(emulator.emulate_cpu(), Ok(2));
    assert_eq!(emulator.cpu, Cpu { program_counter: 0x0202, ..before });
}

#[test]
fn each_branch_follows_its_flag() {
    // (opcode, zero flag, negative flag, taken)
    let cases: [(u8, bool, bool, bool); 8] = [
        (0xF0, true, false, true),
        (0xF0, false, true, false),
        (0xD0, false, true, true),
        (0xD0, true, false, false),
        (0x30, false, true, true),
        (0x30, true, false, false),
        (0x10, true, false, true),
        (0x10, false, true, false),
    ];
    for (opcode, zero, negative, taken) in cases {
        let mut emulator = machine_with(&[opcode, 0x10]);
        emulator.cpu.flags.zero_flag = zero;
        emulator.cpu.flags.negative_flag = negative;
        let before = emulator.cpu;
        let (cycles, target) = if taken { (3, 0x0012) } else { (2, 0x0002) };
        assert_eq!(emulator.emulate_cpu(), Ok(cycles));
        assert_eq!(emulator.cpu, Cpu { program_counter: target, ..before });
    }
}

#[test]
fn branch_offsets_are_twos_complement() {
    // (offset, program counter after a taken branch at 0x0200)
    let cases: [(u8, u16); 6] = [
        (0x00, 0x0202),
        (0x01, 0x0203),
        (0x7F, 0x0281),
        (0x80, 0x0182),
        (0xFF, 0x0201),
        (0xFE, 0x0200),
    ];
    for (offset, target) in cases {
        let mut emulator = Emulator::new(0x800, 0x8000);
        assert_eq!(emulator.bus.write(0x0200, 0x10), Ok(()));
        assert_eq!(emulator.bus.write(0x0201, offset), Ok(()));
        emulator.cpu.program_counter = 0x0200;
        assert_eq!(emulator.emulate_cpu(), Ok(3));
        assert_eq!(emulator.cpu.program_counter, target);
    }
}

#[test]
fn branch_target_wraps_around_the_address_space() {
    let mut back = machine_with(&[0x10, 0x80]);
    assert_eq!(back.emulate_cpu(), Ok(3));
    assert_eq!(back.cpu.program_counter, 0xFF82);

    let mut image = vec![0u8; 16 + 0x8000];
    image[16 + 0x7FF0] = 0x10;
    image[16 + 0x7FF1] = 0x7F;
    let mut forward = Emulator::new(0x800, 0x8000);
    assert_eq!(forward.reset(&image), Ok(()));
    forward.cpu.program_counter = 0xFFF0;
    assert_eq!(forward.emulate_cpu(), Ok(3));
    assert_eq!(forward.cpu.program_counter, 0x0071);
}

#[test]
fn program_counter_wraps_past_the_top() {
    let mut image = vec![0u8; 16 + 0x8000];
    image[16 + 0x7FFF] = 0xA9;
    let mut emulator = Emulator::new(0x800, 0x8000);
    assert_eq!(emulator.reset(&image), Ok(()));
    assert_eq!(emulator.bus.write(0x0000, 0x33), Ok(()));
    emulator.cpu.program_counter = 0xFFFF;
    assert_eq!(emulator.emulate_cpu(), Ok(2));
    assert_eq!(emulator.cpu.reg_a, 0x33);
    assert_eq!(emulator.cpu.program_counter, 0x0001);
}
