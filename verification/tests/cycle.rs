use chip_8::instruction::{decode, Instruction};
use chip_8::{CPUBuilder, Fault, CPU};

fn cpu_with(program: &[u8]) -> CPU {
    let mut image = [0; 4096];
    image[..program.len()].copy_from_slice(program);
    CPUBuilder::new().memory(image).build()
}

fn blank() -> [[bool; 64]; 32] {
    [[false; 64]; 32]
}

#[test]
fn run_adds_through_a_subroutine() {
    let mut image = [0; 4096];
    // at 200: call 0x100, then halt
    image[0] = 0x21;
    image[1] = 0x00;
    // at 0x100: add register 1 to register 0, then return
    image[0x100 - 200] = 0x80;
    image[0x101 - 200] = 0x14;
    image[0x102 - 200] = 0x00;
    image[0x103 - 200] = 0xEE;
    let mut registers = [0; 16];
    registers[0] = 5;
    registers[1] = 10;
    let mut cpu = CPUBuilder::new().registers(registers).memory(image).build();
    let mut screen = blank();

    assert_eq!(cpu.run(&mut screen), Ok(Some(())));
    assert_eq!(cpu.program_counter, 0x100);
    assert_eq!(cpu.stack_pointer, 1);
    assert_eq!(cpu.stack[0], 202);
    assert_eq!(cpu.run(&mut screen), Ok(Some(())));
    assert_eq!(cpu.registers(0), 15);
    assert_eq!(cpu.run(&mut screen), Ok(Some(())));
    assert_eq!(cpu.program_counter, 202);
    assert_eq!(cpu.stack_pointer, 0);
    assert_eq!(cpu.run(&mut screen), Ok(None));
    assert_eq!(cpu.program_counter, 204);
    assert_eq!(cpu.registers(0), 15);
    assert_eq!(screen, blank());
}

#[test]
fn run_advances_by_two_before_the_instruction() {
    // skip if register 0 equals 0, which it does
    let mut cpu = cpu_with(&[0x30, 0x00]);
    assert_eq!(cpu.run(&mut blank()), Ok(Some(())));
    assert_eq!(cpu.program_counter, 204);

    // skip if register 0 differs from 0, which it does not
    let mut cpu = cpu_with(&[0x40, 0x00]);
    assert_eq!(cpu.run(&mut blank()), Ok(Some(())));
    assert_eq!(cpu.program_counter, 202);
}

#[test]
fn run_jumps_with_offset() {
    let mut cpu = cpu_with(&[0xB3, 0x21]);
    cpu.registers[0] = 0x10;
    assert_eq!(cpu.run(&mut blank()), Ok(Some(())));

    assert_eq!(cpu.program_counter, 0x331);
}

#[test]
fn run_reports_an_unknown_opcode_with_its_word() {
    for word in [0x0001u16, 0x00E0, 0x0EEE, 0x5121, 0x8128, 0x812F, 0x9121, 0xE19E, 0xF107, 0xF155 + 1] {
        let mut cpu = cpu_with(&[(word >> 8) as u8, word as u8]);
        cpu.registers[3] = 9;
        let mut screen = blank();

        assert_eq!(cpu.run(&mut screen), Err(Fault::UnknownOpcode(word)));
        assert_eq!(cpu.program_counter, 202);
        assert_eq!(cpu.registers[3], 9);
        assert_eq!(cpu.stack_pointer, 0);
        assert_eq!(screen, blank());
    }
}

#[test]
fn run_reports_a_call_on_a_full_stack() {
    let mut cpu = cpu_with(&[0x23, 0x00]);
    cpu.stack_pointer = 16;

    assert_eq!(cpu.run(&mut blank()), Err(Fault::StackOverflow));
    assert_eq!(cpu.stack_pointer, 16);
    assert_eq!(cpu.program_counter, 202);
}

#[test]
fn run_reports_a_return_on_an_empty_stack() {
    let mut cpu = cpu_with(&[0x00, 0xEE]);

    assert_eq!(cpu.run(&mut blank()), Err(Fault::StackUnderflow));
    assert_eq!(cpu.stack_pointer, 0);
    assert_eq!(cpu.program_counter, 202);
}

#[test]
fn run_reports_a_program_counter_beyond_memory() {
    for counter in [4095, 4096, 5000, usize::MAX] {
        let mut cpu = cpu_with(&[]);
        cpu.program_counter = counter;

        assert_eq!(cpu.run(&mut blank()), Err(Fault::AddressOutOfRange));
        assert_eq!(cpu.program_counter, counter);
    }
}

#[test]
fn run_executes_the_last_word_of_memory() {
    let mut cpu = cpu_with(&[]);
    cpu.memory[4094] = 0x63;
    cpu.memory[4095] = 0x2A;
    cpu.program_counter = 4094;

    assert_eq!(cpu.run(&mut blank()), Ok(Some(())));
    assert_eq!(cpu.registers[3], 0x2A);
    assert_eq!(cpu.program_counter, 4096);
    assert_eq!(cpu.run(&mut blank()), Err(Fault::AddressOutOfRange));
}

#[test]
fn run_reports_memory_instructions_that_leave_memory() {
    // store registers 0 to 2 at 4094
    let mut cpu = cpu_with(&[0xF2, 0x55]);
    cpu.i = 4094;
    assert_eq!(cpu.run(&mut blank()), Err(Fault::AddressOutOfRange));
    assert_eq!(cpu.memory[4094], 0);
    cpu.i = 4093;
    cpu.program_counter = 200;
    cpu.registers[2] = 7;
    assert_eq!(cpu.run(&mut blank()), Ok(Some(())));
    assert_eq!(cpu.memory[4095], 7);

    // load registers 0 to 2 from 4094
    let mut cpu = cpu_with(&[0xF2, 0x65]);
    cpu.i = 4094;
    cpu.memory[4094] = 9;
    assert_eq!(cpu.run(&mut blank()), Err(Fault::AddressOutOfRange));
    assert_eq!(cpu.registers[0], 0);

    // decimal digits at 4094
    let mut cpu = cpu_with(&[0xF2, 0x33]);
    cpu.i = 4094;
    cpu.registers[2] = 123;
    assert_eq!(cpu.run(&mut blank()), Err(Fault::AddressOutOfRange));
    assert_eq!(cpu.memory[4094], 0);
    cpu.i = 4093;
    cpu.program_counter = 200;
    assert_eq!(cpu.run(&mut blank()), Ok(Some(())));
    assert_eq!(&cpu.memory[4093..], &[1, 2, 3]);

    // a sprite of two rows at 4095
    let mut cpu = cpu_with(&[0xD0, 0x02]);
    cpu.i = 4095;
    cpu.memory[4095] = 0xFF;
    let mut screen = blank();
    assert_eq!(cpu.run(&mut screen), Err(Fault::AddressOutOfRange));
    assert_eq!(screen, blank());
    cpu.i = 4094;
    cpu.program_counter = 200;
    assert_eq!(cpu.run(&mut screen), Ok(Some(())));
    assert!(screen[1][0]);
}

#[test]
fn run_draws_no_row_from_any_address() {
    for address in [0, 4095, 4096, 4097, 5000, 0xFFFF] {
        let mut cpu = cpu_with(&[0xD0, 0x10]);
        cpu.i = address;
        cpu.registers[15] = 9;
        let mut screen = blank();
        screen[3][3] = true;
        let lit = screen;

        assert_eq!(cpu.run(&mut screen), Ok(Some(())));
        assert_eq!(cpu.registers[15], 0);
        assert_eq!(cpu.i, address);
        assert_eq!(cpu.program_counter, 202);
        assert_eq!(screen, lit);
    }
}

#[test]
fn run_reports_a_sprite_that_begins_beyond_memory() {
    let mut cpu = cpu_with(&[0xD0, 0x11]);
    cpu.i = 4097;
    cpu.registers[15] = 9;
    let mut screen = blank();

    assert_eq!(cpu.run(&mut screen), Err(Fault::AddressOutOfRange));
    assert_eq!(cpu.registers[15], 9);
    assert_eq!(screen, blank());
}

#[test]
fn run_with_uses_the_given_byte_for_rand() {
    // the x field, here 7, is not the destination
    let mut cpu = cpu_with(&[0xC7, 0x3C]);
    cpu.registers[7] = 0x11;

    assert_eq!(cpu.run_with(&mut blank(), 0xA5), Ok(Some(())));
    assert_eq!(cpu.registers[0], 0x24);
    assert_eq!(cpu.registers[7], 0x11);
}

#[test]
fn run_with_ignores_the_byte_elsewhere() {
    let mut first = cpu_with(&[0x71, 0x05]);
    let mut second = cpu_with(&[0x71, 0x05]);

    assert_eq!(first.run_with(&mut blank(), 1), Ok(Some(())));
    assert_eq!(second.run_with(&mut blank(), 200), Ok(Some(())));
    assert_eq!(first.registers, second.registers);
    assert_eq!(first.registers[1], 5);
}

#[test]
fn run_draws_a_random_byte_for_rand() {
    for _ in 0..100 {
        let mut cpu = cpu_with(&[0xC0, 0xFF]);
        assert_eq!(cpu.run(&mut blank()), Ok(Some(())));
        assert_ne!(cpu.registers[0], 0);
    }
}

#[test]
fn run_carries_out_every_register_instruction() {
    let program = [
        0x61, 0x0C, // v1 = 0x0C
        0x62, 0x0A, // v2 = 0x0A
        0x83, 0x10, // v3 = v1
        0x83, 0x21, // v3 |= v2 -> 0x0E
        0x84, 0x10, // v4 = v1
        0x84, 0x22, // v4 &= v2 -> 0x08
        0x85, 0x10, // v5 = v1
        0x85, 0x23, // v5 ^= v2 -> 0x06
        0x86, 0x10, // v6 = v1
        0x86, 0x25, // v6 -= v2 -> 2, flag 1
        0x87, 0x10, // v7 = v1
        0x87, 0x27, // v7 = v2 - v7 -> 0xFE, flag 0
        0x88, 0x10, // v8 = v1
        0x88, 0x36, // v8 >>= 1 -> 6, flag 0
        0x89, 0x10, // v9 = v1
        0x89, 0x3E, // v9 <<= 1 -> 0x18, flag 0
        0x79, 0xF0, // v9 += 0xF0 -> 0x08
        0xA1, 0x23, // i = 0x123
        0xF9, 0x1E, // i += v9 -> 0x12B
        0x00, 0x00,
    ];
    let mut cpu = cpu_with(&program);
    let mut screen = blank();
    let mut flags = vec![];
    let mut cycles = 0;
    while cpu.run(&mut screen) == Ok(Some(())) {
        flags.push(cpu.registers[15]);
        cycles += 1;
    }

    assert_eq!(cycles, 19);
    assert_eq!(&cpu.registers[1..10], &[0x0C, 0x0A, 0x0E, 0x08, 0x06, 0x02, 0xFE, 0x06, 0x08]);
    assert_eq!(flags[9], 1);
    assert_eq!(flags[11], 0);
    assert_eq!(cpu.i, 0x12B);
    assert_eq!(cpu.program_counter, 200 + 40);
}

#[test]
fn run_skips_on_registers() {
    // 5120 skips when v1 == v2; 9120 when they differ
    let mut cpu = cpu_with(&[0x51, 0x20]);
    assert_eq!(cpu.run(&mut blank()), Ok(Some(())));
    assert_eq!(cpu.program_counter, 204);

    let mut cpu = cpu_with(&[0x91, 0x20]);
    assert_eq!(cpu.run(&mut blank()), Ok(Some(())));
    assert_eq!(cpu.program_counter, 202);

    let mut cpu = cpu_with(&[0x91, 0x20]);
    cpu.registers[2] = 1;
    assert_eq!(cpu.run(&mut blank()), Ok(Some(())));
    assert_eq!(cpu.program_counter, 204);
}

#[test]
fn halt_leaves_everything_but_the_program_counter() {
    let mut cpu = cpu_with(&[]);
    cpu.registers = [3; 16];
    cpu.i = 77;
    let memory = cpu.memory;

    assert_eq!(cpu.run(&mut blank()), Ok(None));
    assert_eq!(cpu.program_counter, 202);
    assert_eq!(cpu.registers, [3; 16]);
    assert_eq!(cpu.memory, memory);
    assert_eq!(cpu.i, 77);
}

#[test]
fn decode_reads_the_fields() {
    assert_eq!(decode(0x0000), Some(Instruction::Halt));
    assert_eq!(decode(0x00EE), Some(Instruction::Return));
    assert_eq!(decode(0x1ABC), Some(Instruction::Jump { addr: 0xABC }));
    assert_eq!(decode(0x2FFF), Some(Instruction::Call { addr: 0xFFF }));
    assert_eq!(decode(0x3A12), Some(Instruction::SkipEqual { x: 0xA, nn: 0x12 }));
    assert_eq!(decode(0x4B34), Some(Instruction::SkipNotEqual { x: 0xB, nn: 0x34 }));
    assert_eq!(decode(0x5CD0), Some(Instruction::SkipEqualReg { x: 0xC, y: 0xD }));
    assert_eq!(decode(0x6EFF), Some(Instruction::SetRegister { x: 0xE, nn: 0xFF }));
    assert_eq!(decode(0x7F01), Some(Instruction::Add { x: 0xF, nn: 0x01 }));
    assert_eq!(decode(0x8120), Some(Instruction::Assign { x: 1, y: 2 }));
    assert_eq!(decode(0x8121), Some(Instruction::Or { x: 1, y: 2 }));
    assert_eq!(decode(0x8122), Some(Instruction::And { x: 1, y: 2 }));
    assert_eq!(decode(0x8123), Some(Instruction::Xor { x: 1, y: 2 }));
    assert_eq!(decode(0x8124), Some(Instruction::AddXY { x: 1, y: 2 }));
    assert_eq!(decode(0x8125), Some(Instruction::SubXY { x: 1, y: 2 }));
    assert_eq!(decode(0x8126), Some(Instruction::ShiftRight { x: 1 }));
    assert_eq!(decode(0x8106), Some(Instruction::ShiftRight { x: 1 }));
    assert_eq!(decode(0x8127), Some(Instruction::SubN { x: 1, y: 2 }));
    assert_eq!(decode(0x812E), Some(Instruction::ShiftLeft { x: 1 }));
    assert_eq!(decode(0x9120), Some(Instruction::SkipNotEqualReg { x: 1, y: 2 }));
    assert_eq!(decode(0xA123), Some(Instruction::SetI { addr: 0x123 }));
    assert_eq!(decode(0xB123), Some(Instruction::JumpReg { addr: 0x123 }));
    assert_eq!(decode(0xC7F0), Some(Instruction::Rand { nn: 0xF0 }));
    assert_eq!(decode(0xD125), Some(Instruction::Draw { x: 1, y: 2, d: 5 }));
    assert_eq!(decode(0xF31E), Some(Instruction::SetIReg { x: 3 }));
    assert_eq!(decode(0xF333), Some(Instruction::Bcd { x: 3 }));
    assert_eq!(decode(0xF355), Some(Instruction::RegDump { x: 3 }));
    assert_eq!(decode(0xF365), Some(Instruction::RegLoad { x: 3 }));
}

#[test]
fn decode_knows_no_other_word() {
    let mut known = 0;
    for word in 0..=0xFFFFu16 {
        let c = word >> 12;
        let d = word & 0xF;
        let nn = word & 0xFF;
        let defined = match c {
            0x0 => word == 0x0000 || word == 0x00EE,
            0x5 | 0x9 => d == 0,
            0x8 => d <= 7 || d == 0xE,
            0xE => false,
            0xF => nn == 0x1E || nn == 0x33 || nn == 0x55 || nn == 0x65,
            _ => true,
        };
        assert_eq!(decode(word).is_some(), defined);
        if defined {
            known += 1;
        }
    }

    assert_eq!(known, 2 + 10 * 4096 + 2 * 256 + 9 * 256 + 4 * 16);
}
