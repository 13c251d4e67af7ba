use oxvm::cpu::{ACC, CPU, FP, R1, R2, R3, R5, R8, SP};
use oxvm::fault::Fault;
use oxvm::mapper::MemoryMapper;
use oxvm::memory::Memory;

/// A machine with one RAM region over [0, size) and the given program
/// loaded at address 0.
fn machine(size: u32, program: &[u8]) -> CPU<Memory> {
    let mut ram = Memory::new(size);
    let mut addr: u32 = 0;
    for b in program {
        ram.set_byte(addr, *b).unwrap();
        addr += 1;
    }
    let mut mapper: MemoryMapper<Memory> = MemoryMapper::new();
    mapper.map(ram, 0, size, false);
    CPU::new(mapper, 0)
}

#[test]
fn memory_byte_round_trip() {
    let mut m = Memory::new(16);
    assert_eq!(m.get_size(), 16);
    m.set_byte(7, 0xAB).unwrap();
    assert_eq!(m.get_byte(7).unwrap(), 0xAB);
    assert_eq!(m.get_byte(8).unwrap(), 0);
    assert_eq!(m.get_byte(16), Err(Fault::MemoryFault));
    assert_eq!(m.set_byte(16, 1), Err(Fault::MemoryFault));
}

#[test]
fn memory_word_round_trip_big_endian() {
    let mut m = Memory::new(16);
    m.set_word(4, 0xDEADBEEF).unwrap();
    assert_eq!(m.get_word(4).unwrap(), 0xDEADBEEF);
    // big-endian: high byte at the lower address
    assert_eq!(m.get_byte(4).unwrap(), 0xDE);
    assert_eq!(m.get_byte(5).unwrap(), 0xAD);
    assert_eq!(m.get_byte(6).unwrap(), 0xBE);
    assert_eq!(m.get_byte(7).unwrap(), 0xEF);
    assert_eq!(m.get_word(13), Err(Fault::MemoryFault));
}

#[test]
fn memory_bitwise_bytes() {
    let mut m = Memory::new(4);
    m.set_byte(0, 0b1010_0000).unwrap();
    m.or_set_byte(0, 0b0000_0101).unwrap();
    assert_eq!(m.get_byte(0).unwrap(), 0b1010_0101);
    m.and_set_byte(0, 0b1111_0000).unwrap();
    assert_eq!(m.get_byte(0).unwrap(), 0b1010_0000);
}

#[test]
fn mapper_miss_is_memory_fault() {
    let mapper: MemoryMapper<Memory> = MemoryMapper::new();
    assert_eq!(mapper.get_byte(0), Err(Fault::MemoryFault));
    assert_eq!(mapper.get_word(0), Err(Fault::MemoryFault));
}

#[test]
fn mapper_remap_offsets_addresses() {
    let mut mapper: MemoryMapper<Memory> = MemoryMapper::new();
    mapper.map(Memory::new(0x10), 0x100, 0x110, true);
    mapper.set_byte(0x100, 0x42).unwrap();
    // the device saw local address 0, i.e. the mapping covers the whole
    // 16-byte device although it starts at 0x100
    assert_eq!(mapper.get_byte(0x100).unwrap(), 0x42);
    mapper.set_word(0x10C, 0x01020304).unwrap();
    assert_eq!(mapper.get_word(0x10C).unwrap(), 0x01020304);
    assert_eq!(mapper.get_byte(0x110), Err(Fault::MemoryFault));
}

#[test]
fn mapper_shadowing() {
    let mut mapper: MemoryMapper<Memory> = MemoryMapper::new();
    mapper.map(Memory::new(0x100), 0, 0x100, false);
    mapper.set_byte(0x44, 7).unwrap();
    mapper.set_word(0x00, 0x11223344).unwrap();
    // a fresh device mapped later over part of the same window wins
    mapper.map(Memory::new(8), 0x40, 0x48, true);
    assert_eq!(mapper.get_byte(0x44).unwrap(), 0);
    mapper.set_word(0x40, 0xABCD1234).unwrap();
    assert_eq!(mapper.get_word(0x40).unwrap(), 0xABCD1234);
    // addresses outside the shadow window still reach the older RAM
    assert_eq!(mapper.get_word(0x00).unwrap(), 0x11223344);
    mapper.set_byte(0x48, 5).unwrap();
    assert_eq!(mapper.get_byte(0x48).unwrap(), 5);
}

#[test]
fn movr_and_halt() {
    let mut cpu = machine(
        0x200,
        &[0x10, 0x00, 0x00, 0x00, 0x2A, 0x00, 0x00, 0x00, 0x00, 0xFF],
    );
    cpu.set_stack(0x200, 0x40);
    cpu.run().unwrap();
    assert_eq!(cpu.get_reg(R1), 0x2A);
    assert!(cpu.is_halted());
}

#[test]
fn addr_sets_zero_and_carry() {
    let mut cpu = machine(
        0x200,
        &[0x21, 0x00, 0x00, 0x00, 0x00, 0x00, 0x00, 0x00, 0x04, 0xFF],
    );
    cpu.set_stack(0x200, 0x40);
    cpu.set_reg(R1, 0x7);
    cpu.set_reg(R2, 0xFFFFFFF9);
    cpu.run().unwrap();
    assert_eq!(cpu.get_reg(ACC), 0);
    assert!(cpu.get_status_flag(0));
    assert!(cpu.get_status_flag(1));
}

#[test]
fn push_pop_round_trip() {
    let mut cpu = machine(
        0x200,
        &[0x15, 0xDE, 0xAD, 0xBE, 0xEF, 0x05, 0x00, 0x00, 0x00, 0x00, 0xFF],
    );
    cpu.set_stack(0x200, 0x40);
    let sp_before = cpu.get_reg(SP);
    cpu.run().unwrap();
    assert_eq!(cpu.get_reg(R1), 0xDEADBEEF);
    assert_eq!(cpu.get_reg(SP), sp_before);
}

#[test]
fn call_ret_one_argument() {
    // PUSH 0x11; PUSH 0x01 (argument count); CALL 0x50; HALT ... 0x50: RET
    let mut program = vec![
        0x15, 0x00, 0x00, 0x00, 0x11, // PUSH 0x11
        0x15, 0x00, 0x00, 0x00, 0x01, // PUSH 1
        0x02, 0x00, 0x00, 0x00, 0x50, // CALL 0x50
        0xFF,
    ];
    while program.len() < 0x50 {
        program.push(0x00);
    }
    program.push(0x04); // RET
    let mut cpu = machine(0x200, &program);
    cpu.set_stack(0x200, 0x80);
    cpu.set_reg(R3, 0xC0FFEE);
    cpu.set_reg(R8, 0xBEE5);
    let sp_before = cpu.get_reg(SP);
    cpu.run().unwrap();
    // halted at the instruction after CALL, with the stack and the
    // general registers as they were before the call sequence began
    assert!(cpu.is_halted());
    assert_eq!(cpu.get_reg(SP), sp_before);
    assert_eq!(cpu.get_reg(R3), 0xC0FFEE);
    assert_eq!(cpu.get_reg(R8), 0xBEE5);
    assert_eq!(cpu.get_reg(R1), 0);
}

#[test]
fn call_ret_zero_arguments() {
    // PUSH 0x00 (argument count); CALL 0x50; HALT ... 0x50: RET
    let mut program = vec![
        0x15, 0x00, 0x00, 0x00, 0x00, // PUSH 0
        0x02, 0x00, 0x00, 0x00, 0x50, // CALL 0x50
        0xFF,
    ];
    while program.len() < 0x50 {
        program.push(0x00);
    }
    program.push(0x04); // RET
    let mut cpu = machine(0x200, &program);
    cpu.set_stack(0x200, 0x80);
    cpu.set_reg(R5, 0x5050);
    let sp_start = cpu.get_reg(SP);
    cpu.run().unwrap();
    assert!(cpu.is_halted());
    // RET popped the frame and the argument-count word the caller pushed
    assert_eq!(cpu.get_reg(SP), sp_start);
    assert_eq!(cpu.get_reg(R5), 0x5050);
}

#[test]
fn branch_taken() {
    let mut program = vec![0x32, 0x00, 0x00, 0x00, 0x05, 0x00, 0x00, 0x00, 0x20, 0xFF];
    while program.len() < 0x20 {
        program.push(0x00);
    }
    program.push(0xFF);
    let mut cpu = machine(0x200, &program);
    cpu.set_stack(0x200, 0x40);
    cpu.set_reg(ACC, 5);
    cpu.step().unwrap();
    assert_eq!(cpu.get_reg(oxvm::cpu::PC), 0x20);
    cpu.run().unwrap();
    assert!(cpu.is_halted());
}

#[test]
fn branch_not_taken() {
    let mut cpu = machine(
        0x200,
        &[0x32, 0x00, 0x00, 0x00, 0x05, 0x00, 0x00, 0x00, 0x20, 0xFF],
    );
    cpu.set_stack(0x200, 0x40);
    cpu.set_reg(ACC, 6);
    cpu.run().unwrap();
    assert!(cpu.is_halted());
    assert_eq!(cpu.get_reg(oxvm::cpu::PC), 10);
}

#[test]
fn rotate_keeps_all_bits() {
    // WLSF r1, 1 on a value whose top bit is set: the bit wraps around
    let mut cpu = machine(
        0x200,
        &[
            0x54, 0x00, 0x00, 0x00, 0x00, 0x00, 0x00, 0x00, 0x01, 0xFF,
        ],
    );
    cpu.set_stack(0x200, 0x40);
    cpu.set_reg(R1, 0x80000001);
    cpu.run().unwrap();
    assert_eq!(cpu.get_reg(R1), 0x00000003);
}

#[test]
fn inc_to_zero_sets_flags() {
    let mut cpu = machine(
        0x200,
        &[0x2A, 0x00, 0x00, 0x00, 0x00, 0xFF],
    );
    cpu.set_stack(0x200, 0x40);
    cpu.set_reg(R1, 0xFFFFFFFF);
    cpu.run().unwrap();
    assert_eq!(cpu.get_reg(R1), 0);
    assert!(cpu.get_status_flag(0));
    assert!(cpu.get_status_flag(1));
}

#[test]
fn unknown_opcode_is_decode_fault() {
    let mut cpu = machine(0x100, &[0x77]);
    cpu.set_stack(0x100, 0x40);
    assert_eq!(cpu.run(), Err(Fault::DecodeFault));
}

#[test]
fn unmapped_fetch_is_memory_fault() {
    let ram = Memory::new(0x10);
    let mut mapper: MemoryMapper<Memory> = MemoryMapper::new();
    mapper.map(ram, 0, 0x10, false);
    let mut cpu = CPU::new(mapper, 0x40);
    cpu.set_stack(0x10, 0x8);
    assert_eq!(cpu.run(), Err(Fault::MemoryFault));
}

#[test]
fn run_without_stack_is_stack_fault() {
    let mut cpu = machine(0x100, &[0xFF]);
    assert_eq!(cpu.run(), Err(Fault::StackFault));
}

#[test]
fn pop_empty_stack_is_stack_fault() {
    let mut cpu = machine(0x100, &[0x05, 0x00, 0x00, 0x00, 0x00, 0xFF]);
    cpu.set_stack(0x100, 0x40);
    assert_eq!(cpu.run(), Err(Fault::StackFault));
}

#[test]
fn stack_overflow_is_stack_fault() {
    // the stack holds two slots; the third push overflows
    let mut cpu = machine(
        0x100,
        &[
            0x15, 0x00, 0x00, 0x00, 0x01, // PUSH 1
            0x15, 0x00, 0x00, 0x00, 0x02, // PUSH 2
            0x15, 0x00, 0x00, 0x00, 0x03, // PUSH 3
            0xFF,
        ],
    );
    cpu.set_stack(0x100, 0x8);
    assert_eq!(cpu.run(), Err(Fault::StackFault));
}

#[test]
fn divide_by_zero_is_arith_fault() {
    let mut cpu = machine(
        0x100,
        &[0x27, 0x00, 0x00, 0x00, 0x05, 0x00, 0x00, 0x00, 0x00, 0xFF],
    );
    cpu.set_stack(0x100, 0x40);
    assert_eq!(cpu.run(), Err(Fault::ArithFault));
}

#[test]
fn arithmetic_through_memory() {
    // MOVM 7 -> [0x80]; MOVMR [0x80] -> r2; ADD 5, r2; MOVRM acc -> wait
    // MOVRM moves a register to memory; store acc, reload into r1
    let mut cpu = machine(
        0x200,
        &[
            0x11, 0x00, 0x00, 0x00, 0x07, 0x00, 0x00, 0x00, 0x80, // MOVM 7, 0x80
            0x14, 0x00, 0x00, 0x00, 0x80, 0x00, 0x00, 0x00, 0x04, // MOVMR 0x80, r2
            0x20, 0x00, 0x00, 0x00, 0x05, 0x00, 0x00, 0x00, 0x04, // ADD 5, r2
            0x13, 0x00, 0x00, 0x00, 0x24, 0x00, 0x00, 0x00, 0x90, // MOVRM acc, 0x90
            0x14, 0x00, 0x00, 0x00, 0x90, 0x00, 0x00, 0x00, 0x00, // MOVMR 0x90, r1
            0xFF,
        ],
    );
    cpu.set_stack(0x200, 0x40);
    cpu.run().unwrap();
    assert_eq!(cpu.get_reg(R2), 7);
    assert_eq!(cpu.get_reg(ACC), 12);
    assert_eq!(cpu.get_reg(R1), 12);
}

#[test]
fn byte_load_store_family() {
    // STORE 0xAB at 0x80; LOADM 0x80 -> r1; STORER r1 -> 0x81;
    // MOVR 0x81 -> r2; LOADR r2 -> r3
    let mut cpu = machine(
        0x200,
        &[
            0x1C, 0xAB, 0x00, 0x00, 0x00, 0x80, // STORE 0xAB, 0x80
            0x1B, 0x00, 0x00, 0x00, 0x80, 0x00, 0x00, 0x00, 0x00, // LOADM 0x80, r1
            0x1D, 0x00, 0x00, 0x00, 0x00, 0x00, 0x00, 0x00, 0x81, // STORER r1, 0x81
            0x10, 0x00, 0x00, 0x00, 0x81, 0x00, 0x00, 0x00, 0x04, // MOVR 0x81, r2
            0x1A, 0x00, 0x00, 0x00, 0x04, 0x00, 0x00, 0x00, 0x08, // LOADR r2, r3
            0xFF,
        ],
    );
    cpu.set_stack(0x200, 0x40);
    cpu.run().unwrap();
    assert_eq!(cpu.get_reg(R1), 0xAB);
    assert_eq!(cpu.get_reg(R3), 0xAB);
}

#[test]
fn jmp_redirects_execution() {
    // JMP 0x20; (a HALT at 9 is skipped); at 0x20: MOVR 1, r1; HALT
    let mut program = vec![0x01, 0x00, 0x00, 0x00, 0x20, 0xFF];
    while program.len() < 0x20 {
        program.push(0x00);
    }
    program.extend_from_slice(&[0x10, 0x00, 0x00, 0x00, 0x01, 0x00, 0x00, 0x00, 0x00, 0xFF]);
    let mut cpu = machine(0x200, &program);
    cpu.set_stack(0x200, 0x40);
    cpu.run().unwrap();
    assert_eq!(cpu.get_reg(R1), 1);
}

#[test]
fn shift_and_logic_ops() {
    // LSF r1, 4; OR r1, 0x0F; XOR r1, 0xFF; NOT r2
    let mut cpu = machine(
        0x200,
        &[
            0x50, 0x00, 0x00, 0x00, 0x00, 0x00, 0x00, 0x00, 0x04, // LSF r1, 4
            0x5A, 0x00, 0x00, 0x00, 0x00, 0x00, 0x00, 0x00, 0x0F, // OR r1, 0x0F
            0x5C, 0x00, 0x00, 0x00, 0x00, 0x00, 0x00, 0x00, 0xFF, // XOR r1, 0xFF
            0x5E, 0x00, 0x00, 0x00, 0x04, // NOT r2
            0xFF,
        ],
    );
    cpu.set_stack(0x200, 0x40);
    cpu.set_reg(R1, 0x21);
    cpu.set_reg(R2, 0x0000FFFF);
    cpu.run().unwrap();
    // 0x21 << 4 = 0x210; | 0x0F = 0x21F; ^ 0xFF = 0x2E0
    assert_eq!(cpu.get_reg(R1), 0x2E0);
    assert_eq!(cpu.get_reg(R2), 0xFFFF0000);
}

#[test]
fn shift_by_register_wraps_amount() {
    // LSFR r1, r2 with r2 = 33: shift amounts wrap modulo 32
    let mut cpu = machine(
        0x200,
        &[0x51, 0x00, 0x00, 0x00, 0x00, 0x00, 0x00, 0x00, 0x04, 0xFF],
    );
    cpu.set_stack(0x200, 0x40);
    cpu.set_reg(R1, 3);
    cpu.set_reg(R2, 33);
    cpu.run().unwrap();
    assert_eq!(cpu.get_reg(R1), 6);
}

#[test]
fn subtraction_and_division() {
    // SUBWR r1, 5; MOVRR acc, r2; DIVWR r2, 4
    let mut cpu = machine(
        0x200,
        &[
            0x23, 0x00, 0x00, 0x00, 0x00, 0x00, 0x00, 0x00, 0x05, // SUBWR r1, 5
            0x12, 0x00, 0x00, 0x00, 0x24, 0x00, 0x00, 0x00, 0x04, // MOVRR acc, r2
            0x28, 0x00, 0x00, 0x00, 0x04, 0x00, 0x00, 0x00, 0x04, // DIVWR r2, 4
            0xFF,
        ],
    );
    cpu.set_stack(0x200, 0x40);
    cpu.set_reg(R1, 25);
    cpu.run().unwrap();
    assert_eq!(cpu.get_reg(R2), 20);
    assert_eq!(cpu.get_reg(ACC), 5);
}

#[test]
fn subtraction_wraps() {
    // SUB 3, r1 with r1 = 5: 3 - 5 wraps; the carry flag records it
    let mut cpu = machine(
        0x200,
        &[0x22, 0x00, 0x00, 0x00, 0x03, 0x00, 0x00, 0x00, 0x00, 0xFF],
    );
    cpu.set_stack(0x200, 0x40);
    cpu.set_reg(R1, 5);
    cpu.run().unwrap();
    assert_eq!(cpu.get_reg(ACC), 0xFFFFFFFE);
    assert!(!cpu.get_status_flag(0));
    assert!(!cpu.get_status_flag(1));
}

#[test]
fn multiply_sets_carry_on_wrap() {
    // MULT 0x10000, r1 with r1 = 0x10000: the 33rd bit is lost, so the
    // result is zero and both flags are raised
    let mut cpu = machine(
        0x200,
        &[0x25, 0x00, 0x01, 0x00, 0x00, 0x00, 0x00, 0x00, 0x00, 0xFF],
    );
    cpu.set_stack(0x200, 0x40);
    cpu.set_reg(R1, 0x10000);
    cpu.run().unwrap();
    assert_eq!(cpu.get_reg(ACC), 0);
    assert!(cpu.get_status_flag(0));
    assert!(cpu.get_status_flag(1));
}

#[test]
fn pointer_and_indexed_reads() {
    // MOVM 0xFEED to 0x80; MOVRPR r1, r2 with r1 = 0x80;
    // MOVROR r1, 4, r3 after MOVM 0xBEAD to 0x84
    let mut cpu = machine(
        0x200,
        &[
            0x11, 0x00, 0x00, 0xFE, 0xED, 0x00, 0x00, 0x00, 0x80, // MOVM 0xFEED, 0x80
            0x11, 0x00, 0x00, 0xBE, 0xAD, 0x00, 0x00, 0x00, 0x84, // MOVM 0xBEAD, 0x84
            0x17, 0x00, 0x00, 0x00, 0x00, 0x00, 0x00, 0x00, 0x04, // MOVRPR r1, r2
            0x18, 0x00, 0x00, 0x00, 0x00, 0x00, 0x00, 0x00, 0x04, 0x00, 0x00, 0x00,
            0x08, // MOVROR r1, 4, r3
            0xFF,
        ],
    );
    cpu.set_stack(0x200, 0x40);
    cpu.set_reg(R1, 0x80);
    cpu.run().unwrap();
    assert_eq!(cpu.get_reg(R2), 0xFEED);
    assert_eq!(cpu.get_reg(R3), 0xBEAD);
}

#[test]
fn status_bit_branches() {
    // INC r1 to zero sets Z; BRBS 0, 0x30 branches; at 0x30: MOVR 7, r2
    let mut program = vec![
        0x2A, 0x00, 0x00, 0x00, 0x00, // INC r1 (0xFFFFFFFF -> 0, Z set)
        0x30, 0x00, 0x00, 0x00, 0x00, 0x30, // BRBS 0, 0x30 (8-bit flag index)
        0xFF,
    ];
    while program.len() < 0x30 {
        program.push(0x00);
    }
    program.extend_from_slice(&[0x10, 0x00, 0x00, 0x00, 0x07, 0x00, 0x00, 0x00, 0x04, 0xFF]);
    let mut cpu = machine(0x200, &program);
    cpu.set_stack(0x200, 0x40);
    cpu.set_reg(R1, 0xFFFFFFFF);
    cpu.run().unwrap();
    assert_eq!(cpu.get_reg(R2), 7);

    // with Z clear, BRBC 0 branches instead
    let mut program = vec![
        0x2A, 0x00, 0x00, 0x00, 0x00, // INC r1 (1 -> 2, Z clear)
        0x31, 0x00, 0x00, 0x00, 0x00, 0x30, // BRBC 0, 0x30 (8-bit flag index)
        0xFF,
    ];
    while program.len() < 0x30 {
        program.push(0x00);
    }
    program.extend_from_slice(&[0x10, 0x00, 0x00, 0x00, 0x09, 0x00, 0x00, 0x00, 0x04, 0xFF]);
    let mut cpu = machine(0x200, &program);
    cpu.set_stack(0x200, 0x40);
    cpu.set_reg(R1, 1);
    cpu.run().unwrap();
    assert_eq!(cpu.get_reg(R2), 9);
}

#[test]
fn byte_literal_load_and_store() {
    // LOAD 0x7F, r1 (byte literal); STORE 0x5A, 0x90; STOREM 0x90, 0x91
    let mut cpu = machine(
        0x200,
        &[
            0x19, 0x7F, 0x00, 0x00, 0x00, 0x00, // LOAD 0x7F, r1
            0x1C, 0x5A, 0x00, 0x00, 0x00, 0x90, // STORE 0x5A, 0x90
            0x1E, 0x00, 0x00, 0x00, 0x90, 0x00, 0x00, 0x00, 0x91, // STOREM 0x90, 0x91
            0xFF,
        ],
    );
    cpu.set_stack(0x200, 0x40);
    cpu.run().unwrap();
    assert_eq!(cpu.get_reg(R1), 0x7F);
    assert_eq!(cpu.memory_mapper.get_byte(0x90).unwrap(), 0x5A);
    assert_eq!(cpu.memory_mapper.get_byte(0x91).unwrap(), 0x5A);
}

#[test]
fn comparison_branch_variants() {
    // BRLTRW r1, 10, 0x40 taken when r1 < 10
    let mut program = vec![
        0x3C, 0x00, 0x00, 0x00, 0x00, 0x00, 0x00, 0x00, 0x0A, 0x00, 0x00, 0x00, 0x40, 0xFF,
    ];
    while program.len() < 0x40 {
        program.push(0x00);
    }
    program.extend_from_slice(&[0x10, 0x00, 0x00, 0x00, 0x2A, 0x00, 0x00, 0x00, 0x04, 0xFF]);
    let mut cpu = machine(0x200, &program);
    cpu.set_stack(0x200, 0x40);
    cpu.set_reg(R1, 3);
    cpu.run().unwrap();
    assert_eq!(cpu.get_reg(R2), 0x2A);

    // BRGTERR r1, r2, 0x40 not taken when r1 < r2
    let mut cpu = machine(
        0x200,
        &[
            0x49, 0x00, 0x00, 0x00, 0x00, 0x00, 0x00, 0x00, 0x04, 0x00, 0x00, 0x00, 0x40, 0xFF,
        ],
    );
    cpu.set_stack(0x200, 0x40);
    cpu.set_reg(R1, 3);
    cpu.set_reg(R2, 9);
    cpu.run().unwrap();
    assert_eq!(cpu.get_reg(oxvm::cpu::PC), 14);
}

#[test]
fn pushr_round_trip() {
    // PUSHR r1; POP r2
    let mut cpu = machine(
        0x200,
        &[
            0x16, 0x00, 0x00, 0x00, 0x00, // PUSHR r1
            0x05, 0x00, 0x00, 0x00, 0x04, // POP r2
            0xFF,
        ],
    );
    cpu.set_stack(0x200, 0x40);
    cpu.set_reg(R1, 0x1234);
    cpu.run().unwrap();
    assert_eq!(cpu.get_reg(R2), 0x1234);
}

#[test]
fn callr_runs_subroutine() {
    // CALLR r3 with r3 = 0x50 after PUSH 0; the callee leaves its result
    // in memory, since RET restores every general register
    let mut program = vec![
        0x15, 0x00, 0x00, 0x00, 0x00, // PUSH 0
        0x03, 0x00, 0x00, 0x00, 0x08, // CALLR r3
        0xFF,
    ];
    while program.len() < 0x50 {
        program.push(0x00);
    }
    // 0x50: MOVM 6, 0x90; RET
    program.extend_from_slice(&[
        0x11, 0x00, 0x00, 0x00, 0x06, 0x00, 0x00, 0x00, 0x90, 0x04,
    ]);
    let mut cpu = machine(0x200, &program);
    cpu.set_stack(0x200, 0x80);
    cpu.set_reg(R3, 0x50);
    cpu.run().unwrap();
    assert_eq!(cpu.memory_mapper.get_word(0x90).unwrap(), 6);
    assert!(cpu.is_halted());
}

#[test]
fn frame_pointer_after_ret() {
    // PUSH 0 (argument count); CALL; RET: the frame pointer does not
    // return to its old place but lands one frame lower
    let mut program = vec![
        0x15, 0x00, 0x00, 0x00, 0x00, // PUSH 0
        0x02, 0x00, 0x00, 0x00, 0x50, // CALL 0x50
        0xFF,
    ];
    while program.len() < 0x50 {
        program.push(0x00);
    }
    program.push(0x04); // RET
    let mut cpu = machine(0x200, &program);
    cpu.set_stack(0x200, 0x80);
    let fp_before = cpu.get_reg(FP);
    cpu.run().unwrap();
    assert_eq!(cpu.get_reg(FP), fp_before - 40);
}
