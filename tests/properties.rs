use mmix::{
    apply, ExecutionError, Instruction, Memory, MmixMachine, OpCode, SpecialRegisterName,
    MAX_OCTA, MEMORY_SIZE,
};

fn instruction(op: OpCode, x: u8, y: u8, z: u8) -> Instruction {
    Instruction { op, x, y, z }
}

#[test]
fn fresh_machine_reads_zero_everywhere() {
    let machine = MmixMachine::new();
    assert!(machine.gp_regs.iter().all(|r| *r == 0));
    for i in 0..32 {
        assert_eq!(machine.read_sp(i), Ok(0));
    }
    assert_eq!(machine.memory.read_byte(0), Ok(0));
    assert_eq!(machine.memory.read_byte(MEMORY_SIZE - 1), Ok(0));
    assert!(machine.memory.is_zeroed());
}

#[test]
fn one_nonzero_byte_is_seen_by_the_zero_check() {
    let mut memory = Memory::new();
    memory.write_byte(MEMORY_SIZE - 1, 3).unwrap();
    assert!(!memory.is_zeroed());
    memory.write_byte(MEMORY_SIZE - 1, 0).unwrap();
    memory.write_byte(5_000_000, 1).unwrap();
    assert!(!memory.is_zeroed());
}

#[test]
fn add_immediate_changes_only_its_destination() {
    let mut machine = MmixMachine::new();
    machine.gp_regs[4] = 40;
    machine.gp_regs[9] = 5;
    machine.memory.write_byte(12, 7).unwrap();
    machine.apply(&instruction(OpCode::ADDU_I, 9, 4, 200)).unwrap();
    assert_eq!(machine.gp_regs[9], 240);
    assert_eq!(machine.gp_regs[4], 40);
    for r in 0..256 {
        if r != 9 && r != 4 {
            assert_eq!(machine.gp_regs[r], 0);
        }
    }
    assert_eq!(machine.memory.read_byte(12), Ok(7));
}

#[test]
fn add_immediate_wraps_at_two_to_the_sixty_four() {
    let mut machine = MmixMachine::new();
    machine.gp_regs[1] = MAX_OCTA - 1;
    machine.apply(&instruction(OpCode::ADDU_I, 2, 1, 3)).unwrap();
    assert_eq!(machine.gp_regs[2], 1);
    machine.gp_regs[1] = MAX_OCTA;
    machine.apply(&instruction(OpCode::ADDU_I, 1, 1, 255)).unwrap();
    assert_eq!(machine.gp_regs[1], 254);
}

#[test]
fn chaining_and_folding_agree() {
    let add = instruction(OpCode::ADDU_I, 0, 0, 1);

    let mut chained = MmixMachine::new();
    apply(apply(&mut chained, &add).unwrap(), &add).unwrap();

    let mut folded = MmixMachine::new();
    assert_eq!(folded.run(&[add, add]), Ok(()));

    assert_eq!(chained.gp_regs[0], 2);
    assert_eq!(folded.gp_regs[0], 2);
    assert_eq!(chained.gp_regs, folded.gp_regs);
}

#[test]
fn add_immediate_twice_from_zero_gives_two() {
    let mut machine = MmixMachine::new();
    machine.gp_regs[0] = 0;
    machine.gp_regs[1] = 0;
    let add = instruction(OpCode::ADDU_I, 0, 0, 1);
    machine.apply(&add).unwrap();
    machine.apply(&add).unwrap();
    assert_eq!(machine.gp_regs[0], 2);
    assert_eq!(machine.gp_regs[1], 0);
}

#[test]
fn run_stops_at_the_first_failure() {
    let mut machine = MmixMachine::new();
    let add = instruction(OpCode::ADDU_I, 0, 0, 1);
    let unknown = instruction(OpCode::MUL, 0, 0, 0);
    assert_eq!(machine.run(&[add, unknown, add]), Err(ExecutionError::UnimplementedOpcode));
    assert_eq!(machine.gp_regs[0], 1);
    assert_eq!(machine.run(&[]), Ok(()));
    assert_eq!(machine.gp_regs[0], 1);
}

#[test]
fn byte_round_trip_at_a_register_offset() {
    let mut machine = MmixMachine::new();
    machine.gp_regs[3] = 1000;
    machine.gp_regs[4] = 24;
    for b in 0..256u16 {
        machine.memory.write_byte(1024, b as u8).unwrap();
        machine.apply(&instruction(OpCode::LDB, 5, 3, 4)).unwrap();
        assert_eq!(machine.gp_regs[5], b as u8 as i8 as i64 as u64);
        machine.apply(&instruction(OpCode::LDBU, 6, 3, 4)).unwrap();
        assert_eq!(machine.gp_regs[6], b as u64);
        assert_eq!(machine.gp_regs[6] >> 8, 0);
    }
}

#[test]
fn register_offset_address_wraps_to_zero() {
    let mut machine = MmixMachine::new();
    machine.gp_regs[1] = MAX_OCTA;
    machine.gp_regs[2] = 1;
    machine.memory.write_byte(0, 0x42).unwrap();
    machine.memory.write_byte(1, 0x99).unwrap();
    machine.apply(&instruction(OpCode::LDBU, 0, 1, 2)).unwrap();
    assert_eq!(machine.gp_regs[0], 0x42);
    machine.apply(&instruction(OpCode::LDB, 3, 1, 2)).unwrap();
    assert_eq!(machine.gp_regs[3], 0x42);
}

#[test]
fn immediate_offset_address_wraps_too() {
    let mut machine = MmixMachine::new();
    machine.gp_regs[1] = MAX_OCTA - 1;
    machine.memory.write_byte(1, 0x80).unwrap();
    machine.apply(&instruction(OpCode::LDB_I, 0, 1, 3)).unwrap();
    assert_eq!(machine.gp_regs[0], 0xFFFF_FFFF_FFFF_FF80);
}

#[test]
fn unimplemented_opcode_changes_nothing() {
    let mut machine = MmixMachine::new();
    machine.gp_regs[1] = 11;
    machine.gp_regs[2] = 22;
    machine.memory.write_byte(33, 44).unwrap();
    for op in [OpCode::TRAP, OpCode::ADD, OpCode::ADDU, OpCode::LDBU_I, OpCode::LDOU_I] {
        let r = apply(&mut machine, &instruction(op, 1, 2, 3));
        assert!(matches!(r, Err(ExecutionError::UnimplementedOpcode)));
        assert_eq!(machine.gp_regs[1], 11);
        assert_eq!(machine.gp_regs[2], 22);
        assert_eq!(machine.memory.read_byte(33), Ok(44));
    }
}

#[test]
fn signed_load_of_ff_after_wraparound_is_minus_one() {
    let mut machine = MmixMachine::new();
    machine.memory.write_byte(0, 0xFF).unwrap();
    machine.gp_regs[1] = 0xFFFF_FFFF_FFFF_FFFF;
    machine.gp_regs[2] = 1;
    machine.apply(&instruction(OpCode::LDB, 0, 1, 2)).unwrap();
    assert_eq!(machine.gp_regs[0], 0xFFFF_FFFF_FFFF_FFFF);
}

#[test]
fn unsigned_load_of_ff_after_wraparound_is_ff() {
    let mut machine = MmixMachine::new();
    machine.memory.write_byte(0, 0xFF).unwrap();
    machine.gp_regs[1] = 0xFFFF_FFFF_FFFF_FFFF;
    machine.gp_regs[2] = 1;
    machine.apply(&instruction(OpCode::LDBU, 0, 1, 2)).unwrap();
    assert_eq!(machine.gp_regs[0], 0x0000_0000_0000_00FF);
}

#[test]
fn load_past_the_arena_faults_and_keeps_the_destination() {
    let mut machine = MmixMachine::new();
    machine.gp_regs[0] = 77;
    machine.gp_regs[1] = MEMORY_SIZE - 1;
    machine.gp_regs[2] = 1;
    let r = machine.apply(&instruction(OpCode::LDB, 0, 1, 2));
    assert!(matches!(r, Err(ExecutionError::MemoryFault)));
    let r = machine.apply(&instruction(OpCode::LDBU, 0, 1, 2));
    assert!(matches!(r, Err(ExecutionError::MemoryFault)));
    let r = machine.apply(&instruction(OpCode::LDB_I, 0, 1, 1));
    assert!(matches!(r, Err(ExecutionError::MemoryFault)));
    assert_eq!(machine.gp_regs[0], 77);
    machine.apply(&instruction(OpCode::LDB_I, 0, 1, 0)).unwrap();
    assert_eq!(machine.gp_regs[0], 0);
}

#[test]
fn memory_accessors_check_bounds() {
    let mut memory = Memory::new();
    assert_eq!(memory.write_byte(MEMORY_SIZE, 1), Err(ExecutionError::MemoryFault));
    assert_eq!(memory.read_byte(MEMORY_SIZE), Err(ExecutionError::MemoryFault));
    assert_eq!(memory.read_byte(u64::MAX), Err(ExecutionError::MemoryFault));
    assert_eq!(memory.write_byte(MEMORY_SIZE - 1, 9), Ok(()));
    assert_eq!(memory.read_byte(MEMORY_SIZE - 1), Ok(9));
    assert_eq!(memory.read_byte(MEMORY_SIZE - 2), Ok(0));
}

#[test]
fn special_registers_check_their_index() {
    let mut machine = MmixMachine::new();
    assert_eq!(machine.read_sp(32), Err(ExecutionError::InvalidRegisterIndex));
    assert_eq!(machine.write_sp(40, 5), Err(ExecutionError::InvalidRegisterIndex));
    let ra = SpecialRegisterName::rA.number();
    assert_eq!(machine.write_sp(ra, 5), Ok(()));
    assert_eq!(machine.read_sp(0), Ok(5));
    assert_eq!(machine.sp_regs[0], 5);
    assert_eq!(SpecialRegisterName::rZZ.number(), 31);
    assert_eq!(SpecialRegisterName::rBB.number(), 26);
}

#[test]
fn opcode_bytes_follow_the_table() {
    assert_eq!(OpCode::TRAP.byte(), 0x00);
    assert_eq!(OpCode::ADDU_I.byte(), 0x23);
    assert_eq!(OpCode::ADDU2_I.byte(), 0x29);
    assert_eq!(OpCode::ADDU4.byte(), 0x3A);
    assert_eq!(OpCode::LDB.byte(), 0x80);
    assert_eq!(OpCode::LDBU.byte(), 0x82);
    assert_eq!(OpCode::LDOU_I.byte(), 0x8F);
}
