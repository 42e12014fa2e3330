use mos6502::Fault;
use mos6502::decoder::decode;
use mos6502::flags::Flag;
use mos6502::flags::Status;
use mos6502::instruction::AddressingMode;
use mos6502::instruction::Instruction;
use mos6502::instruction::Opcode;
use mos6502::memory::Memory;

#[test]
fn decode_table_totality() {
    let mut documented: usize = 0;
    let mut b: usize = 0;
    while b < 256 {
        let op: Opcode = decode(b as u8);
        assert_eq!(op.raw_data, b as u8);
        assert!(op.cycles >= 1 && op.cycles <= 7);
        if !matches!(op.instruction, Instruction::XXX) {
            documented += 1;
        } else {
            assert!(matches!(op.addressing_mode, AddressingMode::IMP));
            assert_eq!(op.cycles, 2);
        }
        b += 1;
    }
    assert_eq!(documented, 151);
}

#[test]
fn decode_known_entries() {
    assert_eq!(
        decode(0x00),
        Opcode::from(Instruction::BRK, AddressingMode::IMP, 7, 0x00)
    );
    assert_eq!(
        decode(0x01),
        Opcode::from(Instruction::ORA, AddressingMode::IZX, 6, 0x01)
    );
    assert_eq!(
        decode(0x69),
        Opcode::from(Instruction::ADC, AddressingMode::IMM, 2, 0x69)
    );
    assert_eq!(
        decode(0x6C),
        Opcode::from(Instruction::JMP, AddressingMode::IND, 5, 0x6C)
    );
    assert_eq!(
        decode(0xB1),
        Opcode::from(Instruction::LDA, AddressingMode::IZY, 5, 0xB1)
    );
    assert_eq!(
        decode(0x9D),
        Opcode::from(Instruction::STA, AddressingMode::ABX, 5, 0x9D)
    );
    assert_eq!(
        decode(0xF0),
        Opcode::from(Instruction::BEQ, AddressingMode::REL, 2, 0xF0)
    );
    assert_eq!(
        decode(0xB6),
        Opcode::from(Instruction::LDX, AddressingMode::ZPY, 4, 0xB6)
    );
    assert_eq!(
        decode(0x02),
        Opcode::from(Instruction::XXX, AddressingMode::IMP, 2, 0x02)
    );
}

#[test]
fn opcode_from_binds_fields() {
    let op: Opcode = Opcode::from(Instruction::NOP, AddressingMode::IMP, 2, 0xEA);
    assert!(matches!(op.instruction, Instruction::NOP));
    assert!(matches!(op.addressing_mode, AddressingMode::IMP));
    assert_eq!(op.cycles, 2);
    assert_eq!(op.raw_data, 0xEA);
}

#[test]
fn flags_set_clear_assign_test() {
    let mut p: Status = Status::new();
    assert!(!p.test(Flag::Carry));
    p.set(Flag::Carry);
    assert!(p.test(Flag::Carry));
    assert!(!p.test(Flag::Zero));
    p.assign(Flag::Negative, true);
    assert!(p.test(Flag::Negative));
    p.clear(Flag::Carry);
    assert!(!p.test(Flag::Carry));
    assert!(p.test(Flag::Negative));
    p.assign(Flag::Negative, false);
    assert!(!p.test(Flag::Negative));
}

#[test]
fn flags_as_byte_forces_bit5() {
    let p: Status = Status::new();
    assert_eq!(p.as_byte(), 0x20);
    let q: Status = Status::from_byte(0xDF);
    assert_eq!(q.as_byte(), 0xFF);
    let r: Status = Status::from_byte(0x01);
    assert_eq!(r.as_byte(), 0x21);
}

#[test]
fn flags_round_trip_all_bytes() {
    let live: [Flag; 7] = [
        Flag::Carry,
        Flag::Zero,
        Flag::IrqDisable,
        Flag::Decimal,
        Flag::Break,
        Flag::Overflow,
        Flag::Negative,
    ];
    let mut b: usize = 0;
    while b < 256 {
        let p: Status = Status::from_byte(b as u8);
        let rt: Status = Status::from_byte(p.as_byte());
        let mut i: usize = 0;
        while i < live.len() {
            assert_eq!(rt.test(live[i]), p.test(live[i]));
            i += 1;
        }
        assert!(rt.test(Flag::Unused));
        b += 1;
    }
}

#[test]
fn memory_starts_zeroed_and_stores() {
    let mut m: Memory = Memory::new();
    assert_eq!(m.read(0x0000), Ok(0));
    assert_eq!(m.read(0x1FFF), Ok(0));
    assert_eq!(m.write(0x0123, 0xAB), Ok(()));
    assert_eq!(m.read(0x0123), Ok(0xAB));
}

#[test]
fn memory_out_of_range_read_is_fatal() {
    let m: Memory = Memory::new();
    assert_eq!(m.read(0x2000), Err(Fault::OutOfRangeAccess));
    assert_eq!(m.read(0xFFFF), Err(Fault::OutOfRangeAccess));
}

#[test]
fn memory_out_of_range_write_is_fatal() {
    let mut m: Memory = Memory::new();
    assert_eq!(m.write(0x2000, 0x01), Err(Fault::OutOfRangeAccess));
    assert_eq!(m.write(0xFFFC, 0x01), Err(Fault::OutOfRangeAccess));
    assert_eq!(m.read(0x1FFF), Ok(0));
}
