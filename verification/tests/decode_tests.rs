use chip8::decode::{decode, Opcode};
use chip8::errors::DecodeError;

#[test]
fn decodes_system_forms() {
    assert_eq!(decode(0x00E0), Ok(Opcode::Cls));
    assert_eq!(decode(0x00EE), Ok(Opcode::Ret));
}

#[test]
fn decodes_address_forms() {
    assert_eq!(decode(0x1ABC), Ok(Opcode::Jp { addr: 0xABC }));
    assert_eq!(decode(0x2300), Ok(Opcode::Call { addr: 0x300 }));
    assert_eq!(decode(0xA123), Ok(Opcode::LdI { addr: 0x123 }));
    assert_eq!(decode(0xB010), Ok(Opcode::JpV0 { addr: 0x010 }));
}

#[test]
fn decodes_immediate_forms() {
    assert_eq!(decode(0x3A7F), Ok(Opcode::SeByte { x: 0xA, kk: 0x7F }));
    assert_eq!(decode(0x4B01), Ok(Opcode::SneByte { x: 0xB, kk: 0x01 }));
    assert_eq!(decode(0x6005), Ok(Opcode::LdByte { x: 0, kk: 5 }));
    assert_eq!(decode(0x70FF), Ok(Opcode::AddByte { x: 0, kk: 0xFF }));
    assert_eq!(decode(0xC10F), Ok(Opcode::Rnd { x: 1, kk: 0x0F }));
}

#[test]
fn decodes_register_forms() {
    assert_eq!(decode(0x5010), Ok(Opcode::SeReg { x: 0, y: 1 }));
    assert_eq!(decode(0x8120), Ok(Opcode::LdReg { x: 1, y: 2 }));
    assert_eq!(decode(0x8121), Ok(Opcode::Or { x: 1, y: 2 }));
    assert_eq!(decode(0x8122), Ok(Opcode::And { x: 1, y: 2 }));
    assert_eq!(decode(0x8123), Ok(Opcode::Xor { x: 1, y: 2 }));
    assert_eq!(decode(0x8124), Ok(Opcode::AddReg { x: 1, y: 2 }));
    assert_eq!(decode(0x8125), Ok(Opcode::Sub { x: 1, y: 2 }));
    assert_eq!(decode(0x8126), Ok(Opcode::Shr { x: 1, y: 2 }));
    assert_eq!(decode(0x8127), Ok(Opcode::Subn { x: 1, y: 2 }));
    assert_eq!(decode(0x812E), Ok(Opcode::Shl { x: 1, y: 2 }));
    assert_eq!(decode(0x9340), Ok(Opcode::SneReg { x: 3, y: 4 }));
    assert_eq!(decode(0xD125), Ok(Opcode::Drw { x: 1, y: 2, n: 5 }));
}

#[test]
fn decodes_key_and_misc_forms() {
    assert_eq!(decode(0xE29E), Ok(Opcode::Skp { x: 2 }));
    assert_eq!(decode(0xE2A1), Ok(Opcode::Sknp { x: 2 }));
    assert_eq!(decode(0xF307), Ok(Opcode::LdVxDt { x: 3 }));
    assert_eq!(decode(0xF30A), Ok(Opcode::LdKey { x: 3 }));
    assert_eq!(decode(0xF315), Ok(Opcode::LdDtVx { x: 3 }));
    assert_eq!(decode(0xF318), Ok(Opcode::LdStVx { x: 3 }));
    assert_eq!(decode(0xF31E), Ok(Opcode::AddI { x: 3 }));
    assert_eq!(decode(0xF329), Ok(Opcode::LdFont { x: 3 }));
    assert_eq!(decode(0xF333), Ok(Opcode::LdBcd { x: 3 }));
    assert_eq!(decode(0xF355), Ok(Opcode::StoreRegs { x: 3 }));
    assert_eq!(decode(0xF365), Ok(Opcode::LoadRegs { x: 3 }));
}

#[test]
fn rejects_unassigned_patterns_with_the_raw_word() {
    for word in [0x0000u16, 0x0123, 0x5011, 0x8008, 0x812F, 0x9341, 0xE2FF, 0xF399, 0xFFFF] {
        assert_eq!(decode(word), Err(DecodeError::UnknownOpcode(word)));
    }
}
