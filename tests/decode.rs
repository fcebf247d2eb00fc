use chip8::{decode, Instruction};

#[test]
fn decodes_system_family() {
    assert_eq!(decode(0x00E0), Some(Instruction::Cls));
    assert_eq!(decode(0x00EE), Some(Instruction::Ret));
    assert_eq!(decode(0x0123), None);
}

#[test]
fn decodes_address_forms() {
    assert_eq!(decode(0x1ABC), Some(Instruction::Jp { addr: 0xABC }));
    assert_eq!(decode(0x2345), Some(Instruction::Call { addr: 0x345 }));
    assert_eq!(decode(0xA123), Some(Instruction::LdIndex { addr: 0x123 }));
    assert_eq!(decode(0xBFFF), Some(Instruction::JpV0 { addr: 0xFFF }));
}

#[test]
fn decodes_register_forms() {
    assert_eq!(decode(0x3A42), Some(Instruction::SeByte { x: 0xA, kk: 0x42 }));
    assert_eq!(decode(0x4B07), Some(Instruction::SneByte { x: 0xB, kk: 0x07 }));
    assert_eq!(decode(0x5120), Some(Instruction::SeReg { x: 1, y: 2 }));
    assert_eq!(decode(0x6005), Some(Instruction::LdByte { x: 0, kk: 5 }));
    assert_eq!(decode(0x7003), Some(Instruction::AddByte { x: 0, kk: 3 }));
    assert_eq!(decode(0x9340), Some(Instruction::SneReg { x: 3, y: 4 }));
    assert_eq!(decode(0xC7F0), Some(Instruction::Rnd { x: 7, kk: 0xF0 }));
    assert_eq!(decode(0xD125), Some(Instruction::Drw { x: 1, y: 2, n: 5 }));
}

#[test]
fn decodes_alu_family() {
    assert_eq!(decode(0x8120), Some(Instruction::LdReg { x: 1, y: 2 }));
    assert_eq!(decode(0x8121), Some(Instruction::Or { x: 1, y: 2 }));
    assert_eq!(decode(0x8122), Some(Instruction::And { x: 1, y: 2 }));
    assert_eq!(decode(0x8123), Some(Instruction::Xor { x: 1, y: 2 }));
    assert_eq!(decode(0x8124), Some(Instruction::AddReg { x: 1, y: 2 }));
    assert_eq!(decode(0x8125), Some(Instruction::Sub { x: 1, y: 2 }));
    assert_eq!(decode(0x8126), Some(Instruction::Shr { x: 1 }));
    assert_eq!(decode(0x8127), Some(Instruction::Subn { x: 1, y: 2 }));
    assert_eq!(decode(0x812E), Some(Instruction::Shl { x: 1 }));
    assert_eq!(decode(0x8128), None);
    assert_eq!(decode(0x812F), None);
}

#[test]
fn decodes_key_and_misc_families() {
    assert_eq!(decode(0xE39E), Some(Instruction::Skp { x: 3 }));
    assert_eq!(decode(0xE3A1), Some(Instruction::Sknp { x: 3 }));
    assert_eq!(decode(0xE300), None);
    assert_eq!(decode(0xF407), Some(Instruction::LdRegDt { x: 4 }));
    assert_eq!(decode(0xF40A), Some(Instruction::LdRegKey { x: 4 }));
    assert_eq!(decode(0xF415), Some(Instruction::LdDtReg { x: 4 }));
    assert_eq!(decode(0xF418), Some(Instruction::LdStReg { x: 4 }));
    assert_eq!(decode(0xF41E), Some(Instruction::AddIndex { x: 4 }));
    assert_eq!(decode(0xF429), Some(Instruction::LdSprite { x: 4 }));
    assert_eq!(decode(0xF433), Some(Instruction::LdBcd { x: 4 }));
    assert_eq!(decode(0xF455), Some(Instruction::StoreRegs { x: 4 }));
    assert_eq!(decode(0xF465), Some(Instruction::LoadRegs { x: 4 }));
    assert_eq!(decode(0xF400), None);
}
