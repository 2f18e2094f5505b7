use sfoxidized::instruction::{
    decode, AddressingMode, BranchMnemonic, Instruction, MiscMnemonic, PullMnemonic, PushMnemonic,
    RMWMnemonic, ReadMnemonic, SingleByteMnemonic, StoreMnemonic,
};

fn published_table() -> Vec<(u8, Instruction)> {
    vec![
        (0x00, Instruction::Misc(MiscMnemonic::BRK)),
        (0x01, Instruction::Read(ReadMnemonic::ORA, AddressingMode::IndexedIndirect)),
        (0x05, Instruction::Read(ReadMnemonic::ORA, AddressingMode::ZeroPage)),
        (0x06, Instruction::ReadModifyWrite(RMWMnemonic::ASL, AddressingMode::ZeroPage)),
        (0x08, Instruction::Push(PushMnemonic::PHP)),
        (0x09, Instruction::Read(ReadMnemonic::ORA, AddressingMode::Immediate)),
        (0x0a, Instruction::SingleByte(SingleByteMnemonic::ASL)),
        (0x0d, Instruction::Read(ReadMnemonic::ORA, AddressingMode::Absolute)),
        (0x0e, Instruction::ReadModifyWrite(RMWMnemonic::ASL, AddressingMode::Absolute)),
        (0x10, Instruction::Branch(BranchMnemonic::BPL)),
        (0x11, Instruction::Read(ReadMnemonic::ORA, AddressingMode::IndirectIndexed)),
        (0x15, Instruction::Read(ReadMnemonic::ORA, AddressingMode::ZeroPageX)),
        (0x16, Instruction::ReadModifyWrite(RMWMnemonic::ASL, AddressingMode::ZeroPageX)),
        (0x18, Instruction::SingleByte(SingleByteMnemonic::CLC)),
        (0x19, Instruction::Read(ReadMnemonic::ORA, AddressingMode::AbsoluteY)),
        (0x1d, Instruction::Read(ReadMnemonic::ORA, AddressingMode::AbsoluteX)),
        (0x1e, Instruction::ReadModifyWrite(RMWMnemonic::ASL, AddressingMode::AbsoluteX)),
        (0x20, Instruction::Misc(MiscMnemonic::JSR)),
        (0x21, Instruction::Read(ReadMnemonic::AND, AddressingMode::IndexedIndirect)),
        (0x24, Instruction::Read(ReadMnemonic::BIT, AddressingMode::ZeroPage)),
        (0x25, Instruction::Read(ReadMnemonic::AND, AddressingMode::ZeroPage)),
        (0x26, Instruction::ReadModifyWrite(RMWMnemonic::ROL, AddressingMode::ZeroPage)),
        (0x28, Instruction::Pull(PullMnemonic::PLP)),
        (0x29, Instruction::Read(ReadMnemonic::AND, AddressingMode::Immediate)),
        (0x2a, Instruction::SingleByte(SingleByteMnemonic::ROL)),
        (0x2c, Instruction::Read(ReadMnemonic::BIT, AddressingMode::Absolute)),
        (0x2d, Instruction::Read(ReadMnemonic::AND, AddressingMode::Absolute)),
        (0x2e, Instruction::ReadModifyWrite(RMWMnemonic::ROL, AddressingMode::Absolute)),
        (0x30, Instruction::Branch(BranchMnemonic::BMI)),
        (0x31, Instruction::Read(ReadMnemonic::AND, AddressingMode::IndirectIndexed)),
        (0x35, Instruction::Read(ReadMnemonic::AND, AddressingMode::ZeroPageX)),
        (0x36, Instruction::ReadModifyWrite(RMWMnemonic::ROL, AddressingMode::ZeroPageX)),
        (0x38, Instruction::SingleByte(SingleByteMnemonic::SEC)),
        (0x39, Instruction::Read(ReadMnemonic::AND, AddressingMode::AbsoluteY)),
        (0x3d, Instruction::Read(ReadMnemonic::AND, AddressingMode::AbsoluteX)),
        (0x3e, Instruction::ReadModifyWrite(RMWMnemonic::ROL, AddressingMode::AbsoluteX)),
        (0x40, Instruction::Misc(MiscMnemonic::RTI)),
        (0x41, Instruction::Read(ReadMnemonic::EOR, AddressingMode::IndexedIndirect)),
        (0x45, Instruction::Read(ReadMnemonic::EOR, AddressingMode::ZeroPage)),
        (0x46, Instruction::ReadModifyWrite(RMWMnemonic::LSR, AddressingMode::ZeroPage)),
        (0x48, Instruction::Push(PushMnemonic::PHA)),
        (0x49, Instruction::Read(ReadMnemonic::EOR, AddressingMode::Immediate)),
        (0x4a, Instruction::SingleByte(SingleByteMnemonic::LSR)),
        (0x4c, Instruction::Jump(AddressingMode::Absolute)),
        (0x4d, Instruction::Read(ReadMnemonic::EOR, AddressingMode::Absolute)),
        (0x4e, Instruction::ReadModifyWrite(RMWMnemonic::LSR, AddressingMode::Absolute)),
        (0x50, Instruction::Branch(BranchMnemonic::BVC)),
        (0x51, Instruction::Read(ReadMnemonic::EOR, AddressingMode::IndirectIndexed)),
        (0x55, Instruction::Read(ReadMnemonic::EOR, AddressingMode::ZeroPageX)),
        (0x56, Instruction::ReadModifyWrite(RMWMnemonic::LSR, AddressingMode::ZeroPageX)),
        (0x58, Instruction::SingleByte(SingleByteMnemonic::CLI)),
        (0x59, Instruction::Read(ReadMnemonic::EOR, AddressingMode::AbsoluteY)),
        (0x5d, Instruction::Read(ReadMnemonic::EOR, AddressingMode::AbsoluteX)),
        (0x5e, Instruction::ReadModifyWrite(RMWMnemonic::LSR, AddressingMode::AbsoluteX)),
        (0x60, Instruction::Misc(MiscMnemonic::RTS)),
        (0x61, Instruction::Read(ReadMnemonic::ADC, AddressingMode::IndexedIndirect)),
        (0x65, Instruction::Read(ReadMnemonic::ADC, AddressingMode::ZeroPage)),
        (0x66, Instruction::ReadModifyWrite(RMWMnemonic::ROR, AddressingMode::ZeroPage)),
        (0x68, Instruction::Pull(PullMnemonic::PLA)),
        (0x69, Instruction::Read(ReadMnemonic::ADC, AddressingMode::Immediate)),
        (0x6a, Instruction::SingleByte(SingleByteMnemonic::ROR)),
        (0x6c, Instruction::Jump(AddressingMode::Indirect)),
        (0x6d, Instruction::Read(ReadMnemonic::ADC, AddressingMode::Absolute)),
        (0x6e, Instruction::ReadModifyWrite(RMWMnemonic::ROR, AddressingMode::Absolute)),
        (0x70, Instruction::Branch(BranchMnemonic::BVS)),
        (0x71, Instruction::Read(ReadMnemonic::ADC, AddressingMode::IndirectIndexed)),
        (0x75, Instruction::Read(ReadMnemonic::ADC, AddressingMode::ZeroPageX)),
        (0x76, Instruction::ReadModifyWrite(RMWMnemonic::ROR, AddressingMode::ZeroPageX)),
        (0x78, Instruction::SingleByte(SingleByteMnemonic::SEI)),
        (0x79, Instruction::Read(ReadMnemonic::ADC, AddressingMode::AbsoluteY)),
        (0x7d, Instruction::Read(ReadMnemonic::ADC, AddressingMode::AbsoluteX)),
        (0x7e, Instruction::ReadModifyWrite(RMWMnemonic::ROR, AddressingMode::AbsoluteX)),
        (0x81, Instruction::Store(StoreMnemonic::STA, AddressingMode::IndexedIndirect)),
        (0x84, Instruction::Store(StoreMnemonic::STY, AddressingMode::ZeroPage)),
        (0x85, Instruction::Store(StoreMnemonic::STA, AddressingMode::ZeroPage)),
        (0x86, Instruction::Store(StoreMnemonic::STX, AddressingMode::ZeroPage)),
        (0x88, Instruction::SingleByte(SingleByteMnemonic::DEY)),
        (0x8a, Instruction::SingleByte(SingleByteMnemonic::TXA)),
        (0x8c, Instruction::Store(StoreMnemonic::STY, AddressingMode::Absolute)),
        (0x8d, Instruction::Store(StoreMnemonic::STA, AddressingMode::Absolute)),
        (0x8e, Instruction::Store(StoreMnemonic::STX, AddressingMode::Absolute)),
        (0x90, Instruction::Branch(BranchMnemonic::BCC)),
        (0x91, Instruction::Store(StoreMnemonic::STA, AddressingMode::IndirectIndexed)),
        (0x94, Instruction::Store(StoreMnemonic::STY, AddressingMode::ZeroPageX)),
        (0x95, Instruction::Store(StoreMnemonic::STA, AddressingMode::ZeroPageX)),
        (0x96, Instruction::Store(StoreMnemonic::STX, AddressingMode::ZeroPageY)),
        (0x98, Instruction::SingleByte(SingleByteMnemonic::TYA)),
        (0x99, Instruction::Store(StoreMnemonic::STA, AddressingMode::AbsoluteY)),
        (0x9a, Instruction::SingleByte(SingleByteMnemonic::TXS)),
        (0x9d, Instruction::Store(StoreMnemonic::STA, AddressingMode::AbsoluteX)),
        (0xa0, Instruction::Read(ReadMnemonic::LDY, AddressingMode::Immediate)),
        (0xa1, Instruction::Read(ReadMnemonic::LDA, AddressingMode::IndexedIndirect)),
        (0xa2, Instruction::Read(ReadMnemonic::LDX, AddressingMode::Immediate)),
        (0xa4, Instruction::Read(ReadMnemonic::LDY, AddressingMode::ZeroPage)),
        (0xa5, Instruction::Read(ReadMnemonic::LDA, AddressingMode::ZeroPage)),
        (0xa6, Instruction::Read(ReadMnemonic::LDX, AddressingMode::ZeroPage)),
        (0xa8, Instruction::SingleByte(SingleByteMnemonic::TAY)),
        (0xa9, Instruction::Read(ReadMnemonic::LDA, AddressingMode::Immediate)),
        (0xaa, Instruction::SingleByte(SingleByteMnemonic::TAX)),
        (0xac, Instruction::Read(ReadMnemonic::LDY, AddressingMode::Absolute)),
        (0xad, Instruction::Read(ReadMnemonic::LDA, AddressingMode::Absolute)),
        (0xae, Instruction::Read(ReadMnemonic::LDX, AddressingMode::Absolute)),
        (0xb0, Instruction::Branch(BranchMnemonic::BCS)),
        (0xb1, Instruction::Read(ReadMnemonic::LDA, AddressingMode::IndirectIndexed)),
        (0xb4, Instruction::Read(ReadMnemonic::LDY, AddressingMode::ZeroPageX)),
        (0xb5, Instruction::Read(ReadMnemonic::LDA, AddressingMode::ZeroPageX)),
        (0xb6, Instruction::Read(ReadMnemonic::LDX, AddressingMode::ZeroPageY)),
        (0xb8, Instruction::SingleByte(SingleByteMnemonic::CLV)),
        (0xb9, Instruction::Read(ReadMnemonic::LDA, AddressingMode::AbsoluteY)),
        (0xba, Instruction::SingleByte(SingleByteMnemonic::TSX)),
        (0xbc, Instruction::Read(ReadMnemonic::LDY, AddressingMode::AbsoluteX)),
        (0xbd, Instruction::Read(ReadMnemonic::LDA, AddressingMode::AbsoluteX)),
        (0xbe, Instruction::Read(ReadMnemonic::LDX, AddressingMode::AbsoluteY)),
        (0xc0, Instruction::Read(ReadMnemonic::CPY, AddressingMode::Immediate)),
        (0xc1, Instruction::Read(ReadMnemonic::CMP, AddressingMode::IndexedIndirect)),
        (0xc4, Instruction::Read(ReadMnemonic::CPY, AddressingMode::ZeroPage)),
        (0xc5, Instruction::Read(ReadMnemonic::CMP, AddressingMode::ZeroPage)),
        (0xc6, Instruction::ReadModifyWrite(RMWMnemonic::DEC, AddressingMode::ZeroPage)),
        (0xc8, Instruction::SingleByte(SingleByteMnemonic::INY)),
        (0xc9, Instruction::Read(ReadMnemonic::CMP, AddressingMode::Immediate)),
        (0xca, Instruction::SingleByte(SingleByteMnemonic::DEX)),
        (0xcc, Instruction::Read(ReadMnemonic::CPY, AddressingMode::Absolute)),
        (0xcd, Instruction::Read(ReadMnemonic::CMP, AddressingMode::Absolute)),
        (0xce, Instruction::ReadModifyWrite(RMWMnemonic::DEC, AddressingMode::Absolute)),
        (0xd0, Instruction::Branch(BranchMnemonic::BNE)),
        (0xd1, Instruction::Read(ReadMnemonic::CMP, AddressingMode::IndirectIndexed)),
        (0xd5, Instruction::Read(ReadMnemonic::CMP, AddressingMode::ZeroPageX)),
        (0xd6, Instruction::ReadModifyWrite(RMWMnemonic::DEC, AddressingMode::ZeroPageX)),
        (0xd8, Instruction::SingleByte(SingleByteMnemonic::CLD)),
        (0xd9, Instruction::Read(ReadMnemonic::CMP, AddressingMode::AbsoluteY)),
        (0xdd, Instruction::Read(ReadMnemonic::CMP, AddressingMode::AbsoluteX)),
        (0xde, Instruction::ReadModifyWrite(RMWMnemonic::DEC, AddressingMode::AbsoluteX)),
        (0xe0, Instruction::Read(ReadMnemonic::CPX, AddressingMode::Immediate)),
        (0xe1, Instruction::Read(ReadMnemonic::SBC, AddressingMode::IndexedIndirect)),
        (0xe4, Instruction::Read(ReadMnemonic::CPX, AddressingMode::ZeroPage)),
        (0xe5, Instruction::Read(ReadMnemonic::SBC, AddressingMode::ZeroPage)),
        (0xe6, Instruction::ReadModifyWrite(RMWMnemonic::INC, AddressingMode::ZeroPage)),
        (0xe8, Instruction::SingleByte(SingleByteMnemonic::INX)),
        (0xe9, Instruction::Read(ReadMnemonic::SBC, AddressingMode::Immediate)),
        (0xea, Instruction::SingleByte(SingleByteMnemonic::NOP)),
        (0xec, Instruction::Read(ReadMnemonic::CPX, AddressingMode::Absolute)),
        (0xed, Instruction::Read(ReadMnemonic::SBC, AddressingMode::Absolute)),
        (0xee, Instruction::ReadModifyWrite(RMWMnemonic::INC, AddressingMode::Absolute)),
        (0xf0, Instruction::Branch(BranchMnemonic::BEQ)),
        (0xf1, Instruction::Read(ReadMnemonic::SBC, AddressingMode::IndirectIndexed)),
        (0xf5, Instruction::Read(ReadMnemonic::SBC, AddressingMode::ZeroPageX)),
        (0xf6, Instruction::ReadModifyWrite(RMWMnemonic::INC, AddressingMode::ZeroPageX)),
        (0xf8, Instruction::SingleByte(SingleByteMnemonic::SED)),
        (0xf9, Instruction::Read(ReadMnemonic::SBC, AddressingMode::AbsoluteY)),
        (0xfd, Instruction::Read(ReadMnemonic::SBC, AddressingMode::AbsoluteX)),
        (0xfe, Instruction::ReadModifyWrite(RMWMnemonic::INC, AddressingMode::AbsoluteX)),
    ]
}

#[test]
fn decode_matches_published_table() {
    let table = published_table();
    assert_eq!(table.len(), 151);
    for (op, instruction) in &table {
        assert_eq!(decode(*op), Some(*instruction), "opcode {:#04x}", op);
    }
}

#[test]
fn decode_rejects_unassigned_opcodes() {
    let table = published_table();
    let mut assigned = 0;
    for op in 0..=255u8 {
        match decode(op) {
            Some(_) => {
                assigned += 1;
                assert!(table.iter().any(|(o, _)| *o == op));
            }
            None => assert!(!table.iter().any(|(o, _)| *o == op)),
        }
    }
    assert_eq!(assigned, 151);
    assert_eq!(decode(0x02), None);
    assert_eq!(decode(0x97), None);
    assert_eq!(decode(0xff), None);
    assert_eq!(decode(0x89), None);
}

#[test]
fn decode_examples() {
    assert_eq!(decode(0x69), Some(Instruction::Read(ReadMnemonic::ADC, AddressingMode::Immediate)));
    assert_eq!(decode(0x96), Some(Instruction::Store(StoreMnemonic::STX, AddressingMode::ZeroPageY)));
    assert_eq!(decode(0x0a), Some(Instruction::SingleByte(SingleByteMnemonic::ASL)));
    assert_eq!(decode(0x6c), Some(Instruction::Jump(AddressingMode::Indirect)));
    assert_eq!(decode(0xfe), Some(Instruction::ReadModifyWrite(RMWMnemonic::INC, AddressingMode::AbsoluteX)));
    assert_eq!(decode(0x48), Some(Instruction::Push(PushMnemonic::PHA)));
    assert_eq!(decode(0x28), Some(Instruction::Pull(PullMnemonic::PLP)));
    assert_eq!(decode(0x70), Some(Instruction::Branch(BranchMnemonic::BVS)));
    assert_eq!(decode(0x00), Some(Instruction::Misc(MiscMnemonic::BRK)));
}
