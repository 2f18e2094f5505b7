//! Instruction groups, their mnemonics and addressing modes, and the opcode
//! table that maps a byte to an instruction.
use vstd::prelude::*;

verus! {

/// How an instruction locates its operand.
#[derive(Clone, Copy, Debug, PartialEq, Eq, Structural)]
pub enum AddressingMode {
    Accumulator,
    Immediate,
    ZeroPage,
    ZeroPageX,
    ZeroPageY,
    Absolute,
    AbsoluteX,
    AbsoluteY,
    Implied,
    Relative,
    IndexedIndirect,
    IndirectIndexed,
    Indirect,
}

/// Instructions with no memory operand.
#[derive(Clone, Copy, Debug, PartialEq, Eq, Structural)]
pub enum SingleByteMnemonic {
    ASL,
    CLC,
    CLD,
    CLI,
    CLV,
    DEX,
    DEY,
    INX,
    INY,
    LSR,
    NOP,
    ROL,
    ROR,
    SEC,
    SED,
    SEI,
    TAX,
    TAY,
    TSX,
    TXA,
    TXS,
    TYA,
}

/// Instructions that read one operand byte from memory.
#[derive(Clone, Copy, Debug, PartialEq, Eq, Structural)]
pub enum ReadMnemonic {
    ADC,
    AND,
    BIT,
    CMP,
    CPX,
    CPY,
    EOR,
    LDA,
    LDX,
    LDY,
    ORA,
    SBC,
}

/// Instructions that write a register to memory.
#[derive(Clone, Copy, Debug, PartialEq, Eq, Structural)]
pub enum StoreMnemonic {
    STA,
    STX,
    STY,
}

/// Instructions that read, modify and write back a memory byte.
#[derive(Clone, Copy, Debug, PartialEq, Eq, Structural)]
pub enum RMWMnemonic {
    ASL,
    DEC,
    INC,
    LSR,
    ROL,
    ROR,
}

/// Instructions that push a register on the stack.
#[derive(Clone, Copy, Debug, PartialEq, Eq, Structural)]
pub enum PushMnemonic {
    PHA,
    PHP,
}

/// Instructions that pull a register from the stack.
#[derive(Clone, Copy, Debug, PartialEq, Eq, Structural)]
pub enum PullMnemonic {
    PLA,
    PLP,
}

/// Conditional relative branches.
#[derive(Clone, Copy, Debug, PartialEq, Eq, Structural)]
pub enum BranchMnemonic {
    BCC,
    BCS,
    BEQ,
    BMI,
    BNE,
    BPL,
    BVC,
    BVS,
}

/// Subroutine and interrupt control.
#[derive(Clone, Copy, Debug, PartialEq, Eq, Structural)]
pub enum MiscMnemonic {
    JSR,
    BRK,
    RTI,
    RTS,
}

/// A decoded instruction: its group, mnemonic and, where the group has
/// several, its addressing mode.
#[derive(Clone, Copy, Debug, PartialEq, Eq, Structural)]
pub enum Instruction {
    SingleByte(SingleByteMnemonic),
    Read(ReadMnemonic, AddressingMode),
    Store(StoreMnemonic, AddressingMode),
    ReadModifyWrite(RMWMnemonic, AddressingMode),
    Push(PushMnemonic),
    Pull(PullMnemonic),
    Branch(BranchMnemonic),
    Jump(AddressingMode),
    Misc(MiscMnemonic),
}

/// The addressing modes that locate an operand in memory through the
/// resolver (every mode but Accumulator, Implied, Relative and Indirect).
pub open spec fn is_resolvable(am: AddressingMode) -> bool {
    match am {
        AddressingMode::Immediate
        | AddressingMode::ZeroPage
        | AddressingMode::ZeroPageX
        | AddressingMode::ZeroPageY
        | AddressingMode::Absolute
        | AddressingMode::AbsoluteX
        | AddressingMode::AbsoluteY
        | AddressingMode::IndexedIndirect
        | AddressingMode::IndirectIndexed => true,
        _ => false,
    }
}

/// Offset of a mode within the eight-opcode column of the chip's
/// "group one" instructions (ORA, AND, EOR, ADC, STA, LDA, CMP, SBC).
pub open spec fn group_one_offset(am: AddressingMode) -> Option<int> {
    match am {
        AddressingMode::IndexedIndirect => Some(0x00),
        AddressingMode::ZeroPage => Some(0x04),
        AddressingMode::Immediate => Some(0x08),
        AddressingMode::Absolute => Some(0x0c),
        AddressingMode::IndirectIndexed => Some(0x10),
        AddressingMode::ZeroPageX => Some(0x14),
        AddressingMode::AbsoluteY => Some(0x18),
        AddressingMode::AbsoluteX => Some(0x1c),
        _ => None,
    }
}

/// Offset of a mode within the column of a memory shift, rotate or
/// increment (ASL, ROL, LSR, ROR, DEC, INC on memory).
pub open spec fn rmw_offset(am: AddressingMode) -> Option<int> {
    match am {
        AddressingMode::ZeroPage => Some(0x04),
        AddressingMode::Absolute => Some(0x0c),
        AddressingMode::ZeroPageX => Some(0x14),
        AddressingMode::AbsoluteX => Some(0x1c),
        _ => None,
    }
}

/// The opcode of `base` plus the offset of a mode, where the mode exists.
pub open spec fn in_column(base: int, offset: Option<int>) -> Option<u8> {
    match offset {
        Some(o) => Some((base + o) as u8),
        None => None,
    }
}

pub open spec fn read_opcode(m: ReadMnemonic, am: AddressingMode) -> Option<u8> {
    match m {
        ReadMnemonic::ORA => in_column(0x01, group_one_offset(am)),
        ReadMnemonic::AND => in_column(0x21, group_one_offset(am)),
        ReadMnemonic::EOR => in_column(0x41, group_one_offset(am)),
        ReadMnemonic::ADC => in_column(0x61, group_one_offset(am)),
        ReadMnemonic::LDA => in_column(0xa1, group_one_offset(am)),
        ReadMnemonic::CMP => in_column(0xc1, group_one_offset(am)),
        ReadMnemonic::SBC => in_column(0xe1, group_one_offset(am)),
        ReadMnemonic::BIT => match am {
            AddressingMode::ZeroPage => Some(0x24),
            AddressingMode::Absolute => Some(0x2c),
            _ => None,
        },
        ReadMnemonic::CPX => match am {
            AddressingMode::Immediate => Some(0xe0),
            AddressingMode::ZeroPage => Some(0xe4),
            AddressingMode::Absolute => Some(0xec),
            _ => None,
        },
        ReadMnemonic::CPY => match am {
            AddressingMode::Immediate => Some(0xc0),
            AddressingMode::ZeroPage => Some(0xc4),
            AddressingMode::Absolute => Some(0xcc),
            _ => None,
        },
        ReadMnemonic::LDX => match am {
            AddressingMode::Immediate => Some(0xa2),
            AddressingMode::ZeroPage => Some(0xa6),
            AddressingMode::ZeroPageY => Some(0xb6),
            AddressingMode::Absolute => Some(0xae),
            AddressingMode::AbsoluteY => Some(0xbe),
            _ => None,
        },
        ReadMnemonic::LDY => match am {
            AddressingMode::Immediate => Some(0xa0),
            AddressingMode::ZeroPage => Some(0xa4),
            AddressingMode::ZeroPageX => Some(0xb4),
            AddressingMode::Absolute => Some(0xac),
            AddressingMode::AbsoluteX => Some(0xbc),
            _ => None,
        },
    }
}

pub open spec fn store_opcode(m: StoreMnemonic, am: AddressingMode) -> Option<u8> {
    match m {
        StoreMnemonic::STA => match am {
            AddressingMode::Immediate => None,
            _ => in_column(0x81, group_one_offset(am)),
        },
        StoreMnemonic::STX => match am {
            AddressingMode::ZeroPage => Some(0x86),
            AddressingMode::ZeroPageY => Some(0x96),
            AddressingMode::Absolute => Some(0x8e),
            _ => None,
        },
        StoreMnemonic::STY => match am {
            AddressingMode::ZeroPage => Some(0x84),
            AddressingMode::ZeroPageX => Some(0x94),
            AddressingMode::Absolute => Some(0x8c),
            _ => None,
        },
    }
}

pub open spec fn rmw_opcode(m: RMWMnemonic, am: AddressingMode) -> Option<u8> {
    match m {
        RMWMnemonic::ASL => in_column(0x02, rmw_offset(am)),
        RMWMnemonic::ROL => in_column(0x22, rmw_offset(am)),
        RMWMnemonic::LSR => in_column(0x42, rmw_offset(am)),
        RMWMnemonic::ROR => in_column(0x62, rmw_offset(am)),
        RMWMnemonic::DEC => in_column(0xc2, rmw_offset(am)),
        RMWMnemonic::INC => in_column(0xe2, rmw_offset(am)),
    }
}

/// The opcode of an instruction with no operand bytes. The accumulator forms
/// of ASL, LSR, ROL and ROR belong here: they touch no memory.
pub open spec fn single_byte_opcode(m: SingleByteMnemonic) -> u8 {
    match m {
        SingleByteMnemonic::ASL => 0x0a,
        SingleByteMnemonic::ROL => 0x2a,
        SingleByteMnemonic::LSR => 0x4a,
        SingleByteMnemonic::ROR => 0x6a,
        SingleByteMnemonic::CLC => 0x18,
        SingleByteMnemonic::SEC => 0x38,
        SingleByteMnemonic::CLI => 0x58,
        SingleByteMnemonic::SEI => 0x78,
        SingleByteMnemonic::CLV => 0xb8,
        SingleByteMnemonic::CLD => 0xd8,
        SingleByteMnemonic::SED => 0xf8,
        SingleByteMnemonic::DEY => 0x88,
        SingleByteMnemonic::DEX => 0xca,
        SingleByteMnemonic::INY => 0xc8,
        SingleByteMnemonic::INX => 0xe8,
        SingleByteMnemonic::NOP => 0xea,
        SingleByteMnemonic::TXA => 0x8a,
        SingleByteMnemonic::TYA => 0x98,
        SingleByteMnemonic::TXS => 0x9a,
        SingleByteMnemonic::TAY => 0xa8,
        SingleByteMnemonic::TAX => 0xaa,
        SingleByteMnemonic::TSX => 0xba,
    }
}

/// Branch opcodes run from 0x10 in steps of 0x20.
pub open spec fn branch_opcode(m: BranchMnemonic) -> u8 {
    match m {
        BranchMnemonic::BPL => 0x10,
        BranchMnemonic::BMI => 0x30,
        BranchMnemonic::BVC => 0x50,
        BranchMnemonic::BVS => 0x70,
        BranchMnemonic::BCC => 0x90,
        BranchMnemonic::BCS => 0xb0,
        BranchMnemonic::BNE => 0xd0,
        BranchMnemonic::BEQ => 0xf0,
    }
}

/// The opcode that encodes `i` on the 6502, or `None` where the chip has no
/// such instruction. This is the published instruction table, read by
/// instruction rather than by opcode.
pub open spec fn opcode_of(i: Instruction) -> Option<u8> {
    match i {
        Instruction::SingleByte(m) => Some(single_byte_opcode(m)),
        Instruction::Read(m, am) => read_opcode(m, am),
        Instruction::Store(m, am) => store_opcode(m, am),
        Instruction::ReadModifyWrite(m, am) => rmw_opcode(m, am),
        Instruction::Push(m) => match m {
            PushMnemonic::PHP => Some(0x08),
            PushMnemonic::PHA => Some(0x48),
        },
        Instruction::Pull(m) => match m {
            PullMnemonic::PLP => Some(0x28),
            PullMnemonic::PLA => Some(0x68),
        },
        Instruction::Branch(m) => Some(branch_opcode(m)),
        Instruction::Jump(am) => match am {
            AddressingMode::Absolute => Some(0x4c),
            AddressingMode::Indirect => Some(0x6c),
            _ => None,
        },
        Instruction::Misc(m) => match m {
            MiscMnemonic::BRK => Some(0x00),
            MiscMnemonic::JSR => Some(0x20),
            MiscMnemonic::RTI => Some(0x40),
            MiscMnemonic::RTS => Some(0x60),
        },
    }
}

/// Every read instruction that has an opcode uses a mode that the resolver
/// handles.
pub proof fn lemma_read_modes_resolvable(m: ReadMnemonic, am: AddressingMode)
    requires
        opcode_of(Instruction::Read(m, am)) is Some,
    ensures
        is_resolvable(am),
{
}

/// The instruction that `op` encodes, if any.
pub open spec fn instruction_of(op: u8) -> Option<Instruction> {
    if exists|i: Instruction| opcode_of(i) == Some(op) {
        Some(choose|i: Instruction| opcode_of(i) == Some(op))
    } else {
        None
    }
}

/// An opcode that at most one instruction has names that instruction.
pub proof fn lemma_instruction_of(op: u8, r: Option<Instruction>)
    requires
        forall|i: Instruction| #[trigger] opcode_of(i) == Some(op) <==> r == Some(i),
    ensures
        r == instruction_of(op),
{
    if let Some(i) = r {
        assert(opcode_of(i) == Some(op));
    }
}

/// The instruction that an opcode of the table names is the one it was
/// listed for: no two instructions share an opcode.
pub proof fn lemma_instruction_of_opcode(i: Instruction)
    requires
        opcode_of(i) is Some,
    ensures
        instruction_of(opcode_of(i)->0) == Some(i),
{
    match i {
        Instruction::SingleByte(m) => lemma_single_byte_unique(m),
        Instruction::Read(m, am) => lemma_read_unique(m, am),
        _ => lemma_other_unique(i),
    }
}

proof fn lemma_single_byte_unique(m: SingleByteMnemonic)
    ensures
        instruction_of(single_byte_opcode(m)) == Some(Instruction::SingleByte(m)),
{
    let i = Instruction::SingleByte(m);
    assert(opcode_of(i) == Some(single_byte_opcode(m)));
    assert(forall|j: Instruction| #[trigger] opcode_of(j) == Some(single_byte_opcode(m)) ==> j == i);
}

proof fn lemma_read_unique(m: ReadMnemonic, am: AddressingMode)
    requires
        read_opcode(m, am) is Some,
    ensures
        instruction_of(read_opcode(m, am)->0) == Some(Instruction::Read(m, am)),
{
    let i = Instruction::Read(m, am);
    assert(opcode_of(i) == read_opcode(m, am));
    assert(forall|j: Instruction| #[trigger] opcode_of(j) == read_opcode(m, am) ==> j == i);
}

proof fn lemma_other_unique(i: Instruction)
    requires
        opcode_of(i) is Some,
        !(i is SingleByte),
        !(i is Read),
    ensures
        instruction_of(opcode_of(i)->0) == Some(i),
{
    assert(forall|j: Instruction| #[trigger] opcode_of(j) == opcode_of(i) ==> j == i);
}

/// Looks up the instruction that `opcode` encodes; `None` where the table
/// holds none. No two instructions share an opcode.
pub fn decode(opcode: u8) -> (r: Option<Instruction>)
    ensures
        forall|i: Instruction| #[trigger] opcode_of(i) == Some(opcode) <==> r == Some(i),
{
    match opcode {
        0x00 => Some(Instruction::Misc(MiscMnemonic::BRK)),
        0x01 => Some(Instruction::Read(ReadMnemonic::ORA, AddressingMode::IndexedIndirect)),
        0x05 => Some(Instruction::Read(ReadMnemonic::ORA, AddressingMode::ZeroPage)),
        0x06 => Some(Instruction::ReadModifyWrite(RMWMnemonic::ASL, AddressingMode::ZeroPage)),
        0x08 => Some(Instruction::Push(PushMnemonic::PHP)),
        0x09 => Some(Instruction::Read(ReadMnemonic::ORA, AddressingMode::Immediate)),
        0x0a => Some(Instruction::SingleByte(SingleByteMnemonic::ASL)),
        0x0d => Some(Instruction::Read(ReadMnemonic::ORA, AddressingMode::Absolute)),
        0x0e => Some(Instruction::ReadModifyWrite(RMWMnemonic::ASL, AddressingMode::Absolute)),
        0x10 => Some(Instruction::Branch(BranchMnemonic::BPL)),
        0x11 => Some(Instruction::Read(ReadMnemonic::ORA, AddressingMode::IndirectIndexed)),
        0x15 => Some(Instruction::Read(ReadMnemonic::ORA, AddressingMode::ZeroPageX)),
        0x16 => Some(Instruction::ReadModifyWrite(RMWMnemonic::ASL, AddressingMode::ZeroPageX)),
        0x18 => Some(Instruction::SingleByte(SingleByteMnemonic::CLC)),
        0x19 => Some(Instruction::Read(ReadMnemonic::ORA, AddressingMode::AbsoluteY)),
        0x1d => Some(Instruction::Read(ReadMnemonic::ORA, AddressingMode::AbsoluteX)),
        0x1e => Some(Instruction::ReadModifyWrite(RMWMnemonic::ASL, AddressingMode::AbsoluteX)),
        0x20 => Some(Instruction::Misc(MiscMnemonic::JSR)),
        0x21 => Some(Instruction::Read(ReadMnemonic::AND, AddressingMode::IndexedIndirect)),
        0x24 => Some(Instruction::Read(ReadMnemonic::BIT, AddressingMode::ZeroPage)),
        0x25 => Some(Instruction::Read(ReadMnemonic::AND, AddressingMode::ZeroPage)),
        0x26 => Some(Instruction::ReadModifyWrite(RMWMnemonic::ROL, AddressingMode::ZeroPage)),
        0x28 => Some(Instruction::Pull(PullMnemonic::PLP)),
        0x29 => Some(Instruction::Read(ReadMnemonic::AND, AddressingMode::Immediate)),
        0x2a => Some(Instruction::SingleByte(SingleByteMnemonic::ROL)),
        0x2c => Some(Instruction::Read(ReadMnemonic::BIT, AddressingMode::Absolute)),
        0x2d => Some(Instruction::Read(ReadMnemonic::AND, AddressingMode::Absolute)),
        0x2e => Some(Instruction::ReadModifyWrite(RMWMnemonic::ROL, AddressingMode::Absolute)),
        0x30 => Some(Instruction::Branch(BranchMnemonic::BMI)),
        0x31 => Some(Instruction::Read(ReadMnemonic::AND, AddressingMode::IndirectIndexed)),
        0x35 => Some(Instruction::Read(ReadMnemonic::AND, AddressingMode::ZeroPageX)),
        0x36 => Some(Instruction::ReadModifyWrite(RMWMnemonic::ROL, AddressingMode::ZeroPageX)),
        0x38 => Some(Instruction::SingleByte(SingleByteMnemonic::SEC)),
        0x39 => Some(Instruction::Read(ReadMnemonic::AND, AddressingMode::AbsoluteY)),
        0x3d => Some(Instruction::Read(ReadMnemonic::AND, AddressingMode::AbsoluteX)),
        0x3e => Some(Instruction::ReadModifyWrite(RMWMnemonic::ROL, AddressingMode::AbsoluteX)),
        0x40 => Some(Instruction::Misc(MiscMnemonic::RTI)),
        0x41 => Some(Instruction::Read(ReadMnemonic::EOR, AddressingMode::IndexedIndirect)),
        0x45 => Some(Instruction::Read(ReadMnemonic::EOR, AddressingMode::ZeroPage)),
        0x46 => Some(Instruction::ReadModifyWrite(RMWMnemonic::LSR, AddressingMode::ZeroPage)),
        0x48 => Some(Instruction::Push(PushMnemonic::PHA)),
        0x49 => Some(Instruction::Read(ReadMnemonic::EOR, AddressingMode::Immediate)),
        0x4a => Some(Instruction::SingleByte(SingleByteMnemonic::LSR)),
        0x4c => Some(Instruction::Jump(AddressingMode::Absolute)),
        0x4d => Some(Instruction::Read(ReadMnemonic::EOR, AddressingMode::Absolute)),
        0x4e => Some(Instruction::ReadModifyWrite(RMWMnemonic::LSR, AddressingMode::Absolute)),
        0x50 => Some(Instruction::Branch(BranchMnemonic::BVC)),
        0x51 => Some(Instruction::Read(ReadMnemonic::EOR, AddressingMode::IndirectIndexed)),
        0x55 => Some(Instruction::Read(ReadMnemonic::EOR, AddressingMode::ZeroPageX)),
        0x56 => Some(Instruction::ReadModifyWrite(RMWMnemonic::LSR, AddressingMode::ZeroPageX)),
        0x58 => Some(Instruction::SingleByte(SingleByteMnemonic::CLI)),
        0x59 => Some(Instruction::Read(ReadMnemonic::EOR, AddressingMode::AbsoluteY)),
        0x5d => Some(Instruction::Read(ReadMnemonic::EOR, AddressingMode::AbsoluteX)),
        0x5e => Some(Instruction::ReadModifyWrite(RMWMnemonic::LSR, AddressingMode::AbsoluteX)),
        0x60 => Some(Instruction::Misc(MiscMnemonic::RTS)),
        0x61 => Some(Instruction::Read(ReadMnemonic::ADC, AddressingMode::IndexedIndirect)),
        0x65 => Some(Instruction::Read(ReadMnemonic::ADC, AddressingMode::ZeroPage)),
        0x66 => Some(Instruction::ReadModifyWrite(RMWMnemonic::ROR, AddressingMode::ZeroPage)),
        0x68 => Some(Instruction::Pull(PullMnemonic::PLA)),
        0x69 => Some(Instruction::Read(ReadMnemonic::ADC, AddressingMode::Immediate)),
        0x6a => Some(Instruction::SingleByte(SingleByteMnemonic::ROR)),
        0x6c => Some(Instruction::Jump(AddressingMode::Indirect)),
        0x6d => Some(Instruction::Read(ReadMnemonic::ADC, AddressingMode::Absolute)),
        0x6e => Some(Instruction::ReadModifyWrite(RMWMnemonic::ROR, AddressingMode::Absolute)),
        0x70 => Some(Instruction::Branch(BranchMnemonic::BVS)),
        0x71 => Some(Instruction::Read(ReadMnemonic::ADC, AddressingMode::IndirectIndexed)),
        0x75 => Some(Instruction::Read(ReadMnemonic::ADC, AddressingMode::ZeroPageX)),
        0x76 => Some(Instruction::ReadModifyWrite(RMWMnemonic::ROR, AddressingMode::ZeroPageX)),
        0x78 => Some(Instruction::SingleByte(SingleByteMnemonic::SEI)),
        0x79 => Some(Instruction::Read(ReadMnemonic::ADC, AddressingMode::AbsoluteY)),
        0x7d => Some(Instruction::Read(ReadMnemonic::ADC, AddressingMode::AbsoluteX)),
        0x7e => Some(Instruction::ReadModifyWrite(RMWMnemonic::ROR, AddressingMode::AbsoluteX)),
        0x81 => Some(Instruction::Store(StoreMnemonic::STA, AddressingMode::IndexedIndirect)),
        0x84 => Some(Instruction::Store(StoreMnemonic::STY, AddressingMode::ZeroPage)),
        0x85 => Some(Instruction::Store(StoreMnemonic::STA, AddressingMode::ZeroPage)),
        0x86 => Some(Instruction::Store(StoreMnemonic::STX, AddressingMode::ZeroPage)),
        0x88 => Some(Instruction::SingleByte(SingleByteMnemonic::DEY)),
        0x8a => Some(Instruction::SingleByte(SingleByteMnemonic::TXA)),
        0x8c => Some(Instruction::Store(StoreMnemonic::STY, AddressingMode::Absolute)),
        0x8d => Some(Instruction::Store(StoreMnemonic::STA, AddressingMode::Absolute)),
        0x8e => Some(Instruction::Store(StoreMnemonic::STX, AddressingMode::Absolute)),
        0x90 => Some(Instruction::Branch(BranchMnemonic::BCC)),
        0x91 => Some(Instruction::Store(StoreMnemonic::STA, AddressingMode::IndirectIndexed)),
        0x94 => Some(Instruction::Store(StoreMnemonic::STY, AddressingMode::ZeroPageX)),
        0x95 => Some(Instruction::Store(StoreMnemonic::STA, AddressingMode::ZeroPageX)),
        0x96 => Some(Instruction::Store(StoreMnemonic::STX, AddressingMode::ZeroPageY)),
        0x98 => Some(Instruction::SingleByte(SingleByteMnemonic::TYA)),
        0x99 => Some(Instruction::Store(StoreMnemonic::STA, AddressingMode::AbsoluteY)),
        0x9a => Some(Instruction::SingleByte(SingleByteMnemonic::TXS)),
        0x9d => Some(Instruction::Store(StoreMnemonic::STA, AddressingMode::AbsoluteX)),
        0xa0 => Some(Instruction::Read(ReadMnemonic::LDY, AddressingMode::Immediate)),
        0xa1 => Some(Instruction::Read(ReadMnemonic::LDA, AddressingMode::IndexedIndirect)),
        0xa2 => Some(Instruction::Read(ReadMnemonic::LDX, AddressingMode::Immediate)),
        0xa4 => Some(Instruction::Read(ReadMnemonic::LDY, AddressingMode::ZeroPage)),
        0xa5 => Some(Instruction::Read(ReadMnemonic::LDA, AddressingMode::ZeroPage)),
        0xa6 => Some(Instruction::Read(ReadMnemonic::LDX, AddressingMode::ZeroPage)),
        0xa8 => Some(Instruction::SingleByte(SingleByteMnemonic::TAY)),
        0xa9 => Some(Instruction::Read(ReadMnemonic::LDA, AddressingMode::Immediate)),
        0xaa => Some(Instruction::SingleByte(SingleByteMnemonic::TAX)),
        0xac => Some(Instruction::Read(ReadMnemonic::LDY, AddressingMode::Absolute)),
        0xad => Some(Instruction::Read(ReadMnemonic::LDA, AddressingMode::Absolute)),
        0xae => Some(Instruction::Read(ReadMnemonic::LDX, AddressingMode::Absolute)),
        0xb0 => Some(Instruction::Branch(BranchMnemonic::BCS)),
        0xb1 => Some(Instruction::Read(ReadMnemonic::LDA, AddressingMode::IndirectIndexed)),
        0xb4 => Some(Instruction::Read(ReadMnemonic::LDY, AddressingMode::ZeroPageX)),
        0xb5 => Some(Instruction::Read(ReadMnemonic::LDA, AddressingMode::ZeroPageX)),
        0xb6 => Some(Instruction::Read(ReadMnemonic::LDX, AddressingMode::ZeroPageY)),
        0xb8 => Some(Instruction::SingleByte(SingleByteMnemonic::CLV)),
        0xb9 => Some(Instruction::Read(ReadMnemonic::LDA, AddressingMode::AbsoluteY)),
        0xba => Some(Instruction::SingleByte(SingleByteMnemonic::TSX)),
        0xbc => Some(Instruction::Read(ReadMnemonic::LDY, AddressingMode::AbsoluteX)),
        0xbd => Some(Instruction::Read(ReadMnemonic::LDA, AddressingMode::AbsoluteX)),
        0xbe => Some(Instruction::Read(ReadMnemonic::LDX, AddressingMode::AbsoluteY)),
        0xc0 => Some(Instruction::Read(ReadMnemonic::CPY, AddressingMode::Immediate)),
        0xc1 => Some(Instruction::Read(ReadMnemonic::CMP, AddressingMode::IndexedIndirect)),
        0xc4 => Some(Instruction::Read(ReadMnemonic::CPY, AddressingMode::ZeroPage)),
        0xc5 => Some(Instruction::Read(ReadMnemonic::CMP, AddressingMode::ZeroPage)),
        0xc6 => Some(Instruction::ReadModifyWrite(RMWMnemonic::DEC, AddressingMode::ZeroPage)),
        0xc8 => Some(Instruction::SingleByte(SingleByteMnemonic::INY)),
        0xc9 => Some(Instruction::Read(ReadMnemonic::CMP, AddressingMode::Immediate)),
        0xca => Some(Instruction::SingleByte(SingleByteMnemonic::DEX)),
        0xcc => Some(Instruction::Read(ReadMnemonic::CPY, AddressingMode::Absolute)),
        0xcd => Some(Instruction::Read(ReadMnemonic::CMP, AddressingMode::Absolute)),
        0xce => Some(Instruction::ReadModifyWrite(RMWMnemonic::DEC, AddressingMode::Absolute)),
        0xd0 => Some(Instruction::Branch(BranchMnemonic::BNE)),
        0xd1 => Some(Instruction::Read(ReadMnemonic::CMP, AddressingMode::IndirectIndexed)),
        0xd5 => Some(Instruction::Read(ReadMnemonic::CMP, AddressingMode::ZeroPageX)),
        0xd6 => Some(Instruction::ReadModifyWrite(RMWMnemonic::DEC, AddressingMode::ZeroPageX)),
        0xd8 => Some(Instruction::SingleByte(SingleByteMnemonic::CLD)),
        0xd9 => Some(Instruction::Read(ReadMnemonic::CMP, AddressingMode::AbsoluteY)),
        0xdd => Some(Instruction::Read(ReadMnemonic::CMP, AddressingMode::AbsoluteX)),
        0xde => Some(Instruction::ReadModifyWrite(RMWMnemonic::DEC, AddressingMode::AbsoluteX)),
        0xe0 => Some(Instruction::Read(ReadMnemonic::CPX, AddressingMode::Immediate)),
        0xe1 => Some(Instruction::Read(ReadMnemonic::SBC, AddressingMode::IndexedIndirect)),
        0xe4 => Some(Instruction::Read(ReadMnemonic::CPX, AddressingMode::ZeroPage)),
        0xe5 => Some(Instruction::Read(ReadMnemonic::SBC, AddressingMode::ZeroPage)),
        0xe6 => Some(Instruction::ReadModifyWrite(RMWMnemonic::INC, AddressingMode::ZeroPage)),
        0xe8 => Some(Instruction::SingleByte(SingleByteMnemonic::INX)),
        0xe9 => Some(Instruction::Read(ReadMnemonic::SBC, AddressingMode::Immediate)),
        0xea => Some(Instruction::SingleByte(SingleByteMnemonic::NOP)),
        0xec => Some(Instruction::Read(ReadMnemonic::CPX, AddressingMode::Absolute)),
        0xed => Some(Instruction::Read(ReadMnemonic::SBC, AddressingMode::Absolute)),
        0xee => Some(Instruction::ReadModifyWrite(RMWMnemonic::INC, AddressingMode::Absolute)),
        0xf0 => Some(Instruction::Branch(BranchMnemonic::BEQ)),
        0xf1 => Some(Instruction::Read(ReadMnemonic::SBC, AddressingMode::IndirectIndexed)),
        0xf5 => Some(Instruction::Read(ReadMnemonic::SBC, AddressingMode::ZeroPageX)),
        0xf6 => Some(Instruction::ReadModifyWrite(RMWMnemonic::INC, AddressingMode::ZeroPageX)),
        0xf8 => Some(Instruction::SingleByte(SingleByteMnemonic::SED)),
        0xf9 => Some(Instruction::Read(ReadMnemonic::SBC, AddressingMode::AbsoluteY)),
        0xfd => Some(Instruction::Read(ReadMnemonic::SBC, AddressingMode::AbsoluteX)),
        0xfe => Some(Instruction::ReadModifyWrite(RMWMnemonic::INC, AddressingMode::AbsoluteX)),
        _ => None,
    }
}

} // verus!
