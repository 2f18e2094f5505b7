//! The meaning of one instruction step, as spec functions over registers,
//! memory contents and the cycle count.
use vstd::prelude::*;

use crate::cpu::{BitZeroRule, CpuView, Error, Registers, MAX_STEP_CYCLES};
use crate::instruction::{
    AddressingMode, BranchMnemonic, Instruction, ReadMnemonic, SingleByteMnemonic,
    instruction_of,
};
use crate::status::{bit_of, weight_if, StatusRegister};

verus! {

/// `x` reduced to a byte, two's complement.
pub open spec fn wrap8(x: int) -> u8 {
    (x % 256) as u8
}

/// `x` reduced to a 16-bit address.
pub open spec fn wrap16(x: int) -> u16 {
    (x % 0x10000) as u16
}

/// The address with low byte `low` and high byte `high`.
pub open spec fn address_of(low: u8, high: u8) -> u16 {
    (low + 256 * high) as u16
}

/// The 256-byte page that an address lies in.
pub open spec fn page_of(a: u16) -> int {
    a as int / 256
}

/// A byte read as a two's-complement number in -128..=127.
pub open spec fn signed(b: u8) -> int {
    if b < 128 {
        b as int
    } else {
        b - 256
    }
}

/// Bit 7 of a byte.
pub open spec fn is_negative(v: u8) -> bool {
    v >= 0x80
}

/// Two bytes with the same bit 7.
pub open spec fn same_sign_spec(lhs: u8, rhs: u8) -> bool {
    is_negative(lhs) == is_negative(rhs)
}

/// The zero and negative flags set from a result byte.
pub open spec fn with_zn(p: StatusRegister, v: u8) -> StatusRegister {
    StatusRegister { zero: v == 0, negative: is_negative(v), ..p }
}

pub open spec fn with_a(r: Registers, v: u8) -> Registers {
    Registers { a: v, p: with_zn(r.p, v), ..r }
}

pub open spec fn with_x(r: Registers, v: u8) -> Registers {
    Registers { x: v, p: with_zn(r.p, v), ..r }
}

pub open spec fn with_y(r: Registers, v: u8) -> Registers {
    Registers { y: v, p: with_zn(r.p, v), ..r }
}

pub open spec fn with_carry(r: Registers, c: bool) -> Registers {
    Registers { p: StatusRegister { carry: c, ..r.p }, ..r }
}

/// What an instruction of the single-byte group does to the registers; the
/// program counter is left to the caller. Shifts and rotates act on A.
pub open spec fn single_byte_effect(m: SingleByteMnemonic, r: Registers) -> Registers {
    let c = weight_if(r.p.carry, 1);
    match m {
        SingleByteMnemonic::ASL => with_a(with_carry(r, r.a >= 0x80), wrap8(2 * r.a)),
        SingleByteMnemonic::LSR => with_a(with_carry(r, r.a % 2 == 1), r.a / 2),
        SingleByteMnemonic::ROL => with_a(with_carry(r, r.a >= 0x80), wrap8(2 * r.a + c)),
        SingleByteMnemonic::ROR => with_a(with_carry(r, r.a % 2 == 1), (r.a / 2 + 128 * c) as u8),
        SingleByteMnemonic::CLC => with_carry(r, false),
        SingleByteMnemonic::SEC => with_carry(r, true),
        SingleByteMnemonic::CLD => Registers { p: StatusRegister { decimal_mode: false, ..r.p }, ..r },
        SingleByteMnemonic::SED => Registers { p: StatusRegister { decimal_mode: true, ..r.p }, ..r },
        SingleByteMnemonic::CLI => Registers { p: StatusRegister { irq_disabled: false, ..r.p }, ..r },
        SingleByteMnemonic::SEI => Registers { p: StatusRegister { irq_disabled: true, ..r.p }, ..r },
        SingleByteMnemonic::CLV => Registers { p: StatusRegister { overflow: false, ..r.p }, ..r },
        SingleByteMnemonic::DEX => with_x(r, wrap8(r.x - 1)),
        SingleByteMnemonic::DEY => with_y(r, wrap8(r.y - 1)),
        SingleByteMnemonic::INX => with_x(r, wrap8(r.x + 1)),
        SingleByteMnemonic::INY => with_y(r, wrap8(r.y + 1)),
        SingleByteMnemonic::NOP => r,
        SingleByteMnemonic::TAX => with_x(r, r.a),
        SingleByteMnemonic::TAY => with_y(r, r.a),
        SingleByteMnemonic::TSX => with_x(r, r.s),
        SingleByteMnemonic::TXA => with_a(r, r.x),
        SingleByteMnemonic::TXS => Registers { s: r.x, ..r },
        SingleByteMnemonic::TYA => with_a(r, r.y),
    }
}

/// ADC in binary mode: the operand plus the carry, wrapped to a byte, is
/// added to A. Decimal mode is not supported (see `dispatch_spec`).
pub open spec fn adc_effect(r: Registers, operand: u8) -> Registers {
    let eff = wrap8(operand + weight_if(r.p.carry, 1));
    let res = wrap8(r.a + eff);
    let p = StatusRegister {
        carry: r.a > 255 - eff,
        overflow: same_sign_spec(r.a, operand) && !same_sign_spec(r.a, res),
        ..r.p
    };
    with_a(Registers { p, ..r }, res)
}

/// SBC in binary mode: the operand less the borrow (one when carry is
/// clear), wrapped to a byte, is taken from A; the carry is set when A is not
/// below that effective operand (no borrow).
pub open spec fn sbc_effect(r: Registers, operand: u8) -> Registers {
    let eff = wrap8(operand - weight_if(!r.p.carry, 1));
    let res = wrap8(r.a - eff);
    let p = StatusRegister {
        carry: r.a >= eff,
        overflow: same_sign_spec(r.a, operand) && !same_sign_spec(r.a, res),
        ..r.p
    };
    with_a(Registers { p, ..r }, res)
}

/// CMP, CPX and CPY: flags from `register - operand`, registers unchanged.
pub open spec fn compare_effect(r: Registers, register: u8, operand: u8) -> Registers {
    Registers {
        p: StatusRegister {
            carry: register >= operand,
            zero: register == operand,
            negative: is_negative(wrap8(register - operand)),
            ..r.p
        },
        ..r
    }
}

/// BIT: overflow and negative from bits 6 and 7 of the operand; zero as the
/// selected rule says.
pub open spec fn bit_effect(r: Registers, operand: u8, rule: BitZeroRule) -> Registers {
    Registers {
        p: StatusRegister {
            zero: match rule {
                BitZeroRule::Equal => r.a == operand,
                BitZeroRule::And => r.a & operand == 0,
            },
            overflow: bit_of(operand, 6),
            negative: is_negative(operand),
            ..r.p
        },
        ..r
    }
}

/// What a read instruction does with its operand byte.
pub open spec fn read_effect(m: ReadMnemonic, r: Registers, operand: u8, rule: BitZeroRule) -> Registers {
    match m {
        ReadMnemonic::ADC => adc_effect(r, operand),
        ReadMnemonic::AND => with_a(r, r.a & operand),
        ReadMnemonic::BIT => bit_effect(r, operand, rule),
        ReadMnemonic::CMP => compare_effect(r, r.a, operand),
        ReadMnemonic::CPX => compare_effect(r, r.x, operand),
        ReadMnemonic::CPY => compare_effect(r, r.y, operand),
        ReadMnemonic::EOR => with_a(r, r.a ^ operand),
        ReadMnemonic::LDA => with_a(r, operand),
        ReadMnemonic::LDX => with_x(r, operand),
        ReadMnemonic::LDY => with_y(r, operand),
        ReadMnemonic::ORA => with_a(r, r.a | operand),
        ReadMnemonic::SBC => sbc_effect(r, operand),
    }
}

/// Whether a branch is taken under the given flags.
pub open spec fn branch_taken(m: BranchMnemonic, p: StatusRegister) -> bool {
    match m {
        BranchMnemonic::BCC => !p.carry,
        BranchMnemonic::BCS => p.carry,
        BranchMnemonic::BEQ => p.zero,
        BranchMnemonic::BMI => p.negative,
        BranchMnemonic::BNE => !p.zero,
        BranchMnemonic::BPL => !p.negative,
        BranchMnemonic::BVC => !p.overflow,
        BranchMnemonic::BVS => p.overflow,
    }
}

/// Where a taken branch lands: the address after the offset byte plus the
/// signed offset, modulo 64K.
pub open spec fn branch_target(pc: u16, offset: u8) -> u16 {
    wrap16(pc + signed(offset))
}

/// The machine after reading `reads` over the bus, in order, one cycle
/// each.
pub open spec fn after_reads(s: CpuView, reads: Seq<u16>) -> CpuView {
    CpuView { cycles: s.cycles + reads.len(), reads: s.reads + reads, ..s }
}

/// The bus reads of a branch after its offset byte, `pc` being the address
/// after that byte. None when not taken. When taken, a read at the target,
/// preceded, when the target lies on another page, by a read at the target's
/// low byte on the current page.
pub open spec fn branch_reads(taken: bool, pc: u16, target: u16) -> Seq<u16> {
    if !taken {
        seq![]
    } else if page_of(target) == page_of(pc) {
        seq![target]
    } else {
        seq![address_of((target % 256) as u8, (pc / 256) as u8), target]
    }
}

/// The outcome of resolving an operand address: the address, the program
/// counter after the operand bytes, and the addresses read on the way.
pub ghost struct Resolved {
    pub address: u16,
    pub pc: u16,
    pub reads: Seq<u16>,
}

/// The extra read of indexed addressing, at the base page with the low byte
/// already indexed: always made when the index carries out of the low byte,
/// otherwise only when the caller is not a plain read (a read makes that
/// access its operand fetch).
pub open spec fn index_reads(low: u8, high: u8, index: u8, for_read: bool) -> Seq<u16> {
    if low + index > 255 || !for_read {
        seq![address_of(wrap8(low + index), high)]
    } else {
        seq![]
    }
}

/// Base address plus index, with the carry into the high byte.
pub open spec fn indexed(
    low: u8,
    high: u8,
    index: u8,
    for_read: bool,
    pc: u16,
    fetched: Seq<u16>,
) -> Resolved {
    Resolved {
        address: wrap16(address_of(low, high) + index),
        pc,
        reads: fetched + index_reads(low, high, index, for_read),
    }
}

/// How each addressing mode locates its operand, reading operand bytes from
/// `mem` at the program counter of `r`.
pub open spec fn resolve_spec(am: AddressingMode, r: Registers, mem: Seq<u8>, for_read: bool) -> Resolved
    recommends
        mem.len() == 0x10000,
{
    let pc = r.pc;
    let b0 = mem[pc as int];
    let pc1 = wrap16(pc + 1);
    let b1 = mem[pc1 as int];
    let pc2 = wrap16(pc + 2);
    match am {
        AddressingMode::Immediate => Resolved { address: pc, pc: pc1, reads: seq![] },
        AddressingMode::ZeroPage => Resolved { address: b0 as u16, pc: pc1, reads: seq![pc] },
        AddressingMode::ZeroPageX => Resolved {
            address: wrap8(b0 + r.x) as u16,
            pc: pc1,
            reads: seq![pc, b0 as u16],
        },
        AddressingMode::ZeroPageY => Resolved {
            address: wrap8(b0 + r.y) as u16,
            pc: pc1,
            reads: seq![pc, b0 as u16],
        },
        AddressingMode::Absolute => Resolved { address: address_of(b0, b1), pc: pc2, reads: seq![pc, pc1] },
        AddressingMode::AbsoluteX => indexed(b0, b1, r.x, for_read, pc2, seq![pc, pc1]),
        AddressingMode::AbsoluteY => indexed(b0, b1, r.y, for_read, pc2, seq![pc, pc1]),
        AddressingMode::IndexedIndirect => {
            let ptr = wrap8(b0 + r.x);
            let ptr1 = wrap8(ptr + 1);
            Resolved {
                address: address_of(mem[ptr as int], mem[ptr1 as int]),
                pc: pc1,
                reads: seq![pc, b0 as u16, ptr as u16, ptr1 as u16],
            }
        },
        AddressingMode::IndirectIndexed => {
            let b01 = wrap8(b0 + 1);
            let low = mem[b0 as int];
            let high = mem[b01 as int];
            indexed(low, high, r.y, for_read, pc1, seq![pc, b0 as u16, b01 as u16])
        },
        _ => Resolved { address: pc, pc, reads: seq![] },
    }
}

/// The instruction groups that this core executes.
pub open spec fn executes(i: Option<Instruction>) -> bool {
    match i {
        Some(Instruction::SingleByte(_)) | Some(Instruction::Read(_, _)) | Some(
            Instruction::Branch(_),
        ) => true,
        _ => false,
    }
}

/// The machine after the resolver has done `res`: PC moved past the
/// operand bytes, its reads made.
pub open spec fn after_resolve(s: CpuView, res: Resolved) -> CpuView {
    after_reads(CpuView { registers: Registers { pc: res.pc, ..s.registers }, ..s }, res.reads)
}

/// Whether a read instruction needs decimal arithmetic that this core does
/// not have: ADC or SBC with the decimal flag set.
pub open spec fn needs_decimal(m: ReadMnemonic, p: StatusRegister) -> bool {
    p.decimal_mode && (m == ReadMnemonic::ADC || m == ReadMnemonic::SBC)
}

/// What executing opcode `op` does to the machine `s`, whose PC already
/// points past the opcode. A single-byte instruction makes one discarded
/// read at PC. A read instruction makes the reads of its addressing mode,
/// then reads its operand. A branch reads its offset and, when taken, the
/// reads of `branch_reads`. An opcode with no instruction, or one whose group
/// is not executed (stores, read-modify-write, stack, jumps, subroutine and
/// interrupt control), changes nothing and is reported as illegal. ADC and
/// SBC with the decimal flag set change nothing and are reported as
/// unsupported. Memory is never written.
pub open spec fn dispatch_spec(op: u8, s: CpuView) -> (CpuView, Result<(), Error>)
    recommends
        s.memory.len() == 0x10000,
{
    let r = s.registers;
    match instruction_of(op) {
        Some(Instruction::SingleByte(m)) => (
            after_reads(CpuView { registers: single_byte_effect(m, r), ..s }, seq![r.pc]),
            Ok(()),
        ),
        Some(Instruction::Read(m, am)) => if needs_decimal(m, r.p) {
            (s, Err(Error::DecimalModeUnsupported(op)))
        } else {
            let res = resolve_spec(am, r, s.memory, true);
            let operand = s.memory[res.address as int];
            (
                after_reads(
                    CpuView {
                        registers: read_effect(m, Registers { pc: res.pc, ..r }, operand, s.bit_zero_rule),
                        ..s
                    },
                    res.reads.push(res.address),
                ),
                Ok(()),
            )
        },
        Some(Instruction::Branch(m)) => {
            let offset = s.memory[r.pc as int];
            let pc1 = wrap16(r.pc + 1);
            let taken = branch_taken(m, r.p);
            let target = branch_target(pc1, offset);
            (
                after_reads(
                    CpuView { registers: Registers { pc: if taken { target } else { pc1 }, ..r }, ..s },
                    seq![r.pc] + branch_reads(taken, pc1, target),
                ),
                Ok(()),
            )
        },
        _ => (s, Err(Error::IllegalOpcode(op))),
    }
}

/// The machine after its opcode fetch: one read at PC, PC advanced.
pub open spec fn fetched(s: CpuView) -> CpuView {
    after_reads(
        CpuView { registers: Registers { pc: wrap16(s.registers.pc + 1), ..s.registers }, ..s },
        seq![s.registers.pc],
    )
}

/// One instruction step: the opcode is fetched at PC, then dispatched.
pub open spec fn step_spec(s: CpuView) -> (CpuView, Result<(), Error>)
    recommends
        s.memory.len() == 0x10000,
{
    dispatch_spec(s.memory[s.registers.pc as int], fetched(s))
}

/// A step never writes memory, and spends at least one and at most
/// `MAX_STEP_CYCLES` bus cycles: the cycle count only grows.
pub proof fn lemma_step_bounds(s: CpuView)
    requires
        s.memory.len() == 0x10000,
    ensures
        step_spec(s).0.memory == s.memory,
        s.cycles < step_spec(s).0.cycles <= s.cycles + MAX_STEP_CYCLES,
{
}

/// An opcode that encodes no instruction, or an instruction of a group that
/// is not executed, makes `step` report it as illegal after spending only
/// the opcode fetch.
pub proof fn lemma_unexecuted_opcode_is_illegal(s: CpuView)
    requires
        s.memory.len() == 0x10000,
        !executes(instruction_of(s.memory[s.registers.pc as int])),
    ensures
        step_spec(s).1 == Err::<(), Error>(Error::IllegalOpcode(s.memory[s.registers.pc as int])),
        step_spec(s).0 == fetched(s),
{
}

/// A single-byte instruction takes two bus cycles (the opcode fetch and one
/// discarded read at the next byte) and moves PC past the opcode only.
pub proof fn lemma_single_byte_cycles(s: CpuView, m: SingleByteMnemonic)
    requires
        s.memory.len() == 0x10000,
        instruction_of(s.memory[s.registers.pc as int]) == Some(Instruction::SingleByte(m)),
    ensures
        step_spec(s).1 is Ok,
        step_spec(s).0.cycles == s.cycles + 2,
        step_spec(s).0.registers.pc == wrap16(s.registers.pc + 1),
        step_spec(s).0.memory == s.memory,
{
}

/// ADC or SBC with the decimal flag set is reported as unsupported, after
/// only the opcode fetch; nothing else changes.
pub proof fn lemma_decimal_unsupported(s: CpuView, m: ReadMnemonic, am: AddressingMode)
    requires
        s.memory.len() == 0x10000,
        instruction_of(s.memory[s.registers.pc as int]) == Some(Instruction::Read(m, am)),
        m == ReadMnemonic::ADC || m == ReadMnemonic::SBC,
        s.registers.p.decimal_mode,
    ensures
        step_spec(s).1 == Err::<(), Error>(
            Error::DecimalModeUnsupported(s.memory[s.registers.pc as int]),
        ),
        step_spec(s).0 == fetched(s),
{
}

/// Absolute,X for a read: the address is the 16-bit sum of the base and X,
/// carry included. The two operand bytes are read at PC; a carry out of the
/// low byte costs exactly one more bus cycle, a read at the base page with
/// the low byte already indexed, and no carry costs none.
pub proof fn lemma_absolute_x_page_cross(r: Registers, mem: Seq<u8>)
    requires
        mem.len() == 0x10000,
    ensures
        ({
            let low = mem[r.pc as int];
            let high = mem[wrap16(r.pc + 1) as int];
            let res = resolve_spec(AddressingMode::AbsoluteX, r, mem, true);
            &&& res.address as int == (high * 256 + low + r.x) % 0x10000
            &&& low + r.x > 255 ==> res.reads == seq![r.pc, wrap16(r.pc + 1), address_of(wrap8(low + r.x), high)]
            &&& low + r.x <= 255 ==> res.reads == seq![r.pc, wrap16(r.pc + 1)]
            &&& res.reads.len() == if low + r.x > 255 { 3nat } else { 2nat }
        }),
{
    let low = mem[r.pc as int];
    let high = mem[wrap16(r.pc + 1) as int];
    let res = resolve_spec(AddressingMode::AbsoluteX, r, mem, true);
    if low + r.x > 255 {
        assert(res.reads =~= seq![r.pc, wrap16(r.pc + 1), address_of(wrap8(low + r.x), high)]);
    } else {
        assert(res.reads =~= seq![r.pc, wrap16(r.pc + 1)]);
    }
}

/// A read instruction in Absolute,X mode (other than decimal ADC or SBC)
/// takes four cycles, five when the index carries out of the low byte.
pub proof fn lemma_absolute_x_read_cycles(s: CpuView, m: ReadMnemonic)
    requires
        s.memory.len() == 0x10000,
        instruction_of(s.memory[s.registers.pc as int]) == Some(
            Instruction::Read(m, AddressingMode::AbsoluteX),
        ),
        !needs_decimal(m, s.registers.p),
    ensures
        ({
            let low = s.memory[wrap16(s.registers.pc + 1) as int];
            step_spec(s).0.cycles == s.cycles + if low + s.registers.x > 255 { 5int } else { 4int }
        }),
{
}

/// A branch takes two cycles when not taken, three when taken within the
/// page after the branch, and four when taken to another page; a taken
/// branch moves PC to its target. Its bus reads are the opcode and the
/// offset at PC, then those of `branch_reads`.
pub proof fn lemma_branch_cycles(s: CpuView, m: BranchMnemonic)
    requires
        s.memory.len() == 0x10000,
        instruction_of(s.memory[s.registers.pc as int]) == Some(Instruction::Branch(m)),
    ensures
        ({
            let next = wrap16(s.registers.pc + 2);
            let target = branch_target(next, s.memory[wrap16(s.registers.pc + 1) as int]);
            let taken = branch_taken(m, s.registers.p);
            let t = step_spec(s).0;
            &&& step_spec(s).1 is Ok
            &&& t.reads == s.reads + seq![s.registers.pc, wrap16(s.registers.pc + 1)] + branch_reads(taken, next, target)
            &&& !taken ==> t.cycles == s.cycles + 2 && t.registers.pc == next
            &&& taken ==> t.registers.pc == target
            &&& taken && page_of(target) == page_of(next) ==> t.cycles == s.cycles + 3
            &&& taken && page_of(target) != page_of(next) ==> t.cycles == s.cycles + 4
        }),
{
    let op = s.memory[s.registers.pc as int];
    let f = fetched(s);
    let pc1 = wrap16(f.registers.pc + 1);
    let taken = branch_taken(m, s.registers.p);
    let target = branch_target(pc1, s.memory[f.registers.pc as int]);
    let reads = seq![f.registers.pc] + branch_reads(taken, pc1, target);
    assert(step_spec(s) == dispatch_spec(op, f));
    assert(dispatch_spec(op, f) == (
        after_reads(CpuView { registers: Registers { pc: if taken { target } else { pc1 }, ..f.registers }, ..f }, reads),
        Ok::<(), Error>(()),
    ));
    assert(pc1 == wrap16(s.registers.pc + 2));
    assert(f.reads + reads =~= s.reads + seq![s.registers.pc, wrap16(s.registers.pc + 1)] + branch_reads(taken, pc1, target));
}

} // verus!
