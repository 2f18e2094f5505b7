//! The CPU: registers, the 64K memory bus with its cycle count, the
//! addressing-mode resolver and the execution engine.
use vstd::prelude::*;

use crate::instruction::{
    decode, is_resolvable, lemma_instruction_of, lemma_read_modes_resolvable, AddressingMode,
    BranchMnemonic, Instruction, ReadMnemonic, SingleByteMnemonic,
};
use crate::model::{
    adc_effect, address_of, after_reads, after_resolve, bit_effect, branch_reads, branch_taken,
    branch_target, compare_effect, dispatch_spec, fetched, index_reads, page_of, read_effect,
    resolve_spec, same_sign_spec, sbc_effect, single_byte_effect, step_spec, with_a,
    with_carry, with_x, with_y, with_zn, wrap16, wrap8,
};
use crate::status::{weight_if, StatusRegister};

verus! {

/// Bytes of addressable memory.
pub const MEMORY_SIZE: usize = 65536;

/// The most bus cycles that one instruction step spends.
pub const MAX_STEP_CYCLES: u64 = 6;

/// What `step` reports when it cannot execute an instruction.
#[derive(Clone, Copy, Debug, PartialEq, Eq, Structural)]
pub enum Error {
    /// The opcode has no instruction, or its instruction group is not
    /// executed by this core.
    IllegalOpcode(u8),
    /// The opcode is ADC or SBC and the decimal flag is set: this core has no
    /// decimal arithmetic.
    DecimalModeUnsupported(u8),
}

/// How BIT sets the zero flag. `Equal` sets it when A equals the operand,
/// which is this core's default; `And` sets it when `A & operand` is zero,
/// as the chip does.
#[derive(Clone, Copy, Debug, PartialEq, Eq, Structural)]
pub enum BitZeroRule {
    Equal,
    And,
}

/// The programmer-visible registers.
#[derive(Clone, Copy, Debug, PartialEq, Eq, Structural, Default)]
pub struct Registers {
    pub p: StatusRegister,
    pub pc: u16,
    pub a: u8,
    pub x: u8,
    pub y: u8,
    pub s: u8,
}

/// A 6502 with its own 64K of memory and a count of bus cycles.
pub struct Cpu {
    memory: Vec<u8>,
    cycles: u64,
    registers: Registers,
    bit_zero_rule: BitZeroRule,
    bus: Ghost<Seq<u16>>,
}

/// The state of a CPU: memory contents, bus cycles spent, the addresses read
/// over the bus so far (in order), registers, and the BIT zero-flag rule in
/// force.
pub ghost struct CpuView {
    pub memory: Seq<u8>,
    pub cycles: nat,
    pub reads: Seq<u16>,
    pub registers: Registers,
    pub bit_zero_rule: BitZeroRule,
}

impl View for Cpu {
    type V = CpuView;

    closed spec fn view(&self) -> CpuView {
        CpuView {
            memory: self.memory@,
            cycles: self.cycles as nat,
            reads: self.bus@,
            registers: self.registers,
            bit_zero_rule: self.bit_zero_rule,
        }
    }
}

/// The address with the given low and high bytes.
fn combine_low_high(low: u8, high: u8) -> (r: u16)
    ensures
        r == address_of(low, high),
{
    let l = low as u16;
    let h = high as u16;
    assert((l | (h << 8u16)) == l + h * 256) by (bit_vector)
        requires
            l < 256,
            h < 256,
    ;
    l | (h << 8)
}

/// The low byte of an address.
fn low_byte(a: u16) -> (r: u8)
    ensures
        r == a % 256,
{
    assert((a & 0xff) == a % 256) by (bit_vector);
    (a & 0xff) as u8
}

/// The high byte of an address.
fn high_byte(a: u16) -> (r: u8)
    ensures
        r == a / 256,
{
    assert((a >> 8u16) == a / 256) by (bit_vector);
    (a >> 8) as u8
}

/// Whether two addresses lie on different pages.
fn on_different_page(a: u16, b: u16) -> (r: bool)
    ensures
        r == (page_of(a) != page_of(b)),
{
    high_byte(a) != high_byte(b)
}

/// An address moved by a signed byte offset, modulo 64K.
fn add_offset(pc: u16, offset: u8) -> (r: u16)
    ensures
        r == branch_target(pc, offset),
{
    if offset < 128 {
        pc.wrapping_add(offset as u16)
    } else {
        pc.wrapping_sub(256 - offset as u16)
    }
}

/// Whether two bytes have the same bit 7.
fn same_sign(lhs: u8, rhs: u8) -> (r: bool)
    ensures
        r == same_sign_spec(lhs, rhs),
{
    assert(((lhs & 0x80) == (rhs & 0x80)) == ((lhs >= 0x80) == (rhs >= 0x80))) by (bit_vector);
    lhs & 0x80 == rhs & 0x80
}

impl Cpu {
    /// Memory has its full 64K.
    pub open spec fn wf(&self) -> bool {
        self@.memory.len() == MEMORY_SIZE
    }

    /// Memory has its full 64K and `k` more bus cycles fit in the counter.
    pub open spec fn has_room(&self, k: nat) -> bool {
        self.wf() && self@.cycles + k <= u64::MAX
    }

    /// A CPU with the given registers, zeroed memory, no cycles spent, and
    /// the `Equal` rule for BIT.
    pub fn new(r: Registers) -> (c: Cpu)
        ensures
            c.wf(),
            c@.memory == Seq::new(MEMORY_SIZE as nat, |i: int| 0u8),
            c@.cycles == 0,
            c@.reads == Seq::<u16>::empty(),
            c@.registers == r,
            c@.bit_zero_rule == BitZeroRule::Equal,
    {
        let c = Cpu {
            memory: vec![0u8; MEMORY_SIZE],
            cycles: 0,
            registers: r,
            bit_zero_rule: BitZeroRule::Equal,
            bus: Ghost(Seq::empty()),
        };
        assert(c@.memory =~= Seq::new(MEMORY_SIZE as nat, |i: int| 0u8));
        c
    }

    /// Copies `with` into memory from address `from` on.
    pub fn fill_memory(&mut self, from: usize, with: &[u8])
        requires
            old(self).wf(),
            from + with@.len() <= MEMORY_SIZE,
        ensures
            final(self).wf(),
            final(self)@.cycles == old(self)@.cycles,
            final(self)@.registers == old(self)@.registers,
            forall|i: int|
                0 <= i < MEMORY_SIZE ==> #[trigger] final(self)@.memory[i] == if from <= i < from
                    + with@.len() {
                    with@[i - from]
                } else {
                    old(self)@.memory[i]
                },
    {
        let mut k: usize = 0;
        while k < with.len()
            invariant
                self.wf(),
                from + with@.len() <= MEMORY_SIZE,
                0 <= k <= with@.len(),
                self@.cycles == old(self)@.cycles,
                self@.registers == old(self)@.registers,
                forall|i: int|
                    0 <= i < MEMORY_SIZE ==> #[trigger] self@.memory[i] == if from <= i < from
                        + k {
                        with@[i - from]
                    } else {
                        old(self)@.memory[i]
                    },
            decreases with@.len() - k,
        {
            self.memory.set(from + k, with[k]);
            k = k + 1;
        }
    }

    /// The memory, for setting up and inspecting a machine from outside the
    /// execution path.
    pub fn get_memory(&mut self) -> (m: &mut [u8])
        ensures
            m@ == old(self)@.memory,
            final(self)@ == (CpuView { memory: final(m)@, ..old(self)@ }),
    {
        self.memory.as_mut_slice()
    }

    /// The registers.
    pub fn registers(&self) -> (r: Registers)
        ensures
            r == self@.registers,
    {
        self.registers
    }

    /// The bus cycles spent so far.
    pub fn cycles(&self) -> (r: u64)
        ensures
            r == self@.cycles,
    {
        self.cycles
    }

    /// Selects how BIT sets the zero flag.
    pub fn set_bit_zero_rule(&mut self, rule: BitZeroRule)
        ensures
            final(self)@ == (CpuView { bit_zero_rule: rule, ..old(self)@ }),
    {
        self.bit_zero_rule = rule;
    }

    /// The rule by which BIT sets the zero flag.
    pub fn bit_zero_rule(&self) -> (r: BitZeroRule)
        ensures
            r == self@.bit_zero_rule,
    {
        self.bit_zero_rule
    }

    /// The X index register.
    pub fn get_x(&self) -> (r: u8)
        ensures
            r == self@.registers.x,
    {
        self.registers.x
    }

    /// The Y index register.
    pub fn get_y(&self) -> (r: u8)
        ensures
            r == self@.registers.y,
    {
        self.registers.y
    }

    /// Decodes and executes the instruction at PC. The cycle counter must
    /// have room for the cycles of one more instruction.
    pub fn step(&mut self) -> (r: Result<(), Error>)
        requires
            old(self).has_room(MAX_STEP_CYCLES as nat),
        ensures
            final(self).wf(),
            (final(self)@, r) == step_spec(old(self)@),
    {
        let opcode = self.read_pc();
        self.dispatch(opcode)
    }

    /// Declared driver for running a cycle budget; it executes nothing.
    pub fn run(&mut self, _cycles: u64)
        ensures
            final(self)@ == old(self)@,
    {
    }

    /// One bus cycle.
    fn full_cycle(&mut self)
        requires
            old(self).has_room(1),
        ensures
            final(self)@ == (CpuView { cycles: old(self)@.cycles + 1, ..old(self)@ }),
    {
        self.cycles = self.cycles + 1;
    }

    /// Reads a byte over the bus, which costs one cycle.
    fn read_byte(&mut self, address: u16) -> (v: u8)
        requires
            old(self).has_room(1),
        ensures
            v == old(self)@.memory[address as int],
            final(self)@ == after_reads(old(self)@, seq![address]),
    {
        let v = self.memory[address as usize];
        self.full_cycle();
        self.bus = Ghost(self.bus@.push(address));
        assert(self@.reads =~= old(self)@.reads + seq![address]);
        v
    }

    /// Reads the byte at PC and moves PC past it.
    fn read_pc(&mut self) -> (v: u8)
        requires
            old(self).has_room(1),
        ensures
            v == old(self)@.memory[old(self)@.registers.pc as int],
            final(self)@ == fetched(old(self)@),
    {
        let pc = self.registers.pc;
        let v = self.read_byte(pc);
        self.registers.pc = pc.wrapping_add(1);
        v
    }

    /// Reads the byte at PC and discards it, leaving PC where it was.
    fn bogus_read_pc(&mut self)
        requires
            old(self).has_room(1),
        ensures
            final(self)@ == after_reads(old(self)@, seq![old(self)@.registers.pc]),
    {
        let _ = self.read_pc();
        self.registers.pc = self.registers.pc.wrapping_sub(1);
    }

    /// Sets the zero and negative flags from a result byte.
    fn set_zn(&mut self, val: u8)
        ensures
            final(self)@ == (CpuView {
                registers: Registers { p: with_zn(old(self)@.registers.p, val), ..old(self)@.registers },
                ..old(self)@
            }),
    {
        self.registers.p.zero = val == 0;
        self.registers.p.negative = val & 0x80 == 0x80;
        assert((val & 0x80 == 0x80) == (val >= 0x80)) by (bit_vector);
    }

    /// Stores a result in A and sets zero and negative from it; `set_x` and
    /// `set_y` do the same for the index registers. Every instruction that
    /// produces a register value goes through one of them.
    fn set_a(&mut self, val: u8)
        ensures
            final(self)@ == (CpuView { registers: with_a(old(self)@.registers, val), ..old(self)@ }),
    {
        self.registers.a = val;
        self.set_zn(val)
    }

    fn set_x(&mut self, val: u8)
        ensures
            final(self)@ == (CpuView { registers: with_x(old(self)@.registers, val), ..old(self)@ }),
    {
        self.registers.x = val;
        self.set_zn(val)
    }

    fn set_y(&mut self, val: u8)
        ensures
            final(self)@ == (CpuView { registers: with_y(old(self)@.registers, val), ..old(self)@ }),
    {
        self.registers.y = val;
        self.set_zn(val)
    }

    /// ASL on a byte: the carry takes bit 7.
    fn do_asl(&mut self, val: u8) -> (r: u8)
        ensures
            r == wrap8(2 * val),
            final(self)@ == (CpuView { registers: with_carry(old(self)@.registers, val >= 0x80), ..old(self)@ }),
    {
        self.registers.p.carry_from_u8(val & 0x80);
        assert(((val & 0x80) != 0) == (val >= 0x80)) by (bit_vector);
        assert((val << 1u8) == (2 * val) % 256) by (bit_vector);
        val << 1
    }

    /// LSR on a byte: the carry takes bit 0.
    fn do_lsr(&mut self, val: u8) -> (r: u8)
        ensures
            r == val / 2,
            final(self)@ == (CpuView { registers: with_carry(old(self)@.registers, val % 2 == 1), ..old(self)@ }),
    {
        self.registers.p.carry_from_u8(val & 0x01);
        assert(((val & 0x01) != 0) == (val % 2 == 1)) by (bit_vector);
        assert((val >> 1u8) == val / 2) by (bit_vector);
        val >> 1
    }

    /// ROL on a byte: the old carry enters bit 0, bit 7 becomes the carry.
    fn do_rol(&mut self, val: u8) -> (r: u8)
        ensures
            r == wrap8(2 * val + weight_if(old(self)@.registers.p.carry, 1)),
            final(self)@ == (CpuView { registers: with_carry(old(self)@.registers, val >= 0x80), ..old(self)@ }),
    {
        let old_c = self.registers.p.carry_into_u8();
        self.registers.p.carry_from_u8(val & 0x80);
        assert(((val & 0x80) != 0) == (val >= 0x80)) by (bit_vector);
        assert(((val << 1u8) | old_c) == (2 * val + old_c) % 256) by (bit_vector)
            requires
                old_c <= 1,
        ;
        (val << 1) | old_c
    }

    /// ROR on a byte: the old carry enters bit 7, bit 0 becomes the carry.
    fn do_ror(&mut self, val: u8) -> (r: u8)
        ensures
            r == val / 2 + 128 * weight_if(old(self)@.registers.p.carry, 1),
            final(self)@ == (CpuView { registers: with_carry(old(self)@.registers, val % 2 == 1), ..old(self)@ }),
    {
        let old_c = self.registers.p.carry_into_u8();
        self.registers.p.carry_from_u8(val & 0x01);
        assert(((val & 0x01) != 0) == (val % 2 == 1)) by (bit_vector);
        assert(((val >> 1u8) | (old_c << 7u8)) == val / 2 + 128 * old_c) by (bit_vector)
            requires
                old_c <= 1,
        ;
        (val >> 1) | (old_c << 7)
    }

    /// Sets the flags as comparing `register` with `operand` does.
    fn compare(&mut self, register: u8, operand: u8)
        ensures
            final(self)@ == (CpuView {
                registers: compare_effect(old(self)@.registers, register, operand),
                ..old(self)@
            }),
    {
        self.registers.p.carry = register >= operand;
        self.registers.p.zero = register == operand;
        let diff = register.wrapping_sub(operand);
        assert(((diff & 0x80) != 0) == (diff >= 0x80)) by (bit_vector);
        self.registers.p.negative = (diff & 0x80) != 0;
    }

    fn compare_a(&mut self, operand: u8)
        ensures
            final(self)@ == (CpuView {
                registers: compare_effect(old(self)@.registers, old(self)@.registers.a, operand),
                ..old(self)@
            }),
    {
        let a = self.registers.a;
        self.compare(a, operand);
    }

    fn compare_x(&mut self, operand: u8)
        ensures
            final(self)@ == (CpuView {
                registers: compare_effect(old(self)@.registers, old(self)@.registers.x, operand),
                ..old(self)@
            }),
    {
        let x = self.registers.x;
        self.compare(x, operand);
    }

    fn compare_y(&mut self, operand: u8)
        ensures
            final(self)@ == (CpuView {
                registers: compare_effect(old(self)@.registers, old(self)@.registers.y, operand),
                ..old(self)@
            }),
    {
        let y = self.registers.y;
        self.compare(y, operand);
    }

    /// BIT: overflow and negative from bits 6 and 7 of the operand, zero by
    /// the selected rule.
    fn bit(&mut self, operand: u8)
        ensures
            final(self)@ == (CpuView {
                registers: bit_effect(old(self)@.registers, operand, old(self)@.bit_zero_rule),
                ..old(self)@
            }),
    {
        let a = self.registers.a;
        proof {
            vstd::arithmetic::power2::lemma2_to64();
        }
        assert(((operand & 0x40) != 0) == ((operand / 64) % 2 == 1)) by (bit_vector);
        assert(((operand & 0x80) != 0) == (operand >= 0x80)) by (bit_vector);
        self.registers.p.overflow = operand & 0x40 != 0;
        self.registers.p.negative = operand & 0x80 != 0;
        self.registers.p.zero = match self.bit_zero_rule {
            BitZeroRule::Equal => a == operand,
            BitZeroRule::And => a & operand == 0,
        };
    }

    /// SBC in binary mode.
    fn sbc(&mut self, operand: u8)
        ensures
            final(self)@ == (CpuView { registers: sbc_effect(old(self)@.registers, operand), ..old(self)@ }),
    {
        let a = self.registers.a;
        let c: u8 = if self.registers.p.carry {
            0
        } else {
            1
        };
        let effective_operand = operand.wrapping_sub(c);
        let res = a.wrapping_sub(effective_operand);
        self.registers.p.carry = a >= effective_operand;
        self.registers.p.overflow = same_sign(a, operand) && !same_sign(a, res);
        self.set_a(res)
    }

    /// ADC in binary mode.
    fn adc(&mut self, operand: u8)
        ensures
            final(self)@ == (CpuView { registers: adc_effect(old(self)@.registers, operand), ..old(self)@ }),
    {
        let a = self.registers.a;
        let effective_operand = operand.wrapping_add(self.registers.p.carry_into_u8());
        let res = a.wrapping_add(effective_operand);
        self.registers.p.carry = a > 255 - effective_operand;
        self.registers.p.overflow = same_sign(a, operand) && !same_sign(a, res);
        self.set_a(res);
    }

    /// Executes an instruction of the single-byte group, then makes one
    /// discarded read at PC: with the opcode fetch, the chip's two cycles.
    fn execute_single_byte(&mut self, m: SingleByteMnemonic)
        requires
            old(self).has_room(1),
        ensures
            final(self)@ == after_reads(
                CpuView { registers: single_byte_effect(m, old(self)@.registers), ..old(self)@ },
                seq![old(self)@.registers.pc],
            ),
    {
        self.apply_single_byte(m);
        self.bogus_read_pc();
    }

    /// The register and flag change of a single-byte instruction.
    fn apply_single_byte(&mut self, m: SingleByteMnemonic)
        ensures
            final(self)@ == (CpuView { registers: single_byte_effect(m, old(self)@.registers), ..old(self)@ }),
    {
        match m {
            SingleByteMnemonic::ASL
            | SingleByteMnemonic::LSR
            | SingleByteMnemonic::ROL
            | SingleByteMnemonic::ROR => self.shift_accumulator(m),
            SingleByteMnemonic::DEX
            | SingleByteMnemonic::DEY
            | SingleByteMnemonic::INX
            | SingleByteMnemonic::INY => self.step_index(m),
            SingleByteMnemonic::CLC => self.registers.p.carry = false,
            SingleByteMnemonic::CLD => self.registers.p.decimal_mode = false,
            SingleByteMnemonic::CLI => self.registers.p.irq_disabled = false,
            SingleByteMnemonic::CLV => self.registers.p.overflow = false,
            SingleByteMnemonic::NOP => {},
            SingleByteMnemonic::SEC => self.registers.p.carry = true,
            SingleByteMnemonic::SED => self.registers.p.decimal_mode = true,
            SingleByteMnemonic::SEI => self.registers.p.irq_disabled = true,
            SingleByteMnemonic::TAX => {
                let a = self.registers.a;
                self.set_x(a);
            },
            SingleByteMnemonic::TAY => {
                let a = self.registers.a;
                self.set_y(a);
            },
            SingleByteMnemonic::TSX => {
                let s = self.registers.s;
                self.set_x(s);
            },
            SingleByteMnemonic::TXA => {
                let x = self.registers.x;
                self.set_a(x);
            },
            SingleByteMnemonic::TXS => self.registers.s = self.registers.x,
            SingleByteMnemonic::TYA => {
                let y = self.registers.y;
                self.set_a(y);
            },
        }
    }

    /// ASL, LSR, ROL or ROR on the accumulator.
    fn shift_accumulator(&mut self, m: SingleByteMnemonic)
        requires
            m == SingleByteMnemonic::ASL || m == SingleByteMnemonic::LSR || m == SingleByteMnemonic::ROL
                || m == SingleByteMnemonic::ROR,
        ensures
            final(self)@ == (CpuView { registers: single_byte_effect(m, old(self)@.registers), ..old(self)@ }),
    {
        let a = self.registers.a;
        let r = match m {
            SingleByteMnemonic::ASL => self.do_asl(a),
            SingleByteMnemonic::LSR => self.do_lsr(a),
            SingleByteMnemonic::ROL => self.do_rol(a),
            _ => self.do_ror(a),
        };
        self.set_a(r);
    }

    /// INX, INY, DEX or DEY: the index register moves by one, modulo 256.
    fn step_index(&mut self, m: SingleByteMnemonic)
        requires
            m == SingleByteMnemonic::DEX || m == SingleByteMnemonic::DEY || m == SingleByteMnemonic::INX
                || m == SingleByteMnemonic::INY,
        ensures
            final(self)@ == (CpuView { registers: single_byte_effect(m, old(self)@.registers), ..old(self)@ }),
    {
        match m {
            SingleByteMnemonic::DEX => {
                let x = self.get_x();
                self.set_x(x.wrapping_sub(1));
            },
            SingleByteMnemonic::DEY => {
                let y = self.get_y();
                self.set_y(y.wrapping_sub(1));
            },
            SingleByteMnemonic::INX => {
                let x = self.get_x();
                self.set_x(x.wrapping_add(1));
            },
            _ => {
                let y = self.get_y();
                self.set_y(y.wrapping_add(1));
            },
        }
    }

    /// Immediate: the operand is the byte at PC; no bus cycle here.
    fn resolve_immediate(&mut self) -> (r: u16)
        ensures
            r == resolve_spec(AddressingMode::Immediate, old(self)@.registers, old(self)@.memory, true).address,
            final(self)@ == after_resolve(old(self)@, resolve_spec(AddressingMode::Immediate, old(self)@.registers, old(self)@.memory, true)),
    {
        let pc = self.registers.pc;
        self.registers.pc = pc.wrapping_add(1);
        pc
    }

    /// Zero page: one operand byte is the address.
    fn resolve_zero_page(&mut self) -> (r: u16)
        requires
            old(self).has_room(1),
        ensures
            r == resolve_spec(AddressingMode::ZeroPage, old(self)@.registers, old(self)@.memory, true).address,
            final(self)@ == after_resolve(old(self)@, resolve_spec(AddressingMode::ZeroPage, old(self)@.registers, old(self)@.memory, true)),
    {
        let val = self.read_pc();
        val as u16
    }

    /// Zero page plus an index, wrapping within page zero, after a discarded
    /// read of the unindexed address.
    fn resolve_zero_page_add(&mut self, index: u8) -> (r: u16)
        requires
            old(self).has_room(2),
        ensures
            r == wrap8(old(self)@.memory[old(self)@.registers.pc as int] + index) as u16,
            final(self)@ == after_reads(
                CpuView {
                    registers: Registers { pc: wrap16(old(self)@.registers.pc + 1), ..old(self)@.registers },
                    ..old(self)@
                },
                seq![old(self)@.registers.pc, old(self)@.memory[old(self)@.registers.pc as int] as u16],
            ),
    {
        let val = self.read_pc();
        let _ = self.read_byte(val as u16);
        assert(self@.reads =~= old(self)@.reads + seq![old(self)@.registers.pc, val as u16]);
        val.wrapping_add(index) as u16
    }

    fn resolve_zero_page_x(&mut self) -> (r: u16)
        requires
            old(self).has_room(2),
        ensures
            r == resolve_spec(AddressingMode::ZeroPageX, old(self)@.registers, old(self)@.memory, true).address,
            final(self)@ == after_resolve(old(self)@, resolve_spec(AddressingMode::ZeroPageX, old(self)@.registers, old(self)@.memory, true)),
    {
        let x = self.get_x();
        self.resolve_zero_page_add(x)
    }

    fn resolve_zero_page_y(&mut self) -> (r: u16)
        requires
            old(self).has_room(2),
        ensures
            r == resolve_spec(AddressingMode::ZeroPageY, old(self)@.registers, old(self)@.memory, true).address,
            final(self)@ == after_resolve(old(self)@, resolve_spec(AddressingMode::ZeroPageY, old(self)@.registers, old(self)@.memory, true)),
    {
        let y = self.get_y();
        self.resolve_zero_page_add(y)
    }

    /// Absolute: low byte, then high byte.
    fn resolve_absolute(&mut self) -> (r: u16)
        requires
            old(self).has_room(2),
        ensures
            r == resolve_spec(AddressingMode::Absolute, old(self)@.registers, old(self)@.memory, true).address,
            final(self)@ == after_resolve(old(self)@, resolve_spec(AddressingMode::Absolute, old(self)@.registers, old(self)@.memory, true)),
    {
        let adl = self.read_pc();
        let adh = self.read_pc();
        assert(self@.reads =~= old(self)@.reads + seq![old(self)@.registers.pc, wrap16(old(self)@.registers.pc + 1)]);
        combine_low_high(adl, adh)
    }

    /// Adds an index to a base address. The chip first reads at the base page
    /// with the low byte already indexed; when the low byte carried it reads
    /// again on the next page. Without a carry a read instruction takes that
    /// first access as its operand fetch, so it is made here only for the
    /// other groups.
    fn resolve_low_high(&mut self, adl: u8, adh: u8, val: u8, for_read: bool) -> (r: u16)
        requires
            old(self).has_room(1),
        ensures
            r == wrap16(address_of(adl, adh) + val),
            final(self)@ == after_reads(old(self)@, index_reads(adl, adh, val, for_read)),
    {
        let addr = combine_low_high(adl.wrapping_add(val), adh);
        if adl <= 255 - val {
            if !for_read {
                let _ = self.read_byte(addr);
            } else {
                assert(self@.reads =~= old(self)@.reads + index_reads(adl, adh, val, for_read));
            }
            addr
        } else {
            let _ = self.read_byte(addr);
            addr.wrapping_add(0x100)
        }
    }

    fn resolve_absolute_add(&mut self, val: u8, for_read: bool) -> (r: u16)
        requires
            old(self).has_room(3),
        ensures
            ({
                let pc = old(self)@.registers.pc;
                let adl = old(self)@.memory[pc as int];
                let adh = old(self)@.memory[wrap16(pc + 1) as int];
                &&& r == wrap16(address_of(adl, adh) + val)
                &&& final(self)@ == after_reads(
                    CpuView { registers: Registers { pc: wrap16(pc + 2), ..old(self)@.registers }, ..old(self)@ },
                    seq![pc, wrap16(pc + 1)] + index_reads(adl, adh, val, for_read),
                )
            }),
    {
        let adl = self.read_pc();
        let adh = self.read_pc();
        let r = self.resolve_low_high(adl, adh, val, for_read);
        assert(self@.reads =~= old(self)@.reads + (seq![old(self)@.registers.pc, wrap16(old(self)@.registers.pc + 1)]
            + index_reads(adl, adh, val, for_read)));
        r
    }

    fn resolve_absolute_x(&mut self, for_read: bool) -> (r: u16)
        requires
            old(self).has_room(3),
        ensures
            r == resolve_spec(AddressingMode::AbsoluteX, old(self)@.registers, old(self)@.memory, for_read).address,
            final(self)@ == after_resolve(old(self)@, resolve_spec(AddressingMode::AbsoluteX, old(self)@.registers, old(self)@.memory, for_read)),
    {
        let x = self.get_x();
        self.resolve_absolute_add(x, for_read)
    }

    fn resolve_absolute_y(&mut self, for_read: bool) -> (r: u16)
        requires
            old(self).has_room(3),
        ensures
            r == resolve_spec(AddressingMode::AbsoluteY, old(self)@.registers, old(self)@.memory, for_read).address,
            final(self)@ == after_resolve(old(self)@, resolve_spec(AddressingMode::AbsoluteY, old(self)@.registers, old(self)@.memory, for_read)),
    {
        let y = self.get_y();
        self.resolve_absolute_add(y, for_read)
    }

    /// (zp,X): a zero-page pointer, a discarded read at it, X added within
    /// page zero, then the address read from there.
    fn resolve_indexed_indirect(&mut self) -> (r: u16)
        requires
            old(self).has_room(4),
        ensures
            r == resolve_spec(AddressingMode::IndexedIndirect, old(self)@.registers, old(self)@.memory, true).address,
            final(self)@ == after_resolve(old(self)@, resolve_spec(AddressingMode::IndexedIndirect, old(self)@.registers, old(self)@.memory, true)),
    {
        let bal = self.read_pc();
        let _ = self.read_byte(bal as u16);
        let effective_bal = bal.wrapping_add(self.get_x());
        let adl = self.read_byte(effective_bal as u16);
        let adh = self.read_byte(effective_bal.wrapping_add(1) as u16);
        assert(self@.reads =~= old(self)@.reads + seq![
            old(self)@.registers.pc,
            bal as u16,
            effective_bal as u16,
            effective_bal.wrapping_add(1) as u16,
        ]);
        combine_low_high(adl, adh)
    }

    /// (zp),Y: a base address read through a zero-page pointer, then Y added
    /// as in absolute indexed addressing.
    fn resolve_indirect_indexed(&mut self, for_read: bool) -> (r: u16)
        requires
            old(self).has_room(4),
        ensures
            r == resolve_spec(AddressingMode::IndirectIndexed, old(self)@.registers, old(self)@.memory, for_read).address,
            final(self)@ == after_resolve(old(self)@, resolve_spec(AddressingMode::IndirectIndexed, old(self)@.registers, old(self)@.memory, for_read)),
    {
        let ial = self.read_pc();
        let bal = self.read_byte(ial as u16);
        let bah = self.read_byte(ial.wrapping_add(1) as u16);
        let y = self.get_y();
        let r = self.resolve_low_high(bal, bah, y, for_read);
        assert(self@.reads =~= old(self)@.reads + (seq![
            old(self)@.registers.pc,
            ial as u16,
            ial.wrapping_add(1) as u16,
        ] + index_reads(bal, bah, y, for_read)));
        r
    }

    /// Resolves the operand address of a mode, spending the bus cycles that
    /// the chip spends. `for_read` says whether the caller is a plain read
    /// instruction, which changes the cycles of indexed modes.
    fn resolve_address(&mut self, am: AddressingMode, for_read: bool) -> (r: u16)
        requires
            is_resolvable(am),
            old(self).has_room(4),
        ensures
            r == resolve_spec(am, old(self)@.registers, old(self)@.memory, for_read).address,
            final(self)@ == after_resolve(old(self)@, resolve_spec(am, old(self)@.registers, old(self)@.memory, for_read)),
    {
        match am {
            AddressingMode::Immediate => self.resolve_immediate(),
            AddressingMode::ZeroPage => self.resolve_zero_page(),
            AddressingMode::ZeroPageX => self.resolve_zero_page_x(),
            AddressingMode::ZeroPageY => self.resolve_zero_page_y(),
            AddressingMode::Absolute => self.resolve_absolute(),
            AddressingMode::AbsoluteX => self.resolve_absolute_x(for_read),
            AddressingMode::AbsoluteY => self.resolve_absolute_y(for_read),
            AddressingMode::IndexedIndirect => self.resolve_indexed_indirect(),
            AddressingMode::IndirectIndexed => self.resolve_indirect_indexed(for_read),
            _ => {
                assert(false);
                0
            },
        }
    }

    /// Resolves the operand of a read instruction and reads it.
    fn fetch_operand(&mut self, am: AddressingMode) -> (v: u8)
        requires
            is_resolvable(am),
            old(self).has_room(5),
        ensures
            ({
                let res = resolve_spec(am, old(self)@.registers, old(self)@.memory, true);
                &&& v == old(self)@.memory[res.address as int]
                &&& final(self)@ == after_reads(after_resolve(old(self)@, res), seq![res.address])
            }),
    {
        let addr = self.resolve_address(am, true);
        self.read_byte(addr)
    }

    /// Executes a read instruction: fetch the operand, then apply it.
    fn execute_read(&mut self, m: ReadMnemonic, am: AddressingMode)
        requires
            is_resolvable(am),
            old(self).has_room(5),
        ensures
            ({
                let res = resolve_spec(am, old(self)@.registers, old(self)@.memory, true);
                let operand = old(self)@.memory[res.address as int];
                final(self)@ == after_reads(
                    CpuView {
                        registers: read_effect(
                            m,
                            Registers { pc: res.pc, ..old(self)@.registers },
                            operand,
                            old(self)@.bit_zero_rule,
                        ),
                        ..old(self)@
                    },
                    res.reads.push(res.address),
                )
            }),
    {
        let operand = self.fetch_operand(am);
        assert({
            let res = resolve_spec(am, old(self)@.registers, old(self)@.memory, true);
            self@.reads =~= old(self)@.reads + res.reads.push(res.address)
        });
        match m {
            ReadMnemonic::ADC => self.adc(operand),
            ReadMnemonic::AND => {
                let a = self.registers.a;
                self.set_a(a & operand);
            },
            ReadMnemonic::BIT => self.bit(operand),
            ReadMnemonic::CMP => self.compare_a(operand),
            ReadMnemonic::CPX => self.compare_x(operand),
            ReadMnemonic::CPY => self.compare_y(operand),
            ReadMnemonic::EOR => {
                let a = self.registers.a;
                self.set_a(a ^ operand);
            },
            ReadMnemonic::LDA => self.set_a(operand),
            ReadMnemonic::LDX => self.set_x(operand),
            ReadMnemonic::LDY => self.set_y(operand),
            ReadMnemonic::ORA => {
                let a = self.registers.a;
                self.set_a(a | operand);
            },
            ReadMnemonic::SBC => self.sbc(operand),
        }
    }

    /// Whether the flags take the branch.
    fn should_branch(&self, m: BranchMnemonic) -> (r: bool)
        ensures
            r == branch_taken(m, self@.registers.p),
    {
        match m {
            BranchMnemonic::BCC => !self.registers.p.carry,
            BranchMnemonic::BCS => self.registers.p.carry,
            BranchMnemonic::BEQ => self.registers.p.zero,
            BranchMnemonic::BMI => self.registers.p.negative,
            BranchMnemonic::BNE => !self.registers.p.zero,
            BranchMnemonic::BPL => !self.registers.p.negative,
            BranchMnemonic::BVC => !self.registers.p.overflow,
            BranchMnemonic::BVS => self.registers.p.overflow,
        }
    }

    /// Executes a branch: fetch the offset; when taken, read at the target's
    /// low byte on the current page (only if the target lies on another
    /// page), read at the target, and move PC there.
    fn execute_branch(&mut self, m: BranchMnemonic)
        requires
            old(self).has_room(3),
        ensures
            ({
                let pc = old(self)@.registers.pc;
                let offset = old(self)@.memory[pc as int];
                let pc1 = wrap16(pc + 1);
                let taken = branch_taken(m, old(self)@.registers.p);
                let target = branch_target(pc1, offset);
                final(self)@ == after_reads(
                    CpuView { registers: Registers { pc: if taken { target } else { pc1 }, ..old(self)@.registers }, ..old(self)@ },
                    seq![pc] + branch_reads(taken, pc1, target),
                )
            }),
    {
        let offset = self.read_pc();
        if !self.should_branch(m) {
            assert(self@.reads =~= old(self)@.reads + (seq![old(self)@.registers.pc] + branch_reads(
                false,
                self@.registers.pc,
                branch_target(self@.registers.pc, offset),
            )));
            return;
        }
        let pc = self.registers.pc;
        let next_pc = add_offset(pc, offset);
        if on_different_page(next_pc, pc) {
            let _ = self.read_byte(combine_low_high(low_byte(next_pc), high_byte(pc)));
        }
        let _ = self.read_byte(next_pc);
        self.registers.pc = next_pc;
        assert(self@.reads =~= old(self)@.reads + (seq![old(self)@.registers.pc] + branch_reads(true, pc, next_pc)));
    }

    /// Executes the instruction that `opcode` encodes, PC already past the
    /// opcode.
    fn dispatch(&mut self, opcode: u8) -> (r: Result<(), Error>)
        requires
            old(self).has_room(5),
        ensures
            final(self).wf(),
            (final(self)@, r) == dispatch_spec(opcode, old(self)@),
    {
        let instruction = decode(opcode);
        proof {
            lemma_instruction_of(opcode, instruction);
        }
        match instruction {
            Some(Instruction::SingleByte(mnemonic)) => self.execute_single_byte(mnemonic),
            Some(Instruction::Read(mnemonic, am)) => {
                if self.registers.p.decimal_mode && (mnemonic == ReadMnemonic::ADC || mnemonic
                    == ReadMnemonic::SBC) {
                    return Err(Error::DecimalModeUnsupported(opcode));
                }
                proof {
                    lemma_read_modes_resolvable(mnemonic, am);
                }
                self.execute_read(mnemonic, am)
            },
            Some(Instruction::Branch(mnemonic)) => self.execute_branch(mnemonic),
            _ => return Err(Error::IllegalOpcode(opcode)),
        }
        Ok(())
    }
}

impl Default for Cpu {
    /// Zeroed registers, zeroed memory, no cycles spent.
    fn default() -> (c: Cpu)
        ensures
            c.wf(),
            c@.memory == Seq::new(MEMORY_SIZE as nat, |i: int| 0u8),
            c@.cycles == 0,
            c@.reads == Seq::<u16>::empty(),
            c@.bit_zero_rule == BitZeroRule::Equal,
            c@.registers == (Registers {
                p: StatusRegister {
                    carry: false,
                    zero: false,
                    irq_disabled: false,
                    decimal_mode: false,
                    overflow: false,
                    negative: false,
                },
                pc: 0,
                a: 0,
                x: 0,
                y: 0,
                s: 0,
            }),
    {
        let p = StatusRegister {
            carry: false,
            zero: false,
            irq_disabled: false,
            decimal_mode: false,
            overflow: false,
            negative: false,
        };
        Cpu::new(Registers { p, pc: 0, a: 0, x: 0, y: 0, s: 0 })
    }
}

} // verus!
