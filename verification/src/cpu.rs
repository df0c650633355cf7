//! The CPU: a flat 64 KiB memory bus, the architected state, and the
//! decode/execute engine. The ghost type `CpuState` models the whole machine
//! state, and `spec_execute` / `spec_step` give the exact semantics of every
//! implemented instruction; `execute` and `step` are proved against them.

use crate::instruction::{
    spec_decode, AdcSource, AdcTarget, AddByteSource, AddByteTarget, AddTwoByteSource,
    AddTwoByteTarget, AddType, AndSource, CpSource, IncDecTarget, Instruction,
    JumpRelativeConditions, JumpTest, LoadByteSource, LoadByteTarget, LoadTwoByteSource,
    LoadTwoByteTarget, LoadType, OrSource, PrefixTarget, RetConditions, SbcSource, StackTarget,
    SubSource, XorSource,
};
use crate::register::{
    flags_of_byte, flags_to_byte, high_byte, low_byte, word_from_bytes, FlagsRegister, Registers,
};
use vstd::prelude::*;

verus! {

/// A flat byte-addressable 64 KiB memory. Reads and writes are total over
/// the 16-bit address space.
pub struct MemoryBus {
    memory: Vec<u8>,
}

impl View for MemoryBus {
    type V = Seq<u8>;

    closed spec fn view(&self) -> Seq<u8> {
        self.memory@
    }
}

impl MemoryBus {
    #[verifier::type_invariant]
    spec fn bus_wf(self) -> bool {
        self.memory@.len() == 0x10000
    }

    /// A bus with all 65,536 bytes zero.
    pub fn new() -> (r: MemoryBus)
        ensures
            r@.len() == 0x10000,
            forall|i: int| 0 <= i < 0x10000 ==> r@[i] == 0,
    {
        let mut memory: Vec<u8> = Vec::new();
        let mut i: usize = 0;
        while i < 0x10000
            invariant
                i <= 0x10000,
                memory@.len() == i,
                forall|j: int| 0 <= j < i ==> memory@[j] == 0,
            decreases 0x10000 - i,
        {
            memory.push(0);
            i = i + 1;
        }
        MemoryBus { memory }
    }

    pub fn read_byte(&self, address: u16) -> (r: u8)
        ensures
            r == self@[address as int],
    {
        proof {
            use_type_invariant(self);
        }
        self.memory[address as usize]
    }

    pub fn write_byte(&mut self, address: u16, value: u8)
        ensures
            final(self)@ == old(self)@.update(address as int, value),
    {
        proof {
            use_type_invariant(&*self);
        }
        self.memory[address as usize] = value;
    }
}

/// The failure an instruction step can surface: the fetched opcode (with or
/// without the 0xCB prefix) is not in the decode tables. It is fatal for the
/// step, because the instruction width is then unknown.
#[derive(Clone, Copy, Debug, PartialEq, Eq)]
pub enum StepError {
    UnknownOpcode { byte: u8, prefixed: bool },
}

/// The whole architected machine state, as mathematics: the eight 8-bit
/// registers (flags unpacked), SP, PC, and memory as a sequence of bytes.
#[verifier::ext_equal]
pub ghost struct CpuState {
    pub a: u8,
    pub b: u8,
    pub c: u8,
    pub d: u8,
    pub e: u8,
    pub f: FlagsRegister,
    pub h: u8,
    pub l: u8,
    pub pc: u16,
    pub sp: u16,
    pub mem: Seq<u8>,
}

/// A well-formed state has exactly the 64 KiB address space.
pub open spec fn wf(s: CpuState) -> bool {
    s.mem.len() == 0x10000
}

/// The CPU: register file, program counter, stack pointer, and memory bus.
pub struct CPU {
    pub registers: Registers,
    pub pc: u16,
    pub sp: u16,
    pub bus: MemoryBus,
}

impl View for CPU {
    type V = CpuState;

    open spec fn view(&self) -> CpuState {
        CpuState {
            a: self.registers.a,
            b: self.registers.b,
            c: self.registers.c,
            d: self.registers.d,
            e: self.registers.e,
            f: self.registers.f,
            h: self.registers.h,
            l: self.registers.l,
            pc: self.pc,
            sp: self.sp,
            mem: self.bus@,
        }
    }
}

/// The semantics of one instruction on a state: the state after execution
/// (with PC still the old one) and the next PC. The caller's step stores the
/// next PC.
#[verifier::opaque]
pub open spec fn spec_execute(s: CpuState, instruction: Instruction) -> (CpuState, u16) {
    match instruction {
        Instruction::NOP => (s, s.pc.wrapping_add(1)),
        Instruction::ADD(add_type) => match add_type {
            AddType::Byte(target, source) => {
                let value = add_byte_source_value(s, source);
                match target {
                    AddByteTarget::A => (add_a_state(s, value), s.pc.wrapping_add(1)),
                }
            },
            AddType::TwoByte(target, source) => {
                let value = add_two_byte_source_value(s, source);
                match target {
                    AddTwoByteTarget::HL => (add_hl_state(s, value), s.pc.wrapping_add(1)),
                }
            },
        },
        Instruction::ADC(target, source) => {
            let value = adc_source_value(s, source);
            let next = match target {
                AdcTarget::A => adc_a_state(s, value),
            };
            (
                next,
                match source {
                    AdcSource::D8 => s.pc.wrapping_add(2),
                    _ => s.pc.wrapping_add(1),
                },
            )
        },
        Instruction::SUB(source) => (
            sub_a_state(s, sub_source_value(s, source)),
            match source {
                SubSource::D8 => s.pc.wrapping_add(2),
                _ => s.pc.wrapping_add(1),
            },
        ),
        Instruction::SBC(source) => (
            sbc_a_state(s, sbc_source_value(s, source)),
            match source {
                SbcSource::D8 => s.pc.wrapping_add(2),
                _ => s.pc.wrapping_add(1),
            },
        ),
        Instruction::AND(source) => (
            and_a_state(s, and_source_value(s, source)),
            s.pc.wrapping_add(1),
        ),
        Instruction::XOR(source) => (
            xor_a_state(s, xor_source_value(s, source)),
            s.pc.wrapping_add(1),
        ),
        Instruction::OR(source) => (
            or_a_state(s, or_source_value(s, source)),
            s.pc.wrapping_add(1),
        ),
        Instruction::CP(source) => (
            cp_a_state(s, cp_source_value(s, source)),
            s.pc.wrapping_add(1),
        ),
        Instruction::INC(target) => (inc_state(s, target), s.pc.wrapping_add(1)),
        Instruction::DEC(target) => (dec_state(s, target), s.pc.wrapping_add(1)),
        Instruction::JP(test) => (
            s,
            if jump_test_holds(s.f, test) {
                imm16(s)
            } else {
                s.pc.wrapping_add(3)
            },
        ),
        Instruction::JR(conditions) => (
            s,
            if jr_condition_holds(s.f, conditions) {
                jr_target(s)
            } else {
                s.pc.wrapping_add(2)
            },
        ),
        Instruction::RET(conditions) => if ret_condition_holds(s.f, conditions) {
            (pop_state(s), pop_value(s))
        } else {
            (s, s.pc.wrapping_add(1))
        },
        Instruction::CALL(test) => if jump_test_holds(s.f, test) {
            let pushed = push_state(s, s.pc.wrapping_add(3));
            (pushed, imm16(pushed))
        } else {
            (s, s.pc.wrapping_add(3))
        },
        Instruction::PUSH(target) => (
            push_state(s, stack_target_value(s, target)),
            s.pc.wrapping_add(1),
        ),
        Instruction::POP(target) => (
            stack_target_write(pop_state(s), target, pop_value(s)),
            s.pc.wrapping_add(1),
        ),
        Instruction::LD(load_type) => match load_type {
            LoadType::Byte(target, source) => {
                let read = load_byte_source_read(s, source);
                (
                    load_byte_target_write(read.0, target, read.1),
                    match source {
                        LoadByteSource::D8 => s.pc.wrapping_add(2),
                        _ => s.pc.wrapping_add(1),
                    },
                )
            },
            LoadType::TwoByte(target, source) => {
                let value = match source {
                    LoadTwoByteSource::D16 => imm16(s),
                    LoadTwoByteSource::SP => s.sp,
                };
                let next = match target {
                    LoadTwoByteTarget::BC => with_bc(s, value),
                    LoadTwoByteTarget::DE => with_de(s, value),
                    LoadTwoByteTarget::HL => with_hl(s, value),
                    LoadTwoByteTarget::SP => CpuState { sp: imm16(s), ..s },
                    LoadTwoByteTarget::A16 => {
                        let address = imm16(s);
                        mem_write(
                            mem_write(s, address, low_byte(value)),
                            address.wrapping_add(1),
                            high_byte(value),
                        )
                    },
                };
                (next, s.pc.wrapping_add(3))
            },
        },
        Instruction::RLC(target) => {
            let value = prefix_target_value(s, target);
            let seventh_bit = value >> 7;
            let result = (value << 1) | seventh_bit;
            let written = prefix_target_write(s, target, result);
            (
                CpuState {
                    f: FlagsRegister {
                        zero: result == 0,
                        subtract: false,
                        half_carry: false,
                        carry: seventh_bit != 0,
                    },
                    ..written
                },
                s.pc.wrapping_add(2),
            )
        },
        Instruction::RLCA => {
            let seventh_bit = s.a >> 7;
            (
                CpuState {
                    a: (s.a << 1) | seventh_bit,
                    f: rotation_flags(seventh_bit != 0),
                    ..s
                },
                s.pc.wrapping_add(1),
            )
        },
        Instruction::RRCA => {
            let zeroth_bit = s.a & 1;
            (
                CpuState {
                    a: (zeroth_bit << 7) | (s.a >> 1),
                    f: rotation_flags(zeroth_bit != 0),
                    ..s
                },
                s.pc.wrapping_add(1),
            )
        },
        Instruction::RLA => {
            let seventh_bit = s.a >> 7;
            let carry_in: u8 = if s.f.carry { 1 } else { 0 };
            (
                CpuState {
                    a: (s.a << 1) | carry_in,
                    f: rotation_flags(seventh_bit != 0),
                    ..s
                },
                s.pc.wrapping_add(1),
            )
        },
        Instruction::RRA => {
            let zeroth_bit = s.a & 1;
            let carry_in: u8 = if s.f.carry { 1 } else { 0 };
            (
                CpuState {
                    a: (s.a >> 1) | (carry_in << 7),
                    f: rotation_flags(zeroth_bit != 0),
                    ..s
                },
                s.pc.wrapping_add(1),
            )
        },
        Instruction::DAA => (daa_state(s), s.pc.wrapping_add(1)),
        Instruction::CPL => (
            CpuState {
                a: !s.a,
                f: FlagsRegister {
                    zero: s.f.zero,
                    subtract: true,
                    half_carry: true,
                    carry: s.f.carry,
                },
                ..s
            },
            s.pc.wrapping_add(1),
        ),
        Instruction::SCF => (
            CpuState {
                f: FlagsRegister {
                    zero: s.f.zero,
                    subtract: false,
                    half_carry: false,
                    carry: true,
                },
                ..s
            },
            s.pc.wrapping_add(1),
        ),
        Instruction::CCF => (
            CpuState {
                f: FlagsRegister {
                    zero: s.f.zero,
                    subtract: false,
                    half_carry: false,
                    carry: !s.f.carry,
                },
                ..s
            },
            s.pc.wrapping_add(1),
        ),
    }
}

/// The semantics of one step: fetch the opcode at PC (two bytes when the
/// first is the 0xCB prefix), decode, execute, and store the next PC; an
/// opcode missing from the tables yields the `UnknownOpcode` failure and
/// leaves the state unchanged.
pub open spec fn spec_step(s: CpuState) -> Result<CpuState, StepError> {
    let first = mem_read(s, s.pc);
    let prefixed = first == 0xCB;
    let opcode = if prefixed {
        mem_read(s, s.pc.wrapping_add(1))
    } else {
        first
    };
    match spec_decode(opcode, prefixed) {
        Some(instruction) => {
            let executed = spec_execute(s, instruction);
            Ok(CpuState { pc: executed.1, ..executed.0 })
        },
        None => Err(StepError::UnknownOpcode { byte: opcode, prefixed }),
    }
}

/// The BC pair of a state.
pub open spec fn cs_bc(s: CpuState) -> u16 {
    word_from_bytes(s.b, s.c)
}

/// The DE pair of a state.
pub open spec fn cs_de(s: CpuState) -> u16 {
    word_from_bytes(s.d, s.e)
}

/// The HL pair of a state.
pub open spec fn cs_hl(s: CpuState) -> u16 {
    word_from_bytes(s.h, s.l)
}

/// The AF pair of a state: A as the high byte, the packed flags as the low.
pub open spec fn cs_af(s: CpuState) -> u16 {
    word_from_bytes(s.a, flags_to_byte(s.f))
}

/// The byte of memory at `addr`.
pub open spec fn mem_read(s: CpuState, addr: u16) -> u8 {
    s.mem[addr as int]
}

/// The state with the byte at `addr` replaced by `value`.
pub open spec fn mem_write(s: CpuState, addr: u16, value: u8) -> CpuState {
    CpuState { mem: s.mem.update(addr as int, value), ..s }
}

/// The immediate byte of the instruction at PC: the byte at `PC + 1`.
pub open spec fn imm8(s: CpuState) -> u8 {
    mem_read(s, s.pc.wrapping_add(1))
}

/// The little-endian immediate word of the instruction at PC: the low byte
/// at `PC + 1`, the high byte at `PC + 2`.
pub open spec fn imm16(s: CpuState) -> u16 {
    word_from_bytes(mem_read(s, s.pc.wrapping_add(2)), mem_read(s, s.pc.wrapping_add(1)))
}

/// The state with the BC pair set to `value`.
pub open spec fn with_bc(s: CpuState, value: u16) -> CpuState {
    CpuState { b: high_byte(value), c: low_byte(value), ..s }
}

/// The state with the DE pair set to `value`.
pub open spec fn with_de(s: CpuState, value: u16) -> CpuState {
    CpuState { d: high_byte(value), e: low_byte(value), ..s }
}

/// The state with the HL pair set to `value`.
pub open spec fn with_hl(s: CpuState, value: u16) -> CpuState {
    CpuState { h: high_byte(value), l: low_byte(value), ..s }
}

/// The state with the AF pair set to `value`; the flags come from the low
/// byte via `flags_of_byte`, so the low nibble of F is dropped.
pub open spec fn with_af(s: CpuState, value: u16) -> CpuState {
    CpuState { a: high_byte(value), f: flags_of_byte(low_byte(value)), ..s }
}

/// State after an 8-bit ADD of `value` to A. Z iff the wrapped sum is zero,
/// N = 0, H iff the low nibbles sum past 0x0F, C iff the raw sum exceeds 0xFF.
pub open spec fn add_a_state(s: CpuState, value: u8) -> CpuState {
    let result = s.a.wrapping_add(value);
    CpuState {
        a: result,
        f: FlagsRegister {
            zero: result == 0,
            subtract: false,
            half_carry: s.a % 16 + value % 16 > 0x0F,
            carry: s.a + value > 0xFF,
        },
        ..s
    }
}

/// State after an 8-bit ADC of `value` to A with the current carry as the
/// third term, per the three-term formulas.
pub open spec fn adc_a_state(s: CpuState, value: u8) -> CpuState {
    let carry_in: u8 = if s.f.carry { 1 } else { 0 };
    let result = s.a.wrapping_add(value).wrapping_add(carry_in);
    CpuState {
        a: result,
        f: FlagsRegister {
            zero: result == 0,
            subtract: false,
            half_carry: s.a % 16 + value % 16 + carry_in > 0x0F,
            carry: s.a + value + carry_in > 0xFF,
        },
        ..s
    }
}

/// State after an 8-bit SUB of `value` from A. N = 1, H iff the low nibble
/// of A is smaller than the low nibble of `value`, C iff A < `value`.
pub open spec fn sub_a_state(s: CpuState, value: u8) -> CpuState {
    let result = s.a.wrapping_sub(value);
    CpuState {
        a: result,
        f: FlagsRegister {
            zero: result == 0,
            subtract: true,
            half_carry: s.a % 16 < value % 16,
            carry: s.a < value,
        },
        ..s
    }
}

/// State after an 8-bit SBC of `value` from A with the current carry as the
/// third term of the borrow formulas.
pub open spec fn sbc_a_state(s: CpuState, value: u8) -> CpuState {
    let carry_in: u8 = if s.f.carry { 1 } else { 0 };
    let result = s.a.wrapping_sub(value).wrapping_sub(carry_in);
    CpuState {
        a: result,
        f: FlagsRegister {
            zero: result == 0,
            subtract: true,
            half_carry: s.a % 16 < value % 16 + carry_in,
            carry: s.a < value + carry_in,
        },
        ..s
    }
}

/// State after AND: A holds the conjunction; C = 0, N = 0, H = 1.
pub open spec fn and_a_state(s: CpuState, value: u8) -> CpuState {
    let result = s.a & value;
    CpuState {
        a: result,
        f: FlagsRegister {
            zero: result == 0,
            subtract: false,
            half_carry: true,
            carry: false,
        },
        ..s
    }
}

/// State after XOR: A holds the exclusive or; C = 0, N = 0, H = 0.
pub open spec fn xor_a_state(s: CpuState, value: u8) -> CpuState {
    let result = s.a ^ value;
    CpuState {
        a: result,
        f: FlagsRegister {
            zero: result == 0,
            subtract: false,
            half_carry: false,
            carry: false,
        },
        ..s
    }
}

/// State after OR: A holds the disjunction; C = 0, N = 0, H = 0.
pub open spec fn or_a_state(s: CpuState, value: u8) -> CpuState {
    let result = s.a | value;
    CpuState {
        a: result,
        f: FlagsRegister {
            zero: result == 0,
            subtract: false,
            half_carry: false,
            carry: false,
        },
        ..s
    }
}

/// State after CP: the flags of SUB, but A is left unchanged.
pub open spec fn cp_a_state(s: CpuState, value: u8) -> CpuState {
    CpuState {
        f: FlagsRegister {
            zero: s.a.wrapping_sub(value) == 0,
            subtract: true,
            half_carry: s.a % 16 < value % 16,
            carry: s.a < value,
        },
        ..s
    }
}

/// State after a 16-bit ADD of `value` to HL. Z is preserved; N = 0; H iff
/// the low twelve bits sum past 0x0FFF; C iff the raw sum exceeds 0xFFFF.
pub open spec fn add_hl_state(s: CpuState, value: u16) -> CpuState {
    let hl = cs_hl(s);
    let result = hl.wrapping_add(value);
    CpuState {
        h: high_byte(result),
        l: low_byte(result),
        f: FlagsRegister {
            zero: s.f.zero,
            subtract: false,
            half_carry: value % 0x1000 + hl % 0x1000 > 0x0FFF,
            carry: hl + value > 0xFFFF,
        },
        ..s
    }
}

/// The wrapped value of an 8-bit INC.
pub open spec fn inc8_result(value: u8) -> u8 {
    value.wrapping_add(1)
}

/// Flags after an 8-bit INC of `value`: Z per result, N = 0, H iff the low
/// nibble was 0x0F, and C preserved.
pub open spec fn inc8_flags(f: FlagsRegister, value: u8) -> FlagsRegister {
    FlagsRegister {
        zero: value.wrapping_add(1) == 0,
        subtract: false,
        half_carry: value % 16 + 1 > 0x0F,
        carry: f.carry,
    }
}

/// The wrapped value of an 8-bit DEC.
pub open spec fn dec8_result(value: u8) -> u8 {
    value.wrapping_sub(1)
}

/// Flags after an 8-bit DEC of `value`: Z per result, N = 1, H iff the low
/// nibble was 0, and C preserved.
pub open spec fn dec8_flags(f: FlagsRegister, value: u8) -> FlagsRegister {
    FlagsRegister {
        zero: value.wrapping_sub(1) == 0,
        subtract: true,
        half_carry: value % 16 == 0,
        carry: f.carry,
    }
}

/// Flags after an accumulator rotate: Z = 0, N = 0, H = 0, C as computed.
pub open spec fn rotation_flags(carry_out: bool) -> FlagsRegister {
    FlagsRegister { zero: false, subtract: false, half_carry: false, carry: carry_out }
}

/// State after DAA: A is corrected to packed BCD after the preceding add or
/// subtract; Z per result, N preserved, H cleared, C from the high-digit
/// adjustment condition.
pub open spec fn daa_state(s: CpuState) -> CpuState {
    let adjust_low: bool = (!s.f.subtract && s.a % 16 > 0x09) || s.f.half_carry;
    let adjust_high: bool = (!s.f.subtract && s.a > 0x99) || s.f.carry;
    let offset: u8 = ((if adjust_low {
        0x06int
    } else {
        0int
    }) + (if adjust_high {
        0x60int
    } else {
        0int
    })) as u8;
    let result = if !s.f.subtract {
        s.a.wrapping_add(offset)
    } else {
        s.a.wrapping_sub(offset)
    };
    CpuState {
        a: result,
        f: FlagsRegister {
            zero: result == 0,
            subtract: s.f.subtract,
            half_carry: false,
            carry: adjust_high,
        },
        ..s
    }
}

/// State after pushing `value`: SP moves down twice, the high byte lands at
/// the first decremented address, the low byte below it.
pub open spec fn push_state(s: CpuState, value: u16) -> CpuState {
    let sp1 = s.sp.wrapping_sub(1);
    let sp2 = sp1.wrapping_sub(1);
    CpuState {
        sp: sp2,
        mem: s.mem.update(sp1 as int, high_byte(value)).update(sp2 as int, low_byte(value)),
        ..s
    }
}

/// The word a POP reads: low byte at SP, high byte at SP + 1.
pub open spec fn pop_value(s: CpuState) -> u16 {
    word_from_bytes(mem_read(s, s.sp.wrapping_add(1)), mem_read(s, s.sp))
}

/// State after the SP movement of a POP.
pub open spec fn pop_state(s: CpuState) -> CpuState {
    CpuState { sp: s.sp.wrapping_add(1).wrapping_add(1), ..s }
}

/// Whether a jump or call condition holds of the flags.
pub open spec fn jump_test_holds(f: FlagsRegister, test: JumpTest) -> bool {
    match test {
        JumpTest::NotZero => !f.zero,
        JumpTest::Zero => f.zero,
        JumpTest::NotCarry => !f.carry,
        JumpTest::Carry => f.carry,
        JumpTest::Always => true,
    }
}

/// Whether a relative-jump condition holds of the flags.
pub open spec fn jr_condition_holds(f: FlagsRegister, conditions: JumpRelativeConditions) -> bool {
    match conditions {
        JumpRelativeConditions::NoZeroFlag => !f.zero,
        JumpRelativeConditions::ZeroFlag => f.zero,
        JumpRelativeConditions::NoCarryFlag => !f.carry,
        JumpRelativeConditions::CarryFlag => f.carry,
        JumpRelativeConditions::Always => true,
    }
}

/// Whether a return condition holds of the flags.
pub open spec fn ret_condition_holds(f: FlagsRegister, conditions: RetConditions) -> bool {
    match conditions {
        RetConditions::NoZeroFlag => !f.zero,
        RetConditions::ZeroFlag => f.zero,
        RetConditions::NoCarryFlag => !f.carry,
        RetConditions::CarryFlag => f.carry,
        RetConditions::Always => true,
    }
}

/// The 16-bit two's-complement form of a signed 8-bit offset.
pub open spec fn sign_extend_offset(offset: u8) -> u16 {
    if offset >= 0x80 {
        (offset + 0xFF00) as u16
    } else {
        offset as u16
    }
}

/// The target of a taken relative jump: the offset byte at `PC + 1`, taken
/// signed, added to `PC + 2` with 16-bit wrap.
pub open spec fn jr_target(s: CpuState) -> u16 {
    s.pc.wrapping_add(2).wrapping_add(sign_extend_offset(imm8(s)))
}

/// The operand value an `AddByteSource` selector reads from a state.
pub open spec fn add_byte_source_value(s: CpuState, source: AddByteSource) -> u8 {
    match source {
        AddByteSource::A => s.a,
        AddByteSource::B => s.b,
        AddByteSource::C => s.c,
        AddByteSource::D => s.d,
        AddByteSource::E => s.e,
        AddByteSource::H => s.h,
        AddByteSource::L => s.l,
        AddByteSource::HLI => mem_read(s, cs_hl(s)),
    }
}

/// The operand value an `AddTwoByteSource` selector reads from a state.
pub open spec fn add_two_byte_source_value(s: CpuState, source: AddTwoByteSource) -> u16 {
    match source {
        AddTwoByteSource::BC => cs_bc(s),
        AddTwoByteSource::DE => cs_de(s),
        AddTwoByteSource::HL => cs_hl(s),
        AddTwoByteSource::SP => s.sp,
    }
}

/// The operand value an `AdcSource` selector reads from a state.
pub open spec fn adc_source_value(s: CpuState, source: AdcSource) -> u8 {
    match source {
        AdcSource::A => s.a,
        AdcSource::B => s.b,
        AdcSource::C => s.c,
        AdcSource::D => s.d,
        AdcSource::E => s.e,
        AdcSource::H => s.h,
        AdcSource::L => s.l,
        AdcSource::D8 => imm8(s),
        AdcSource::HLI => mem_read(s, cs_hl(s)),
    }
}

/// The operand value an `SubSource` selector reads from a state.
pub open spec fn sub_source_value(s: CpuState, source: SubSource) -> u8 {
    match source {
        SubSource::A => s.a,
        SubSource::B => s.b,
        SubSource::C => s.c,
        SubSource::D => s.d,
        SubSource::E => s.e,
        SubSource::H => s.h,
        SubSource::L => s.l,
        SubSource::D8 => imm8(s),
        SubSource::HLI => mem_read(s, cs_hl(s)),
    }
}

/// The operand value an `SbcSource` selector reads from a state.
pub open spec fn sbc_source_value(s: CpuState, source: SbcSource) -> u8 {
    match source {
        SbcSource::A => s.a,
        SbcSource::B => s.b,
        SbcSource::C => s.c,
        SbcSource::D => s.d,
        SbcSource::E => s.e,
        SbcSource::H => s.h,
        SbcSource::L => s.l,
        SbcSource::D8 => imm8(s),
        SbcSource::HLI => mem_read(s, cs_hl(s)),
    }
}

/// The operand value an `AndSource` selector reads from a state.
pub open spec fn and_source_value(s: CpuState, source: AndSource) -> u8 {
    match source {
        AndSource::A => s.a,
        AndSource::B => s.b,
        AndSource::C => s.c,
        AndSource::D => s.d,
        AndSource::E => s.e,
        AndSource::H => s.h,
        AndSource::L => s.l,
        AndSource::HLI => mem_read(s, cs_hl(s)),
    }
}

/// The operand value an `XorSource` selector reads from a state.
pub open spec fn xor_source_value(s: CpuState, source: XorSource) -> u8 {
    match source {
        XorSource::A => s.a,
        XorSource::B => s.b,
        XorSource::C => s.c,
        XorSource::D => s.d,
        XorSource::E => s.e,
        XorSource::H => s.h,
        XorSource::L => s.l,
        XorSource::HLI => mem_read(s, cs_hl(s)),
    }
}

/// The operand value an `OrSource` selector reads from a state.
pub open spec fn or_source_value(s: CpuState, source: OrSource) -> u8 {
    match source {
        OrSource::A => s.a,
        OrSource::B => s.b,
        OrSource::C => s.c,
        OrSource::D => s.d,
        OrSource::E => s.e,
        OrSource::H => s.h,
        OrSource::L => s.l,
        OrSource::HLI => mem_read(s, cs_hl(s)),
    }
}

/// The operand value an `CpSource` selector reads from a state.
pub open spec fn cp_source_value(s: CpuState, source: CpSource) -> u8 {
    match source {
        CpSource::A => s.a,
        CpSource::B => s.b,
        CpSource::C => s.c,
        CpSource::D => s.d,
        CpSource::E => s.e,
        CpSource::H => s.h,
        CpSource::L => s.l,
        CpSource::HLI => mem_read(s, cs_hl(s)),
    }
}

/// The operand value a prefixed rotate reads.
pub open spec fn prefix_target_value(s: CpuState, target: PrefixTarget) -> u8 {
    match target {
        PrefixTarget::A => s.a,
        PrefixTarget::B => s.b,
        PrefixTarget::C => s.c,
        PrefixTarget::D => s.d,
        PrefixTarget::E => s.e,
        PrefixTarget::H => s.h,
        PrefixTarget::L => s.l,
        PrefixTarget::HLI => mem_read(s, cs_hl(s)),
    }
}

/// The state with a prefixed rotate's result written back to its operand.
pub open spec fn prefix_target_write(s: CpuState, target: PrefixTarget, value: u8) -> CpuState {
    match target {
        PrefixTarget::A => CpuState { a: value, ..s },
        PrefixTarget::B => CpuState { b: value, ..s },
        PrefixTarget::C => CpuState { c: value, ..s },
        PrefixTarget::D => CpuState { d: value, ..s },
        PrefixTarget::E => CpuState { e: value, ..s },
        PrefixTarget::H => CpuState { h: value, ..s },
        PrefixTarget::L => CpuState { l: value, ..s },
        PrefixTarget::HLI => mem_write(s, cs_hl(s), value),
    }
}

/// What an 8-bit load source yields: the (possibly changed) state and the
/// value read. The `(HL+)` and `(HL-)` forms read at HL and then step HL.
pub open spec fn load_byte_source_read(s: CpuState, source: LoadByteSource) -> (CpuState, u8) {
    match source {
        LoadByteSource::A => (s, s.a),
        LoadByteSource::B => (s, s.b),
        LoadByteSource::C => (s, s.c),
        LoadByteSource::D => (s, s.d),
        LoadByteSource::E => (s, s.e),
        LoadByteSource::H => (s, s.h),
        LoadByteSource::L => (s, s.l),
        LoadByteSource::D8 => (s, imm8(s)),
        LoadByteSource::BCI => (s, mem_read(s, cs_bc(s))),
        LoadByteSource::DEI => (s, mem_read(s, cs_de(s))),
        LoadByteSource::HLI => (s, mem_read(s, cs_hl(s))),
        LoadByteSource::HLIP => (with_hl(s, cs_hl(s).wrapping_add(1)), mem_read(s, cs_hl(s))),
        LoadByteSource::HLIM => (with_hl(s, cs_hl(s).wrapping_sub(1)), mem_read(s, cs_hl(s))),
    }
}

/// The state with an 8-bit load's value written to its target. The `(HL+)`
/// and `(HL-)` forms write at HL and then step HL.
pub open spec fn load_byte_target_write(s: CpuState, target: LoadByteTarget, value: u8) -> CpuState {
    match target {
        LoadByteTarget::A => CpuState { a: value, ..s },
        LoadByteTarget::B => CpuState { b: value, ..s },
        LoadByteTarget::C => CpuState { c: value, ..s },
        LoadByteTarget::D => CpuState { d: value, ..s },
        LoadByteTarget::E => CpuState { e: value, ..s },
        LoadByteTarget::H => CpuState { h: value, ..s },
        LoadByteTarget::L => CpuState { l: value, ..s },
        LoadByteTarget::BCI => mem_write(s, cs_bc(s), value),
        LoadByteTarget::DEI => mem_write(s, cs_de(s), value),
        LoadByteTarget::HLI => mem_write(s, cs_hl(s), value),
        LoadByteTarget::HLIP => with_hl(mem_write(s, cs_hl(s), value), cs_hl(s).wrapping_add(1)),
        LoadByteTarget::HLIM => with_hl(mem_write(s, cs_hl(s), value), cs_hl(s).wrapping_sub(1)),
    }
}

/// State after INC of the given target: the 8-bit forms set Z, N, H and
/// preserve C; the 16-bit forms leave every flag unchanged.
pub open spec fn inc_state(s: CpuState, target: IncDecTarget) -> CpuState {
    match target {
        IncDecTarget::A => CpuState { a: inc8_result(s.a), f: inc8_flags(s.f, s.a), ..s },
        IncDecTarget::B => CpuState { b: inc8_result(s.b), f: inc8_flags(s.f, s.b), ..s },
        IncDecTarget::C => CpuState { c: inc8_result(s.c), f: inc8_flags(s.f, s.c), ..s },
        IncDecTarget::D => CpuState { d: inc8_result(s.d), f: inc8_flags(s.f, s.d), ..s },
        IncDecTarget::E => CpuState { e: inc8_result(s.e), f: inc8_flags(s.f, s.e), ..s },
        IncDecTarget::H => CpuState { h: inc8_result(s.h), f: inc8_flags(s.f, s.h), ..s },
        IncDecTarget::L => CpuState { l: inc8_result(s.l), f: inc8_flags(s.f, s.l), ..s },
        IncDecTarget::BC => with_bc(s, cs_bc(s).wrapping_add(1)),
        IncDecTarget::DE => with_de(s, cs_de(s).wrapping_add(1)),
        IncDecTarget::HL => with_hl(s, cs_hl(s).wrapping_add(1)),
        IncDecTarget::HLI => {
            let addr = cs_hl(s);
            let value = mem_read(s, addr);
            CpuState {
                f: inc8_flags(s.f, value),
                mem: s.mem.update(addr as int, inc8_result(value)),
                ..s
            }
        },
        IncDecTarget::SP => CpuState { sp: s.sp.wrapping_add(1), ..s },
    }
}

/// State after DEC of the given target, the mirror of `inc_state`.
pub open spec fn dec_state(s: CpuState, target: IncDecTarget) -> CpuState {
    match target {
        IncDecTarget::A => CpuState { a: dec8_result(s.a), f: dec8_flags(s.f, s.a), ..s },
        IncDecTarget::B => CpuState { b: dec8_result(s.b), f: dec8_flags(s.f, s.b), ..s },
        IncDecTarget::C => CpuState { c: dec8_result(s.c), f: dec8_flags(s.f, s.c), ..s },
        IncDecTarget::D => CpuState { d: dec8_result(s.d), f: dec8_flags(s.f, s.d), ..s },
        IncDecTarget::E => CpuState { e: dec8_result(s.e), f: dec8_flags(s.f, s.e), ..s },
        IncDecTarget::H => CpuState { h: dec8_result(s.h), f: dec8_flags(s.f, s.h), ..s },
        IncDecTarget::L => CpuState { l: dec8_result(s.l), f: dec8_flags(s.f, s.l), ..s },
        IncDecTarget::BC => with_bc(s, cs_bc(s).wrapping_sub(1)),
        IncDecTarget::DE => with_de(s, cs_de(s).wrapping_sub(1)),
        IncDecTarget::HL => with_hl(s, cs_hl(s).wrapping_sub(1)),
        IncDecTarget::HLI => {
            let addr = cs_hl(s);
            let value = mem_read(s, addr);
            CpuState {
                f: dec8_flags(s.f, value),
                mem: s.mem.update(addr as int, dec8_result(value)),
                ..s
            }
        },
        IncDecTarget::SP => CpuState { sp: s.sp.wrapping_sub(1), ..s },
    }
}

/// The pair value a PUSH reads.
pub open spec fn stack_target_value(s: CpuState, target: StackTarget) -> u16 {
    match target {
        StackTarget::AF => cs_af(s),
        StackTarget::BC => cs_bc(s),
        StackTarget::DE => cs_de(s),
        StackTarget::HL => cs_hl(s),
    }
}

/// The state with a POP's word written to its pair; writing AF masks the
/// low nibble of F to zero.
pub open spec fn stack_target_write(s: CpuState, target: StackTarget, value: u16) -> CpuState {
    match target {
        StackTarget::AF => with_af(s, value),
        StackTarget::BC => with_bc(s, value),
        StackTarget::DE => with_de(s, value),
        StackTarget::HL => with_hl(s, value),
    }
}

impl CPU {
    /// A CPU with all registers, flags, SP and PC zero and memory zeroed.
    pub fn new() -> (r: CPU)
        ensures
            r@.a == 0 && r@.b == 0 && r@.c == 0 && r@.d == 0 && r@.e == 0 && r@.h == 0 && r@.l
                == 0,
            r@.f == (FlagsRegister {
                zero: false,
                subtract: false,
                half_carry: false,
                carry: false,
            }),
            r@.pc == 0 && r@.sp == 0,
            r@.mem.len() == 0x10000,
            forall|i: int| 0 <= i < 0x10000 ==> r@.mem[i] == 0,
    {
        CPU { registers: Registers::new(), pc: 0, sp: 0, bus: MemoryBus::new() }
    }

    fn read_next_byte(&self) -> (r: u8)
        ensures
            r == imm8(self@),
    {
        self.bus.read_byte(self.pc.wrapping_add(1))
    }

    fn read_immediate_16bit(&self) -> (r: u16)
        ensures
            r == imm16(self@),
    {
        let low = self.bus.read_byte(self.pc.wrapping_add(1)) as u16;
        let high = self.bus.read_byte(self.pc.wrapping_add(2)) as u16;
        high * 0x100 + low
    }

    fn jump(&self, should_jump: bool) -> (r: u16)
        ensures
            r == (if should_jump {
                imm16(self@)
            } else {
                self.pc.wrapping_add(3)
            }),
    {
        if should_jump {
            self.read_immediate_16bit()
        } else {
            self.pc.wrapping_add(3)
        }
    }

    fn push(&mut self, value: u16)
        ensures
            final(self)@ == push_state(old(self)@, value),
    {
        self.sp = self.sp.wrapping_sub(1);
        self.bus.write_byte(self.sp, (value / 0x100) as u8);
        self.sp = self.sp.wrapping_sub(1);
        self.bus.write_byte(self.sp, (value % 0x100) as u8);
    }

    fn pop(&mut self) -> (r: u16)
        ensures
            r == pop_value(old(self)@),
            final(self)@ == pop_state(old(self)@),
    {
        let lsb = self.bus.read_byte(self.sp) as u16;
        self.sp = self.sp.wrapping_add(1);
        let msb = self.bus.read_byte(self.sp) as u16;
        self.sp = self.sp.wrapping_add(1);
        msb * 0x100 + lsb
    }

    fn call(&mut self, should_jump: bool) -> (r: u16)
        ensures
            should_jump ==> final(self)@ == push_state(old(self)@, old(self).pc.wrapping_add(3))
                && r == imm16(push_state(old(self)@, old(self).pc.wrapping_add(3))),
            !should_jump ==> final(self)@ == old(self)@ && r == old(self).pc.wrapping_add(3),
    {
        let next_pc = self.pc.wrapping_add(3);
        if should_jump {
            self.push(next_pc);
            self.jump(true)
        } else {
            next_pc
        }
    }

    fn return_(&mut self, should_jump: bool) -> (r: u16)
        ensures
            should_jump ==> final(self)@ == pop_state(old(self)@) && r == pop_value(old(self)@),
            !should_jump ==> final(self)@ == old(self)@ && r == old(self).pc.wrapping_add(1),
    {
        if should_jump {
            self.pop()
        } else {
            self.pc.wrapping_add(1)
        }
    }

    fn add_to_a(&mut self, value: u8)
        ensures
            final(self)@ == add_a_state(old(self)@, value),
    {
        let a_value = self.registers.a;
        let result = a_value.wrapping_add(value);
        self.registers.set_f(
            Some(result == 0),
            Some(false),
            Some(a_value % 16 + value % 16 > 0x0F),
            Some(value > 0xFF - a_value),
        );
        self.registers.a = result;
    }

    fn add_to_hl(&mut self, value: u16)
        ensures
            final(self)@ == add_hl_state(old(self)@, value),
    {
        let hl_value = self.registers.get_hl();
        let new_value = hl_value.wrapping_add(value);
        self.registers.set_f(
            None,
            Some(false),
            Some(value % 0x1000 + hl_value % 0x1000 > 0x0FFF),
            Some(value > 0xFFFF - hl_value),
        );
        self.registers.set_hl(new_value);
    }

    fn adc_to_a(&mut self, value: u8)
        ensures
            final(self)@ == adc_a_state(old(self)@, value),
    {
        let a_value = self.registers.a;
        let carry: u8 = if self.registers.f.carry {
            1
        } else {
            0
        };
        let result = a_value.wrapping_add(value).wrapping_add(carry);
        self.registers.set_f(
            Some(result == 0),
            Some(false),
            Some(a_value % 16 + value % 16 + carry > 0x0F),
            Some((a_value as u16) + (value as u16) + (carry as u16) > 0xFF),
        );
        self.registers.a = result;
    }

    fn sub_a(&mut self, value: u8)
        ensures
            final(self)@ == sub_a_state(old(self)@, value),
    {
        let a = self.registers.a;
        let result = a.wrapping_sub(value);
        self.registers.set_f(
            Some(result == 0),
            Some(true),
            Some(a % 16 < value % 16),
            Some(a < value),
        );
        self.registers.a = result;
    }

    fn sbc_a(&mut self, value: u8)
        ensures
            final(self)@ == sbc_a_state(old(self)@, value),
    {
        let a = self.registers.a;
        let carry: u8 = if self.registers.f.carry {
            1
        } else {
            0
        };
        let result = a.wrapping_sub(value).wrapping_sub(carry);
        self.registers.set_f(
            Some(result == 0),
            Some(true),
            Some(a % 16 < value % 16 + carry),
            Some((a as u16) < (value as u16) + (carry as u16)),
        );
        self.registers.a = result;
    }

    fn and_a(&mut self, value: u8)
        ensures
            final(self)@ == and_a_state(old(self)@, value),
    {
        let result = self.registers.a & value;
        self.registers.a = result;
        self.registers.set_f(Some(result == 0), Some(false), Some(true), Some(false));
    }

    fn xor_a(&mut self, value: u8)
        ensures
            final(self)@ == xor_a_state(old(self)@, value),
    {
        let result = self.registers.a ^ value;
        self.registers.a = result;
        self.registers.set_f(Some(result == 0), Some(false), Some(false), Some(false));
    }

    fn or_a(&mut self, value: u8)
        ensures
            final(self)@ == or_a_state(old(self)@, value),
    {
        let result = self.registers.a | value;
        self.registers.a = result;
        self.registers.set_f(Some(result == 0), Some(false), Some(false), Some(false));
    }

    fn cp_a(&mut self, value: u8)
        ensures
            final(self)@ == cp_a_state(old(self)@, value),
    {
        let result = self.registers.a.wrapping_sub(value);
        self.registers.set_f(
            Some(result == 0),
            Some(true),
            Some(self.registers.a % 16 < value % 16),
            Some(self.registers.a < value),
        );
    }

    fn inc_8bit(&mut self, value: u8) -> (r: u8)
        ensures
            r == inc8_result(value),
            final(self)@ == (CpuState { f: inc8_flags(old(self)@.f, value), ..old(self)@ }),
    {
        let new_value = value.wrapping_add(1);
        self.registers.set_f(
            Some(new_value == 0),
            Some(false),
            Some(value % 16 + 1 > 0x0F),
            None,
        );
        new_value
    }

    fn dec_8bit(&mut self, value: u8) -> (r: u8)
        ensures
            r == dec8_result(value),
            final(self)@ == (CpuState { f: dec8_flags(old(self)@.f, value), ..old(self)@ }),
    {
        let new_value = value.wrapping_sub(1);
        self.registers.set_f(
            Some(new_value == 0),
            Some(true),
            Some(value % 16 == 0),
            None,
        );
        new_value
    }

    fn dec_16bit(&self, value: u16) -> (r: u16)
        ensures
            r == value.wrapping_sub(1),
    {
        value.wrapping_sub(1)
    }

    fn set_rotation_flags(&mut self, carry: u8)
        ensures
            final(self)@ == (CpuState { f: rotation_flags(carry != 0), ..old(self)@ }),
    {
        self.registers.set_f(Some(false), Some(false), Some(false), Some(carry != 0));
    }

    fn add_byte_source(&self, source: AddByteSource) -> (r: u8)
        ensures
            r == add_byte_source_value(self@, source),
    {
        match source {
            AddByteSource::A => self.registers.a,
            AddByteSource::B => self.registers.b,
            AddByteSource::C => self.registers.c,
            AddByteSource::D => self.registers.d,
            AddByteSource::E => self.registers.e,
            AddByteSource::H => self.registers.h,
            AddByteSource::L => self.registers.l,
            AddByteSource::HLI => self.bus.read_byte(self.registers.get_hl()),
        }
    }

    fn adc_source(&self, source: AdcSource) -> (r: u8)
        ensures
            r == adc_source_value(self@, source),
    {
        match source {
            AdcSource::A => self.registers.a,
            AdcSource::B => self.registers.b,
            AdcSource::C => self.registers.c,
            AdcSource::D => self.registers.d,
            AdcSource::E => self.registers.e,
            AdcSource::H => self.registers.h,
            AdcSource::L => self.registers.l,
            AdcSource::D8 => self.read_next_byte(),
            AdcSource::HLI => self.bus.read_byte(self.registers.get_hl()),
        }
    }

    fn sub_source(&self, source: SubSource) -> (r: u8)
        ensures
            r == sub_source_value(self@, source),
    {
        match source {
            SubSource::A => self.registers.a,
            SubSource::B => self.registers.b,
            SubSource::C => self.registers.c,
            SubSource::D => self.registers.d,
            SubSource::E => self.registers.e,
            SubSource::H => self.registers.h,
            SubSource::L => self.registers.l,
            SubSource::D8 => self.read_next_byte(),
            SubSource::HLI => self.bus.read_byte(self.registers.get_hl()),
        }
    }

    fn sbc_source(&self, source: SbcSource) -> (r: u8)
        ensures
            r == sbc_source_value(self@, source),
    {
        match source {
            SbcSource::A => self.registers.a,
            SbcSource::B => self.registers.b,
            SbcSource::C => self.registers.c,
            SbcSource::D => self.registers.d,
            SbcSource::E => self.registers.e,
            SbcSource::H => self.registers.h,
            SbcSource::L => self.registers.l,
            SbcSource::D8 => self.read_next_byte(),
            SbcSource::HLI => self.bus.read_byte(self.registers.get_hl()),
        }
    }

    fn and_source(&self, source: AndSource) -> (r: u8)
        ensures
            r == and_source_value(self@, source),
    {
        match source {
            AndSource::A => self.registers.a,
            AndSource::B => self.registers.b,
            AndSource::C => self.registers.c,
            AndSource::D => self.registers.d,
            AndSource::E => self.registers.e,
            AndSource::H => self.registers.h,
            AndSource::L => self.registers.l,
            AndSource::HLI => self.bus.read_byte(self.registers.get_hl()),
        }
    }

    fn xor_source(&self, source: XorSource) -> (r: u8)
        ensures
            r == xor_source_value(self@, source),
    {
        match source {
            XorSource::A => self.registers.a,
            XorSource::B => self.registers.b,
            XorSource::C => self.registers.c,
            XorSource::D => self.registers.d,
            XorSource::E => self.registers.e,
            XorSource::H => self.registers.h,
            XorSource::L => self.registers.l,
            XorSource::HLI => self.bus.read_byte(self.registers.get_hl()),
        }
    }

    fn or_source(&self, source: OrSource) -> (r: u8)
        ensures
            r == or_source_value(self@, source),
    {
        match source {
            OrSource::A => self.registers.a,
            OrSource::B => self.registers.b,
            OrSource::C => self.registers.c,
            OrSource::D => self.registers.d,
            OrSource::E => self.registers.e,
            OrSource::H => self.registers.h,
            OrSource::L => self.registers.l,
            OrSource::HLI => self.bus.read_byte(self.registers.get_hl()),
        }
    }

    fn cp_source(&self, source: CpSource) -> (r: u8)
        ensures
            r == cp_source_value(self@, source),
    {
        match source {
            CpSource::A => self.registers.a,
            CpSource::B => self.registers.b,
            CpSource::C => self.registers.c,
            CpSource::D => self.registers.d,
            CpSource::E => self.registers.e,
            CpSource::H => self.registers.h,
            CpSource::L => self.registers.l,
            CpSource::HLI => self.bus.read_byte(self.registers.get_hl()),
        }
    }

    fn add_two_byte_source(&self, source: AddTwoByteSource) -> (r: u16)
        ensures
            r == add_two_byte_source_value(self@, source),
    {
        match source {
            AddTwoByteSource::BC => self.registers.get_bc(),
            AddTwoByteSource::DE => self.registers.get_de(),
            AddTwoByteSource::HL => self.registers.get_hl(),
            AddTwoByteSource::SP => self.sp,
        }
    }

    fn prefix_value(&self, target: PrefixTarget) -> (r: u8)
        ensures
            r == prefix_target_value(self@, target),
    {
        match target {
            PrefixTarget::A => self.registers.a,
            PrefixTarget::B => self.registers.b,
            PrefixTarget::C => self.registers.c,
            PrefixTarget::D => self.registers.d,
            PrefixTarget::E => self.registers.e,
            PrefixTarget::H => self.registers.h,
            PrefixTarget::L => self.registers.l,
            PrefixTarget::HLI => self.bus.read_byte(self.registers.get_hl()),
        }
    }

    fn prefix_store(&mut self, target: PrefixTarget, value: u8)
        ensures
            final(self)@ == prefix_target_write(old(self)@, target, value),
    {
        match target {
            PrefixTarget::A => self.registers.a = value,
            PrefixTarget::B => self.registers.b = value,
            PrefixTarget::C => self.registers.c = value,
            PrefixTarget::D => self.registers.d = value,
            PrefixTarget::E => self.registers.e = value,
            PrefixTarget::H => self.registers.h = value,
            PrefixTarget::L => self.registers.l = value,
            PrefixTarget::HLI => self.bus.write_byte(self.registers.get_hl(), value),
        }
    }

    fn load_source_value(&mut self, source: LoadByteSource) -> (r: u8)
        ensures
            final(self)@ == load_byte_source_read(old(self)@, source).0,
            r == load_byte_source_read(old(self)@, source).1,
    {
        match source {
            LoadByteSource::A => self.registers.a,
            LoadByteSource::B => self.registers.b,
            LoadByteSource::C => self.registers.c,
            LoadByteSource::D => self.registers.d,
            LoadByteSource::E => self.registers.e,
            LoadByteSource::H => self.registers.h,
            LoadByteSource::L => self.registers.l,
            LoadByteSource::D8 => self.read_next_byte(),
            LoadByteSource::BCI => self.bus.read_byte(self.registers.get_bc()),
            LoadByteSource::DEI => self.bus.read_byte(self.registers.get_de()),
            LoadByteSource::HLI => self.bus.read_byte(self.registers.get_hl()),
            LoadByteSource::HLIP => {
                let hl_value = self.registers.get_hl();
                self.registers.set_hl(hl_value.wrapping_add(1));
                self.bus.read_byte(hl_value)
            },
            LoadByteSource::HLIM => {
                let hl_value = self.registers.get_hl();
                self.registers.set_hl(hl_value.wrapping_sub(1));
                self.bus.read_byte(hl_value)
            },
        }
    }

    fn load_target_store(&mut self, target: LoadByteTarget, value: u8)
        ensures
            final(self)@ == load_byte_target_write(old(self)@, target, value),
    {
        match target {
            LoadByteTarget::A => self.registers.a = value,
            LoadByteTarget::B => self.registers.b = value,
            LoadByteTarget::C => self.registers.c = value,
            LoadByteTarget::D => self.registers.d = value,
            LoadByteTarget::E => self.registers.e = value,
            LoadByteTarget::H => self.registers.h = value,
            LoadByteTarget::L => self.registers.l = value,
            LoadByteTarget::BCI => self.bus.write_byte(self.registers.get_bc(), value),
            LoadByteTarget::DEI => self.bus.write_byte(self.registers.get_de(), value),
            LoadByteTarget::HLI => self.bus.write_byte(self.registers.get_hl(), value),
            LoadByteTarget::HLIP => {
                let hl_value = self.registers.get_hl();
                self.bus.write_byte(hl_value, value);
                self.registers.set_hl(hl_value.wrapping_add(1));
            },
            LoadByteTarget::HLIM => {
                let hl_value = self.registers.get_hl();
                self.bus.write_byte(hl_value, value);
                self.registers.set_hl(hl_value.wrapping_sub(1));
            },
        }
    }

    fn inc_target(&mut self, target: IncDecTarget)
        ensures
            final(self)@ == inc_state(old(self)@, target),
    {
        match target {
            IncDecTarget::A => {
                let new_value = self.inc_8bit(self.registers.a);
                self.registers.a = new_value;
            },
            IncDecTarget::B => {
                let new_value = self.inc_8bit(self.registers.b);
                self.registers.b = new_value;
            },
            IncDecTarget::C => {
                let new_value = self.inc_8bit(self.registers.c);
                self.registers.c = new_value;
            },
            IncDecTarget::D => {
                let new_value = self.inc_8bit(self.registers.d);
                self.registers.d = new_value;
            },
            IncDecTarget::E => {
                let new_value = self.inc_8bit(self.registers.e);
                self.registers.e = new_value;
            },
            IncDecTarget::H => {
                let new_value = self.inc_8bit(self.registers.h);
                self.registers.h = new_value;
            },
            IncDecTarget::L => {
                let new_value = self.inc_8bit(self.registers.l);
                self.registers.l = new_value;
            },
            IncDecTarget::BC => {
                let value = self.registers.get_bc();
                self.registers.set_bc(value.wrapping_add(1));
            },
            IncDecTarget::DE => {
                let value = self.registers.get_de();
                self.registers.set_de(value.wrapping_add(1));
            },
            IncDecTarget::HL => {
                let value = self.registers.get_hl();
                self.registers.set_hl(value.wrapping_add(1));
            },
            IncDecTarget::HLI => {
                let address = self.registers.get_hl();
                let value = self.bus.read_byte(address);
                let new_value = self.inc_8bit(value);
                self.bus.write_byte(address, new_value);
            },
            IncDecTarget::SP => {
                self.sp = self.sp.wrapping_add(1);
            },
        }
    }

    fn dec_target(&mut self, target: IncDecTarget)
        ensures
            final(self)@ == dec_state(old(self)@, target),
    {
        match target {
            IncDecTarget::A => {
                let new_value = self.dec_8bit(self.registers.a);
                self.registers.a = new_value;
            },
            IncDecTarget::B => {
                let new_value = self.dec_8bit(self.registers.b);
                self.registers.b = new_value;
            },
            IncDecTarget::C => {
                let new_value = self.dec_8bit(self.registers.c);
                self.registers.c = new_value;
            },
            IncDecTarget::D => {
                let new_value = self.dec_8bit(self.registers.d);
                self.registers.d = new_value;
            },
            IncDecTarget::E => {
                let new_value = self.dec_8bit(self.registers.e);
                self.registers.e = new_value;
            },
            IncDecTarget::H => {
                let new_value = self.dec_8bit(self.registers.h);
                self.registers.h = new_value;
            },
            IncDecTarget::L => {
                let new_value = self.dec_8bit(self.registers.l);
                self.registers.l = new_value;
            },
            IncDecTarget::BC => {
                let new_value = self.dec_16bit(self.registers.get_bc());
                self.registers.set_bc(new_value);
            },
            IncDecTarget::DE => {
                let new_value = self.dec_16bit(self.registers.get_de());
                self.registers.set_de(new_value);
            },
            IncDecTarget::HL => {
                let new_value = self.dec_16bit(self.registers.get_hl());
                self.registers.set_hl(new_value);
            },
            IncDecTarget::HLI => {
                let address = self.registers.get_hl();
                let value = self.bus.read_byte(address);
                let new_value = self.dec_8bit(value);
                self.bus.write_byte(address, new_value);
            },
            IncDecTarget::SP => {
                let new_value = self.dec_16bit(self.sp);
                self.sp = new_value;
            },
        }
    }

    fn exec_add(&mut self, add_type: AddType) -> (next_pc: u16)
        ensures
            final(self)@ == spec_execute(old(self)@, Instruction::ADD(add_type)).0,
            next_pc == spec_execute(old(self)@, Instruction::ADD(add_type)).1,
    {
        proof {
            reveal(spec_execute);
        }
        match add_type {
            AddType::Byte(target, source) => {
                let source_value = self.add_byte_source(source);
                match target {
                    AddByteTarget::A => self.add_to_a(source_value),
                }
            },
            AddType::TwoByte(target, source) => {
                let source_value = self.add_two_byte_source(source);
                match target {
                    AddTwoByteTarget::HL => self.add_to_hl(source_value),
                }
            },
        }
        self.pc.wrapping_add(1)
    }

    fn exec_adc(&mut self, target: AdcTarget, source: AdcSource) -> (next_pc: u16)
        ensures
            final(self)@ == spec_execute(old(self)@, Instruction::ADC(target, source)).0,
            next_pc == spec_execute(old(self)@, Instruction::ADC(target, source)).1,
    {
        proof {
            reveal(spec_execute);
        }
        let source_value = self.adc_source(source);
        match target {
            AdcTarget::A => self.adc_to_a(source_value),
        }
        match source {
            AdcSource::D8 => self.pc.wrapping_add(2),
            _ => self.pc.wrapping_add(1),
        }
    }

    fn exec_sub(&mut self, source: SubSource) -> (next_pc: u16)
        ensures
            final(self)@ == spec_execute(old(self)@, Instruction::SUB(source)).0,
            next_pc == spec_execute(old(self)@, Instruction::SUB(source)).1,
    {
        proof {
            reveal(spec_execute);
        }
        let source_value = self.sub_source(source);
        self.sub_a(source_value);
        match source {
            SubSource::D8 => self.pc.wrapping_add(2),
            _ => self.pc.wrapping_add(1),
        }
    }

    fn exec_sbc(&mut self, source: SbcSource) -> (next_pc: u16)
        ensures
            final(self)@ == spec_execute(old(self)@, Instruction::SBC(source)).0,
            next_pc == spec_execute(old(self)@, Instruction::SBC(source)).1,
    {
        proof {
            reveal(spec_execute);
        }
        let source_value = self.sbc_source(source);
        self.sbc_a(source_value);
        match source {
            SbcSource::D8 => self.pc.wrapping_add(2),
            _ => self.pc.wrapping_add(1),
        }
    }

    fn exec_and(&mut self, source: AndSource) -> (next_pc: u16)
        ensures
            final(self)@ == spec_execute(old(self)@, Instruction::AND(source)).0,
            next_pc == spec_execute(old(self)@, Instruction::AND(source)).1,
    {
        proof {
            reveal(spec_execute);
        }
        let source_value = self.and_source(source);
        self.and_a(source_value);
        self.pc.wrapping_add(1)
    }

    fn exec_xor(&mut self, source: XorSource) -> (next_pc: u16)
        ensures
            final(self)@ == spec_execute(old(self)@, Instruction::XOR(source)).0,
            next_pc == spec_execute(old(self)@, Instruction::XOR(source)).1,
    {
        proof {
            reveal(spec_execute);
        }
        let source_value = self.xor_source(source);
        self.xor_a(source_value);
        self.pc.wrapping_add(1)
    }

    fn exec_or(&mut self, source: OrSource) -> (next_pc: u16)
        ensures
            final(self)@ == spec_execute(old(self)@, Instruction::OR(source)).0,
            next_pc == spec_execute(old(self)@, Instruction::OR(source)).1,
    {
        proof {
            reveal(spec_execute);
        }
        let source_value = self.or_source(source);
        self.or_a(source_value);
        self.pc.wrapping_add(1)
    }

    fn exec_cp(&mut self, source: CpSource) -> (next_pc: u16)
        ensures
            final(self)@ == spec_execute(old(self)@, Instruction::CP(source)).0,
            next_pc == spec_execute(old(self)@, Instruction::CP(source)).1,
    {
        proof {
            reveal(spec_execute);
        }
        let source_value = self.cp_source(source);
        self.cp_a(source_value);
        self.pc.wrapping_add(1)
    }

    fn exec_inc(&mut self, target: IncDecTarget) -> (next_pc: u16)
        ensures
            final(self)@ == spec_execute(old(self)@, Instruction::INC(target)).0,
            next_pc == spec_execute(old(self)@, Instruction::INC(target)).1,
    {
        proof {
            reveal(spec_execute);
        }
        self.inc_target(target);
        self.pc.wrapping_add(1)
    }

    fn exec_dec(&mut self, target: IncDecTarget) -> (next_pc: u16)
        ensures
            final(self)@ == spec_execute(old(self)@, Instruction::DEC(target)).0,
            next_pc == spec_execute(old(self)@, Instruction::DEC(target)).1,
    {
        proof {
            reveal(spec_execute);
        }
        self.dec_target(target);
        self.pc.wrapping_add(1)
    }

    fn exec_jp(&mut self, test: JumpTest) -> (next_pc: u16)
        ensures
            final(self)@ == spec_execute(old(self)@, Instruction::JP(test)).0,
            next_pc == spec_execute(old(self)@, Instruction::JP(test)).1,
    {
        proof {
            reveal(spec_execute);
        }
        let jump_condition = match test {
            JumpTest::NotZero => !self.registers.f.zero,
            JumpTest::Zero => self.registers.f.zero,
            JumpTest::NotCarry => !self.registers.f.carry,
            JumpTest::Carry => self.registers.f.carry,
            JumpTest::Always => true,
        };
        self.jump(jump_condition)
    }

    fn exec_jr(&mut self, conditions: JumpRelativeConditions) -> (next_pc: u16)
        ensures
            final(self)@ == spec_execute(old(self)@, Instruction::JR(conditions)).0,
            next_pc == spec_execute(old(self)@, Instruction::JR(conditions)).1,
    {
        proof {
            reveal(spec_execute);
        }
        let offset = self.read_next_byte();
        let condition_flag = match conditions {
            JumpRelativeConditions::Always => true,
            JumpRelativeConditions::NoZeroFlag => !self.registers.f.zero,
            JumpRelativeConditions::ZeroFlag => self.registers.f.zero,
            JumpRelativeConditions::NoCarryFlag => !self.registers.f.carry,
            JumpRelativeConditions::CarryFlag => self.registers.f.carry,
        };
        let fall_through = self.pc.wrapping_add(2);
        if condition_flag {
            let extended = if offset >= 0x80 {
                (offset as u16) + 0xFF00
            } else {
                offset as u16
            };
            fall_through.wrapping_add(extended)
        } else {
            fall_through
        }
    }

    fn exec_ret(&mut self, conditions: RetConditions) -> (next_pc: u16)
        ensures
            final(self)@ == spec_execute(old(self)@, Instruction::RET(conditions)).0,
            next_pc == spec_execute(old(self)@, Instruction::RET(conditions)).1,
    {
        proof {
            reveal(spec_execute);
        }
        let condition_flag = match conditions {
            RetConditions::NoZeroFlag => !self.registers.f.zero,
            RetConditions::ZeroFlag => self.registers.f.zero,
            RetConditions::NoCarryFlag => !self.registers.f.carry,
            RetConditions::CarryFlag => self.registers.f.carry,
            RetConditions::Always => true,
        };
        self.return_(condition_flag)
    }

    fn exec_call(&mut self, test: JumpTest) -> (next_pc: u16)
        ensures
            final(self)@ == spec_execute(old(self)@, Instruction::CALL(test)).0,
            next_pc == spec_execute(old(self)@, Instruction::CALL(test)).1,
    {
        proof {
            reveal(spec_execute);
        }
        let jump_condition = match test {
            JumpTest::NotZero => !self.registers.f.zero,
            JumpTest::Zero => self.registers.f.zero,
            JumpTest::NotCarry => !self.registers.f.carry,
            JumpTest::Carry => self.registers.f.carry,
            JumpTest::Always => true,
        };
        self.call(jump_condition)
    }

    fn exec_push(&mut self, target: StackTarget) -> (next_pc: u16)
        ensures
            final(self)@ == spec_execute(old(self)@, Instruction::PUSH(target)).0,
            next_pc == spec_execute(old(self)@, Instruction::PUSH(target)).1,
    {
        proof {
            reveal(spec_execute);
        }
        let value = match target {
            StackTarget::AF => self.registers.get_af(),
            StackTarget::BC => self.registers.get_bc(),
            StackTarget::DE => self.registers.get_de(),
            StackTarget::HL => self.registers.get_hl(),
        };
        self.push(value);
        self.pc.wrapping_add(1)
    }

    fn exec_pop(&mut self, target: StackTarget) -> (next_pc: u16)
        ensures
            final(self)@ == spec_execute(old(self)@, Instruction::POP(target)).0,
            next_pc == spec_execute(old(self)@, Instruction::POP(target)).1,
    {
        proof {
            reveal(spec_execute);
        }
        let result = self.pop();
        match target {
            StackTarget::AF => self.registers.set_af(result),
            StackTarget::BC => self.registers.set_bc(result),
            StackTarget::DE => self.registers.set_de(result),
            StackTarget::HL => self.registers.set_hl(result),
        }
        self.pc.wrapping_add(1)
    }

    fn exec_ld(&mut self, load_type: LoadType) -> (next_pc: u16)
        ensures
            final(self)@ == spec_execute(old(self)@, Instruction::LD(load_type)).0,
            next_pc == spec_execute(old(self)@, Instruction::LD(load_type)).1,
    {
        proof {
            reveal(spec_execute);
        }
        match load_type {
            LoadType::Byte(target, source) => {
                let source_value = self.load_source_value(source);
                self.load_target_store(target, source_value);
                match source {
                    LoadByteSource::D8 => self.pc.wrapping_add(2),
                    _ => self.pc.wrapping_add(1),
                }
            },
            LoadType::TwoByte(target, source) => {
                let source_value = match source {
                    LoadTwoByteSource::D16 => self.read_immediate_16bit(),
                    LoadTwoByteSource::SP => self.sp,
                };
                match target {
                    LoadTwoByteTarget::BC => self.registers.set_bc(source_value),
                    LoadTwoByteTarget::DE => self.registers.set_de(source_value),
                    LoadTwoByteTarget::HL => self.registers.set_hl(source_value),
                    LoadTwoByteTarget::SP => {
                        let value = self.read_immediate_16bit();
                        self.sp = value;
                    },
                    LoadTwoByteTarget::A16 => {
                        let address = self.read_immediate_16bit();
                        self.bus.write_byte(address, (source_value % 0x100) as u8);
                        self.bus.write_byte(
                            address.wrapping_add(1),
                            (source_value / 0x100) as u8,
                        );
                    },
                }
                self.pc.wrapping_add(3)
            },
        }
    }

    fn exec_rlc(&mut self, target: PrefixTarget) -> (next_pc: u16)
        ensures
            final(self)@ == spec_execute(old(self)@, Instruction::RLC(target)).0,
            next_pc == spec_execute(old(self)@, Instruction::RLC(target)).1,
    {
        proof {
            reveal(spec_execute);
        }
        let value = self.prefix_value(target);
        let seventh_bit = value >> 7;
        let new_value = (value << 1) | seventh_bit;
        self.prefix_store(target, new_value);
        self.registers.set_f(
            Some(new_value == 0),
            Some(false),
            Some(false),
            Some(seventh_bit != 0),
        );
        self.pc.wrapping_add(2)
    }

    fn exec_rlca(&mut self) -> (next_pc: u16)
        ensures
            final(self)@ == spec_execute(old(self)@, Instruction::RLCA).0,
            next_pc == spec_execute(old(self)@, Instruction::RLCA).1,
    {
        proof {
            reveal(spec_execute);
        }
        let value = self.registers.a;
        let seventh_bit = value >> 7;
        let new_value = (value << 1) | seventh_bit;
        self.registers.a = new_value;
        self.set_rotation_flags(seventh_bit);
        self.pc.wrapping_add(1)
    }

    fn exec_rrca(&mut self) -> (next_pc: u16)
        ensures
            final(self)@ == spec_execute(old(self)@, Instruction::RRCA).0,
            next_pc == spec_execute(old(self)@, Instruction::RRCA).1,
    {
        proof {
            reveal(spec_execute);
        }
        let value = self.registers.a;
        let zeroth_bit = value & 1;
        let new_value = (zeroth_bit << 7) | (value >> 1);
        self.registers.a = new_value;
        self.set_rotation_flags(zeroth_bit);
        self.pc.wrapping_add(1)
    }

    fn exec_rla(&mut self) -> (next_pc: u16)
        ensures
            final(self)@ == spec_execute(old(self)@, Instruction::RLA).0,
            next_pc == spec_execute(old(self)@, Instruction::RLA).1,
    {
        proof {
            reveal(spec_execute);
        }
        let value = self.registers.a;
        let seventh_bit = value >> 7;
        let carry_in: u8 = if self.registers.f.carry {
            1
        } else {
            0
        };
        let new_value = (value << 1) | carry_in;
        self.registers.a = new_value;
        self.set_rotation_flags(seventh_bit);
        self.pc.wrapping_add(1)
    }

    fn exec_rra(&mut self) -> (next_pc: u16)
        ensures
            final(self)@ == spec_execute(old(self)@, Instruction::RRA).0,
            next_pc == spec_execute(old(self)@, Instruction::RRA).1,
    {
        proof {
            reveal(spec_execute);
        }
        let value = self.registers.a;
        let zeroth_bit = value & 1;
        let carry_in: u8 = if self.registers.f.carry {
            1
        } else {
            0
        };
        let new_value = (value >> 1) | (carry_in << 7);
        self.registers.a = new_value;
        self.set_rotation_flags(zeroth_bit);
        self.pc.wrapping_add(1)
    }

    fn exec_daa(&mut self) -> (next_pc: u16)
        ensures
            final(self)@ == spec_execute(old(self)@, Instruction::DAA).0,
            next_pc == spec_execute(old(self)@, Instruction::DAA).1,
    {
        proof {
            reveal(spec_execute);
        }
        let a_value = self.registers.a;
        let subtract = self.registers.f.subtract;
        let half_carry = self.registers.f.half_carry;
        let carry = self.registers.f.carry;
        let mut offset: u8 = 0;
        let mut should_carry = false;
        if (!subtract && a_value % 16 > 0x09) || half_carry {
            offset = offset + 0x06;
        }
        if (!subtract && a_value > 0x99) || carry {
            offset = offset + 0x60;
            should_carry = true;
        }
        let output = if !subtract {
            a_value.wrapping_add(offset)
        } else {
            a_value.wrapping_sub(offset)
        };
        self.registers.a = output;
        self.registers.set_f(Some(output == 0), None, Some(false), Some(should_carry));
        self.pc.wrapping_add(1)
    }

    fn exec_cpl(&mut self) -> (next_pc: u16)
        ensures
            final(self)@ == spec_execute(old(self)@, Instruction::CPL).0,
            next_pc == spec_execute(old(self)@, Instruction::CPL).1,
    {
        proof {
            reveal(spec_execute);
        }
        self.registers.a = !self.registers.a;
        self.registers.set_f(None, Some(true), Some(true), None);
        self.pc.wrapping_add(1)
    }

    fn exec_scf(&mut self) -> (next_pc: u16)
        ensures
            final(self)@ == spec_execute(old(self)@, Instruction::SCF).0,
            next_pc == spec_execute(old(self)@, Instruction::SCF).1,
    {
        proof {
            reveal(spec_execute);
        }
        self.registers.set_f(None, Some(false), Some(false), Some(true));
        self.pc.wrapping_add(1)
    }

    fn exec_ccf(&mut self) -> (next_pc: u16)
        ensures
            final(self)@ == spec_execute(old(self)@, Instruction::CCF).0,
            next_pc == spec_execute(old(self)@, Instruction::CCF).1,
    {
        proof {
            reveal(spec_execute);
        }
        let inverted = !self.registers.f.carry;
        self.registers.set_f(None, Some(false), Some(false), Some(inverted));
        self.pc.wrapping_add(1)
    }

    /// Execute one decoded instruction and return the next PC, which the
    /// caller stores; exactly `spec_execute` on the state view.
    #[verifier::rlimit(100)]
    pub fn execute(&mut self, instruction: Instruction) -> (next_pc: u16)
        ensures
            final(self)@ == spec_execute(old(self)@, instruction).0,
            next_pc == spec_execute(old(self)@, instruction).1,
    {
        match instruction {
            Instruction::NOP => {
                proof {
                    reveal(spec_execute);
                }
                self.pc.wrapping_add(1)
            },
            Instruction::ADD(add_type) => self.exec_add(add_type),
            Instruction::ADC(target, source) => self.exec_adc(target, source),
            Instruction::SUB(source) => self.exec_sub(source),
            Instruction::SBC(source) => self.exec_sbc(source),
            Instruction::AND(source) => self.exec_and(source),
            Instruction::XOR(source) => self.exec_xor(source),
            Instruction::OR(source) => self.exec_or(source),
            Instruction::CP(source) => self.exec_cp(source),
            Instruction::INC(target) => self.exec_inc(target),
            Instruction::DEC(target) => self.exec_dec(target),
            Instruction::JP(test) => self.exec_jp(test),
            Instruction::JR(conditions) => self.exec_jr(conditions),
            Instruction::RET(conditions) => self.exec_ret(conditions),
            Instruction::CALL(test) => self.exec_call(test),
            Instruction::PUSH(target) => self.exec_push(target),
            Instruction::POP(target) => self.exec_pop(target),
            Instruction::LD(load_type) => self.exec_ld(load_type),
            Instruction::RLC(target) => self.exec_rlc(target),
            Instruction::RLCA => self.exec_rlca(),
            Instruction::RRCA => self.exec_rrca(),
            Instruction::RLA => self.exec_rla(),
            Instruction::RRA => self.exec_rra(),
            Instruction::DAA => self.exec_daa(),
            Instruction::CPL => self.exec_cpl(),
            Instruction::SCF => self.exec_scf(),
            Instruction::CCF => self.exec_ccf(),
        }
    }

    /// Fetch, decode and execute one instruction, storing the next PC; an
    /// opcode missing from the decode tables yields `UnknownOpcode` and
    /// leaves the whole state unchanged.
    pub fn step(&mut self) -> (r: Result<(), StepError>)
        ensures
            (match spec_step(old(self)@) {
                Ok(next) => r is Ok && final(self)@ == next,
                Err(e) => r == Err::<(), StepError>(e) && final(self)@ == old(self)@,
            }),
    {
        let mut instruction_byte = self.bus.read_byte(self.pc);
        let prefixed = instruction_byte == 0xCB;
        if prefixed {
            instruction_byte = self.bus.read_byte(self.pc.wrapping_add(1));
        }
        match Instruction::from_byte(instruction_byte, prefixed) {
            Some(instruction) => {
                let next_pc = self.execute(instruction);
                self.pc = next_pc;
                Ok(())
            },
            None => Err(StepError::UnknownOpcode { byte: instruction_byte, prefixed }),
        }
    }
}

} // verus!
