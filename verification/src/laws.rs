//! Machine-checked laws of the instruction semantics: state invariants that
//! every step preserves, the PC-advance discipline of non-branching opcodes,
//! the flag contracts of the arithmetic, logical and rotate families, and the
//! push/pop round trip.

use crate::cpu::{
    add_byte_source_value, cp_source_value, cs_af, jr_condition_holds, jump_test_holds, pop_value,
    ret_condition_holds, spec_execute, spec_step, stack_target_value, sub_source_value, wf,
    CpuState,
};
use crate::instruction::{
    AdcSource, AddByteSource, AddByteTarget, AddTwoByteSource, AddTwoByteTarget, AddType,
    AndSource, CpSource, IncDecTarget, Instruction, LoadByteSource, LoadType, OrSource,
    StackTarget, SubSource, XorSource,
};
use crate::register::{
    flags_to_byte, high_byte, lemma_flags_byte_low_nibble, lemma_flags_roundtrip,
    lemma_word_bytes, lemma_word_roundtrip, low_byte, word_from_bytes, FlagsRegister,
};
use vstd::prelude::*;

verus! {

/// How many bytes the encoding of an instruction occupies: 1 for
/// register-only operations, 2 for those with a `d8` or `s8` operand and for
/// the prefixed rotates, 3 for those with a `d16` or `a16` operand.
pub open spec fn instruction_width(instruction: Instruction) -> u16 {
    match instruction {
        Instruction::NOP => 1,
        Instruction::ADD(_) => 1,
        Instruction::ADC(_, source) => match source {
            AdcSource::D8 => 2,
            _ => 1,
        },
        Instruction::SUB(source) => match source {
            SubSource::D8 => 2,
            _ => 1,
        },
        Instruction::SBC(source) => match source {
            crate::instruction::SbcSource::D8 => 2,
            _ => 1,
        },
        Instruction::AND(_) => 1,
        Instruction::XOR(_) => 1,
        Instruction::OR(_) => 1,
        Instruction::CP(_) => 1,
        Instruction::INC(_) => 1,
        Instruction::DEC(_) => 1,
        Instruction::JP(_) => 3,
        Instruction::JR(_) => 2,
        Instruction::RET(_) => 1,
        Instruction::CALL(_) => 3,
        Instruction::PUSH(_) => 1,
        Instruction::POP(_) => 1,
        Instruction::LD(load_type) => match load_type {
            LoadType::Byte(_, source) => match source {
                LoadByteSource::D8 => 2,
                _ => 1,
            },
            LoadType::TwoByte(_, _) => 3,
        },
        Instruction::RLC(_) => 2,
        Instruction::RLCA => 1,
        Instruction::RRCA => 1,
        Instruction::RLA => 1,
        Instruction::RRA => 1,
        Instruction::DAA => 1,
        Instruction::CPL => 1,
        Instruction::SCF => 1,
        Instruction::CCF => 1,
    }
}

/// Whether an instruction is a jump, call or return whose condition holds of
/// the flags, so that it overrides the fall-through PC.
pub open spec fn branch_taken(s: CpuState, instruction: Instruction) -> bool {
    match instruction {
        Instruction::JP(test) => jump_test_holds(s.f, test),
        Instruction::JR(conditions) => jr_condition_holds(s.f, conditions),
        Instruction::RET(conditions) => ret_condition_holds(s.f, conditions),
        Instruction::CALL(test) => jump_test_holds(s.f, test),
        _ => false,
    }
}

/// Executing any instruction keeps the memory exactly 64 KiB.
pub proof fn lemma_execute_preserves_wf(s: CpuState, instruction: Instruction)
    requires
        wf(s),
    ensures
        wf(spec_execute(s, instruction).0),
{
    reveal(spec_execute);
}

/// After any successful step the machine state is still in range: PC and SP
/// are 16-bit, every register is 8-bit by type, the memory is still 64 KiB,
/// and the byte form of F has a zero low nibble.
pub proof fn lemma_step_invariants(s: CpuState)
    requires
        wf(s),
    ensures
        (match spec_step(s) {
            Ok(t) => wf(t) && 0 <= t.pc < 0x10000 && 0 <= t.sp < 0x10000 && flags_to_byte(t.f)
                & 0x0F == 0,
            Err(_) => true,
        }),
{
    if let Ok(t) = spec_step(s) {
        let first = s.mem[s.pc as int];
        let prefixed = first == 0xCB;
        let opcode = if prefixed {
            s.mem[s.pc.wrapping_add(1) as int]
        } else {
            first
        };
        let instruction = crate::instruction::spec_decode(opcode, prefixed).unwrap();
        lemma_execute_preserves_wf(s, instruction);
        lemma_flags_byte_low_nibble(t.f);
    }
}

/// Every instruction that is not a taken jump, call or return advances PC by
/// exactly its encoded width, with 16-bit wrap.
pub proof fn lemma_untaken_width(s: CpuState, instruction: Instruction)
    requires
        !branch_taken(s, instruction),
    ensures
        spec_execute(s, instruction).1 == s.pc.wrapping_add(instruction_width(instruction)),
{
    reveal(spec_execute);
}

/// For every 8-bit ADD: the result plus 256 times the carry flag equals the
/// sum of A and the operand; Z holds exactly of a zero result; N is cleared;
/// H holds exactly when the low nibbles sum to 16 or more.
pub proof fn lemma_add_flags(s: CpuState, source: AddByteSource)
    ensures
        ({
            let value = add_byte_source_value(s, source);
            let t = spec_execute(s, Instruction::ADD(AddType::Byte(AddByteTarget::A, source))).0;
            &&& t.a + 256 * (if t.f.carry {
                1int
            } else {
                0int
            }) == s.a + value
            &&& (t.f.zero <==> t.a == 0)
            &&& t.f.subtract == false
            &&& (t.f.half_carry <==> s.a % 16 + value % 16 >= 16)
        }),
{
    reveal(spec_execute);
}

/// For every 8-bit SUB: the result equals A minus the operand plus 256 times
/// the borrow; the borrow holds exactly when the operand exceeds A; N is set;
/// Z holds exactly when A equals the operand; H holds exactly when the low
/// nibble of A is the smaller.
pub proof fn lemma_sub_flags(s: CpuState, source: SubSource)
    ensures
        ({
            let value = sub_source_value(s, source);
            let t = spec_execute(s, Instruction::SUB(source)).0;
            &&& t.a == s.a - value + 256 * (if t.f.carry {
                1int
            } else {
                0int
            })
            &&& (t.f.carry <==> s.a < value)
            &&& t.f.subtract == true
            &&& (t.f.zero <==> s.a == value)
            &&& (t.f.half_carry <==> s.a % 16 < value % 16)
        }),
{
    reveal(spec_execute);
}

/// CP sets the very flags SUB would, and changes nothing else: not even A.
pub proof fn lemma_cp_flags(s: CpuState, source: CpSource)
    ensures
        ({
            let value = cp_source_value(s, source);
            let t = spec_execute(s, Instruction::CP(source)).0;
            &&& t == (CpuState {
                f: FlagsRegister {
                    zero: s.a == value,
                    subtract: true,
                    half_carry: s.a % 16 < value % 16,
                    carry: s.a < value,
                },
                ..s
            })
        }),
{
    reveal(spec_execute);
}

/// AND clears C and N and sets H, with Z per result.
pub proof fn lemma_and_flags(s: CpuState, source: AndSource)
    ensures
        ({
            let t = spec_execute(s, Instruction::AND(source)).0;
            &&& t.f.carry == false
            &&& t.f.subtract == false
            &&& t.f.half_carry == true
            &&& (t.f.zero <==> t.a == 0)
        }),
{
    reveal(spec_execute);
}

/// XOR clears C, N and H, with Z per result.
pub proof fn lemma_xor_flags(s: CpuState, source: XorSource)
    ensures
        ({
            let t = spec_execute(s, Instruction::XOR(source)).0;
            &&& t.f.carry == false
            &&& t.f.subtract == false
            &&& t.f.half_carry == false
            &&& (t.f.zero <==> t.a == 0)
        }),
{
    reveal(spec_execute);
}

/// OR clears C, N and H, with Z per result.
pub proof fn lemma_or_flags(s: CpuState, source: OrSource)
    ensures
        ({
            let t = spec_execute(s, Instruction::OR(source)).0;
            &&& t.f.carry == false
            &&& t.f.subtract == false
            &&& t.f.half_carry == false
            &&& (t.f.zero <==> t.a == 0)
        }),
{
    reveal(spec_execute);
}

/// Whether an INC/DEC selector names an 8-bit operand.
pub open spec fn is_byte_target(target: IncDecTarget) -> bool {
    match target {
        IncDecTarget::A => true,
        IncDecTarget::B => true,
        IncDecTarget::C => true,
        IncDecTarget::D => true,
        IncDecTarget::E => true,
        IncDecTarget::H => true,
        IncDecTarget::L => true,
        IncDecTarget::HLI => true,
        IncDecTarget::BC => false,
        IncDecTarget::DE => false,
        IncDecTarget::HL => false,
        IncDecTarget::SP => false,
    }
}

/// INC and DEC of an 8-bit operand leave the carry flag unchanged.
pub proof fn lemma_inc_dec_byte_preserves_carry(s: CpuState, target: IncDecTarget)
    requires
        is_byte_target(target),
    ensures
        spec_execute(s, Instruction::INC(target)).0.f.carry == s.f.carry,
        spec_execute(s, Instruction::DEC(target)).0.f.carry == s.f.carry,
{
    reveal(spec_execute);
}

/// INC and DEC of a 16-bit pair leave all four flags unchanged.
pub proof fn lemma_inc_dec_pair_preserves_flags(s: CpuState, target: IncDecTarget)
    requires
        !is_byte_target(target),
    ensures
        spec_execute(s, Instruction::INC(target)).0.f == s.f,
        spec_execute(s, Instruction::DEC(target)).0.f == s.f,
{
    reveal(spec_execute);
}

/// ADD HL, rr leaves the zero flag unchanged.
pub proof fn lemma_add_hl_preserves_zero(s: CpuState, source: AddTwoByteSource)
    ensures
        spec_execute(
            s,
            Instruction::ADD(AddType::TwoByte(AddTwoByteTarget::HL, source)),
        ).0.f.zero == s.f.zero,
{
    reveal(spec_execute);
}

/// Whether an instruction is one of the four accumulator rotates.
pub open spec fn is_accumulator_rotate(instruction: Instruction) -> bool {
    match instruction {
        Instruction::RLCA => true,
        Instruction::RRCA => true,
        Instruction::RLA => true,
        Instruction::RRA => true,
        _ => false,
    }
}

/// The accumulator rotates clear Z, N and H whatever the result is.
pub proof fn lemma_rotate_flags(s: CpuState, instruction: Instruction)
    requires
        is_accumulator_rotate(instruction),
    ensures
        spec_execute(s, instruction).0.f.zero == false,
        spec_execute(s, instruction).0.f.subtract == false,
        spec_execute(s, instruction).0.f.half_carry == false,
{
    reveal(spec_execute);
}

/// PUSH of a register pair followed by POP into the same pair restores the
/// pair's value and leaves SP unchanged.
pub proof fn lemma_push_pop_roundtrip(s: CpuState, target: StackTarget)
    requires
        wf(s),
    ensures
        ({
            let pushed = spec_execute(s, Instruction::PUSH(target)).0;
            let popped = spec_execute(pushed, Instruction::POP(target)).0;
            &&& stack_target_value(popped, target) == stack_target_value(s, target)
            &&& popped.sp == s.sp
        }),
{
    reveal(spec_execute);
    let value = stack_target_value(s, target);
    let pushed = spec_execute(s, Instruction::PUSH(target)).0;
    let sp1 = s.sp.wrapping_sub(1);
    let sp2 = sp1.wrapping_sub(1);
    assert(sp1 != sp2);
    assert(pushed.sp == sp2 && sp2.wrapping_add(1) == sp1);
    assert(pushed.mem[sp2 as int] == low_byte(value));
    assert(pushed.mem[sp1 as int] == high_byte(value));
    assert(pop_value(pushed) == word_from_bytes(high_byte(value), low_byte(value)));
    lemma_word_roundtrip(value);
    match target {
        StackTarget::AF => {
            lemma_word_bytes(s.a, flags_to_byte(s.f));
            lemma_flags_roundtrip(s.f);
            assert(cs_af(spec_execute(pushed, Instruction::POP(target)).0) == cs_af(s));
        },
        StackTarget::BC => {},
        StackTarget::DE => {},
        StackTarget::HL => {},
    }
}

} // verus!
