//! The LC-3 instruction set: a tagged instruction value per opcode, and the
//! bit-exact, total codec between a 16-bit word and an instruction.
//!
//! `decode` is total: every 16-bit word decodes to some variant (the opcode
//! `0b1101` decodes to [`Instruction::Reserved`]). `encode` is its inverse on
//! the instruction's salient bits; [`lemma_decode_encode`] proves the
//! round trip for every well-formed instruction.

use vstd::prelude::*;

use crate::bit_util::{i5_to_i8, i6_to_i8, i9_to_i16, i11_to_i16};
use crate::bit_util::{sext5, sext6, sext9, sext11};

verus! {

/// One of the eight general-purpose registers. `R7` is architecturally the
/// subroutine-link register written by JSR/JSRR.
#[derive(Copy, Clone, Debug, PartialEq, Eq, Hash, Structural)]
pub enum Register {
    R0,
    R1,
    R2,
    R3,
    R4,
    R5,
    R6,
    R7,
}

/// The three-bit encoding of a register.
pub open spec fn reg_num(r: Register) -> u16 {
    match r {
        Register::R0 => 0,
        Register::R1 => 1,
        Register::R2 => 2,
        Register::R3 => 3,
        Register::R4 => 4,
        Register::R5 => 5,
        Register::R6 => 6,
        Register::R7 => 7,
    }
}

/// The register a three-bit field denotes.
pub open spec fn reg_of(n: u16) -> Register {
    if n == 0 {
        Register::R0
    } else if n == 1 {
        Register::R1
    } else if n == 2 {
        Register::R2
    } else if n == 3 {
        Register::R3
    } else if n == 4 {
        Register::R4
    } else if n == 5 {
        Register::R5
    } else if n == 6 {
        Register::R6
    } else {
        Register::R7
    }
}

impl Register {
    /// The register's index, `0` through `7`.
    pub fn to_index(self) -> (r: u8)
        ensures
            r as u16 == reg_num(self),
    {
        match self {
            Register::R0 => 0,
            Register::R1 => 1,
            Register::R2 => 2,
            Register::R3 => 3,
            Register::R4 => 4,
            Register::R5 => 5,
            Register::R6 => 6,
            Register::R7 => 7,
        }
    }

    /// The register with the given index; an index of eight or more is a
    /// caller bug.
    pub fn from_index(value: u8) -> (r: Register)
        requires
            value < 8,
        ensures
            r == reg_of(value as u16),
    {
        if value == 0 {
            Register::R0
        } else if value == 1 {
            Register::R1
        } else if value == 2 {
            Register::R2
        } else if value == 3 {
            Register::R3
        } else if value == 4 {
            Register::R4
        } else if value == 5 {
            Register::R5
        } else if value == 6 {
            Register::R6
        } else {
            Register::R7
        }
    }
}

/// A 5-bit two's-complement immediate, range `[-16, 15]`.
#[derive(Copy, Clone, Debug, PartialEq, Eq, Hash, Structural)]
pub struct Immediate5(pub i8);

impl Immediate5 {
    /// The stored value lies in the 5-bit two's-complement range.
    pub open spec fn wf(self) -> bool {
        -16 <= self.0 <= 15
    }

    /// Build from a value already known to be in range; an out-of-range
    /// value is a construction error.
    pub fn new(value: i8) -> (r: Option<Immediate5>)
        ensures
            r == if -16 <= value <= 15 {
                Some(Immediate5(value))
            } else {
                None::<Immediate5>
            },
    {
        if -16 <= value && value <= 15 {
            Some(Immediate5(value))
        } else {
            None
        }
    }

    /// Sign-extend the low five bits of a raw field.
    pub fn from_bits(value: i16) -> (r: Immediate5)
        ensures
            r.0 as int == sext5(value as u16),
            r.wf(),
    {
        let masked = value & 0b11111;
        assert(0 <= masked < 32 && sext5((masked as i8) as u16) == sext5(value as u16))
            by (bit_vector)
            requires
                masked == value & 0b11111,
        ;
        Immediate5(i5_to_i8(masked as i8))
    }

    pub fn into_inner(self) -> (r: i8)
        ensures
            r == self.0,
    {
        self.0
    }
}

/// A 9-bit two's-complement PC-relative offset, range `[-256, 255]`.
#[derive(Copy, Clone, Debug, PartialEq, Eq, Hash, Structural)]
pub struct PcOffset9(pub i16);

impl PcOffset9 {
    /// The stored value lies in the 9-bit two's-complement range.
    pub open spec fn wf(self) -> bool {
        -256 <= self.0 <= 255
    }

    /// Build from a value already known to be in range; an out-of-range
    /// value is a construction error.
    pub fn new(value: i16) -> (r: Option<PcOffset9>)
        ensures
            r == if -256 <= value <= 255 {
                Some(PcOffset9(value))
            } else {
                None::<PcOffset9>
            },
    {
        if -256 <= value && value <= 255 {
            Some(PcOffset9(value))
        } else {
            None
        }
    }

    /// Sign-extend the low nine bits of a raw field.
    pub fn from_bits(value: i16) -> (r: PcOffset9)
        ensures
            r.0 as int == sext9(value as u16),
            r.wf(),
    {
        let masked = value & 0b111111111;
        assert(sext9((masked) as u16) == sext9(value as u16)) by (bit_vector)
            requires
                masked == value & 0b111111111,
        ;
        PcOffset9(i9_to_i16(masked))
    }

    pub fn into_inner(self) -> (r: i16)
        ensures
            r == self.0,
    {
        self.0
    }
}

/// An 11-bit two's-complement PC-relative offset, range `[-1024, 1023]`.
#[derive(Copy, Clone, Debug, PartialEq, Eq, Hash, Structural)]
pub struct PcOffset11(pub i16);

impl PcOffset11 {
    /// The stored value lies in the 11-bit two's-complement range.
    pub open spec fn wf(self) -> bool {
        -1024 <= self.0 <= 1023
    }

    /// Build from a value already known to be in range; an out-of-range
    /// value is a construction error.
    pub fn new(value: i16) -> (r: Option<PcOffset11>)
        ensures
            r == if -1024 <= value <= 1023 {
                Some(PcOffset11(value))
            } else {
                None::<PcOffset11>
            },
    {
        if -1024 <= value && value <= 1023 {
            Some(PcOffset11(value))
        } else {
            None
        }
    }

    /// Sign-extend the low eleven bits of a raw field.
    pub fn from_bits(value: i16) -> (r: PcOffset11)
        ensures
            r.0 as int == sext11(value as u16),
            r.wf(),
    {
        let masked = value & 0b11111111111;
        assert(sext11((masked) as u16) == sext11(value as u16)) by (bit_vector)
            requires
                masked == value & 0b11111111111,
        ;
        PcOffset11(i11_to_i16(masked))
    }

    pub fn into_inner(self) -> (r: i16)
        ensures
            r == self.0,
    {
        self.0
    }
}

/// A 6-bit two's-complement register offset, range `[-32, 31]`.
#[derive(Copy, Clone, Debug, PartialEq, Eq, Hash, Structural)]
pub struct Offset6(pub i8);

impl Offset6 {
    /// The stored value lies in the 6-bit two's-complement range.
    pub open spec fn wf(self) -> bool {
        -32 <= self.0 <= 31
    }

    /// Build from a value already known to be in range; an out-of-range
    /// value is a construction error.
    pub fn new(value: i8) -> (r: Option<Offset6>)
        ensures
            r == if -32 <= value <= 31 {
                Some(Offset6(value))
            } else {
                None::<Offset6>
            },
    {
        if -32 <= value && value <= 31 {
            Some(Offset6(value))
        } else {
            None
        }
    }

    /// Sign-extend the low six bits of a raw field.
    pub fn from_bits(value: i16) -> (r: Offset6)
        ensures
            r.0 as int == sext6(value as u16),
            r.wf(),
    {
        let masked = value & 0b111111;
        assert(0 <= masked < 64 && sext6((masked as i8) as u16) == sext6(value as u16))
            by (bit_vector)
            requires
                masked == value & 0b111111,
        ;
        Offset6(i6_to_i8(masked as i8))
    }

    pub fn into_inner(self) -> (r: i8)
        ensures
            r == self.0,
    {
        self.0
    }
}

/// The branch operand: the set of condition codes on which a Branch is taken.
/// This is a three-bit mask, distinct from the machine's single current
/// condition code.
#[derive(Copy, Clone, Debug, PartialEq, Eq, Hash, Structural)]
pub struct DesiredConditionFlags {
    pub negative: bool,
    pub zero: bool,
    pub positive: bool,
}

/// The three-bit `n z p` encoding of a flag set.
pub open spec fn flag_bits(f: DesiredConditionFlags) -> u16 {
    ((if f.negative {
        4u16
    } else {
        0u16
    }) + (if f.zero {
        2u16
    } else {
        0u16
    }) + (if f.positive {
        1u16
    } else {
        0u16
    })) as u16
}

/// The flag set a three-bit `n z p` field denotes.
pub open spec fn flags_of(bits: u16) -> DesiredConditionFlags {
    DesiredConditionFlags {
        negative: (bits >> 2u16) & 1 == 1,
        zero: (bits >> 1u16) & 1 == 1,
        positive: bits & 1 == 1,
    }
}

impl DesiredConditionFlags {
    /// The three-bit `n z p` mask of the flag set.
    pub fn into_flags(self) -> (r: u8)
        ensures
            r as u16 == flag_bits(self),
    {
        let mut result: u8 = 0;
        if self.negative {
            result += 0b100;
        }
        if self.zero {
            result += 0b010;
        }
        if self.positive {
            result += 0b001;
        }
        result
    }

    /// Read a flag set out of the low three bits of a field.
    pub fn from_bits(bits: u16) -> (r: DesiredConditionFlags)
        ensures
            r == flags_of(bits),
    {
        DesiredConditionFlags {
            negative: (bits >> 2u16) & 1 == 1,
            zero: (bits >> 1u16) & 1 == 1,
            positive: bits & 1 == 1,
        }
    }
}

/// One variant per opcode of the LC-3 instruction word.
#[derive(Copy, Clone, Debug, PartialEq, Eq, Hash, Structural)]
pub enum Instruction {
    Add(Register, Register, Register),
    AddImmediate(Register, Register, Immediate5),
    And(Register, Register, Register),
    AndImmediate(Register, Register, Immediate5),
    Branch(DesiredConditionFlags, PcOffset9),
    Jump(Register),
    JumpSubroutine(PcOffset11),
    JumpSubroutineRegister(Register),
    Load(Register, PcOffset9),
    LoadIndirect(Register, PcOffset9),
    LoadRegister(Register, Register, Offset6),
    LoadEffectiveAddress(Register, PcOffset9),
    Not(Register, Register),
    /// Return from interrupt; executing it is a fatal error in this core.
    ReturnFromInterrupt,
    Store(Register, PcOffset9),
    StoreIndirect(Register, PcOffset9),
    StoreRegister(Register, Register, Offset6),
    Trap(u8),
    /// The unused opcode `0b1101`; executing it is a fatal error.
    Reserved,
}

impl Instruction {
    /// Every narrow field of the instruction lies in its declared range.
    /// Values built by the constructors and by `decode` are well-formed.
    pub open spec fn wf(self) -> bool {
        match self {
            Instruction::AddImmediate(_, _, imm) => imm.wf(),
            Instruction::AndImmediate(_, _, imm) => imm.wf(),
            Instruction::Branch(_, off) => off.wf(),
            Instruction::JumpSubroutine(off) => off.wf(),
            Instruction::Load(_, off) => off.wf(),
            Instruction::LoadIndirect(_, off) => off.wf(),
            Instruction::LoadRegister(_, _, off) => off.wf(),
            Instruction::LoadEffectiveAddress(_, off) => off.wf(),
            Instruction::Store(_, off) => off.wf(),
            Instruction::StoreIndirect(_, off) => off.wf(),
            Instruction::StoreRegister(_, _, off) => off.wf(),
            _ => true,
        }
    }
}

/// The word an instruction encodes to, per the instruction-layout table:
/// bits 15-12 hold the opcode, and the operand fields follow each opcode's
/// layout. Fields a layout leaves unused are zero.
pub open spec fn spec_encode(i: Instruction) -> u16 {
    match i {
        Instruction::Add(d, s1, s2) => ((0b0001u16 << 12u16) | (reg_num(d) << 9u16)) | (reg_num(s1) << 6u16)
            | reg_num(s2),
        Instruction::AddImmediate(d, s1, imm) => ((0b0001u16 << 12u16) | (reg_num(d) << 9u16)) | (reg_num(
            s1,
        ) << 6u16) | ((1u16 << 5u16) | (((imm.0 as i16) & 0b11111) as u16)),
        Instruction::And(d, s1, s2) => ((0b0101u16 << 12u16) | (reg_num(d) << 9u16)) | (reg_num(s1) << 6u16)
            | reg_num(s2),
        Instruction::AndImmediate(d, s1, imm) => ((0b0101u16 << 12u16) | (reg_num(d) << 9u16)) | (reg_num(
            s1,
        ) << 6u16) | ((1u16 << 5u16) | (((imm.0 as i16) & 0b11111) as u16)),
        Instruction::Branch(f, off) => (flag_bits(f) << 9u16) | ((off.0 & 0b111111111) as u16),
        Instruction::Jump(b) => (0b1100u16 << 12u16) | (reg_num(b) << 6u16),
        Instruction::JumpSubroutine(off) => ((0b0100u16 << 12u16) | (1u16 << 11u16)) | ((off.0
            & 0b11111111111) as u16),
        Instruction::JumpSubroutineRegister(b) => (0b0100u16 << 12u16) | (reg_num(b) << 6u16),
        Instruction::Load(d, off) => ((0b0010u16 << 12u16) | (reg_num(d) << 9u16)) | ((off.0
            & 0b111111111) as u16),
        Instruction::LoadIndirect(d, off) => ((0b1010u16 << 12u16) | (reg_num(d) << 9u16)) | ((off.0
            & 0b111111111) as u16),
        Instruction::LoadRegister(d, b, off) => ((0b0110u16 << 12u16) | (reg_num(d) << 9u16)) | (reg_num(
            b,
        ) << 6u16) | (((off.0 as i16) & 0b111111) as u16),
        Instruction::LoadEffectiveAddress(d, off) => ((0b1110u16 << 12u16) | (reg_num(d) << 9u16)) | ((
        off.0 & 0b111111111) as u16),
        Instruction::Not(d, s) => ((0b1001u16 << 12u16) | (reg_num(d) << 9u16)) | (reg_num(s) << 6u16)
            | 0b111111,
        Instruction::ReturnFromInterrupt => 0b1000u16 << 12u16,
        Instruction::Store(s, off) => ((0b0011u16 << 12u16) | (reg_num(s) << 9u16)) | ((off.0
            & 0b111111111) as u16),
        Instruction::StoreIndirect(s, off) => ((0b1011u16 << 12u16) | (reg_num(s) << 9u16)) | ((off.0
            & 0b111111111) as u16),
        Instruction::StoreRegister(s, b, off) => ((0b0111u16 << 12u16) | (reg_num(s) << 9u16)) | (reg_num(
            b,
        ) << 6u16) | (((off.0 as i16) & 0b111111) as u16),
        Instruction::Trap(v) => (0b1111u16 << 12u16) | (v as u16),
        Instruction::Reserved => 0b1101u16 << 12u16,
    }
}

/// The instruction a word decodes to. Total: the high nibble selects the
/// opcode; for ADD/AND bit 5 selects the register or the immediate form; for
/// opcode `0b0100` bit 11 selects JSR or JSRR; opcode `0b1101` yields
/// `Reserved`; opcode `0b1000` yields `ReturnFromInterrupt`.
pub open spec fn spec_decode(w: u16) -> Instruction {
    let op = w >> 12u16;
    if op == 0b0001 {
        if (w >> 5u16) & 1 == 1 {
            Instruction::AddImmediate(
                reg_of((w >> 9u16) & 0b111),
                reg_of((w >> 6u16) & 0b111),
                Immediate5(sext5(w) as i8),
            )
        } else {
            Instruction::Add(
                reg_of((w >> 9u16) & 0b111),
                reg_of((w >> 6u16) & 0b111),
                reg_of(w & 0b111),
            )
        }
    } else if op == 0b0101 {
        if (w >> 5u16) & 1 == 1 {
            Instruction::AndImmediate(
                reg_of((w >> 9u16) & 0b111),
                reg_of((w >> 6u16) & 0b111),
                Immediate5(sext5(w) as i8),
            )
        } else {
            Instruction::And(
                reg_of((w >> 9u16) & 0b111),
                reg_of((w >> 6u16) & 0b111),
                reg_of(w & 0b111),
            )
        }
    } else if op == 0b0000 {
        Instruction::Branch(flags_of((w >> 9u16) & 0b111), PcOffset9(sext9(w) as i16))
    } else if op == 0b1100 {
        Instruction::Jump(reg_of((w >> 6u16) & 0b111))
    } else if op == 0b0100 {
        if (w >> 11u16) & 1 == 1 {
            Instruction::JumpSubroutine(PcOffset11(sext11(w) as i16))
        } else {
            Instruction::JumpSubroutineRegister(reg_of((w >> 6u16) & 0b111))
        }
    } else if op == 0b0010 {
        Instruction::Load(reg_of((w >> 9u16) & 0b111), PcOffset9(sext9(w) as i16))
    } else if op == 0b1010 {
        Instruction::LoadIndirect(reg_of((w >> 9u16) & 0b111), PcOffset9(sext9(w) as i16))
    } else if op == 0b0110 {
        Instruction::LoadRegister(
            reg_of((w >> 9u16) & 0b111),
            reg_of((w >> 6u16) & 0b111),
            Offset6(sext6(w) as i8),
        )
    } else if op == 0b1110 {
        Instruction::LoadEffectiveAddress(reg_of((w >> 9u16) & 0b111), PcOffset9(sext9(w) as i16))
    } else if op == 0b1001 {
        Instruction::Not(reg_of((w >> 9u16) & 0b111), reg_of((w >> 6u16) & 0b111))
    } else if op == 0b1000 {
        Instruction::ReturnFromInterrupt
    } else if op == 0b0011 {
        Instruction::Store(reg_of((w >> 9u16) & 0b111), PcOffset9(sext9(w) as i16))
    } else if op == 0b1011 {
        Instruction::StoreIndirect(reg_of((w >> 9u16) & 0b111), PcOffset9(sext9(w) as i16))
    } else if op == 0b0111 {
        Instruction::StoreRegister(
            reg_of((w >> 9u16) & 0b111),
            reg_of((w >> 6u16) & 0b111),
            Offset6(sext6(w) as i8),
        )
    } else if op == 0b1111 {
        Instruction::Trap(w as u8)
    } else {
        Instruction::Reserved
    }
}

/// Read the three-bit register field of `w` that starts at bit `lo`.
fn reg_field(w: u16, lo: u16) -> (r: Register)
    requires
        lo <= 12,
    ensures
        r == reg_of((w >> lo) & 0b111),
{
    let n = (w >> lo) & 0b111;
    assert(n < 8) by (bit_vector)
        requires
            n == (w >> lo) & 0b111,
    ;
    Register::from_index(n as u8)
}

impl Instruction {
    /// The opcode nibble of a word: its high four bits.
    pub fn get_header(instr: u16) -> (r: u8)
        ensures
            r as u16 == instr >> 12u16,
    {
        let h = instr >> 12u16;
        assert(h < 16) by (bit_vector)
            requires
                h == instr >> 12u16,
        ;
        h as u8
    }

    /// Decode a 16-bit word into its instruction. Total, and the result is
    /// always well-formed.
    pub fn decode(instr: u16) -> (r: Instruction)
        ensures
            r == spec_decode(instr),
            r.wf(),
    {
        proof {
            assert((instr as i16) as u16 == instr) by (bit_vector);
            assert(((instr >> 5u16) & 1) < 2 && ((instr >> 11u16) & 1) < 2) by (bit_vector);
        }
        let signed = #[verifier::truncate] (instr as i16);
        let header = Self::get_header(instr);

        if header == 0b0001 || header == 0b0101 {
            let dr = reg_field(instr, 9);
            let sr1 = reg_field(instr, 6);
            let is_immediate = ((instr >> 5u16) & 1) != 0;

            if is_immediate {
                let imm = Immediate5::from_bits(signed);
                if header == 0b0001 {
                    Instruction::AddImmediate(dr, sr1, imm)
                } else {
                    Instruction::AndImmediate(dr, sr1, imm)
                }
            } else {
                let low = instr & 0b111;
                assert(low < 8) by (bit_vector)
                    requires
                        low == instr & 0b111,
                ;
                let sr2 = Register::from_index(low as u8);
                if header == 0b0001 {
                    Instruction::Add(dr, sr1, sr2)
                } else {
                    Instruction::And(dr, sr1, sr2)
                }
            }
        } else if header == 0b0000 {
            let flags = DesiredConditionFlags::from_bits((instr >> 9u16) & 0b111);
            Instruction::Branch(flags, PcOffset9::from_bits(signed))
        } else if header == 0b1100 {
            Instruction::Jump(reg_field(instr, 6))
        } else if header == 0b0100 {
            let is_jsr = ((instr >> 11u16) & 1) != 0;
            if is_jsr {
                Instruction::JumpSubroutine(PcOffset11::from_bits(signed))
            } else {
                Instruction::JumpSubroutineRegister(reg_field(instr, 6))
            }
        } else if header == 0b0010 {
            Instruction::Load(reg_field(instr, 9), PcOffset9::from_bits(signed))
        } else if header == 0b1010 {
            Instruction::LoadIndirect(reg_field(instr, 9), PcOffset9::from_bits(signed))
        } else if header == 0b0110 {
            Instruction::LoadRegister(
                reg_field(instr, 9),
                reg_field(instr, 6),
                Offset6::from_bits(signed),
            )
        } else if header == 0b1110 {
            Instruction::LoadEffectiveAddress(reg_field(instr, 9), PcOffset9::from_bits(signed))
        } else if header == 0b1001 {
            Instruction::Not(reg_field(instr, 9), reg_field(instr, 6))
        } else if header == 0b1000 {
            Instruction::ReturnFromInterrupt
        } else if header == 0b0011 {
            Instruction::Store(reg_field(instr, 9), PcOffset9::from_bits(signed))
        } else if header == 0b1011 {
            Instruction::StoreIndirect(reg_field(instr, 9), PcOffset9::from_bits(signed))
        } else if header == 0b0111 {
            Instruction::StoreRegister(
                reg_field(instr, 9),
                reg_field(instr, 6),
                Offset6::from_bits(signed),
            )
        } else if header == 0b1111 {
            Instruction::Trap(#[verifier::truncate] (instr as u8))
        } else {
            Instruction::Reserved
        }
    }

    /// Encode the instruction into its 16-bit word, per the layout table.
    pub fn encode(self) -> (w: u16)
        ensures
            w == spec_encode(self),
    {
        match self {
            Instruction::Add(dest, s1, s2) => {
                let mut instr: u16 = (0b0001u16 << 12u16) | ((dest.to_index() as u16) << 9u16);
                instr = instr | ((s1.to_index() as u16) << 6u16);
                instr = instr | (s2.to_index() as u16);
                instr
            },
            Instruction::AddImmediate(dest, s1, imm5) => {
                let mut instr: u16 = (0b0001u16 << 12u16) | ((dest.to_index() as u16) << 9u16);
                instr = instr | ((s1.to_index() as u16) << 6u16);
                instr = instr | ((1u16 << 5u16) | ((imm5.into_inner() & 0b11111) as u16));
                instr
            },
            Instruction::And(dest, s1, s2) => {
                let mut instr: u16 = (0b0101u16 << 12u16) | ((dest.to_index() as u16) << 9u16);
                instr = instr | ((s1.to_index() as u16) << 6u16);
                instr = instr | (s2.to_index() as u16);
                instr
            },
            Instruction::AndImmediate(dest, s1, imm5) => {
                let mut instr: u16 = (0b0101u16 << 12u16) | ((dest.to_index() as u16) << 9u16);
                instr = instr | ((s1.to_index() as u16) << 6u16);
                instr = instr | ((1u16 << 5u16) | ((imm5.into_inner() & 0b11111) as u16));
                instr
            },
            Instruction::Branch(flags, offset) => {
                let instr: u16 = ((flags.into_flags() as u16) << 9u16) | ((offset.into_inner()
                    & 0b111111111) as u16);
                instr
            },
            Instruction::Jump(register) => {
                let instr: u16 = (0b1100u16 << 12u16) | ((register.to_index() as u16) << 6u16);
                instr
            },
            Instruction::JumpSubroutine(offset) => {
                let instr: u16 = ((0b0100u16 << 12u16) | (1u16 << 11u16)) | ((offset.into_inner()
                    & 0b11111111111) as u16);
                instr
            },
            Instruction::JumpSubroutineRegister(register) => {
                let instr: u16 = (0b0100u16 << 12u16) | ((register.to_index() as u16) << 6u16);
                instr
            },
            Instruction::Load(dest, offset) => {
                let instr: u16 = ((0b0010u16 << 12u16) | ((dest.to_index() as u16) << 9u16)) | ((
                offset.into_inner() & 0b111111111) as u16);
                instr
            },
            Instruction::LoadIndirect(dest, offset) => {
                let instr: u16 = ((0b1010u16 << 12u16) | ((dest.to_index() as u16) << 9u16)) | ((
                offset.into_inner() & 0b111111111) as u16);
                instr
            },
            Instruction::LoadRegister(dest, baser, offset) => {
                let mut instr: u16 = (0b0110u16 << 12u16) | ((dest.to_index() as u16) << 9u16);
                instr = instr | ((baser.to_index() as u16) << 6u16);
                instr = instr | ((offset.into_inner() & 0b111111) as u16);
                instr
            },
            Instruction::LoadEffectiveAddress(dest, offset) => {
                let instr: u16 = ((0b1110u16 << 12u16) | ((dest.to_index() as u16) << 9u16)) | ((
                offset.into_inner() & 0b111111111) as u16);
                instr
            },
            Instruction::Not(dest, source) => {
                let mut instr: u16 = (0b1001u16 << 12u16) | ((dest.to_index() as u16) << 9u16);
                instr = instr | ((source.to_index() as u16) << 6u16);
                instr = instr | 0b111111;
                instr
            },
            Instruction::ReturnFromInterrupt => 0b1000u16 << 12u16,
            Instruction::Store(source, offset) => {
                let instr: u16 = ((0b0011u16 << 12u16) | ((source.to_index() as u16) << 9u16)) | ((
                offset.into_inner() & 0b111111111) as u16);
                instr
            },
            Instruction::StoreIndirect(source, offset) => {
                let instr: u16 = ((0b1011u16 << 12u16) | ((source.to_index() as u16) << 9u16)) | ((
                offset.into_inner() & 0b111111111) as u16);
                instr
            },
            Instruction::StoreRegister(source, baser, offset) => {
                let mut instr: u16 = (0b0111u16 << 12u16) | ((source.to_index() as u16) << 9u16);
                instr = instr | ((baser.to_index() as u16) << 6u16);
                instr = instr | ((offset.into_inner() & 0b111111) as u16);
                instr
            },
            Instruction::Trap(vector) => {
                let instr: u16 = (0b1111u16 << 12u16) | (vector as u16);
                instr
            },
            Instruction::Reserved => 0b1101u16 << 12u16,
        }
    }
}


/// Every register encodes into three bits, and the encoding is inverted by
/// `reg_of`.
proof fn lemma_reg(r: Register)
    ensures
        reg_num(r) < 8,
        reg_of(reg_num(r)) == r,
{
}

/// The branch operand encodes into three bits, and the encoding is inverted
/// by `flags_of`.
proof fn lemma_flags_roundtrip(f: DesiredConditionFlags)
    ensures
        flag_bits(f) < 8,
        flags_of(flag_bits(f)) == f,
{
    let fb = flag_bits(f);
    assert((((fb >> 2u16) & 1 == 1) == (fb >= 4)) && (((fb >> 1u16) & 1 == 1) == (fb == 2 || fb
        == 3 || fb == 6 || fb == 7)) && ((fb & 1 == 1) == (fb == 1 || fb == 3 || fb == 5 || fb
        == 7))) by (bit_vector)
        requires
            fb < 8,
    ;
}

/// Field recovery for the three-operand layouts: opcode, a register at bit 9,
/// a register at bit 6, and a six-bit tail.
proof fn lemma_fields_rrt(op: u16, d: u16, s: u16, t: u16, w: u16)
    by (bit_vector)
    requires
        op < 16,
        d < 8,
        s < 8,
        t < 64,
        w == ((op << 12u16) | (d << 9u16)) | (s << 6u16) | t,
    ensures
        w >> 12u16 == op,
        (w >> 9u16) & 0b111 == d,
        (w >> 6u16) & 0b111 == s,
        t < 8 ==> w & 0b111 == t,
        t < 8 ==> (w >> 5u16) & 1 == 0,
        t >= 32 ==> (w >> 5u16) & 1 == 1,
        sext5(w) == sext5(t),
        sext6(w) == sext6(t),
{
}

/// Field recovery for the layouts with a register at bit 9 and a nine-bit
/// PC-relative offset.
proof fn lemma_fields_do9(op: u16, d: u16, t: u16, w: u16)
    by (bit_vector)
    requires
        op < 16,
        d < 8,
        t < 512,
        w == ((op << 12u16) | (d << 9u16)) | t,
    ensures
        w >> 12u16 == op,
        (w >> 9u16) & 0b111 == d,
        sext9(w) == sext9(t),
{
}

/// Field recovery for the Branch layout: the flag mask at bit 9 and a
/// nine-bit PC-relative offset, under opcode zero.
proof fn lemma_fields_br(fb: u16, t: u16, w: u16)
    by (bit_vector)
    requires
        fb < 8,
        t < 512,
        w == (fb << 9u16) | t,
    ensures
        w >> 12u16 == 0,
        (w >> 9u16) & 0b111 == fb,
        sext9(w) == sext9(t),
{
}

/// Field recovery for the layouts holding only a base register at bit 6.
proof fn lemma_fields_base(op: u16, b: u16, w: u16)
    by (bit_vector)
    requires
        op < 16,
        b < 8,
        w == (op << 12u16) | (b << 6u16),
    ensures
        w >> 12u16 == op,
        (w >> 6u16) & 0b111 == b,
        (w >> 11u16) & 1 == 0,
{
}

/// Field recovery for the JSR layout: bit 11 set over an eleven-bit offset.
proof fn lemma_fields_jsr(t: u16, w: u16)
    by (bit_vector)
    requires
        t < 2048,
        w == ((0b0100u16 << 12u16) | (1u16 << 11u16)) | t,
    ensures
        w >> 12u16 == 0b0100,
        (w >> 11u16) & 1 == 1,
        sext11(w) == sext11(t),
{
}

/// Field recovery for the TRAP layout: the vector fills the low byte.
proof fn lemma_fields_trap(v: u8, w: u16)
    by (bit_vector)
    requires
        w == (0b1111u16 << 12u16) | (v as u16),
    ensures
        w >> 12u16 == 0b1111,
        w as u8 == v,
{
}

/// A bare opcode nibble is recovered from its word.
proof fn lemma_fields_op(op: u16)
    by (bit_vector)
    requires
        op < 16,
    ensures
        (op << 12u16) >> 12u16 == op,
{
}

/// A five-bit immediate field round-trips through its encoding, which also
/// sets bit 5.
proof fn lemma_imm5_field(v: i8)
    by (bit_vector)
    requires
        -16 <= v <= 15,
    ensures
        32 <= ((1u16 << 5u16) | (((v as i16) & 0b11111) as u16)) < 64,
        sext5((1u16 << 5u16) | (((v as i16) & 0b11111) as u16)) == v,
{
}

/// A six-bit offset field round-trips through its encoding.
proof fn lemma_off6_field(v: i8)
    by (bit_vector)
    requires
        -32 <= v <= 31,
    ensures
        (((v as i16) & 0b111111) as u16) < 64,
        sext6(((v as i16) & 0b111111) as u16) == v,
{
}

/// A nine-bit offset field round-trips through its encoding.
proof fn lemma_off9_field(v: i16)
    by (bit_vector)
    requires
        -256 <= v <= 255,
    ensures
        ((v & 0b111111111) as u16) < 512,
        sext9((v & 0b111111111) as u16) == v,
{
}

/// An eleven-bit offset field round-trips through its encoding.
proof fn lemma_off11_field(v: i16)
    by (bit_vector)
    requires
        -1024 <= v <= 1023,
    ensures
        ((v & 0b11111111111) as u16) < 2048,
        sext11((v & 0b11111111111) as u16) == v,
{
}

/// Codec round trip: decoding the encoding of any well-formed instruction
/// yields the instruction itself.
pub proof fn lemma_decode_encode(i: Instruction)
    requires
        i.wf(),
    ensures
        spec_decode(spec_encode(i)) == i,
{
    let w = spec_encode(i);
    match i {
        Instruction::Add(d, s1, s2) => {
            lemma_reg(d);
            lemma_reg(s1);
            lemma_reg(s2);
            lemma_fields_rrt(0b0001u16, reg_num(d), reg_num(s1), reg_num(s2), w);
        },
        Instruction::AddImmediate(d, s1, imm) => {
            lemma_reg(d);
            lemma_reg(s1);
            lemma_imm5_field(imm.0);
            lemma_fields_rrt(
                0b0001u16,
                reg_num(d),
                reg_num(s1),
                (1u16 << 5u16) | (((imm.0 as i16) & 0b11111) as u16),
                w,
            );
        },
        Instruction::And(d, s1, s2) => {
            lemma_reg(d);
            lemma_reg(s1);
            lemma_reg(s2);
            lemma_fields_rrt(0b0101u16, reg_num(d), reg_num(s1), reg_num(s2), w);
        },
        Instruction::AndImmediate(d, s1, imm) => {
            lemma_reg(d);
            lemma_reg(s1);
            lemma_imm5_field(imm.0);
            lemma_fields_rrt(
                0b0101u16,
                reg_num(d),
                reg_num(s1),
                (1u16 << 5u16) | (((imm.0 as i16) & 0b11111) as u16),
                w,
            );
        },
        Instruction::Branch(f, off) => {
            lemma_flags_roundtrip(f);
            lemma_off9_field(off.0);
            lemma_fields_br(flag_bits(f), (off.0 & 0b111111111) as u16, w);
        },
        Instruction::Jump(b) => {
            lemma_reg(b);
            lemma_fields_base(0b1100u16, reg_num(b), w);
        },
        Instruction::JumpSubroutine(off) => {
            lemma_off11_field(off.0);
            lemma_fields_jsr((off.0 & 0b11111111111) as u16, w);
        },
        Instruction::JumpSubroutineRegister(b) => {
            lemma_reg(b);
            lemma_fields_base(0b0100u16, reg_num(b), w);
        },
        Instruction::Load(d, off) => {
            lemma_reg(d);
            lemma_off9_field(off.0);
            lemma_fields_do9(0b0010u16, reg_num(d), (off.0 & 0b111111111) as u16, w);
        },
        Instruction::LoadIndirect(d, off) => {
            lemma_reg(d);
            lemma_off9_field(off.0);
            lemma_fields_do9(0b1010u16, reg_num(d), (off.0 & 0b111111111) as u16, w);
        },
        Instruction::LoadRegister(d, b, off) => {
            lemma_reg(d);
            lemma_reg(b);
            lemma_off6_field(off.0);
            lemma_fields_rrt(
                0b0110u16,
                reg_num(d),
                reg_num(b),
                ((off.0 as i16) & 0b111111) as u16,
                w,
            );
        },
        Instruction::LoadEffectiveAddress(d, off) => {
            lemma_reg(d);
            lemma_off9_field(off.0);
            lemma_fields_do9(0b1110u16, reg_num(d), (off.0 & 0b111111111) as u16, w);
        },
        Instruction::Not(d, s) => {
            lemma_reg(d);
            lemma_reg(s);
            lemma_fields_rrt(0b1001u16, reg_num(d), reg_num(s), 0b111111u16, w);
        },
        Instruction::ReturnFromInterrupt => {
            lemma_fields_op(0b1000u16);
        },
        Instruction::Store(sr, off) => {
            lemma_reg(sr);
            lemma_off9_field(off.0);
            lemma_fields_do9(0b0011u16, reg_num(sr), (off.0 & 0b111111111) as u16, w);
        },
        Instruction::StoreIndirect(sr, off) => {
            lemma_reg(sr);
            lemma_off9_field(off.0);
            lemma_fields_do9(0b1011u16, reg_num(sr), (off.0 & 0b111111111) as u16, w);
        },
        Instruction::StoreRegister(sr, b, off) => {
            lemma_reg(sr);
            lemma_reg(b);
            lemma_off6_field(off.0);
            lemma_fields_rrt(
                0b0111u16,
                reg_num(sr),
                reg_num(b),
                ((off.0 as i16) & 0b111111) as u16,
                w,
            );
        },
        Instruction::Trap(v) => {
            lemma_fields_trap(v, w);
        },
        Instruction::Reserved => {
            lemma_fields_op(0b1101u16);
        },
    }
}

/// On a word that some well-formed instruction encodes to, the codec also
/// round-trips the other way: encoding the decoding restores the word.
pub proof fn lemma_encode_decode(w: u16)
    requires
        exists|i: Instruction| i.wf() && w == spec_encode(i),
    ensures
        spec_encode(spec_decode(w)) == w,
{
    let i = choose|i: Instruction| i.wf() && w == spec_encode(i);
    lemma_decode_encode(i);
}


impl Instruction {
    /// ADD in register form: `R[dr] <- R[sr1] + R[sr2]`.
    pub fn add(dr: Register, sr1: Register, sr2: Register) -> (r: Instruction)
        ensures
            r == Instruction::Add(dr, sr1, sr2),
    {
        Instruction::Add(dr, sr1, sr2)
    }

    /// ADD in immediate form: `R[dr] <- R[sr1] + imm`. The immediate must
    /// fit the 5-bit two's-complement range.
    pub fn add_imm(dr: Register, sr1: Register, imm: i8) -> (r: Instruction)
        requires
            -16 <= imm <= 15,
        ensures
            r == Instruction::AddImmediate(dr, sr1, Immediate5(imm)),
    {
        Instruction::AddImmediate(dr, sr1, Immediate5(imm))
    }

    /// Whether this is an ADD, in either form.
    pub fn is_add(&self) -> (r: bool)
        ensures
            r == ((*self) matches Instruction::Add(_, _, _) || (*self)
                matches Instruction::AddImmediate(_, _, _)),
    {
        match self {
            Instruction::Add(_, _, _) => true,
            Instruction::AddImmediate(_, _, _) => true,
            _ => false,
        }
    }

    /// AND in register form: `R[dr] <- R[sr1] & R[sr2]`.
    pub fn and(dr: Register, sr1: Register, sr2: Register) -> (r: Instruction)
        ensures
            r == Instruction::And(dr, sr1, sr2),
    {
        Instruction::And(dr, sr1, sr2)
    }

    /// AND in immediate form: `R[dr] <- R[sr1] & imm`. The immediate must
    /// fit the 5-bit two's-complement range.
    pub fn and_imm(dr: Register, sr1: Register, imm: i8) -> (r: Instruction)
        requires
            -16 <= imm <= 15,
        ensures
            r == Instruction::AndImmediate(dr, sr1, Immediate5(imm)),
    {
        Instruction::AndImmediate(dr, sr1, Immediate5(imm))
    }

    /// Whether this is an AND, in either form.
    pub fn is_and(&self) -> (r: bool)
        ensures
            r == ((*self) matches Instruction::And(_, _, _) || (*self)
                matches Instruction::AndImmediate(_, _, _)),
    {
        match self {
            Instruction::And(_, _, _) => true,
            Instruction::AndImmediate(_, _, _) => true,
            _ => false,
        }
    }

    /// A conditional branch. `flags` holds the `n z p` mask in its low three
    /// bits; the offset must fit the 9-bit two's-complement range.
    pub fn branch(flags: u8, ip_offset: i16) -> (r: Instruction)
        requires
            flags < 8,
            -256 <= ip_offset <= 255,
        ensures
            r == Instruction::Branch(flags_of(flags as u16), PcOffset9(ip_offset)),
    {
        Instruction::Branch(DesiredConditionFlags::from_bits(flags as u16), PcOffset9(ip_offset))
    }

    /// The `n z p` mask and offset of a Branch, and nothing for any other
    /// instruction.
    pub fn get_branch(&self) -> (r: Option<(u8, i16)>)
        ensures
            (*self) matches Instruction::Branch(f, off) ==> r == Some((flag_bits(f) as u8, off.0)),
            !((*self) matches Instruction::Branch(_, _)) ==> r is None,
    {
        match self {
            Instruction::Branch(f, off) => Some((f.into_flags(), off.into_inner())),
            _ => None,
        }
    }

    /// An unconditional jump through a base register. RET is `jmp(R7)`.
    pub fn jmp(reg: Register) -> (r: Instruction)
        ensures
            r == Instruction::Jump(reg),
    {
        Instruction::Jump(reg)
    }

    /// The base register of a Jump, and nothing for any other instruction.
    pub fn get_jmp(&self) -> (r: Option<Register>)
        ensures
            (*self) matches Instruction::Jump(b) ==> r == Some(b),
            !((*self) matches Instruction::Jump(_)) ==> r is None,
    {
        match self {
            Instruction::Jump(b) => Some(*b),
            _ => None,
        }
    }

    /// A PC-relative load. The offset must fit the 9-bit two's-complement
    /// range.
    pub fn ld(dr: Register, ip_offset: i16) -> (r: Instruction)
        requires
            -256 <= ip_offset <= 255,
        ensures
            r == Instruction::Load(dr, PcOffset9(ip_offset)),
    {
        Instruction::Load(dr, PcOffset9(ip_offset))
    }

    /// The destination and offset of a Load, and nothing for any other
    /// instruction.
    pub fn get_ld(&self) -> (r: Option<(Register, i16)>)
        ensures
            (*self) matches Instruction::Load(d, off) ==> r == Some((d, off.0)),
            !((*self) matches Instruction::Load(_, _)) ==> r is None,
    {
        match self {
            Instruction::Load(d, off) => Some((*d, off.into_inner())),
            _ => None,
        }
    }

    /// Load the effective address itself. The offset must fit the 9-bit
    /// two's-complement range.
    pub fn lea(dr: Register, ip_offset: i16) -> (r: Instruction)
        requires
            -256 <= ip_offset <= 255,
        ensures
            r == Instruction::LoadEffectiveAddress(dr, PcOffset9(ip_offset)),
    {
        Instruction::LoadEffectiveAddress(dr, PcOffset9(ip_offset))
    }

    /// The destination and offset of a LoadEffectiveAddress, and nothing for
    /// any other instruction.
    pub fn get_lea(&self) -> (r: Option<(Register, i16)>)
        ensures
            (*self) matches Instruction::LoadEffectiveAddress(d, off) ==> r == Some((d, off.0)),
            !((*self) matches Instruction::LoadEffectiveAddress(_, _)) ==> r is None,
    {
        match self {
            Instruction::LoadEffectiveAddress(d, off) => Some((*d, off.into_inner())),
            _ => None,
        }
    }

    /// Bitwise complement: `R[dr] <- !R[sr]`.
    pub fn not(dr: Register, sr: Register) -> (r: Instruction)
        ensures
            r == Instruction::Not(dr, sr),
    {
        Instruction::Not(dr, sr)
    }

    /// Whether this is a NOT.
    pub fn is_not(&self) -> (r: bool)
        ensures
            r == ((*self) matches Instruction::Not(_, _)),
    {
        match self {
            Instruction::Not(_, _) => true,
            _ => false,
        }
    }

    /// A trap into the host service with the given vector.
    pub fn trap(vector: u8) -> (r: Instruction)
        ensures
            r == Instruction::Trap(vector),
    {
        Instruction::Trap(vector)
    }

    /// The vector of a Trap, and nothing for any other instruction.
    pub fn get_trap_vector(&self) -> (r: Option<u8>)
        ensures
            (*self) matches Instruction::Trap(v) ==> r == Some(v),
            !((*self) matches Instruction::Trap(_)) ==> r is None,
    {
        match self {
            Instruction::Trap(v) => Some(*v),
            _ => None,
        }
    }

    /// GETC: read one byte from the host input into `R0`.
    pub fn trap_get_c() -> (r: Instruction)
        ensures
            r == Instruction::Trap(0x20),
    {
        Instruction::Trap(0x20)
    }

    /// OUT: write the low byte of `R0` to the host output.
    pub fn trap_out() -> (r: Instruction)
        ensures
            r == Instruction::Trap(0x21),
    {
        Instruction::Trap(0x21)
    }

    /// PUTS: write the zero-terminated string at `R0` to the host output.
    pub fn trap_puts() -> (r: Instruction)
        ensures
            r == Instruction::Trap(0x22),
    {
        Instruction::Trap(0x22)
    }

    /// IN: prompt for and read one byte; unimplemented in this core, so
    /// executing it is a fatal error.
    pub fn trap_in() -> (r: Instruction)
        ensures
            r == Instruction::Trap(0x23),
    {
        Instruction::Trap(0x23)
    }

    /// HALT: set the halt latch.
    pub fn trap_halt() -> (r: Instruction)
        ensures
            r == Instruction::Trap(0x25),
    {
        Instruction::Trap(0x25)
    }
}

/// The eight general-purpose registers, as signed 16-bit words.
#[derive(Debug)]
pub struct Registers {
    reg: Vec<i16>,
}

impl View for Registers {
    type V = Seq<i16>;

    closed spec fn view(&self) -> Seq<i16> {
        self.reg@
    }
}

impl Registers {
    /// The register file holds exactly eight registers.
    pub open spec fn wf(&self) -> bool {
        self@.len() == 8
    }

    /// A register file with every register zero.
    pub fn new() -> (r: Registers)
        ensures
            r.wf(),
            forall|j: int| 0 <= j < 8 ==> r@[j] == 0i16,
    {
        let mut reg: Vec<i16> = Vec::new();
        let mut k: usize = 0;
        while k < 8
            invariant
                k <= 8,
                reg@.len() == k,
                forall|j: int| 0 <= j < k ==> reg@[j] == 0i16,
            decreases 8 - k,
        {
            reg.push(0);
            k += 1;
        }
        Registers { reg }
    }

    /// Read a register.
    pub fn get(&self, i: Register) -> (r: i16)
        requires
            self.wf(),
        ensures
            r == self@[reg_num(i) as int],
    {
        let idx = i.to_index() as usize;
        self.reg[idx]
    }

    /// Borrow a register for writing; the register file afterwards holds
    /// whatever the caller stored through the borrow.
    pub fn get_mut(&mut self, i: Register) -> (r: &mut i16)
        requires
            old(self).wf(),
        ensures
            *r == old(self)@[reg_num(i) as int],
            final(self)@ == old(self)@.update(reg_num(i) as int, *final(r)),
            final(self).wf(),
    {
        let idx = i.to_index() as usize;
        &mut self.reg[idx]
    }
}

} // verus!


