//! The guest instruction word layout and the decoder.
//!
//! An encoded instruction is a 16-bit word; fields are addressed by
//! inclusive-exclusive bit ranges counted from the most significant bit.

use vstd::prelude::*;
use vstd::arithmetic::power2::pow2;
use vstd::arithmetic::power2::lemma2_to64;

verus! {

/// A 4-bit register index, 0 to 15.
pub type Register = u8;

/// An 8-bit literal operand.
pub type Immediate = u8;

/// A 10-bit guest instruction address.
pub type Address = u16;

/// A 4-bit two's-complement load/store displacement, -8 to 7.
pub type Offset = i8;

/// A raw 16-bit guest instruction word.
pub struct EncodedInstruction(pub u16);

/// The opcode field: bits [0, 4).
pub open spec fn opcode_of(w: u16) -> nat {
    w as nat / 4096
}

/// The first register field: bits [4, 8).
pub open spec fn reg_a_of(w: u16) -> nat {
    (w as nat / 256) % 16
}

/// The second register field: bits [8, 12).
pub open spec fn reg_b_of(w: u16) -> nat {
    (w as nat / 16) % 16
}

/// The third register field: bits [12, 16).
pub open spec fn reg_c_of(w: u16) -> nat {
    w as nat % 16
}

/// The immediate field: bits [8, 16).
pub open spec fn immediate_of(w: u16) -> nat {
    w as nat % 256
}

/// The address field: bits [6, 16).
pub open spec fn address_of(w: u16) -> nat {
    w as nat % 1024
}

/// The condition field: bits [4, 6).
pub open spec fn cond_bits_of(w: u16) -> nat {
    (w as nat / 1024) % 4
}

/// The offset field, bits [12, 16), read as a 4-bit two's-complement
/// number: patterns 0 to 7 stand for themselves, 8 to 15 for -8 to -1.
pub open spec fn offset_val_of(w: u16) -> int {
    if w as nat % 16 < 8 {
        (w as nat % 16) as int
    } else {
        (w as nat % 16) - 16
    }
}

/// The value of the bit field [`start`, `end`) of `w`, bits counted from
/// the most significant end of the word.
pub open spec fn spec_field(w: u16, start: nat, end: nat) -> nat
    recommends
        start <= end <= 16,
{
    ((w as nat) / pow2((16 - end) as nat)) % pow2((end - start) as nat)
}

impl EncodedInstruction {
    /// The value of the bit field `range` of the word, counted from the
    /// most significant bit.
    pub fn read_bits(&self, range: core::ops::Range<usize>) -> (r: u16)
        requires
            range.start <= range.end,
            1 <= range.end <= 16,
        ensures
            r == spec_field(self.0, range.start as nat, range.end as nat),
            r < pow2((range.end - range.start) as nat),
    {
        proof {
            lemma2_to64();
            vstd::bits::lemma_u16_shr_is_div(self.0, (16 - range.end) as u16);
        }
        let shifted = self.0 >> (16 - range.end) as u16;
        let width = range.end - range.start;
        proof {
            let w = width as nat;
            if w < 16 {
                vstd::arithmetic::power2::lemma_pow2_strictly_increases(w, 16);
            }
            vstd::arithmetic::power2::lemma_pow2_pos(w);
            vstd::bits::lemma_u32_shl_is_mul(1u32, width as u32);
        }
        let mask: u16 = ((1u32 << width as u32) - 1) as u16;
        proof {
            let w = (range.end - range.start) as nat;
            assert(mask == (pow2(w) - 1) as u16);
            assert(pow2(w) - 1 == vstd::bits::low_bits_mask(w)) by {
                vstd::arithmetic::power2::lemma_pow2_pos(w);
            }
            if w < 16 {
                vstd::bits::lemma_u16_low_bits_mask_is_mod(shifted, w);
                vstd::arithmetic::power2::lemma_pow2_pos(w);
                assert(shifted % (pow2(w) as u16) == (shifted as nat) % pow2(w));
            } else {
                assert(w == 16);
                assert(shifted & 0xffffu16 == shifted) by (bit_vector);
                assert((shifted as nat) % pow2(16) == shifted as nat) by {
                    vstd::arithmetic::div_mod::lemma_small_mod(shifted as nat, pow2(16));
                }
            }
        }
        shifted & mask
    }

    /// The opcode field: bits [0, 4).
    pub fn opcode(&self) -> (r: u8)
        ensures
            r == opcode_of(self.0),
            r < 16,
    {
        proof {
            lemma2_to64();
            vstd::arithmetic::div_mod::lemma_small_mod(self.0 as nat / 4096, 16);
        }
        self.read_bits(0..4) as u8
    }

    /// The first register field: bits [4, 8).
    pub fn reg_a(&self) -> (r: u8)
        ensures
            r == reg_a_of(self.0),
            r < 16,
    {
        proof {
            lemma2_to64();
        }
        self.read_bits(4..8) as u8
    }

    /// The second register field: bits [8, 12).
    pub fn reg_b(&self) -> (r: u8)
        ensures
            r == reg_b_of(self.0),
            r < 16,
    {
        proof {
            lemma2_to64();
        }
        self.read_bits(8..12) as u8
    }

    /// The third register field: bits [12, 16).
    pub fn reg_c(&self) -> (r: u8)
        ensures
            r == reg_c_of(self.0),
            r < 16,
    {
        proof {
            lemma2_to64();
            vstd::arithmetic::div_mod::lemma_div_basics(self.0 as int);
        }
        self.read_bits(12..16) as u8
    }

    /// The immediate field: bits [8, 16).
    pub fn immediate(&self) -> (r: u8)
        ensures
            r == immediate_of(self.0),
    {
        proof {
            lemma2_to64();
            vstd::arithmetic::div_mod::lemma_div_basics(self.0 as int);
        }
        self.read_bits(8..16) as u8
    }

    /// The address field: bits [6, 16).
    pub fn address(&self) -> (r: u16)
        ensures
            r == address_of(self.0),
            r < 1024,
    {
        proof {
            lemma2_to64();
            vstd::arithmetic::div_mod::lemma_div_basics(self.0 as int);
        }
        self.read_bits(6..16)
    }

    /// The offset field as a signed value: sign bit at [12, 13), 3-bit
    /// magnitude at [13, 16); the magnitude where the sign bit is clear,
    /// the magnitude less 8 where it is set.
    pub fn offset(&self) -> (r: i8)
        ensures
            r as int == offset_val_of(self.0),
            -8 <= r as int <= 7,
    {
        let a = self.read_bits(13..16) as u8;
        let sign = self.read_bits(12..13);
        proof {
            lemma2_to64();
            vstd::arithmetic::div_mod::lemma_mod_breakdown(self.0 as int, 8, 2);
        }
        if sign != 0 {
            -8 + a as i8
        } else {
            a as i8
        }
    }

    /// The condition field, decoded: bits [4, 6).
    pub fn condition(&self) -> (r: Condition)
        ensures
            r == cond_of(self.0),
    {
        proof {
            lemma2_to64();
        }
        Condition::from_bits(self.read_bits(4..6))
    }
}

/// The four branch conditions, decoded from the 2-bit condition field.
#[derive(Clone, Copy, Debug, PartialEq, Eq, Structural)]
pub enum Condition {
    Equal,
    NotEqual,
    GreaterThanOrEqual,
    LessThan,
}

/// The condition selected by a 2-bit code.
pub open spec fn spec_cond_from_bits(bits: u16) -> Condition {
    if bits == 0 {
        Condition::Equal
    } else if bits == 1 {
        Condition::NotEqual
    } else if bits == 2 {
        Condition::GreaterThanOrEqual
    } else {
        Condition::LessThan
    }
}

/// The condition encoded in the word `w`.
pub open spec fn cond_of(w: u16) -> Condition {
    spec_cond_from_bits(cond_bits_of(w) as u16)
}

impl Condition {
    /// The condition selected by a 2-bit code.
    pub fn from_bits(bits: u16) -> (r: Self)
        requires
            bits < 4,
        ensures
            r == spec_cond_from_bits(bits),
    {
        match bits {
            0 => Condition::Equal,
            1 => Condition::NotEqual,
            2 => Condition::GreaterThanOrEqual,
            _ => Condition::LessThan,
        }
    }
}

/// The closed set of guest instructions, one variant per opcode.
#[derive(Clone, Copy, Debug, PartialEq, Eq, Structural)]
pub enum Instruction {
    Nop,
    Hlt,
    Add(Register, Register, Register),
    Sub(Register, Register, Register),
    Nor(Register, Register, Register),
    And(Register, Register, Register),
    Xor(Register, Register, Register),
    Rsh(Register, Register),
    Ldi(Register, Immediate),
    Adi(Register, Immediate),
    Jmp(Address),
    Brh(Condition, Address),
    Cal(Address),
    Ret,
    Lod(Register, Register, Offset),
    Str(Register, Register, Offset),
}

/// The instruction encoded by the word `w`. Decoding is total: every
/// 16-bit word selects exactly one of the sixteen variants.
pub open spec fn spec_decode(w: u16) -> Instruction {
    let op = opcode_of(w);
    if op == 0 {
        Instruction::Nop
    } else if op == 1 {
        Instruction::Hlt
    } else if op == 2 {
        Instruction::Add(reg_a_of(w) as u8, reg_b_of(w) as u8, reg_c_of(w) as u8)
    } else if op == 3 {
        Instruction::Sub(reg_a_of(w) as u8, reg_b_of(w) as u8, reg_c_of(w) as u8)
    } else if op == 4 {
        Instruction::Nor(reg_a_of(w) as u8, reg_b_of(w) as u8, reg_c_of(w) as u8)
    } else if op == 5 {
        Instruction::And(reg_a_of(w) as u8, reg_b_of(w) as u8, reg_c_of(w) as u8)
    } else if op == 6 {
        Instruction::Xor(reg_a_of(w) as u8, reg_b_of(w) as u8, reg_c_of(w) as u8)
    } else if op == 7 {
        Instruction::Rsh(reg_a_of(w) as u8, reg_c_of(w) as u8)
    } else if op == 8 {
        Instruction::Ldi(reg_a_of(w) as u8, immediate_of(w) as u8)
    } else if op == 9 {
        Instruction::Adi(reg_a_of(w) as u8, immediate_of(w) as u8)
    } else if op == 10 {
        Instruction::Jmp(address_of(w) as u16)
    } else if op == 11 {
        Instruction::Brh(cond_of(w), address_of(w) as u16)
    } else if op == 12 {
        Instruction::Cal(address_of(w) as u16)
    } else if op == 13 {
        Instruction::Ret
    } else if op == 14 {
        Instruction::Lod(reg_a_of(w) as u8, reg_b_of(w) as u8, offset_val_of(w) as i8)
    } else {
        Instruction::Str(reg_a_of(w) as u8, reg_b_of(w) as u8, offset_val_of(w) as i8)
    }
}

impl Instruction {
    /// Decodes one instruction word. Total: no word is rejected.
    pub fn from_instruction(instruction: EncodedInstruction) -> (r: Self)
        ensures
            r == spec_decode(instruction.0),
    {
        match instruction.opcode() {
            0 => Instruction::Nop,
            1 => Instruction::Hlt,
            2 => Instruction::Add(instruction.reg_a(), instruction.reg_b(), instruction.reg_c()),
            3 => Instruction::Sub(instruction.reg_a(), instruction.reg_b(), instruction.reg_c()),
            4 => Instruction::Nor(instruction.reg_a(), instruction.reg_b(), instruction.reg_c()),
            5 => Instruction::And(instruction.reg_a(), instruction.reg_b(), instruction.reg_c()),
            6 => Instruction::Xor(instruction.reg_a(), instruction.reg_b(), instruction.reg_c()),
            7 => Instruction::Rsh(instruction.reg_a(), instruction.reg_c()),
            8 => Instruction::Ldi(instruction.reg_a(), instruction.immediate()),
            9 => Instruction::Adi(instruction.reg_a(), instruction.immediate()),
            10 => Instruction::Jmp(instruction.address()),
            11 => Instruction::Brh(instruction.condition(), instruction.address()),
            12 => Instruction::Cal(instruction.address()),
            13 => Instruction::Ret,
            14 => Instruction::Lod(
                instruction.reg_a(),
                instruction.reg_b(),
                instruction.offset(),
            ),
            _ => Instruction::Str(
                instruction.reg_a(),
                instruction.reg_b(),
                instruction.offset(),
            ),
        }
    }
}

/// Decoding is total: every 16-bit word selects exactly one of the
/// sixteen instruction variants, the one named by its opcode field, and
/// no word is rejected.
pub proof fn lemma_decode_totality(w: u16)
    ensures
        opcode_of(w) < 16,
        (opcode_of(w) == 0 <==> spec_decode(w) is Nop),
        (opcode_of(w) == 1 <==> spec_decode(w) is Hlt),
        (opcode_of(w) == 2 <==> spec_decode(w) is Add),
        (opcode_of(w) == 3 <==> spec_decode(w) is Sub),
        (opcode_of(w) == 4 <==> spec_decode(w) is Nor),
        (opcode_of(w) == 5 <==> spec_decode(w) is And),
        (opcode_of(w) == 6 <==> spec_decode(w) is Xor),
        (opcode_of(w) == 7 <==> spec_decode(w) is Rsh),
        (opcode_of(w) == 8 <==> spec_decode(w) is Ldi),
        (opcode_of(w) == 9 <==> spec_decode(w) is Adi),
        (opcode_of(w) == 10 <==> spec_decode(w) is Jmp),
        (opcode_of(w) == 11 <==> spec_decode(w) is Brh),
        (opcode_of(w) == 12 <==> spec_decode(w) is Cal),
        (opcode_of(w) == 13 <==> spec_decode(w) is Ret),
        (opcode_of(w) == 14 <==> spec_decode(w) is Lod),
        (opcode_of(w) == 15 <==> spec_decode(w) is Str),
{
}

/// Every 4-bit pattern of the offset field decodes to its standard
/// two's-complement value: the value lies in -8 to 7, re-encoding it
/// modulo 16 recovers the pattern, and it equals the pattern itself
/// below 8 and the pattern less 16 from 8 up.
pub proof fn lemma_offset_round_trip(pattern: u16)
    requires
        pattern < 16,
    ensures
        -8 <= offset_val_of(pattern) <= 7,
        offset_val_of(pattern) % 16 == pattern,
        offset_val_of(pattern) == if pattern < 8 {
            pattern as int
        } else {
            pattern - 16
        },
{
    vstd::arithmetic::div_mod::lemma_small_mod(pattern as nat, 16);
}

/// Decodes a whole program, in order, one instruction per input word.
pub fn disassemble(bin: &[u16]) -> (r: Vec<Instruction>)
    ensures
        r@.len() == bin@.len(),
        forall|i: int| 0 <= i < bin@.len() ==> r@[i] == spec_decode(bin@[i]),
{
    let mut out: Vec<Instruction> = Vec::new();
    let mut k: usize = 0;
    while k < bin.len()
        invariant
            k <= bin@.len(),
            out@.len() == k,
            forall|i: int| 0 <= i < k ==> out@[i] == spec_decode(bin@[i]),
        decreases bin@.len() - k,
    {
        out.push(Instruction::from_instruction(EncodedInstruction(bin[k])));
        k += 1;
    }
    out
}

} // verus!
