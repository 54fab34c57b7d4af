//! From a raw 16- or 32-bit encoding to the decoded instruction record.

pub mod inst_16;
pub mod inst_32;

use vstd::prelude::*;
use vstd::arithmetic::power2::{lemma2_to64, lemma_pow2_adds, lemma_pow2_pos, lemma_pow2_unfold,
    lemma_pow2_strictly_increases, pow2};
use vstd::arithmetic::div_mod::lemma_mod_multiples_vanish;
use vstd::bits::{lemma_u32_low_bits_mask_is_mod, lemma_u32_shl_is_mul, lemma_u32_shr_is_div,
    low_bits_mask, lemma_u64_shl_is_mul};
use crate::cpu::instruction::{Extensions, Instruction, OpecodeKind};
use crate::cpu::trap::{Fault, TrapCause};
use crate::Isa;

verus! {

/// Bits `end` down to `start` of `x`, as a number.
pub open spec fn spec_slice(x: int, end: nat, start: nat) -> int {
    (x / (pow2(start) as int)) % (pow2((end - start + 1) as nat) as int)
}

/// The number that the low `bit_size` bits of `imm32` denote in two's
/// complement.
pub open spec fn spec_to_signed_nbit(imm32: int, bit_size: nat) -> int {
    let low = imm32 % (pow2(bit_size) as int);
    if low >= pow2((bit_size - 1) as nat) {
        low - pow2(bit_size)
    } else {
        low
    }
}

/// The number that `v`, a value below `modulus`, denotes in two's complement
/// of that width.
pub open spec fn fold_sign(v: int, modulus: int) -> int {
    if 2 * v >= modulus {
        v - modulus
    } else {
        v
    }
}

/// The fault of an encoding that names no instruction: an illegal
/// instruction with the encoding as its value.
pub open spec fn spec_illegal(inst: u64) -> Fault {
    Fault { addr: Some(inst), cause: TrapCause::IllegalInst }
}

/// The fault of an encoding that names no instruction.
#[verifier::when_used_as_spec(spec_illegal)]
pub fn illegal(inst: u64) -> (r: Fault)
    ensures
        r == spec_illegal(inst),
{
    Fault { addr: Some(inst), cause: TrapCause::IllegalInst }
}

/// The record that an encoding decodes to: the instruction it names with
/// the fields that instruction has, or the fault of an encoding that names
/// no instruction.
pub open spec fn spec_decode<T: Decode>(raw: T, isa: Isa) -> Result<Instruction, Fault> {
    match raw.opecode_spec(isa) {
        Ok(opc) => Ok(
            Instruction {
                opc,
                rd: raw.rd_spec(opc),
                rs1: raw.rs1_spec(opc),
                rs2: raw.rs2_spec(opc),
                imm: raw.imm_spec(opc),
                is_compressed: raw.compressed(),
            },
        ),
        Err(e) => Err(e),
    }
}

/// Decoding of a raw encoding. It is a function of the encoding and the ISA
/// alone, and it answers every encoding: with the record, or with an illegal
/// instruction fault that carries the encoding.
pub trait Decode: Sized {
    /// The instruction that the encoding names.
    spec fn opecode_spec(self, isa: Isa) -> Result<OpecodeKind, Fault>;

    /// The destination register of the encoding, read as instruction `opkind`.
    spec fn rd_spec(self, opkind: OpecodeKind) -> Option<usize>;

    /// The first source field of the encoding, read as instruction `opkind`.
    spec fn rs1_spec(self, opkind: OpecodeKind) -> Option<usize>;

    /// The second source field of the encoding, read as instruction `opkind`.
    spec fn rs2_spec(self, opkind: OpecodeKind) -> Option<usize>;

    /// The immediate of the encoding, read as instruction `opkind`.
    spec fn imm_spec(self, opkind: OpecodeKind) -> Option<i32>;

    /// Whether the encoding is a compressed one.
    spec fn compressed(self) -> bool;

    /// Decodes the encoding into its record.
    fn decode(&self, isa: Isa) -> (r: Result<Instruction, Fault>)
        ensures
            match self.opecode_spec(isa) {
                Ok(opc) => r == Ok::<Instruction, Fault>(
                    Instruction {
                        opc,
                        rd: self.rd_spec(opc),
                        rs1: self.rs1_spec(opc),
                        rs2: self.rs2_spec(opc),
                        imm: self.imm_spec(opc),
                        is_compressed: self.compressed(),
                    },
                ),
                Err(e) => r == Err::<Instruction, Fault>(e),
            },
            r is Ok ==> r->Ok_0.wf(),
            r is Ok ==> r->Ok_0.offset_aligned(),
    ;

    /// Finds the instruction that the encoding names.
    fn parse_opecode(self, isa: Isa) -> (r: Result<OpecodeKind, Fault>)
        ensures
            r == self.opecode_spec(isa),
    ;

    /// Reads the destination register of the encoding, read as `opkind`.
    fn parse_rd(self, opkind: &OpecodeKind) -> (r: Result<Option<usize>, Fault>)
        ensures
            r == Ok::<Option<usize>, Fault>(self.rd_spec(*opkind)),
    ;

    /// Reads the first source field of the encoding, read as `opkind`.
    fn parse_rs1(self, opkind: &OpecodeKind) -> (r: Result<Option<usize>, Fault>)
        ensures
            r == Ok::<Option<usize>, Fault>(self.rs1_spec(*opkind)),
    ;

    /// Reads the second source field of the encoding, read as `opkind`.
    fn parse_rs2(self, opkind: &OpecodeKind) -> (r: Result<Option<usize>, Fault>)
        ensures
            r == Ok::<Option<usize>, Fault>(self.rs2_spec(*opkind)),
    ;

    /// Reads the immediate of the encoding, read as `opkind`.
    fn parse_imm(self, opkind: &OpecodeKind) -> (r: Result<Option<i32>, Fault>)
        ensures
            r == Ok::<Option<i32>, Fault>(self.imm_spec(*opkind)),
    ;
}

/// Bit-field helpers on a raw encoding.
pub trait DecodeUtil: Sized {
    /// The encoding as a number.
    spec fn value(self) -> int;

    /// Number of bits of the encoding.
    spec fn width(self) -> nat;

    /// The extension whose decoder reads the encoding.
    spec fn extension_spec(self) -> Extensions;

    /// Bits `end` down to `start`, moved to the bottom.
    fn slice(self, end: u32, start: u32) -> (r: Self)
        requires
            start <= end < self.width(),
        ensures
            r.value() == spec_slice(self.value(), end as nat, start as nat),
            r.width() == self.width(),
            0 <= r.value() < pow2((end - start + 1) as nat),
    ;

    /// The extension whose decoder reads the encoding.
    fn extension(self) -> (r: Extensions)
        ensures
            r == self.extension_spec(),
    ;

    /// Reads the low `bit_size` bits of `imm32` as a two's-complement number.
    fn to_signed_nbit(&self, imm32: i32, bit_size: u32) -> (r: i32)
        requires
            1 <= bit_size <= 30,
        ensures
            r == spec_to_signed_nbit(imm32 as int, bit_size as nat),
    {
        proof {
            let n = bit_size as nat;
            lemma2_to64();
            lemma_pow2_strictly_increases(n, 31);
            lemma_pow2_pos(n);
            lemma_u64_shl_is_mul(1, bit_size as u64);
        }
        let modulus: u64 = 1u64 << bit_size;
        assert(modulus == pow2(bit_size as nat));
        let lifted: u64 = (imm32 as i64 + 0x8000_0000) as u64;
        let low: u64 = lifted % modulus;
        proof {
            let n = bit_size as nat;
            lemma_pow2_adds((31 - n) as nat, n);
            lemma_mod_multiples_vanish(pow2((31 - n) as nat) as int, imm32 as int, pow2(n) as int);
            assert(lifted as int == pow2((31 - n) as nat) * pow2(n) + imm32);
            assert(low as int == (imm32 as int) % (pow2(n) as int));
            lemma_pow2_unfold(n);
            assert(modulus / 2 == pow2((n - 1) as nat));
        }
        if low >= modulus / 2 {
            (low as i64 - modulus as i64) as i32
        } else {
            low as i32
        }
    }
}

/// The extension whose decoder reads a 32-bit encoding: the atomics and the
/// system instructions have major opcodes of their own; `ecall` and `ebreak`
/// stay with the base ISA.
pub open spec fn spec_extension32(inst: u32) -> Extensions {
    let opmap = inst % 128;
    let funct3 = (inst / 0x1000) % 8;
    if opmap == 0b0101111 {
        Extensions::A
    } else if opmap == 0b1110011 {
        if funct3 == 0 {
            if inst == 0x0000_0073 || inst == 0x0010_0073 {
                Extensions::BaseI
            } else {
                Extensions::Priv
            }
        } else {
            Extensions::Zicsr
        }
    } else {
        Extensions::BaseI
    }
}

impl DecodeUtil for u32 {
    open spec fn value(self) -> int {
        self as int
    }

    open spec fn width(self) -> nat {
        32
    }

    open spec fn extension_spec(self) -> Extensions {
        spec_extension32(self)
    }

    fn slice(self, end: u32, start: u32) -> (r: u32) {
        let width: u32 = end - start + 1;
        let shifted: u32 = self >> start;
        proof {
            lemma_u32_shr_is_div(self, start);
            lemma_pow2_pos(start as nat);
            lemma_pow2_pos(width as nat);
            lemma2_to64();
            assert(shifted as int == self as int / (pow2(start as nat) as int));
        }
        if width == 32 {
            assert(pow2(width as nat) == 0x1_0000_0000);
            assert((end - start + 1) as nat == width as nat);
            assert(shifted as int == spec_slice(self as int, end as nat, start as nat));
            shifted
        } else {
            proof {
                lemma_pow2_strictly_increases(width as nat, 32);
                lemma_u32_shl_is_mul(1, width);
                assert((1u32 << width) == pow2(width as nat));
                lemma_u32_low_bits_mask_is_mod(shifted, width as nat);
                assert(low_bits_mask(width as nat) == pow2(width as nat) - 1);
                assert(((1u32 << width) - 1) as u32 == low_bits_mask(width as nat) as u32);
            }
            let r: u32 = shifted & ((1u32 << width) - 1);
            assert(r == shifted % (pow2(width as nat) as u32));
            assert((end - start + 1) as nat == width as nat);
            assert(r as int == (shifted as int) % (pow2(width as nat) as int));
            assert(r as int == spec_slice(self as int, end as nat, start as nat));
            r
        }
    }

    fn extension(self) -> (r: Extensions) {
        let opmap: u32 = self.slice(6, 0);
        let funct3: u32 = self.slice(14, 12);
        proof {
            lemma2_to64();
        }
        if opmap == 0b0101111 {
            Extensions::A
        } else if opmap == 0b1110011 {
            if funct3 == 0 {
                if self == 0x0000_0073 || self == 0x0010_0073 {
                    Extensions::BaseI
                } else {
                    Extensions::Priv
                }
            } else {
                Extensions::Zicsr
            }
        } else {
            Extensions::BaseI
        }
    }
}

impl DecodeUtil for u16 {
    open spec fn value(self) -> int {
        self as int
    }

    open spec fn width(self) -> nat {
        16
    }

    open spec fn extension_spec(self) -> Extensions {
        Extensions::C
    }

    fn slice(self, end: u32, start: u32) -> (r: u16) {
        let wide: u32 = self as u32;
        let r: u32 = wide.slice(end, start);
        proof {
            lemma2_to64();
            lemma_pow2_pos(start as nat);
            lemma_pow2_pos((end - start + 1) as nat);
            vstd::arithmetic::div_mod::lemma_div_nonincreasing(wide as int, pow2(start as nat) as int);
            vstd::arithmetic::div_mod::lemma_div_pos_is_pos(wide as int, pow2(start as nat) as int);
            vstd::arithmetic::div_mod::lemma_mod_decreases(
                (wide as int / (pow2(start as nat) as int)) as nat,
                pow2((end - start + 1) as nat),
            );
        }
        r as u16
    }

    fn extension(self) -> (r: Extensions) {
        Extensions::C
    }
}

} // verus!
