//! Two's-complement views of machine words: truncation, sign extension and
//! signed interpretation, stated over mathematical integers.

use vstd::prelude::*;

verus! {

/// `2^64`, the modulus of a machine word.
pub open spec fn word_modulus() -> int {
    0x1_0000_0000_0000_0000
}

/// The word that represents the integer `x` modulo `2^64`.
pub open spec fn wrap64(x: int) -> u64 {
    (x % word_modulus()) as u64
}

/// The low 32 bits of `x`.
pub open spec fn low32(x: u64) -> u64 {
    x % 0x1_0000_0000
}

/// The low 8 bits of `x` read as a signed byte and widened to a word.
pub open spec fn sext8(x: u64) -> u64 {
    let lo = x % 0x100;
    if lo >= 0x80 {
        (lo + 0xFFFF_FFFF_FFFF_FF00) as u64
    } else {
        lo
    }
}

/// The low 16 bits of `x` read as a signed half-word and widened to a word.
pub open spec fn sext16(x: u64) -> u64 {
    let lo = x % 0x1_0000;
    if lo >= 0x8000 {
        (lo + 0xFFFF_FFFF_FFFF_0000) as u64
    } else {
        lo
    }
}

/// The low 32 bits of `x` read as a signed word and widened to 64 bits.
pub open spec fn sext32(x: u64) -> u64 {
    let lo = x % 0x1_0000_0000;
    if lo >= 0x8000_0000 {
        (lo + 0xFFFF_FFFF_0000_0000) as u64
    } else {
        lo
    }
}

/// The integer that `x` denotes as a 64-bit two's-complement number.
pub open spec fn signed64(x: u64) -> int {
    if x >= 0x8000_0000_0000_0000 {
        x - word_modulus()
    } else {
        x as int
    }
}

/// The integer that the low 32 bits of `x` denote in two's complement.
pub open spec fn signed32(x: u64) -> int {
    let lo = x % 0x1_0000_0000;
    if lo >= 0x8000_0000 {
        lo - 0x1_0000_0000
    } else {
        lo as int
    }
}

/// Arithmetic right shift of a word: the sign bit is replicated.
pub open spec fn sra64(x: u64, sh: u64) -> u64 {
    if x >= 0x8000_0000_0000_0000 {
        !((!x) >> sh)
    } else {
        x >> sh
    }
}

/// Sign-extends the low 8 bits of a word.
pub fn sign_extend8(x: u64) -> (r: u64)
    ensures
        r == sext8(x),
{
    let r: u64 = if x & 0x80 != 0 {
        x | 0xFFFF_FFFF_FFFF_FF00
    } else {
        x & 0xFF
    };
    assert(r == (if x % 0x100 >= 0x80 {
        (x % 0x100 + 0xFFFF_FFFF_FFFF_FF00) as u64
    } else {
        x % 0x100
    })) by (bit_vector)
        requires
            r == (if x & 0x80 != 0 {
                x | 0xFFFF_FFFF_FFFF_FF00
            } else {
                x & 0xFF
            }),
    ;
    r
}

/// Sign-extends the low 16 bits of a word.
pub fn sign_extend16(x: u64) -> (r: u64)
    ensures
        r == sext16(x),
{
    let r: u64 = if x & 0x8000 != 0 {
        x | 0xFFFF_FFFF_FFFF_0000
    } else {
        x & 0xFFFF
    };
    assert(r == (if x % 0x1_0000 >= 0x8000 {
        (x % 0x1_0000 + 0xFFFF_FFFF_FFFF_0000) as u64
    } else {
        x % 0x1_0000
    })) by (bit_vector)
        requires
            r == (if x & 0x8000 != 0 {
                x | 0xFFFF_FFFF_FFFF_0000
            } else {
                x & 0xFFFF
            }),
    ;
    r
}

/// Sign-extends the low 32 bits of a word.
pub fn sign_extend32(x: u64) -> (r: u64)
    ensures
        r == sext32(x),
{
    let r: u64 = if x & 0x8000_0000 != 0 {
        x | 0xFFFF_FFFF_0000_0000
    } else {
        x & 0xFFFF_FFFF
    };
    assert(r == (if x % 0x1_0000_0000 >= 0x8000_0000 {
        (x % 0x1_0000_0000 + 0xFFFF_FFFF_0000_0000) as u64
    } else {
        x % 0x1_0000_0000
    })) by (bit_vector)
        requires
            r == (if x & 0x8000_0000 != 0 {
                x | 0xFFFF_FFFF_0000_0000
            } else {
                x & 0xFFFF_FFFF
            }),
    ;
    r
}

/// Keeps the low 32 bits of a word.
pub fn truncate32(x: u64) -> (r: u64)
    ensures
        r == low32(x),
{
    let r: u64 = x & 0xFFFF_FFFF;
    assert(x & 0xFFFF_FFFF == x % 0x1_0000_0000) by (bit_vector);
    r
}

/// Signed comparison of two words as 64-bit two's-complement numbers.
pub fn less_than_signed(a: u64, b: u64) -> (r: bool)
    ensures
        r == (signed64(a) < signed64(b)),
{
    let flip: u64 = 0x8000_0000_0000_0000;
    let r = (a ^ flip) < (b ^ flip);
    assert(((a ^ 0x8000_0000_0000_0000u64) < (b ^ 0x8000_0000_0000_0000u64)) == ((if a
        >= 0x8000_0000_0000_0000u64 {
        a - 0x1_0000_0000_0000_0000
    } else {
        a as int
    }) < (if b >= 0x8000_0000_0000_0000u64 {
        b - 0x1_0000_0000_0000_0000
    } else {
        b as int
    }))) by (bit_vector);
    r
}

/// The word that a signed 32-bit immediate denotes once sign-extended.
pub fn imm_to_word(imm: i32) -> (r: u64)
    ensures
        r == wrap64(imm as int),
        r % 2 == 0 <==> imm % 2 == 0,
{
    let r: u64 = imm as i64 as u64;
    assert(r == (if imm < 0 {
        (imm + 0x1_0000_0000_0000_0000) as u64
    } else {
        imm as u64
    })) by (bit_vector)
        requires
            r == imm as i64 as u64,
    ;
    r
}

/// Arithmetic right shift by `sh < 64` bits.
pub fn shift_right_arith(x: u64, sh: u64) -> (r: u64)
    requires
        sh < 64,
    ensures
        r == sra64(x, sh),
{
    if x >= 0x8000_0000_0000_0000 {
        !((!x) >> sh)
    } else {
        x >> sh
    }
}

/// Sign extension is idempotent: a sign-extended word is the sign extension
/// of its own low 32 bits.
pub proof fn lemma_sext32_idempotent(x: u64)
    ensures
        sext32(sext32(x)) == sext32(x),
        low32(sext32(x)) == low32(x),
{
}

} // verus!
