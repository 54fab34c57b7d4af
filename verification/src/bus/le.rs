//! Little-endian access to a byte array: what a load of each width reads and
//! what a store of each width leaves behind.

use vstd::prelude::*;
use crate::bits::{sext8, sext16, sext32, sign_extend8, sign_extend16, sign_extend32};
use crate::cpu::trap::TransAlign;

verus! {

/// `256^k` for a byte position `k` within a word.
pub open spec fn byte_weight(k: int) -> int {
    if k == 0 {
        0x1
    } else if k == 1 {
        0x100
    } else if k == 2 {
        0x1_0000
    } else if k == 3 {
        0x100_0000
    } else if k == 4 {
        0x1_0000_0000
    } else if k == 5 {
        0x100_0000_0000
    } else if k == 6 {
        0x1_0000_0000_0000
    } else {
        0x100_0000_0000_0000
    }
}

/// Byte `k` of `data`, byte 0 being the least significant.
pub open spec fn byte_of(data: u64, k: int) -> u8 {
    ((data as int / byte_weight(k)) % 0x100) as u8
}

/// The half-word stored little-endian at index `i`.
pub open spec fn le16(b: Seq<u8>, i: int) -> int {
    b[i] + 0x100 * b[i + 1]
}

/// The word stored little-endian at index `i`.
pub open spec fn le32(b: Seq<u8>, i: int) -> int {
    le16(b, i) + 0x1_0000 * le16(b, i + 2)
}

/// The double word stored little-endian at index `i`.
pub open spec fn le64(b: Seq<u8>, i: int) -> int {
    le32(b, i) + 0x1_0000_0000 * le32(b, i + 4)
}

/// The unsigned value of the `size` bytes stored little-endian at index `i`.
pub open spec fn le_value(b: Seq<u8>, i: int, size: TransAlign) -> u64 {
    match size {
        TransAlign::Size8 => b[i] as u64,
        TransAlign::Size16 => le16(b, i) as u64,
        TransAlign::Size32 => le32(b, i) as u64,
        TransAlign::Size64 => le64(b, i) as u64,
    }
}

/// The value a load of `size` bytes at index `i` hands to a register:
/// sign-extended to the word when `signed`, zero-extended otherwise.
pub open spec fn le_load(b: Seq<u8>, i: int, size: TransAlign, signed: bool) -> u64 {
    let v = le_value(b, i, size);
    if !signed {
        v
    } else {
        match size {
            TransAlign::Size8 => sext8(v),
            TransAlign::Size16 => sext16(v),
            TransAlign::Size32 => sext32(v),
            TransAlign::Size64 => v,
        }
    }
}

/// The array after the low `size` bytes of `data` are stored little-endian at
/// index `i`; the payload is truncated to the width.
pub open spec fn le_store(b: Seq<u8>, i: int, size: TransAlign, data: u64) -> Seq<u8> {
    let b1 = b.update(i, byte_of(data, 0));
    let b2 = b1.update(i + 1, byte_of(data, 1));
    let b4 = b2.update(i + 2, byte_of(data, 2)).update(i + 3, byte_of(data, 3));
    let b8 = b4.update(i + 4, byte_of(data, 4)).update(i + 5, byte_of(data, 5)).update(
        i + 6,
        byte_of(data, 6),
    ).update(i + 7, byte_of(data, 7));
    match size {
        TransAlign::Size8 => b1,
        TransAlign::Size16 => b2,
        TransAlign::Size32 => b4,
        TransAlign::Size64 => b8,
    }
}

proof fn lemma_split_word(d: u64)
    by (bit_vector)
    ensures
        d & 0xff == d % 0x100,
        (d >> 8) & 0xff == (d / 0x100) % 0x100,
        (d >> 16) & 0xff == (d / 0x1_0000) % 0x100,
        (d >> 24) & 0xff == (d / 0x100_0000) % 0x100,
        (d >> 32) & 0xff == (d / 0x1_0000_0000) % 0x100,
        (d >> 40) & 0xff == (d / 0x100_0000_0000) % 0x100,
        (d >> 48) & 0xff == (d / 0x1_0000_0000_0000) % 0x100,
        (d >> 56) & 0xff == (d / 0x100_0000_0000_0000) % 0x100,
{
}

proof fn lemma_join_bytes(b0: u8, b1: u8, b2: u8, b3: u8)
    by (bit_vector)
    ensures
        (b0 as u64) | ((b1 as u64) << 8) == b0 + 0x100 * b1,
        (b0 as u64) | ((b1 as u64) << 8) | ((b2 as u64) << 16) | ((b3 as u64) << 24) == (b0 + 0x100
            * b1) + 0x1_0000 * (b2 + 0x100 * b3),
{
}

proof fn lemma_join_words(lo: u64, hi: u64)
    by (bit_vector)
    requires
        lo < 0x1_0000_0000,
        hi < 0x1_0000_0000,
    ensures
        lo | (hi << 32) == lo + 0x1_0000_0000 * hi,
{
}

/// Reads `size` bytes at index `i`, least significant byte first.
pub fn read(v: &Vec<u8>, i: usize, size: TransAlign, signed: bool) -> (r: u64)
    requires
        i + size.spec_bytes() <= v.len(),
    ensures
        r == le_load(v@, i as int, size, signed),
{
    match size {
        TransAlign::Size8 => {
            let r: u64 = v[i] as u64;
            if signed {
                sign_extend8(r)
            } else {
                r
            }
        },
        TransAlign::Size16 => {
            let r: u64 = (v[i] as u64) | ((v[i + 1] as u64) << 8);
            proof {
                lemma_join_bytes(v@[i as int], v@[i + 1], 0, 0);
            }
            if signed {
                sign_extend16(r)
            } else {
                r
            }
        },
        TransAlign::Size32 => {
            let r: u64 = read32(v, i);
            if signed {
                sign_extend32(r)
            } else {
                r
            }
        },
        TransAlign::Size64 => {
            let lo: u64 = read32(v, i);
            let hi: u64 = read32(v, i + 4);
            proof {
                lemma_join_words(lo, hi);
            }
            lo | (hi << 32)
        },
    }
}

fn read32(v: &Vec<u8>, i: usize) -> (r: u64)
    requires
        i + 4 <= v.len(),
    ensures
        r == le32(v@, i as int),
        r < 0x1_0000_0000,
{
    proof {
        lemma_join_bytes(v@[i as int], v@[i + 1], v@[i + 2], v@[i + 3]);
    }
    (v[i] as u64) | ((v[i + 1] as u64) << 8) | ((v[i + 2] as u64) << 16) | ((v[i + 3] as u64) << 24)
}

/// Stores the low `size` bytes of `data` at index `i`, least significant
/// byte first.
pub fn write(v: &mut Vec<u8>, i: usize, size: TransAlign, data: u64)
    requires
        i + size.spec_bytes() <= old(v).len(),
    ensures
        final(v)@ == le_store(old(v)@, i as int, size, data),
        final(v)@.len() == old(v)@.len(),
{
    proof {
        lemma_split_word(data);
    }
    v.set(i, (data & 0xff) as u8);
    match size {
        TransAlign::Size8 => {},
        TransAlign::Size16 => {
            v.set(i + 1, ((data >> 8) & 0xff) as u8);
        },
        TransAlign::Size32 => {
            write_upper(v, i, data);
        },
        TransAlign::Size64 => {
            write_upper(v, i, data);
            assert(v@.len() == old(v)@.len());
            v.set(i + 4, ((data >> 32) & 0xff) as u8);
            v.set(i + 5, ((data >> 40) & 0xff) as u8);
            assert(v@.len() == old(v)@.len());
            v.set(i + 6, ((data >> 48) & 0xff) as u8);
            v.set(i + 7, ((data >> 56) & 0xff) as u8);
        },
    }
}

fn write_upper(v: &mut Vec<u8>, i: usize, data: u64)
    requires
        i + 4 <= old(v).len(),
    ensures
        final(v)@ == old(v)@.update(i + 1, byte_of(data, 1)).update(i + 2, byte_of(data, 2)).update(
            i + 3,
            byte_of(data, 3),
        ),
{
    proof {
        lemma_split_word(data);
    }
    v.set(i + 1, ((data >> 8) & 0xff) as u8);
    v.set(i + 2, ((data >> 16) & 0xff) as u8);
    assert(v@.len() == old(v)@.len());
    v.set(i + 3, ((data >> 24) & 0xff) as u8);
}

proof fn lemma_recompose(d: u64)
    by (bit_vector)
    ensures
        (d % 0x100) + 0x100 * ((d / 0x100) % 0x100) == d % 0x1_0000,
        ((d / 0x1_0000) % 0x100) + 0x100 * ((d / 0x100_0000) % 0x100) == (d / 0x1_0000) % 0x1_0000,
        (d % 0x1_0000) + 0x1_0000 * ((d / 0x1_0000) % 0x1_0000) == d % 0x1_0000_0000,
        ((d / 0x1_0000_0000) % 0x100) + 0x100 * ((d / 0x100_0000_0000) % 0x100) == (d
            / 0x1_0000_0000) % 0x1_0000,
        ((d / 0x1_0000_0000_0000) % 0x100) + 0x100 * ((d / 0x100_0000_0000_0000) % 0x100) == (d
            / 0x1_0000_0000_0000) % 0x1_0000,
        ((d / 0x1_0000_0000) % 0x1_0000) + 0x1_0000 * ((d / 0x1_0000_0000_0000) % 0x1_0000) == d
            / 0x1_0000_0000,
        (d % 0x1_0000_0000) + 0x1_0000_0000 * (d / 0x1_0000_0000) == d,
{
}

/// A store followed by a load of the same width at the same place reads back
/// the payload truncated to that width; the signed load sign-extends it.
#[verifier::rlimit(40)]
pub proof fn lemma_load_after_store(b: Seq<u8>, i: int, size: TransAlign, data: u64)
    requires
        0 <= i,
        i + size.spec_bytes() <= b.len(),
    ensures
        le_load(le_store(b, i, size, data), i, size, false) == match size {
            TransAlign::Size8 => data % 0x100,
            TransAlign::Size16 => data % 0x1_0000,
            TransAlign::Size32 => data % 0x1_0000_0000,
            TransAlign::Size64 => data,
        },
        le_load(le_store(b, i, size, data), i, size, true) == match size {
            TransAlign::Size8 => sext8(data),
            TransAlign::Size16 => sext16(data),
            TransAlign::Size32 => sext32(data),
            TransAlign::Size64 => data,
        },
{
    lemma_recompose(data);
    let s = le_store(b, i, size, data);
    assert(s[i] == byte_of(data, 0));
    match size {
        TransAlign::Size8 => {},
        TransAlign::Size16 => {
            assert(s[i + 1] == byte_of(data, 1));
        },
        TransAlign::Size32 => {
            assert(s[i + 1] == byte_of(data, 1));
            assert(s[i + 2] == byte_of(data, 2));
            assert(s[i + 3] == byte_of(data, 3));
            assert(le16(s, i) == data % 0x1_0000);
            assert(le16(s, i + 2) == (data / 0x1_0000) % 0x1_0000);
        },
        TransAlign::Size64 => {
            assert(s[i + 1] == byte_of(data, 1));
            assert(s[i + 2] == byte_of(data, 2));
            assert(s[i + 3] == byte_of(data, 3));
            assert(s[i + 4] == byte_of(data, 4));
            assert(s[i + 5] == byte_of(data, 5));
            assert(s[i + 6] == byte_of(data, 6));
            assert(s[i + 7] == byte_of(data, 7));
            assert(le16(s, i) == data % 0x1_0000);
            assert(le16(s, i + 2) == (data / 0x1_0000) % 0x1_0000);
            assert(le32(s, i) == data % 0x1_0000_0000);
            assert(le16(s, i + 4) == (data / 0x1_0000_0000) % 0x1_0000);
            assert(le16(s, i + 6) == (data / 0x1_0000_0000_0000) % 0x1_0000);
            assert(le32(s, i + 4) == data / 0x1_0000_0000);
        },
    }
}

/// A load reads what it read before a store to bytes it does not cover.
pub proof fn lemma_load_elsewhere(
    b: Seq<u8>,
    i: int,
    j: int,
    size: TransAlign,
    data: u64,
    signed: bool,
)
    requires
        0 <= i,
        0 <= j,
        i + size.spec_bytes() <= b.len(),
        j + size.spec_bytes() <= b.len(),
        j + size.spec_bytes() <= i || i + size.spec_bytes() <= j,
    ensures
        le_load(le_store(b, i, size, data), j, size, signed) == le_load(b, j, size, signed),
{
    let s = le_store(b, i, size, data);
    assert(s[j] == b[j]);
    if size != TransAlign::Size8 {
        assert(s[j + 1] == b[j + 1]);
    }
    if size == TransAlign::Size32 || size == TransAlign::Size64 {
        assert(s[j + 2] == b[j + 2]);
        assert(s[j + 3] == b[j + 3]);
    }
    if size == TransAlign::Size64 {
        assert(s[j + 4] == b[j + 4]);
        assert(s[j + 5] == b[j + 5]);
        assert(s[j + 6] == b[j + 6]);
        assert(s[j + 7] == b[j + 7]);
    }
}

/// A store changes no byte outside the `size` bytes it covers.
pub proof fn lemma_store_frame(b: Seq<u8>, i: int, size: TransAlign, data: u64, j: int)
    requires
        0 <= i,
        i + size.spec_bytes() <= b.len(),
        0 <= j < b.len(),
        j < i || j >= i + size.spec_bytes(),
    ensures
        le_store(b, i, size, data).len() == b.len(),
        le_store(b, i, size, data)[j] == b[j],
{
}

} // verus!
