//! SECDED Hamming(72,64): 64 data bits protected by one check byte.
//!
//! Data bit `i` sits at the `i`-th Hamming position in `1..=71` that is not
//! a power of two. Check bits `0..7` are the Hamming parities of those
//! positions; check bit 7 is the overall parity, which makes every column
//! of the code odd-weight. Single-bit errors (data or check) are corrected,
//! double-bit errors are detected.

use vstd::prelude::*;

verus! {

/// Data-bit mask of check bit 0.
pub const ECC_MASK_0: u64 = 0xab55_5555_56aa_ad5b;
/// Data-bit mask of check bit 1.
pub const ECC_MASK_1: u64 = 0xcd99_9999_9b33_366d;
/// Data-bit mask of check bit 2.
pub const ECC_MASK_2: u64 = 0xf1e1_e1e1_e3c3_c78e;
/// Data-bit mask of check bit 3.
pub const ECC_MASK_3: u64 = 0x01fe_01fe_03fc_07f0;
/// Data-bit mask of check bit 4.
pub const ECC_MASK_4: u64 = 0x01ff_fe00_03ff_f800;
/// Data-bit mask of check bit 5.
pub const ECC_MASK_5: u64 = 0x01ff_ffff_fc00_0000;
/// Data-bit mask of check bit 6.
pub const ECC_MASK_6: u64 = 0xfe00_0000_0000_0000;
/// Data-bit mask of the overall-parity check bit 7.
pub const ECC_MASK_7: u64 = 0x972c_d2d3_2da6_5cb7;

/// Parity (XOR of all 64 bits) of `x`, as 0 or 1.
pub open spec fn parity64(x: u64) -> u64 {
    let a = x ^ (x >> 32u64);
    let b = a ^ (a >> 16u64);
    let c = b ^ (b >> 8u64);
    let d = c ^ (c >> 4u64);
    let e = d ^ (d >> 2u64);
    let f = e ^ (e >> 1u64);
    f & 1u64
}

/// Check byte of `data`: bit `k` is the parity of `data & ECC_MASK_k`.
pub open spec fn spec_ecc_encode(data: u64) -> u8 {
    (parity64(data & ECC_MASK_0)
        | (parity64(data & ECC_MASK_1) << 1u64)
        | (parity64(data & ECC_MASK_2) << 2u64)
        | (parity64(data & ECC_MASK_3) << 3u64)
        | (parity64(data & ECC_MASK_4) << 4u64)
        | (parity64(data & ECC_MASK_5) << 5u64)
        | (parity64(data & ECC_MASK_6) << 6u64)
        | (parity64(data & ECC_MASK_7) << 7u64)) as u8
}

/// Syndrome column of data bit `i`: the check byte of the single word `1 << i`.
pub open spec fn ecc_column(i: u64) -> u8 {
    spec_ecc_encode(1u64 << i)
}

/// A byte with exactly one bit set.
pub open spec fn single_bit(s: u8) -> bool {
    s != 0 && s & ((s - 1) as u8) == 0
}

/// Syndrome of a received word: the check byte it should carry, XOR the
/// check byte it does carry.
pub open spec fn ecc_syndrome(data: u64, check: u8) -> u8 {
    spec_ecc_encode(data) ^ check
}

} // verus!

verus! {

/// The check byte is linear over XOR.
pub proof fn lemma_encode_xor(a: u64, b: u64)
    by (bit_vector)
    ensures
        spec_ecc_encode(a ^ b) == spec_ecc_encode(a) ^ spec_ecc_encode(b),
        spec_ecc_encode(0) == 0,
{
}

proof fn lemma_u64_xor(d: u64, e: u64)
    by (bit_vector)
    ensures
        d ^ 0 == d,
        (d ^ e) ^ e == d,
{
}

proof fn lemma_u8_xor(a: u8, b: u8, f: u8)
    by (bit_vector)
    ensures
        (a ^ b) ^ (a ^ f) == b ^ f,
        a ^ 0 == a,
        0u8 ^ a == a,
        a != b ==> a ^ b != 0,
        1u8 ^ 1u8 == 0u8,
{
}

} // verus!

verus! {

/// Parity of the 8 bits of a byte, as 0 or 1.
pub open spec fn parity8(s: u8) -> u8 {
    let a = s ^ (s >> 4u8);
    let b = a ^ (a >> 2u8);
    let c = b ^ (b >> 1u8);
    c & 1u8
}

proof fn lemma_column_shape(i: u64)
    by (bit_vector)
    requires
        i < 64,
    ensures
        parity8(ecc_column(i)) == 1,
        !single_bit(ecc_column(i)),
        ecc_column(i) != 0,
{
}

proof fn lemma_columns_distinct(i: u64, j: u64)
    by (bit_vector)
    requires
        i < 64,
        j < 64,
        i != j,
    ensures
        ecc_column(i) != ecc_column(j),
{
}

} // verus!

verus! {

/// SECDED decode outcome.
#[derive(Clone, Copy, Debug, PartialEq, Eq)]
pub struct EccDecode {
    /// Corrected 64-bit data word.
    pub data: u64,
    /// A single-bit error was corrected inline.
    pub corrected: bool,
    /// A double-bit error was detected (uncorrectable, the caller traps).
    pub uncorrectable: bool,
}

/// Index of the data bit whose column equals syndrome `s`, when there is one.
pub open spec fn data_error_bit(s: u8) -> u64 {
    choose|i: u64| i < 64 && ecc_column(i) == s
}

/// What decoding `data` against `check` yields:
/// a zero syndrome is clean; a syndrome equal to a data column flips that
/// data bit back; a single-bit syndrome is an error in the check byte
/// itself; anything else is uncorrectable.
pub open spec fn spec_ecc_decode(data: u64, check: u8) -> EccDecode {
    let s = ecc_syndrome(data, check);
    if s == 0 {
        EccDecode { data, corrected: false, uncorrectable: false }
    } else if exists|i: u64| i < 64 && ecc_column(i) == s {
        EccDecode { data: data ^ (1u64 << data_error_bit(s)), corrected: true, uncorrectable: false }
    } else if single_bit(s) {
        EccDecode { data, corrected: true, uncorrectable: false }
    } else {
        EccDecode { data, corrected: false, uncorrectable: true }
    }
}

fn parity(x: u64) -> (r: u64)
    ensures
        r == parity64(x),
{
    let a = x ^ (x >> 32u64);
    let b = a ^ (a >> 16u64);
    let c = b ^ (b >> 8u64);
    let d = c ^ (c >> 4u64);
    let e = d ^ (d >> 2u64);
    let f = e ^ (e >> 1u64);
    f & 1u64
}

/// SECDED Hamming(72,64) encode: the check byte of `data`.
pub fn ecc_encode(data: u64) -> (check: u8)
    ensures
        check == spec_ecc_encode(data),
{
    (parity(data & ECC_MASK_0)
        | (parity(data & ECC_MASK_1) << 1u64)
        | (parity(data & ECC_MASK_2) << 2u64)
        | (parity(data & ECC_MASK_3) << 3u64)
        | (parity(data & ECC_MASK_4) << 4u64)
        | (parity(data & ECC_MASK_5) << 5u64)
        | (parity(data & ECC_MASK_6) << 6u64)
        | (parity(data & ECC_MASK_7) << 7u64)) as u8
}

/// SECDED Hamming(72,64) decode and correct.
pub fn ecc_decode(data: u64, check: u8) -> (r: EccDecode)
    ensures
        r == spec_ecc_decode(data, check),
{
    let s = ecc_encode(data) ^ check;
    if s == 0 {
        return EccDecode { data, corrected: false, uncorrectable: false };
    }
    let mut i: u64 = 0;
    while i < 64
        invariant
            i <= 64,
            s == ecc_syndrome(data, check),
            s != 0,
            forall|j: u64| j < i ==> ecc_column(j) != s,
        decreases 64 - i,
    {
        let col = ecc_encode(1u64 << i);
        if col == s {
            proof {
                assert(ecc_column(i) == s);
                assert(exists|j: u64| j < 64 && ecc_column(j) == s);
                let k = data_error_bit(s);
                assert(k < 64 && ecc_column(k) == s);
                if k != i {
                    lemma_columns_distinct(k, i);
                }
                assert(k == i);
                assert(s != 0);
                assert(spec_ecc_decode(data, check).data == data ^ (1u64 << i));
            }
            return EccDecode { data: data ^ (1u64 << i), corrected: true, uncorrectable: false };
        }
        i = i + 1;
    }
    if s & (s - 1) == 0 {
        EccDecode { data, corrected: true, uncorrectable: false }
    } else {
        EccDecode { data, corrected: false, uncorrectable: true }
    }
}

} // verus!

verus! {

proof fn lemma_parity8_xor(a: u8, b: u8)
    by (bit_vector)
    ensures
        parity8(a ^ b) == parity8(a) ^ parity8(b),
        single_bit(a) ==> parity8(a) == 1,
        !single_bit(a) && single_bit(b) ==> a ^ b != 0,
{
}

proof fn lemma_check_bits(k: u8, l: u8)
    by (bit_vector)
    requires
        k < 8,
        l < 8,
    ensures
        single_bit(1u8 << k),
        k != l ==> (1u8 << k) ^ (1u8 << l) != 0 && parity8((1u8 << k) ^ (1u8 << l)) == 0,
{
}

/// A nonzero even-parity syndrome is always reported as uncorrectable.
proof fn lemma_even_syndrome_uncorrectable(data: u64, check: u8)
    requires
        ecc_syndrome(data, check) != 0,
        parity8(ecc_syndrome(data, check)) == 0,
    ensures
        spec_ecc_decode(data, check) == (EccDecode { data, corrected: false, uncorrectable: true }),
{
    let s = ecc_syndrome(data, check);
    assert forall|i: u64| i < 64 implies ecc_column(i) != s by {
        lemma_column_shape(i);
    }
    lemma_parity8_xor(s, 0);
}

/// Syndrome of a word whose data was XOR-ed with `e` and whose check byte
/// was XOR-ed with `f`.
proof fn lemma_syndrome_of_error(d: u64, e: u64, f: u8)
    ensures
        ecc_syndrome(d ^ e, spec_ecc_encode(d) ^ f) == spec_ecc_encode(e) ^ f,
{
    lemma_encode_xor(d, e);
    lemma_u8_xor(spec_ecc_encode(d), spec_ecc_encode(e), f);
}

/// Law: a word read back with its own check byte decodes clean and unchanged.
pub proof fn lemma_ecc_roundtrip(d: u64)
    ensures
        spec_ecc_decode(d, spec_ecc_encode(d)) == (EccDecode { data: d, corrected: false, uncorrectable: false }),
{
    lemma_syndrome_of_error(d, 0, 0);
    lemma_u64_xor(d, 0);
    lemma_u8_xor(spec_ecc_encode(d), 0, 0);
    lemma_encode_xor(d, 0);
    lemma_u8_xor(0, 0, 0);
}

/// Law: flipping any one data bit is corrected back to the written word.
pub proof fn lemma_ecc_corrects_data_bit(d: u64, i: u64)
    requires
        i < 64,
    ensures
        spec_ecc_decode(d ^ (1u64 << i), spec_ecc_encode(d)) == (EccDecode { data: d, corrected: true, uncorrectable: false }),
{
    let c = spec_ecc_encode(d);
    lemma_syndrome_of_error(d, 1u64 << i, 0);
    lemma_u8_xor(c, 0, 0);
    lemma_u8_xor(ecc_column(i), 0, 0);
    let s = ecc_syndrome(d ^ (1u64 << i), c);
    assert(s == ecc_column(i));
    lemma_column_shape(i);
    assert(exists|j: u64| j < 64 && ecc_column(j) == s);
    let k = data_error_bit(s);
    if k != i {
        lemma_columns_distinct(k, i);
    }
    lemma_u64_xor(d, 1u64 << i);
}

/// Law: flipping any one bit of the check byte is corrected, the data is kept.
pub proof fn lemma_ecc_corrects_check_bit(d: u64, k: u8)
    requires
        k < 8,
    ensures
        spec_ecc_decode(d, spec_ecc_encode(d) ^ (1u8 << k)) == (EccDecode { data: d, corrected: true, uncorrectable: false }),
{
    let s = 1u8 << k;
    lemma_syndrome_of_error(d, 0, s);
    lemma_u64_xor(d, 0);
    lemma_encode_xor(d, 0);
    lemma_u8_xor(s, 0, 0);
    lemma_check_bits(k, k);
    assert forall|i: u64| i < 64 implies ecc_column(i) != s by {
        lemma_column_shape(i);
    }
}

/// Law: flipping two distinct data bits is detected as uncorrectable.
pub proof fn lemma_ecc_detects_two_data_bits(d: u64, i: u64, j: u64)
    requires
        i < 64,
        j < 64,
        i != j,
    ensures
        spec_ecc_decode(d ^ ((1u64 << i) ^ (1u64 << j)), spec_ecc_encode(d)).uncorrectable,
{
    let e = (1u64 << i) ^ (1u64 << j);
    let a = ecc_column(i);
    let b = ecc_column(j);
    lemma_syndrome_of_error(d, e, 0);
    lemma_encode_xor(1u64 << i, 1u64 << j);
    lemma_u8_xor(spec_ecc_encode(e), 0, 0);
    lemma_u8_xor(spec_ecc_encode(d), 0, 0);
    lemma_u8_xor(a, b, 0);
    lemma_column_shape(i);
    lemma_column_shape(j);
    lemma_columns_distinct(i, j);
    lemma_parity8_xor(a, b);
    assert(ecc_syndrome(d ^ e, spec_ecc_encode(d)) == a ^ b);
    lemma_even_syndrome_uncorrectable(d ^ e, spec_ecc_encode(d));
}

/// Law: one data bit plus one check bit flipped is detected as uncorrectable.
pub proof fn lemma_ecc_detects_data_and_check_bit(d: u64, i: u64, k: u8)
    requires
        i < 64,
        k < 8,
    ensures
        spec_ecc_decode(d ^ (1u64 << i), spec_ecc_encode(d) ^ (1u8 << k)).uncorrectable,
{
    let f = 1u8 << k;
    let a = ecc_column(i);
    lemma_syndrome_of_error(d, 1u64 << i, f);
    lemma_column_shape(i);
    lemma_check_bits(k, k);
    lemma_parity8_xor(a, f);
    lemma_parity8_xor(f, 0);
    lemma_u8_xor(a, 0, 0);
    assert(ecc_syndrome(d ^ (1u64 << i), spec_ecc_encode(d) ^ f) == a ^ f);
    lemma_even_syndrome_uncorrectable(d ^ (1u64 << i), spec_ecc_encode(d) ^ f);
}

/// Law: two distinct check bits flipped are detected as uncorrectable.
pub proof fn lemma_ecc_detects_two_check_bits(d: u64, k: u8, l: u8)
    requires
        k < 8,
        l < 8,
        k != l,
    ensures
        spec_ecc_decode(d, spec_ecc_encode(d) ^ ((1u8 << k) ^ (1u8 << l))).uncorrectable,
{
    let f = (1u8 << k) ^ (1u8 << l);
    lemma_syndrome_of_error(d, 0, f);
    lemma_u64_xor(d, 0);
    lemma_encode_xor(d, 0);
    lemma_u8_xor(f, 0, 0);
    lemma_check_bits(k, l);
    lemma_even_syndrome_uncorrectable(d, spec_ecc_encode(d) ^ f);
}

} // verus!
