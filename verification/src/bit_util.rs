//! Sign extension for the narrow signed fields of the LC-3 instruction word.
//!
//! Immediates and PC-relative offsets are stored in 5-, 6-, 9- and 11-bit
//! two's-complement fields. Each `sext*` spec function gives the mathematical
//! value of such a field; each `i*_to_i*` function computes it on a host
//! integer whose low bits hold the field.

use vstd::prelude::*;
use vstd::string::StringSliceAdditionalSpecFns;

verus! {

/// The low 5 bits of `bits`, read as a two's-complement number.
pub open spec fn sext5(bits: u16) -> int {
    let low = (bits % 32) as int;
    if low >= 16 {
        low - 32
    } else {
        low
    }
}

/// The low 6 bits of `bits`, read as a two's-complement number.
pub open spec fn sext6(bits: u16) -> int {
    let low = (bits % 64) as int;
    if low >= 32 {
        low - 64
    } else {
        low
    }
}

/// The low 9 bits of `bits`, read as a two's-complement number.
pub open spec fn sext9(bits: u16) -> int {
    let low = (bits % 512) as int;
    if low >= 256 {
        low - 512
    } else {
        low
    }
}

/// The low 11 bits of `bits`, read as a two's-complement number.
pub open spec fn sext11(bits: u16) -> int {
    let low = (bits % 2048) as int;
    if low >= 1024 {
        low - 2048
    } else {
        low
    }
}

/// Sign-extend the low 9 bits of `x` to the full width.
pub fn i9_to_i16(x: i16) -> (r: i16)
    ensures
        r as int == sext9(x as u16),
{
    let val = x & 0b111111111;
    if val & 0b100000000 != 0 {
        let r = val | !0b111111111;
        assert(r as int == sext9(x as u16)) by (bit_vector)
            requires
                r == (x & 0b111111111) | !0b111111111i16,
                (x & 0b111111111) & 0b100000000 != 0,
        ;
        r
    } else {
        assert(val as int == sext9(x as u16)) by (bit_vector)
            requires
                val == x & 0b111111111,
                val & 0b100000000 == 0,
        ;
        val
    }
}

/// Sign-extend the low 6 bits of `x` to the full width.
pub fn i6_to_i8(x: i8) -> (r: i8)
    ensures
        r as int == sext6(x as u16),
{
    let val = x & 0b111111;
    if val & 0b100000 != 0 {
        let r = val | !0b111111;
        assert(r as int == sext6(x as u16)) by (bit_vector)
            requires
                r == (x & 0b111111) | !0b111111i8,
                (x & 0b111111) & 0b100000 != 0,
        ;
        r
    } else {
        assert(val as int == sext6(x as u16)) by (bit_vector)
            requires
                val == x & 0b111111,
                val & 0b100000 == 0,
        ;
        val
    }
}

/// Sign-extend the low 11 bits of `x` to the full width.
pub fn i11_to_i16(x: i16) -> (r: i16)
    ensures
        r as int == sext11(x as u16),
{
    let val = x & 0b11111111111;
    if val & 0b10000000000 != 0 {
        let r = val | !0b11111111111;
        assert(r as int == sext11(x as u16)) by (bit_vector)
            requires
                r == (x & 0b11111111111) | !0b11111111111i16,
                (x & 0b11111111111) & 0b10000000000 != 0,
        ;
        r
    } else {
        assert(val as int == sext11(x as u16)) by (bit_vector)
            requires
                val == x & 0b11111111111,
                val & 0b10000000000 == 0,
        ;
        val
    }
}

/// Sign-extend the low 5 bits of `x` to the full width.
pub fn i5_to_i8(x: i8) -> (r: i8)
    ensures
        r as int == sext5(x as u16),
{
    let val = x & 0b11111;
    if val & 0b10000 != 0 {
        let r = val | !0b11111;
        assert(r as int == sext5(x as u16)) by (bit_vector)
            requires
                r == (x & 0b11111) | !0b11111i8,
                (x & 0b11111) & 0b10000 != 0,
        ;
        r
    } else {
        assert(val as int == sext5(x as u16)) by (bit_vector)
            requires
                val == x & 0b11111,
                val & 0b10000 == 0,
        ;
        val
    }
}

/// Every 5-bit field value lies in the 5-bit two's-complement range: no
/// decoded immediate is ever out of range.
pub proof fn lemma_sext5_range(bits: u16)
    ensures
        -16 <= sext5(bits) <= 15,
{
}

/// Every 6-bit field value lies in `[-32, 31]`.
pub proof fn lemma_sext6_range(bits: u16)
    ensures
        -32 <= sext6(bits) <= 31,
{
}

/// Every 9-bit field value lies in `[-256, 255]`.
pub proof fn lemma_sext9_range(bits: u16)
    ensures
        -256 <= sext9(bits) <= 255,
{
}

/// Every 11-bit field value lies in `[-1024, 1023]`.
pub proof fn lemma_sext11_range(bits: u16)
    ensures
        -1024 <= sext11(bits) <= 1023,
{
}

/// Sign extension law, 5-bit fields: on a value already in the 5-bit
/// two's-complement range, extending the low bits of its representation
/// restores the value. With the codec round trip this makes the minimum
/// `-16` and maximum `15` survive encoding.
pub proof fn lemma_sext5_identity(v: i8)
    by (bit_vector)
    requires
        -16 <= v <= 15,
    ensures
        sext5(v as u16) == v,
{
}

/// Sign extension law, 6-bit fields: the range `[-32, 31]` is preserved.
pub proof fn lemma_sext6_identity(v: i8)
    by (bit_vector)
    requires
        -32 <= v <= 31,
    ensures
        sext6(v as u16) == v,
{
}

/// Sign extension law, 9-bit fields: the range `[-256, 255]` is preserved.
pub proof fn lemma_sext9_identity(v: i16)
    by (bit_vector)
    requires
        -256 <= v <= 255,
    ensures
        sext9(v as u16) == v,
{
}

/// Sign extension law, 11-bit fields: the range `[-1024, 1023]` is
/// preserved.
pub proof fn lemma_sext11_identity(v: i16)
    by (bit_vector)
    requires
        -1024 <= v <= 1023,
    ensures
        sext11(v as u16) == v,
{
}

/// A 9-bit PC-relative offset must lie in `[-256, 255]`; a caller that holds
/// a value outside the range has a construction bug.
pub fn check_i9_range(x: i16)
    requires
        -256 <= x <= 255,
{
}

/// A 6-bit register offset must lie in `[-32, 31]`.
pub fn check_i6_range(x: i8)
    requires
        -32 <= x <= 31,
{
}

/// A 5-bit immediate must lie in `[-16, 15]`.
pub fn check_i5_range(x: i8)
    requires
        -16 <= x <= 15,
{
}

/// An 11-bit PC-relative offset must lie in `[-1024, 1023]`.
pub fn check_i11_range(x: i16)
    requires
        -1024 <= x <= 1023,
{
}

/// Widen each byte of `s` to a 16-bit memory word.
pub fn convert_str_to_i16_vec(s: &str) -> (r: Vec<i16>)
    ensures
        r@.len() == s.spec_bytes().len(),
        forall|i: int| 0 <= i < r@.len() ==> r@[i] == s.spec_bytes()[i] as i16,
{
    let bytes = s.as_bytes();
    let mut res: Vec<i16> = Vec::new();
    let mut i: usize = 0;
    while i < bytes.len()
        invariant
            i <= bytes@.len(),
            bytes@ == s.spec_bytes(),
            res@.len() == i,
            forall|j: int| 0 <= j < i ==> res@[j] == bytes@[j] as i16,
        decreases bytes@.len() - i,
    {
        res.push(bytes[i] as i16);
        i += 1;
    }
    res
}

} // verus!
