//! Bit-level facts about 32-bit words used by the decoder, the CSR helpers and
//! the devices.
use vstd::prelude::*;
use crate::cpu::cpu::{mie_of, mpie_of, mpp_of, with_mie, with_mpie, with_mpp};

verus! {

/// Masking never yields more than the mask.
pub proof fn lemma_and_le(x: u32, m: u32)
    ensures
        x & m <= m,
{
    assert(x & m <= m) by (bit_vector);
}

/// The MIE, MPIE and MPP fields of `mstatus` are independent: updating one
/// leaves the others as they were, and reading back an update gives the value
/// written.
pub proof fn lemma_status_fields(s: u32, m: u32, e: bool)
    by (bit_vector)
    ensures
        mie_of(with_mpp(s, m)) == mie_of(s),
        mpie_of(with_mpp(s, m)) == mpie_of(s),
        mpp_of(with_mpp(s, m)) == m & 3,
        mie_of(with_mie(s, e)) == e,
        mpie_of(with_mie(s, e)) == mpie_of(s),
        mpp_of(with_mie(s, e)) == mpp_of(s),
        mie_of(with_mpie(s, e)) == mie_of(s),
        mpie_of(with_mpie(s, e)) == e,
        mpp_of(with_mpie(s, e)) == mpp_of(s),
        mpp_of(s) <= 3,
{
}

} // verus!

verus! {

/// The byte of `v` that starts at bit `sh`.
pub open spec fn byte_at(v: u32, sh: u32) -> u8 {
    ((v >> sh) & 0xFF) as u8
}

/// `v` with the byte at bit `sh` replaced by `b`.
pub open spec fn with_byte_at(v: u32, sh: u32, b: u8) -> u32 {
    (v & !(0xFFu32 << sh)) | ((b as u32) << sh)
}

pub open spec fn is_byte_shift(sh: u32) -> bool {
    sh == 0 || sh == 8 || sh == 16 || sh == 24
}

/// Reading back a byte just replaced gives the new byte; the other bytes keep
/// their values.
pub proof fn lemma_byte_update(v: u32, sh: u32, other: u32, b: u8)
    requires
        is_byte_shift(sh),
        is_byte_shift(other),
        sh != other,
    ensures
        byte_at(with_byte_at(v, sh, b), sh) == b,
        byte_at(with_byte_at(v, sh, b), other) == byte_at(v, other),
{
    assert(byte_at(with_byte_at(v, sh, b), sh) == b) by (bit_vector)
        requires
            sh == 0 || sh == 8 || sh == 16 || sh == 24,
    ;
    assert(byte_at(with_byte_at(v, sh, b), other) == byte_at(v, other)) by (bit_vector)
        requires
            sh == 0 || sh == 8 || sh == 16 || sh == 24,
            other == 0 || other == 8 || other == 16 || other == 24,
            sh != other,
    ;
}

} // verus!
