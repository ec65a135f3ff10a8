//! Helpers of the z/Architecture backend: reading the condition code that
//! `ipm` leaves in a register, and the rotate amount that undoes a rotation.
use vstd::prelude::*;

verus! {

/// The condition code that `ipm` placed in bits 28 and 29 of `r`.
pub open spec fn condition_code(r: i64) -> u64 {
    ((r as u64) >> 28u64) & 3u64
}

/// What `ipm` leaves in the low word of a register: bits 30 and 31 are zero.
pub open spec fn ipm_shaped(r: i64) -> bool {
    (r as u64) & 0xc000_0000u64 == 0
}

/// Whether the compare-and-swap whose condition code `ipm` copied into `r`
/// succeeded: condition code 0 means the operands were equal and the store
/// was made. One subtraction moves that fact into bit 31.
pub fn extract_cc(r: i64) -> (ok: bool)
    requires
        ipm_shaped(r),
    ensures
        ok == (condition_code(r) == 0),
{
    let t: i64 = r.wrapping_add(-268435456i64) & (1i64 << 31u64);
    proof {
        assert((t != 0) == ((((r as u64) >> 28u64) & 3u64) == 0)) by (bit_vector)
            requires
                t == r.wrapping_add(-268435456i64) & (1i64 << 31u64),
                (r as u64) & 0xc000_0000u64 == 0,
        ;
    }
    t != 0
}

/// The two's complement negation of `v` modulo 2^32: the rotate amount that
/// undoes a rotation by `v`.
pub fn complement(v: u32) -> (r: u32)
    ensures
        r as int == (if v == 0 { 0 } else { 0x1_0000_0000 - v }),
        (r as int + v as int) % 0x1_0000_0000 == 0,
{
    let r: u32 = (v ^ !0u32).wrapping_add(1);
    proof {
        assert((v ^ !0u32) == 0xffff_ffffu32 - v) by (bit_vector);
    }
    r
}

} // verus!
