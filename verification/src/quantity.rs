use vstd::prelude::*;

verus! {

/// The C value reserved for an undefined 64 bit quantity.
pub const QUANTITY_NONE: u64 = 0xffff_ffff_ffff_ffff;

/// The largest defined 64 bit quantity.
pub const MAX_QUANTITY: u64 = 0xffff_ffff_ffff_fffe;

/// The `u64` with the same bits as the `i64` value `v`.
pub open spec fn i64_bits_as_u64(v: int) -> int {
    if v >= 0 {
        v
    } else {
        v + 0x1_0000_0000_0000_0000
    }
}

/// The `i64` with the same bits as the `u64` value `v`.
pub open spec fn u64_bits_as_i64(v: int) -> int {
    if v <= 0x7fff_ffff_ffff_ffff {
        v
    } else {
        v - 0x1_0000_0000_0000_0000
    }
}

/// Casting an `i64` to `u64` keeps its bits.
pub proof fn lemma_i64_as_u64(v: i64)
    ensures
        (v as u64) as int == i64_bits_as_u64(v as int),
{
    if v >= 0 {
        assert((v as u64) as int == v as int) by (bit_vector)
            requires
                v >= 0,
        ;
    } else {
        assert((v as u64) as int == v as int + 0x1_0000_0000_0000_0000) by (bit_vector)
            requires
                v < 0,
        ;
    }
}

/// Casting a `u64` to `i64` keeps its bits.
pub proof fn lemma_u64_as_i64(v: u64)
    ensures
        (v as i64) as int == u64_bits_as_i64(v as int),
{
    if v <= 0x7fff_ffff_ffff_ffff {
        assert((v as i64) as int == v as int) by (bit_vector)
            requires
                v <= 0x7fff_ffff_ffff_ffff,
        ;
    } else {
        assert((v as i64) as int == v as int - 0x1_0000_0000_0000_0000) by (bit_vector)
            requires
                v > 0x7fff_ffff_ffff_ffff,
        ;
    }
}

/// The result of a wrapping multiplication of 64 bit quantities: the
/// product itself when it does not exceed the largest quantity, otherwise
/// the product minus `MAX_QUANTITY + 1`, truncated to 64 bits.
pub open spec fn wrapped_product(p: int) -> int {
    if p <= MAX_QUANTITY {
        p
    } else {
        (p - MAX_QUANTITY - 1) % 0x1_0000_0000_0000_0000
    }
}

} // verus!
