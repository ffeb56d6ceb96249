use vstd::prelude::*;

verus! {

/// `Some(x)` when `x` fits in a `u64`, otherwise `None`.
pub open spec fn fit_u64(x: int) -> Option<u64> {
    if 0 <= x <= u64::MAX {
        Some(x as u64)
    } else {
        None
    }
}

/// `Some(x)` when `x` fits in a `u32`, otherwise `None`.
pub open spec fn fit_u32(x: int) -> Option<u32> {
    if 0 <= x <= u32::MAX {
        Some(x as u32)
    } else {
        None
    }
}

/// `floor(v * num / denom)`.
pub open spec fn mul_div_floor_spec(v: int, num: int, denom: int) -> int {
    (v * num) / denom
}

/// `v * num / denom`, rounded to the nearest integer, halves rounded up.
pub open spec fn mul_div_round_spec(v: int, num: int, denom: int) -> int {
    (v * num + denom / 2) / denom
}

/// `ceil(v * num / denom)`.
pub open spec fn mul_div_ceil_spec(v: int, num: int, denom: int) -> int {
    (v * num + denom - 1) / denom
}

/// Multiplication of a value by `num`, then division by `denom`, with a
/// wide intermediate product.
pub trait MulDiv<RHS>: Sized {
    /// Whether the operation is defined on these arguments.
    spec fn mul_div_req(self, num: RHS, denom: RHS) -> bool;

    /// The result rounded down, or `None` if it cannot be represented.
    spec fn spec_mul_div_floor(self, num: RHS, denom: RHS) -> Option<Self>;

    /// The result rounded to the nearest integer, or `None` if it cannot be
    /// represented.
    spec fn spec_mul_div_round(self, num: RHS, denom: RHS) -> Option<Self>;

    /// The result rounded up, or `None` if it cannot be represented.
    spec fn spec_mul_div_ceil(self, num: RHS, denom: RHS) -> Option<Self>;

    /// Returns `self * num / denom` rounded down.
    fn mul_div_floor(self, num: RHS, denom: RHS) -> (r: Option<Self>)
        requires
            self.mul_div_req(num, denom),
        ensures
            r == self.spec_mul_div_floor(num, denom),
    ;

    /// Returns `self * num / denom` rounded to the nearest integer.
    fn mul_div_round(self, num: RHS, denom: RHS) -> (r: Option<Self>)
        requires
            self.mul_div_req(num, denom),
        ensures
            r == self.spec_mul_div_round(num, denom),
    ;

    /// Returns `self * num / denom` rounded up.
    fn mul_div_ceil(self, num: RHS, denom: RHS) -> (r: Option<Self>)
        requires
            self.mul_div_req(num, denom),
        ensures
            r == self.spec_mul_div_ceil(num, denom),
    ;
}

/// `muldiv::MulDiv::mul_div_floor` on `u64`: computes `v * num / denom`
/// rounded down with a 128 bit intermediate product, and returns `None`
/// when the result does not fit in a `u64`. It panics when `denom` is zero.
#[verifier::external_body]
pub(crate) fn mul_div_floor_u64(v: u64, num: u64, denom: u64) -> (r: Option<u64>)
    requires
        denom != 0,
    ensures
        r == fit_u64(mul_div_floor_spec(v as int, num as int, denom as int)),
{
    muldiv::MulDiv::mul_div_floor(v, num, denom)
}

/// `muldiv::MulDiv::mul_div_round` on `u64`: computes
/// `(v * num + denom / 2) / denom` with a 128 bit intermediate, and returns
/// `None` when the result does not fit in a `u64`. It panics when `denom`
/// is zero.
#[verifier::external_body]
pub(crate) fn mul_div_round_u64(v: u64, num: u64, denom: u64) -> (r: Option<u64>)
    requires
        denom != 0,
    ensures
        r == fit_u64(mul_div_round_spec(v as int, num as int, denom as int)),
{
    muldiv::MulDiv::mul_div_round(v, num, denom)
}

/// `muldiv::MulDiv::mul_div_ceil` on `u64`: computes
/// `(v * num + denom - 1) / denom` with a 128 bit intermediate, and returns
/// `None` when the result does not fit in a `u64`. It panics when `denom`
/// is zero.
#[verifier::external_body]
pub(crate) fn mul_div_ceil_u64(v: u64, num: u64, denom: u64) -> (r: Option<u64>)
    requires
        denom != 0,
    ensures
        r == fit_u64(mul_div_ceil_spec(v as int, num as int, denom as int)),
{
    muldiv::MulDiv::mul_div_ceil(v, num, denom)
}

/// `muldiv::MulDiv::mul_div_floor` on `u32`: computes `v * num / denom`
/// rounded down with a 64 bit intermediate product, and returns `None`
/// when the result does not fit in a `u32`. It panics when `denom` is zero.
#[verifier::external_body]
pub(crate) fn mul_div_floor_u32(v: u32, num: u32, denom: u32) -> (r: Option<u32>)
    requires
        denom != 0,
    ensures
        r == fit_u32(mul_div_floor_spec(v as int, num as int, denom as int)),
{
    muldiv::MulDiv::mul_div_floor(v, num, denom)
}

/// `muldiv::MulDiv::mul_div_round` on `u32`: computes
/// `(v * num + denom / 2) / denom` with a 64 bit intermediate, and returns
/// `None` when the result does not fit in a `u32`. It panics when `denom`
/// is zero.
#[verifier::external_body]
pub(crate) fn mul_div_round_u32(v: u32, num: u32, denom: u32) -> (r: Option<u32>)
    requires
        denom != 0,
    ensures
        r == fit_u32(mul_div_round_spec(v as int, num as int, denom as int)),
{
    muldiv::MulDiv::mul_div_round(v, num, denom)
}

/// `muldiv::MulDiv::mul_div_ceil` on `u32`: computes
/// `(v * num + denom - 1) / denom` with a 64 bit intermediate, and returns
/// `None` when the result does not fit in a `u32`. It panics when `denom`
/// is zero.
#[verifier::external_body]
pub(crate) fn mul_div_ceil_u32(v: u32, num: u32, denom: u32) -> (r: Option<u32>)
    requires
        denom != 0,
    ensures
        r == fit_u32(mul_div_ceil_spec(v as int, num as int, denom as int)),
{
    muldiv::MulDiv::mul_div_ceil(v, num, denom)
}

} // verus!
