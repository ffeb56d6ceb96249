use vstd::prelude::*;

use crate::format_kind::Format;
use crate::muldiv_ops::{
    fit_u32, mul_div_ceil_spec, mul_div_ceil_u32, mul_div_floor_spec, mul_div_floor_u32,
    mul_div_round_spec, mul_div_round_u32,
};
use core::cmp::Ordering;
use crate::generic::{generic_format, GenericFormattedValue};
use crate::traits::CompatibleFormattedValue;
use crate::muldiv_ops::MulDiv;
use crate::signed_cmp::{compare_signed, signed_order};
use vstd::std_specs::cmp::{PartialEqSpecImpl, PartialOrdSpecImpl};
use crate::quantity::lemma_u64_as_i64;
use crate::signed_ops::{abs_int, signed_difference, signed_sum, sval};
use crate::signed::{min_int, Signed, SignedIntrinsic, UnsignedValue};
use crate::traits::{
    FormattedValue, FormattedValueError, FormattedValueFullRange, FormattedValueIntrinsic,
    FormattedValueNoneBuilder, NoneError, SpecificFormattedValue, UnsignedIntoSigned,
};
use crate::display::{push_undefined, DisplayText};
use crate::format_kind::format_text;
use crate::text::{chars_to_string, decimal, push_decimal, push_str, push_zero_padded, zero_padded_decimal};

verus! {

/// The largest percentage, 100%, in parts per million.
pub const PERCENT_MAX: u32 = 1_000_000;

/// One percent, in parts per million.
pub const PERCENT_SCALE: u32 = 10_000;

/// A percentage, held in parts per million.
///
/// Only the values `0..=1_000_000` can be represented.
#[derive(PartialEq, Eq, Structural, PartialOrd, Ord, Hash, Clone, Copy, Debug, Default)]
pub struct Percent(u32);

impl Percent {
    #[verifier::type_invariant]
    spec fn inv(self) -> bool {
        self.0 <= PERCENT_MAX
    }

    /// The quantity held by `self`.
    pub closed spec fn value(self) -> int {
        self.0 as int
    }

    /// The value holding the quantity `n`.
    pub closed spec fn from_value(n: int) -> Self {
        Percent(n as u32)
    }

    /// `from_value` builds a value holding the given quantity.
    pub broadcast proof fn lemma_from_value(n: int)
        requires
            0 <= n <= PERCENT_MAX,
        ensures
            #[trigger] Self::from_value(n).value() == n,
    {
    }

    /// A value is rebuilt from its quantity.
    pub broadcast proof fn lemma_from_value_of(x: Self)
        ensures
            #[trigger] Self::from_value(x.value()) == x,
    {
    }

    /// Values holding the same quantity are equal.
    pub proof fn lemma_value_injective(a: Self, b: Self)
        requires
            a.value() == b.value(),
        ensures
            a == b,
    {
    }

    /// The value holding the quantity of an optional raw result.
    pub open spec fn lift_raw(o: Option<u32>) -> Option<Self> {
        match o {
            Some(v) => Some(Self::from_value(v as int)),
            None => None,
        }
    }

    /// The zero quantity.
    #[allow(non_snake_case)]
    pub fn ZERO() -> (r: Self)
        ensures
            r.value() == 0,
    {
        Percent(0)
    }

    /// One percent.
    #[allow(non_snake_case)]
    pub fn ONE() -> (r: Self)
        ensures
            r.value() == PERCENT_SCALE,
    {
        Percent(PERCENT_SCALE)
    }

    /// 100 percent.
    #[allow(non_snake_case)]
    pub fn MAX() -> (r: Self)
        ensures
            r.value() == PERCENT_MAX,
    {
        Percent(PERCENT_MAX)
    }

    /// The undefined percentage.
    #[allow(non_snake_case)]
    pub fn NONE() -> (r: Option<Self>)
        ensures
            r is None,
    {
        None
    }

    /// The largest signed quantity.
    #[allow(non_snake_case)]
    pub fn MAX_SIGNED() -> (r: Signed<Self>)
        ensures
            r == Signed::Positive(Self::from_value(PERCENT_MAX as int)),
            r.spec_abs().value() == PERCENT_MAX,
    {
        Signed::Positive(Self::MAX())
    }

    /// The smallest signed quantity.
    #[allow(non_snake_case)]
    pub fn MIN_SIGNED() -> (r: Signed<Self>)
        ensures
            r == Signed::Negative(Self::from_value(PERCENT_MAX as int)),
            r.spec_abs().value() == PERCENT_MAX,
    {
        Signed::Negative(Self::MAX())
    }

    /// Builds a new `Percent` with the provided percent value; the value
    /// must not be larger than 100.
    pub fn from_percent(percent: u32) -> (r: Self)
        requires
            percent <= 100,
        ensures
            r.value() == PERCENT_SCALE * percent,
    {
        Percent(PERCENT_SCALE * percent)
    }

    /// Builds a new `Percent` with the provided parts per million value;
    /// the value must not be larger than [`Self::MAX`].
    pub fn from_ppm(ppm: u32) -> (r: Self)
        requires
            ppm <= PERCENT_MAX,
        ensures
            r.value() == ppm,
    {
        Percent(ppm)
    }

    /// The percent value in the range [0, 100].
    pub fn percent(&self) -> (r: u32)
        ensures
            r == self.value() / PERCENT_SCALE as int,
    {
        self.0 / PERCENT_SCALE
    }

    /// The per million value in the range [0, 1_000_000].
    pub fn ppm(&self) -> (r: u32)
        ensures
            r == self.value(),
    {
        self.0
    }

    /// One percent, in parts per million.
    #[allow(non_snake_case)]
    pub fn SCALE() -> (r: Self)
        ensures
            r.value() == PERCENT_SCALE,
    {
        Percent(PERCENT_SCALE)
    }

    /// Returns the parts per million held.
    pub fn get(self) -> (r: u32)
        ensures
            r == self.value(),
            r <= PERCENT_MAX,
    {
        proof {
            use_type_invariant(&self);
        }
        self.0
    }

    /// Returns `true` if the quantity is zero.
    pub fn is_zero(self) -> (r: bool)
        ensures
            r == (self.value() == 0),
    {
        self.0 == 0
    }

    /// Returns `self + rhs`, or `None` if the sum exceeds [`Self::MAX`].
    pub fn checked_add(self, rhs: Self) -> (r: Option<Self>)
        ensures
            r is None <==> self.value() + rhs.value() > PERCENT_MAX,
            r matches Some(v) ==> v.value() == self.value() + rhs.value(),
    {
        proof {
            use_type_invariant(&self);
            use_type_invariant(&rhs);
        }
        if self.0 <= PERCENT_MAX - rhs.0 {
            Some(Percent(self.0 + rhs.0))
        } else {
            None
        }
    }

    /// Returns `self + rhs`, capped to [`Self::MAX`].
    pub fn saturating_add(self, rhs: Self) -> (r: Self)
        ensures
            r.value() == min_int(self.value() + rhs.value(), PERCENT_MAX as int),
    {
        proof {
            use_type_invariant(&self);
            use_type_invariant(&rhs);
        }
        if self.0 <= PERCENT_MAX - rhs.0 {
            Percent(self.0 + rhs.0)
        } else {
            Self::MAX()
        }
    }

    /// Returns `self + rhs` wrapped around `MAX + 1`, with a flag telling
    /// whether it wrapped.
    pub fn overflowing_add(self, rhs: Self) -> (r: (Self, bool))
        ensures
            r.1 == (self.value() + rhs.value() > PERCENT_MAX),
            r.0.value() == (if r.1 {
                self.value() + rhs.value() - PERCENT_MAX - 1
            } else {
                self.value() + rhs.value()
            }),
    {
        proof {
            use_type_invariant(&self);
            use_type_invariant(&rhs);
        }
        if self.0 <= PERCENT_MAX - rhs.0 {
            (Percent(self.0 + rhs.0), false)
        } else {
            (Percent(self.0 - (PERCENT_MAX - rhs.0) - 1), true)
        }
    }

    /// Returns `self + rhs` wrapped around `MAX + 1`.
    pub fn wrapping_add(self, rhs: Self) -> (r: Self)
        ensures
            r.value() == (self.value() + rhs.value()) % (PERCENT_MAX as int + 1),
    {
        proof {
            use_type_invariant(&self);
            use_type_invariant(&rhs);
        }
        let r = self.overflowing_add(rhs).0;
        proof {
            let s = self.value() + rhs.value();
            let m = PERCENT_MAX as int + 1;
            if s > PERCENT_MAX {
                vstd::arithmetic::div_mod::lemma_fundamental_div_mod_converse(s, m, 1, s - m);
            } else {
                vstd::arithmetic::div_mod::lemma_small_mod(s as nat, m as nat);
            }
        }
        r
    }

    /// Returns `self - rhs`, or `None` if `rhs` is larger than `self`.
    pub fn checked_sub(self, rhs: Self) -> (r: Option<Self>)
        ensures
            r is None <==> self.value() < rhs.value(),
            r matches Some(v) ==> v.value() == self.value() - rhs.value(),
    {
        proof {
            use_type_invariant(&self);
            use_type_invariant(&rhs);
        }
        if self.0 >= rhs.0 {
            Some(Percent(self.0 - rhs.0))
        } else {
            None
        }
    }

    /// Returns `self - rhs`, or zero if `rhs` is larger than `self`.
    pub fn saturating_sub(self, rhs: Self) -> (r: Self)
        ensures
            r.value() == (if self.value() >= rhs.value() {
                self.value() - rhs.value()
            } else {
                0
            }),
    {
        proof {
            use_type_invariant(&self);
            use_type_invariant(&rhs);
        }
        if self.0 >= rhs.0 {
            Percent(self.0 - rhs.0)
        } else {
            Percent(0)
        }
    }

    /// Returns `self - rhs` wrapped around `MAX + 1`, with a flag telling
    /// whether it wrapped.
    pub fn overflowing_sub(self, rhs: Self) -> (r: (Self, bool))
        ensures
            r.1 == (self.value() < rhs.value()),
            r.0.value() == (if r.1 {
                PERCENT_MAX - rhs.value() + self.value() + 1
            } else {
                self.value() - rhs.value()
            }),
    {
        proof {
            use_type_invariant(&self);
            use_type_invariant(&rhs);
        }
        if self.0 >= rhs.0 {
            (Percent(self.0 - rhs.0), false)
        } else {
            (Percent(PERCENT_MAX - rhs.0 + self.0 + 1), true)
        }
    }

    /// Returns `self - rhs` wrapped around `MAX + 1`.
    pub fn wrapping_sub(self, rhs: Self) -> (r: Self)
        ensures
            r.value() == (self.value() - rhs.value()) % (PERCENT_MAX as int + 1),
    {
        proof {
            use_type_invariant(&self);
            use_type_invariant(&rhs);
        }
        let r = self.overflowing_sub(rhs).0;
        proof {
            let d = self.value() - rhs.value();
            let m = PERCENT_MAX as int + 1;
            if d < 0 {
                vstd::arithmetic::div_mod::lemma_fundamental_div_mod_converse(d, m, -1, d + m);
            } else {
                vstd::arithmetic::div_mod::lemma_small_mod(d as nat, m as nat);
            }
        }
        r
    }

    /// Returns `self / rhs`, or `None` if `rhs` is zero.
    pub fn checked_div(self, rhs: u32) -> (r: Option<Self>)
        ensures
            r is None <==> rhs == 0,
            r matches Some(v) ==> v.value() == self.value() / (rhs as int),
    {
        proof {
            use_type_invariant(&self);
        }
        if rhs == 0 {
            None
        } else {
            Some(Percent(self.0 / rhs))
        }
    }

    /// Returns `self / rhs`; `rhs` must not be zero.
    pub fn saturating_div(self, rhs: u32) -> (r: Self)
        requires
            rhs != 0,
        ensures
            r.value() == self.value() / (rhs as int),
    {
        proof {
            use_type_invariant(&self);
        }
        Percent(self.0 / rhs)
    }

    /// Returns `self * rhs`, or `None` if the product exceeds [`Self::MAX`].
    pub fn checked_mul(self, rhs: u32) -> (r: Option<Self>)
        ensures
            r is None <==> self.value() * rhs > PERCENT_MAX,
            r matches Some(v) ==> v.value() == self.value() * rhs,
    {
        proof {
            use_type_invariant(&self);
        }
        if rhs == 0 || self.0 <= PERCENT_MAX / rhs {
            proof {
                if rhs != 0 {
                    vstd::arithmetic::mul::lemma_mul_inequality(self.0 as int, (PERCENT_MAX / rhs) as int, rhs as int);
                    vstd::arithmetic::div_mod::lemma_fundamental_div_mod(PERCENT_MAX as int, rhs as int);
                }
            }
            Some(Percent(self.0 * rhs))
        } else {
            proof {
                vstd::arithmetic::div_mod::lemma_fundamental_div_mod(PERCENT_MAX as int, rhs as int);
                vstd::arithmetic::mul::lemma_mul_inequality((PERCENT_MAX / rhs) as int + 1, self.0 as int, rhs as int);
                vstd::arithmetic::mul::lemma_mul_is_distributive_add_other_way(rhs as int, (PERCENT_MAX / rhs) as int, 1);
            }
            None
        }
    }

    /// Returns `self * rhs`, capped to [`Self::MAX`].
    pub fn saturating_mul(self, rhs: u32) -> (r: Self)
        ensures
            r.value() == min_int(self.value() * rhs, PERCENT_MAX as int),
    {
        match self.checked_mul(rhs) {
            Some(v) => v,
            None => Self::MAX(),
        }
    }

    /// Returns `self * rhs` wrapped around `MAX + 1` once: when the product
    /// exceeds [`Self::MAX`], the result is the product minus `MAX + 1`,
    /// which must itself be a valid percentage.
    pub fn overflowing_mul(self, rhs: u32) -> (r: (Self, bool))
        requires
            self.value() * rhs <= 2 * PERCENT_MAX + 1,
        ensures
            r.1 == (self.value() * rhs > PERCENT_MAX),
            r.0.value() == (if r.1 {
                self.value() * rhs - PERCENT_MAX - 1
            } else {
                self.value() * rhs
            }),
    {
        proof {
            use_type_invariant(&self);
        }
        let a: u64 = self.0 as u64;
        let b: u64 = rhs as u64;
        proof {
            assert(a * b <= 0xffff_ffffu64 * 0xffff_ffffu64) by (nonlinear_arith)
                requires
                    a <= 0xffff_ffffu64,
                    b <= 0xffff_ffffu64,
            ;
        }
        let wide: u64 = a * b;
        if wide <= PERCENT_MAX as u64 {
            (Percent(wide as u32), false)
        } else {
            (Percent((wide - PERCENT_MAX as u64 - 1) as u32), true)
        }
    }

    /// Returns `self * rhs` wrapped as [`Self::overflowing_mul`] does.
    pub fn wrapping_mul(self, rhs: u32) -> (r: Self)
        requires
            self.value() * rhs <= 2 * PERCENT_MAX + 1,
        ensures
            r.value() == (if self.value() * rhs > PERCENT_MAX {
                self.value() * rhs - PERCENT_MAX - 1
            } else {
                self.value() * rhs
            }),
    {
        self.overflowing_mul(rhs).0
    }

    /// Returns `self % rhs`, or `None` if `rhs` is zero.
    pub fn checked_rem(self, rhs: u32) -> (r: Option<Self>)
        ensures
            r is None <==> rhs == 0,
            r matches Some(v) ==> v.value() == self.value() % (rhs as int),
    {
        proof {
            use_type_invariant(&self);
        }
        if rhs == 0 {
            None
        } else {
            proof {
                vstd::arithmetic::div_mod::lemma_mod_decreases(self.0 as nat, rhs as nat);
            }
            Some(Percent(self.0 % rhs))
        }
    }

    /// Returns the C representation of an optional percentage: `None` maps
    /// to `-1`.
    pub fn opt_into_glib(v: Option<Self>) -> (r: i64)
        ensures
            r == (match v {
                Some(x) => x.value(),
                None => -1,
            }),
    {
        match v {
            Some(x) => x.0 as i64,
            None => -1,
        }
    }

    /// Builds a percentage from its C representation, refusing values
    /// outside `0..=MAX`.
    pub fn try_from_glib(value: i64) -> (r: Result<Self, NoneError>)
        ensures
            r is Err <==> (value < 0 || value > PERCENT_MAX),
            r matches Ok(v) ==> v.value() == value,
    {
        if value < 0 || value > PERCENT_MAX as i64 {
            Err(NoneError)
        } else {
            Ok(Percent(value as u32))
        }
    }

    /// Builds a percentage from a `u64` parts per million value, refusing
    /// values larger than [`Self::MAX`].
    pub fn try_from_u64(v: u64) -> (r: Result<Self, NoneError>)
        ensures
            r is Err <==> v > PERCENT_MAX,
            r matches Ok(x) ==> x.value() == v,
    {
        let raw = v as i64;
        proof {
            lemma_u64_as_i64(v);
        }
        Self::try_from_glib(raw)
    }

    /// Builds a percentage from a `u32` parts per million value, refusing
    /// values larger than [`Self::MAX`].
    pub fn try_from_u32(value: u32) -> (r: Result<Self, FormattedValueError>)
        ensures
            r is Err <==> value > PERCENT_MAX,
            r matches Err(e) ==> e == FormattedValueError(Format::Percent),
            r matches Ok(x) ==> x.value() == value,
    {
        if value > PERCENT_MAX {
            Err(FormattedValueError(Format::Percent))
        } else {
            Ok(Percent(value))
        }
    }

    /// `floor(self * num / denom)`, or `None` if it exceeds `u32::MAX`.
    /// A result above [`Self::MAX`] is refused.
    pub fn mul_div_floor(self, num: u32, denom: u32) -> (r: Option<Self>)
        requires
            denom != 0,
            mul_div_floor_spec(self.value() as int, num as int, denom as int) <= PERCENT_MAX,
        ensures
            r == Self::lift_raw(fit_u32(mul_div_floor_spec(self.value() as int, num as int, denom as int))),
    {
        match mul_div_floor_u32(self.0, num, denom) {
            Some(v) => Some(Percent(v)),
            None => None,
        }
    }

    /// `self * num / denom` rounded to the nearest integer, or `None` if it
    /// exceeds `u32::MAX`. A result above [`Self::MAX`] is refused.
    pub fn mul_div_round(self, num: u32, denom: u32) -> (r: Option<Self>)
        requires
            denom != 0,
            mul_div_round_spec(self.value() as int, num as int, denom as int) <= PERCENT_MAX,
        ensures
            r == Self::lift_raw(fit_u32(mul_div_round_spec(self.value() as int, num as int, denom as int))),
    {
        match mul_div_round_u32(self.0, num, denom) {
            Some(v) => Some(Percent(v)),
            None => None,
        }
    }

    /// `ceil(self * num / denom)`, or `None` if it exceeds `u32::MAX`.
    /// A result above [`Self::MAX`] is refused.
    pub fn mul_div_ceil(self, num: u32, denom: u32) -> (r: Option<Self>)
        requires
            denom != 0,
            mul_div_ceil_spec(self.value() as int, num as int, denom as int) <= PERCENT_MAX,
        ensures
            r == Self::lift_raw(fit_u32(mul_div_ceil_spec(self.value() as int, num as int, denom as int))),
    {
        match mul_div_ceil_u32(self.0, num, denom) {
            Some(v) => Some(Percent(v)),
            None => None,
        }
    }
}

impl UnsignedValue for Percent {
    open spec fn uval(self) -> int {
        self.value()
    }

    open spec fn umax() -> int {
        PERCENT_MAX as int
    }

    proof fn lemma_uval_injective(a: Self, b: Self) {
        Self::lemma_value_injective(a, b);
    }

    proof fn lemma_umax_positive() {
    }

    fn is_zero_value(&self) -> (r: bool) {
        proof {
            use_type_invariant(self);
        }
        self.0 == 0
    }

    fn ge_value(&self, other: &Self) -> (r: bool) {
        proof {
            use_type_invariant(self);
            use_type_invariant(other);
        }
        self.0 >= other.0
    }

    fn sub_value(self, other: Self) -> (r: Self) {
        proof {
            use_type_invariant(&self);
        }
        Percent(self.0 - other.0)
    }

    fn checked_add_value(self, other: Self) -> (r: Option<Self>) {
        proof {
            use_type_invariant(&self);
            use_type_invariant(&other);
        }
        self.checked_add(other)
    }

    fn saturating_sub_value(self, other: Self) -> (r: Self) {
        proof {
            use_type_invariant(&self);
            use_type_invariant(&other);
        }
        self.saturating_sub(other)
    }

    fn overflowing_add_value(self, other: Self) -> (r: (Self, bool)) {
        proof {
            use_type_invariant(&self);
            use_type_invariant(&other);
        }
        self.overflowing_add(other)
    }

    fn overflowing_sub_value(self, other: Self) -> (r: (Self, bool)) {
        proof {
            use_type_invariant(&self);
            use_type_invariant(&other);
        }
        self.overflowing_sub(other)
    }

    fn saturating_add_value(self, other: Self) -> (r: Self) {
        proof {
            use_type_invariant(&self);
            use_type_invariant(&other);
        }
        self.saturating_add(other)
    }
}

impl core::ops::Add for Percent {
    type Output = Percent;

    fn add(self, rhs: Percent) -> (r: Percent) {
        proof {
            use_type_invariant(&self);
            use_type_invariant(&rhs);
        }
        Percent(self.0 + rhs.0)
    }
}

impl vstd::std_specs::ops::AddSpecImpl for Percent {
    open spec fn obeys_add_spec() -> bool {
        true
    }

    open spec fn add_req(self, rhs: Percent) -> bool {
        self.value() + rhs.value() <= PERCENT_MAX
    }

    open spec fn add_spec(self, rhs: Percent) -> Percent {
        Self::from_value(self.value() + rhs.value())
    }
}

impl core::ops::Sub for Percent {
    type Output = Percent;

    fn sub(self, rhs: Percent) -> (r: Percent) {
        proof {
            use_type_invariant(&self);
        }
        Percent(self.0 - rhs.0)
    }
}

impl vstd::std_specs::ops::SubSpecImpl for Percent {
    open spec fn obeys_sub_spec() -> bool {
        true
    }

    open spec fn sub_req(self, rhs: Percent) -> bool {
        self.value() >= rhs.value()
    }

    open spec fn sub_spec(self, rhs: Percent) -> Percent {
        Self::from_value(self.value() - rhs.value())
    }
}

impl core::ops::Div for Percent {
    type Output = u32;

    fn div(self, rhs: Percent) -> (r: u32) {
        self.0 / rhs.0
    }
}

impl vstd::std_specs::ops::DivSpecImpl for Percent {
    open spec fn obeys_div_spec() -> bool {
        true
    }

    open spec fn div_req(self, rhs: Percent) -> bool {
        rhs.value() != 0
    }

    open spec fn div_spec(self, rhs: Percent) -> u32 {
        (self.value() / rhs.value()) as u32
    }
}

impl core::ops::Rem for Percent {
    type Output = Percent;

    fn rem(self, rhs: Percent) -> (r: Percent) {
        proof {
            use_type_invariant(&self);
        }
        proof {
            vstd::arithmetic::div_mod::lemma_mod_decreases(self.0 as nat, rhs.0 as nat);
        }
        Percent(self.0 % rhs.0)
    }
}

impl vstd::std_specs::ops::RemSpecImpl for Percent {
    open spec fn obeys_rem_spec() -> bool {
        true
    }

    open spec fn rem_req(self, rhs: Percent) -> bool {
        rhs.value() != 0
    }

    open spec fn rem_spec(self, rhs: Percent) -> Percent {
        Self::from_value(self.value() % rhs.value())
    }
}

impl core::ops::Mul<u32> for Percent {
    type Output = Percent;

    fn mul(self, rhs: u32) -> (r: Percent) {
        Percent(self.0 * rhs)
    }
}

impl vstd::std_specs::ops::MulSpecImpl<u32> for Percent {
    open spec fn obeys_mul_spec() -> bool {
        true
    }

    open spec fn mul_req(self, rhs: u32) -> bool {
        self.value() * rhs <= PERCENT_MAX
    }

    open spec fn mul_spec(self, rhs: u32) -> Percent {
        Self::from_value(self.value() * rhs)
    }
}

impl core::ops::Mul<Percent> for u32 {
    type Output = Percent;

    fn mul(self, rhs: Percent) -> (r: Percent) {
        rhs * self
    }
}

impl vstd::std_specs::ops::MulSpecImpl<Percent> for u32 {
    open spec fn obeys_mul_spec() -> bool {
        true
    }

    open spec fn mul_req(self, rhs: Percent) -> bool {
        rhs.value() * self <= PERCENT_MAX
    }

    open spec fn mul_spec(self, rhs: Percent) -> Percent {
        Percent::from_value(rhs.value() * self)
    }
}

impl core::ops::Div<u32> for Percent {
    type Output = Percent;

    fn div(self, rhs: u32) -> (r: Percent) {
        proof {
            use_type_invariant(&self);
        }
        Percent(self.0 / rhs)
    }
}

impl vstd::std_specs::ops::DivSpecImpl<u32> for Percent {
    open spec fn obeys_div_spec() -> bool {
        true
    }

    open spec fn div_req(self, rhs: u32) -> bool {
        rhs != 0
    }

    open spec fn div_spec(self, rhs: u32) -> Percent {
        Self::from_value(self.value() / (rhs as int))
    }
}

impl core::ops::Rem<u32> for Percent {
    type Output = Percent;

    fn rem(self, rhs: u32) -> (r: Percent) {
        proof {
            use_type_invariant(&self);
        }
        proof {
            vstd::arithmetic::div_mod::lemma_mod_decreases(self.0 as nat, rhs as nat);
        }
        Percent(self.0 % rhs)
    }
}

impl vstd::std_specs::ops::RemSpecImpl<u32> for Percent {
    open spec fn obeys_rem_spec() -> bool {
        true
    }

    open spec fn rem_req(self, rhs: u32) -> bool {
        rhs != 0
    }

    open spec fn rem_spec(self, rhs: u32) -> Percent {
        Self::from_value(self.value() % (rhs as int))
    }
}

impl core::ops::Deref for Percent {
    type Target = u32;

    fn deref(&self) -> (r: &u32)
        ensures
            *r == self.value(),
    {
        &self.0
    }
}

impl UnsignedIntoSigned for Percent {
    type Signed = Signed<Percent>;

    open spec fn spec_into_positive(self) -> Signed<Percent> {
        Signed::Positive(self)
    }

    open spec fn spec_into_negative(self) -> Signed<Percent> {
        Signed::Negative(self)
    }

    open spec fn spec_can_sign(self) -> bool {
        true
    }

    fn into_positive(self) -> (r: Signed<Percent>) {
        Signed::Positive(self)
    }

    fn into_negative(self) -> (r: Signed<Percent>) {
        Signed::Negative(self)
    }
}

impl UnsignedIntoSigned for Option<Percent> {
    type Signed = Option<Signed<Percent>>;

    open spec fn spec_into_positive(self) -> Option<Signed<Percent>> {
        match self {
            Some(v) => Some(Signed::Positive(v)),
            None => None,
        }
    }

    open spec fn spec_into_negative(self) -> Option<Signed<Percent>> {
        match self {
            Some(v) => Some(Signed::Negative(v)),
            None => None,
        }
    }

    open spec fn spec_can_sign(self) -> bool {
        true
    }

    fn into_positive(self) -> (r: Option<Signed<Percent>>) {
        match self {
            Some(v) => Some(Signed::Positive(v)),
            None => None,
        }
    }

    fn into_negative(self) -> (r: Option<Signed<Percent>>) {
        match self {
            Some(v) => Some(Signed::Negative(v)),
            None => None,
        }
    }
}

impl Signed<Percent> {
    /// Returns a `Signed` containing the inner quantity of `self`.
    pub fn into_inner_signed(self) -> (r: Signed<u32>)
        ensures
            r == (match self {
                Signed::Positive(v) => Signed::Positive(v.value() as u32),
                Signed::Negative(v) => Signed::Negative(v.value() as u32),
            }),
    {
        match self {
            Signed::Positive(v) => Signed::Positive(v.get()),
            Signed::Negative(v) => Signed::Negative(v.get()),
        }
    }
}


impl FormattedValue for Percent {
    open spec fn spec_default_format() -> Format {
        Format::Percent
    }

    open spec fn spec_format(&self) -> Format {
        Format::Percent
    }

    open spec fn spec_is_some(&self) -> bool {
        true
    }

    open spec fn spec_raw_value(&self) -> int {
        self.value()
    }

    fn default_format() -> (r: Format) {
        Format::Percent
    }

    fn format(&self) -> (r: Format) {
        Format::Percent
    }

    fn is_some(&self) -> (r: bool) {
        true
    }

    fn into_raw_value(self) -> (r: i64) {
        self.0 as i64
    }
}

impl FormattedValue for Option<Percent> {
    open spec fn spec_default_format() -> Format {
        Format::Percent
    }

    open spec fn spec_format(&self) -> Format {
        Format::Percent
    }

    open spec fn spec_is_some(&self) -> bool {
        self is Some
    }

    open spec fn spec_raw_value(&self) -> int {
        match self {
            Some(v) => v.value(),
            None => -1,
        }
    }

    fn default_format() -> (r: Format) {
        Format::Percent
    }

    fn format(&self) -> (r: Format) {
        Format::Percent
    }

    fn is_some(&self) -> (r: bool) {
        Option::is_some(self)
    }

    fn into_raw_value(self) -> (r: i64) {
        Percent::opt_into_glib(self)
    }
}

impl FormattedValueFullRange for Option<Percent> {
    open spec fn spec_from_raw(format: Format, value: i64) -> Option<Percent> {
        if value < 0 || value > PERCENT_MAX {
            None
        } else {
            Some(Percent::from_value(value as int))
        }
    }

    open spec fn spec_accepts_format(format: Format) -> bool {
        format == Format::Percent
    }

    fn from_raw(format: Format, value: i64) -> (r: Option<Percent>) {
        match Percent::try_from_glib(value) {
            Ok(v) => Some(v),
            Err(_) => None,
        }
    }
}

impl FormattedValueNoneBuilder for Option<Percent> {
    open spec fn spec_none() -> Option<Percent> {
        None
    }

    open spec fn spec_none_for_format(format: Format) -> Option<Percent> {
        None
    }

    open spec fn spec_none_known() -> bool {
        true
    }

    open spec fn spec_none_representable(format: Format) -> bool {
        format == Format::Percent
    }

    fn none() -> (r: Option<Percent>) {
        None
    }

    fn none_for_format(format: Format) -> (r: Option<Percent>) {
        None
    }
}

impl FormattedValueIntrinsic for Percent {}

impl SpecificFormattedValue for Option<Percent> {}

impl SignedIntrinsic for Percent {}

impl CompatibleFormattedValue<Percent> for Percent {
    type Original = Percent;

    open spec fn spec_compatible(self, other: Percent) -> bool {
        true
    }

    open spec fn spec_compatible_explicit(self, format: Format) -> bool {
        true
    }

    open spec fn spec_original(self) -> Percent {
        self
    }

    fn try_into_checked(self, other: Percent) -> (r: Result<Percent, FormattedValueError>) {
        Ok(self)
    }

    fn try_into_checked_explicit(self, format: Format) -> (r: Result<Percent, FormattedValueError>) {
        Ok(self)
    }
}

impl CompatibleFormattedValue<Option<Percent>> for Percent {
    type Original = Percent;

    open spec fn spec_compatible(self, other: Option<Percent>) -> bool {
        true
    }

    open spec fn spec_compatible_explicit(self, format: Format) -> bool {
        true
    }

    open spec fn spec_original(self) -> Percent {
        self
    }

    fn try_into_checked(self, other: Option<Percent>) -> (r: Result<Percent, FormattedValueError>) {
        Ok(self)
    }

    fn try_into_checked_explicit(self, format: Format) -> (r: Result<Percent, FormattedValueError>) {
        Ok(self)
    }
}

impl CompatibleFormattedValue<Percent> for Option<Percent> {
    type Original = Option<Percent>;

    open spec fn spec_compatible(self, other: Percent) -> bool {
        true
    }

    open spec fn spec_compatible_explicit(self, format: Format) -> bool {
        true
    }

    open spec fn spec_original(self) -> Option<Percent> {
        self
    }

    fn try_into_checked(self, other: Percent) -> (r: Result<Option<Percent>, FormattedValueError>) {
        Ok(self)
    }

    fn try_into_checked_explicit(self, format: Format) -> (r: Result<
        Option<Percent>,
        FormattedValueError,
    >) {
        Ok(self)
    }
}

impl CompatibleFormattedValue<Option<Percent>> for Option<Percent> {
    type Original = Option<Percent>;

    open spec fn spec_compatible(self, other: Option<Percent>) -> bool {
        true
    }

    open spec fn spec_compatible_explicit(self, format: Format) -> bool {
        true
    }

    open spec fn spec_original(self) -> Option<Percent> {
        self
    }

    fn try_into_checked(self, other: Option<Percent>) -> (r: Result<
        Option<Percent>,
        FormattedValueError,
    >) {
        Ok(self)
    }

    fn try_into_checked_explicit(self, format: Format) -> (r: Result<
        Option<Percent>,
        FormattedValueError,
    >) {
        Ok(self)
    }
}

impl CompatibleFormattedValue<GenericFormattedValue> for Percent {
    type Original = Percent;

    open spec fn spec_compatible(self, other: GenericFormattedValue) -> bool {
        generic_format(other) == Format::Percent
    }

    open spec fn spec_compatible_explicit(self, format: Format) -> bool {
        format == Format::Percent
    }

    open spec fn spec_original(self) -> Percent {
        self
    }

    fn try_into_checked(self, other: GenericFormattedValue) -> (r: Result<Percent, FormattedValueError>) {
        if self.format() == other.format() {
            Ok(self)
        } else {
            Err(FormattedValueError(self.format()))
        }
    }

    fn try_into_checked_explicit(self, format: Format) -> (r: Result<Percent, FormattedValueError>) {
        if self.format() == format {
            Ok(self)
        } else {
            Err(FormattedValueError(self.format()))
        }
    }
}

impl CompatibleFormattedValue<GenericFormattedValue> for Option<Percent> {
    type Original = Option<Percent>;

    open spec fn spec_compatible(self, other: GenericFormattedValue) -> bool {
        generic_format(other) == Format::Percent
    }

    open spec fn spec_compatible_explicit(self, format: Format) -> bool {
        format == Format::Percent
    }

    open spec fn spec_original(self) -> Option<Percent> {
        self
    }

    fn try_into_checked(self, other: GenericFormattedValue) -> (r: Result<
        Option<Percent>,
        FormattedValueError,
    >) {
        if self.format() == other.format() {
            Ok(self)
        } else {
            Err(FormattedValueError(self.format()))
        }
    }

    fn try_into_checked_explicit(self, format: Format) -> (r: Result<
        Option<Percent>,
        FormattedValueError,
    >) {
        if self.format() == format {
            Ok(self)
        } else {
            Err(FormattedValueError(self.format()))
        }
    }
}

impl CompatibleFormattedValue<Percent> for GenericFormattedValue {
    type Original = GenericFormattedValue;

    open spec fn spec_compatible(self, other: Percent) -> bool {
        generic_format(self) == Format::Percent
    }

    open spec fn spec_compatible_explicit(self, format: Format) -> bool {
        generic_format(self) == Format::Percent
    }

    open spec fn spec_original(self) -> GenericFormattedValue {
        self
    }

    fn try_into_checked(self, other: Percent) -> (r: Result<GenericFormattedValue, FormattedValueError>) {
        if self.format() == Percent::default_format() {
            Ok(self)
        } else {
            Err(FormattedValueError(self.format()))
        }
    }

    fn try_into_checked_explicit(self, format: Format) -> (r: Result<
        GenericFormattedValue,
        FormattedValueError,
    >) {
        if self.format() == Percent::default_format() {
            Ok(self)
        } else {
            Err(FormattedValueError(self.format()))
        }
    }
}

impl CompatibleFormattedValue<Option<Percent>> for GenericFormattedValue {
    type Original = GenericFormattedValue;

    open spec fn spec_compatible(self, other: Option<Percent>) -> bool {
        generic_format(self) == Format::Percent
    }

    open spec fn spec_compatible_explicit(self, format: Format) -> bool {
        generic_format(self) == Format::Percent
    }

    open spec fn spec_original(self) -> GenericFormattedValue {
        self
    }

    fn try_into_checked(self, other: Option<Percent>) -> (r: Result<
        GenericFormattedValue,
        FormattedValueError,
    >) {
        if self.format() == <Option<Percent>>::default_format() {
            Ok(self)
        } else {
            Err(FormattedValueError(self.format()))
        }
    }

    fn try_into_checked_explicit(self, format: Format) -> (r: Result<
        GenericFormattedValue,
        FormattedValueError,
    >) {
        if self.format() == <Option<Percent>>::default_format() {
            Ok(self)
        } else {
            Err(FormattedValueError(self.format()))
        }
    }
}

/// Returns `lhs / rhs` on magnitudes, or `None` if `rhs` is zero.
fn mag_checked_div(lhs: Percent, rhs: u32) -> (r: Option<Percent>)
    ensures
        r is None <==> rhs == 0,
        r matches Some(v) ==> v.uval() == lhs.uval() / (rhs as int),
{
    lhs.checked_div(rhs)
}

/// Returns `lhs % rhs` on magnitudes, or `None` if `rhs` is zero.
fn mag_checked_rem(lhs: Percent, rhs: u32) -> (r: Option<Percent>)
    ensures
        r is None <==> rhs == 0,
        r matches Some(v) ==> v.uval() == lhs.uval() % (rhs as int),
{
    lhs.checked_rem(rhs)
}

/// Returns `lhs * rhs` on magnitudes, or `None` if it exceeds the largest
/// magnitude.
fn mag_checked_mul(lhs: Percent, rhs: u32) -> (r: Option<Percent>)
    ensures
        r is None <==> lhs.uval() * rhs > <Percent as UnsignedValue>::umax(),
        r matches Some(v) ==> v.uval() == lhs.uval() * rhs,
{
    lhs.checked_mul(rhs)
}

/// Returns `lhs * rhs` on magnitudes, capped to the largest magnitude.
fn mag_saturating_mul(lhs: Percent, rhs: u32) -> (r: Percent)
    ensures
        r.uval() == min_int(lhs.uval() * rhs, <Percent as UnsignedValue>::umax()),
{
    match lhs.checked_mul(rhs) {
        Some(v) => v,
        None => Percent::MAX(),
    }
}

/// The absolute value of a signed right hand side other than its minimum.
fn mag_abs(x: i32) -> (r: u32)
    requires
        x != i32::MIN,
    ensures
        r as int == abs_int(x as int),
{
    if x < 0 {
        (-x) as u32
    } else {
        x as u32
    }
}

/// The magnitude with the given value.
pub open spec fn mag_from(v: int) -> Percent {
    Percent::from_value(v)
}

/// The signed value with the given sign and magnitude.
pub open spec fn signed_from(positive: bool, v: int) -> Signed<Percent> {
    if positive {
        Signed::Positive(mag_from(v))
    } else {
        Signed::Negative(mag_from(v))
    }
}

/// `s` has the given sign and magnitude.
pub open spec fn has_sign_mag(s: Signed<Percent>, positive: bool, mag: int) -> bool {
    s.spec_is_positive() == positive && s.spec_abs().uval() == mag
}

impl Signed<Percent> {
    /// Returns `self / rhs` with the magnitudes divided (truncating toward
    /// zero), or `None` if `rhs` is zero. The result is positive exactly
    /// when `self` is positive and `rhs > 0`, or `self` is negative and
    /// `rhs <= 0`.
    pub fn checked_div(self, rhs: i32) -> (r: Option<Self>)
        requires
            rhs != i32::MIN,
        ensures
            r is None <==> rhs == 0,
            r matches Some(v) ==> has_sign_mag(
                v,
                self.spec_is_positive() == (rhs > 0),
                self.spec_abs().uval() / abs_int(rhs as int),
            ),
    {
        let m = mag_abs(rhs);
        match self {
            Signed::Positive(lhs) => match mag_checked_div(lhs, m) {
                Some(v) => Some(if rhs > 0 { Signed::Positive(v) } else { Signed::Negative(v) }),
                None => None,
            },
            Signed::Negative(lhs) => match mag_checked_div(lhs, m) {
                Some(v) => Some(if rhs > 0 { Signed::Negative(v) } else { Signed::Positive(v) }),
                None => None,
            },
        }
    }

    /// Returns `self / rhs` with the sign of `self`, or `None` if `rhs` is
    /// zero.
    pub fn checked_div_unsigned(self, rhs: u32) -> (r: Option<Self>)
        ensures
            r is None <==> rhs == 0,
            r matches Some(v) ==> has_sign_mag(
                v,
                self.spec_is_positive(),
                self.spec_abs().uval() / (rhs as int),
            ),
    {
        match self {
            Signed::Positive(lhs) => match mag_checked_div(lhs, rhs) {
                Some(v) => Some(Signed::Positive(v)),
                None => None,
            },
            Signed::Negative(lhs) => match mag_checked_div(lhs, rhs) {
                Some(v) => Some(Signed::Negative(v)),
                None => None,
            },
        }
    }

    /// Returns the remainder of the magnitude of `self` divided by the
    /// magnitude of `rhs`, with the sign of `self`, or `None` if `rhs` is
    /// zero.
    pub fn checked_rem(self, rhs: i32) -> (r: Option<Self>)
        requires
            rhs != i32::MIN,
        ensures
            r is None <==> rhs == 0,
            r matches Some(v) ==> has_sign_mag(
                v,
                self.spec_is_positive(),
                self.spec_abs().uval() % abs_int(rhs as int),
            ),
    {
        self.checked_rem_unsigned(mag_abs(rhs))
    }

    /// Returns the remainder of the magnitude of `self` divided by `rhs`,
    /// with the sign of `self`, or `None` if `rhs` is zero.
    pub fn checked_rem_unsigned(self, rhs: u32) -> (r: Option<Self>)
        ensures
            r is None <==> rhs == 0,
            r matches Some(v) ==> has_sign_mag(
                v,
                self.spec_is_positive(),
                self.spec_abs().uval() % (rhs as int),
            ),
    {
        match self {
            Signed::Positive(lhs) => match mag_checked_rem(lhs, rhs) {
                Some(v) => Some(Signed::Positive(v)),
                None => None,
            },
            Signed::Negative(lhs) => match mag_checked_rem(lhs, rhs) {
                Some(v) => Some(Signed::Negative(v)),
                None => None,
            },
        }
    }

    /// Returns `self * rhs`, or `None` if the magnitude of the product
    /// exceeds the largest magnitude. The result is positive exactly when
    /// `self` is positive and `rhs > 0`, or `self` is negative and
    /// `rhs <= 0`.
    pub fn checked_mul(self, rhs: i32) -> (r: Option<Self>)
        requires
            rhs != i32::MIN,
        ensures
            r is None <==> self.spec_abs().uval() * abs_int(rhs as int) > <Percent as UnsignedValue>::umax(),
            r matches Some(v) ==> has_sign_mag(
                v,
                self.spec_is_positive() == (rhs > 0),
                self.spec_abs().uval() * abs_int(rhs as int),
            ),
    {
        let m = mag_abs(rhs);
        match self {
            Signed::Positive(lhs) => match mag_checked_mul(lhs, m) {
                Some(v) => Some(if rhs > 0 { Signed::Positive(v) } else { Signed::Negative(v) }),
                None => None,
            },
            Signed::Negative(lhs) => match mag_checked_mul(lhs, m) {
                Some(v) => Some(if rhs > 0 { Signed::Negative(v) } else { Signed::Positive(v) }),
                None => None,
            },
        }
    }

    /// Returns `self * rhs` with the sign of `self`, or `None` if the
    /// magnitude of the product exceeds the largest magnitude.
    pub fn checked_mul_unsigned(self, rhs: u32) -> (r: Option<Self>)
        ensures
            r is None <==> self.spec_abs().uval() * rhs > <Percent as UnsignedValue>::umax(),
            r matches Some(v) ==> has_sign_mag(
                v,
                self.spec_is_positive(),
                self.spec_abs().uval() * rhs,
            ),
    {
        match self {
            Signed::Positive(lhs) => match mag_checked_mul(lhs, rhs) {
                Some(v) => Some(Signed::Positive(v)),
                None => None,
            },
            Signed::Negative(lhs) => match mag_checked_mul(lhs, rhs) {
                Some(v) => Some(Signed::Negative(v)),
                None => None,
            },
        }
    }

    /// Returns `self * rhs` with its magnitude capped to the largest
    /// magnitude; the sign follows [`Self::checked_mul`].
    pub fn saturating_mul(self, rhs: i32) -> (r: Self)
        requires
            rhs != i32::MIN,
        ensures
            has_sign_mag(
                r,
                self.spec_is_positive() == (rhs > 0),
                min_int(self.spec_abs().uval() * abs_int(rhs as int), <Percent as UnsignedValue>::umax()),
            ),
    {
        let m = mag_abs(rhs);
        match self {
            Signed::Positive(lhs) => {
                let v = mag_saturating_mul(lhs, m);
                if rhs > 0 { Signed::Positive(v) } else { Signed::Negative(v) }
            },
            Signed::Negative(lhs) => {
                let v = mag_saturating_mul(lhs, m);
                if rhs > 0 { Signed::Negative(v) } else { Signed::Positive(v) }
            },
        }
    }

    /// Returns `self * rhs` with the sign of `self` and its magnitude
    /// capped to the largest magnitude.
    pub fn saturating_mul_unsigned(self, rhs: u32) -> (r: Self)
        ensures
            has_sign_mag(
                r,
                self.spec_is_positive(),
                min_int(self.spec_abs().uval() * rhs, <Percent as UnsignedValue>::umax()),
            ),
    {
        match self {
            Signed::Positive(lhs) => Signed::Positive(mag_saturating_mul(lhs, rhs)),
            Signed::Negative(lhs) => Signed::Negative(mag_saturating_mul(lhs, rhs)),
        }
    }
}

impl core::ops::Div<i32> for Signed<Percent> {
    type Output = Signed<Percent>;

    fn div(self, rhs: i32) -> (r: Signed<Percent>) {
        let r = self.checked_div(rhs).unwrap();
        proof {
            lemma_signed_from_unique(r, self.spec_is_positive() == (rhs > 0));
        }
        r
    }
}

impl vstd::std_specs::ops::DivSpecImpl<i32> for Signed<Percent> {
    open spec fn obeys_div_spec() -> bool {
        true
    }

    open spec fn div_req(self, rhs: i32) -> bool {
        rhs != 0 && rhs != i32::MIN
    }

    open spec fn div_spec(self, rhs: i32) -> Signed<Percent> {
        signed_from(self.spec_is_positive() == (rhs > 0), self.spec_abs().uval() / abs_int(rhs as int))
    }
}

impl core::ops::Div<u32> for Signed<Percent> {
    type Output = Signed<Percent>;

    fn div(self, rhs: u32) -> (r: Signed<Percent>) {
        let r = self.checked_div_unsigned(rhs).unwrap();
        proof {
            lemma_signed_from_unique(r, self.spec_is_positive());
        }
        r
    }
}

impl vstd::std_specs::ops::DivSpecImpl<u32> for Signed<Percent> {
    open spec fn obeys_div_spec() -> bool {
        true
    }

    open spec fn div_req(self, rhs: u32) -> bool {
        rhs != 0
    }

    open spec fn div_spec(self, rhs: u32) -> Signed<Percent> {
        signed_from(self.spec_is_positive(), self.spec_abs().uval() / (rhs as int))
    }
}

impl core::ops::Rem<i32> for Signed<Percent> {
    type Output = Signed<Percent>;

    fn rem(self, rhs: i32) -> (r: Signed<Percent>) {
        let r = self.checked_rem(rhs).unwrap();
        proof {
            lemma_signed_from_unique(r, self.spec_is_positive());
        }
        r
    }
}

impl vstd::std_specs::ops::RemSpecImpl<i32> for Signed<Percent> {
    open spec fn obeys_rem_spec() -> bool {
        true
    }

    open spec fn rem_req(self, rhs: i32) -> bool {
        rhs != 0 && rhs != i32::MIN
    }

    open spec fn rem_spec(self, rhs: i32) -> Signed<Percent> {
        signed_from(self.spec_is_positive(), self.spec_abs().uval() % abs_int(rhs as int))
    }
}

impl core::ops::Rem<u32> for Signed<Percent> {
    type Output = Signed<Percent>;

    fn rem(self, rhs: u32) -> (r: Signed<Percent>) {
        let r = self.checked_rem_unsigned(rhs).unwrap();
        proof {
            lemma_signed_from_unique(r, self.spec_is_positive());
        }
        r
    }
}

impl vstd::std_specs::ops::RemSpecImpl<u32> for Signed<Percent> {
    open spec fn obeys_rem_spec() -> bool {
        true
    }

    open spec fn rem_req(self, rhs: u32) -> bool {
        rhs != 0
    }

    open spec fn rem_spec(self, rhs: u32) -> Signed<Percent> {
        signed_from(self.spec_is_positive(), self.spec_abs().uval() % (rhs as int))
    }
}

impl core::ops::Mul<i32> for Signed<Percent> {
    type Output = Signed<Percent>;

    fn mul(self, rhs: i32) -> (r: Signed<Percent>) {
        let r = self.checked_mul(rhs).unwrap();
        proof {
            lemma_signed_from_unique(r, self.spec_is_positive() == (rhs > 0));
        }
        r
    }
}

impl vstd::std_specs::ops::MulSpecImpl<i32> for Signed<Percent> {
    open spec fn obeys_mul_spec() -> bool {
        true
    }

    open spec fn mul_req(self, rhs: i32) -> bool {
        rhs != i32::MIN && self.spec_abs().uval() * abs_int(rhs as int) <= <Percent as UnsignedValue>::umax()
    }

    open spec fn mul_spec(self, rhs: i32) -> Signed<Percent> {
        signed_from(self.spec_is_positive() == (rhs > 0), self.spec_abs().uval() * abs_int(rhs as int))
    }
}

impl core::ops::Mul<u32> for Signed<Percent> {
    type Output = Signed<Percent>;

    fn mul(self, rhs: u32) -> (r: Signed<Percent>) {
        let r = self.checked_mul_unsigned(rhs).unwrap();
        proof {
            lemma_signed_from_unique(r, self.spec_is_positive());
        }
        r
    }
}

impl vstd::std_specs::ops::MulSpecImpl<u32> for Signed<Percent> {
    open spec fn obeys_mul_spec() -> bool {
        true
    }

    open spec fn mul_req(self, rhs: u32) -> bool {
        self.spec_abs().uval() * rhs <= <Percent as UnsignedValue>::umax()
    }

    open spec fn mul_spec(self, rhs: u32) -> Signed<Percent> {
        signed_from(self.spec_is_positive(), self.spec_abs().uval() * rhs)
    }
}

impl core::ops::Add<Signed<Percent>> for Percent {
    type Output = Signed<Percent>;

    fn add(self, rhs: Signed<Percent>) -> (r: Signed<Percent>) {
        Signed::Positive(self) + rhs
    }
}

impl vstd::std_specs::ops::AddSpecImpl<Signed<Percent>> for Percent {
    open spec fn obeys_add_spec() -> bool {
        true
    }

    open spec fn add_req(self, rhs: Signed<Percent>) -> bool {
        abs_int(self.uval() + sval(rhs)) <= <Percent as UnsignedValue>::umax()
    }

    open spec fn add_spec(self, rhs: Signed<Percent>) -> Signed<Percent> {
        signed_sum(Signed::Positive(self), rhs)
    }
}

impl core::ops::Sub<Signed<Percent>> for Percent {
    type Output = Signed<Percent>;

    fn sub(self, rhs: Signed<Percent>) -> (r: Signed<Percent>) {
        Signed::Positive(self) - rhs
    }
}

impl vstd::std_specs::ops::SubSpecImpl<Signed<Percent>> for Percent {
    open spec fn obeys_sub_spec() -> bool {
        true
    }

    open spec fn sub_req(self, rhs: Signed<Percent>) -> bool {
        abs_int(self.uval() - sval(rhs)) <= <Percent as UnsignedValue>::umax()
    }

    open spec fn sub_spec(self, rhs: Signed<Percent>) -> Signed<Percent> {
        signed_difference(Signed::Positive(self), rhs)
    }
}

/// A signed value is determined by its sign and magnitude.
proof fn lemma_signed_from_unique(r: Signed<Percent>, positive: bool)
    requires
        r.spec_is_positive() == positive,
    ensures
        r == signed_from(positive, r.spec_abs().uval()),
{
    Percent::lemma_from_value_of(r.spec_abs());
}

impl PartialEq<Signed<Percent>> for Percent {
    fn eq(&self, other: &Signed<Percent>) -> (r: bool) {
        *other == *self
    }
}

impl PartialEqSpecImpl<Signed<Percent>> for Percent {
    open spec fn obeys_eq_spec() -> bool {
        true
    }

    open spec fn eq_spec(&self, other: &Signed<Percent>) -> bool {
        Signed::Positive(*self) == *other
    }
}

impl PartialOrd<Signed<Percent>> for Percent {
    fn partial_cmp(&self, other: &Signed<Percent>) -> (r: Option<Ordering>) {
        Some(compare_signed(&Signed::Positive(*self), other))
    }
}

impl PartialOrdSpecImpl<Signed<Percent>> for Percent {
    open spec fn obeys_partial_cmp_spec() -> bool {
        true
    }

    open spec fn partial_cmp_spec(&self, other: &Signed<Percent>) -> Option<Ordering> {
        Some(signed_order(Signed::Positive(*self), *other))
    }
}
impl core::ops::Mul<Signed<Percent>> for i32 {
    type Output = Signed<Percent>;

    fn mul(self, rhs: Signed<Percent>) -> (r: Signed<Percent>) {
        rhs * self
    }
}

impl vstd::std_specs::ops::MulSpecImpl<Signed<Percent>> for i32 {
    open spec fn obeys_mul_spec() -> bool {
        true
    }

    open spec fn mul_req(self, rhs: Signed<Percent>) -> bool {
        self != i32::MIN && rhs.spec_abs().uval() * abs_int(self as int) <= <Percent as UnsignedValue>::umax()
    }

    open spec fn mul_spec(self, rhs: Signed<Percent>) -> Signed<Percent> {
        signed_from(rhs.spec_is_positive() == (self > 0), rhs.spec_abs().uval() * abs_int(self as int))
    }
}

impl core::ops::Mul<Signed<Percent>> for u32 {
    type Output = Signed<Percent>;

    fn mul(self, rhs: Signed<Percent>) -> (r: Signed<Percent>) {
        rhs * self
    }
}

impl vstd::std_specs::ops::MulSpecImpl<Signed<Percent>> for u32 {
    open spec fn obeys_mul_spec() -> bool {
        true
    }

    open spec fn mul_req(self, rhs: Signed<Percent>) -> bool {
        rhs.spec_abs().uval() * self <= <Percent as UnsignedValue>::umax()
    }

    open spec fn mul_spec(self, rhs: Signed<Percent>) -> Signed<Percent> {
        signed_from(rhs.spec_is_positive(), rhs.spec_abs().uval() * self)
    }
}

impl core::ops::Div for Signed<Percent> {
    type Output = Signed<u32>;

    fn div(self, rhs: Signed<Percent>) -> (r: Signed<u32>) {
        self.into_inner_signed() / rhs.into_inner_signed()
    }
}

impl vstd::std_specs::ops::DivSpecImpl for Signed<Percent> {
    open spec fn obeys_div_spec() -> bool {
        true
    }

    open spec fn div_req(self, rhs: Signed<Percent>) -> bool {
        rhs.spec_abs().uval() != 0
    }

    open spec fn div_spec(self, rhs: Signed<Percent>) -> Signed<u32> {
        if self.spec_is_positive() == rhs.spec_is_positive() {
            Signed::Positive((self.spec_abs().uval() / rhs.spec_abs().uval()) as u32)
        } else {
            Signed::Negative((self.spec_abs().uval() / rhs.spec_abs().uval()) as u32)
        }
    }
}

impl core::ops::Rem for Signed<Percent> {
    type Output = Signed<Percent>;

    fn rem(self, rhs: Signed<Percent>) -> (r: Signed<Percent>) {
        self % rhs.abs().get()
    }
}

impl vstd::std_specs::ops::RemSpecImpl for Signed<Percent> {
    open spec fn obeys_rem_spec() -> bool {
        true
    }

    open spec fn rem_req(self, rhs: Signed<Percent>) -> bool {
        rhs.spec_abs().uval() != 0
    }

    open spec fn rem_spec(self, rhs: Signed<Percent>) -> Signed<Percent> {
        signed_from(self.spec_is_positive(), self.spec_abs().uval() % rhs.spec_abs().uval())
    }
}

/// The sign of `num / denom` times a value of sign `positive`: positive
/// exactly when the product of the signs is positive (a zero factor gives a
/// negative result).
pub open spec fn scaled_positive(positive: bool, num: int, denom: int) -> bool {
    let s = sgn(num) * sgn(denom);
    if positive {
        s > 0
    } else {
        -s > 0
    }
}

/// The sign of an integer: `1`, `0` or `-1`.
pub open spec fn sgn(x: int) -> int {
    if x > 0 {
        1
    } else if x < 0 {
        -1
    } else {
        0
    }
}

/// The signed value of sign `positive` and magnitude `m`, or `None` if `m`
/// is not a magnitude.
pub open spec fn signed_fit(positive: bool, m: Option<u32>) -> Option<Signed<Percent>> {
    match m {
        Some(v) => if v <= <Percent as UnsignedValue>::umax() {
            Some(signed_from(positive, v as int))
        } else {
            None
        },
        None => None,
    }
}

/// Returns the magnitude of `x` as an integer.
fn mag_get(x: Percent) -> (r: u32)
    ensures
        r == x.uval(),
{
    x.get()
}

/// Returns the signed value of sign `positive` and magnitude `v`, or `None`
/// if `v` is not a magnitude.
fn signed_from_inner(v: u32, positive: bool) -> (r: Option<Signed<Percent>>)
    ensures
        r == signed_fit(positive, Some(v)),
{
    match Percent::try_from_u32(v).ok() {
        Some(m) => {
            let r = if positive {
                Signed::Positive(m)
            } else {
                Signed::Negative(m)
            };
            proof {
                lemma_signed_from_unique(r, positive);
            }
            Some(r)
        },
        None => None,
    }
}

/// Returns the sign of `x`: `1`, `0` or `-1`.
fn signum_of(x: i32) -> (r: i32)
    ensures
        r == sgn(x as int),
{
    if x > 0 {
        1
    } else if x < 0 {
        -1
    } else {
        0
    }
}

impl MulDiv<i32> for Signed<Percent> {
    open spec fn mul_div_req(self, num: i32, denom: i32) -> bool {
        denom != 0 && num != i32::MIN && denom != i32::MIN
    }

    open spec fn spec_mul_div_floor(self, num: i32, denom: i32) -> Option<Self> {
        signed_fit(
            scaled_positive(self.spec_is_positive(), num as int, denom as int),
            fit_u32(mul_div_floor_spec(self.spec_abs().uval(), abs_int(num as int), abs_int(denom as int))),
        )
    }

    open spec fn spec_mul_div_round(self, num: i32, denom: i32) -> Option<Self> {
        signed_fit(
            scaled_positive(self.spec_is_positive(), num as int, denom as int),
            fit_u32(mul_div_round_spec(self.spec_abs().uval(), abs_int(num as int), abs_int(denom as int))),
        )
    }

    open spec fn spec_mul_div_ceil(self, num: i32, denom: i32) -> Option<Self> {
        signed_fit(
            scaled_positive(self.spec_is_positive(), num as int, denom as int),
            fit_u32(mul_div_ceil_spec(self.spec_abs().uval(), abs_int(num as int), abs_int(denom as int))),
        )
    }

    fn mul_div_floor(self, num: i32, denom: i32) -> (r: Option<Self>) {
        let positive = if self.is_positive() {
            signum_of(num) * signum_of(denom) > 0
        } else {
            -(signum_of(num) * signum_of(denom)) > 0
        };
        match mul_div_floor_u32(mag_get(self.abs()), mag_abs(num), mag_abs(denom)) {
            Some(v) => signed_from_inner(v, positive),
            None => None,
        }
    }

    fn mul_div_round(self, num: i32, denom: i32) -> (r: Option<Self>) {
        let positive = if self.is_positive() {
            signum_of(num) * signum_of(denom) > 0
        } else {
            -(signum_of(num) * signum_of(denom)) > 0
        };
        match mul_div_round_u32(mag_get(self.abs()), mag_abs(num), mag_abs(denom)) {
            Some(v) => signed_from_inner(v, positive),
            None => None,
        }
    }

    fn mul_div_ceil(self, num: i32, denom: i32) -> (r: Option<Self>) {
        let positive = if self.is_positive() {
            signum_of(num) * signum_of(denom) > 0
        } else {
            -(signum_of(num) * signum_of(denom)) > 0
        };
        match mul_div_ceil_u32(mag_get(self.abs()), mag_abs(num), mag_abs(denom)) {
            Some(v) => signed_from_inner(v, positive),
            None => None,
        }
    }
}

impl MulDiv<u32> for Signed<Percent> {
    open spec fn mul_div_req(self, num: u32, denom: u32) -> bool {
        denom != 0
    }

    open spec fn spec_mul_div_floor(self, num: u32, denom: u32) -> Option<Self> {
        signed_fit(
            self.spec_is_positive(),
            fit_u32(mul_div_floor_spec(self.spec_abs().uval(), num as int, denom as int)),
        )
    }

    open spec fn spec_mul_div_round(self, num: u32, denom: u32) -> Option<Self> {
        signed_fit(
            self.spec_is_positive(),
            fit_u32(mul_div_round_spec(self.spec_abs().uval(), num as int, denom as int)),
        )
    }

    open spec fn spec_mul_div_ceil(self, num: u32, denom: u32) -> Option<Self> {
        signed_fit(
            self.spec_is_positive(),
            fit_u32(mul_div_ceil_spec(self.spec_abs().uval(), num as int, denom as int)),
        )
    }

    fn mul_div_floor(self, num: u32, denom: u32) -> (r: Option<Self>) {
        match mul_div_floor_u32(mag_get(self.abs()), num, denom) {
            Some(v) => signed_from_inner(v, self.is_positive()),
            None => None,
        }
    }

    fn mul_div_round(self, num: u32, denom: u32) -> (r: Option<Self>) {
        match mul_div_round_u32(mag_get(self.abs()), num, denom) {
            Some(v) => signed_from_inner(v, self.is_positive()),
            None => None,
        }
    }

    fn mul_div_ceil(self, num: u32, denom: u32) -> (r: Option<Self>) {
        match mul_div_ceil_u32(mag_get(self.abs()), num, denom) {
            Some(v) => signed_from_inner(v, self.is_positive()),
            None => None,
        }
    }
}

/// Builds `Percent` formatted values from integers.
pub trait PercentFormatIntegerConstructor: Sized {
    /// The value of the integer.
    spec fn quantity(self) -> int;

    /// Builds a `Percent` value of `self` percent, at most 100.
    fn percent(self) -> (r: Percent)
        requires
            self.quantity() <= 100,
        ensures
            r.value() == self.quantity() * PERCENT_SCALE,
    ;

    /// Builds a `Percent` value of `self` parts per million, at most a
    /// million.
    fn ppm(self) -> (r: Percent)
        requires
            self.quantity() <= PERCENT_MAX,
        ensures
            r.value() == self.quantity(),
    ;
}

impl PercentFormatIntegerConstructor for u32 {
    open spec fn quantity(self) -> int {
        self as int
    }

    fn percent(self) -> (r: Percent) {
        Percent::from_percent(self)
    }

    fn ppm(self) -> (r: Percent) {
        Percent::from_ppm(self)
    }
}

/// `s` without its trailing `0` characters.
pub open spec fn trim_trailing_zeros(s: Seq<char>) -> Seq<char>
    decreases s.len(),
{
    if s.len() > 0 && s.last() == '0' {
        trim_trailing_zeros(s.drop_last())
    } else {
        s
    }
}

/// The number of percents held by `ppm` parts per million, in decimal
/// without trailing zeros: `12.34`, `42`, `0.0001`.
pub open spec fn percent_number_text(ppm: nat) -> Seq<char> {
    let whole = ppm / PERCENT_SCALE as nat;
    let frac = ppm % PERCENT_SCALE as nat;
    decimal(whole) + (if frac != 0 {
        seq!['.'] + trim_trailing_zeros(zero_padded_decimal(frac, 4))
    } else {
        Seq::empty()
    })
}

/// Appends `s` without its trailing `0` characters to `out`.
fn push_trimmed(out: &mut Vec<char>, s: &Vec<char>)
    ensures
        final(out)@ == old(out)@ + trim_trailing_zeros(s@),
{
    let mut n: usize = s.len();
    proof {
        assert(s@.take(n as int) =~= s@);
    }
    while n > 0 && s[n - 1] == '0'
        invariant
            n <= s@.len(),
            trim_trailing_zeros(s@) == trim_trailing_zeros(s@.take(n as int)),
        decreases n,
    {
        proof {
            assert(s@.take(n as int).drop_last() =~= s@.take(n as int - 1));
        }
        n = n - 1;
    }
    proof {
        assert(s@.take(n as int).len() == 0 || s@.take(n as int).last() != '0');
        assert(trim_trailing_zeros(s@.take(n as int)) == s@.take(n as int));
    }
    let mut i: usize = 0;
    while i < n
        invariant
            i <= n,
            n <= s@.len(),
            out@ == old(out)@ + s@.take(i as int),
        decreases n - i,
    {
        out.push(s[i]);
        i = i + 1;
        proof {
            assert(out@ =~= old(out)@ + s@.take(i as int));
        }
    }
}

impl DisplayText for Percent {
    open spec fn spec_opt_text(v: Option<Percent>) -> Seq<char> {
        match v {
            Some(x) => percent_number_text(x.value() as nat) + " %"@,
            None => "undef. %"@,
        }
    }

    fn push_opt_text(v: Option<Percent>, out: &mut Vec<char>) {
        match v {
            Some(x) => {
                let p = x.get();
                push_decimal(out, (p / PERCENT_SCALE) as u64);
                let frac = p % PERCENT_SCALE;
                if frac != 0 {
                    out.push('.');
                    let mut digits: Vec<char> = Vec::new();
                    push_zero_padded(&mut digits, frac as u64, 4);
                    push_trimmed(out, &digits);
                }
                push_str(out, " %");
            },
            None => {
                push_str(out, "undef. %");
            },
        }
        proof {
            assert(final(out)@ =~= old(out)@ + <Percent as DisplayText>::spec_opt_text(v));
        }
    }
}

impl Percent {
    /// Returns the display of the percentage with the fewest digits, such
    /// as `12.34 %`.
    pub fn to_string(self) -> (r: String)
        ensures
            r@ == <Percent as DisplayText>::spec_opt_text(Some(self)),
    {
        let mut out: Vec<char> = Vec::new();
        <Percent as DisplayText>::push_opt_text(Some(self), &mut out);
        chars_to_string(&out)
    }
}

/// An optional percentage prepared for display.
pub struct DisplayableOptionPercent(pub Option<Percent>);

impl DisplayableOptionPercent {
    /// Returns the display of the percentage, or `undef. %` when it is
    /// undefined.
    pub fn to_string(&self) -> (r: String)
        ensures
            r@ == <Percent as DisplayText>::spec_opt_text(self.0),
    {
        let mut out: Vec<char> = Vec::new();
        <Percent as DisplayText>::push_opt_text(self.0, &mut out);
        chars_to_string(&out)
    }
}

} // verus!
