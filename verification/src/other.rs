use vstd::prelude::*;

use crate::format_kind::Format;
use crate::muldiv_ops::{
    fit_u64, mul_div_ceil_spec, mul_div_ceil_u64, mul_div_floor_spec, mul_div_floor_u64,
    mul_div_round_spec, mul_div_round_u64,
};
use crate::quantity::{
    i64_bits_as_u64, lemma_i64_as_u64, lemma_u64_as_i64, u64_bits_as_i64, wrapped_product,
    MAX_QUANTITY, QUANTITY_NONE,
};
use crate::signed::{min_int, Signed, SignedIntrinsic, UnsignedValue};
use crate::traits::{
    FormattedValue, FormattedValueFullRange, FormattedValueIntrinsic, FormattedValueNoneBuilder,
    NoneError, SpecificFormattedValue, UnsignedIntoSigned,
};
use core::cmp::Ordering;
use crate::generic::{generic_format, GenericFormattedValue};
use crate::traits::{CompatibleFormattedValue, FormattedValueError};
use crate::muldiv_ops::MulDiv;
use crate::signed_cmp::{compare_signed, signed_order};
use vstd::std_specs::cmp::{PartialEqSpecImpl, PartialOrdSpecImpl};
use crate::signed_ops::{abs_int, signed_difference, signed_sum, sval};
use crate::display::{push_undefined, DisplayText};
use crate::format_kind::format_text;
use crate::text::{chars_to_string, decimal, push_decimal, push_str, push_zero_padded, zero_padded_decimal};

verus! {

/// A quantity in a format unknown to these bindings.
///
/// All `u64` values can be used except `u64::MAX`, which is reserved for
/// `None` in C.
#[derive(PartialEq, Eq, Structural, PartialOrd, Ord, Hash, Clone, Copy, Debug, Default)]
pub struct Other(u64);

impl Other {
    #[verifier::type_invariant]
    spec fn inv(self) -> bool {
        self.0 != QUANTITY_NONE
    }

    /// The quantity held by `self`.
    pub closed spec fn value(self) -> int {
        self.0 as int
    }

    /// The value holding the quantity `n`.
    pub closed spec fn from_value(n: int) -> Self {
        Other(n as u64)
    }

    /// `from_value` builds a value holding the given quantity.
    pub broadcast proof fn lemma_from_value(n: int)
        requires
            0 <= n <= MAX_QUANTITY,
        ensures
            #[trigger] Self::from_value(n).value() == n,
    {
    }

    /// A value is rebuilt from its quantity.
    pub broadcast proof fn lemma_from_value_of(x: Self)
        ensures
            #[trigger] Self::from_value(x.value()) == x,
    {
    }

    /// Values holding the same quantity are equal.
    pub proof fn lemma_value_injective(a: Self, b: Self)
        requires
            a.value() == b.value(),
        ensures
            a == b,
    {
    }

    /// The value holding the quantity of an optional raw result.
    pub open spec fn lift_raw(o: Option<u64>) -> Option<Self> {
        match o {
            Some(v) => Some(Self::from_value(v as int)),
            None => None,
        }
    }

    /// The zero quantity.
    #[allow(non_snake_case)]
    pub fn ZERO() -> (r: Self)
        ensures
            r.value() == 0,
    {
        Other(0)
    }

    /// The unit quantity.
    #[allow(non_snake_case)]
    pub fn ONE() -> (r: Self)
        ensures
            r.value() == 1,
    {
        Other(1)
    }

    /// The largest quantity, one less than the C `None` value.
    #[allow(non_snake_case)]
    pub fn MAX() -> (r: Self)
        ensures
            r.value() == MAX_QUANTITY,
    {
        Other(MAX_QUANTITY)
    }

    /// The undefined quantity.
    #[allow(non_snake_case)]
    pub fn NONE() -> (r: Option<Self>)
        ensures
            r is None,
    {
        None
    }

    /// The largest signed quantity.
    #[allow(non_snake_case)]
    pub fn MAX_SIGNED() -> (r: Signed<Self>)
        ensures
            r == Signed::Positive(Self::from_value(MAX_QUANTITY as int)),
            r.spec_abs().value() == MAX_QUANTITY,
    {
        Signed::Positive(Self::MAX())
    }

    /// The smallest signed quantity.
    #[allow(non_snake_case)]
    pub fn MIN_SIGNED() -> (r: Signed<Self>)
        ensures
            r == Signed::Negative(Self::from_value(MAX_QUANTITY as int)),
            r.spec_abs().value() == MAX_QUANTITY,
    {
        Signed::Negative(Self::MAX())
    }

    /// Builds a new value with the provided quantity.
    ///
    /// The quantity `u64::MAX` is reserved for `None` in C and is refused.
    pub fn from_u64(quantity: u64) -> (r: Self)
        requires
            quantity != QUANTITY_NONE,
        ensures
            r.value() == quantity,
    {
        Other(quantity)
    }

    /// Builds a new value with the provided quantity.
    ///
    /// The quantity `u64::MAX` is reserved for `None` in C and is refused.
    pub fn from_usize(quantity: usize) -> (r: Self)
        requires
            quantity as u64 != QUANTITY_NONE,
        ensures
            r.value() == quantity,
    {
        Self::from_u64(quantity as u64)
    }

    /// Returns the quantity as a `u64`.
    pub fn get(self) -> (r: u64)
        ensures
            r == self.value(),
            r <= MAX_QUANTITY,
    {
        proof {
            use_type_invariant(&self);
        }
        self.0
    }

    /// Returns `true` if the quantity is zero.
    pub fn is_zero(self) -> (r: bool)
        ensures
            r == (self.value() == 0),
    {
        self.0 == 0
    }

    /// Returns `self + rhs`, or `None` if the sum exceeds [`Self::MAX`].
    pub fn checked_add(self, rhs: Self) -> (r: Option<Self>)
        ensures
            r is None <==> self.value() + rhs.value() > MAX_QUANTITY,
            r matches Some(v) ==> v.value() == self.value() + rhs.value(),
    {
        proof {
            use_type_invariant(&self);
            use_type_invariant(&rhs);
        }
        if self.0 <= MAX_QUANTITY - rhs.0 {
            Some(Other(self.0 + rhs.0))
        } else {
            None
        }
    }

    /// Returns `self + rhs`, capped to [`Self::MAX`].
    pub fn saturating_add(self, rhs: Self) -> (r: Self)
        ensures
            r.value() == min_int(self.value() + rhs.value(), MAX_QUANTITY as int),
    {
        proof {
            use_type_invariant(&self);
            use_type_invariant(&rhs);
        }
        if self.0 <= MAX_QUANTITY - rhs.0 {
            Other(self.0 + rhs.0)
        } else {
            Self::MAX()
        }
    }

    /// Returns `self + rhs` wrapped around `MAX + 1`, with a flag telling
    /// whether it wrapped.
    pub fn overflowing_add(self, rhs: Self) -> (r: (Self, bool))
        ensures
            r.1 == (self.value() + rhs.value() > MAX_QUANTITY),
            r.0.value() == (if r.1 {
                self.value() + rhs.value() - MAX_QUANTITY - 1
            } else {
                self.value() + rhs.value()
            }),
    {
        proof {
            use_type_invariant(&self);
            use_type_invariant(&rhs);
        }
        if self.0 <= MAX_QUANTITY - rhs.0 {
            (Other(self.0 + rhs.0), false)
        } else {
            (Other(self.0 - (MAX_QUANTITY - rhs.0) - 1), true)
        }
    }

    /// Returns `self + rhs` wrapped around `MAX + 1`.
    pub fn wrapping_add(self, rhs: Self) -> (r: Self)
        ensures
            r.value() == (self.value() + rhs.value()) % (MAX_QUANTITY as int + 1),
    {
        proof {
            use_type_invariant(&self);
            use_type_invariant(&rhs);
        }
        let r = self.overflowing_add(rhs).0;
        proof {
            let s = self.value() + rhs.value();
            let m = MAX_QUANTITY as int + 1;
            if s > MAX_QUANTITY {
                vstd::arithmetic::div_mod::lemma_fundamental_div_mod_converse(s, m, 1, s - m);
            } else {
                vstd::arithmetic::div_mod::lemma_small_mod(s as nat, m as nat);
            }
        }
        r
    }

    /// Returns `self - rhs`, or `None` if `rhs` is larger than `self`.
    pub fn checked_sub(self, rhs: Self) -> (r: Option<Self>)
        ensures
            r is None <==> self.value() < rhs.value(),
            r matches Some(v) ==> v.value() == self.value() - rhs.value(),
    {
        proof {
            use_type_invariant(&self);
            use_type_invariant(&rhs);
        }
        if self.0 >= rhs.0 {
            Some(Other(self.0 - rhs.0))
        } else {
            None
        }
    }

    /// Returns `self - rhs`, or zero if `rhs` is larger than `self`.
    pub fn saturating_sub(self, rhs: Self) -> (r: Self)
        ensures
            r.value() == (if self.value() >= rhs.value() {
                self.value() - rhs.value()
            } else {
                0
            }),
    {
        proof {
            use_type_invariant(&self);
            use_type_invariant(&rhs);
        }
        if self.0 >= rhs.0 {
            Other(self.0 - rhs.0)
        } else {
            Other(0)
        }
    }

    /// Returns `self - rhs` wrapped around `MAX + 1`, with a flag telling
    /// whether it wrapped.
    pub fn overflowing_sub(self, rhs: Self) -> (r: (Self, bool))
        ensures
            r.1 == (self.value() < rhs.value()),
            r.0.value() == (if r.1 {
                MAX_QUANTITY - rhs.value() + self.value() + 1
            } else {
                self.value() - rhs.value()
            }),
    {
        proof {
            use_type_invariant(&self);
            use_type_invariant(&rhs);
        }
        if self.0 >= rhs.0 {
            (Other(self.0 - rhs.0), false)
        } else {
            (Other(MAX_QUANTITY - rhs.0 + self.0 + 1), true)
        }
    }

    /// Returns `self - rhs` wrapped around `MAX + 1`.
    pub fn wrapping_sub(self, rhs: Self) -> (r: Self)
        ensures
            r.value() == (self.value() - rhs.value()) % (MAX_QUANTITY as int + 1),
    {
        proof {
            use_type_invariant(&self);
            use_type_invariant(&rhs);
        }
        let r = self.overflowing_sub(rhs).0;
        proof {
            let d = self.value() - rhs.value();
            let m = MAX_QUANTITY as int + 1;
            if d < 0 {
                vstd::arithmetic::div_mod::lemma_fundamental_div_mod_converse(d, m, -1, d + m);
            } else {
                vstd::arithmetic::div_mod::lemma_small_mod(d as nat, m as nat);
            }
        }
        r
    }

    /// Returns `self / rhs`, or `None` if `rhs` is zero.
    pub fn checked_div(self, rhs: u64) -> (r: Option<Self>)
        ensures
            r is None <==> rhs == 0,
            r matches Some(v) ==> v.value() == self.value() / (rhs as int),
    {
        proof {
            use_type_invariant(&self);
        }
        if rhs == 0 {
            None
        } else {
            Some(Other(self.0 / rhs))
        }
    }

    /// Returns `self / rhs`; `rhs` must not be zero.
    pub fn saturating_div(self, rhs: u64) -> (r: Self)
        requires
            rhs != 0,
        ensures
            r.value() == self.value() / (rhs as int),
    {
        proof {
            use_type_invariant(&self);
        }
        Other(self.0 / rhs)
    }

    /// Returns `self * rhs`, or `None` if the product exceeds [`Self::MAX`].
    pub fn checked_mul(self, rhs: u64) -> (r: Option<Self>)
        ensures
            r is None <==> self.value() * rhs > MAX_QUANTITY,
            r matches Some(v) ==> v.value() == self.value() * rhs,
    {
        proof {
            use_type_invariant(&self);
        }
        if rhs == 0 || self.0 <= MAX_QUANTITY / rhs {
            proof {
                if rhs != 0 {
                    vstd::arithmetic::mul::lemma_mul_inequality(self.0 as int, (MAX_QUANTITY / rhs) as int, rhs as int);
                    vstd::arithmetic::div_mod::lemma_fundamental_div_mod(MAX_QUANTITY as int, rhs as int);
                }
            }
            Some(Other(self.0 * rhs))
        } else {
            proof {
                vstd::arithmetic::div_mod::lemma_fundamental_div_mod(MAX_QUANTITY as int, rhs as int);
                vstd::arithmetic::mul::lemma_mul_inequality((MAX_QUANTITY / rhs) as int + 1, self.0 as int, rhs as int);
                vstd::arithmetic::mul::lemma_mul_is_distributive_add_other_way(rhs as int, (MAX_QUANTITY / rhs) as int, 1);
            }
            None
        }
    }

    /// Returns `self * rhs`, capped to [`Self::MAX`].
    pub fn saturating_mul(self, rhs: u64) -> (r: Self)
        ensures
            r.value() == min_int(self.value() * rhs, MAX_QUANTITY as int),
    {
        match self.checked_mul(rhs) {
            Some(v) => v,
            None => Self::MAX(),
        }
    }

    /// Returns `self * rhs` wrapped as by the C implementation: when the
    /// product exceeds [`Self::MAX`], the result is the product minus
    /// `MAX + 1`, truncated to 64 bits. The wrapped result must not be the
    /// reserved `None` value.
    pub fn overflowing_mul(self, rhs: u64) -> (r: (Self, bool))
        requires
            wrapped_product(self.value() * rhs) != QUANTITY_NONE,
        ensures
            r.1 == (self.value() * rhs > MAX_QUANTITY),
            r.0.value() == wrapped_product(self.value() * rhs),
    {
        proof {
            use_type_invariant(&self);
        }
        let a: u128 = self.0 as u128;
        let b: u128 = rhs as u128;
        proof {
            assert(a * b <= 0xffff_ffff_ffff_ffffu128 * 0xffff_ffff_ffff_ffffu128) by (nonlinear_arith)
                requires
                    a <= 0xffff_ffff_ffff_ffffu128,
                    b <= 0xffff_ffff_ffff_ffffu128,
            ;
        }
        let wide: u128 = a * b;
        if wide <= MAX_QUANTITY as u128 {
            (Other(wide as u64), false)
        } else {
            let d: u128 = wide - MAX_QUANTITY as u128 - 1;
            let w: u64 = #[verifier::truncate] (d as u64);
            proof {
                assert(w as int == d as int % 0x1_0000_0000_0000_0000) by (bit_vector)
                    requires
                        w == d as u64,
                ;
            }
            (Other(w), true)
        }
    }

    /// Returns `self * rhs` wrapped as [`Self::overflowing_mul`] does.
    pub fn wrapping_mul(self, rhs: u64) -> (r: Self)
        requires
            wrapped_product(self.value() * rhs) != QUANTITY_NONE,
        ensures
            r.value() == wrapped_product(self.value() * rhs),
    {
        self.overflowing_mul(rhs).0
    }

    /// Returns `self % rhs`, or `None` if `rhs` is zero.
    pub fn checked_rem(self, rhs: u64) -> (r: Option<Self>)
        ensures
            r is None <==> rhs == 0,
            r matches Some(v) ==> v.value() == self.value() % (rhs as int),
    {
        proof {
            use_type_invariant(&self);
        }
        if rhs == 0 {
            None
        } else {
            Some(Other(self.0 % rhs))
        }
    }

    /// The C representation of an optional value: `None` is `u64::MAX`.
    pub open spec fn spec_opt_into_glib(v: Option<Self>) -> int {
        match v {
            Some(x) => x.value(),
            None => QUANTITY_NONE as int,
        }
    }

    /// The optional value of a C representation: `u64::MAX` is `None`.
    pub open spec fn spec_opt_from_glib(val: int) -> Option<Self> {
        if val == QUANTITY_NONE {
            None
        } else {
            Some(Self::from_value(val))
        }
    }

    /// Reading back the C representation of an optional value gives the
    /// value.
    pub proof fn lemma_opt_glib_roundtrip(v: Option<Self>)
        requires
            v matches Some(x) ==> x.value() <= MAX_QUANTITY,
        ensures
            Self::spec_opt_from_glib(Self::spec_opt_into_glib(v)) == v,
    {
    }

    /// Subtracting `b` from `a + b` gives back `a`, when the sum does not
    /// overflow.
    pub proof fn lemma_add_sub_inverse(a: Self, b: Self)
        requires
            a.value() + b.value() <= MAX_QUANTITY,
        ensures
            Self::from_value(a.value() + b.value()).value() >= b.value(),
            Self::from_value(Self::from_value(a.value() + b.value()).value() - b.value()) == a,
    {
    }

    /// Wrapping subtraction undoes wrapping addition.
    pub proof fn lemma_wrapping_add_sub_inverse(a: Self, b: Self)
        requires
            a.value() <= MAX_QUANTITY,
            b.value() <= MAX_QUANTITY,
        ensures
            ((a.value() + b.value()) % (MAX_QUANTITY as int + 1) - b.value()) % (
            MAX_QUANTITY as int + 1) == a.value(),
    {
        let m = MAX_QUANTITY as int + 1;
        let s = a.value() + b.value();
        if s >= m {
            vstd::arithmetic::div_mod::lemma_fundamental_div_mod_converse(s, m, 1, s - m);
            vstd::arithmetic::div_mod::lemma_small_mod(a.value() as nat, m as nat);
        } else {
            vstd::arithmetic::div_mod::lemma_small_mod(s as nat, m as nat);
            vstd::arithmetic::div_mod::lemma_small_mod(a.value() as nat, m as nat);
        }
    }

    /// Returns the C representation of `self`.
    pub fn into_glib(self) -> (r: u64)
        ensures
            r == self.value(),
    {
        self.0
    }

    /// Returns the C representation of an optional value: `None` maps to
    /// `u64::MAX`.
    pub fn opt_into_glib(v: Option<Self>) -> (r: u64)
        ensures
            r == Self::spec_opt_into_glib(v),
    {
        match v {
            Some(x) => x.0,
            None => QUANTITY_NONE,
        }
    }

    /// Builds a value from its C representation, refusing the `None` value
    /// `u64::MAX`.
    pub fn try_from_glib(val: u64) -> (r: Result<Self, NoneError>)
        ensures
            r is Err <==> val == QUANTITY_NONE,
            r matches Ok(v) ==> v.value() == val,
    {
        if val == QUANTITY_NONE {
            Err(NoneError)
        } else {
            Ok(Other(val))
        }
    }

    /// Builds an optional value from its C representation: `u64::MAX` maps
    /// to `None`.
    pub fn opt_from_glib(val: u64) -> (r: Option<Self>)
        ensures
            r is None <==> val == QUANTITY_NONE,
            r matches Some(v) ==> v.value() == val,
            r == Self::spec_opt_from_glib(val as int),
    {
        if val == QUANTITY_NONE {
            None
        } else {
            Some(Other(val))
        }
    }

    /// Builds a value from a signed C representation, which is read as the
    /// `u64` with the same bits.
    pub fn try_from_glib_i64(val: i64) -> (r: Result<Self, NoneError>)
        ensures
            r is Err <==> val == -1,
            r matches Ok(v) ==> v.value() == i64_bits_as_u64(val as int),
    {
        let u = val as u64;
        proof {
            lemma_i64_as_u64(val);
        }
        Self::try_from_glib(u)
    }

    /// Builds a value from a `u64`, refusing the `None` value `u64::MAX`.
    pub fn try_from_u64(v: u64) -> (r: Result<Self, NoneError>)
        ensures
            r is Err <==> v == QUANTITY_NONE,
            r matches Ok(x) ==> x.value() == v,
    {
        Self::try_from_glib(v)
    }

    /// `floor(self * num / denom)`, or `None` if it exceeds `u64::MAX`.
    /// A result of exactly `u64::MAX` (the C `None` value) is refused.
    pub fn mul_div_floor(self, num: u64, denom: u64) -> (r: Option<Self>)
        requires
            denom != 0,
            mul_div_floor_spec(self.value() as int, num as int, denom as int) != QUANTITY_NONE,
        ensures
            r == Self::lift_raw(fit_u64(mul_div_floor_spec(self.value() as int, num as int, denom as int))),
    {
        match mul_div_floor_u64(self.0, num, denom) {
            Some(v) => Some(Other(v)),
            None => None,
        }
    }

    /// `self * num / denom` rounded to the nearest integer, or `None` if it
    /// exceeds `u64::MAX`. A result of exactly `u64::MAX` is refused.
    pub fn mul_div_round(self, num: u64, denom: u64) -> (r: Option<Self>)
        requires
            denom != 0,
            mul_div_round_spec(self.value() as int, num as int, denom as int) != QUANTITY_NONE,
        ensures
            r == Self::lift_raw(fit_u64(mul_div_round_spec(self.value() as int, num as int, denom as int))),
    {
        match mul_div_round_u64(self.0, num, denom) {
            Some(v) => Some(Other(v)),
            None => None,
        }
    }

    /// `ceil(self * num / denom)`, or `None` if it exceeds `u64::MAX`.
    /// A result of exactly `u64::MAX` is refused.
    pub fn mul_div_ceil(self, num: u64, denom: u64) -> (r: Option<Self>)
        requires
            denom != 0,
            mul_div_ceil_spec(self.value() as int, num as int, denom as int) != QUANTITY_NONE,
        ensures
            r == Self::lift_raw(fit_u64(mul_div_ceil_spec(self.value() as int, num as int, denom as int))),
    {
        match mul_div_ceil_u64(self.0, num, denom) {
            Some(v) => Some(Other(v)),
            None => None,
        }
    }
}

impl UnsignedValue for Other {
    open spec fn uval(self) -> int {
        self.value()
    }

    open spec fn umax() -> int {
        MAX_QUANTITY as int
    }

    proof fn lemma_uval_injective(a: Self, b: Self) {
        Self::lemma_value_injective(a, b);
    }

    proof fn lemma_umax_positive() {
    }

    fn is_zero_value(&self) -> (r: bool) {
        proof {
            use_type_invariant(self);
        }
        self.0 == 0
    }

    fn ge_value(&self, other: &Self) -> (r: bool) {
        proof {
            use_type_invariant(self);
            use_type_invariant(other);
        }
        self.0 >= other.0
    }

    fn sub_value(self, other: Self) -> (r: Self) {
        proof {
            use_type_invariant(&self);
        }
        Other(self.0 - other.0)
    }

    fn checked_add_value(self, other: Self) -> (r: Option<Self>) {
        proof {
            use_type_invariant(&self);
            use_type_invariant(&other);
        }
        self.checked_add(other)
    }

    fn saturating_sub_value(self, other: Self) -> (r: Self) {
        proof {
            use_type_invariant(&self);
            use_type_invariant(&other);
        }
        self.saturating_sub(other)
    }

    fn overflowing_add_value(self, other: Self) -> (r: (Self, bool)) {
        proof {
            use_type_invariant(&self);
            use_type_invariant(&other);
        }
        self.overflowing_add(other)
    }

    fn overflowing_sub_value(self, other: Self) -> (r: (Self, bool)) {
        proof {
            use_type_invariant(&self);
            use_type_invariant(&other);
        }
        self.overflowing_sub(other)
    }

    fn saturating_add_value(self, other: Self) -> (r: Self) {
        proof {
            use_type_invariant(&self);
            use_type_invariant(&other);
        }
        self.saturating_add(other)
    }
}

impl core::ops::Add for Other {
    type Output = Other;

    fn add(self, rhs: Other) -> (r: Other) {
        proof {
            use_type_invariant(&self);
            use_type_invariant(&rhs);
        }
        Other(self.0 + rhs.0)
    }
}

impl vstd::std_specs::ops::AddSpecImpl for Other {
    open spec fn obeys_add_spec() -> bool {
        true
    }

    open spec fn add_req(self, rhs: Other) -> bool {
        self.value() + rhs.value() <= MAX_QUANTITY
    }

    open spec fn add_spec(self, rhs: Other) -> Other {
        Self::from_value(self.value() + rhs.value())
    }
}

impl core::ops::Sub for Other {
    type Output = Other;

    fn sub(self, rhs: Other) -> (r: Other) {
        proof {
            use_type_invariant(&self);
        }
        Other(self.0 - rhs.0)
    }
}

impl vstd::std_specs::ops::SubSpecImpl for Other {
    open spec fn obeys_sub_spec() -> bool {
        true
    }

    open spec fn sub_req(self, rhs: Other) -> bool {
        self.value() >= rhs.value()
    }

    open spec fn sub_spec(self, rhs: Other) -> Other {
        Self::from_value(self.value() - rhs.value())
    }
}

impl core::ops::Div for Other {
    type Output = u64;

    fn div(self, rhs: Other) -> (r: u64) {
        self.0 / rhs.0
    }
}

impl vstd::std_specs::ops::DivSpecImpl for Other {
    open spec fn obeys_div_spec() -> bool {
        true
    }

    open spec fn div_req(self, rhs: Other) -> bool {
        rhs.value() != 0
    }

    open spec fn div_spec(self, rhs: Other) -> u64 {
        (self.value() / rhs.value()) as u64
    }
}

impl core::ops::Rem for Other {
    type Output = Other;

    fn rem(self, rhs: Other) -> (r: Other) {
        proof {
            use_type_invariant(&self);
        }
        Other(self.0 % rhs.0)
    }
}

impl vstd::std_specs::ops::RemSpecImpl for Other {
    open spec fn obeys_rem_spec() -> bool {
        true
    }

    open spec fn rem_req(self, rhs: Other) -> bool {
        rhs.value() != 0
    }

    open spec fn rem_spec(self, rhs: Other) -> Other {
        Self::from_value(self.value() % rhs.value())
    }
}

impl core::ops::Mul<u64> for Other {
    type Output = Other;

    fn mul(self, rhs: u64) -> (r: Other) {
        Other(self.0 * rhs)
    }
}

impl vstd::std_specs::ops::MulSpecImpl<u64> for Other {
    open spec fn obeys_mul_spec() -> bool {
        true
    }

    open spec fn mul_req(self, rhs: u64) -> bool {
        self.value() * rhs <= MAX_QUANTITY
    }

    open spec fn mul_spec(self, rhs: u64) -> Other {
        Self::from_value(self.value() * rhs)
    }
}

impl core::ops::Mul<Other> for u64 {
    type Output = Other;

    fn mul(self, rhs: Other) -> (r: Other) {
        rhs * self
    }
}

impl vstd::std_specs::ops::MulSpecImpl<Other> for u64 {
    open spec fn obeys_mul_spec() -> bool {
        true
    }

    open spec fn mul_req(self, rhs: Other) -> bool {
        rhs.value() * self <= MAX_QUANTITY
    }

    open spec fn mul_spec(self, rhs: Other) -> Other {
        Other::from_value(rhs.value() * self)
    }
}

impl core::ops::Div<u64> for Other {
    type Output = Other;

    fn div(self, rhs: u64) -> (r: Other) {
        proof {
            use_type_invariant(&self);
        }
        Other(self.0 / rhs)
    }
}

impl vstd::std_specs::ops::DivSpecImpl<u64> for Other {
    open spec fn obeys_div_spec() -> bool {
        true
    }

    open spec fn div_req(self, rhs: u64) -> bool {
        rhs != 0
    }

    open spec fn div_spec(self, rhs: u64) -> Other {
        Self::from_value(self.value() / (rhs as int))
    }
}

impl core::ops::Rem<u64> for Other {
    type Output = Other;

    fn rem(self, rhs: u64) -> (r: Other) {
        proof {
            use_type_invariant(&self);
        }
        Other(self.0 % rhs)
    }
}

impl vstd::std_specs::ops::RemSpecImpl<u64> for Other {
    open spec fn obeys_rem_spec() -> bool {
        true
    }

    open spec fn rem_req(self, rhs: u64) -> bool {
        rhs != 0
    }

    open spec fn rem_spec(self, rhs: u64) -> Other {
        Self::from_value(self.value() % (rhs as int))
    }
}

impl core::ops::Deref for Other {
    type Target = u64;

    fn deref(&self) -> (r: &u64)
        ensures
            *r == self.value(),
    {
        &self.0
    }
}

impl UnsignedIntoSigned for Other {
    type Signed = Signed<Other>;

    open spec fn spec_into_positive(self) -> Signed<Other> {
        Signed::Positive(self)
    }

    open spec fn spec_into_negative(self) -> Signed<Other> {
        Signed::Negative(self)
    }

    open spec fn spec_can_sign(self) -> bool {
        true
    }

    fn into_positive(self) -> (r: Signed<Other>) {
        Signed::Positive(self)
    }

    fn into_negative(self) -> (r: Signed<Other>) {
        Signed::Negative(self)
    }
}

impl UnsignedIntoSigned for Option<Other> {
    type Signed = Option<Signed<Other>>;

    open spec fn spec_into_positive(self) -> Option<Signed<Other>> {
        match self {
            Some(v) => Some(Signed::Positive(v)),
            None => None,
        }
    }

    open spec fn spec_into_negative(self) -> Option<Signed<Other>> {
        match self {
            Some(v) => Some(Signed::Negative(v)),
            None => None,
        }
    }

    open spec fn spec_can_sign(self) -> bool {
        true
    }

    fn into_positive(self) -> (r: Option<Signed<Other>>) {
        match self {
            Some(v) => Some(Signed::Positive(v)),
            None => None,
        }
    }

    fn into_negative(self) -> (r: Option<Signed<Other>>) {
        match self {
            Some(v) => Some(Signed::Negative(v)),
            None => None,
        }
    }
}

impl Signed<Other> {
    /// Returns a `Signed` containing the inner quantity of `self`.
    pub fn into_inner_signed(self) -> (r: Signed<u64>)
        ensures
            r == (match self {
                Signed::Positive(v) => Signed::Positive(v.value() as u64),
                Signed::Negative(v) => Signed::Negative(v.value() as u64),
            }),
    {
        match self {
            Signed::Positive(v) => Signed::Positive(v.get()),
            Signed::Negative(v) => Signed::Negative(v.get()),
        }
    }
}


/// Returns `lhs / rhs` on magnitudes, or `None` if `rhs` is zero.
fn mag_checked_div(lhs: Other, rhs: u64) -> (r: Option<Other>)
    ensures
        r is None <==> rhs == 0,
        r matches Some(v) ==> v.uval() == lhs.uval() / (rhs as int),
{
    lhs.checked_div(rhs)
}

/// Returns `lhs % rhs` on magnitudes, or `None` if `rhs` is zero.
fn mag_checked_rem(lhs: Other, rhs: u64) -> (r: Option<Other>)
    ensures
        r is None <==> rhs == 0,
        r matches Some(v) ==> v.uval() == lhs.uval() % (rhs as int),
{
    lhs.checked_rem(rhs)
}

/// Returns `lhs * rhs` on magnitudes, or `None` if it exceeds the largest
/// magnitude.
fn mag_checked_mul(lhs: Other, rhs: u64) -> (r: Option<Other>)
    ensures
        r is None <==> lhs.uval() * rhs > <Other as UnsignedValue>::umax(),
        r matches Some(v) ==> v.uval() == lhs.uval() * rhs,
{
    lhs.checked_mul(rhs)
}

/// Returns `lhs * rhs` on magnitudes, capped to the largest magnitude.
fn mag_saturating_mul(lhs: Other, rhs: u64) -> (r: Other)
    ensures
        r.uval() == min_int(lhs.uval() * rhs, <Other as UnsignedValue>::umax()),
{
    match lhs.checked_mul(rhs) {
        Some(v) => v,
        None => Other::MAX(),
    }
}

/// The absolute value of a signed right hand side other than its minimum.
fn mag_abs(x: i64) -> (r: u64)
    requires
        x != i64::MIN,
    ensures
        r as int == abs_int(x as int),
{
    if x < 0 {
        (-x) as u64
    } else {
        x as u64
    }
}

/// The magnitude with the given value.
pub open spec fn mag_from(v: int) -> Other {
    Other::from_value(v)
}

/// The signed value with the given sign and magnitude.
pub open spec fn signed_from(positive: bool, v: int) -> Signed<Other> {
    if positive {
        Signed::Positive(mag_from(v))
    } else {
        Signed::Negative(mag_from(v))
    }
}

/// `s` has the given sign and magnitude.
pub open spec fn has_sign_mag(s: Signed<Other>, positive: bool, mag: int) -> bool {
    s.spec_is_positive() == positive && s.spec_abs().uval() == mag
}

impl Signed<Other> {
    /// Returns `self / rhs` with the magnitudes divided (truncating toward
    /// zero), or `None` if `rhs` is zero. The result is positive exactly
    /// when `self` is positive and `rhs > 0`, or `self` is negative and
    /// `rhs <= 0`.
    pub fn checked_div(self, rhs: i64) -> (r: Option<Self>)
        requires
            rhs != i64::MIN,
        ensures
            r is None <==> rhs == 0,
            r matches Some(v) ==> has_sign_mag(
                v,
                self.spec_is_positive() == (rhs > 0),
                self.spec_abs().uval() / abs_int(rhs as int),
            ),
    {
        let m = mag_abs(rhs);
        match self {
            Signed::Positive(lhs) => match mag_checked_div(lhs, m) {
                Some(v) => Some(if rhs > 0 { Signed::Positive(v) } else { Signed::Negative(v) }),
                None => None,
            },
            Signed::Negative(lhs) => match mag_checked_div(lhs, m) {
                Some(v) => Some(if rhs > 0 { Signed::Negative(v) } else { Signed::Positive(v) }),
                None => None,
            },
        }
    }

    /// Returns `self / rhs` with the sign of `self`, or `None` if `rhs` is
    /// zero.
    pub fn checked_div_unsigned(self, rhs: u64) -> (r: Option<Self>)
        ensures
            r is None <==> rhs == 0,
            r matches Some(v) ==> has_sign_mag(
                v,
                self.spec_is_positive(),
                self.spec_abs().uval() / (rhs as int),
            ),
    {
        match self {
            Signed::Positive(lhs) => match mag_checked_div(lhs, rhs) {
                Some(v) => Some(Signed::Positive(v)),
                None => None,
            },
            Signed::Negative(lhs) => match mag_checked_div(lhs, rhs) {
                Some(v) => Some(Signed::Negative(v)),
                None => None,
            },
        }
    }

    /// Returns the remainder of the magnitude of `self` divided by the
    /// magnitude of `rhs`, with the sign of `self`, or `None` if `rhs` is
    /// zero.
    pub fn checked_rem(self, rhs: i64) -> (r: Option<Self>)
        requires
            rhs != i64::MIN,
        ensures
            r is None <==> rhs == 0,
            r matches Some(v) ==> has_sign_mag(
                v,
                self.spec_is_positive(),
                self.spec_abs().uval() % abs_int(rhs as int),
            ),
    {
        self.checked_rem_unsigned(mag_abs(rhs))
    }

    /// Returns the remainder of the magnitude of `self` divided by `rhs`,
    /// with the sign of `self`, or `None` if `rhs` is zero.
    pub fn checked_rem_unsigned(self, rhs: u64) -> (r: Option<Self>)
        ensures
            r is None <==> rhs == 0,
            r matches Some(v) ==> has_sign_mag(
                v,
                self.spec_is_positive(),
                self.spec_abs().uval() % (rhs as int),
            ),
    {
        match self {
            Signed::Positive(lhs) => match mag_checked_rem(lhs, rhs) {
                Some(v) => Some(Signed::Positive(v)),
                None => None,
            },
            Signed::Negative(lhs) => match mag_checked_rem(lhs, rhs) {
                Some(v) => Some(Signed::Negative(v)),
                None => None,
            },
        }
    }

    /// Returns `self * rhs`, or `None` if the magnitude of the product
    /// exceeds the largest magnitude. The result is positive exactly when
    /// `self` is positive and `rhs > 0`, or `self` is negative and
    /// `rhs <= 0`.
    pub fn checked_mul(self, rhs: i64) -> (r: Option<Self>)
        requires
            rhs != i64::MIN,
        ensures
            r is None <==> self.spec_abs().uval() * abs_int(rhs as int) > <Other as UnsignedValue>::umax(),
            r matches Some(v) ==> has_sign_mag(
                v,
                self.spec_is_positive() == (rhs > 0),
                self.spec_abs().uval() * abs_int(rhs as int),
            ),
    {
        let m = mag_abs(rhs);
        match self {
            Signed::Positive(lhs) => match mag_checked_mul(lhs, m) {
                Some(v) => Some(if rhs > 0 { Signed::Positive(v) } else { Signed::Negative(v) }),
                None => None,
            },
            Signed::Negative(lhs) => match mag_checked_mul(lhs, m) {
                Some(v) => Some(if rhs > 0 { Signed::Negative(v) } else { Signed::Positive(v) }),
                None => None,
            },
        }
    }

    /// Returns `self * rhs` with the sign of `self`, or `None` if the
    /// magnitude of the product exceeds the largest magnitude.
    pub fn checked_mul_unsigned(self, rhs: u64) -> (r: Option<Self>)
        ensures
            r is None <==> self.spec_abs().uval() * rhs > <Other as UnsignedValue>::umax(),
            r matches Some(v) ==> has_sign_mag(
                v,
                self.spec_is_positive(),
                self.spec_abs().uval() * rhs,
            ),
    {
        match self {
            Signed::Positive(lhs) => match mag_checked_mul(lhs, rhs) {
                Some(v) => Some(Signed::Positive(v)),
                None => None,
            },
            Signed::Negative(lhs) => match mag_checked_mul(lhs, rhs) {
                Some(v) => Some(Signed::Negative(v)),
                None => None,
            },
        }
    }

    /// Returns `self * rhs` with its magnitude capped to the largest
    /// magnitude; the sign follows [`Self::checked_mul`].
    pub fn saturating_mul(self, rhs: i64) -> (r: Self)
        requires
            rhs != i64::MIN,
        ensures
            has_sign_mag(
                r,
                self.spec_is_positive() == (rhs > 0),
                min_int(self.spec_abs().uval() * abs_int(rhs as int), <Other as UnsignedValue>::umax()),
            ),
    {
        let m = mag_abs(rhs);
        match self {
            Signed::Positive(lhs) => {
                let v = mag_saturating_mul(lhs, m);
                if rhs > 0 { Signed::Positive(v) } else { Signed::Negative(v) }
            },
            Signed::Negative(lhs) => {
                let v = mag_saturating_mul(lhs, m);
                if rhs > 0 { Signed::Negative(v) } else { Signed::Positive(v) }
            },
        }
    }

    /// Returns `self * rhs` with the sign of `self` and its magnitude
    /// capped to the largest magnitude.
    pub fn saturating_mul_unsigned(self, rhs: u64) -> (r: Self)
        ensures
            has_sign_mag(
                r,
                self.spec_is_positive(),
                min_int(self.spec_abs().uval() * rhs, <Other as UnsignedValue>::umax()),
            ),
    {
        match self {
            Signed::Positive(lhs) => Signed::Positive(mag_saturating_mul(lhs, rhs)),
            Signed::Negative(lhs) => Signed::Negative(mag_saturating_mul(lhs, rhs)),
        }
    }
}

impl core::ops::Div<i64> for Signed<Other> {
    type Output = Signed<Other>;

    fn div(self, rhs: i64) -> (r: Signed<Other>) {
        let r = self.checked_div(rhs).unwrap();
        proof {
            lemma_signed_from_unique(r, self.spec_is_positive() == (rhs > 0));
        }
        r
    }
}

impl vstd::std_specs::ops::DivSpecImpl<i64> for Signed<Other> {
    open spec fn obeys_div_spec() -> bool {
        true
    }

    open spec fn div_req(self, rhs: i64) -> bool {
        rhs != 0 && rhs != i64::MIN
    }

    open spec fn div_spec(self, rhs: i64) -> Signed<Other> {
        signed_from(self.spec_is_positive() == (rhs > 0), self.spec_abs().uval() / abs_int(rhs as int))
    }
}

impl core::ops::Div<u64> for Signed<Other> {
    type Output = Signed<Other>;

    fn div(self, rhs: u64) -> (r: Signed<Other>) {
        let r = self.checked_div_unsigned(rhs).unwrap();
        proof {
            lemma_signed_from_unique(r, self.spec_is_positive());
        }
        r
    }
}

impl vstd::std_specs::ops::DivSpecImpl<u64> for Signed<Other> {
    open spec fn obeys_div_spec() -> bool {
        true
    }

    open spec fn div_req(self, rhs: u64) -> bool {
        rhs != 0
    }

    open spec fn div_spec(self, rhs: u64) -> Signed<Other> {
        signed_from(self.spec_is_positive(), self.spec_abs().uval() / (rhs as int))
    }
}

impl core::ops::Rem<i64> for Signed<Other> {
    type Output = Signed<Other>;

    fn rem(self, rhs: i64) -> (r: Signed<Other>) {
        let r = self.checked_rem(rhs).unwrap();
        proof {
            lemma_signed_from_unique(r, self.spec_is_positive());
        }
        r
    }
}

impl vstd::std_specs::ops::RemSpecImpl<i64> for Signed<Other> {
    open spec fn obeys_rem_spec() -> bool {
        true
    }

    open spec fn rem_req(self, rhs: i64) -> bool {
        rhs != 0 && rhs != i64::MIN
    }

    open spec fn rem_spec(self, rhs: i64) -> Signed<Other> {
        signed_from(self.spec_is_positive(), self.spec_abs().uval() % abs_int(rhs as int))
    }
}

impl core::ops::Rem<u64> for Signed<Other> {
    type Output = Signed<Other>;

    fn rem(self, rhs: u64) -> (r: Signed<Other>) {
        let r = self.checked_rem_unsigned(rhs).unwrap();
        proof {
            lemma_signed_from_unique(r, self.spec_is_positive());
        }
        r
    }
}

impl vstd::std_specs::ops::RemSpecImpl<u64> for Signed<Other> {
    open spec fn obeys_rem_spec() -> bool {
        true
    }

    open spec fn rem_req(self, rhs: u64) -> bool {
        rhs != 0
    }

    open spec fn rem_spec(self, rhs: u64) -> Signed<Other> {
        signed_from(self.spec_is_positive(), self.spec_abs().uval() % (rhs as int))
    }
}

impl core::ops::Mul<i64> for Signed<Other> {
    type Output = Signed<Other>;

    fn mul(self, rhs: i64) -> (r: Signed<Other>) {
        let r = self.checked_mul(rhs).unwrap();
        proof {
            lemma_signed_from_unique(r, self.spec_is_positive() == (rhs > 0));
        }
        r
    }
}

impl vstd::std_specs::ops::MulSpecImpl<i64> for Signed<Other> {
    open spec fn obeys_mul_spec() -> bool {
        true
    }

    open spec fn mul_req(self, rhs: i64) -> bool {
        rhs != i64::MIN && self.spec_abs().uval() * abs_int(rhs as int) <= <Other as UnsignedValue>::umax()
    }

    open spec fn mul_spec(self, rhs: i64) -> Signed<Other> {
        signed_from(self.spec_is_positive() == (rhs > 0), self.spec_abs().uval() * abs_int(rhs as int))
    }
}

impl core::ops::Mul<u64> for Signed<Other> {
    type Output = Signed<Other>;

    fn mul(self, rhs: u64) -> (r: Signed<Other>) {
        let r = self.checked_mul_unsigned(rhs).unwrap();
        proof {
            lemma_signed_from_unique(r, self.spec_is_positive());
        }
        r
    }
}

impl vstd::std_specs::ops::MulSpecImpl<u64> for Signed<Other> {
    open spec fn obeys_mul_spec() -> bool {
        true
    }

    open spec fn mul_req(self, rhs: u64) -> bool {
        self.spec_abs().uval() * rhs <= <Other as UnsignedValue>::umax()
    }

    open spec fn mul_spec(self, rhs: u64) -> Signed<Other> {
        signed_from(self.spec_is_positive(), self.spec_abs().uval() * rhs)
    }
}

impl core::ops::Add<Signed<Other>> for Other {
    type Output = Signed<Other>;

    fn add(self, rhs: Signed<Other>) -> (r: Signed<Other>) {
        Signed::Positive(self) + rhs
    }
}

impl vstd::std_specs::ops::AddSpecImpl<Signed<Other>> for Other {
    open spec fn obeys_add_spec() -> bool {
        true
    }

    open spec fn add_req(self, rhs: Signed<Other>) -> bool {
        abs_int(self.uval() + sval(rhs)) <= <Other as UnsignedValue>::umax()
    }

    open spec fn add_spec(self, rhs: Signed<Other>) -> Signed<Other> {
        signed_sum(Signed::Positive(self), rhs)
    }
}

impl core::ops::Sub<Signed<Other>> for Other {
    type Output = Signed<Other>;

    fn sub(self, rhs: Signed<Other>) -> (r: Signed<Other>) {
        Signed::Positive(self) - rhs
    }
}

impl vstd::std_specs::ops::SubSpecImpl<Signed<Other>> for Other {
    open spec fn obeys_sub_spec() -> bool {
        true
    }

    open spec fn sub_req(self, rhs: Signed<Other>) -> bool {
        abs_int(self.uval() - sval(rhs)) <= <Other as UnsignedValue>::umax()
    }

    open spec fn sub_spec(self, rhs: Signed<Other>) -> Signed<Other> {
        signed_difference(Signed::Positive(self), rhs)
    }
}

/// A signed value is determined by its sign and magnitude.
proof fn lemma_signed_from_unique(r: Signed<Other>, positive: bool)
    requires
        r.spec_is_positive() == positive,
    ensures
        r == signed_from(positive, r.spec_abs().uval()),
{
    Other::lemma_from_value_of(r.spec_abs());
}

impl PartialEq<Signed<Other>> for Other {
    fn eq(&self, other: &Signed<Other>) -> (r: bool) {
        *other == *self
    }
}

impl PartialEqSpecImpl<Signed<Other>> for Other {
    open spec fn obeys_eq_spec() -> bool {
        true
    }

    open spec fn eq_spec(&self, other: &Signed<Other>) -> bool {
        Signed::Positive(*self) == *other
    }
}

impl PartialOrd<Signed<Other>> for Other {
    fn partial_cmp(&self, other: &Signed<Other>) -> (r: Option<Ordering>) {
        Some(compare_signed(&Signed::Positive(*self), other))
    }
}

impl PartialOrdSpecImpl<Signed<Other>> for Other {
    open spec fn obeys_partial_cmp_spec() -> bool {
        true
    }

    open spec fn partial_cmp_spec(&self, other: &Signed<Other>) -> Option<Ordering> {
        Some(signed_order(Signed::Positive(*self), *other))
    }
}
impl core::ops::Mul<Signed<Other>> for i64 {
    type Output = Signed<Other>;

    fn mul(self, rhs: Signed<Other>) -> (r: Signed<Other>) {
        rhs * self
    }
}

impl vstd::std_specs::ops::MulSpecImpl<Signed<Other>> for i64 {
    open spec fn obeys_mul_spec() -> bool {
        true
    }

    open spec fn mul_req(self, rhs: Signed<Other>) -> bool {
        self != i64::MIN && rhs.spec_abs().uval() * abs_int(self as int) <= <Other as UnsignedValue>::umax()
    }

    open spec fn mul_spec(self, rhs: Signed<Other>) -> Signed<Other> {
        signed_from(rhs.spec_is_positive() == (self > 0), rhs.spec_abs().uval() * abs_int(self as int))
    }
}

impl core::ops::Mul<Signed<Other>> for u64 {
    type Output = Signed<Other>;

    fn mul(self, rhs: Signed<Other>) -> (r: Signed<Other>) {
        rhs * self
    }
}

impl vstd::std_specs::ops::MulSpecImpl<Signed<Other>> for u64 {
    open spec fn obeys_mul_spec() -> bool {
        true
    }

    open spec fn mul_req(self, rhs: Signed<Other>) -> bool {
        rhs.spec_abs().uval() * self <= <Other as UnsignedValue>::umax()
    }

    open spec fn mul_spec(self, rhs: Signed<Other>) -> Signed<Other> {
        signed_from(rhs.spec_is_positive(), rhs.spec_abs().uval() * self)
    }
}

impl core::ops::Div for Signed<Other> {
    type Output = Signed<u64>;

    fn div(self, rhs: Signed<Other>) -> (r: Signed<u64>) {
        self.into_inner_signed() / rhs.into_inner_signed()
    }
}

impl vstd::std_specs::ops::DivSpecImpl for Signed<Other> {
    open spec fn obeys_div_spec() -> bool {
        true
    }

    open spec fn div_req(self, rhs: Signed<Other>) -> bool {
        rhs.spec_abs().uval() != 0
    }

    open spec fn div_spec(self, rhs: Signed<Other>) -> Signed<u64> {
        if self.spec_is_positive() == rhs.spec_is_positive() {
            Signed::Positive((self.spec_abs().uval() / rhs.spec_abs().uval()) as u64)
        } else {
            Signed::Negative((self.spec_abs().uval() / rhs.spec_abs().uval()) as u64)
        }
    }
}

impl core::ops::Rem for Signed<Other> {
    type Output = Signed<Other>;

    fn rem(self, rhs: Signed<Other>) -> (r: Signed<Other>) {
        self % rhs.abs().get()
    }
}

impl vstd::std_specs::ops::RemSpecImpl for Signed<Other> {
    open spec fn obeys_rem_spec() -> bool {
        true
    }

    open spec fn rem_req(self, rhs: Signed<Other>) -> bool {
        rhs.spec_abs().uval() != 0
    }

    open spec fn rem_spec(self, rhs: Signed<Other>) -> Signed<Other> {
        signed_from(self.spec_is_positive(), self.spec_abs().uval() % rhs.spec_abs().uval())
    }
}

/// The sign of `num / denom` times a value of sign `positive`: positive
/// exactly when the product of the signs is positive (a zero factor gives a
/// negative result).
pub open spec fn scaled_positive(positive: bool, num: int, denom: int) -> bool {
    let s = sgn(num) * sgn(denom);
    if positive {
        s > 0
    } else {
        -s > 0
    }
}

/// The sign of an integer: `1`, `0` or `-1`.
pub open spec fn sgn(x: int) -> int {
    if x > 0 {
        1
    } else if x < 0 {
        -1
    } else {
        0
    }
}

/// The signed value of sign `positive` and magnitude `m`, or `None` if `m`
/// is not a magnitude.
pub open spec fn signed_fit(positive: bool, m: Option<u64>) -> Option<Signed<Other>> {
    match m {
        Some(v) => if v <= <Other as UnsignedValue>::umax() {
            Some(signed_from(positive, v as int))
        } else {
            None
        },
        None => None,
    }
}

/// Returns the magnitude of `x` as an integer.
fn mag_get(x: Other) -> (r: u64)
    ensures
        r == x.uval(),
{
    x.get()
}

/// Returns the signed value of sign `positive` and magnitude `v`, or `None`
/// if `v` is not a magnitude.
fn signed_from_inner(v: u64, positive: bool) -> (r: Option<Signed<Other>>)
    ensures
        r == signed_fit(positive, Some(v)),
{
    match Other::try_from_u64(v).ok() {
        Some(m) => {
            let r = if positive {
                Signed::Positive(m)
            } else {
                Signed::Negative(m)
            };
            proof {
                lemma_signed_from_unique(r, positive);
            }
            Some(r)
        },
        None => None,
    }
}

/// Returns the sign of `x`: `1`, `0` or `-1`.
fn signum_of(x: i64) -> (r: i64)
    ensures
        r == sgn(x as int),
{
    if x > 0 {
        1
    } else if x < 0 {
        -1
    } else {
        0
    }
}

impl MulDiv<i64> for Signed<Other> {
    open spec fn mul_div_req(self, num: i64, denom: i64) -> bool {
        denom != 0 && num != i64::MIN && denom != i64::MIN
    }

    open spec fn spec_mul_div_floor(self, num: i64, denom: i64) -> Option<Self> {
        signed_fit(
            scaled_positive(self.spec_is_positive(), num as int, denom as int),
            fit_u64(mul_div_floor_spec(self.spec_abs().uval(), abs_int(num as int), abs_int(denom as int))),
        )
    }

    open spec fn spec_mul_div_round(self, num: i64, denom: i64) -> Option<Self> {
        signed_fit(
            scaled_positive(self.spec_is_positive(), num as int, denom as int),
            fit_u64(mul_div_round_spec(self.spec_abs().uval(), abs_int(num as int), abs_int(denom as int))),
        )
    }

    open spec fn spec_mul_div_ceil(self, num: i64, denom: i64) -> Option<Self> {
        signed_fit(
            scaled_positive(self.spec_is_positive(), num as int, denom as int),
            fit_u64(mul_div_ceil_spec(self.spec_abs().uval(), abs_int(num as int), abs_int(denom as int))),
        )
    }

    fn mul_div_floor(self, num: i64, denom: i64) -> (r: Option<Self>) {
        let positive = if self.is_positive() {
            signum_of(num) * signum_of(denom) > 0
        } else {
            -(signum_of(num) * signum_of(denom)) > 0
        };
        match mul_div_floor_u64(mag_get(self.abs()), mag_abs(num), mag_abs(denom)) {
            Some(v) => signed_from_inner(v, positive),
            None => None,
        }
    }

    fn mul_div_round(self, num: i64, denom: i64) -> (r: Option<Self>) {
        let positive = if self.is_positive() {
            signum_of(num) * signum_of(denom) > 0
        } else {
            -(signum_of(num) * signum_of(denom)) > 0
        };
        match mul_div_round_u64(mag_get(self.abs()), mag_abs(num), mag_abs(denom)) {
            Some(v) => signed_from_inner(v, positive),
            None => None,
        }
    }

    fn mul_div_ceil(self, num: i64, denom: i64) -> (r: Option<Self>) {
        let positive = if self.is_positive() {
            signum_of(num) * signum_of(denom) > 0
        } else {
            -(signum_of(num) * signum_of(denom)) > 0
        };
        match mul_div_ceil_u64(mag_get(self.abs()), mag_abs(num), mag_abs(denom)) {
            Some(v) => signed_from_inner(v, positive),
            None => None,
        }
    }
}

impl MulDiv<u64> for Signed<Other> {
    open spec fn mul_div_req(self, num: u64, denom: u64) -> bool {
        denom != 0
    }

    open spec fn spec_mul_div_floor(self, num: u64, denom: u64) -> Option<Self> {
        signed_fit(
            self.spec_is_positive(),
            fit_u64(mul_div_floor_spec(self.spec_abs().uval(), num as int, denom as int)),
        )
    }

    open spec fn spec_mul_div_round(self, num: u64, denom: u64) -> Option<Self> {
        signed_fit(
            self.spec_is_positive(),
            fit_u64(mul_div_round_spec(self.spec_abs().uval(), num as int, denom as int)),
        )
    }

    open spec fn spec_mul_div_ceil(self, num: u64, denom: u64) -> Option<Self> {
        signed_fit(
            self.spec_is_positive(),
            fit_u64(mul_div_ceil_spec(self.spec_abs().uval(), num as int, denom as int)),
        )
    }

    fn mul_div_floor(self, num: u64, denom: u64) -> (r: Option<Self>) {
        match mul_div_floor_u64(mag_get(self.abs()), num, denom) {
            Some(v) => signed_from_inner(v, self.is_positive()),
            None => None,
        }
    }

    fn mul_div_round(self, num: u64, denom: u64) -> (r: Option<Self>) {
        match mul_div_round_u64(mag_get(self.abs()), num, denom) {
            Some(v) => signed_from_inner(v, self.is_positive()),
            None => None,
        }
    }

    fn mul_div_ceil(self, num: u64, denom: u64) -> (r: Option<Self>) {
        match mul_div_ceil_u64(mag_get(self.abs()), num, denom) {
            Some(v) => signed_from_inner(v, self.is_positive()),
            None => None,
        }
    }
}

/// Builds `Other` formatted values from integers.
pub trait OtherFormatConstructor: Sized {
    /// The value of the integer.
    spec fn quantity(self) -> int;

    /// Builds an `Other` formatted value from `self`, which must not be the
    /// C `None` value.
    fn other_format(self) -> (r: Other)
        requires
            self.quantity() != QUANTITY_NONE,
        ensures
            r.value() == self.quantity(),
    ;
}

impl OtherFormatConstructor for u64 {
    open spec fn quantity(self) -> int {
        self as int
    }

    fn other_format(self) -> (r: Other) {
        Other::from_u64(self)
    }
}

impl DisplayText for Other {
    open spec fn spec_opt_text(v: Option<Other>) -> Seq<char> {
        match v {
            Some(x) => decimal(x.value() as nat),
            None => "undef."@,
        }
    }

    fn push_opt_text(v: Option<Other>, out: &mut Vec<char>) {
        match v {
            Some(x) => push_decimal(out, x.get()),
            None => push_undefined(out),
        }
    }
}

impl Other {
    /// Returns the display of the quantity: its number.
    pub fn to_string(self) -> (r: String)
        ensures
            r@ == <Other as DisplayText>::spec_opt_text(Some(self)),
    {
        let mut out: Vec<char> = Vec::new();
        <Other as DisplayText>::push_opt_text(Some(self), &mut out);
        chars_to_string(&out)
    }
}

/// An optional quantity in an unknown format prepared for display.
pub struct DisplayableOptionOther(pub Option<Other>);

impl DisplayableOptionOther {
    /// Returns the display of the quantity, or `undef.` when it is
    /// undefined.
    pub fn to_string(&self) -> (r: String)
        ensures
            r@ == <Other as DisplayText>::spec_opt_text(self.0),
    {
        let mut out: Vec<char> = Vec::new();
        <Other as DisplayText>::push_opt_text(self.0, &mut out);
        chars_to_string(&out)
    }
}

/// The error returned when a signed quantity does not fit in an `i64`.
#[derive(Clone, Copy, Debug, PartialEq, Eq, Structural)]
pub struct OtherRangeError;

/// The `i64` holding the signed value of `s`, if it fits.
pub open spec fn signed_as_i64(s: Signed<Other>) -> Option<i64> {
    if i64::MIN <= sval(s) <= i64::MAX {
        Some(sval(s) as i64)
    } else {
        None
    }
}

impl TryFrom<Signed<Other>> for i64 {
    type Error = OtherRangeError;

    fn try_from(v: Signed<Other>) -> (r: Result<i64, OtherRangeError>) {
        match v {
            Signed::Positive(x) => {
                let n = x.get();
                if n <= 0x7fff_ffff_ffff_ffffu64 {
                    Ok(n as i64)
                } else {
                    Err(OtherRangeError)
                }
            },
            Signed::Negative(x) => {
                let n = x.get();
                if n < 0x8000_0000_0000_0000u64 {
                    Ok(-(n as i64))
                } else if n == 0x8000_0000_0000_0000u64 {
                    Ok(i64::MIN)
                } else {
                    Err(OtherRangeError)
                }
            },
        }
    }
}

impl vstd::std_specs::convert::TryFromSpecImpl<Signed<Other>> for i64 {
    open spec fn obeys_try_from_spec() -> bool {
        true
    }

    open spec fn try_from_spec(v: Signed<Other>) -> Result<i64, OtherRangeError> {
        match signed_as_i64(v) {
            Some(n) => Ok(n),
            None => Err(OtherRangeError),
        }
    }
}

} // verus!
