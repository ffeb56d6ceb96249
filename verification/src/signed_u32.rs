use vstd::prelude::*;

use crate::muldiv_ops::{
    fit_u32, mul_div_ceil_spec, mul_div_ceil_u32, mul_div_floor_spec, mul_div_floor_u32,
    mul_div_round_spec, mul_div_round_u32, MulDiv,
};
use core::cmp::Ordering;
use crate::signed_cmp::{compare_signed, signed_order};
use vstd::std_specs::cmp::{PartialEqSpecImpl, PartialOrdSpecImpl};
use crate::signed::{min_int, Signed, UnsignedValue};
use crate::signed_ops::{abs_int, signed_difference, signed_sum, sval};
use crate::traits::UnsignedIntoSigned;

verus! {
impl UnsignedValue for u32 {
    open spec fn uval(self) -> int {
        self as int
    }

    open spec fn umax() -> int {
        u32::MAX as int
    }

    proof fn lemma_uval_injective(a: Self, b: Self) {
    }

    proof fn lemma_umax_positive() {
    }

    fn is_zero_value(&self) -> (r: bool) {
        *self == 0
    }

    fn ge_value(&self, other: &Self) -> (r: bool) {
        *self >= *other
    }

    fn sub_value(self, other: Self) -> (r: Self) {
        self - other
    }

    fn checked_add_value(self, other: Self) -> (r: Option<Self>) {
        if self <= u32::MAX - other {
            Some(self + other)
        } else {
            None
        }
    }

    fn saturating_sub_value(self, other: Self) -> (r: Self) {
        if self >= other {
            self - other
        } else {
            0
        }
    }

    fn overflowing_add_value(self, other: Self) -> (r: (Self, bool)) {
        if self <= u32::MAX - other {
            (self + other, false)
        } else {
            (self - (u32::MAX - other) - 1, true)
        }
    }

    fn overflowing_sub_value(self, other: Self) -> (r: (Self, bool)) {
        if self >= other {
            (self - other, false)
        } else {
            (u32::MAX - other + self + 1, true)
        }
    }

    fn saturating_add_value(self, other: Self) -> (r: Self) {
        if self <= u32::MAX - other {
            self + other
        } else {
            u32::MAX
        }
    }
}

impl UnsignedIntoSigned for u32 {
    type Signed = Signed<u32>;

    open spec fn spec_into_positive(self) -> Signed<u32> {
        Signed::Positive(self)
    }

    open spec fn spec_into_negative(self) -> Signed<u32> {
        Signed::Negative(self)
    }

    open spec fn spec_can_sign(self) -> bool {
        true
    }

    fn into_positive(self) -> (r: Signed<u32>) {
        Signed::Positive(self)
    }

    fn into_negative(self) -> (r: Signed<u32>) {
        Signed::Negative(self)
    }
}

impl UnsignedIntoSigned for Option<u32> {
    type Signed = Option<Signed<u32>>;

    open spec fn spec_into_positive(self) -> Option<Signed<u32>> {
        match self {
            Some(v) => Some(Signed::Positive(v)),
            None => None,
        }
    }

    open spec fn spec_into_negative(self) -> Option<Signed<u32>> {
        match self {
            Some(v) => Some(Signed::Negative(v)),
            None => None,
        }
    }

    open spec fn spec_can_sign(self) -> bool {
        true
    }

    fn into_positive(self) -> (r: Option<Signed<u32>>) {
        match self {
            Some(v) => Some(Signed::Positive(v)),
            None => None,
        }
    }

    fn into_negative(self) -> (r: Option<Signed<u32>>) {
        match self {
            Some(v) => Some(Signed::Negative(v)),
            None => None,
        }
    }
}

/// Returns `lhs / rhs` on magnitudes, or `None` if `rhs` is zero.
fn mag_checked_div(lhs: u32, rhs: u32) -> (r: Option<u32>)
    ensures
        r is None <==> rhs == 0,
        r matches Some(v) ==> v.uval() == lhs.uval() / (rhs as int),
{
    lhs.checked_div(rhs)
}

/// Returns `lhs % rhs` on magnitudes, or `None` if `rhs` is zero.
fn mag_checked_rem(lhs: u32, rhs: u32) -> (r: Option<u32>)
    ensures
        r is None <==> rhs == 0,
        r matches Some(v) ==> v.uval() == lhs.uval() % (rhs as int),
{
    lhs.checked_rem(rhs)
}

/// Returns `lhs * rhs` on magnitudes, or `None` if it exceeds the largest
/// magnitude.
fn mag_checked_mul(lhs: u32, rhs: u32) -> (r: Option<u32>)
    ensures
        r is None <==> lhs.uval() * rhs > <u32 as UnsignedValue>::umax(),
        r matches Some(v) ==> v.uval() == lhs.uval() * rhs,
{
    lhs.checked_mul(rhs)
}

/// Returns `lhs * rhs` on magnitudes, capped to the largest magnitude.
fn mag_saturating_mul(lhs: u32, rhs: u32) -> (r: u32)
    ensures
        r.uval() == min_int(lhs.uval() * rhs, <u32 as UnsignedValue>::umax()),
{
    match lhs.checked_mul(rhs) {
        Some(v) => v,
        None => u32::MAX,
    }
}

/// The absolute value of a signed right hand side other than its minimum.
fn mag_abs(x: i32) -> (r: u32)
    requires
        x != i32::MIN,
    ensures
        r as int == abs_int(x as int),
{
    if x < 0 {
        (-x) as u32
    } else {
        x as u32
    }
}

/// The magnitude with the given value.
pub open spec fn mag_from(v: int) -> u32 {
    v as u32
}

/// The signed value with the given sign and magnitude.
pub open spec fn signed_from(positive: bool, v: int) -> Signed<u32> {
    if positive {
        Signed::Positive(mag_from(v))
    } else {
        Signed::Negative(mag_from(v))
    }
}

/// `s` has the given sign and magnitude.
pub open spec fn has_sign_mag(s: Signed<u32>, positive: bool, mag: int) -> bool {
    s.spec_is_positive() == positive && s.spec_abs().uval() == mag
}

impl Signed<u32> {
    /// Returns `self / rhs` with the magnitudes divided (truncating toward
    /// zero), or `None` if `rhs` is zero. The result is positive exactly
    /// when `self` is positive and `rhs > 0`, or `self` is negative and
    /// `rhs <= 0`.
    pub fn checked_div(self, rhs: i32) -> (r: Option<Self>)
        requires
            rhs != i32::MIN,
        ensures
            r is None <==> rhs == 0,
            r matches Some(v) ==> has_sign_mag(
                v,
                self.spec_is_positive() == (rhs > 0),
                self.spec_abs().uval() / abs_int(rhs as int),
            ),
    {
        let m = mag_abs(rhs);
        match self {
            Signed::Positive(lhs) => match mag_checked_div(lhs, m) {
                Some(v) => Some(if rhs > 0 { Signed::Positive(v) } else { Signed::Negative(v) }),
                None => None,
            },
            Signed::Negative(lhs) => match mag_checked_div(lhs, m) {
                Some(v) => Some(if rhs > 0 { Signed::Negative(v) } else { Signed::Positive(v) }),
                None => None,
            },
        }
    }

    /// Returns `self / rhs` with the sign of `self`, or `None` if `rhs` is
    /// zero.
    pub fn checked_div_unsigned(self, rhs: u32) -> (r: Option<Self>)
        ensures
            r is None <==> rhs == 0,
            r matches Some(v) ==> has_sign_mag(
                v,
                self.spec_is_positive(),
                self.spec_abs().uval() / (rhs as int),
            ),
    {
        match self {
            Signed::Positive(lhs) => match mag_checked_div(lhs, rhs) {
                Some(v) => Some(Signed::Positive(v)),
                None => None,
            },
            Signed::Negative(lhs) => match mag_checked_div(lhs, rhs) {
                Some(v) => Some(Signed::Negative(v)),
                None => None,
            },
        }
    }

    /// Returns the remainder of the magnitude of `self` divided by the
    /// magnitude of `rhs`, with the sign of `self`, or `None` if `rhs` is
    /// zero.
    pub fn checked_rem(self, rhs: i32) -> (r: Option<Self>)
        requires
            rhs != i32::MIN,
        ensures
            r is None <==> rhs == 0,
            r matches Some(v) ==> has_sign_mag(
                v,
                self.spec_is_positive(),
                self.spec_abs().uval() % abs_int(rhs as int),
            ),
    {
        self.checked_rem_unsigned(mag_abs(rhs))
    }

    /// Returns the remainder of the magnitude of `self` divided by `rhs`,
    /// with the sign of `self`, or `None` if `rhs` is zero.
    pub fn checked_rem_unsigned(self, rhs: u32) -> (r: Option<Self>)
        ensures
            r is None <==> rhs == 0,
            r matches Some(v) ==> has_sign_mag(
                v,
                self.spec_is_positive(),
                self.spec_abs().uval() % (rhs as int),
            ),
    {
        match self {
            Signed::Positive(lhs) => match mag_checked_rem(lhs, rhs) {
                Some(v) => Some(Signed::Positive(v)),
                None => None,
            },
            Signed::Negative(lhs) => match mag_checked_rem(lhs, rhs) {
                Some(v) => Some(Signed::Negative(v)),
                None => None,
            },
        }
    }

    /// Returns `self * rhs`, or `None` if the magnitude of the product
    /// exceeds the largest magnitude. The result is positive exactly when
    /// `self` is positive and `rhs > 0`, or `self` is negative and
    /// `rhs <= 0`.
    pub fn checked_mul(self, rhs: i32) -> (r: Option<Self>)
        requires
            rhs != i32::MIN,
        ensures
            r is None <==> self.spec_abs().uval() * abs_int(rhs as int) > <u32 as UnsignedValue>::umax(),
            r matches Some(v) ==> has_sign_mag(
                v,
                self.spec_is_positive() == (rhs > 0),
                self.spec_abs().uval() * abs_int(rhs as int),
            ),
    {
        let m = mag_abs(rhs);
        match self {
            Signed::Positive(lhs) => match mag_checked_mul(lhs, m) {
                Some(v) => Some(if rhs > 0 { Signed::Positive(v) } else { Signed::Negative(v) }),
                None => None,
            },
            Signed::Negative(lhs) => match mag_checked_mul(lhs, m) {
                Some(v) => Some(if rhs > 0 { Signed::Negative(v) } else { Signed::Positive(v) }),
                None => None,
            },
        }
    }

    /// Returns `self * rhs` with the sign of `self`, or `None` if the
    /// magnitude of the product exceeds the largest magnitude.
    pub fn checked_mul_unsigned(self, rhs: u32) -> (r: Option<Self>)
        ensures
            r is None <==> self.spec_abs().uval() * rhs > <u32 as UnsignedValue>::umax(),
            r matches Some(v) ==> has_sign_mag(
                v,
                self.spec_is_positive(),
                self.spec_abs().uval() * rhs,
            ),
    {
        match self {
            Signed::Positive(lhs) => match mag_checked_mul(lhs, rhs) {
                Some(v) => Some(Signed::Positive(v)),
                None => None,
            },
            Signed::Negative(lhs) => match mag_checked_mul(lhs, rhs) {
                Some(v) => Some(Signed::Negative(v)),
                None => None,
            },
        }
    }

    /// Returns `self * rhs` with its magnitude capped to the largest
    /// magnitude; the sign follows [`Self::checked_mul`].
    pub fn saturating_mul(self, rhs: i32) -> (r: Self)
        requires
            rhs != i32::MIN,
        ensures
            has_sign_mag(
                r,
                self.spec_is_positive() == (rhs > 0),
                min_int(self.spec_abs().uval() * abs_int(rhs as int), <u32 as UnsignedValue>::umax()),
            ),
    {
        let m = mag_abs(rhs);
        match self {
            Signed::Positive(lhs) => {
                let v = mag_saturating_mul(lhs, m);
                if rhs > 0 { Signed::Positive(v) } else { Signed::Negative(v) }
            },
            Signed::Negative(lhs) => {
                let v = mag_saturating_mul(lhs, m);
                if rhs > 0 { Signed::Negative(v) } else { Signed::Positive(v) }
            },
        }
    }

    /// Returns `self * rhs` with the sign of `self` and its magnitude
    /// capped to the largest magnitude.
    pub fn saturating_mul_unsigned(self, rhs: u32) -> (r: Self)
        ensures
            has_sign_mag(
                r,
                self.spec_is_positive(),
                min_int(self.spec_abs().uval() * rhs, <u32 as UnsignedValue>::umax()),
            ),
    {
        match self {
            Signed::Positive(lhs) => Signed::Positive(mag_saturating_mul(lhs, rhs)),
            Signed::Negative(lhs) => Signed::Negative(mag_saturating_mul(lhs, rhs)),
        }
    }
}

impl core::ops::Div<i32> for Signed<u32> {
    type Output = Signed<u32>;

    fn div(self, rhs: i32) -> (r: Signed<u32>) {
        let r = self.checked_div(rhs).unwrap();
        proof {
            lemma_signed_from_unique(r, self.spec_is_positive() == (rhs > 0));
        }
        r
    }
}

impl vstd::std_specs::ops::DivSpecImpl<i32> for Signed<u32> {
    open spec fn obeys_div_spec() -> bool {
        true
    }

    open spec fn div_req(self, rhs: i32) -> bool {
        rhs != 0 && rhs != i32::MIN
    }

    open spec fn div_spec(self, rhs: i32) -> Signed<u32> {
        signed_from(self.spec_is_positive() == (rhs > 0), self.spec_abs().uval() / abs_int(rhs as int))
    }
}

impl core::ops::Div<u32> for Signed<u32> {
    type Output = Signed<u32>;

    fn div(self, rhs: u32) -> (r: Signed<u32>) {
        let r = self.checked_div_unsigned(rhs).unwrap();
        proof {
            lemma_signed_from_unique(r, self.spec_is_positive());
        }
        r
    }
}

impl vstd::std_specs::ops::DivSpecImpl<u32> for Signed<u32> {
    open spec fn obeys_div_spec() -> bool {
        true
    }

    open spec fn div_req(self, rhs: u32) -> bool {
        rhs != 0
    }

    open spec fn div_spec(self, rhs: u32) -> Signed<u32> {
        signed_from(self.spec_is_positive(), self.spec_abs().uval() / (rhs as int))
    }
}

impl core::ops::Rem<i32> for Signed<u32> {
    type Output = Signed<u32>;

    fn rem(self, rhs: i32) -> (r: Signed<u32>) {
        let r = self.checked_rem(rhs).unwrap();
        proof {
            lemma_signed_from_unique(r, self.spec_is_positive());
        }
        r
    }
}

impl vstd::std_specs::ops::RemSpecImpl<i32> for Signed<u32> {
    open spec fn obeys_rem_spec() -> bool {
        true
    }

    open spec fn rem_req(self, rhs: i32) -> bool {
        rhs != 0 && rhs != i32::MIN
    }

    open spec fn rem_spec(self, rhs: i32) -> Signed<u32> {
        signed_from(self.spec_is_positive(), self.spec_abs().uval() % abs_int(rhs as int))
    }
}

impl core::ops::Rem<u32> for Signed<u32> {
    type Output = Signed<u32>;

    fn rem(self, rhs: u32) -> (r: Signed<u32>) {
        let r = self.checked_rem_unsigned(rhs).unwrap();
        proof {
            lemma_signed_from_unique(r, self.spec_is_positive());
        }
        r
    }
}

impl vstd::std_specs::ops::RemSpecImpl<u32> for Signed<u32> {
    open spec fn obeys_rem_spec() -> bool {
        true
    }

    open spec fn rem_req(self, rhs: u32) -> bool {
        rhs != 0
    }

    open spec fn rem_spec(self, rhs: u32) -> Signed<u32> {
        signed_from(self.spec_is_positive(), self.spec_abs().uval() % (rhs as int))
    }
}

impl core::ops::Mul<i32> for Signed<u32> {
    type Output = Signed<u32>;

    fn mul(self, rhs: i32) -> (r: Signed<u32>) {
        let r = self.checked_mul(rhs).unwrap();
        proof {
            lemma_signed_from_unique(r, self.spec_is_positive() == (rhs > 0));
        }
        r
    }
}

impl vstd::std_specs::ops::MulSpecImpl<i32> for Signed<u32> {
    open spec fn obeys_mul_spec() -> bool {
        true
    }

    open spec fn mul_req(self, rhs: i32) -> bool {
        rhs != i32::MIN && self.spec_abs().uval() * abs_int(rhs as int) <= <u32 as UnsignedValue>::umax()
    }

    open spec fn mul_spec(self, rhs: i32) -> Signed<u32> {
        signed_from(self.spec_is_positive() == (rhs > 0), self.spec_abs().uval() * abs_int(rhs as int))
    }
}

impl core::ops::Mul<u32> for Signed<u32> {
    type Output = Signed<u32>;

    fn mul(self, rhs: u32) -> (r: Signed<u32>) {
        let r = self.checked_mul_unsigned(rhs).unwrap();
        proof {
            lemma_signed_from_unique(r, self.spec_is_positive());
        }
        r
    }
}

impl vstd::std_specs::ops::MulSpecImpl<u32> for Signed<u32> {
    open spec fn obeys_mul_spec() -> bool {
        true
    }

    open spec fn mul_req(self, rhs: u32) -> bool {
        self.spec_abs().uval() * rhs <= <u32 as UnsignedValue>::umax()
    }

    open spec fn mul_spec(self, rhs: u32) -> Signed<u32> {
        signed_from(self.spec_is_positive(), self.spec_abs().uval() * rhs)
    }
}

impl core::ops::Add<Signed<u32>> for u32 {
    type Output = Signed<u32>;

    fn add(self, rhs: Signed<u32>) -> (r: Signed<u32>) {
        Signed::Positive(self) + rhs
    }
}

impl vstd::std_specs::ops::AddSpecImpl<Signed<u32>> for u32 {
    open spec fn obeys_add_spec() -> bool {
        true
    }

    open spec fn add_req(self, rhs: Signed<u32>) -> bool {
        abs_int(self.uval() + sval(rhs)) <= <u32 as UnsignedValue>::umax()
    }

    open spec fn add_spec(self, rhs: Signed<u32>) -> Signed<u32> {
        signed_sum(Signed::Positive(self), rhs)
    }
}

impl core::ops::Sub<Signed<u32>> for u32 {
    type Output = Signed<u32>;

    fn sub(self, rhs: Signed<u32>) -> (r: Signed<u32>) {
        Signed::Positive(self) - rhs
    }
}

impl vstd::std_specs::ops::SubSpecImpl<Signed<u32>> for u32 {
    open spec fn obeys_sub_spec() -> bool {
        true
    }

    open spec fn sub_req(self, rhs: Signed<u32>) -> bool {
        abs_int(self.uval() - sval(rhs)) <= <u32 as UnsignedValue>::umax()
    }

    open spec fn sub_spec(self, rhs: Signed<u32>) -> Signed<u32> {
        signed_difference(Signed::Positive(self), rhs)
    }
}

/// A signed value is determined by its sign and magnitude.
proof fn lemma_signed_from_unique(r: Signed<u32>, positive: bool)
    requires
        r.spec_is_positive() == positive,
    ensures
        r == signed_from(positive, r.spec_abs().uval()),
{
    
}

impl PartialEq<Signed<u32>> for u32 {
    fn eq(&self, other: &Signed<u32>) -> (r: bool) {
        *other == *self
    }
}

impl PartialEqSpecImpl<Signed<u32>> for u32 {
    open spec fn obeys_eq_spec() -> bool {
        true
    }

    open spec fn eq_spec(&self, other: &Signed<u32>) -> bool {
        Signed::Positive(*self) == *other
    }
}

impl PartialOrd<Signed<u32>> for u32 {
    fn partial_cmp(&self, other: &Signed<u32>) -> (r: Option<Ordering>) {
        Some(compare_signed(&Signed::Positive(*self), other))
    }
}

impl PartialOrdSpecImpl<Signed<u32>> for u32 {
    open spec fn obeys_partial_cmp_spec() -> bool {
        true
    }

    open spec fn partial_cmp_spec(&self, other: &Signed<u32>) -> Option<Ordering> {
        Some(signed_order(Signed::Positive(*self), *other))
    }
}

impl core::ops::Div for Signed<u32> {
    type Output = Signed<u32>;

    fn div(self, rhs: Signed<u32>) -> (r: Signed<u32>) {
        match rhs {
            Signed::Positive(m) => self / m,
            Signed::Negative(m) => core::ops::Neg::neg(self / m),
        }
    }
}

impl vstd::std_specs::ops::DivSpecImpl for Signed<u32> {
    open spec fn obeys_div_spec() -> bool {
        true
    }

    open spec fn div_req(self, rhs: Signed<u32>) -> bool {
        rhs.spec_abs() != 0
    }

    open spec fn div_spec(self, rhs: Signed<u32>) -> Signed<u32> {
        signed_from(self.spec_is_positive() == rhs.spec_is_positive(), self.spec_abs() as int / rhs.spec_abs() as int)
    }
}

impl core::ops::Rem for Signed<u32> {
    type Output = Signed<u32>;

    fn rem(self, rhs: Signed<u32>) -> (r: Signed<u32>) {
        self % rhs.abs()
    }
}

impl vstd::std_specs::ops::RemSpecImpl for Signed<u32> {
    open spec fn obeys_rem_spec() -> bool {
        true
    }

    open spec fn rem_req(self, rhs: Signed<u32>) -> bool {
        rhs.spec_abs() != 0
    }

    open spec fn rem_spec(self, rhs: Signed<u32>) -> Signed<u32> {
        signed_from(self.spec_is_positive(), self.spec_abs() as int % rhs.spec_abs() as int)
    }
}

/// The sign of `num / denom` times a value of sign `positive`: positive
/// exactly when the product of the signs is positive (a zero factor gives a
/// negative result).
pub open spec fn scaled_positive(positive: bool, num: int, denom: int) -> bool {
    let s = sgn(num) * sgn(denom);
    if positive {
        s > 0
    } else {
        -s > 0
    }
}

/// The sign of an integer: `1`, `0` or `-1`.
pub open spec fn sgn(x: int) -> int {
    if x > 0 {
        1
    } else if x < 0 {
        -1
    } else {
        0
    }
}

/// The signed value of sign `positive` and magnitude `m`, or `None` if `m`
/// is not a magnitude.
pub open spec fn signed_fit(positive: bool, m: Option<u32>) -> Option<Signed<u32>> {
    match m {
        Some(v) => if v <= <u32 as UnsignedValue>::umax() {
            Some(signed_from(positive, v as int))
        } else {
            None
        },
        None => None,
    }
}

/// Returns the magnitude of `x` as an integer.
fn mag_get(x: u32) -> (r: u32)
    ensures
        r == x.uval(),
{
    x
}

/// Returns the signed value of sign `positive` and magnitude `v`, or `None`
/// if `v` is not a magnitude.
fn signed_from_inner(v: u32, positive: bool) -> (r: Option<Signed<u32>>)
    ensures
        r == signed_fit(positive, Some(v)),
{
    match Some(v) {
        Some(m) => {
            let r = if positive {
                Signed::Positive(m)
            } else {
                Signed::Negative(m)
            };
            proof {
                lemma_signed_from_unique(r, positive);
            }
            Some(r)
        },
        None => None,
    }
}

/// Returns the sign of `x`: `1`, `0` or `-1`.
fn signum_of(x: i32) -> (r: i32)
    ensures
        r == sgn(x as int),
{
    if x > 0 {
        1
    } else if x < 0 {
        -1
    } else {
        0
    }
}

impl MulDiv<i32> for Signed<u32> {
    open spec fn mul_div_req(self, num: i32, denom: i32) -> bool {
        denom != 0 && num != i32::MIN && denom != i32::MIN
    }

    open spec fn spec_mul_div_floor(self, num: i32, denom: i32) -> Option<Self> {
        signed_fit(
            scaled_positive(self.spec_is_positive(), num as int, denom as int),
            fit_u32(mul_div_floor_spec(self.spec_abs().uval(), abs_int(num as int), abs_int(denom as int))),
        )
    }

    open spec fn spec_mul_div_round(self, num: i32, denom: i32) -> Option<Self> {
        signed_fit(
            scaled_positive(self.spec_is_positive(), num as int, denom as int),
            fit_u32(mul_div_round_spec(self.spec_abs().uval(), abs_int(num as int), abs_int(denom as int))),
        )
    }

    open spec fn spec_mul_div_ceil(self, num: i32, denom: i32) -> Option<Self> {
        signed_fit(
            scaled_positive(self.spec_is_positive(), num as int, denom as int),
            fit_u32(mul_div_ceil_spec(self.spec_abs().uval(), abs_int(num as int), abs_int(denom as int))),
        )
    }

    fn mul_div_floor(self, num: i32, denom: i32) -> (r: Option<Self>) {
        let positive = if self.is_positive() {
            signum_of(num) * signum_of(denom) > 0
        } else {
            -(signum_of(num) * signum_of(denom)) > 0
        };
        match mul_div_floor_u32(mag_get(self.abs()), mag_abs(num), mag_abs(denom)) {
            Some(v) => signed_from_inner(v, positive),
            None => None,
        }
    }

    fn mul_div_round(self, num: i32, denom: i32) -> (r: Option<Self>) {
        let positive = if self.is_positive() {
            signum_of(num) * signum_of(denom) > 0
        } else {
            -(signum_of(num) * signum_of(denom)) > 0
        };
        match mul_div_round_u32(mag_get(self.abs()), mag_abs(num), mag_abs(denom)) {
            Some(v) => signed_from_inner(v, positive),
            None => None,
        }
    }

    fn mul_div_ceil(self, num: i32, denom: i32) -> (r: Option<Self>) {
        let positive = if self.is_positive() {
            signum_of(num) * signum_of(denom) > 0
        } else {
            -(signum_of(num) * signum_of(denom)) > 0
        };
        match mul_div_ceil_u32(mag_get(self.abs()), mag_abs(num), mag_abs(denom)) {
            Some(v) => signed_from_inner(v, positive),
            None => None,
        }
    }
}

impl MulDiv<u32> for Signed<u32> {
    open spec fn mul_div_req(self, num: u32, denom: u32) -> bool {
        denom != 0
    }

    open spec fn spec_mul_div_floor(self, num: u32, denom: u32) -> Option<Self> {
        signed_fit(
            self.spec_is_positive(),
            fit_u32(mul_div_floor_spec(self.spec_abs().uval(), num as int, denom as int)),
        )
    }

    open spec fn spec_mul_div_round(self, num: u32, denom: u32) -> Option<Self> {
        signed_fit(
            self.spec_is_positive(),
            fit_u32(mul_div_round_spec(self.spec_abs().uval(), num as int, denom as int)),
        )
    }

    open spec fn spec_mul_div_ceil(self, num: u32, denom: u32) -> Option<Self> {
        signed_fit(
            self.spec_is_positive(),
            fit_u32(mul_div_ceil_spec(self.spec_abs().uval(), num as int, denom as int)),
        )
    }

    fn mul_div_floor(self, num: u32, denom: u32) -> (r: Option<Self>) {
        match mul_div_floor_u32(mag_get(self.abs()), num, denom) {
            Some(v) => signed_from_inner(v, self.is_positive()),
            None => None,
        }
    }

    fn mul_div_round(self, num: u32, denom: u32) -> (r: Option<Self>) {
        match mul_div_round_u32(mag_get(self.abs()), num, denom) {
            Some(v) => signed_from_inner(v, self.is_positive()),
            None => None,
        }
    }

    fn mul_div_ceil(self, num: u32, denom: u32) -> (r: Option<Self>) {
        match mul_div_ceil_u32(mag_get(self.abs()), num, denom) {
            Some(v) => signed_from_inner(v, self.is_positive()),
            None => None,
        }
    }
}

} // verus!
