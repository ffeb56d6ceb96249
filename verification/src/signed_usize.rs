use vstd::prelude::*;

use core::cmp::Ordering;
use crate::signed_cmp::{compare_signed, signed_order};
use vstd::std_specs::cmp::{PartialEqSpecImpl, PartialOrdSpecImpl};
use crate::signed::{min_int, Signed, UnsignedValue};
use crate::signed_ops::{abs_int, signed_difference, signed_sum, sval};
use crate::traits::UnsignedIntoSigned;

verus! {
impl UnsignedValue for usize {
    open spec fn uval(self) -> int {
        self as int
    }

    open spec fn umax() -> int {
        usize::MAX as int
    }

    proof fn lemma_uval_injective(a: Self, b: Self) {
    }

    proof fn lemma_umax_positive() {
    }

    fn is_zero_value(&self) -> (r: bool) {
        *self == 0
    }

    fn ge_value(&self, other: &Self) -> (r: bool) {
        *self >= *other
    }

    fn sub_value(self, other: Self) -> (r: Self) {
        self - other
    }

    fn checked_add_value(self, other: Self) -> (r: Option<Self>) {
        if self <= usize::MAX - other {
            Some(self + other)
        } else {
            None
        }
    }

    fn saturating_sub_value(self, other: Self) -> (r: Self) {
        if self >= other {
            self - other
        } else {
            0
        }
    }

    fn overflowing_add_value(self, other: Self) -> (r: (Self, bool)) {
        if self <= usize::MAX - other {
            (self + other, false)
        } else {
            (self - (usize::MAX - other) - 1, true)
        }
    }

    fn overflowing_sub_value(self, other: Self) -> (r: (Self, bool)) {
        if self >= other {
            (self - other, false)
        } else {
            (usize::MAX - other + self + 1, true)
        }
    }

    fn saturating_add_value(self, other: Self) -> (r: Self) {
        if self <= usize::MAX - other {
            self + other
        } else {
            usize::MAX
        }
    }
}

impl UnsignedIntoSigned for usize {
    type Signed = Signed<usize>;

    open spec fn spec_into_positive(self) -> Signed<usize> {
        Signed::Positive(self)
    }

    open spec fn spec_into_negative(self) -> Signed<usize> {
        Signed::Negative(self)
    }

    open spec fn spec_can_sign(self) -> bool {
        true
    }

    fn into_positive(self) -> (r: Signed<usize>) {
        Signed::Positive(self)
    }

    fn into_negative(self) -> (r: Signed<usize>) {
        Signed::Negative(self)
    }
}

impl UnsignedIntoSigned for Option<usize> {
    type Signed = Option<Signed<usize>>;

    open spec fn spec_into_positive(self) -> Option<Signed<usize>> {
        match self {
            Some(v) => Some(Signed::Positive(v)),
            None => None,
        }
    }

    open spec fn spec_into_negative(self) -> Option<Signed<usize>> {
        match self {
            Some(v) => Some(Signed::Negative(v)),
            None => None,
        }
    }

    open spec fn spec_can_sign(self) -> bool {
        true
    }

    fn into_positive(self) -> (r: Option<Signed<usize>>) {
        match self {
            Some(v) => Some(Signed::Positive(v)),
            None => None,
        }
    }

    fn into_negative(self) -> (r: Option<Signed<usize>>) {
        match self {
            Some(v) => Some(Signed::Negative(v)),
            None => None,
        }
    }
}

/// Returns `lhs / rhs` on magnitudes, or `None` if `rhs` is zero.
fn mag_checked_div(lhs: usize, rhs: usize) -> (r: Option<usize>)
    ensures
        r is None <==> rhs == 0,
        r matches Some(v) ==> v.uval() == lhs.uval() / (rhs as int),
{
    lhs.checked_div(rhs)
}

/// Returns `lhs % rhs` on magnitudes, or `None` if `rhs` is zero.
fn mag_checked_rem(lhs: usize, rhs: usize) -> (r: Option<usize>)
    ensures
        r is None <==> rhs == 0,
        r matches Some(v) ==> v.uval() == lhs.uval() % (rhs as int),
{
    lhs.checked_rem(rhs)
}

/// Returns `lhs * rhs` on magnitudes, or `None` if it exceeds the largest
/// magnitude.
fn mag_checked_mul(lhs: usize, rhs: usize) -> (r: Option<usize>)
    ensures
        r is None <==> lhs.uval() * rhs > <usize as UnsignedValue>::umax(),
        r matches Some(v) ==> v.uval() == lhs.uval() * rhs,
{
    lhs.checked_mul(rhs)
}

/// Returns `lhs * rhs` on magnitudes, capped to the largest magnitude.
fn mag_saturating_mul(lhs: usize, rhs: usize) -> (r: usize)
    ensures
        r.uval() == min_int(lhs.uval() * rhs, <usize as UnsignedValue>::umax()),
{
    match lhs.checked_mul(rhs) {
        Some(v) => v,
        None => usize::MAX,
    }
}

/// The absolute value of a signed right hand side other than its minimum.
fn mag_abs(x: isize) -> (r: usize)
    requires
        x != isize::MIN,
    ensures
        r as int == abs_int(x as int),
{
    if x < 0 {
        (-x) as usize
    } else {
        x as usize
    }
}

/// The magnitude with the given value.
pub open spec fn mag_from(v: int) -> usize {
    v as usize
}

/// The signed value with the given sign and magnitude.
pub open spec fn signed_from(positive: bool, v: int) -> Signed<usize> {
    if positive {
        Signed::Positive(mag_from(v))
    } else {
        Signed::Negative(mag_from(v))
    }
}

/// `s` has the given sign and magnitude.
pub open spec fn has_sign_mag(s: Signed<usize>, positive: bool, mag: int) -> bool {
    s.spec_is_positive() == positive && s.spec_abs().uval() == mag
}

impl Signed<usize> {
    /// Returns `self / rhs` with the magnitudes divided (truncating toward
    /// zero), or `None` if `rhs` is zero. The result is positive exactly
    /// when `self` is positive and `rhs > 0`, or `self` is negative and
    /// `rhs <= 0`.
    pub fn checked_div(self, rhs: isize) -> (r: Option<Self>)
        requires
            rhs != isize::MIN,
        ensures
            r is None <==> rhs == 0,
            r matches Some(v) ==> has_sign_mag(
                v,
                self.spec_is_positive() == (rhs > 0),
                self.spec_abs().uval() / abs_int(rhs as int),
            ),
    {
        let m = mag_abs(rhs);
        match self {
            Signed::Positive(lhs) => match mag_checked_div(lhs, m) {
                Some(v) => Some(if rhs > 0 { Signed::Positive(v) } else { Signed::Negative(v) }),
                None => None,
            },
            Signed::Negative(lhs) => match mag_checked_div(lhs, m) {
                Some(v) => Some(if rhs > 0 { Signed::Negative(v) } else { Signed::Positive(v) }),
                None => None,
            },
        }
    }

    /// Returns `self / rhs` with the sign of `self`, or `None` if `rhs` is
    /// zero.
    pub fn checked_div_unsigned(self, rhs: usize) -> (r: Option<Self>)
        ensures
            r is None <==> rhs == 0,
            r matches Some(v) ==> has_sign_mag(
                v,
                self.spec_is_positive(),
                self.spec_abs().uval() / (rhs as int),
            ),
    {
        match self {
            Signed::Positive(lhs) => match mag_checked_div(lhs, rhs) {
                Some(v) => Some(Signed::Positive(v)),
                None => None,
            },
            Signed::Negative(lhs) => match mag_checked_div(lhs, rhs) {
                Some(v) => Some(Signed::Negative(v)),
                None => None,
            },
        }
    }

    /// Returns the remainder of the magnitude of `self` divided by the
    /// magnitude of `rhs`, with the sign of `self`, or `None` if `rhs` is
    /// zero.
    pub fn checked_rem(self, rhs: isize) -> (r: Option<Self>)
        requires
            rhs != isize::MIN,
        ensures
            r is None <==> rhs == 0,
            r matches Some(v) ==> has_sign_mag(
                v,
                self.spec_is_positive(),
                self.spec_abs().uval() % abs_int(rhs as int),
            ),
    {
        self.checked_rem_unsigned(mag_abs(rhs))
    }

    /// Returns the remainder of the magnitude of `self` divided by `rhs`,
    /// with the sign of `self`, or `None` if `rhs` is zero.
    pub fn checked_rem_unsigned(self, rhs: usize) -> (r: Option<Self>)
        ensures
            r is None <==> rhs == 0,
            r matches Some(v) ==> has_sign_mag(
                v,
                self.spec_is_positive(),
                self.spec_abs().uval() % (rhs as int),
            ),
    {
        match self {
            Signed::Positive(lhs) => match mag_checked_rem(lhs, rhs) {
                Some(v) => Some(Signed::Positive(v)),
                None => None,
            },
            Signed::Negative(lhs) => match mag_checked_rem(lhs, rhs) {
                Some(v) => Some(Signed::Negative(v)),
                None => None,
            },
        }
    }

    /// Returns `self * rhs`, or `None` if the magnitude of the product
    /// exceeds the largest magnitude. The result is positive exactly when
    /// `self` is positive and `rhs > 0`, or `self` is negative and
    /// `rhs <= 0`.
    pub fn checked_mul(self, rhs: isize) -> (r: Option<Self>)
        requires
            rhs != isize::MIN,
        ensures
            r is None <==> self.spec_abs().uval() * abs_int(rhs as int) > <usize as UnsignedValue>::umax(),
            r matches Some(v) ==> has_sign_mag(
                v,
                self.spec_is_positive() == (rhs > 0),
                self.spec_abs().uval() * abs_int(rhs as int),
            ),
    {
        let m = mag_abs(rhs);
        match self {
            Signed::Positive(lhs) => match mag_checked_mul(lhs, m) {
                Some(v) => Some(if rhs > 0 { Signed::Positive(v) } else { Signed::Negative(v) }),
                None => None,
            },
            Signed::Negative(lhs) => match mag_checked_mul(lhs, m) {
                Some(v) => Some(if rhs > 0 { Signed::Negative(v) } else { Signed::Positive(v) }),
                None => None,
            },
        }
    }

    /// Returns `self * rhs` with the sign of `self`, or `None` if the
    /// magnitude of the product exceeds the largest magnitude.
    pub fn checked_mul_unsigned(self, rhs: usize) -> (r: Option<Self>)
        ensures
            r is None <==> self.spec_abs().uval() * rhs > <usize as UnsignedValue>::umax(),
            r matches Some(v) ==> has_sign_mag(
                v,
                self.spec_is_positive(),
                self.spec_abs().uval() * rhs,
            ),
    {
        match self {
            Signed::Positive(lhs) => match mag_checked_mul(lhs, rhs) {
                Some(v) => Some(Signed::Positive(v)),
                None => None,
            },
            Signed::Negative(lhs) => match mag_checked_mul(lhs, rhs) {
                Some(v) => Some(Signed::Negative(v)),
                None => None,
            },
        }
    }

    /// Returns `self * rhs` with its magnitude capped to the largest
    /// magnitude; the sign follows [`Self::checked_mul`].
    pub fn saturating_mul(self, rhs: isize) -> (r: Self)
        requires
            rhs != isize::MIN,
        ensures
            has_sign_mag(
                r,
                self.spec_is_positive() == (rhs > 0),
                min_int(self.spec_abs().uval() * abs_int(rhs as int), <usize as UnsignedValue>::umax()),
            ),
    {
        let m = mag_abs(rhs);
        match self {
            Signed::Positive(lhs) => {
                let v = mag_saturating_mul(lhs, m);
                if rhs > 0 { Signed::Positive(v) } else { Signed::Negative(v) }
            },
            Signed::Negative(lhs) => {
                let v = mag_saturating_mul(lhs, m);
                if rhs > 0 { Signed::Negative(v) } else { Signed::Positive(v) }
            },
        }
    }

    /// Returns `self * rhs` with the sign of `self` and its magnitude
    /// capped to the largest magnitude.
    pub fn saturating_mul_unsigned(self, rhs: usize) -> (r: Self)
        ensures
            has_sign_mag(
                r,
                self.spec_is_positive(),
                min_int(self.spec_abs().uval() * rhs, <usize as UnsignedValue>::umax()),
            ),
    {
        match self {
            Signed::Positive(lhs) => Signed::Positive(mag_saturating_mul(lhs, rhs)),
            Signed::Negative(lhs) => Signed::Negative(mag_saturating_mul(lhs, rhs)),
        }
    }
}

impl core::ops::Div<isize> for Signed<usize> {
    type Output = Signed<usize>;

    fn div(self, rhs: isize) -> (r: Signed<usize>) {
        let r = self.checked_div(rhs).unwrap();
        proof {
            lemma_signed_from_unique(r, self.spec_is_positive() == (rhs > 0));
        }
        r
    }
}

impl vstd::std_specs::ops::DivSpecImpl<isize> for Signed<usize> {
    open spec fn obeys_div_spec() -> bool {
        true
    }

    open spec fn div_req(self, rhs: isize) -> bool {
        rhs != 0 && rhs != isize::MIN
    }

    open spec fn div_spec(self, rhs: isize) -> Signed<usize> {
        signed_from(self.spec_is_positive() == (rhs > 0), self.spec_abs().uval() / abs_int(rhs as int))
    }
}

impl core::ops::Div<usize> for Signed<usize> {
    type Output = Signed<usize>;

    fn div(self, rhs: usize) -> (r: Signed<usize>) {
        let r = self.checked_div_unsigned(rhs).unwrap();
        proof {
            lemma_signed_from_unique(r, self.spec_is_positive());
        }
        r
    }
}

impl vstd::std_specs::ops::DivSpecImpl<usize> for Signed<usize> {
    open spec fn obeys_div_spec() -> bool {
        true
    }

    open spec fn div_req(self, rhs: usize) -> bool {
        rhs != 0
    }

    open spec fn div_spec(self, rhs: usize) -> Signed<usize> {
        signed_from(self.spec_is_positive(), self.spec_abs().uval() / (rhs as int))
    }
}

impl core::ops::Rem<isize> for Signed<usize> {
    type Output = Signed<usize>;

    fn rem(self, rhs: isize) -> (r: Signed<usize>) {
        let r = self.checked_rem(rhs).unwrap();
        proof {
            lemma_signed_from_unique(r, self.spec_is_positive());
        }
        r
    }
}

impl vstd::std_specs::ops::RemSpecImpl<isize> for Signed<usize> {
    open spec fn obeys_rem_spec() -> bool {
        true
    }

    open spec fn rem_req(self, rhs: isize) -> bool {
        rhs != 0 && rhs != isize::MIN
    }

    open spec fn rem_spec(self, rhs: isize) -> Signed<usize> {
        signed_from(self.spec_is_positive(), self.spec_abs().uval() % abs_int(rhs as int))
    }
}

impl core::ops::Rem<usize> for Signed<usize> {
    type Output = Signed<usize>;

    fn rem(self, rhs: usize) -> (r: Signed<usize>) {
        let r = self.checked_rem_unsigned(rhs).unwrap();
        proof {
            lemma_signed_from_unique(r, self.spec_is_positive());
        }
        r
    }
}

impl vstd::std_specs::ops::RemSpecImpl<usize> for Signed<usize> {
    open spec fn obeys_rem_spec() -> bool {
        true
    }

    open spec fn rem_req(self, rhs: usize) -> bool {
        rhs != 0
    }

    open spec fn rem_spec(self, rhs: usize) -> Signed<usize> {
        signed_from(self.spec_is_positive(), self.spec_abs().uval() % (rhs as int))
    }
}

impl core::ops::Mul<isize> for Signed<usize> {
    type Output = Signed<usize>;

    fn mul(self, rhs: isize) -> (r: Signed<usize>) {
        let r = self.checked_mul(rhs).unwrap();
        proof {
            lemma_signed_from_unique(r, self.spec_is_positive() == (rhs > 0));
        }
        r
    }
}

impl vstd::std_specs::ops::MulSpecImpl<isize> for Signed<usize> {
    open spec fn obeys_mul_spec() -> bool {
        true
    }

    open spec fn mul_req(self, rhs: isize) -> bool {
        rhs != isize::MIN && self.spec_abs().uval() * abs_int(rhs as int) <= <usize as UnsignedValue>::umax()
    }

    open spec fn mul_spec(self, rhs: isize) -> Signed<usize> {
        signed_from(self.spec_is_positive() == (rhs > 0), self.spec_abs().uval() * abs_int(rhs as int))
    }
}

impl core::ops::Mul<usize> for Signed<usize> {
    type Output = Signed<usize>;

    fn mul(self, rhs: usize) -> (r: Signed<usize>) {
        let r = self.checked_mul_unsigned(rhs).unwrap();
        proof {
            lemma_signed_from_unique(r, self.spec_is_positive());
        }
        r
    }
}

impl vstd::std_specs::ops::MulSpecImpl<usize> for Signed<usize> {
    open spec fn obeys_mul_spec() -> bool {
        true
    }

    open spec fn mul_req(self, rhs: usize) -> bool {
        self.spec_abs().uval() * rhs <= <usize as UnsignedValue>::umax()
    }

    open spec fn mul_spec(self, rhs: usize) -> Signed<usize> {
        signed_from(self.spec_is_positive(), self.spec_abs().uval() * rhs)
    }
}

impl core::ops::Add<Signed<usize>> for usize {
    type Output = Signed<usize>;

    fn add(self, rhs: Signed<usize>) -> (r: Signed<usize>) {
        Signed::Positive(self) + rhs
    }
}

impl vstd::std_specs::ops::AddSpecImpl<Signed<usize>> for usize {
    open spec fn obeys_add_spec() -> bool {
        true
    }

    open spec fn add_req(self, rhs: Signed<usize>) -> bool {
        abs_int(self.uval() + sval(rhs)) <= <usize as UnsignedValue>::umax()
    }

    open spec fn add_spec(self, rhs: Signed<usize>) -> Signed<usize> {
        signed_sum(Signed::Positive(self), rhs)
    }
}

impl core::ops::Sub<Signed<usize>> for usize {
    type Output = Signed<usize>;

    fn sub(self, rhs: Signed<usize>) -> (r: Signed<usize>) {
        Signed::Positive(self) - rhs
    }
}

impl vstd::std_specs::ops::SubSpecImpl<Signed<usize>> for usize {
    open spec fn obeys_sub_spec() -> bool {
        true
    }

    open spec fn sub_req(self, rhs: Signed<usize>) -> bool {
        abs_int(self.uval() - sval(rhs)) <= <usize as UnsignedValue>::umax()
    }

    open spec fn sub_spec(self, rhs: Signed<usize>) -> Signed<usize> {
        signed_difference(Signed::Positive(self), rhs)
    }
}

/// A signed value is determined by its sign and magnitude.
proof fn lemma_signed_from_unique(r: Signed<usize>, positive: bool)
    requires
        r.spec_is_positive() == positive,
    ensures
        r == signed_from(positive, r.spec_abs().uval()),
{
    
}

impl PartialEq<Signed<usize>> for usize {
    fn eq(&self, other: &Signed<usize>) -> (r: bool) {
        *other == *self
    }
}

impl PartialEqSpecImpl<Signed<usize>> for usize {
    open spec fn obeys_eq_spec() -> bool {
        true
    }

    open spec fn eq_spec(&self, other: &Signed<usize>) -> bool {
        Signed::Positive(*self) == *other
    }
}

impl PartialOrd<Signed<usize>> for usize {
    fn partial_cmp(&self, other: &Signed<usize>) -> (r: Option<Ordering>) {
        Some(compare_signed(&Signed::Positive(*self), other))
    }
}

impl PartialOrdSpecImpl<Signed<usize>> for usize {
    open spec fn obeys_partial_cmp_spec() -> bool {
        true
    }

    open spec fn partial_cmp_spec(&self, other: &Signed<usize>) -> Option<Ordering> {
        Some(signed_order(Signed::Positive(*self), *other))
    }
}

impl core::ops::Div for Signed<usize> {
    type Output = Signed<usize>;

    fn div(self, rhs: Signed<usize>) -> (r: Signed<usize>) {
        match rhs {
            Signed::Positive(m) => self / m,
            Signed::Negative(m) => core::ops::Neg::neg(self / m),
        }
    }
}

impl vstd::std_specs::ops::DivSpecImpl for Signed<usize> {
    open spec fn obeys_div_spec() -> bool {
        true
    }

    open spec fn div_req(self, rhs: Signed<usize>) -> bool {
        rhs.spec_abs() != 0
    }

    open spec fn div_spec(self, rhs: Signed<usize>) -> Signed<usize> {
        signed_from(self.spec_is_positive() == rhs.spec_is_positive(), self.spec_abs() as int / rhs.spec_abs() as int)
    }
}

impl core::ops::Rem for Signed<usize> {
    type Output = Signed<usize>;

    fn rem(self, rhs: Signed<usize>) -> (r: Signed<usize>) {
        self % rhs.abs()
    }
}

impl vstd::std_specs::ops::RemSpecImpl for Signed<usize> {
    open spec fn obeys_rem_spec() -> bool {
        true
    }

    open spec fn rem_req(self, rhs: Signed<usize>) -> bool {
        rhs.spec_abs() != 0
    }

    open spec fn rem_spec(self, rhs: Signed<usize>) -> Signed<usize> {
        signed_from(self.spec_is_positive(), self.spec_abs() as int % rhs.spec_abs() as int)
    }
}

} // verus!
