use vstd::prelude::*;

use crate::signed::{min_int, Signed, UnsignedValue};

verus! {

/// The mathematical value of a signed quantity.
pub open spec fn sval<T: UnsignedValue>(s: Signed<T>) -> int {
    match s {
        Signed::Positive(v) => v.uval(),
        Signed::Negative(v) => -v.uval(),
    }
}

/// The absolute value of an integer.
pub open spec fn abs_int(v: int) -> int {
    if v < 0 {
        -v
    } else {
        v
    }
}

/// `v` clamped to `-max..=max`.
pub open spec fn clamp_int(v: int, max: int) -> int {
    if v > max {
        max
    } else if v < -max {
        -max
    } else {
        v
    }
}

/// The magnitude of `s` lies within the range of `T`.
pub open spec fn in_range<T: UnsignedValue>(s: Signed<T>) -> bool {
    0 <= s.spec_abs().uval() <= T::umax()
}

/// `r` represents the integer `v`; if `v` is zero, the sign of `r` is
/// `Positive` exactly when `zero_positive` holds.
pub open spec fn represents<T: UnsignedValue>(r: Signed<T>, v: int, zero_positive: bool) -> bool {
    &&& sval(r) == v
    &&& 0 <= r.spec_abs().uval()
    &&& (v == 0 ==> r.spec_is_positive() == zero_positive)
}

/// A signed value is determined by its sign and its magnitude.
pub proof fn lemma_represents_unique<T: UnsignedValue>(
    a: Signed<T>,
    b: Signed<T>,
    v: int,
    zero_positive: bool,
)
    requires
        represents(a, v, zero_positive),
        represents(b, v, zero_positive),
    ensures
        a == b,
{
    T::lemma_uval_injective(a.spec_abs(), b.spec_abs());
}

/// The signed value `a + b`, its sign being that of `a` when the sum is
/// zero.
pub open spec fn signed_sum<T: UnsignedValue>(a: Signed<T>, b: Signed<T>) -> Signed<T> {
    choose|r: Signed<T>| #[trigger] represents(r, sval(a) + sval(b), a.spec_is_positive())
}

/// The signed value `a - b`, its sign being that of `a` when the difference
/// is zero.
pub open spec fn signed_difference<T: UnsignedValue>(a: Signed<T>, b: Signed<T>) -> Signed<T> {
    choose|r: Signed<T>| #[trigger] represents(r, sval(a) - sval(b), a.spec_is_positive())
}

/// Negating twice gives back the value, and negation keeps the magnitude
/// and flips the mathematical value.
pub proof fn lemma_neg_involutive<T: UnsignedValue>(a: Signed<T>)
    ensures
        a.spec_neg().spec_neg() == a,
        a.spec_neg().spec_abs() == a.spec_abs(),
        sval(a.spec_neg()) == -sval(a),
{
}

/// Subtracting `b` from the sum `a + b` succeeds and gives back the value of
/// `a`.
pub proof fn lemma_add_sub_inverse<T: UnsignedValue>(a: Signed<T>, b: Signed<T>, sum: Signed<T>)
    requires
        in_range(a),
        represents(sum, sval(a) + sval(b), a.spec_is_positive()),
    ensures
        abs_int(sval(sum) - sval(b)) <= T::umax(),
        sval(sum) - sval(b) == sval(a),
{
}

/// A saturating operation gives the exact result whenever the checked one
/// succeeds.
pub proof fn lemma_saturating_exact(v: int, max: int)
    requires
        abs_int(v) <= max,
    ensures
        clamp_int(v, max) == v,
{
}

impl<T: UnsignedValue> Signed<T> {
    /// Returns the signum for this `Signed`.
    ///
    /// Returns:
    ///
    /// - `0` if the number is zero.
    /// - `1` if the value must be considered as positive.
    /// - `-1` if the value must be considered as negative.
    pub fn signum(self) -> (r: i32)
        ensures
            r == (if sval(self) == 0 {
                0
            } else if sval(self) > 0 {
                1
            } else {
                -1
            }),
    {
        let (val, positive) = match self {
            Signed::Positive(val) => (val, true),
            Signed::Negative(val) => (val, false),
        };
        if val.is_zero_value() {
            0i32
        } else if positive {
            1i32
        } else {
            -1i32
        }
    }

    /// Returns the checked subtraction `self - other`.
    ///
    /// Returns `None` if the magnitude of the difference exceeds the
    /// largest value of `T`. A zero difference keeps the sign of `self`.
    pub fn checked_sub(self, other: Self) -> (r: Option<Self>)
        ensures
            r is None <==> abs_int(sval(self) - sval(other)) > T::umax(),
            r matches Some(v) ==> represents(v, sval(self) - sval(other), self.spec_is_positive()),
    {
        match (self, other) {
            (Signed::Positive(a), Signed::Positive(b)) => {
                if a.ge_value(&b) {
                    Some(Signed::Positive(a.sub_value(b)))
                } else {
                    Some(Signed::Negative(b.sub_value(a)))
                }
            },
            (Signed::Negative(a), Signed::Negative(b)) => {
                if a.ge_value(&b) {
                    Some(Signed::Negative(a.sub_value(b)))
                } else {
                    Some(Signed::Positive(b.sub_value(a)))
                }
            },
            (Signed::Positive(a), Signed::Negative(b)) => match a.checked_add_value(b) {
                Some(v) => Some(Signed::Positive(v)),
                None => None,
            },
            (Signed::Negative(a), Signed::Positive(b)) => match a.checked_add_value(b) {
                Some(v) => Some(Signed::Negative(v)),
                None => None,
            },
        }
    }

    /// Returns the checked subtraction `self - other`.
    pub fn checked_sub_unsigned(self, other: T) -> (r: Option<Self>)
        ensures
            r is None <==> abs_int(sval(self) - other.uval()) > T::umax(),
            r matches Some(v) ==> represents(v, sval(self) - other.uval(), self.spec_is_positive()),
    {
        self.checked_sub(Signed::Positive(other))
    }

    /// Returns the checked addition `self + other`.
    ///
    /// Returns `None` if the magnitude of the sum exceeds the largest value
    /// of `T`. A zero sum keeps the sign of `self`.
    pub fn checked_add(self, other: Self) -> (r: Option<Self>)
        ensures
            r is None <==> abs_int(sval(self) + sval(other)) > T::umax(),
            r matches Some(v) ==> represents(v, sval(self) + sval(other), self.spec_is_positive()),
    {
        match (self, other) {
            (Signed::Positive(a), Signed::Positive(b)) => match a.checked_add_value(b) {
                Some(v) => Some(Signed::Positive(v)),
                None => None,
            },
            (Signed::Negative(a), Signed::Negative(b)) => match a.checked_add_value(b) {
                Some(v) => Some(Signed::Negative(v)),
                None => None,
            },
            (Signed::Positive(_), Signed::Negative(b)) => self.checked_sub(Signed::Positive(b)),
            (Signed::Negative(a), Signed::Positive(_)) => {
                match Signed::Positive(a).checked_sub(other) {
                    Some(v) => Some(core::ops::Neg::neg(v)),
                    None => None,
                }
            },
        }
    }

    /// Returns the checked addition `self + other`.
    pub fn checked_add_unsigned(self, other: T) -> (r: Option<Self>)
        ensures
            r is None <==> abs_int(sval(self) + other.uval()) > T::umax(),
            r matches Some(v) ==> represents(v, sval(self) + other.uval(), self.spec_is_positive()),
    {
        self.checked_add(Signed::Positive(other))
    }

    /// Returns the saturating subtraction `self - other`.
    ///
    /// The magnitude of the difference is capped to the largest value of `T`.
    pub fn saturating_sub(self, other: Self) -> (r: Self)
        ensures
            represents(r, clamp_int(sval(self) - sval(other), T::umax()), self.spec_is_positive()),
            in_range(self),
            in_range(other),
    {
        match (self, other) {
            (Signed::Positive(a), Signed::Positive(b)) => {
                if a.ge_value(&b) {
                    Signed::Positive(a.sub_value(b))
                } else {
                    Signed::Negative(b.sub_value(a))
                }
            },
            (Signed::Negative(a), Signed::Negative(b)) => {
                if a.ge_value(&b) {
                    Signed::Negative(a.sub_value(b))
                } else {
                    Signed::Positive(b.sub_value(a))
                }
            },
            (Signed::Positive(a), Signed::Negative(b)) => Signed::Positive(a.saturating_add_value(b)),
            (Signed::Negative(a), Signed::Positive(b)) => Signed::Negative(a.saturating_add_value(b)),
        }
    }

    /// Returns the saturating subtraction `self - other`.
    pub fn saturating_sub_unsigned(self, other: T) -> (r: Self)
        ensures
            represents(r, clamp_int(sval(self) - other.uval(), T::umax()), self.spec_is_positive()),
    {
        self.saturating_sub(Signed::Positive(other))
    }

    /// Returns the saturating addition `self + other`.
    ///
    /// The magnitude of the sum is capped to the largest value of `T`.
    pub fn saturating_add(self, other: Self) -> (r: Self)
        ensures
            represents(r, clamp_int(sval(self) + sval(other), T::umax()), self.spec_is_positive()),
    {
        match (self, other) {
            (Signed::Positive(a), Signed::Positive(b)) => Signed::Positive(a.saturating_add_value(b)),
            (Signed::Negative(a), Signed::Negative(b)) => Signed::Negative(a.saturating_add_value(b)),
            (Signed::Positive(_), Signed::Negative(b)) => self.saturating_sub(Signed::Positive(b)),
            (Signed::Negative(a), Signed::Positive(_)) => core::ops::Neg::neg(Signed::Positive(a).saturating_sub(other)),
        }
    }

    /// Returns the saturating addition `self + other`.
    pub fn saturating_add_unsigned(self, other: T) -> (r: Self)
        ensures
            represents(r, clamp_int(sval(self) + other.uval(), T::umax()), self.spec_is_positive()),
    {
        self.saturating_add(Signed::Positive(other))
    }
}

impl<T: UnsignedValue> core::ops::Add for Signed<T> {
    type Output = Signed<T>;

    fn add(self, rhs: Signed<T>) -> (r: Signed<T>) {
        let r = self.checked_add(rhs).unwrap();
        proof {
            lemma_represents_unique(
                r,
                signed_sum(self, rhs),
                sval(self) + sval(rhs),
                self.spec_is_positive(),
            );
        }
        r
    }
}

impl<T: UnsignedValue> vstd::std_specs::ops::AddSpecImpl for Signed<T> {
    open spec fn obeys_add_spec() -> bool {
        true
    }

    open spec fn add_req(self, rhs: Signed<T>) -> bool {
        abs_int(sval(self) + sval(rhs)) <= T::umax()
    }

    open spec fn add_spec(self, rhs: Signed<T>) -> Signed<T> {
        signed_sum(self, rhs)
    }
}

impl<T: UnsignedValue> core::ops::Sub for Signed<T> {
    type Output = Signed<T>;

    fn sub(self, rhs: Signed<T>) -> (r: Signed<T>) {
        let r = self.checked_sub(rhs).unwrap();
        proof {
            lemma_represents_unique(
                r,
                signed_difference(self, rhs),
                sval(self) - sval(rhs),
                self.spec_is_positive(),
            );
        }
        r
    }
}

impl<T: UnsignedValue> vstd::std_specs::ops::SubSpecImpl for Signed<T> {
    open spec fn obeys_sub_spec() -> bool {
        true
    }

    open spec fn sub_req(self, rhs: Signed<T>) -> bool {
        abs_int(sval(self) - sval(rhs)) <= T::umax()
    }

    open spec fn sub_spec(self, rhs: Signed<T>) -> Signed<T> {
        signed_difference(self, rhs)
    }
}

impl<T: UnsignedValue> core::ops::Add<T> for Signed<T> {
    type Output = Signed<T>;

    fn add(self, rhs: T) -> (r: Signed<T>) {
        self + Signed::Positive(rhs)
    }
}

impl<T: UnsignedValue> vstd::std_specs::ops::AddSpecImpl<T> for Signed<T> {
    open spec fn obeys_add_spec() -> bool {
        true
    }

    open spec fn add_req(self, rhs: T) -> bool {
        abs_int(sval(self) + rhs.uval()) <= T::umax()
    }

    open spec fn add_spec(self, rhs: T) -> Signed<T> {
        signed_sum(self, Signed::Positive(rhs))
    }
}

impl<T: UnsignedValue> core::ops::Sub<T> for Signed<T> {
    type Output = Signed<T>;

    fn sub(self, rhs: T) -> (r: Signed<T>) {
        self - Signed::Positive(rhs)
    }
}

impl<T: UnsignedValue> vstd::std_specs::ops::SubSpecImpl<T> for Signed<T> {
    open spec fn obeys_sub_spec() -> bool {
        true
    }

    open spec fn sub_req(self, rhs: T) -> bool {
        abs_int(sval(self) - rhs.uval()) <= T::umax()
    }

    open spec fn sub_spec(self, rhs: T) -> Signed<T> {
        signed_difference(self, Signed::Positive(rhs))
    }
}

} // verus!
