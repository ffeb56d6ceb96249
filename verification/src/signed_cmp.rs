use vstd::prelude::*;

use core::cmp::Ordering;

use crate::signed::{Signed, UnsignedValue};
use crate::signed_ops::sval;
use vstd::std_specs::cmp::{PartialEqSpecImpl, PartialOrdSpecImpl};

verus! {

/// The order of two integers.
pub open spec fn order_of(a: int, b: int) -> Ordering {
    if a < b {
        Ordering::Less
    } else if a == b {
        Ordering::Equal
    } else {
        Ordering::Greater
    }
}

/// The order of signed values: positive values above negative ones (zeros
/// included), positive values by magnitude, negative values by reversed
/// magnitude.
pub open spec fn signed_order<T: UnsignedValue>(a: Signed<T>, b: Signed<T>) -> Ordering {
    match (a, b) {
        (Signed::Positive(x), Signed::Positive(y)) => order_of(x.uval(), y.uval()),
        (Signed::Negative(x), Signed::Negative(y)) => order_of(y.uval(), x.uval()),
        (Signed::Positive(_), Signed::Negative(_)) => Ordering::Greater,
        (Signed::Negative(_), Signed::Positive(_)) => Ordering::Less,
    }
}

/// Signed values are ordered by their mathematical value, except that a
/// positive zero is above a negative zero.
pub proof fn lemma_signed_order_by_value<T: UnsignedValue>(a: Signed<T>, b: Signed<T>)
    requires
        0 <= a.spec_abs().uval(),
        0 <= b.spec_abs().uval(),
        !(sval(a) == 0 && sval(b) == 0 && a.spec_is_positive() != b.spec_is_positive()),
    ensures
        signed_order(a, b) == order_of(sval(a), sval(b)),
{
}

/// Swapping the operands reverses the order, and a value is equal only to
/// itself.
pub proof fn lemma_signed_order_antisymmetric<T: UnsignedValue>(a: Signed<T>, b: Signed<T>)
    ensures
        signed_order(a, b) == Ordering::Less <==> signed_order(b, a) == Ordering::Greater,
        signed_order(a, b) == Ordering::Equal <==> a == b,
{
    if signed_order(a, b) == Ordering::Equal {
        T::lemma_uval_injective(a.spec_abs(), b.spec_abs());
    }
}

/// Compares two magnitudes.
fn compare_values<T: UnsignedValue>(a: &T, b: &T) -> (r: Ordering)
    ensures
        r == order_of(a.uval(), b.uval()),
{
    if !a.ge_value(b) {
        Ordering::Less
    } else if b.ge_value(a) {
        Ordering::Equal
    } else {
        Ordering::Greater
    }
}

/// Compares two signed values.
pub fn compare_signed<T: UnsignedValue>(a: &Signed<T>, b: &Signed<T>) -> (r: Ordering)
    ensures
        r == signed_order(*a, *b),
{
    match (a, b) {
        (Signed::Positive(x), Signed::Positive(y)) => compare_values(x, y),
        (Signed::Negative(x), Signed::Negative(y)) => compare_values(y, x),
        (Signed::Positive(_), Signed::Negative(_)) => Ordering::Greater,
        (Signed::Negative(_), Signed::Positive(_)) => Ordering::Less,
    }
}

impl<T: UnsignedValue + PartialEq> PartialOrd for Signed<T> {
    fn partial_cmp(&self, other: &Signed<T>) -> (r: Option<Ordering>) {
        Some(compare_signed(self, other))
    }
}

impl<T: UnsignedValue + PartialEq> PartialOrdSpecImpl for Signed<T> {
    open spec fn obeys_partial_cmp_spec() -> bool {
        true
    }

    open spec fn partial_cmp_spec(&self, other: &Signed<T>) -> Option<Ordering> {
        Some(signed_order(*self, *other))
    }
}

/// Returns whether two signed values are the same value, sign included.
fn same_signed<T: UnsignedValue>(a: &Signed<T>, b: &Signed<T>) -> (r: bool)
    ensures
        r == (*a == *b),
{
    let r = match (a, b) {
        (Signed::Positive(x), Signed::Positive(y)) => x.ge_value(y) && y.ge_value(x),
        (Signed::Negative(x), Signed::Negative(y)) => x.ge_value(y) && y.ge_value(x),
        _ => false,
    };
    proof {
        if r {
            T::lemma_uval_injective(a.spec_abs(), b.spec_abs());
        }
    }
    r
}

impl<T: UnsignedValue + PartialEq> PartialEq<T> for Signed<T> {
    fn eq(&self, other: &T) -> (r: bool) {
        same_signed(self, &Signed::Positive(*other))
    }
}

impl<T: UnsignedValue + PartialEq> PartialEqSpecImpl<T> for Signed<T> {
    open spec fn obeys_eq_spec() -> bool {
        true
    }

    open spec fn eq_spec(&self, other: &T) -> bool {
        *self == Signed::Positive(*other)
    }
}

impl<T: UnsignedValue + PartialEq> PartialOrd<T> for Signed<T> {
    fn partial_cmp(&self, other: &T) -> (r: Option<Ordering>) {
        Some(compare_signed(self, &Signed::Positive(*other)))
    }
}

impl<T: UnsignedValue + PartialEq> PartialOrdSpecImpl<T> for Signed<T> {
    open spec fn obeys_partial_cmp_spec() -> bool {
        true
    }

    open spec fn partial_cmp_spec(&self, other: &T) -> Option<Ordering> {
        Some(signed_order(*self, Signed::Positive(*other)))
    }
}

} // verus!
