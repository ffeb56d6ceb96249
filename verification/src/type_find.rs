use vstd::prelude::*;

use core::cmp::Ordering;

use crate::event_type::{i32_bits_as_u32, i32_to_u32_bits, lemma_u32_i32_bits, u32_bits_as_i32, u32_to_i32_bits};
use vstd::std_specs::cmp::{PartialEqSpecImpl, PartialOrdSpecImpl};
use vstd::std_specs::ops::{AddSpecImpl, SubSpecImpl};

verus! {

/// How probable it is that a type finder found the right type.
#[derive(Debug, Hash, Clone, Copy)]
pub enum TypeFindProbability {
    NotFound,
    Minimum,
    Possible,
    Likely,
    NearlyCertain,
    Maximum,
    __Unknown(i32),
}

/// The C value of a probability.
pub open spec fn probability_to_raw(p: TypeFindProbability) -> i32 {
    match p {
        TypeFindProbability::NotFound => 0,
        TypeFindProbability::Minimum => 1,
        TypeFindProbability::Possible => 50,
        TypeFindProbability::Likely => 80,
        TypeFindProbability::NearlyCertain => 99,
        TypeFindProbability::Maximum => 100,
        TypeFindProbability::__Unknown(v) => v,
    }
}

/// The probability of a C value; values of no known probability are kept.
pub open spec fn probability_from_raw(v: i32) -> TypeFindProbability {
    if v == 0 {
        TypeFindProbability::NotFound
    } else if v == 1 {
        TypeFindProbability::Minimum
    } else if v == 50 {
        TypeFindProbability::Possible
    } else if v == 80 {
        TypeFindProbability::Likely
    } else if v == 99 {
        TypeFindProbability::NearlyCertain
    } else if v == 100 {
        TypeFindProbability::Maximum
    } else {
        TypeFindProbability::__Unknown(v)
    }
}

/// The value by which probabilities are compared: their C value read as
/// unsigned.
pub open spec fn probability_order_value(p: TypeFindProbability) -> u32 {
    i32_bits_as_u32(probability_to_raw(p))
}

/// The probability `p` raised by `n`, saturating at the largest unsigned
/// value.
pub open spec fn probability_plus(p: TypeFindProbability, n: u32) -> TypeFindProbability {
    let s = probability_order_value(p) + n;
    probability_from_raw(
        u32_bits_as_i32(
            if s > u32::MAX {
                u32::MAX
            } else {
                s as u32
            },
        ),
    )
}

/// The probability `p` lowered by `n`, saturating at zero.
pub open spec fn probability_minus(p: TypeFindProbability, n: u32) -> TypeFindProbability {
    let v = probability_order_value(p);
    probability_from_raw(
        u32_bits_as_i32(
            if v >= n {
                (v - n) as u32
            } else {
                0u32
            },
        ),
    )
}

impl TypeFindProbability {
    /// Returns the C value of the probability.
    pub fn into_glib(self) -> (r: i32)
        ensures
            r == probability_to_raw(self),
    {
        match self {
            TypeFindProbability::NotFound => 0,
            TypeFindProbability::Minimum => 1,
            TypeFindProbability::Possible => 50,
            TypeFindProbability::Likely => 80,
            TypeFindProbability::NearlyCertain => 99,
            TypeFindProbability::Maximum => 100,
            TypeFindProbability::__Unknown(v) => v,
        }
    }

    /// Returns the probability of a C value; values of no known probability
    /// are kept in `__Unknown`.
    pub fn from_glib(value: i32) -> (r: TypeFindProbability)
        ensures
            r == probability_from_raw(value),
    {
        if value == 0 {
            TypeFindProbability::NotFound
        } else if value == 1 {
            TypeFindProbability::Minimum
        } else if value == 50 {
            TypeFindProbability::Possible
        } else if value == 80 {
            TypeFindProbability::Likely
        } else if value == 99 {
            TypeFindProbability::NearlyCertain
        } else if value == 100 {
            TypeFindProbability::Maximum
        } else {
            TypeFindProbability::__Unknown(value)
        }
    }

    /// Returns the value by which probabilities are compared.
    fn order_value(&self) -> (r: u32)
        ensures
            r == probability_order_value(*self),
    {
        i32_to_u32_bits(self.into_glib())
    }
}

impl PartialEq for TypeFindProbability {
    fn eq(&self, other: &TypeFindProbability) -> (r: bool) {
        self.order_value() == other.order_value()
    }
}

impl PartialEqSpecImpl for TypeFindProbability {
    open spec fn obeys_eq_spec() -> bool {
        true
    }

    open spec fn eq_spec(&self, other: &TypeFindProbability) -> bool {
        probability_order_value(*self) == probability_order_value(*other)
    }
}

impl Eq for TypeFindProbability {
}

/// The order of two unsigned values.
pub open spec fn u32_order(a: u32, b: u32) -> Ordering {
    if a < b {
        Ordering::Less
    } else if a == b {
        Ordering::Equal
    } else {
        Ordering::Greater
    }
}

impl PartialOrd for TypeFindProbability {
    fn partial_cmp(&self, other: &TypeFindProbability) -> (r: Option<Ordering>) {
        let a = self.order_value();
        let b = other.order_value();
        if a < b {
            Some(Ordering::Less)
        } else if a == b {
            Some(Ordering::Equal)
        } else {
            Some(Ordering::Greater)
        }
    }
}

impl PartialOrdSpecImpl for TypeFindProbability {
    open spec fn obeys_partial_cmp_spec() -> bool {
        true
    }

    open spec fn partial_cmp_spec(&self, other: &TypeFindProbability) -> Option<Ordering> {
        Some(u32_order(probability_order_value(*self), probability_order_value(*other)))
    }
}

impl core::ops::Add<u32> for TypeFindProbability {
    type Output = TypeFindProbability;

    fn add(self, rhs: u32) -> (r: TypeFindProbability) {
        let v = self.order_value();
        let s: u32 = if v <= u32::MAX - rhs {
            v + rhs
        } else {
            u32::MAX
        };
        TypeFindProbability::from_glib(u32_to_i32_bits(s))
    }
}

impl AddSpecImpl<u32> for TypeFindProbability {
    open spec fn obeys_add_spec() -> bool {
        true
    }

    open spec fn add_req(self, rhs: u32) -> bool {
        true
    }

    open spec fn add_spec(self, rhs: u32) -> TypeFindProbability {
        probability_plus(self, rhs)
    }
}

impl core::ops::Sub<u32> for TypeFindProbability {
    type Output = TypeFindProbability;

    fn sub(self, rhs: u32) -> (r: TypeFindProbability) {
        let v = self.order_value();
        let s: u32 = if v >= rhs {
            v - rhs
        } else {
            0
        };
        TypeFindProbability::from_glib(u32_to_i32_bits(s))
    }
}

impl SubSpecImpl<u32> for TypeFindProbability {
    open spec fn obeys_sub_spec() -> bool {
        true
    }

    open spec fn sub_req(self, rhs: u32) -> bool {
        true
    }

    open spec fn sub_spec(self, rhs: u32) -> TypeFindProbability {
        probability_minus(self, rhs)
    }
}

/// Every C value is given back by the probability read from it.
pub proof fn lemma_probability_raw_roundtrip(v: i32)
    ensures
        probability_to_raw(probability_from_raw(v)) == v,
{
}

/// A probability is given back by reading its C value, unless it is an
/// unknown value that holds the C value of a known one.
pub proof fn lemma_probability_value_roundtrip(t: TypeFindProbability)
    requires
        t matches TypeFindProbability::__Unknown(v) ==> probability_from_raw(v) is __Unknown,
    ensures
        probability_from_raw(probability_to_raw(t)) == t,
{
}

/// Raising a probability never lowers it, and lowering it never raises it.
pub proof fn lemma_probability_plus_minus_monotone(p: TypeFindProbability, n: u32)
    requires
        p matches TypeFindProbability::__Unknown(v) ==> probability_from_raw(v) is __Unknown,
    ensures
        probability_order_value(probability_plus(p, n)) >= probability_order_value(p),
        probability_order_value(probability_minus(p, n)) <= probability_order_value(p),
{
    let v = probability_order_value(p);
    let s = v + n;
    let up: u32 = if s > u32::MAX { u32::MAX } else { s as u32 };
    let down: u32 = if v >= n { (v - n) as u32 } else { 0u32 };
    lemma_probability_raw_roundtrip(u32_bits_as_i32(up));
    lemma_probability_raw_roundtrip(u32_bits_as_i32(down));
    lemma_u32_i32_bits(up);
    lemma_u32_i32_bits(down);
}


/// The C values of the known type find probabilities are those of GStreamer's C
/// headers, and each is read back as its own probability.
pub proof fn lemma_type_find_probability_c_values()
    ensures
        probability_to_raw(TypeFindProbability::NotFound) == 0,
        probability_from_raw(0) == TypeFindProbability::NotFound,
        probability_to_raw(TypeFindProbability::Minimum) == 1,
        probability_from_raw(1) == TypeFindProbability::Minimum,
        probability_to_raw(TypeFindProbability::Possible) == 50,
        probability_from_raw(50) == TypeFindProbability::Possible,
        probability_to_raw(TypeFindProbability::Likely) == 80,
        probability_from_raw(80) == TypeFindProbability::Likely,
        probability_to_raw(TypeFindProbability::NearlyCertain) == 99,
        probability_from_raw(99) == TypeFindProbability::NearlyCertain,
        probability_to_raw(TypeFindProbability::Maximum) == 100,
        probability_from_raw(100) == TypeFindProbability::Maximum,
{
}

} // verus!
