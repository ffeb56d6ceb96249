use vstd::prelude::*;

verus! {

/// A signed wrapper.
///
/// This wrapper allows representing a signed value from a type which is
/// itself unsigned. In C APIs, this is represented by a tuple with a
/// signed integer positive or negative and the absolute value.
///
/// Zero can be represented with either sign: `Positive(0)` and
/// `Negative(0)` are distinct values, and the first is ordered above the
/// second.
#[derive(Clone, Copy, Debug, Eq, PartialEq, Structural, Hash)]
pub enum Signed<T> {
    Negative(T),
    Positive(T),
}

/// Unsigned quantities which can be wrapped in a [`Signed`].
///
/// Each implementor is an unsigned integer (or a new type around one)
/// whose values range over `0..=umax()`.
pub trait UnsignedValue: Copy + Sized {
    /// The mathematical value of `self`.
    spec fn uval(self) -> int;

    /// The largest value the type can hold.
    spec fn umax() -> int;

    /// Two values with the same mathematical value are the same value.
    proof fn lemma_uval_injective(a: Self, b: Self)
        requires
            a.uval() == b.uval(),
        ensures
            a == b,
    ;

    /// The largest value of the type is positive.
    proof fn lemma_umax_positive()
        ensures
            Self::umax() > 0,
    ;

    /// Returns whether `self` is zero.
    fn is_zero_value(&self) -> (r: bool)
        ensures
            r == (self.uval() == 0),
            0 <= self.uval() <= Self::umax(),
    ;

    /// Returns whether `self >= other`.
    fn ge_value(&self, other: &Self) -> (r: bool)
        ensures
            r == (self.uval() >= other.uval()),
            0 <= self.uval() <= Self::umax(),
            0 <= other.uval() <= Self::umax(),
    ;

    /// Returns `self - other`, where `other` is not larger than `self`.
    fn sub_value(self, other: Self) -> (r: Self)
        requires
            self.uval() >= other.uval(),
        ensures
            r.uval() == self.uval() - other.uval(),
    ;

    /// Returns `self + other` if it can be represented.
    fn checked_add_value(self, other: Self) -> (r: Option<Self>)
        ensures
            0 <= self.uval() <= Self::umax(),
            0 <= other.uval() <= Self::umax(),
            match r {
                Some(v) => v.uval() == self.uval() + other.uval() && v.uval() <= Self::umax(),
                None => self.uval() + other.uval() > Self::umax(),
            },
    ;

    /// Returns `self - other`, or zero if `other` is larger than `self`.
    fn saturating_sub_value(self, other: Self) -> (r: Self)
        ensures
            0 <= self.uval() <= Self::umax(),
            0 <= other.uval() <= Self::umax(),
            r.uval() == (if self.uval() >= other.uval() {
                self.uval() - other.uval()
            } else {
                0
            }),
    ;

    /// Returns `self + other` wrapped around `umax() + 1`, with a flag set
    /// when the wrapping happened.
    fn overflowing_add_value(self, other: Self) -> (r: (Self, bool))
        ensures
            0 <= self.uval() <= Self::umax(),
            0 <= other.uval() <= Self::umax(),
            r.1 == (self.uval() + other.uval() > Self::umax()),
            r.0.uval() == (if r.1 {
                self.uval() + other.uval() - Self::umax() - 1
            } else {
                self.uval() + other.uval()
            }),
    ;

    /// Returns `self - other` wrapped around `umax() + 1`, with a flag set
    /// when the wrapping happened.
    fn overflowing_sub_value(self, other: Self) -> (r: (Self, bool))
        ensures
            0 <= self.uval() <= Self::umax(),
            0 <= other.uval() <= Self::umax(),
            r.1 == (self.uval() < other.uval()),
            r.0.uval() == (if r.1 {
                Self::umax() - other.uval() + self.uval() + 1
            } else {
                self.uval() - other.uval()
            }),
    ;

    /// Returns `self + other`, capped to the largest representable value.
    fn saturating_add_value(self, other: Self) -> (r: Self)
        ensures
            0 <= self.uval() <= Self::umax(),
            0 <= other.uval() <= Self::umax(),
            r.uval() == min_int(self.uval() + other.uval(), Self::umax()),
    ;
}

/// The smaller of two integers.
pub open spec fn min_int(a: int, b: int) -> int {
    if a <= b {
        a
    } else {
        b
    }
}

impl<T> Signed<T> {
    /// The sign of `self`: `true` for `Positive`.
    pub open spec fn spec_is_positive(self) -> bool {
        self is Positive
    }

    /// The absolute value held by `self`.
    pub open spec fn spec_abs(self) -> T {
        match self {
            Signed::Positive(v) => v,
            Signed::Negative(v) => v,
        }
    }

    /// The value of `self` with its sign flipped.
    pub open spec fn spec_neg(self) -> Signed<T> {
        match self {
            Signed::Positive(v) => Signed::Negative(v),
            Signed::Negative(v) => Signed::Positive(v),
        }
    }

    /// Returns `true` if `self` is `Positive`.
    pub fn is_positive(self) -> (r: bool)
        ensures
            r == self.spec_is_positive(),
    {
        matches!(self, Signed::Positive(_))
    }

    /// Returns `Some(value)`, where `value` is the inner value,
    /// if `self` is positive.
    pub fn positive(self) -> (r: Option<T>)
        ensures
            r == (match self {
                Signed::Positive(v) => Some(v),
                Signed::Negative(_) => None::<T>,
            }),
    {
        match self {
            Signed::Positive(val) => Some(val),
            Signed::Negative(_) => None,
        }
    }

    /// Transforms the `Signed<T>` into a `Result<T, E>`,
    /// mapping `Positive(v)` to `Ok(v)` and `Negative(_)` to `Err(err)`.
    pub fn positive_or<E>(self, err: E) -> (r: Result<T, E>)
        ensures
            r == (match self {
                Signed::Positive(v) => Ok(v),
                Signed::Negative(_) => Err::<T, E>(err),
            }),
    {
        match self {
            Signed::Positive(val) => Ok(val),
            Signed::Negative(_) => Err(err),
        }
    }

    /// Transforms the `Signed<T>` into a `Result<T, E>`,
    /// mapping `Positive(v)` to `Ok(v)` and `Negative(v)` to `Err(err(v))`.
    pub fn positive_or_else<E, F: FnOnce(T) -> E>(self, err: F) -> (r: Result<T, E>)
        requires
            self matches Signed::Negative(v) ==> call_requires(err, (v,)),
        ensures
            match self {
                Signed::Positive(v) => r == Ok::<T, E>(v),
                Signed::Negative(v) => r matches Err(e) && call_ensures(err, (v,), e),
            },
    {
        match self {
            Signed::Positive(val) => Ok(val),
            Signed::Negative(val) => Err(err(val)),
        }
    }

    /// Returns `true` if `self` is `Negative`.
    pub fn is_negative(self) -> (r: bool)
        ensures
            r == !self.spec_is_positive(),
    {
        matches!(self, Signed::Negative(_))
    }

    /// Returns `Some(value)`, where `value` is the inner value,
    /// if `self` is negative.
    pub fn negative(self) -> (r: Option<T>)
        ensures
            r == (match self {
                Signed::Negative(v) => Some(v),
                Signed::Positive(_) => None::<T>,
            }),
    {
        match self {
            Signed::Negative(val) => Some(val),
            Signed::Positive(_) => None,
        }
    }

    /// Transforms the `Signed<T>` into a `Result<T, E>`,
    /// mapping `Negative(v)` to `Ok(v)` and `Positive(_)` to `Err(err)`.
    pub fn negative_or<E>(self, err: E) -> (r: Result<T, E>)
        ensures
            r == (match self {
                Signed::Negative(v) => Ok(v),
                Signed::Positive(_) => Err::<T, E>(err),
            }),
    {
        match self {
            Signed::Negative(val) => Ok(val),
            Signed::Positive(_) => Err(err),
        }
    }

    /// Transforms the `Signed<T>` into a `Result<T, E>`,
    /// mapping `Negative(v)` to `Ok(v)` and `Positive(v)` to `Err(err(v))`.
    pub fn negative_or_else<E, F: FnOnce(T) -> E>(self, err: F) -> (r: Result<T, E>)
        requires
            self matches Signed::Positive(v) ==> call_requires(err, (v,)),
        ensures
            match self {
                Signed::Negative(v) => r == Ok::<T, E>(v),
                Signed::Positive(v) => r matches Err(e) && call_ensures(err, (v,), e),
            },
    {
        match self {
            Signed::Negative(val) => Ok(val),
            Signed::Positive(val) => Err(err(val)),
        }
    }

    /// Returns the absolute value of `self`.
    pub fn abs(self) -> (r: T)
        ensures
            r == self.spec_abs(),
    {
        match self {
            Signed::Positive(val) | Signed::Negative(val) => val,
        }
    }
}

impl<T> core::ops::Neg for Signed<T> {
    type Output = Signed<T>;

    fn neg(self) -> (r: Signed<T>) {
        match self {
            Signed::Positive(val) => Signed::Negative(val),
            Signed::Negative(val) => Signed::Positive(val),
        }
    }
}

impl<T> vstd::std_specs::ops::NegSpecImpl for Signed<T> {
    open spec fn obeys_neg_spec() -> bool {
        true
    }

    open spec fn neg_req(self) -> bool {
        true
    }

    open spec fn neg_spec(self) -> Signed<T> {
        self.spec_neg()
    }
}

impl<T> Signed<Option<T>> {
    /// Transposes a `Signed` `Option` into an `Option` of a `Signed`.
    ///
    /// Note that if the inner value was `None`, the sign is lost.
    pub fn transpose(self) -> (r: Option<Signed<T>>)
        ensures
            r == (match self {
                Signed::Positive(Some(v)) => Some(Signed::Positive(v)),
                Signed::Negative(Some(v)) => Some(Signed::Negative(v)),
                _ => None::<Signed<T>>,
            }),
    {
        match self {
            Signed::Positive(Some(val)) => Some(Signed::Positive(val)),
            Signed::Negative(Some(val)) => Some(Signed::Negative(val)),
            _ => None,
        }
    }
}

/// Types which may be displayed with a sign.
pub trait SignedIntrinsic {}

/// An optional signed value prepared for display.
pub struct DisplayableOptionSigned<T>(pub Option<Signed<T>>);

/// Builds the displayable form of an optional signed value.
pub fn display_option_signed<T>(v: Option<Signed<T>>) -> (r: DisplayableOptionSigned<T>)
    ensures
        r.0 == v,
{
    DisplayableOptionSigned(v)
}

} // verus!
