use vstd::prelude::*;

use crate::format_kind::Format;

verus! {

/// A quantity qualified by a [`Format`].
pub trait FormattedValue: Copy + Sized {
    /// The format of the type.
    spec fn spec_default_format() -> Format;

    /// The format of the value.
    spec fn spec_format(&self) -> Format;

    /// Whether the value is defined.
    spec fn spec_is_some(&self) -> bool;

    /// The C representation of the value.
    spec fn spec_raw_value(&self) -> int;

    /// Returns the format of the type.
    fn default_format() -> (r: Format)
        ensures
            r == Self::spec_default_format(),
    ;

    /// Returns the format of the value.
    fn format(&self) -> (r: Format)
        ensures
            r == self.spec_format(),
    ;

    /// Returns `true` if this `FormattedValue` represents a defined value.
    fn is_some(&self) -> (r: bool)
        ensures
            r == self.spec_is_some(),
    ;

    /// Returns `true` if this `FormattedValue` represents an undefined value.
    fn is_none(&self) -> (r: bool)
        ensures
            r == !self.spec_is_some(),
    {
        !self.is_some()
    }

    /// Returns the C representation of the value.
    fn into_raw_value(self) -> (r: i64)
        ensures
            r as int == self.spec_raw_value(),
    ;
}

/// A [`FormattedValue`] which can be built from any C value.
pub trait FormattedValueFullRange: FormattedValue {
    /// The value built from the C value `value` in format `format`.
    spec fn spec_from_raw(format: Format, value: i64) -> Self;

    /// Whether `format` is acceptable for this type.
    spec fn spec_accepts_format(format: Format) -> bool;

    /// Builds a value from its C representation.
    fn from_raw(format: Format, value: i64) -> (r: Self)
        requires
            Self::spec_accepts_format(format),
        ensures
            r == Self::spec_from_raw(format, value),
    ;
}

/// A trait implemented on the intrinsic type of a `FormattedValue`.
pub trait FormattedValueIntrinsic: FormattedValue {}

/// A [`FormattedValue`] whose format is fixed by its type.
pub trait SpecificFormattedValue: FormattedValue {}

/// Builds the `None` value of a formatted value type.
pub trait FormattedValueNoneBuilder: FormattedValueFullRange {
    /// The `None` value of the type.
    spec fn spec_none() -> Self;

    /// The `None` value of the type in `format`.
    spec fn spec_none_for_format(format: Format) -> Self;

    /// Whether `None` can be built without knowing the format.
    spec fn spec_none_known() -> bool;

    /// Whether `None` can be represented in `format`.
    spec fn spec_none_representable(format: Format) -> bool;

    /// Returns the `None` value for `Self` if such a value can be represented.
    ///
    /// For specific formatted values, this is `Option::None`. A
    /// `GenericFormattedValue` can only build `None` with a known format.
    fn none() -> (r: Self)
        requires
            Self::spec_none_known(),
        ensures
            r == Self::spec_none(),
            !r.spec_is_some(),
            r.spec_format() == Self::spec_default_format(),
    ;

    /// Returns the `None` value for `Self` in `format`, if `format` can
    /// represent that value.
    fn none_for_format(format: Format) -> (r: Self)
        requires
            Self::spec_none_representable(format),
        ensures
            r == Self::spec_none_for_format(format),
            !r.spec_is_some(),
            r.spec_format() == format,
    ;
}

/// A trait implemented on unsigned types which can be converted into
/// [`crate::signed::Signed`]s.
pub trait UnsignedIntoSigned: Copy + Sized {
    type Signed;

    /// The positive counterpart of `self`.
    spec fn spec_into_positive(self) -> Self::Signed;

    /// The negative counterpart of `self`.
    spec fn spec_into_negative(self) -> Self::Signed;

    /// Whether `self` can be given a sign.
    spec fn spec_can_sign(self) -> bool;

    /// Converts `self` into a signed value matching the given `sign`:
    /// positive when `sign > 0`, negative otherwise.
    fn into_signed(self, sign: i32) -> (r: Self::Signed)
        requires
            self.spec_can_sign(),
        ensures
            r == (if sign > 0 {
                self.spec_into_positive()
            } else {
                self.spec_into_negative()
            }),
    {
        if sign > 0 {
            self.into_positive()
        } else {
            self.into_negative()
        }
    }

    /// Converts `self` into a positive value.
    fn into_positive(self) -> (r: Self::Signed)
        requires
            self.spec_can_sign(),
        ensures
            r == self.spec_into_positive(),
    ;

    /// Converts `self` into a negative value.
    fn into_negative(self) -> (r: Self::Signed)
        requires
            self.spec_can_sign(),
        ensures
            r == self.spec_into_negative(),
    ;
}

/// Builds the `None` value of a formatted value type as a signed value.
pub trait NoneSignedBuilder: FormattedValueNoneBuilder {
    type Signed;

    /// The signed `None` value of the type.
    spec fn spec_none_signed() -> Self::Signed;

    /// The signed `None` value of the type in `format`.
    spec fn spec_none_signed_for_format(format: Format) -> Self::Signed;

    /// Whether the signed `None` value can be built without a format.
    spec fn spec_none_signed_known() -> bool;

    /// Whether the signed `None` value can be built in `format`.
    spec fn spec_none_signed_representable(format: Format) -> bool;

    /// Returns the `None` value for `Self` as a signed value if such a value
    /// can be represented.
    fn none_signed() -> (r: Self::Signed)
        requires
            Self::spec_none_signed_known(),
        ensures
            r == Self::spec_none_signed(),
    ;

    /// Returns the `None` value for `Self` as a signed value in `format`,
    /// if such a value can be represented.
    fn none_signed_for_format(format: Format) -> (r: Self::Signed)
        requires
            Self::spec_none_signed_representable(format),
        ensures
            r == Self::spec_none_signed_for_format(format),
    ;
}

impl<T> NoneSignedBuilder for T where T: UnsignedIntoSigned + FormattedValueNoneBuilder {
    type Signed = <T as UnsignedIntoSigned>::Signed;

    open spec fn spec_none_signed() -> Self::Signed {
        T::spec_none().spec_into_positive()
    }

    open spec fn spec_none_signed_for_format(format: Format) -> Self::Signed {
        T::spec_none_for_format(format).spec_into_positive()
    }

    open spec fn spec_none_signed_known() -> bool {
        T::spec_none_known() && T::spec_none().spec_can_sign()
    }

    open spec fn spec_none_signed_representable(format: Format) -> bool {
        T::spec_none_representable(format) && T::spec_none_for_format(format).spec_can_sign()
    }

    fn none_signed() -> (r: Self::Signed) {
        let n = T::none();
        n.into_positive()
    }

    fn none_signed_for_format(format: Format) -> (r: Self::Signed) {
        let n = T::none_for_format(format);
        n.into_positive()
    }
}

/// A value which can be checked to hold a value of a format compatible
/// with `V`.
///
/// Two specific formatted values of the same format are always compatible.
/// A specific value and a `GenericFormattedValue` are compatible when the
/// generic value holds that format, which is checked at run time.
pub trait CompatibleFormattedValue<V: FormattedValue>: FormattedValue {
    type Original;

    /// Whether `self` is compatible with the format of `other`.
    spec fn spec_compatible(self, other: V) -> bool;

    /// Whether `self` is compatible with `format`, as the explicit check
    /// decides.
    spec fn spec_compatible_explicit(self, format: Format) -> bool;

    /// `self` with its type restored.
    spec fn spec_original(self) -> Self::Original;

    /// Returns `Ok(self)` with its type restored if it is compatible with
    /// the format of `other`, otherwise an error holding its format.
    fn try_into_checked(self, other: V) -> (r: Result<Self::Original, FormattedValueError>)
        ensures
            r == (if self.spec_compatible(other) {
                Ok(self.spec_original())
            } else {
                Err(FormattedValueError(self.spec_format()))
            }),
    ;

    /// Returns `Ok(self)` with its type restored if it is compatible with
    /// the format of `V` (a generic value is checked against the default
    /// format of `V`, a specific value against `format` when `V` is
    /// generic), otherwise an error holding its format.
    fn try_into_checked_explicit(self, format: Format) -> (r: Result<
        Self::Original,
        FormattedValueError,
    >)
        ensures
            r == (if self.spec_compatible_explicit(format) {
                Ok(self.spec_original())
            } else {
                Err(FormattedValueError(self.spec_format()))
            }),
    ;
}

/// The error returned when a formatted value does not have the expected
/// format; it holds the format of the offending value.
#[derive(Clone, Copy, Debug, PartialEq, Eq, Structural)]
pub struct FormattedValueError(pub Format);

/// The error returned when a C value is the reserved `None` value of a type
/// (or outside the range of the type).
#[derive(Clone, Copy, Debug, PartialEq, Eq, Structural)]
pub struct NoneError;

} // verus!
