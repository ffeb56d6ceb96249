use vstd::prelude::*;

use crate::format_kind::Format;
use crate::signed::Signed;
use crate::text::{chars_to_string, push_signed_decimal, signed_decimal};
use crate::traits::{FormattedValue, FormattedValueFullRange, FormattedValueIntrinsic};

verus! {

/// A quantity in the `Undefined` format: any `i64`.
#[derive(PartialEq, Eq, Structural, PartialOrd, Ord, Hash, Clone, Copy, Debug, Default)]
pub struct Undefined(pub i64);

impl Undefined {
    /// The unit quantity.
    #[allow(non_snake_case)]
    pub fn ONE() -> (r: Undefined)
        ensures
            r.0 == 1,
    {
        Undefined(1)
    }

    /// Builds an `Undefined` value from an `i64`.
    pub fn from_i64(v: i64) -> (r: Undefined)
        ensures
            r.0 == v,
    {
        Undefined(v)
    }

    /// Converts the value into a signed unsigned quantity: a negative
    /// value becomes `Negative` of its magnitude, any other value becomes
    /// `Positive`.
    pub fn into_signed_u64(self) -> (r: Signed<u64>)
        ensures
            r == signed_u64_of_i64(self.0 as int),
    {
        signed_u64_from_i64(self.0)
    }
}

impl Undefined {
    /// The display of the value: the number, then the format name.
    pub open spec fn spec_text(self) -> Seq<char> {
        signed_decimal(self.0 as int) + seq![' '] + crate::format_kind::format_text(Format::Undefined)
    }

    /// Appends the display of the value to `out`.
    pub fn push_text(self, out: &mut Vec<char>)
        ensures
            final(out)@ == old(out)@ + self.spec_text(),
    {
        push_signed_decimal(out, self.0);
        out.push(' ');
        Format::Undefined.push_text(out);
        proof {
            assert(final(out)@ =~= old(out)@ + self.spec_text());
        }
    }

    /// Returns the display of the value, such as `42 undefined`.
    pub fn to_string(self) -> (r: String)
        ensures
            r@ == self.spec_text(),
    {
        let mut out: Vec<char> = Vec::new();
        self.push_text(&mut out);
        chars_to_string(&out)
    }
}

/// The signed magnitude of an `i64`.
pub open spec fn signed_u64_of_i64(v: int) -> Signed<u64> {
    if v < 0 {
        Signed::Negative((-v) as u64)
    } else {
        Signed::Positive(v as u64)
    }
}

/// Converts an `i64` into a signed `u64` magnitude.
pub fn signed_u64_from_i64(v: i64) -> (r: Signed<u64>)
    ensures
        r == signed_u64_of_i64(v as int),
{
    if v < 0 {
        if v == i64::MIN {
            Signed::Negative(0x8000_0000_0000_0000u64)
        } else {
            Signed::Negative((-v) as u64)
        }
    } else {
        Signed::Positive(v as u64)
    }
}

/// `Undefined` formatted value constructor trait.
pub trait UndefinedFormatConstructor {
    /// The integer the value is built from.
    spec fn spec_undefined_value(self) -> int;

    /// Builds an `Undefined` formatted value from `self`.
    fn undefined_format(self) -> (r: Undefined)
        ensures
            r.0 == self.spec_undefined_value(),
    ;
}

impl UndefinedFormatConstructor for i64 {
    open spec fn spec_undefined_value(self) -> int {
        self as int
    }

    fn undefined_format(self) -> (r: Undefined) {
        Undefined(self)
    }
}

impl FormattedValue for Undefined {
    open spec fn spec_default_format() -> Format {
        Format::Undefined
    }

    open spec fn spec_format(&self) -> Format {
        Format::Undefined
    }

    open spec fn spec_is_some(&self) -> bool {
        true
    }

    open spec fn spec_raw_value(&self) -> int {
        self.0 as int
    }

    fn default_format() -> (r: Format) {
        Format::Undefined
    }

    fn format(&self) -> (r: Format) {
        Format::Undefined
    }

    fn is_some(&self) -> (r: bool) {
        true
    }

    fn into_raw_value(self) -> (r: i64) {
        self.0
    }
}

impl FormattedValueFullRange for Undefined {
    open spec fn spec_from_raw(format: Format, value: i64) -> Undefined {
        Undefined(value)
    }

    open spec fn spec_accepts_format(format: Format) -> bool {
        format == Format::Undefined
    }

    fn from_raw(format: Format, value: i64) -> (r: Undefined) {
        Undefined(value)
    }
}

impl FormattedValueIntrinsic for Undefined {}

impl core::ops::Deref for Undefined {
    type Target = i64;

    fn deref(&self) -> (r: &i64)
        ensures
            *r == self.0,
    {
        &self.0
    }
}

impl From<i64> for Undefined {
    fn from(v: i64) -> (r: Undefined) {
        Undefined(v)
    }
}

impl vstd::std_specs::convert::FromSpecImpl<i64> for Undefined {
    open spec fn obeys_from_spec() -> bool {
        true
    }

    open spec fn from_spec(v: i64) -> Undefined {
        Undefined(v)
    }
}

} // verus!
