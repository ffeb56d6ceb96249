use vstd::prelude::*;

use crate::buffers::Buffers;
use crate::bytes::Bytes;
use crate::clock_time::ClockTime;
use crate::format_kind::Format;
use crate::other::Other;
use crate::percent::{Percent, PERCENT_MAX};
use crate::quantity::{
    i64_bits_as_u64, lemma_i64_as_u64, lemma_u64_as_i64, u64_bits_as_i64, QUANTITY_NONE,
};
use crate::signed::{Signed, SignedIntrinsic};
use crate::signed_ops::sval;
use crate::traits::{
    CompatibleFormattedValue, FormattedValue, FormattedValueError, FormattedValueFullRange, FormattedValueIntrinsic,
    FormattedValueNoneBuilder, UnsignedIntoSigned,
};
use crate::undefined::Undefined;
use crate::display::{opt_signed_text, push_opt_signed_text, DisplayText};
use crate::format_kind::format_text;
use crate::text::chars_to_string;

verus! {

/// A formatted value whose format is only known at run time.
///
/// Most variants embed an optional specific formatted value.
#[derive(PartialEq, Eq, Structural, Hash, Clone, Copy, Debug)]
pub enum GenericFormattedValue {
    Undefined(Undefined),
    Default(Option<crate::default_format::Default>),
    Bytes(Option<Bytes>),
    Time(Option<ClockTime>),
    Buffers(Option<Buffers>),
    Percent(Option<Percent>),
    Other(Format, Option<Other>),
}

/// The format of a generic formatted value.
pub open spec fn generic_format(v: GenericFormattedValue) -> Format {
    match v {
        GenericFormattedValue::Undefined(_) => Format::Undefined,
        GenericFormattedValue::Default(_) => Format::Default,
        GenericFormattedValue::Bytes(_) => Format::Bytes,
        GenericFormattedValue::Time(_) => Format::Time,
        GenericFormattedValue::Buffers(_) => Format::Buffers,
        GenericFormattedValue::Percent(_) => Format::Percent,
        GenericFormattedValue::Other(f, _) => f,
    }
}

/// Whether a generic formatted value is defined.
pub open spec fn generic_is_some(v: GenericFormattedValue) -> bool {
    match v {
        GenericFormattedValue::Undefined(_) => true,
        GenericFormattedValue::Default(x) => x is Some,
        GenericFormattedValue::Bytes(x) => x is Some,
        GenericFormattedValue::Time(x) => x is Some,
        GenericFormattedValue::Buffers(x) => x is Some,
        GenericFormattedValue::Percent(x) => x is Some,
        GenericFormattedValue::Other(_, x) => x is Some,
    }
}

/// The C value of an optional 64 bit quantity given by its value.
pub open spec fn raw_of_quantity(v: Option<int>) -> int {
    match v {
        Some(x) => u64_bits_as_i64(x),
        None => -1,
    }
}

/// The C value of a generic formatted value.
pub open spec fn generic_raw_value(v: GenericFormattedValue) -> int {
    match v {
        GenericFormattedValue::Undefined(u) => u.0 as int,
        GenericFormattedValue::Default(x) => raw_of_quantity(
            match x {
                Some(q) => Some(q.value()),
                None => None,
            },
        ),
        GenericFormattedValue::Bytes(x) => raw_of_quantity(
            match x {
                Some(q) => Some(q.value()),
                None => None,
            },
        ),
        GenericFormattedValue::Time(x) => raw_of_quantity(
            match x {
                Some(q) => Some(q.value()),
                None => None,
            },
        ),
        GenericFormattedValue::Buffers(x) => raw_of_quantity(
            match x {
                Some(q) => Some(q.value()),
                None => None,
            },
        ),
        GenericFormattedValue::Percent(x) => match x {
            Some(q) => q.value(),
            None => -1,
        },
        GenericFormattedValue::Other(_, x) => raw_of_quantity(
            match x {
                Some(q) => Some(q.value()),
                None => None,
            },
        ),
    }
}

/// The generic formatted value built from a format and a C value.
pub open spec fn generic_new(format: Format, value: i64) -> GenericFormattedValue {
    match format {
        Format::Undefined => GenericFormattedValue::Undefined(Undefined(value)),
        Format::Default => GenericFormattedValue::Default(
            if value == -1 {
                None
            } else {
                Some(crate::default_format::Default::from_value(i64_bits_as_u64(value as int)))
            },
        ),
        Format::Bytes => GenericFormattedValue::Bytes(
            if value == -1 {
                None
            } else {
                Some(Bytes::from_value(i64_bits_as_u64(value as int)))
            },
        ),
        Format::Time => GenericFormattedValue::Time(
            if value == -1 {
                None
            } else {
                Some(ClockTime::from_value(i64_bits_as_u64(value as int)))
            },
        ),
        Format::Buffers => GenericFormattedValue::Buffers(
            if value == -1 {
                None
            } else {
                Some(Buffers::from_value(i64_bits_as_u64(value as int)))
            },
        ),
        Format::Percent => GenericFormattedValue::Percent(
            if value < 0 || value > PERCENT_MAX {
                None
            } else {
                Some(Percent::from_value(value as int))
            },
        ),
        Format::__Unknown(_) => GenericFormattedValue::Other(
            format,
            if value == -1 {
                None
            } else {
                Some(Other::from_value(i64_bits_as_u64(value as int)))
            },
        ),
    }
}

impl GenericFormattedValue {
    /// Builds a generic formatted value of format `format` from the C
    /// value `value`. `-1` (all bits set) is the undefined value of the 64
    /// bit formats; a percentage outside `0..=1_000_000` is undefined.
    pub fn new(format: Format, value: i64) -> (r: GenericFormattedValue)
        ensures
            r == generic_new(format, value),
    {
        proof {
            lemma_i64_as_u64(value);
        }
        broadcast use {
            crate::default_format::Default::lemma_from_value_of,
            Bytes::lemma_from_value_of,
            ClockTime::lemma_from_value_of,
            Buffers::lemma_from_value_of,
            Percent::lemma_from_value_of,
            Other::lemma_from_value_of,
        };
        let raw = #[verifier::truncate] (value as u64);
        match format {
            Format::Undefined => GenericFormattedValue::Undefined(Undefined(value)),
            Format::Default => GenericFormattedValue::Default(crate::default_format::Default::opt_from_glib(raw)),
            Format::Bytes => GenericFormattedValue::Bytes(Bytes::opt_from_glib(raw)),
            Format::Time => GenericFormattedValue::Time(ClockTime::opt_from_glib(raw)),
            Format::Buffers => GenericFormattedValue::Buffers(Buffers::opt_from_glib(raw)),
            Format::Percent => GenericFormattedValue::Percent(
                match Percent::try_from_glib(value) {
                    Ok(p) => Some(p),
                    Err(_) => None,
                },
            ),
            Format::__Unknown(_) => GenericFormattedValue::Other(format, Other::opt_from_glib(raw)),
        }
    }

    /// Returns the format of the value.
    pub fn format(&self) -> (r: Format)
        ensures
            r == generic_format(*self),
    {
        match *self {
            GenericFormattedValue::Undefined(_) => Format::Undefined,
            GenericFormattedValue::Default(_) => Format::Default,
            GenericFormattedValue::Bytes(_) => Format::Bytes,
            GenericFormattedValue::Time(_) => Format::Time,
            GenericFormattedValue::Buffers(_) => Format::Buffers,
            GenericFormattedValue::Percent(_) => Format::Percent,
            GenericFormattedValue::Other(f, _) => f,
        }
    }

    /// Returns the C value of the value.
    pub fn value(&self) -> (r: i64)
        ensures
            r == generic_raw_value(*self),
    {
        match *self {
            GenericFormattedValue::Undefined(v) => v.0,
            GenericFormattedValue::Default(v) => v.into_raw_value(),
            GenericFormattedValue::Bytes(v) => v.into_raw_value(),
            GenericFormattedValue::Time(v) => v.into_raw_value(),
            GenericFormattedValue::Buffers(v) => v.into_raw_value(),
            GenericFormattedValue::Percent(v) => v.into_raw_value(),
            GenericFormattedValue::Other(_, v) => {
                let raw = Other::opt_into_glib(v);
                proof {
                    lemma_u64_as_i64(raw);
                }
                raw as i64
            },
        }
    }
}

impl CompatibleFormattedValue<GenericFormattedValue> for GenericFormattedValue {
    type Original = GenericFormattedValue;

    open spec fn spec_compatible(self, other: GenericFormattedValue) -> bool {
        generic_format(self) == generic_format(other)
    }

    open spec fn spec_compatible_explicit(self, format: Format) -> bool {
        generic_format(self) == format
    }

    open spec fn spec_original(self) -> GenericFormattedValue {
        self
    }

    fn try_into_checked(self, other: GenericFormattedValue) -> (r: Result<
        GenericFormattedValue,
        FormattedValueError,
    >) {
        if self.format() == other.format() {
            Ok(self)
        } else {
            Err(FormattedValueError(self.format()))
        }
    }

    fn try_into_checked_explicit(self, format: Format) -> (r: Result<
        GenericFormattedValue,
        FormattedValueError,
    >) {
        if self.format() == format {
            Ok(self)
        } else {
            Err(FormattedValueError(self.format()))
        }
    }
}

/// The display of a generic formatted value: that of the value in its
/// format, followed by the format's name for other formats.
pub open spec fn generic_text(v: GenericFormattedValue) -> Seq<char> {
    match v {
        GenericFormattedValue::Undefined(u) => u.spec_text(),
        GenericFormattedValue::Default(o) => <crate::default_format::Default as DisplayText>::spec_opt_text(o),
        GenericFormattedValue::Bytes(o) => <Bytes as DisplayText>::spec_opt_text(o),
        GenericFormattedValue::Time(o) => <ClockTime as DisplayText>::spec_opt_text(o),
        GenericFormattedValue::Buffers(o) => <Buffers as DisplayText>::spec_opt_text(o),
        GenericFormattedValue::Percent(o) => <Percent as DisplayText>::spec_opt_text(o),
        GenericFormattedValue::Other(f, o) => <Other as DisplayText>::spec_opt_text(o) + seq![' ']
            + format_text(f),
    }
}

impl GenericFormattedValue {
    /// Returns the display of the value, such as `42 bytes`,
    /// `12:43:54.908569837` or `42 (format: 128)`.
    pub fn to_string(&self) -> (r: String)
        ensures
            r@ == generic_text(*self),
    {
        let mut out: Vec<char> = Vec::new();
        match *self {
            GenericFormattedValue::Undefined(u) => u.push_text(&mut out),
            GenericFormattedValue::Default(o) => <crate::default_format::Default as DisplayText>::push_opt_text(o, &mut out),
            GenericFormattedValue::Bytes(o) => <Bytes as DisplayText>::push_opt_text(o, &mut out),
            GenericFormattedValue::Time(o) => <ClockTime as DisplayText>::push_opt_text(o, &mut out),
            GenericFormattedValue::Buffers(o) => <Buffers as DisplayText>::push_opt_text(o, &mut out),
            GenericFormattedValue::Percent(o) => <Percent as DisplayText>::push_opt_text(o, &mut out),
            GenericFormattedValue::Other(f, o) => {
                <Other as DisplayText>::push_opt_text(o, &mut out);
                out.push(' ');
                f.push_text(&mut out);
            },
        }
        proof {
            assert(out@ =~= generic_text(*self));
        }
        chars_to_string(&out)
    }
}

/// A generic formatted value's C value round-trips through
/// [`GenericFormattedValue::new`], except for percentages outside
/// `-1..=1_000_000`.
pub proof fn lemma_generic_new_value_roundtrip(format: Format, value: i64)
    requires
        format == Format::Percent ==> -1 <= value <= PERCENT_MAX,
    ensures
        generic_raw_value(generic_new(format, value)) == value,
        generic_format(generic_new(format, value)) == format,
{
    let u = i64_bits_as_u64(value as int);
    if value != -1 {
        assert(u != QUANTITY_NONE);
        crate::default_format::Default::lemma_from_value(u);
        Bytes::lemma_from_value(u);
        ClockTime::lemma_from_value(u);
        Buffers::lemma_from_value(u);
        Other::lemma_from_value(u);
    }
    if 0 <= value <= PERCENT_MAX {
        Percent::lemma_from_value(value as int);
    }
}

impl FormattedValue for GenericFormattedValue {
    open spec fn spec_default_format() -> Format {
        Format::Undefined
    }

    open spec fn spec_format(&self) -> Format {
        generic_format(*self)
    }

    open spec fn spec_is_some(&self) -> bool {
        generic_is_some(*self)
    }

    open spec fn spec_raw_value(&self) -> int {
        generic_raw_value(*self)
    }

    fn default_format() -> (r: Format) {
        Format::Undefined
    }

    fn format(&self) -> (r: Format) {
        GenericFormattedValue::format(self)
    }

    fn is_some(&self) -> (r: bool) {
        match self {
            GenericFormattedValue::Undefined(_) => true,
            GenericFormattedValue::Default(v) => v.is_some(),
            GenericFormattedValue::Bytes(v) => v.is_some(),
            GenericFormattedValue::Time(v) => v.is_some(),
            GenericFormattedValue::Buffers(v) => v.is_some(),
            GenericFormattedValue::Percent(v) => v.is_some(),
            GenericFormattedValue::Other(_, v) => v.is_some(),
        }
    }

    fn into_raw_value(self) -> (r: i64) {
        self.value()
    }
}

impl FormattedValueFullRange for GenericFormattedValue {
    open spec fn spec_from_raw(format: Format, value: i64) -> GenericFormattedValue {
        generic_new(format, value)
    }

    open spec fn spec_accepts_format(format: Format) -> bool {
        true
    }

    fn from_raw(format: Format, value: i64) -> (r: GenericFormattedValue) {
        GenericFormattedValue::new(format, value)
    }
}

impl FormattedValueIntrinsic for GenericFormattedValue {}

impl SignedIntrinsic for GenericFormattedValue {}

/// The undefined generic value of a format that can represent it.
pub open spec fn generic_none_for_format(format: Format) -> GenericFormattedValue {
    match format {
        Format::Default => GenericFormattedValue::Default(None),
        Format::Bytes => GenericFormattedValue::Bytes(None),
        Format::Time => GenericFormattedValue::Time(None),
        Format::Buffers => GenericFormattedValue::Buffers(None),
        Format::Percent => GenericFormattedValue::Percent(None),
        _ => GenericFormattedValue::Other(format, None),
    }
}

impl FormattedValueNoneBuilder for GenericFormattedValue {
    open spec fn spec_none() -> GenericFormattedValue {
        GenericFormattedValue::Default(None)
    }

    open spec fn spec_none_for_format(format: Format) -> GenericFormattedValue {
        generic_none_for_format(format)
    }

    /// A generic value can't build `None` without knowing the format.
    open spec fn spec_none_known() -> bool {
        false
    }

    /// `None` can't be represented by `Undefined`.
    open spec fn spec_none_representable(format: Format) -> bool {
        format != Format::Undefined
    }

    fn none() -> (r: GenericFormattedValue) {
        GenericFormattedValue::Default(None)
    }

    fn none_for_format(format: Format) -> (r: GenericFormattedValue) {
        match format {
            Format::Default => GenericFormattedValue::Default(None),
            Format::Bytes => GenericFormattedValue::Bytes(None),
            Format::Time => GenericFormattedValue::Time(None),
            Format::Buffers => GenericFormattedValue::Buffers(None),
            Format::Percent => GenericFormattedValue::Percent(None),
            _ => GenericFormattedValue::Other(format, None),
        }
    }
}

/// A signed formatted value whose format is only known at run time.
#[derive(Clone, Copy, Debug, PartialEq, Eq, Structural, Hash)]
pub enum GenericSignedFormattedValue {
    Default(Option<Signed<crate::default_format::Default>>),
    Bytes(Option<Signed<Bytes>>),
    Time(Option<Signed<ClockTime>>),
    Buffers(Option<Signed<Buffers>>),
    Percent(Option<Signed<Percent>>),
    Other(Format, Option<Signed<Other>>),
}

/// Gives a sign to an optional value.
pub open spec fn sign_opt<T>(v: Option<T>, positive: bool) -> Option<Signed<T>> {
    match v {
        Some(x) => Some(if positive {
            Signed::Positive(x)
        } else {
            Signed::Negative(x)
        }),
        None => None,
    }
}

/// The signed generic value of a generic value given a sign.
pub open spec fn generic_signed(v: GenericFormattedValue, positive: bool) -> GenericSignedFormattedValue {
    match v {
        GenericFormattedValue::Default(x) => GenericSignedFormattedValue::Default(sign_opt(x, positive)),
        GenericFormattedValue::Bytes(x) => GenericSignedFormattedValue::Bytes(sign_opt(x, positive)),
        GenericFormattedValue::Time(x) => GenericSignedFormattedValue::Time(sign_opt(x, positive)),
        GenericFormattedValue::Buffers(x) => GenericSignedFormattedValue::Buffers(sign_opt(x, positive)),
        GenericFormattedValue::Percent(x) => GenericSignedFormattedValue::Percent(sign_opt(x, positive)),
        GenericFormattedValue::Other(f, x) => GenericSignedFormattedValue::Other(f, sign_opt(x, positive)),
        GenericFormattedValue::Undefined(_) => GenericSignedFormattedValue::Default(None),
    }
}

/// Gives a sign to an optional value.
fn sign_option<T>(v: Option<T>, positive: bool) -> (r: Option<Signed<T>>)
    ensures
        r == sign_opt(v, positive),
{
    match v {
        Some(x) => Some(
            if positive {
                Signed::Positive(x)
            } else {
                Signed::Negative(x)
            },
        ),
        None => None,
    }
}

impl UnsignedIntoSigned for GenericFormattedValue {
    type Signed = GenericSignedFormattedValue;

    open spec fn spec_into_positive(self) -> GenericSignedFormattedValue {
        generic_signed(self, true)
    }

    open spec fn spec_into_negative(self) -> GenericSignedFormattedValue {
        generic_signed(self, false)
    }

    /// An `Undefined` value is already signed.
    open spec fn spec_can_sign(self) -> bool {
        !(self is Undefined)
    }

    fn into_positive(self) -> (r: GenericSignedFormattedValue) {
        generic_into_signed(self, true)
    }

    fn into_negative(self) -> (r: GenericSignedFormattedValue) {
        generic_into_signed(self, false)
    }
}

/// Gives a sign to a generic value which is not `Undefined`.
fn generic_into_signed(v: GenericFormattedValue, positive: bool) -> (r: GenericSignedFormattedValue)
    requires
        !(v is Undefined),
    ensures
        r == generic_signed(v, positive),
{
    match v {
        GenericFormattedValue::Default(x) => GenericSignedFormattedValue::Default(sign_option(x, positive)),
        GenericFormattedValue::Bytes(x) => GenericSignedFormattedValue::Bytes(sign_option(x, positive)),
        GenericFormattedValue::Time(x) => GenericSignedFormattedValue::Time(sign_option(x, positive)),
        GenericFormattedValue::Buffers(x) => GenericSignedFormattedValue::Buffers(sign_option(x, positive)),
        GenericFormattedValue::Percent(x) => GenericSignedFormattedValue::Percent(sign_option(x, positive)),
        GenericFormattedValue::Other(f, x) => GenericSignedFormattedValue::Other(f, sign_option(x, positive)),
        GenericFormattedValue::Undefined(_) => GenericSignedFormattedValue::Default(None),
    }
}

/// The absolute value of an optional signed value.
pub open spec fn abs_opt<T>(v: Option<Signed<T>>) -> Option<T> {
    match v {
        Some(s) => Some(s.spec_abs()),
        None => None,
    }
}

/// The format of a signed generic value.
pub open spec fn generic_signed_format(v: GenericSignedFormattedValue) -> Format {
    match v {
        GenericSignedFormattedValue::Default(_) => Format::Default,
        GenericSignedFormattedValue::Bytes(_) => Format::Bytes,
        GenericSignedFormattedValue::Time(_) => Format::Time,
        GenericSignedFormattedValue::Buffers(_) => Format::Buffers,
        GenericSignedFormattedValue::Percent(_) => Format::Percent,
        GenericSignedFormattedValue::Other(f, _) => f,
    }
}

/// Whether a signed generic value is defined.
pub open spec fn generic_signed_is_some(v: GenericSignedFormattedValue) -> bool {
    match v {
        GenericSignedFormattedValue::Default(x) => x is Some,
        GenericSignedFormattedValue::Bytes(x) => x is Some,
        GenericSignedFormattedValue::Time(x) => x is Some,
        GenericSignedFormattedValue::Buffers(x) => x is Some,
        GenericSignedFormattedValue::Percent(x) => x is Some,
        GenericSignedFormattedValue::Other(_, x) => x is Some,
    }
}

/// Drops the sign of an optional signed value.
fn abs_option<T>(v: Option<Signed<T>>) -> (r: Option<T>)
    ensures
        r == abs_opt(v),
{
    match v {
        Some(s) => Some(s.abs()),
        None => None,
    }
}

/// Flips the sign of an optional signed value.
fn neg_option<T>(v: Option<Signed<T>>) -> (r: Option<Signed<T>>)
    ensures
        r == (match v {
            Some(s) => Some(s.spec_neg()),
            None => None,
        }),
{
    match v {
        Some(s) => Some(core::ops::Neg::neg(s)),
        None => None,
    }
}

/// The sign of an optional signed value, if defined.
pub open spec fn opt_is_positive<T>(v: Option<Signed<T>>) -> Option<bool> {
    match v {
        Some(s) => Some(s.spec_is_positive()),
        None => None,
    }
}

/// Whether an optional signed value is positive, if defined.
fn option_is_positive<T>(v: Option<Signed<T>>) -> (r: Option<bool>)
    ensures
        r == opt_is_positive(v),
{
    match v {
        Some(s) => Some(s.is_positive()),
        None => None,
    }
}

/// Whether an optional signed value is negative, if defined.
fn option_is_negative<T>(v: Option<Signed<T>>) -> (r: Option<bool>)
    ensures
        r == (match v {
            Some(s) => Some(!s.spec_is_positive()),
            None => None,
        }),
{
    match v {
        Some(s) => Some(s.is_negative()),
        None => None,
    }
}

/// The signum of a defined signed value.
pub open spec fn signum_int(v: int) -> int {
    if v == 0 {
        0
    } else if v > 0 {
        1
    } else {
        -1
    }
}

/// The signum of an optional signed value, if defined.
pub open spec fn opt_signum<T: crate::signed::UnsignedValue>(v: Option<Signed<T>>) -> Option<i32> {
    match v {
        Some(s) => Some(signum_int(sval(s)) as i32),
        None => None,
    }
}

/// The signum of an optional signed value, if defined.
fn option_signum<T: crate::signed::UnsignedValue>(v: Option<Signed<T>>) -> (r: Option<i32>)
    ensures
        r == opt_signum(v),
{
    match v {
        Some(s) => Some(s.signum()),
        None => None,
    }
}

impl GenericSignedFormattedValue {
    /// Returns the format of the value.
    pub fn format(&self) -> (r: Format)
        ensures
            r == generic_signed_format(*self),
    {
        match *self {
            GenericSignedFormattedValue::Default(_) => Format::Default,
            GenericSignedFormattedValue::Bytes(_) => Format::Bytes,
            GenericSignedFormattedValue::Time(_) => Format::Time,
            GenericSignedFormattedValue::Buffers(_) => Format::Buffers,
            GenericSignedFormattedValue::Percent(_) => Format::Percent,
            GenericSignedFormattedValue::Other(format, _) => format,
        }
    }

    /// Returns the absolute value of `self`, as a generic value of the same
    /// format.
    pub fn abs(self) -> (r: GenericFormattedValue)
        ensures
            r == (match self {
                GenericSignedFormattedValue::Default(x) => GenericFormattedValue::Default(abs_opt(x)),
                GenericSignedFormattedValue::Bytes(x) => GenericFormattedValue::Bytes(abs_opt(x)),
                GenericSignedFormattedValue::Time(x) => GenericFormattedValue::Time(abs_opt(x)),
                GenericSignedFormattedValue::Buffers(x) => GenericFormattedValue::Buffers(abs_opt(x)),
                GenericSignedFormattedValue::Percent(x) => GenericFormattedValue::Percent(abs_opt(x)),
                GenericSignedFormattedValue::Other(f, x) => GenericFormattedValue::Other(f, abs_opt(x)),
            }),
    {
        match self {
            GenericSignedFormattedValue::Default(x) => GenericFormattedValue::Default(abs_option(x)),
            GenericSignedFormattedValue::Bytes(x) => GenericFormattedValue::Bytes(abs_option(x)),
            GenericSignedFormattedValue::Time(x) => GenericFormattedValue::Time(abs_option(x)),
            GenericSignedFormattedValue::Buffers(x) => GenericFormattedValue::Buffers(abs_option(x)),
            GenericSignedFormattedValue::Percent(x) => GenericFormattedValue::Percent(abs_option(x)),
            GenericSignedFormattedValue::Other(f, x) => GenericFormattedValue::Other(f, abs_option(x)),
        }
    }

    /// Returns `true` if the value is defined.
    pub fn is_some(&self) -> (r: bool)
        ensures
            r == generic_signed_is_some(*self),
    {
        match self {
            GenericSignedFormattedValue::Default(v) => v.is_some(),
            GenericSignedFormattedValue::Bytes(v) => v.is_some(),
            GenericSignedFormattedValue::Time(v) => v.is_some(),
            GenericSignedFormattedValue::Buffers(v) => v.is_some(),
            GenericSignedFormattedValue::Percent(v) => v.is_some(),
            GenericSignedFormattedValue::Other(_, v) => v.is_some(),
        }
    }

    /// Returns `true` if the value is undefined.
    pub fn is_none(&self) -> (r: bool)
        ensures
            r == !generic_signed_is_some(*self),
    {
        !self.is_some()
    }

    /// Returns the undefined signed value of `format`; `Undefined` is
    /// refused, as it is already signed.
    pub fn none_for_format(format: Format) -> (r: GenericSignedFormattedValue)
        requires
            format != Format::Undefined,
        ensures
            generic_signed_format(r) == format,
            !generic_signed_is_some(r),
    {
        match format {
            Format::Default => GenericSignedFormattedValue::Default(None),
            Format::Bytes => GenericSignedFormattedValue::Bytes(None),
            Format::Time => GenericSignedFormattedValue::Time(None),
            Format::Buffers => GenericSignedFormattedValue::Buffers(None),
            Format::Percent => GenericSignedFormattedValue::Percent(None),
            other => GenericSignedFormattedValue::Other(other, None),
        }
    }

    /// Returns whether the value is positive, or `None` if it is undefined.
    pub fn is_positive(self) -> (r: Option<bool>)
        ensures
            r == (match self {
                GenericSignedFormattedValue::Default(x) => opt_is_positive(x),
                GenericSignedFormattedValue::Bytes(x) => opt_is_positive(x),
                GenericSignedFormattedValue::Time(x) => opt_is_positive(x),
                GenericSignedFormattedValue::Buffers(x) => opt_is_positive(x),
                GenericSignedFormattedValue::Percent(x) => opt_is_positive(x),
                GenericSignedFormattedValue::Other(_, x) => opt_is_positive(x),
            }),
    {
        match self {
            GenericSignedFormattedValue::Default(x) => option_is_positive(x),
            GenericSignedFormattedValue::Bytes(x) => option_is_positive(x),
            GenericSignedFormattedValue::Time(x) => option_is_positive(x),
            GenericSignedFormattedValue::Buffers(x) => option_is_positive(x),
            GenericSignedFormattedValue::Percent(x) => option_is_positive(x),
            GenericSignedFormattedValue::Other(_, x) => option_is_positive(x),
        }
    }

    /// Returns whether the value is negative, or `None` if it is undefined.
    pub fn is_negative(self) -> (r: Option<bool>)
        ensures
            r == (match self.is_positive_spec() {
                Some(p) => Some(!p),
                None => None,
            }),
    {
        match self {
            GenericSignedFormattedValue::Default(x) => option_is_negative(x),
            GenericSignedFormattedValue::Bytes(x) => option_is_negative(x),
            GenericSignedFormattedValue::Time(x) => option_is_negative(x),
            GenericSignedFormattedValue::Buffers(x) => option_is_negative(x),
            GenericSignedFormattedValue::Percent(x) => option_is_negative(x),
            GenericSignedFormattedValue::Other(_, x) => option_is_negative(x),
        }
    }

    /// The sign of the value, if defined.
    pub open spec fn is_positive_spec(self) -> Option<bool> {
        match self {
            GenericSignedFormattedValue::Default(x) => opt_is_positive(x),
            GenericSignedFormattedValue::Bytes(x) => opt_is_positive(x),
            GenericSignedFormattedValue::Time(x) => opt_is_positive(x),
            GenericSignedFormattedValue::Buffers(x) => opt_is_positive(x),
            GenericSignedFormattedValue::Percent(x) => opt_is_positive(x),
            GenericSignedFormattedValue::Other(_, x) => opt_is_positive(x),
        }
    }

    /// Returns the signum of the value (`0` for a zero value), or `None`
    /// if it is undefined.
    pub fn signum(self) -> (r: Option<i32>)
        ensures
            r == (match self {
                GenericSignedFormattedValue::Default(x) => opt_signum(x),
                GenericSignedFormattedValue::Bytes(x) => opt_signum(x),
                GenericSignedFormattedValue::Time(x) => opt_signum(x),
                GenericSignedFormattedValue::Buffers(x) => opt_signum(x),
                GenericSignedFormattedValue::Percent(x) => opt_signum(x),
                GenericSignedFormattedValue::Other(_, x) => opt_signum(x),
            }),
    {
        match self {
            GenericSignedFormattedValue::Default(x) => option_signum(x),
            GenericSignedFormattedValue::Bytes(x) => option_signum(x),
            GenericSignedFormattedValue::Time(x) => option_signum(x),
            GenericSignedFormattedValue::Buffers(x) => option_signum(x),
            GenericSignedFormattedValue::Percent(x) => option_signum(x),
            GenericSignedFormattedValue::Other(_, x) => option_signum(x),
        }
    }
}

/// The display of a generic signed formatted value: that of the signed
/// value in its format (the undefined value has no sign), followed by the
/// format's name for other formats.
pub open spec fn generic_signed_text(v: GenericSignedFormattedValue) -> Seq<char> {
    match v {
        GenericSignedFormattedValue::Default(o) => opt_signed_text(o),
        GenericSignedFormattedValue::Bytes(o) => opt_signed_text(o),
        GenericSignedFormattedValue::Time(o) => opt_signed_text(o),
        GenericSignedFormattedValue::Buffers(o) => opt_signed_text(o),
        GenericSignedFormattedValue::Percent(o) => opt_signed_text(o),
        GenericSignedFormattedValue::Other(f, o) => opt_signed_text(o) + seq![' '] + format_text(f),
    }
}

impl GenericSignedFormattedValue {
    /// Returns the display of the value, such as `+42 bytes` or
    /// `-12:43:54.908569837`.
    pub fn to_string(&self) -> (r: String)
        ensures
            r@ == generic_signed_text(*self),
    {
        let mut out: Vec<char> = Vec::new();
        match *self {
            GenericSignedFormattedValue::Default(o) => push_opt_signed_text(o, &mut out),
            GenericSignedFormattedValue::Bytes(o) => push_opt_signed_text(o, &mut out),
            GenericSignedFormattedValue::Time(o) => push_opt_signed_text(o, &mut out),
            GenericSignedFormattedValue::Buffers(o) => push_opt_signed_text(o, &mut out),
            GenericSignedFormattedValue::Percent(o) => push_opt_signed_text(o, &mut out),
            GenericSignedFormattedValue::Other(f, o) => {
                push_opt_signed_text(o, &mut out);
                out.push(' ');
                f.push_text(&mut out);
            },
        }
        proof {
            assert(out@ =~= generic_signed_text(*self));
        }
        chars_to_string(&out)
    }
}

impl core::ops::Neg for GenericSignedFormattedValue {
    type Output = GenericSignedFormattedValue;

    fn neg(self) -> (r: GenericSignedFormattedValue) {
        match self {
            GenericSignedFormattedValue::Default(x) => GenericSignedFormattedValue::Default(neg_option(x)),
            GenericSignedFormattedValue::Bytes(x) => GenericSignedFormattedValue::Bytes(neg_option(x)),
            GenericSignedFormattedValue::Time(x) => GenericSignedFormattedValue::Time(neg_option(x)),
            GenericSignedFormattedValue::Buffers(x) => GenericSignedFormattedValue::Buffers(neg_option(x)),
            GenericSignedFormattedValue::Percent(x) => GenericSignedFormattedValue::Percent(neg_option(x)),
            GenericSignedFormattedValue::Other(f, x) => GenericSignedFormattedValue::Other(f, neg_option(x)),
        }
    }
}

/// The signed generic value with each defined sign flipped.
pub open spec fn generic_signed_neg(v: GenericSignedFormattedValue) -> GenericSignedFormattedValue {
    match v {
        GenericSignedFormattedValue::Default(x) => GenericSignedFormattedValue::Default(neg_opt(x)),
        GenericSignedFormattedValue::Bytes(x) => GenericSignedFormattedValue::Bytes(neg_opt(x)),
        GenericSignedFormattedValue::Time(x) => GenericSignedFormattedValue::Time(neg_opt(x)),
        GenericSignedFormattedValue::Buffers(x) => GenericSignedFormattedValue::Buffers(neg_opt(x)),
        GenericSignedFormattedValue::Percent(x) => GenericSignedFormattedValue::Percent(neg_opt(x)),
        GenericSignedFormattedValue::Other(f, x) => GenericSignedFormattedValue::Other(f, neg_opt(x)),
    }
}

/// An optional signed value with its sign flipped.
pub open spec fn neg_opt<T>(v: Option<Signed<T>>) -> Option<Signed<T>> {
    match v {
        Some(s) => Some(s.spec_neg()),
        None => None,
    }
}

impl vstd::std_specs::ops::NegSpecImpl for GenericSignedFormattedValue {
    open spec fn obeys_neg_spec() -> bool {
        true
    }

    open spec fn neg_req(self) -> bool {
        true
    }

    open spec fn neg_spec(self) -> GenericSignedFormattedValue {
        generic_signed_neg(self)
    }
}

} // verus!
