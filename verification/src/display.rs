use vstd::prelude::*;

use crate::signed::{DisplayableOptionSigned, Signed};
use crate::text::{chars_to_string, push_str};

verus! {

/// Values with a textual display, defined or not.
pub trait DisplayText: Copy + Sized {
    /// The display of an optional value.
    spec fn spec_opt_text(v: Option<Self>) -> Seq<char>;

    /// Appends the display of an optional value to `out`.
    fn push_opt_text(v: Option<Self>, out: &mut Vec<char>)
        ensures
            final(out)@ == old(out)@ + Self::spec_opt_text(v),
    ;
}

/// The display of a signed value: its sign, then the display of its
/// magnitude.
pub open spec fn signed_text<T: DisplayText>(s: Signed<T>) -> Seq<char> {
    match s {
        Signed::Positive(v) => seq!['+'] + T::spec_opt_text(Some(v)),
        Signed::Negative(v) => seq!['-'] + T::spec_opt_text(Some(v)),
    }
}

/// The display of an optional signed value: that of the signed value, or
/// that of an undefined magnitude.
pub open spec fn opt_signed_text<T: DisplayText>(s: Option<Signed<T>>) -> Seq<char> {
    match s {
        Some(v) => signed_text(v),
        None => T::spec_opt_text(None),
    }
}

/// Appends the display of an optional signed value to `out`.
pub fn push_opt_signed_text<T: DisplayText>(s: Option<Signed<T>>, out: &mut Vec<char>)
    ensures
        final(out)@ == old(out)@ + opt_signed_text(s),
{
    match s {
        Some(Signed::Positive(v)) => {
            out.push('+');
            T::push_opt_text(Some(v), out);
        },
        Some(Signed::Negative(v)) => {
            out.push('-');
            T::push_opt_text(Some(v), out);
        },
        None => T::push_opt_text(None, out),
    }
    proof {
        assert(final(out)@ =~= old(out)@ + opt_signed_text(s));
    }
}

impl<T: DisplayText> Signed<T> {
    /// Returns the display of `self`, such as `+42 bytes`.
    pub fn to_string(self) -> (r: String)
        ensures
            r@ == signed_text(self),
    {
        let mut out: Vec<char> = Vec::new();
        push_opt_signed_text(Some(self), &mut out);
        chars_to_string(&out)
    }
}

impl<T: DisplayText> DisplayableOptionSigned<T> {
    /// Returns the display of the value, such as `-42 bytes` or
    /// `undef. bytes`.
    pub fn to_string(&self) -> (r: String)
        ensures
            r@ == opt_signed_text(self.0),
    {
        let mut out: Vec<char> = Vec::new();
        push_opt_signed_text(self.0, &mut out);
        chars_to_string(&out)
    }
}

/// Appends `undef.` to `out`.
pub fn push_undefined(out: &mut Vec<char>)
    ensures
        final(out)@ == old(out)@ + "undef."@,
{
    push_str(out, "undef.");
}

} // verus!
