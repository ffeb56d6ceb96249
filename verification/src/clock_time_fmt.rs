use vstd::prelude::*;

use crate::clock_time::{ClockTime, NSECONDS_PER_SECOND};
use crate::display::DisplayText;
use crate::text::{
    chars_to_string, decimal, push_decimal, push_repeat, push_str, push_zero_padded, repeat_char,
    zero_padded_decimal,
};

verus! {

/// How a value is placed within its padded width.
#[derive(Clone, Copy, Debug, PartialEq, Eq, Structural)]
pub enum Alignment {
    Left,
    Right,
    Center,
}

/// The options of a format specification such as `{:>+012.3}`.
#[derive(Clone, Copy, Debug, PartialEq, Eq, Structural)]
pub struct FormatOptions {
    /// The padding character.
    pub fill: char,
    /// The requested alignment, if any.
    pub align: Option<Alignment>,
    /// Whether a sign is always written (`+`).
    pub sign_plus: bool,
    /// Whether padding goes between the sign and the value (`0`).
    pub sign_aware_zero_pad: bool,
    /// The minimal width, if any.
    pub width: Option<usize>,
    /// The precision, if any.
    pub precision: Option<usize>,
}

impl FormatOptions {
    /// The options of `{}`.
    pub open spec fn spec_plain() -> FormatOptions {
        FormatOptions {
            fill: ' ',
            align: None,
            sign_plus: false,
            sign_aware_zero_pad: false,
            width: None,
            precision: None,
        }
    }

    /// Returns the options of `{}`.
    pub fn plain() -> (r: FormatOptions)
        ensures
            r == Self::spec_plain(),
    {
        FormatOptions {
            fill: ' ',
            align: None,
            sign_plus: false,
            sign_aware_zero_pad: false,
            width: None,
            precision: None,
        }
    }
}

/// The sign class of a displayed time.
#[derive(Clone, Copy, Debug, PartialEq, Eq, Structural)]
pub enum TimeSign {
    /// The time is undefined.
    Undefined,
    /// The time is zero or above.
    NonNegative,
    /// The time is below zero.
    Negative,
}

/// The precision used when displaying a time: the requested one capped to
/// nine digits, nine when none was requested.
pub open spec fn time_precision(opts: FormatOptions) -> nat {
    match opts.precision {
        Some(p) => if p < 9 {
            p as nat
        } else {
            9
        },
        None => 9,
    }
}

/// The text of an optional time given in nanoseconds, with `precision`
/// digits of fractional seconds: `H:MM:SS.fffffffff`, or `--:--:--.---`
/// when undefined.
pub open spec fn clock_time_text(ns: Option<u64>, precision: nat) -> Seq<char> {
    match ns {
        Some(n) => {
            let secs = n / NSECONDS_PER_SECOND;
            let frac = n % NSECONDS_PER_SECOND;
            decimal((secs / 60 / 60) as nat) + seq![':'] + zero_padded_decimal(
                ((secs / 60) % 60) as nat,
                2,
            ) + seq![':'] + zero_padded_decimal((secs % 60) as nat, 2) + (if precision > 0 {
                seq!['.'] + zero_padded_decimal(frac as nat, 9).take(precision as int)
            } else {
                Seq::empty()
            })
        },
        None => "--:--:--"@ + (if precision > 0 {
            seq!['.'] + repeat_char('-', precision)
        } else {
            Seq::empty()
        }),
    }
}

/// The padding character used for a time of sign class `sign`.
pub open spec fn time_fill(sign: TimeSign, opts: FormatOptions) -> char {
    if opts.sign_aware_zero_pad {
        if sign == TimeSign::Undefined {
            '-'
        } else {
            '0'
        }
    } else {
        opts.fill
    }
}

/// The sign character written before a time of sign class `sign`, if any.
pub open spec fn time_sign_char(sign: TimeSign, opts: FormatOptions) -> Option<char> {
    match sign {
        TimeSign::Undefined => if opts.sign_plus {
            Some(time_fill(sign, opts))
        } else {
            None
        },
        TimeSign::NonNegative => if opts.sign_plus {
            Some('+')
        } else {
            None
        },
        TimeSign::Negative => Some('-'),
    }
}

/// The number of padding characters added to reach the requested width.
pub open spec fn time_padding(sign: TimeSign, opts: FormatOptions, len: nat) -> nat {
    let used = len + (if time_sign_char(sign, opts) is Some {
        1nat
    } else {
        0nat
    });
    match opts.width {
        Some(w) => if w > used {
            (w - used) as nat
        } else {
            0
        },
        None => 0,
    }
}

/// The text `buf` padded as the options ask: the padding goes between the
/// sign and the text when zero-padding, else before, after, or around the
/// text (the extra character after it) by the alignment, right by default.
pub open spec fn padded_time(sign: TimeSign, opts: FormatOptions, buf: Seq<char>) -> Seq<char> {
    let fill = time_fill(sign, opts);
    let padding = time_padding(sign, opts, buf.len());
    let sign_text = match time_sign_char(sign, opts) {
        Some(c) => seq![c],
        None => Seq::empty(),
    };
    let (pre, zero, post) = if opts.sign_aware_zero_pad {
        (0nat, padding, 0nat)
    } else {
        match opts.align {
            Some(Alignment::Left) => (0nat, 0nat, padding),
            Some(Alignment::Center) => ((padding / 2) as nat, 0nat, ((padding + 1) / 2) as nat),
            _ => (padding, 0nat, 0nat),
        }
    };
    repeat_char(fill, pre) + sign_text + repeat_char(fill, zero) + buf + repeat_char(fill, post)
}

/// The display of an optional time with the given options.
pub open spec fn clock_time_display(ct: Option<ClockTime>, opts: FormatOptions) -> Seq<char> {
    let ns = match ct {
        Some(t) => Some(t.value() as u64),
        None => None,
    };
    let sign = if ct is Some {
        TimeSign::NonNegative
    } else {
        TimeSign::Undefined
    };
    padded_time(sign, opts, clock_time_text(ns, time_precision(opts)))
}

/// Appends the text of an optional time in nanoseconds to `out`.
pub fn push_clock_time_text(out: &mut Vec<char>, ns: Option<u64>, precision: usize)
    requires
        precision <= 9,
    ensures
        final(out)@ == old(out)@ + clock_time_text(ns, precision as nat),
{
    match ns {
        Some(n) => {
            let secs = n / NSECONDS_PER_SECOND;
            let frac = n % NSECONDS_PER_SECOND;
            push_decimal(out, secs / 60 / 60);
            out.push(':');
            push_zero_padded(out, (secs / 60) % 60, 2);
            out.push(':');
            push_zero_padded(out, secs % 60, 2);
            let ghost whole = out@;
            if precision > 0 {
                out.push('.');
                let mut digits: Vec<char> = Vec::new();
                push_zero_padded(&mut digits, frac, 9);
                proof {
                    crate::text::lemma_decimal_len(frac as nat);
                    lemma_decimal_len_bound(frac as nat);
                }
                let mut i: usize = 0;
                while i < precision
                    invariant
                        precision <= 9,
                        i <= precision,
                        digits@ == zero_padded_decimal(frac as nat, 9),
                        digits@.len() == 9,
                        out@ == whole + seq!['.'] + digits@.take(i as int),
                    decreases precision - i,
                {
                    out.push(digits[i]);
                    i = i + 1;
                    proof {
                        assert(out@ =~= whole + seq!['.'] + digits@.take(i as int));
                    }
                }
            }
            proof {
                assert(out@ =~= old(out)@ + clock_time_text(ns, precision as nat));
            }
        },
        None => {
            push_str(out, "--:--:--");
            if precision > 0 {
                out.push('.');
                push_repeat(out, '-', precision);
            }
            proof {
                assert(out@ =~= old(out)@ + clock_time_text(ns, precision as nat));
            }
        },
    }
}

/// A number below a billion has at most nine digits.
proof fn lemma_decimal_len_bound(n: nat)
    requires
        n < 1_000_000_000,
    ensures
        decimal(n).len() <= 9,
{
    reveal_with_fuel(decimal, 10);
}

/// Returns the padding character for a time of sign class `sign`.
fn fill_char(sign: TimeSign, opts: FormatOptions) -> (r: char)
    ensures
        r == time_fill(sign, opts),
{
    if opts.sign_aware_zero_pad {
        match sign {
            TimeSign::Undefined => '-',
            _ => '0',
        }
    } else {
        opts.fill
    }
}

/// Returns the sign character written before a time of sign class `sign`.
fn sign_char(sign: TimeSign, opts: FormatOptions) -> (r: Option<char>)
    ensures
        r == time_sign_char(sign, opts),
{
    match sign {
        TimeSign::Undefined => if opts.sign_plus {
            Some(fill_char(sign, opts))
        } else {
            None
        },
        TimeSign::NonNegative => if opts.sign_plus {
            Some('+')
        } else {
            None
        },
        TimeSign::Negative => Some('-'),
    }
}

/// Returns the number of padding characters for a text of `len`
/// characters.
fn padding_len(sign: TimeSign, opts: FormatOptions, len: usize) -> (r: usize)
    ensures
        r == time_padding(sign, opts, len as nat),
{
    let used: usize = if sign_char(sign, opts).is_some() {
        if len < usize::MAX {
            len + 1
        } else {
            usize::MAX
        }
    } else {
        len
    };
    match opts.width {
        Some(w) => if w > used {
            w - used
        } else {
            0
        },
        None => 0,
    }
}

/// Appends `buf` to `out`, padded for a time of sign class `sign` as the
/// options ask.
pub fn push_padded_time(out: &mut Vec<char>, sign: TimeSign, opts: FormatOptions, buf: &Vec<char>)
    ensures
        final(out)@ == old(out)@ + padded_time(sign, opts, buf@),
{
    let fill = fill_char(sign, opts);
    let sc = sign_char(sign, opts);
    let padding = padding_len(sign, opts, buf.len());
    let (pre, zero, post): (usize, usize, usize) = if opts.sign_aware_zero_pad {
        (0, padding, 0)
    } else {
        match opts.align {
            Some(Alignment::Left) => (0, 0, padding),
            Some(Alignment::Center) => (padding / 2, 0, padding / 2 + padding % 2),
            _ => (padding, 0, 0),
        }
    };
    let ghost sign_text = match sc {
        Some(c) => seq![c],
        None => Seq::<char>::empty(),
    };
    push_repeat(out, fill, pre);
    let ghost a = out@;
    match sc {
        Some(c) => out.push(c),
        None => {},
    }
    assert(out@ =~= a + sign_text);
    push_repeat(out, fill, zero);
    crate::text::push_chars(out, buf);
    push_repeat(out, fill, post);
    proof {
        assert(((padding + 1) / 2) as nat == padding / 2 + padding % 2);
        assert(out@ =~= old(out)@ + padded_time(sign, opts, buf@));
    }
}

/// Appends the display of an optional time with the given options to
/// `out`.
pub fn push_clock_time_display(out: &mut Vec<char>, ct: Option<ClockTime>, opts: FormatOptions)
    ensures
        final(out)@ == old(out)@ + clock_time_display(ct, opts),
{
    let precision: usize = match opts.precision {
        Some(p) => if p < 9 {
            p
        } else {
            9
        },
        None => 9,
    };
    let ns = match ct {
        Some(t) => Some(t.nseconds()),
        None => None,
    };
    let mut text: Vec<char> = Vec::new();
    push_clock_time_text(&mut text, ns, precision);
    let sign = if ct.is_some() {
        TimeSign::NonNegative
    } else {
        TimeSign::Undefined
    };
    push_padded_time(out, sign, opts, &text);
    proof {
        assert(text@ =~= clock_time_text(ns, time_precision(opts)));
    }
}

/// Returns the display of an optional time with the given options.
pub fn format_clock_time(ct: Option<ClockTime>, opts: FormatOptions) -> (r: String)
    ensures
        r@ == clock_time_display(ct, opts),
{
    let mut out: Vec<char> = Vec::new();
    push_clock_time_display(&mut out, ct, opts);
    proof {
        assert(out@ =~= clock_time_display(ct, opts));
    }
    chars_to_string(&out)
}

impl DisplayText for ClockTime {
    open spec fn spec_opt_text(v: Option<ClockTime>) -> Seq<char> {
        clock_time_display(v, FormatOptions::spec_plain())
    }

    fn push_opt_text(v: Option<ClockTime>, out: &mut Vec<char>) {
        push_clock_time_display(out, v, FormatOptions::plain());
    }
}

impl ClockTime {
    /// Returns the display of `self` with the given options, such as
    /// `12:43:54.908569837`.
    pub fn to_string_with(self, opts: FormatOptions) -> (r: String)
        ensures
            r@ == clock_time_display(Some(self), opts),
    {
        format_clock_time(Some(self), opts)
    }

    /// Returns the display of `self`, such as `12:43:54.908569837`.
    pub fn to_string(self) -> (r: String)
        ensures
            r@ == clock_time_display(Some(self), FormatOptions::spec_plain()),
    {
        format_clock_time(Some(self), FormatOptions::plain())
    }
}

/// An optional time prepared for display.
pub struct DisplayableOptClockTime(pub Option<ClockTime>);

impl DisplayableOptClockTime {
    /// Returns the display of the time with the given options, or
    /// `--:--:--.---------` (as many dashes as digits) when undefined.
    pub fn to_string_with(&self, opts: FormatOptions) -> (r: String)
        ensures
            r@ == clock_time_display(self.0, opts),
    {
        format_clock_time(self.0, opts)
    }

    /// Returns the display of the time.
    pub fn to_string(&self) -> (r: String)
        ensures
            r@ == clock_time_display(self.0, FormatOptions::spec_plain()),
    {
        format_clock_time(self.0, FormatOptions::plain())
    }
}


} // verus!
