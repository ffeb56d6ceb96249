use vstd::prelude::*;

use crate::clock_time_fmt::{
    clock_time_text, padded_time, time_precision, Alignment, FormatOptions, TimeSign,
};
use crate::text::{decimal, digit_char, lemma_zero_padded_digits, pow10, zero_padded_decimal};

verus! {

/// The text of a defined time: the hours in decimal, `:`, the minutes
/// within the hour on exactly two digits, `:`, the seconds within the minute
/// on exactly two digits, then, when the precision is not zero, `.` and the
/// first `precision` digits of the nine-digit fraction of a second.
pub proof fn lemma_clock_time_text_fields(n: u64, precision: nat)
    requires
        precision <= 9,
    ensures
        ({
            let t = clock_time_text(Some(n), precision);
            let secs = (n / 1_000_000_000) as int;
            let frac = (n % 1_000_000_000) as int;
            let m = (secs / 60) % 60;
            let s = secs % 60;
            let h = decimal((secs / 3600) as nat);
            let l = h.len() as int;
            &&& t.len() == l + 6 + (if precision > 0 {
                precision + 1
            } else {
                0
            })
            &&& t.take(l) == h
            &&& t[l] == ':'
            &&& t[l + 1] == digit_char(m / 10)
            &&& t[l + 2] == digit_char(m % 10)
            &&& t[l + 3] == ':'
            &&& t[l + 4] == digit_char(s / 10)
            &&& t[l + 5] == digit_char(s % 10)
            &&& precision > 0 ==> t[l + 6] == '.'
            &&& forall|i: int|
                0 <= i < precision ==> #[trigger] t[l + 7 + i] == digit_char(
                    (frac / (pow10((8 - i) as nat) as int)) % 10,
                )
        }),
{
    let t = clock_time_text(Some(n), precision);
    let secs = (n / 1_000_000_000) as int;
    let frac = (n % 1_000_000_000) as int;
    let m = (secs / 60) % 60;
    let s = secs % 60;
    vstd::arithmetic::div_mod::lemma_div_denominator(secs, 60, 60);
    let h = decimal((secs / 3600) as nat);
    let l = h.len() as int;
    reveal_with_fuel(pow10, 10);
    assert(pow10(2) == 100 && pow10(1) == 10 && pow10(0) == 1 && pow10(9) == 1_000_000_000);
    lemma_zero_padded_digits(m as nat, 2);
    lemma_zero_padded_digits(s as nat, 2);
    lemma_zero_padded_digits(frac as nat, 9);
    let zm = zero_padded_decimal(m as nat, 2);
    let zs = zero_padded_decimal(s as nat, 2);
    let zf = zero_padded_decimal(frac as nat, 9);
    assert(zm[0] == digit_char(m / 10) && zm[1] == digit_char(m % 10));
    assert(zs[0] == digit_char(s / 10) && zs[1] == digit_char(s % 10));
    let tail = if precision > 0 {
        seq!['.'] + zf.take(precision as int)
    } else {
        Seq::empty()
    };
    let head = h + seq![':'] + zm + seq![':'] + zs;
    assert(t == head + tail);
    assert(head.len() == l + 6);
    assert(t.take(l) =~= h);
    assert(t[l] == head[l]);
    assert(t[l + 1] == zm[0]);
    assert(t[l + 2] == zm[1]);
    assert(t[l + 4] == zs[0]);
    assert(t[l + 5] == zs[1]);
    assert forall|i: int| 0 <= i < precision implies #[trigger] t[l + 7 + i] == digit_char(
        (frac / (pow10((8 - i) as nat) as int)) % 10,
    ) by {
        assert(t[l + 7 + i] == tail[1 + i]);
        assert(tail[1 + i] == zf[i]);
    }
}

/// The text of an undefined time: `--:--:--`, then, when the precision is
/// not zero, `.` and `precision` dashes.
pub proof fn lemma_clock_time_text_undefined(precision: nat)
    ensures
        ({
            let t = clock_time_text(None, precision);
            &&& t.len() == 8 + (if precision > 0 {
                precision + 1
            } else {
                0
            })
            &&& forall|i: int|
                0 <= i < t.len() ==> #[trigger] t[i] == (if i == 2 || i == 5 {
                    ':'
                } else if i == 8 {
                    '.'
                } else {
                    '-'
                })
        }),
{
    reveal_strlit("--:--:--");
    let t = clock_time_text(None, precision);
    assert forall|i: int| 0 <= i < t.len() implies #[trigger] t[i] == (if i == 2 || i == 5 {
        ':'
    } else if i == 8 {
        '.'
    } else {
        '-'
    }) by {
        if i < 8 {
            assert(t[i] == "--:--:--"@[i]);
        }
    }
}



/// The layout of a padded time: the padding brings the text, with its sign
/// character if any, to the requested width; it is made of the fill
/// character, which is `0` when zero-padding a defined time (`-` an
/// undefined one); it goes between the sign and the text when
/// zero-padding, otherwise after the text when aligned left, split around
/// it (one more after) when centred, and before it by default. The sign is
/// `-` for a negative time, `+` for another when asked, and, when asked,
/// the fill character for an undefined time.
pub proof fn lemma_padded_time_layout(sign: TimeSign, opts: FormatOptions, buf: Seq<char>)
    ensures
        ({
            let r = padded_time(sign, opts, buf);
            let fill = if opts.sign_aware_zero_pad {
                if sign == TimeSign::Undefined {
                    '-'
                } else {
                    '0'
                }
            } else {
                opts.fill
            };
            let sign_text: Seq<char> = if sign == TimeSign::Negative {
                seq!['-']
            } else if !opts.sign_plus {
                Seq::empty()
            } else if sign == TimeSign::NonNegative {
                seq!['+']
            } else {
                seq![fill]
            };
            let used = buf.len() + sign_text.len();
            let padding: int = match opts.width {
                Some(w) => if w > used {
                    w - used
                } else {
                    0
                },
                None => 0,
            };
            let (pre, zero): (int, int) = if opts.sign_aware_zero_pad {
                (0, padding)
            } else if opts.align == Some(Alignment::Left) {
                (0, 0)
            } else if opts.align == Some(Alignment::Center) {
                (padding / 2, 0)
            } else {
                (padding, 0)
            };
            let start = pre + sign_text.len() + zero;
            &&& r.len() == used + padding
            &&& r.subrange(pre, pre + sign_text.len()) == sign_text
            &&& r.subrange(start, start + buf.len()) == buf
            &&& forall|i: int|
                0 <= i < r.len() && !(pre <= i < pre + sign_text.len()) && !(start <= i < start
                    + buf.len()) ==> #[trigger] r[i] == fill
        }),
{
    let r = padded_time(sign, opts, buf);
    let fill = if opts.sign_aware_zero_pad {
        if sign == TimeSign::Undefined {
            '-'
        } else {
            '0'
        }
    } else {
        opts.fill
    };
    let sign_text: Seq<char> = if sign == TimeSign::Negative {
        seq!['-']
    } else if !opts.sign_plus {
        Seq::empty()
    } else if sign == TimeSign::NonNegative {
        seq!['+']
    } else {
        seq![fill]
    };
    let used = buf.len() + sign_text.len();
    let padding: int = match opts.width {
        Some(w) => if w > used {
            w - used
        } else {
            0
        },
        None => 0,
    };
    let (pre, zero, post): (int, int, int) = if opts.sign_aware_zero_pad {
        (0, padding, 0)
    } else if opts.align == Some(Alignment::Left) {
        (0, 0, padding)
    } else if opts.align == Some(Alignment::Center) {
        (padding / 2, 0, (padding + 1) / 2)
    } else {
        (padding, 0, 0)
    };
    let a = Seq::new(pre as nat, |_i: int| fill);
    let z = Seq::new(zero as nat, |_i: int| fill);
    let p = Seq::new(post as nat, |_i: int| fill);
    assert(r =~= a + sign_text + z + buf + p);
    let start = pre + sign_text.len() + zero;
    assert(r.subrange(pre, pre + sign_text.len()) =~= sign_text);
    assert(r.subrange(start, start + buf.len()) =~= buf);
}


/// A time is shown with the requested number of fraction digits, at most
/// nine, and with nine when none is requested.
pub proof fn lemma_time_precision(opts: FormatOptions)
    ensures
        opts.precision is None ==> time_precision(opts) == 9,
        opts.precision matches Some(p) ==> time_precision(opts) == if p <= 9 {
            p as nat
        } else {
            9
        },
{
}

} // verus!
