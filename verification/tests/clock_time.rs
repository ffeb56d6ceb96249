use gstreamer::clock_time::ClockTime;
use gstreamer::clock_time_fmt::{Alignment, DisplayableOptClockTime, FormatOptions};
use gstreamer::muldiv_ops::MulDiv;
use gstreamer::signed::Signed;
use gstreamer::traits::UnsignedIntoSigned;

fn ct(n: u64) -> ClockTime {
    ClockTime::from_nseconds(n)
}

fn p_ct(n: u64) -> Signed<ClockTime> {
    Signed::Positive(ClockTime::from_nseconds(n))
}

fn n_ct(n: u64) -> Signed<ClockTime> {
    Signed::Negative(ClockTime::from_nseconds(n))
}

/// Reads a format specification such as `+011.0`, `>9.3` or `^20`.
fn opts(spec: &str) -> FormatOptions {
    let mut o = FormatOptions::plain();
    let mut rest = spec;
    if let Some(r) = rest.strip_prefix('>') {
        o.align = Some(Alignment::Right);
        rest = r;
    } else if let Some(r) = rest.strip_prefix('<') {
        o.align = Some(Alignment::Left);
        rest = r;
    } else if let Some(r) = rest.strip_prefix('^') {
        o.align = Some(Alignment::Center);
        rest = r;
    }
    if let Some(r) = rest.strip_prefix('+') {
        o.sign_plus = true;
        rest = r;
    }
    if let Some(r) = rest.strip_prefix('0') {
        o.sign_aware_zero_pad = true;
        rest = r;
    }
    let (width, precision) = match rest.split_once('.') {
        Some((w, p)) => (w, Some(p)),
        None => (rest, None),
    };
    if !width.is_empty() {
        o.width = Some(width.parse().unwrap());
    }
    if let Some(p) = precision {
        o.precision = Some(p.parse().unwrap());
    }
    o
}

#[test]
fn opt_time_clock() {
    assert_eq!(ct(1).into_glib(), 1);
    assert_eq!(ClockTime::opt_into_glib(Some(ct(1))), 1);
    assert_eq!(ClockTime::opt_into_glib(ClockTime::NONE()), u64::MAX);

    let ct_1_from: ClockTime = ClockTime::try_from_glib(1u64).unwrap();
    assert_eq!(ct_1_from, ct(1));

    let opt_ct_some: Option<ClockTime> = ClockTime::opt_from_glib(1u64);
    assert_eq!(opt_ct_some, Some(ct(1)));

    let ct_none: Option<ClockTime> = ClockTime::opt_from_glib(u64::MAX);
    assert_eq!(ct_none, None);
}

#[test]
#[allow(clippy::eq_op, clippy::op_ref)]
fn ops() {
    assert_eq!(ct(10) + ct(20), ct(30));
    assert_eq!(ct(30) - ct(20), ct(10));
    assert_eq!(ct(30) - ct(30), ClockTime::ZERO());
    assert_eq!(ct(10) * 3, ct(30));
    assert_eq!(3 * ct(10), ct(30));
    assert_eq!(ct(20) / 2, ct(10));
    assert_eq!(ct(20) / ct(2), 10);
    assert_eq!(ct(30).nseconds(), 30);

    assert_eq!(p_ct(1) + p_ct(2), p_ct(3));
    assert_eq!(p_ct(3) + n_ct(2), p_ct(1));
    assert_eq!(p_ct(2) + n_ct(3), n_ct(1));
    assert_eq!(n_ct(3) + p_ct(1), n_ct(2));
    assert_eq!(n_ct(2) + p_ct(3), p_ct(1));
    assert_eq!(n_ct(2) + n_ct(1), n_ct(3));

    assert_eq!(ct(1) + p_ct(2), p_ct(3));
    assert_eq!(p_ct(1) + ct(2), p_ct(3));
    assert_eq!(ct(3) + n_ct(1), p_ct(2));
    assert_eq!(n_ct(1) + ct(2), p_ct(1));

    assert_eq!(p_ct(3) - p_ct(2), p_ct(1));
    assert_eq!(p_ct(2) - p_ct(3), n_ct(1));
    assert_eq!(p_ct(2) - n_ct(1), p_ct(3));
    assert_eq!(n_ct(2) - p_ct(1), n_ct(3));
    assert_eq!(n_ct(3) - n_ct(1), n_ct(2));

    assert_eq!(ct(3) - p_ct(2), p_ct(1));
    assert_eq!(p_ct(3) - ct(2), p_ct(1));
    assert_eq!(n_ct(2) - ct(1), n_ct(3));
    assert_eq!(ct(2) - n_ct(1), p_ct(3));

    assert_eq!(p_ct(1) * 2i64, p_ct(2));
    assert_eq!(p_ct(1) * -2i64, n_ct(2));
    assert_eq!(n_ct(1) * 2i64, n_ct(2));
    assert_eq!(n_ct(1) * -2i64, p_ct(2));

    assert_eq!(2i64 * p_ct(1), p_ct(2));
    assert_eq!(-2i64 * p_ct(1), n_ct(2));

    assert_eq!(p_ct(1) * 2u64, p_ct(2));
    assert_eq!(n_ct(1) * 2u64, n_ct(2));

    assert_eq!(p_ct(2) / 2i64, p_ct(1));
    assert_eq!(p_ct(2) / -2i64, n_ct(1));
    assert_eq!(n_ct(2) / 2i64, n_ct(1));
    assert_eq!(n_ct(2) / -2i64, p_ct(1));

    assert_eq!(p_ct(2) / n_ct(2), Signed::Negative(1));

    assert_eq!(p_ct(2) / 2u64, p_ct(1));
    assert_eq!(n_ct(2) / 2u64, n_ct(1));

    assert_eq!(p_ct(3) % 2i64, p_ct(1));
    assert_eq!(p_ct(3) % -2i64, p_ct(1));
    assert_eq!(n_ct(3) % 2i64, n_ct(1));
    assert_eq!(n_ct(3) % -2i64, n_ct(1));

    assert_eq!(n_ct(3) % n_ct(2), n_ct(1));

    assert_eq!(p_ct(3) % 2u64, p_ct(1));
    assert_eq!(n_ct(3) % 2u64, n_ct(1));
}

#[test]
fn checked_ops() {
    assert_eq!(ct(1).checked_add(ct(1)), Some(ct(2)));
    assert_eq!(p_ct(1).checked_add(p_ct(2)), Some(p_ct(3)));
    assert_eq!(p_ct(3).checked_add(n_ct(2)), Some(p_ct(1)));
    assert_eq!(p_ct(2).checked_add(n_ct(3)), Some(n_ct(1)));
    assert_eq!(n_ct(3).checked_add(p_ct(1)), Some(n_ct(2)));
    assert_eq!(n_ct(2).checked_add(p_ct(3)), Some(p_ct(1)));
    assert_eq!(n_ct(2).checked_add(n_ct(1)), Some(n_ct(3)));

    assert!(ClockTime::MAX().checked_add(ct(1)).is_none());

    assert_eq!(ct(2).checked_sub(ct(1)), Some(ct(1)));
    assert_eq!(p_ct(3).checked_sub(p_ct(2)), Some(p_ct(1)));
    assert_eq!(p_ct(2).checked_sub(p_ct(3)), Some(n_ct(1)));
    assert_eq!(p_ct(2).checked_sub(n_ct(1)), Some(p_ct(3)));
    assert_eq!(n_ct(2).checked_sub(p_ct(1)), Some(n_ct(3)));
    assert_eq!(n_ct(3).checked_sub(n_ct(1)), Some(n_ct(2)));
    assert_eq!(n_ct(2).checked_sub(n_ct(3)), Some(p_ct(1)));

    assert!(ct(1).checked_sub(ct(2)).is_none());

    assert_eq!(ct(1).checked_mul(2), Some(ct(2)));
    assert_eq!(p_ct(1).checked_mul(2), Some(p_ct(2)));
    assert_eq!(p_ct(1).checked_mul(-2), Some(n_ct(2)));
    assert_eq!(n_ct(1).checked_mul(2), Some(n_ct(2)));
    assert_eq!(n_ct(1).checked_mul(-2), Some(p_ct(2)));

    assert_eq!(p_ct(1).checked_mul_unsigned(2u64), Some(p_ct(2)));
    assert_eq!(n_ct(1).checked_mul_unsigned(2u64), Some(n_ct(2)));

    assert_eq!(ct(3).checked_div(3), Some(ct(1)));
    assert_eq!(p_ct(3).checked_div(3), Some(p_ct(1)));
    assert_eq!(p_ct(3).checked_div(-3), Some(n_ct(1)));
    assert_eq!(n_ct(3).checked_div(3), Some(n_ct(1)));
    assert_eq!(n_ct(3).checked_div(-3), Some(p_ct(1)));

    assert_eq!(p_ct(3).checked_div_unsigned(3u64), Some(p_ct(1)));
    assert_eq!(n_ct(3).checked_div_unsigned(3u64), Some(n_ct(1)));
}

#[test]
fn overflowing_ops() {
    assert_eq!(ct(1).overflowing_add(ct(2)), (ct(3), false));
    assert_eq!(
        ClockTime::MAX().overflowing_add(ct(1)),
        (ClockTime::ZERO(), true)
    );

    assert_eq!(ct(3).overflowing_sub(ct(2)), (ct(1), false));
    assert_eq!(ct(1).overflowing_sub(ct(2)), (ClockTime::MAX(), true));
}

#[test]
fn saturating_ops() {
    let p_ct_max: Signed<ClockTime> = ClockTime::MAX().into_positive();
    let n_ct_max: Signed<ClockTime> = ClockTime::MAX().into_negative();

    assert_eq!(ct(1).saturating_add(ct(2)), ct(3));
    assert_eq!(p_ct(1).saturating_add(p_ct(2)), p_ct(3));
    assert_eq!(p_ct(2).saturating_add(n_ct(3)), n_ct(1));
    assert_eq!(p_ct(3).saturating_add(n_ct(2)), p_ct(1));
    assert_eq!(n_ct(3).saturating_add(p_ct(1)), n_ct(2));
    assert_eq!(n_ct(2).saturating_add(p_ct(3)), p_ct(1));
    assert_eq!(n_ct(2).saturating_add(n_ct(1)), n_ct(3));

    assert_eq!(ClockTime::MAX().saturating_add(ct(1)), ClockTime::MAX());
    assert_eq!(p_ct_max.saturating_add(p_ct(1)), p_ct_max);

    assert_eq!(ct(3).saturating_sub(ct(2)), ct(1));
    assert_eq!(p_ct(3).saturating_sub(p_ct(2)), p_ct(1));
    assert_eq!(p_ct(2).saturating_sub(p_ct(3)), n_ct(1));
    assert_eq!(p_ct(2).saturating_sub(n_ct(1)), p_ct(3));
    assert_eq!(n_ct(2).saturating_sub(p_ct(1)), n_ct(3));
    assert_eq!(n_ct(3).saturating_sub(n_ct(1)), n_ct(2));
    assert_eq!(n_ct(2).saturating_sub(n_ct(3)), p_ct(1));

    assert!(ct(1).saturating_sub(ct(2)).is_zero());
    assert_eq!(p_ct(1).saturating_sub(p_ct(2)), n_ct(1));

    assert_eq!(ct(1).saturating_mul(2), ct(2));
    assert_eq!(ClockTime::MAX().saturating_mul(2), ClockTime::MAX());

    assert_eq!(p_ct(1).saturating_mul(2), p_ct(2));
    assert_eq!(p_ct(1).saturating_mul(-2), n_ct(2));
    assert_eq!(n_ct(1).saturating_mul(2), n_ct(2));
    assert_eq!(n_ct(1).saturating_mul(-2), p_ct(2));

    assert_eq!(p_ct(1).saturating_mul_unsigned(2u64), p_ct(2));
    assert_eq!(n_ct(1).saturating_mul_unsigned(2u64), n_ct(2));

    assert_eq!(p_ct_max.saturating_mul(2), p_ct_max);
    assert_eq!(n_ct_max.saturating_mul(2), n_ct_max);

    assert_eq!(p_ct_max.saturating_mul_unsigned(2u64), p_ct_max);
    assert_eq!(n_ct_max.saturating_mul_unsigned(2u64), n_ct_max);
}

#[test]
fn wrapping_ops() {
    assert_eq!(ct(1).wrapping_add(ct(2)), ct(3));
    assert_eq!(ClockTime::MAX().wrapping_add(ct(1)), ClockTime::ZERO());

    assert_eq!(ct(3).wrapping_sub(ct(2)), ct(1));
    assert_eq!(ct(1).wrapping_sub(ct(2)), ClockTime::MAX());
}

#[test]
fn mul_div_ops() {
    assert_eq!(ct(1).mul_div_floor(7, 3), Some(ct(2)));

    assert_eq!(p_ct(1).mul_div_floor(7u64, 3), Some(p_ct(2)));
    assert_eq!(p_ct(1).mul_div_floor(-7i64, 3), Some(n_ct(2)));
    assert_eq!(p_ct(1).mul_div_floor(7i64, -3), Some(n_ct(2)));
    assert_eq!(p_ct(1).mul_div_floor(-7i64, -3), Some(p_ct(2)));

    assert_eq!(n_ct(1).mul_div_floor(7u64, 3), Some(n_ct(2)));
    assert_eq!(n_ct(1).mul_div_floor(-7i64, 3), Some(p_ct(2)));
    assert_eq!(n_ct(1).mul_div_floor(7i64, -3), Some(p_ct(2)));
    assert_eq!(n_ct(1).mul_div_floor(-7i64, -3), Some(n_ct(2)));

    assert_eq!(ct(1).mul_div_round(10, 3), Some(ct(3)));
    assert_eq!(ct(1).mul_div_round(8, 3), Some(ct(3)));

    assert_eq!(p_ct(1).mul_div_round(10u64, 3), Some(p_ct(3)));
    assert_eq!(p_ct(1).mul_div_round(8u64, 3), Some(p_ct(3)));
    assert_eq!(p_ct(1).mul_div_round(-10i64, 3), Some(n_ct(3)));
    assert_eq!(p_ct(1).mul_div_round(-8i64, 3), Some(n_ct(3)));
    assert_eq!(p_ct(1).mul_div_round(10i64, -3), Some(n_ct(3)));
    assert_eq!(p_ct(1).mul_div_round(-10i64, -3), Some(p_ct(3)));

    assert_eq!(n_ct(1).mul_div_round(10u64, 3), Some(n_ct(3)));
    assert_eq!(n_ct(1).mul_div_round(-10i64, 3), Some(p_ct(3)));
    assert_eq!(n_ct(1).mul_div_round(10i64, -3), Some(p_ct(3)));
    assert_eq!(n_ct(1).mul_div_round(-10i64, -3), Some(n_ct(3)));

    assert_eq!(ct(1).mul_div_ceil(7, 3), Some(ct(3)));

    assert_eq!(p_ct(1).mul_div_ceil(7u64, 3), Some(p_ct(3)));
    assert_eq!(p_ct(1).mul_div_ceil(-7i64, 3), Some(n_ct(3)));
    assert_eq!(p_ct(1).mul_div_ceil(7i64, -3), Some(n_ct(3)));
    assert_eq!(p_ct(1).mul_div_ceil(-7i64, -3), Some(p_ct(3)));

    assert_eq!(n_ct(1).mul_div_ceil(7u64, 3), Some(n_ct(3)));
    assert_eq!(n_ct(1).mul_div_ceil(-7i64, 3), Some(p_ct(3)));
    assert_eq!(n_ct(1).mul_div_ceil(7i64, -3), Some(p_ct(3)));
    assert_eq!(n_ct(1).mul_div_ceil(-7i64, -3), Some(n_ct(3)));
}

#[test]
#[allow(clippy::nonminimal_bool)]
fn comp() {
    assert!(ClockTime::ZERO() < ct(2));
    assert!(Some(ClockTime::ZERO()) < Some(ct(2)));
    assert!(ct(2) < ct(3));
    assert!(Some(ct(2)) < Some(ct(3)));
    assert!(ClockTime::ZERO() < ct(3));
    assert!(Some(ClockTime::ZERO()) < Some(ct(3)));

    assert_eq!(ct(2), ct(2));
    assert_ne!(ct(3), ct(2));

    assert!(ClockTime::ZERO().into_positive() < p_ct(1));
    assert!(ClockTime::ZERO().into_positive() > n_ct(1));
    assert!(p_ct(1) < p_ct(2));
    assert!(p_ct(1) > n_ct(2));
    assert!(n_ct(1) < p_ct(2));
    assert!(n_ct(3) < n_ct(2));

    assert!(p_ct(1) < ct(2));
    assert!(ct(1) < p_ct(2));
    assert!(n_ct(2) < ct(1));
    assert!(ct(1) > n_ct(2));

    assert_eq!(ct(2), p_ct(2));
    assert_ne!(n_ct(3), ct(3));

    assert!(ct(3) > ct(2));
    assert!(Some(ct(3)) > Some(ct(2)));
    assert!(ct(2) > ClockTime::ZERO());
    assert!(Some(ct(2)) > Some(ClockTime::ZERO()));
    assert!(ct(3) > ClockTime::ZERO());
    assert!(Some(ct(3)) > Some(ClockTime::ZERO()));

    assert!(!(ClockTime::NONE() > None));
    assert!(!(Some(ClockTime::ZERO()) < ClockTime::NONE()));

    assert!(!(ClockTime::NONE() < None));
    assert!(!(ClockTime::NONE() > None));

    assert!(!(Some(ClockTime::ZERO()) < ClockTime::NONE()));
}

#[test]
fn display() {
    let none = Option::<ClockTime>::None;
    let some = Some(45_834_908_569_837 * ClockTime::NSECOND());
    let lots = ClockTime::from_nseconds(u64::MAX - 1);

    assert_eq!(DisplayableOptClockTime(none).to_string_with(opts(".0")), "--:--:--");
    assert_eq!(DisplayableOptClockTime(none).to_string_with(opts(".3")), "--:--:--.---");
    assert_eq!(DisplayableOptClockTime(none).to_string(), "--:--:--.---------");
    assert_eq!(DisplayableOptClockTime(some).to_string_with(opts(".0")), "12:43:54");
    assert_eq!(DisplayableOptClockTime(some).to_string_with(opts(".3")), "12:43:54.908");
    assert_eq!(DisplayableOptClockTime(some).to_string(), "12:43:54.908569837");
    assert_eq!(lots.to_string_with(opts(".0")), "5124095:34:33");
    assert_eq!(lots.to_string_with(opts(".3")), "5124095:34:33.709");
    assert_eq!(lots.to_string(), "5124095:34:33.709551614");
    assert_eq!(DisplayableOptClockTime(none).to_string_with(opts(".10")), "--:--:--.---------");
    assert_eq!(DisplayableOptClockTime(some).to_string_with(opts(".10")), "12:43:54.908569837");
    assert_eq!(lots.to_string_with(opts(".10")), "5124095:34:33.709551614");
    assert_eq!(DisplayableOptClockTime(none).to_string_with(opts("4.0")), "--:--:--");
    assert_eq!(DisplayableOptClockTime(none).to_string_with(opts("4.3")), "--:--:--.---");
    assert_eq!(DisplayableOptClockTime(none).to_string_with(opts("4")), "--:--:--.---------");
    assert_eq!(DisplayableOptClockTime(some).to_string_with(opts("4.0")), "12:43:54");
    assert_eq!(DisplayableOptClockTime(some).to_string_with(opts("4.3")), "12:43:54.908");
    assert_eq!(DisplayableOptClockTime(some).to_string_with(opts("4")), "12:43:54.908569837");
    assert_eq!(lots.to_string_with(opts("4.0")), "5124095:34:33");
    assert_eq!(lots.to_string_with(opts("4.3")), "5124095:34:33.709");
    assert_eq!(lots.to_string_with(opts("4")), "5124095:34:33.709551614");
    assert_eq!(DisplayableOptClockTime(none).to_string_with(opts(">9.0")), " --:--:--");
    assert_eq!(DisplayableOptClockTime(none).to_string_with(opts("<9.0")), "--:--:-- ");
    assert_eq!(DisplayableOptClockTime(none).to_string_with(opts("^10.0")), " --:--:-- ");
    assert_eq!(DisplayableOptClockTime(none).to_string_with(opts(">13.3")), " --:--:--.---");
    assert_eq!(DisplayableOptClockTime(none).to_string_with(opts("<13.3")), "--:--:--.--- ");
    assert_eq!(DisplayableOptClockTime(none).to_string_with(opts("^14.3")), " --:--:--.--- ");
    assert_eq!(DisplayableOptClockTime(none).to_string_with(opts(">19")), " --:--:--.---------");
    assert_eq!(DisplayableOptClockTime(none).to_string_with(opts("<19")), "--:--:--.--------- ");
    assert_eq!(DisplayableOptClockTime(none).to_string_with(opts("^20")), " --:--:--.--------- ");
    assert_eq!(DisplayableOptClockTime(some).to_string_with(opts(">9.0")), " 12:43:54");
    assert_eq!(DisplayableOptClockTime(some).to_string_with(opts("<9.0")), "12:43:54 ");
    assert_eq!(DisplayableOptClockTime(some).to_string_with(opts("^10.0")), " 12:43:54 ");
    assert_eq!(DisplayableOptClockTime(some).to_string_with(opts(">13.3")), " 12:43:54.908");
    assert_eq!(DisplayableOptClockTime(some).to_string_with(opts("<13.3")), "12:43:54.908 ");
    assert_eq!(DisplayableOptClockTime(some).to_string_with(opts("^14.3")), " 12:43:54.908 ");
    assert_eq!(DisplayableOptClockTime(some).to_string_with(opts(">19")), " 12:43:54.908569837");
    assert_eq!(DisplayableOptClockTime(some).to_string_with(opts("<19")), "12:43:54.908569837 ");
    assert_eq!(DisplayableOptClockTime(some).to_string_with(opts("^20")), " 12:43:54.908569837 ");
    assert_eq!(lots.to_string_with(opts(">14.0")), " 5124095:34:33");
    assert_eq!(lots.to_string_with(opts("<14.0")), "5124095:34:33 ");
    assert_eq!(lots.to_string_with(opts("^15.0")), " 5124095:34:33 ");
    assert_eq!(lots.to_string_with(opts(">18.3")), " 5124095:34:33.709");
    assert_eq!(lots.to_string_with(opts("<18.3")), "5124095:34:33.709 ");
    assert_eq!(lots.to_string_with(opts("^19.3")), " 5124095:34:33.709 ");
    assert_eq!(lots.to_string_with(opts(">24")), " 5124095:34:33.709551614");
    assert_eq!(lots.to_string_with(opts("<24")), "5124095:34:33.709551614 ");
    assert_eq!(lots.to_string_with(opts("^25")), " 5124095:34:33.709551614 ");
    assert_eq!(DisplayableOptClockTime(none).to_string_with(opts("+11.0")), "   --:--:--");
    assert_eq!(DisplayableOptClockTime(none).to_string_with(opts("011.0")), "-----:--:--");
    assert_eq!(DisplayableOptClockTime(none).to_string_with(opts("+011.0")), "-----:--:--");
    assert_eq!(DisplayableOptClockTime(none).to_string_with(opts("+15.3")), "   --:--:--.---");
    assert_eq!(DisplayableOptClockTime(none).to_string_with(opts("015.3")), "-----:--:--.---");
    assert_eq!(DisplayableOptClockTime(none).to_string_with(opts("+015.3")), "-----:--:--.---");
    assert_eq!(DisplayableOptClockTime(none).to_string_with(opts("+21")), "   --:--:--.---------");
    assert_eq!(DisplayableOptClockTime(none).to_string_with(opts("021")), "-----:--:--.---------");
    assert_eq!(DisplayableOptClockTime(none).to_string_with(opts("+021")), "-----:--:--.---------");
    assert_eq!(DisplayableOptClockTime(some).to_string_with(opts("+11.0")), "  +12:43:54");
    assert_eq!(DisplayableOptClockTime(some).to_string_with(opts("011.0")), "00012:43:54");
    assert_eq!(DisplayableOptClockTime(some).to_string_with(opts("+011.0")), "+0012:43:54");
    assert_eq!(DisplayableOptClockTime(some).to_string_with(opts("+15.3")), "  +12:43:54.908");
    assert_eq!(DisplayableOptClockTime(some).to_string_with(opts("015.3")), "00012:43:54.908");
    assert_eq!(DisplayableOptClockTime(some).to_string_with(opts("+015.3")), "+0012:43:54.908");
    assert_eq!(DisplayableOptClockTime(some).to_string_with(opts("+21")), "  +12:43:54.908569837");
    assert_eq!(DisplayableOptClockTime(some).to_string_with(opts("021")), "00012:43:54.908569837");
    assert_eq!(DisplayableOptClockTime(some).to_string_with(opts("+021")), "+0012:43:54.908569837");
    assert_eq!(lots.to_string_with(opts("+16.0")), "  +5124095:34:33");
    assert_eq!(lots.to_string_with(opts("016.0")), "0005124095:34:33");
    assert_eq!(lots.to_string_with(opts("+016.0")), "+005124095:34:33");
    assert_eq!(lots.to_string_with(opts("+20.3")), "  +5124095:34:33.709");
    assert_eq!(lots.to_string_with(opts("020.3")), "0005124095:34:33.709");
    assert_eq!(lots.to_string_with(opts("+020.3")), "+005124095:34:33.709");
    assert_eq!(lots.to_string_with(opts("+26")), "  +5124095:34:33.709551614");
    assert_eq!(lots.to_string_with(opts("026")), "0005124095:34:33.709551614");
    assert_eq!(lots.to_string_with(opts("+026")), "+005124095:34:33.709551614");
}

#[test]
fn iter_sum() {
    let s: ClockTime = ClockTime::sum_of(&vec![ClockTime::from_seconds(1), ClockTime::from_seconds(2)]);
    assert_eq!(s, ClockTime::from_seconds(3));
}

#[test]
fn try_into_signed() {
    let time = Signed::Positive(ClockTime::from_nseconds(0));
    assert_eq!(i64::try_from(time), Ok(0));

    let time = Signed::Positive(ClockTime::from_nseconds(123));
    assert_eq!(i64::try_from(time), Ok(123));

    let time = Signed::Positive(ClockTime::from_nseconds(u64::MAX - 1));
    assert!(i64::try_from(time).is_err());

    let time = Signed::Positive(ClockTime::from_nseconds(u64::MAX >> 1));
    assert_eq!(i64::MAX as i128, (u64::MAX >> 1) as i128);
    assert_eq!(i64::try_from(time), Ok(i64::MAX));

    let time = Signed::Negative(ClockTime::from_nseconds(0));
    assert_eq!(i64::try_from(time), Ok(0));

    let time = Signed::Negative(ClockTime::from_nseconds(123));
    assert_eq!(i64::try_from(time), Ok(-123));

    let time = Signed::Negative(ClockTime::from_nseconds(u64::MAX - 1));
    assert!(i64::try_from(time).is_err());

    let time = Signed::Negative(ClockTime::from_nseconds(u64::MAX >> 1));
    assert_eq!(i64::MIN as i128 + 1, -((u64::MAX >> 1) as i128));
    assert_eq!(i64::try_from(time), Ok(i64::MIN + 1));

    let time = Signed::Negative(ClockTime::from_nseconds((u64::MAX >> 1) + 1));
    assert_eq!(i64::MIN as i128, -(((u64::MAX >> 1) + 1) as i128));
    assert_eq!(i64::try_from(time), Ok(i64::MIN));
}
