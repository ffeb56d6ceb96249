use gstreamer::clock_time::{ClockTime, DurationError};
use gstreamer::flag_types::{DebugColorFlags, DebugGraphDetails, PadFlags};
use gstreamer::flags::FlagsParseError;
use gstreamer::pad_name::{name_fits_name_template, takes_target_name};
use gstreamer::signed::Signed;

#[test]
fn clock_time_glib_roundtrip() {
    for v in [None, Some(ClockTime::ZERO()), Some(ClockTime::from_nseconds(42)), Some(ClockTime::MAX())] {
        assert_eq!(ClockTime::opt_from_glib(ClockTime::opt_into_glib(v)), v);
    }
    assert_eq!(ClockTime::opt_into_glib(None), u64::MAX);
    assert_eq!(ClockTime::opt_from_glib(u64::MAX), None);
    assert!(ClockTime::try_from_glib(u64::MAX).is_err());
    assert_eq!(ClockTime::try_from_glib_i64(-1).is_err(), true);
    assert_eq!(ClockTime::try_from_glib_i64(5).unwrap().nseconds(), 5);
}

#[test]
fn clock_time_add_then_sub() {
    let a = ClockTime::from_nseconds(123_456);
    let b = ClockTime::from_nseconds(654_321);
    let s = a.checked_add(b).unwrap();
    assert_eq!(s.checked_sub(b), Some(a));
    let big = ClockTime::MAX();
    let w = big.wrapping_add(b);
    assert_eq!(w.nseconds(), 654_320);
    assert_eq!(w.wrapping_sub(b), big);
    assert_eq!(ClockTime::ZERO().wrapping_sub(ClockTime::from_nseconds(1)), ClockTime::MAX());
}

#[test]
fn clock_time_mul_div_rounding() {
    let t = ClockTime::from_nseconds(10);
    assert_eq!(t.mul_div_floor(1, 4), Some(ClockTime::from_nseconds(2)));
    assert_eq!(t.mul_div_round(1, 4), Some(ClockTime::from_nseconds(3)));
    assert_eq!(t.mul_div_ceil(1, 4), Some(ClockTime::from_nseconds(3)));
    assert_eq!(t.mul_div_round(1, 3), Some(ClockTime::from_nseconds(3)));
    assert_eq!(ClockTime::from_seconds(1).mul_div_floor(1, 3), Some(ClockTime::from_nseconds(333_333_333)));
    assert_eq!(ClockTime::MAX().mul_div_floor(2, 1), None);
}

#[test]
fn signed_negation_and_order() {
    let a: Signed<u64> = Signed::Negative(5);
    assert_eq!(-(-a), a);
    assert_eq!((-a).abs(), 5);
    assert_eq!(-a, Signed::Positive(5));
    assert!(Signed::Negative(7u64) < Signed::Negative(3u64));
    assert!(Signed::Negative(0u64) < Signed::Positive(0u64));
    assert!(Signed::Positive(2u64) > Signed::Negative(9u64));
    assert_eq!(Signed::Positive(4u64).partial_cmp(&Signed::Positive(4u64)), Some(std::cmp::Ordering::Equal));
}

#[test]
fn signed_add_then_sub() {
    let a: Signed<u64> = Signed::Negative(10);
    let b: Signed<u64> = Signed::Positive(25);
    let s = a.checked_add(b).unwrap();
    assert_eq!(s, Signed::Positive(15));
    assert_eq!(s.checked_sub(b), Some(a));
    assert_eq!(Signed::Positive(u64::MAX).checked_add(Signed::Positive(1)), None);
    assert_eq!(Signed::Negative(u64::MAX).saturating_sub(Signed::Positive(1)), Signed::Negative(u64::MAX));
    assert_eq!(Signed::Negative(3u64).saturating_add(Signed::Positive(1)), Signed::Negative(2));
    assert_eq!(Signed::Positive(3u64).checked_sub(Signed::Positive(3)), Some(Signed::Positive(0)));
    assert_eq!(Signed::Negative(3u64).checked_add(Signed::Positive(3)), Some(Signed::Negative(0)));
}

#[test]
fn pad_name_templates() {
    assert!(name_fits_name_template("sink_%u", "sink_0"));
    assert!(!name_fits_name_template("sink_%u", "sink"));
    assert!(!name_fits_name_template("sink_%u", "sink_-1"));
    assert!(name_fits_name_template("sink_%d_%u", "sink_-2_0"));
    assert!(!name_fits_name_template("sink_%d_%u", "src_-2_0"));
    assert!(name_fits_name_template("sink_%s", "sink_test"));
    assert!(!name_fits_name_template("sink_%u", "sink_x"));
    assert!(takes_target_name(Some("sink_%u"), "sink_0"));
    assert!(!takes_target_name(Some("sink_%u"), "sink"));
}

#[test]
fn flags_roundtrip_and_errors() {
    let f = PadFlags::BLOCKED() | PadFlags::EOS() | PadFlags::ACCEPT_TEMPLATE();
    let s = f.serialize();
    assert_eq!(s, "blocked+eos+accept-template");
    assert_eq!(PadFlags::deserialize(&s), Ok(f));
    assert_eq!(PadFlags::deserialize(""), Ok(PadFlags::empty()));
    assert_eq!(PadFlags::deserialize("blocked+nothing"), Err(FlagsParseError));
    assert_eq!(PadFlags::empty().serialize(), "");
    assert_eq!(PadFlags::from_bits(0x1), None);
    assert_eq!(PadFlags::from_bits_truncate(0x11).bits(), 0x10);
    assert!(f.contains(PadFlags::EOS()));
    assert!(!f.contains(PadFlags::FLUSHING()));
    let all = DebugGraphDetails::all();
    assert_eq!(DebugGraphDetails::deserialize(&all.serialize()), Ok(all));
}

#[test]
fn clock_time_from_nanos_range() {
    assert_eq!(ClockTime::try_from_nanos(42), Ok(ClockTime::from_nseconds(42)));
    assert_eq!(ClockTime::try_from_nanos(u64::MAX as u128 - 1), Ok(ClockTime::MAX()));
    assert_eq!(ClockTime::try_from_nanos(u64::MAX as u128), Err(DurationError));
    assert_eq!(ClockTime::try_from_nanos(1u128 << 70), Err(DurationError));
}

#[test]
fn debug_flags_roundtrip_on_named_bits() {
    for b in [0x0u32, 0x5, 0xf, 0x1f, 0x13, 0xffff_ffff] {
        let f = DebugGraphDetails::from_bits(b).unwrap();
        assert_eq!(DebugGraphDetails::deserialize(&f.serialize()), Ok(f));
    }
    let unnamed = DebugGraphDetails::from_bits(0x20).unwrap();
    assert_eq!(unnamed.serialize(), "");
    assert_eq!(DebugGraphDetails::deserialize(""), Ok(DebugGraphDetails::empty()));
    for b in [0x0u32, 0x7, 0x70, 0x377, 0x125, 0x216] {
        let f = DebugColorFlags::from_bits(b).unwrap();
        assert_eq!(DebugColorFlags::deserialize(&f.serialize()), Ok(f));
    }
    assert_eq!(DebugColorFlags::from_bits(0x125).unwrap().serialize(), "fg-magenta+bg-green+bold");
}
