use gstreamer::buffers::Buffers;
use gstreamer::bytes::{Bytes, BytesFormatConstructor, DisplayableOptionBytes};
use gstreamer::clock_time::ClockTime;
use gstreamer::display::DisplayText;
use gstreamer::format_kind::Format;
use gstreamer::generic::{GenericFormattedValue, GenericSignedFormattedValue};
use gstreamer::other::{Other, OtherFormatConstructor};
use gstreamer::percent::{Percent, PercentFormatIntegerConstructor};
use gstreamer::signed::{display_option_signed, Signed};
use gstreamer::traits::{
    CompatibleFormattedValue, FormattedValue, FormattedValueError, FormattedValueFullRange,
    FormattedValueNoneBuilder, NoneSignedBuilder, UnsignedIntoSigned,
};

fn with_compatible_formats<V1, V2>(arg1: V1, arg2: V2) -> Result<V2::Original, FormattedValueError>
where
    V1: FormattedValue,
    V2: CompatibleFormattedValue<V1>,
{
    arg2.try_into_checked(arg1)
}

fn with_compatible_explicit<T, V>(arg: V, f: Format) -> Result<V::Original, FormattedValueError>
where
    T: FormattedValue,
    V: CompatibleFormattedValue<T>,
{
    arg.try_into_checked_explicit(f)
}

#[test]
fn mod_compatible() {
    assert_eq!(
        with_compatible_formats(ClockTime::ZERO(), ClockTime::ZERO()),
        Ok(ClockTime::ZERO()),
    );
    assert_eq!(
        with_compatible_formats(ClockTime::ZERO(), ClockTime::NONE()),
        Ok(ClockTime::NONE()),
    );
    assert_eq!(
        with_compatible_formats(ClockTime::NONE(), ClockTime::ZERO()),
        Ok(ClockTime::ZERO()),
    );
    assert_eq!(
        with_compatible_formats(
            ClockTime::ZERO(),
            GenericFormattedValue::Time(Some(ClockTime::ZERO())),
        ),
        Ok(GenericFormattedValue::Time(Some(ClockTime::ZERO()))),
    );
    assert_eq!(
        with_compatible_formats(
            GenericFormattedValue::Time(Some(ClockTime::ZERO())),
            ClockTime::NONE(),
        ),
        Ok(ClockTime::NONE()),
    );
}

#[test]
fn mod_incompatible() {
    with_compatible_formats(
        ClockTime::ZERO(),
        GenericFormattedValue::Buffers(Some(Buffers::from_u64(42))),
    )
    .unwrap_err();
    with_compatible_formats(
        GenericFormattedValue::Buffers(Some(Buffers::from_u64(42))),
        ClockTime::NONE(),
    )
    .unwrap_err();
}

#[test]
fn mod_compatible_explicit() {
    assert_eq!(
        with_compatible_explicit::<ClockTime, _>(ClockTime::ZERO(), Format::Time),
        Ok(ClockTime::ZERO()),
    );
    assert_eq!(
        with_compatible_explicit::<ClockTime, _>(ClockTime::NONE(), Format::Time),
        Ok(ClockTime::NONE()),
    );
    assert_eq!(
        with_compatible_explicit::<ClockTime, _>(ClockTime::ZERO(), Format::Time),
        Ok(ClockTime::ZERO()),
    );
    assert_eq!(
        with_compatible_explicit::<ClockTime, _>(GenericFormattedValue::Time(None), Format::Time),
        Ok(GenericFormattedValue::Time(None)),
    );
    assert_eq!(
        with_compatible_explicit::<GenericFormattedValue, _>(ClockTime::NONE(), Format::Time),
        Ok(ClockTime::NONE()),
    );
}

#[test]
fn mod_incompatible_explicit() {
    with_compatible_explicit::<Buffers, _>(GenericFormattedValue::Time(None), Format::Buffers)
        .unwrap_err();
    with_compatible_explicit::<GenericFormattedValue, _>(Buffers::ZERO(), Format::Time)
        .unwrap_err();
    with_compatible_explicit::<GenericFormattedValue, _>(
        GenericFormattedValue::Time(None),
        Format::Buffers,
    )
    .unwrap_err();
}

#[test]
fn format_compatible() {
    assert_eq!(
        with_compatible_formats(ClockTime::ZERO(), ClockTime::ZERO()),
        Ok(ClockTime::ZERO()),
    );
    assert_eq!(
        with_compatible_formats(ClockTime::ZERO(), ClockTime::NONE()),
        Ok(ClockTime::NONE()),
    );
    assert_eq!(
        with_compatible_formats(ClockTime::NONE(), ClockTime::ZERO()),
        Ok(ClockTime::ZERO()),
    );
    assert_eq!(
        with_compatible_formats(
            ClockTime::ZERO(),
            GenericFormattedValue::Time(Some(ClockTime::ZERO())),
        ),
        Ok(GenericFormattedValue::Time(Some(ClockTime::ZERO()))),
    );
    assert_eq!(
        with_compatible_formats(
            GenericFormattedValue::Time(Some(ClockTime::ZERO())),
            ClockTime::NONE(),
        ),
        Ok(ClockTime::NONE()),
    );
}

#[test]
fn format_incompatible() {
    with_compatible_formats(
        ClockTime::ZERO(),
        GenericFormattedValue::Buffers(Some(Buffers::from_u64(42))),
    )
    .unwrap_err();
    with_compatible_formats(
        GenericFormattedValue::Buffers(Some(Buffers::from_u64(42))),
        ClockTime::NONE(),
    )
    .unwrap_err();
}

#[test]
fn format_compatible_explicit() {
    assert_eq!(
        with_compatible_explicit::<ClockTime, _>(ClockTime::ZERO(), Format::Time),
        Ok(ClockTime::ZERO()),
    );
    assert_eq!(
        with_compatible_explicit::<ClockTime, _>(ClockTime::NONE(), Format::Time),
        Ok(ClockTime::NONE()),
    );
    assert_eq!(
        with_compatible_explicit::<ClockTime, _>(ClockTime::ZERO(), Format::Time),
        Ok(ClockTime::ZERO()),
    );
    assert_eq!(
        with_compatible_explicit::<ClockTime, _>(GenericFormattedValue::Time(None), Format::Time),
        Ok(GenericFormattedValue::Time(None)),
    );
    assert_eq!(
        with_compatible_explicit::<GenericFormattedValue, _>(ClockTime::NONE(), Format::Time),
        Ok(ClockTime::NONE()),
    );
}

#[test]
fn format_incompatible_explicit() {
    with_compatible_explicit::<Buffers, _>(GenericFormattedValue::Time(None), Format::Buffers)
        .unwrap_err();
    with_compatible_explicit::<GenericFormattedValue, _>(Buffers::ZERO(), Format::Time)
        .unwrap_err();
    with_compatible_explicit::<GenericFormattedValue, _>(
        GenericFormattedValue::Time(None),
        Format::Buffers,
    )
    .unwrap_err();
}

#[test]
fn none_builder() {
    let ct_none: Option<ClockTime> = Option::<ClockTime>::none();
    assert!(ct_none.is_none());

    let ct_none: Option<ClockTime> = Option::<ClockTime>::none_for_format(Format::Time);
    assert!(ct_none.is_none());

    let gen_ct_none: GenericFormattedValue = GenericFormattedValue::none_for_format(Format::Time);
    assert!(FormattedValue::is_none(&gen_ct_none));

    assert!(FormattedValue::is_some(&ClockTime::ZERO()));
    assert!(!FormattedValue::is_none(&ClockTime::ZERO()));
}

#[test]
fn none_signed_builder() {
    let ct_none: Option<Signed<ClockTime>> = Option::<ClockTime>::none_signed();
    assert!(ct_none.is_none());

    let ct_none: Option<Signed<ClockTime>> =
        Option::<ClockTime>::none_signed_for_format(Format::Time);
    assert!(ct_none.is_none());

    let gen_ct_none: GenericSignedFormattedValue =
        GenericFormattedValue::none_signed_for_format(Format::Time);
    assert!(FormattedValue::is_none(&gen_ct_none.abs()));
}

#[test]
fn signed_optional() {
    let ct_1 = Some(ClockTime::SECOND());

    let signed = ct_1.into_positive().unwrap();
    assert_eq!(signed, Signed::Positive(ClockTime::SECOND()));
    assert!(signed.is_positive());
    assert_eq!(signed.positive_or(()).unwrap(), ClockTime::SECOND());
    assert_eq!(signed.positive_or_else(|_| ()).unwrap(), ClockTime::SECOND());
    signed.negative_or(()).unwrap_err();
    assert_eq!(
        signed.negative_or_else(|val| val).unwrap_err(),
        ClockTime::SECOND()
    );

    let signed = ct_1.into_negative().unwrap();
    assert_eq!(signed, Signed::Negative(ClockTime::SECOND()));
    assert!(signed.is_negative());
    assert_eq!(signed.negative_or(()).unwrap(), ClockTime::SECOND());
    assert_eq!(signed.negative_or_else(|_| ()).unwrap(), ClockTime::SECOND());
    signed.positive_or(()).unwrap_err();
    assert_eq!(
        signed.positive_or_else(|val| val).unwrap_err(),
        ClockTime::SECOND()
    );

    let ct_none = ClockTime::NONE();
    assert!(ct_none.into_positive().is_none());
    assert!(ct_none.into_negative().is_none());
}

#[test]
fn signed_mandatory() {
    let ct_1 = ClockTime::SECOND();

    let signed = ct_1.into_positive();
    assert_eq!(signed, Signed::Positive(ct_1));
    assert!(signed.is_positive());
    assert_eq!(signed.positive(), Some(ct_1));
    assert!(!signed.is_negative());
    assert!(signed.negative().is_none());
    assert_eq!(signed.signum(), 1);

    let signed = ct_1.into_negative();
    assert_eq!(signed, Signed::Negative(ct_1));
    assert!(signed.is_negative());
    assert_eq!(signed.negative(), Some(ct_1));
    assert!(!signed.is_positive());
    assert!(signed.positive().is_none());
    assert_eq!(signed.signum(), -1);

    let signed = gstreamer::default_format::Default::ONE().into_positive();
    assert_eq!(signed, Signed::Positive(gstreamer::default_format::Default::ONE()));
    assert!(signed.is_positive());
    assert_eq!(signed.positive(), Some(gstreamer::default_format::Default::ONE()));
    assert!(!signed.is_negative());
    assert!(signed.negative().is_none());
    assert_eq!(signed.signum(), 1);

    let signed = gstreamer::default_format::Default::ONE().into_negative();
    assert_eq!(signed, Signed::Negative(gstreamer::default_format::Default::ONE()));
    assert!(signed.is_negative());
    assert_eq!(signed.negative(), Some(gstreamer::default_format::Default::ONE()));
    assert!(!signed.is_positive());
    assert!(signed.positive().is_none());
    assert_eq!(signed.signum(), -1);

    let ct_zero = ClockTime::ZERO();
    let p_ct_zero = ct_zero.into_positive();
    assert!(p_ct_zero.is_positive());
    assert!(!p_ct_zero.is_negative());
    assert_eq!(p_ct_zero.signum(), 0);
    let n_ct_zero = ct_zero.into_negative();
    assert!(n_ct_zero.is_negative());
    assert!(!n_ct_zero.is_positive());
    assert_eq!(n_ct_zero.signum(), 0);
}

#[test]
fn signed_generic() {
    let ct_1 = GenericFormattedValue::Time(Some(ClockTime::SECOND()));
    assert!(FormattedValue::is_some(&ct_1));

    let signed = ct_1.into_positive();
    assert_eq!(
        signed,
        GenericSignedFormattedValue::Time(Some(Signed::Positive(ClockTime::SECOND()))),
    );
    assert_eq!(signed.is_positive(), Some(true));
    assert_eq!(signed.is_negative(), Some(false));
    assert_eq!(signed.signum(), Some(1));

    let signed = ct_1.into_negative();
    assert_eq!(
        signed,
        GenericSignedFormattedValue::Time(Some(Signed::Negative(ClockTime::SECOND()))),
    );
    assert_eq!(signed.is_negative(), Some(true));
    assert_eq!(signed.is_positive(), Some(false));
    assert_eq!(signed.signum(), Some(-1));

    let ct_none = GenericFormattedValue::Time(ClockTime::NONE());
    assert!(FormattedValue::is_none(&ct_none));

    let signed = ct_none.into_positive();
    assert_eq!(signed, GenericSignedFormattedValue::Time(None),);
    assert!(signed.is_positive().is_none());
    assert!(signed.is_negative().is_none());
    assert!(signed.signum().is_none());

    let signed = ct_none.into_negative();
    assert_eq!(signed, GenericSignedFormattedValue::Time(None),);
    assert!(signed.is_negative().is_none());
    assert!(signed.is_positive().is_none());
    assert!(signed.signum().is_none());

    let ct_zero = GenericFormattedValue::Time(Some(ClockTime::ZERO()));
    assert!(FormattedValue::is_some(&ct_zero));

    let signed = ct_zero.into_positive();
    assert_eq!(
        signed,
        GenericSignedFormattedValue::Time(Some(Signed::Positive(ClockTime::ZERO()))),
    );
    assert_eq!(signed.is_positive(), Some(true));
    assert_eq!(signed.is_negative(), Some(false));
    assert_eq!(signed.signum(), Some(0));
}

#[test]
fn signed_roundtrip() {
    let ct_1 = Some(ClockTime::SECOND());
    let raw_ct_1 = ct_1.into_raw_value();

    let signed = Option::<ClockTime>::from_raw(Format::Time, raw_ct_1)
        .into_signed(1)
        .unwrap();
    assert_eq!(signed, Signed::Positive(ClockTime::SECOND()));
    assert!(signed.is_positive());

    let signed = Option::<ClockTime>::from_raw(Format::Time, raw_ct_1)
        .into_signed(-1)
        .unwrap();
    assert_eq!(signed, Signed::Negative(ClockTime::SECOND()));
    assert!(signed.is_negative());

    let ct_none = ClockTime::NONE();
    let raw_ct_none = ct_none.into_raw_value();

    let signed = Option::<ClockTime>::from_raw(Format::Time, raw_ct_none).into_signed(1);
    assert!(signed.is_none());

    let signed = Option::<ClockTime>::from_raw(Format::Time, raw_ct_none).into_signed(-1);
    assert!(signed.is_none());
}

#[test]
fn display_new_types() {
    let bytes = 42.bytes();
    assert_eq!(&bytes.to_string(), "42 bytes");
    assert_eq!(&DisplayableOptionBytes(Some(bytes)).to_string(), "42 bytes");

    assert_eq!(&DisplayableOptionBytes(Bytes::NONE()).to_string(), "undef. bytes");

    let gv_1 = GenericFormattedValue::Percent(Some(42.percent()));
    assert_eq!(&gv_1.to_string(), "42 %");
    assert_eq!(&GenericFormattedValue::Percent(None).to_string(), "undef. %");

    let other: Other = Other::try_from_u64(42).unwrap();
    assert_eq!(&other.to_string(), "42");

    let g_other = GenericFormattedValue::new(Format::__Unknown(128), 42);
    assert_eq!(&g_other.to_string(), "42 (format: 128)");

    let g_other_none = GenericFormattedValue::Other(Format::__Unknown(128), None);
    assert_eq!(&g_other_none.to_string(), "undef. (format: 128)");
}

#[test]
fn display_signed() {
    let bytes_42 = 42.bytes();
    let p_bytes = bytes_42.into_positive();
    assert_eq!(&p_bytes.to_string(), "+42 bytes");

    let some_p_bytes = Some(p_bytes);
    assert_eq!(&display_option_signed(some_p_bytes).to_string(), "+42 bytes");

    let p_some_bytes = Signed::Positive(Some(bytes_42));
    assert_eq!(&display_option_signed(p_some_bytes.transpose()).to_string(), "+42 bytes");

    let n_bytes = bytes_42.into_negative();
    assert_eq!(&n_bytes.to_string(), "-42 bytes");

    let some_n_bytes = Some(n_bytes);
    assert_eq!(&display_option_signed(some_n_bytes).to_string(), "-42 bytes");

    let n_some_bytes = Signed::Negative(Some(bytes_42));
    assert_eq!(&display_option_signed(n_some_bytes.transpose()).to_string(), "-42 bytes");

    let p_none_bytes = Signed::Positive(Bytes::NONE());
    assert_eq!(&display_option_signed(p_none_bytes.transpose()).to_string(), "undef. bytes");
    let n_none_bytes = Signed::Negative(Bytes::NONE());
    assert_eq!(&display_option_signed(n_none_bytes.transpose()).to_string(), "undef. bytes");

    let none_s_bytes = Option::<Signed<Bytes>>::None;
    assert_eq!(&display_option_signed(none_s_bytes).to_string(), "undef. bytes");

    let ct_1 = 45_834_908_569_837 * ClockTime::NSECOND();
    assert_eq!(&ct_1.to_string(), "12:43:54.908569837");

    let g_ct_1 = GenericFormattedValue::Time(Some(ct_1));
    assert_eq!(&g_ct_1.to_string(), "12:43:54.908569837");

    let p_g_ct1 = g_ct_1.into_positive();
    assert_eq!(&p_g_ct1.to_string(), "+12:43:54.908569837");

    let n_g_ct1 = g_ct_1.into_negative();
    assert_eq!(&n_g_ct1.to_string(), "-12:43:54.908569837");
}

#[test]
fn percent_display_matches_float_display() {
    for ppm in 0..=1_000_000u32 {
        let expected = format!("{} %", ppm as f32 / 10_000f32);
        let percent = Percent::from_ppm(ppm);
        assert_eq!(percent.to_string(), expected);
        let mut out = Vec::new();
        <Percent as DisplayText>::push_opt_text(Some(percent), &mut out);
        assert_eq!(out.into_iter().collect::<String>(), expected);
    }
}

#[test]
fn other() {
    let other_none: Option<Other> = Other::try_from_u64(u64::MAX).ok();
    assert!(other_none.is_none());

    let other_10 = Other::from_u64(10);
    let other_20 = Other::from_usize(20);
    let other_30 = 30.other_format();

    assert_eq!(other_10 + other_20, other_30);
    assert_eq!(other_30 - other_20, other_10);

    assert!(other_10 < Other::MAX());
}

#[test]
fn generic_other() {
    let gen_other_42: GenericFormattedValue = GenericFormattedValue::new(Format::__Unknown(128), 42);
    assert_eq!(
        gen_other_42,
        GenericFormattedValue::Other(Format::__Unknown(128), Other::try_from_u64(42).ok())
    );
    assert_eq!(gen_other_42.format(), Format::__Unknown(128));
    assert_eq!(gen_other_42.value(), 42);
    assert!(FormattedValue::is_some(&gen_other_42));

    let other_none: Option<Other> = Other::NONE();
    assert!(other_none.is_none());

    let gen_other_none: GenericFormattedValue =
        GenericFormattedValue::none_for_format(Format::__Unknown(128));
    assert!(FormattedValue::is_none(&gen_other_none));
    assert_eq!(
        gen_other_none,
        GenericFormattedValue::Other(Format::__Unknown(128), None)
    );
}

#[test]
fn generic_signed_other() {
    let gen_other_42: GenericFormattedValue = GenericFormattedValue::new(Format::__Unknown(128), 42);

    let p_gen_other_42 = gen_other_42.into_positive();
    assert_eq!(
        p_gen_other_42,
        GenericSignedFormattedValue::Other(
            Format::__Unknown(128),
            Some(Signed::Positive(42.other_format())),
        ),
    );

    let n_gen_other_42 = gen_other_42.into_negative();
    assert_eq!(
        n_gen_other_42,
        GenericSignedFormattedValue::Other(
            Format::__Unknown(128),
            Some(Signed::Negative(42.other_format())),
        ),
    );
}
