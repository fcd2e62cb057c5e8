use raumklang::decimal::{format_u64, parse_u64, ParseError};
use raumklang::measurement::{name_from_path, Id, Kind};
use raumklang::units::{
    AmplitudeUnit, FrequencyResponseUnit, Offset, Scale, Smoothing, SmoothingType, TimeSeriesUnit,
};

#[test]
fn parse_u64_reads_plain_and_signed_numbers() {
    assert_eq!(parse_u64("0"), Ok(0));
    assert_eq!(parse_u64("42"), Ok(42));
    assert_eq!(parse_u64("+7"), Ok(7));
    assert_eq!(parse_u64("007"), Ok(7));
    assert_eq!(parse_u64("18446744073709551615"), Ok(u64::MAX));
}

#[test]
fn parse_u64_errors() {
    assert_eq!(parse_u64(""), Err(ParseError::Empty));
    assert_eq!(parse_u64("+"), Err(ParseError::InvalidDigit));
    assert_eq!(parse_u64("-1"), Err(ParseError::InvalidDigit));
    assert_eq!(parse_u64("1.5"), Err(ParseError::InvalidDigit));
    assert_eq!(parse_u64(" 1"), Err(ParseError::InvalidDigit));
    assert_eq!(parse_u64("18446744073709551616"), Err(ParseError::Overflow));
}

#[test]
fn parse_u64_agrees_with_std() {
    for text in ["", "+", "0", "12", "+12", "-3", "99999999999999999999", "1a", "\u{663}"] {
        let ours = parse_u64(text).ok();
        let theirs = text.parse::<u64>().ok();
        assert_eq!(ours, theirs, "{text:?}");
    }
}

#[test]
fn format_u64_writes_decimal() {
    assert_eq!(format_u64(0), "0");
    assert_eq!(format_u64(9), "9");
    assert_eq!(format_u64(10), "10");
    assert_eq!(format_u64(1234567890), "1234567890");
    assert_eq!(format_u64(u64::MAX), u64::MAX.to_string());
}

#[test]
fn format_then_parse_gives_the_number_back() {
    for n in [0u64, 1, 10, 255, 1000, 65535, 4294967296, u64::MAX] {
        assert_eq!(parse_u64(&format_u64(n)), Ok(n));
    }
}

#[test]
fn smoothing_fractions_and_labels() {
    let all = Smoothing::all();
    let fractions: Vec<Option<u8>> = all.iter().map(|s| s.fraction()).collect();
    assert_eq!(
        fractions,
        vec![None, Some(1), Some(2), Some(3), Some(6), Some(12), Some(24), Some(48)]
    );
    assert_eq!(Smoothing::NoSmoothing.to_string(), "No smoothing");
    assert_eq!(Smoothing::OneThird.to_string(), "1/3 smoothing");
    assert_eq!(Smoothing::OneFourtyEighth.to_string(), "1/48 smoothing");
    assert_eq!(Smoothing::default(), Smoothing::NoSmoothing);
}

#[test]
fn smoothing_type_fractions_and_labels() {
    let fractions: Vec<usize> = SmoothingType::all().iter().map(|s| usize::from(*s)).collect();
    assert_eq!(fractions, vec![3, 6, 12, 24, 48]);
    assert_eq!(SmoothingType::ThirdOctave.to_string(), "1/3 Octave");
    assert_eq!(SmoothingType::FourtyEighth.to_string(), "1/48 Octave");
}

#[test]
fn unit_labels_and_defaults() {
    assert_eq!(TimeSeriesUnit::Time.to_string(), "Time");
    assert_eq!(TimeSeriesUnit::Samples.to_string(), "Samples");
    assert_eq!(FrequencyResponseUnit::Frequency.to_string(), "Hz");
    assert_eq!(FrequencyResponseUnit::Bins.to_string(), "FFT Bins");
    assert_eq!(AmplitudeUnit::PercentFullScale.to_string(), "%FS");
    assert_eq!(AmplitudeUnit::DezibelFullScale.to_string(), "dbFS");
    assert_eq!(AmplitudeUnit::default(), AmplitudeUnit::PercentFullScale);
    assert_eq!(Scale::default(), Scale::Linear);
    assert_eq!(TimeSeriesUnit::all().len(), 2);
    assert_eq!(FrequencyResponseUnit::all().len(), 2);
    assert_eq!(AmplitudeUnit::all().len(), 2);
}

#[test]
fn offset_shifts_and_saturates() {
    let zero = Offset::default();
    assert_eq!(isize::from(zero), 0);
    assert_eq!(isize::from(zero.saturating_add(5)), 5);
    assert_eq!(isize::from(zero.saturating_sub(5)), -5);
    let top = zero.saturating_add(isize::MAX);
    assert_eq!(isize::from(top.saturating_add(1)), isize::MAX);
    assert_eq!(isize::from(top.saturating_sub(-1)), isize::MAX);
    let bottom = zero.saturating_add(isize::MIN);
    assert_eq!(isize::from(bottom.saturating_sub(1)), isize::MIN);
    assert_eq!(isize::from(bottom.saturating_add(-1)), isize::MIN);
}

#[test]
fn offset_shift_back_restores_it() {
    let start = Offset::default().saturating_add(-40);
    assert_eq!(start.saturating_add(17).saturating_sub(17), start);
}

#[test]
fn identifiers_and_kinds_as_text() {
    assert_eq!(Id(0).to_string(), "0");
    assert_eq!(Id(307).to_string(), "307");
    assert_eq!(Kind::Loopback.to_string(), "Loopback");
    assert_eq!(Kind::Normal.to_string(), "Measurement");
}

#[test]
fn signals_are_named_after_their_file() {
    assert_eq!(name_from_path("/rec/room/loopback.wav"), "loopback.wav");
    assert_eq!(name_from_path("take 2.wav"), "take 2.wav");
    assert_eq!(name_from_path("/"), "Unknown");
    assert_eq!(name_from_path(""), "Unknown");
}
