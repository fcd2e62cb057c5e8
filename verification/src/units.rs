//! The choices a chart offers: smoothing, units and scales, and the shift
//! of its visible window.
use vstd::prelude::*;
use vstd::std_specs::convert::FromSpecImpl;

verus! {

/// Fractional-octave smoothing of a frequency response.
#[derive(Debug, Clone, Copy, PartialEq, Eq, Structural)]
pub enum Smoothing {
    NoSmoothing,
    OneOne,
    OneSecond,
    OneThird,
    OneSixth,
    OneTwelfth,
    OneTwentyFourth,
    OneFourtyEighth,
}

pub open spec fn smoothing_fraction(s: Smoothing) -> Option<u8> {
    match s {
        Smoothing::NoSmoothing => None,
        Smoothing::OneOne => Some(1),
        Smoothing::OneSecond => Some(2),
        Smoothing::OneThird => Some(3),
        Smoothing::OneSixth => Some(6),
        Smoothing::OneTwelfth => Some(12),
        Smoothing::OneTwentyFourth => Some(24),
        Smoothing::OneFourtyEighth => Some(48),
    }
}

pub open spec fn smoothing_label(s: Smoothing) -> Seq<char> {
    match s {
        Smoothing::NoSmoothing => "No smoothing"@,
        Smoothing::OneOne => "1/1 smoothing"@,
        Smoothing::OneSecond => "1/2 smoothing"@,
        Smoothing::OneThird => "1/3 smoothing"@,
        Smoothing::OneSixth => "1/6 smoothing"@,
        Smoothing::OneTwelfth => "1/12 smoothing"@,
        Smoothing::OneTwentyFourth => "1/24 smoothing"@,
        Smoothing::OneFourtyEighth => "1/48 smoothing"@,
    }
}

impl Smoothing {
    /// Every smoothing, in the order a picker lists them.
    pub fn all() -> (r: [Smoothing; 8])
        ensures
            r@ == seq![
                Smoothing::NoSmoothing,
                Smoothing::OneOne,
                Smoothing::OneSecond,
                Smoothing::OneThird,
                Smoothing::OneSixth,
                Smoothing::OneTwelfth,
                Smoothing::OneTwentyFourth,
                Smoothing::OneFourtyEighth,
            ],
    {
        [
            Smoothing::NoSmoothing,
            Smoothing::OneOne,
            Smoothing::OneSecond,
            Smoothing::OneThird,
            Smoothing::OneSixth,
            Smoothing::OneTwelfth,
            Smoothing::OneTwentyFourth,
            Smoothing::OneFourtyEighth,
        ]
    }

    /// The `n` of "1/n octave", or `None` for no smoothing.
    pub fn fraction(&self) -> (r: Option<u8>)
        ensures
            r == smoothing_fraction(*self),
    {
        match self {
            Smoothing::NoSmoothing => None,
            Smoothing::OneOne => Some(1),
            Smoothing::OneSecond => Some(2),
            Smoothing::OneThird => Some(3),
            Smoothing::OneSixth => Some(6),
            Smoothing::OneTwelfth => Some(12),
            Smoothing::OneTwentyFourth => Some(24),
            Smoothing::OneFourtyEighth => Some(48),
        }
    }

    /// The text a picker shows for this smoothing.
    pub fn to_string(&self) -> (r: String)
        ensures
            r@ == smoothing_label(*self),
    {
        match self {
            Smoothing::NoSmoothing => "No smoothing".to_owned(),
            Smoothing::OneOne => "1/1 smoothing".to_owned(),
            Smoothing::OneSecond => "1/2 smoothing".to_owned(),
            Smoothing::OneThird => "1/3 smoothing".to_owned(),
            Smoothing::OneSixth => "1/6 smoothing".to_owned(),
            Smoothing::OneTwelfth => "1/12 smoothing".to_owned(),
            Smoothing::OneTwentyFourth => "1/24 smoothing".to_owned(),
            Smoothing::OneFourtyEighth => "1/48 smoothing".to_owned(),
        }
    }
}

impl Default for Smoothing {
    fn default() -> (r: Smoothing)
        ensures
            r == Smoothing::NoSmoothing,
    {
        Smoothing::NoSmoothing
    }
}

/// Smoothing choices of the older frequency-response chart.
#[derive(Debug, Clone, Copy, PartialEq, Eq, Structural)]
pub enum SmoothingType {
    ThirdOctave,
    SixthOctave,
    TwelfthOctave,
    TwentyFourth,
    FourtyEighth,
}

pub open spec fn smoothing_type_fraction(s: SmoothingType) -> usize {
    match s {
        SmoothingType::ThirdOctave => 3,
        SmoothingType::SixthOctave => 6,
        SmoothingType::TwelfthOctave => 12,
        SmoothingType::TwentyFourth => 24,
        SmoothingType::FourtyEighth => 48,
    }
}

pub open spec fn smoothing_type_label(s: SmoothingType) -> Seq<char> {
    match s {
        SmoothingType::ThirdOctave => "1/3 Octave"@,
        SmoothingType::SixthOctave => "1/6 Octave"@,
        SmoothingType::TwelfthOctave => "1/12 Octave"@,
        SmoothingType::TwentyFourth => "1/24 Octave"@,
        SmoothingType::FourtyEighth => "1/48 Octave"@,
    }
}

impl SmoothingType {
    /// Every smoothing type, in the order a picker lists them.
    pub fn all() -> (r: [SmoothingType; 5])
        ensures
            r@ == seq![
                SmoothingType::ThirdOctave,
                SmoothingType::SixthOctave,
                SmoothingType::TwelfthOctave,
                SmoothingType::TwentyFourth,
                SmoothingType::FourtyEighth,
            ],
    {
        [
            SmoothingType::ThirdOctave,
            SmoothingType::SixthOctave,
            SmoothingType::TwelfthOctave,
            SmoothingType::TwentyFourth,
            SmoothingType::FourtyEighth,
        ]
    }

    /// The text a picker shows for this smoothing type.
    pub fn to_string(&self) -> (r: String)
        ensures
            r@ == smoothing_type_label(*self),
    {
        match self {
            SmoothingType::ThirdOctave => "1/3 Octave".to_owned(),
            SmoothingType::SixthOctave => "1/6 Octave".to_owned(),
            SmoothingType::TwelfthOctave => "1/12 Octave".to_owned(),
            SmoothingType::TwentyFourth => "1/24 Octave".to_owned(),
            SmoothingType::FourtyEighth => "1/48 Octave".to_owned(),
        }
    }
}

impl From<SmoothingType> for usize {
    /// The `n` of "1/n octave".
    fn from(value: SmoothingType) -> (r: usize) {
        match value {
            SmoothingType::ThirdOctave => 3,
            SmoothingType::SixthOctave => 6,
            SmoothingType::TwelfthOctave => 12,
            SmoothingType::TwentyFourth => 24,
            SmoothingType::FourtyEighth => 48,
        }
    }
}

impl FromSpecImpl<SmoothingType> for usize {
    open spec fn obeys_from_spec() -> bool {
        true
    }

    open spec fn from_spec(v: SmoothingType) -> usize {
        smoothing_type_fraction(v)
    }
}

/// How the time axis of a chart is labelled.
#[derive(Debug, Clone, Copy, PartialEq, Eq, Structural)]
pub enum TimeSeriesUnit {
    Time,
    Samples,
}

pub open spec fn time_series_unit_label(u: TimeSeriesUnit) -> Seq<char> {
    match u {
        TimeSeriesUnit::Samples => "Samples"@,
        TimeSeriesUnit::Time => "Time"@,
    }
}

impl TimeSeriesUnit {
    /// Both units, in the order a picker lists them.
    pub fn all() -> (r: [TimeSeriesUnit; 2])
        ensures
            r@ == seq![TimeSeriesUnit::Samples, TimeSeriesUnit::Time],
    {
        [TimeSeriesUnit::Samples, TimeSeriesUnit::Time]
    }

    /// The text a picker shows for this unit.
    pub fn to_string(&self) -> (r: String)
        ensures
            r@ == time_series_unit_label(*self),
    {
        match self {
            TimeSeriesUnit::Samples => "Samples".to_owned(),
            TimeSeriesUnit::Time => "Time".to_owned(),
        }
    }
}

impl Default for TimeSeriesUnit {
    fn default() -> (r: TimeSeriesUnit)
        ensures
            r == TimeSeriesUnit::Time,
    {
        TimeSeriesUnit::Time
    }
}

/// How the frequency axis of a chart is labelled.
#[derive(Debug, Clone, Copy, PartialEq, Eq, Structural)]
pub enum FrequencyResponseUnit {
    Frequency,
    Bins,
}

pub open spec fn frequency_response_unit_label(u: FrequencyResponseUnit) -> Seq<char> {
    match u {
        FrequencyResponseUnit::Frequency => "Hz"@,
        FrequencyResponseUnit::Bins => "FFT Bins"@,
    }
}

impl FrequencyResponseUnit {
    /// Both units, in the order a picker lists them.
    pub fn all() -> (r: [FrequencyResponseUnit; 2])
        ensures
            r@ == seq![FrequencyResponseUnit::Bins, FrequencyResponseUnit::Frequency],
    {
        [FrequencyResponseUnit::Bins, FrequencyResponseUnit::Frequency]
    }

    /// The text a picker shows for this unit.
    pub fn to_string(&self) -> (r: String)
        ensures
            r@ == frequency_response_unit_label(*self),
    {
        match self {
            FrequencyResponseUnit::Frequency => "Hz".to_owned(),
            FrequencyResponseUnit::Bins => "FFT Bins".to_owned(),
        }
    }
}

impl Default for FrequencyResponseUnit {
    fn default() -> (r: FrequencyResponseUnit)
        ensures
            r == FrequencyResponseUnit::Frequency,
    {
        FrequencyResponseUnit::Frequency
    }
}

/// How amplitudes are shown: percent of full scale, or decibel full scale.
#[derive(Debug, Clone, Copy, PartialEq, Eq, Structural)]
pub enum AmplitudeUnit {
    PercentFullScale,
    DezibelFullScale,
}

pub open spec fn amplitude_unit_label(u: AmplitudeUnit) -> Seq<char> {
    match u {
        AmplitudeUnit::PercentFullScale => "%FS"@,
        AmplitudeUnit::DezibelFullScale => "dbFS"@,
    }
}

impl AmplitudeUnit {
    /// Both units, in the order a picker lists them.
    pub fn all() -> (r: [AmplitudeUnit; 2])
        ensures
            r@ == seq![AmplitudeUnit::PercentFullScale, AmplitudeUnit::DezibelFullScale],
    {
        [AmplitudeUnit::PercentFullScale, AmplitudeUnit::DezibelFullScale]
    }

    /// The text a picker shows for this unit.
    pub fn to_string(&self) -> (r: String)
        ensures
            r@ == amplitude_unit_label(*self),
    {
        match self {
            AmplitudeUnit::PercentFullScale => "%FS".to_owned(),
            AmplitudeUnit::DezibelFullScale => "dbFS".to_owned(),
        }
    }
}

impl Default for AmplitudeUnit {
    fn default() -> (r: AmplitudeUnit)
        ensures
            r == AmplitudeUnit::PercentFullScale,
    {
        AmplitudeUnit::PercentFullScale
    }
}

/// Whether an axis is drawn linearly or logarithmically.
#[derive(Debug, Clone, Copy, PartialEq, Eq, Structural)]
pub enum Scale {
    Linear,
    Log,
}

impl Default for Scale {
    fn default() -> (r: Scale)
        ensures
            r == Scale::Linear,
    {
        Scale::Linear
    }
}

/// How far, in samples, a chart's visible window is shifted.
#[derive(Debug, Clone, Copy, PartialEq, Eq, Structural)]
pub struct Offset(isize);

pub open spec fn saturate_isize(v: int) -> isize {
    if v > isize::MAX {
        isize::MAX
    } else if v < isize::MIN {
        isize::MIN
    } else {
        v as isize
    }
}

impl Offset {
    pub closed spec fn value(self) -> isize {
        self.0
    }

    /// Shifts by `rhs`, stopping at the bounds of `isize`.
    pub fn saturating_add(&self, rhs: isize) -> (r: Offset)
        ensures
            r.value() == saturate_isize(self.value() + rhs),
    {
        if rhs > 0 && self.0 > isize::MAX - rhs {
            Offset(isize::MAX)
        } else if rhs < 0 && self.0 < isize::MIN - rhs {
            Offset(isize::MIN)
        } else {
            Offset(self.0 + rhs)
        }
    }

    /// Shifts back by `rhs`, stopping at the bounds of `isize`.
    pub fn saturating_sub(&self, rhs: isize) -> (r: Offset)
        ensures
            r.value() == saturate_isize(self.value() - rhs),
    {
        if rhs < 0 && self.0 > isize::MAX + rhs {
            Offset(isize::MAX)
        } else if rhs > 0 && self.0 < isize::MIN + rhs {
            Offset(isize::MIN)
        } else {
            Offset(self.0 - rhs)
        }
    }
}

impl Default for Offset {
    fn default() -> (r: Offset)
        ensures
            r.value() == 0,
    {
        Offset(0)
    }
}

impl From<Offset> for isize {
    fn from(value: Offset) -> (r: isize) {
        value.0
    }
}

impl FromSpecImpl<Offset> for isize {
    open spec fn obeys_from_spec() -> bool {
        true
    }

    open spec fn from_spec(v: Offset) -> isize {
        v.value()
    }
}

/// Shifting an offset by `d` and back gives the offset again, where the
/// first shift stays within the bounds of `isize`.
pub proof fn law_shift_back(o: Offset, d: isize)
    requires
        isize::MIN <= o.value() + d <= isize::MAX,
    ensures
        saturate_isize(saturate_isize(o.value() + d) - d) == o.value(),
{
}

} // verus!
