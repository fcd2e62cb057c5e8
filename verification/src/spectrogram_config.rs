//! The dialog in which the spectrogram's window is configured: three
//! durations, shown and edited as whole milliseconds.
use vstd::prelude::*;

use crate::decimal::{decimal, format_u128, parse_u64, parse_u64_spec, lemma_parse_decimal, ParseError};
use crate::duration::{TimeSpan, span_ms};

verus! {

/// How a spectrogram is computed around the peak of an impulse response.
#[derive(Debug, Clone, Copy, PartialEq, Eq, Structural)]
pub struct Config {
    pub window_width: TimeSpan,
    pub span_before_peak: TimeSpan,
    pub span_after_peak: TimeSpan,
}

impl Default for Config {
    fn default() -> (r: Config)
        ensures
            r == default_config(),
    {
        Config {
            window_width: TimeSpan::from_millis(100),
            span_before_peak: TimeSpan::from_millis(50),
            span_after_peak: TimeSpan::from_millis(500),
        }
    }
}

pub open spec fn default_config() -> Config {
    Config { window_width: span_ms(100), span_before_peak: span_ms(50), span_after_peak: span_ms(500) }
}

/// `config` with each duration cut to whole milliseconds.
pub open spec fn whole_millis(config: Config) -> Config {
    Config {
        window_width: span_ms(config.window_width.millis() as u64),
        span_before_peak: span_ms(config.span_before_peak.millis() as u64),
        span_after_peak: span_ms(config.span_after_peak.millis() as u64),
    }
}

/// Each duration of `config` is at most `u64::MAX` milliseconds, as the
/// fields can read back.
pub open spec fn fits_fields(config: Config) -> bool {
    &&& config.window_width.millis() <= u64::MAX
    &&& config.span_before_peak.millis() <= u64::MAX
    &&& config.span_after_peak.millis() <= u64::MAX
}

/// What the user asks of the dialog.
#[derive(Debug, Clone, PartialEq, Eq)]
pub enum Message {
    Close,
    ResetToDefault,
    ResetToPrevious,
    WindowWidthChanged(String),
    SpanBeforePeakChanged(String),
    SpanAfterPeakChanged(String),
    Apply(Config),
}

/// What the dialog asks of its owner after a message.
#[derive(Debug, Clone, PartialEq, Eq)]
pub enum Action {
    Nothing,
    Close,
    ConfigChanged(Config),
}

/// The dialog's state: the text of each field, and the configuration it
/// was opened with.
#[derive(Debug, Clone)]
pub struct SpectrogramConfig {
    window_width: String,
    span_before_peak: String,
    span_after_peak: String,
    prev_config: Config,
}

/// The configuration that three field texts spell, when each one is a whole
/// number of milliseconds.
pub open spec fn parsed_config(
    window_width: Seq<char>,
    span_before_peak: Seq<char>,
    span_after_peak: Seq<char>,
) -> Option<Config> {
    match (
        parse_u64_spec(window_width),
        parse_u64_spec(span_before_peak),
        parse_u64_spec(span_after_peak),
    ) {
        (Ok(w), Ok(b), Ok(a)) => Some(
            Config { window_width: span_ms(w), span_before_peak: span_ms(b), span_after_peak: span_ms(a) },
        ),
        _ => None,
    }
}

/// What one message does to the dialog, and what it asks of its owner.
pub open spec fn update_post(old: SpectrogramConfig, new: SpectrogramConfig, message: Message, r: Action) -> bool {
    match message {
        Message::Close => {
            &&& r == Action::Close
            &&& new == old
        },
        Message::Apply(c) => {
            &&& r == Action::ConfigChanged(c)
            &&& new == old
        },
        Message::WindowWidthChanged(t) => {
            &&& r == Action::Nothing
            &&& new.window_width_text() == t@
            &&& new.span_before_peak_text() == old.span_before_peak_text()
            &&& new.span_after_peak_text() == old.span_after_peak_text()
        },
        Message::SpanBeforePeakChanged(t) => {
            &&& r == Action::Nothing
            &&& new.window_width_text() == old.window_width_text()
            &&& new.span_before_peak_text() == t@
            &&& new.span_after_peak_text() == old.span_after_peak_text()
        },
        Message::SpanAfterPeakChanged(t) => {
            &&& r == Action::Nothing
            &&& new.window_width_text() == old.window_width_text()
            &&& new.span_before_peak_text() == old.span_before_peak_text()
            &&& new.span_after_peak_text() == t@
        },
        Message::ResetToDefault => {
            &&& r == Action::Nothing
            &&& new.shows(default_config())
        },
        Message::ResetToPrevious => {
            &&& r == Action::Nothing
            &&& new.shows(old.previous())
        },
    }
}

impl SpectrogramConfig {
    pub closed spec fn window_width_text(&self) -> Seq<char> {
        self.window_width@
    }

    pub closed spec fn span_before_peak_text(&self) -> Seq<char> {
        self.span_before_peak@
    }

    pub closed spec fn span_after_peak_text(&self) -> Seq<char> {
        self.span_after_peak@
    }

    pub closed spec fn previous(&self) -> Config {
        self.prev_config
    }

    /// The fields show the durations of `config` in whole milliseconds, in
    /// decimal.
    pub open spec fn shows(&self, config: Config) -> bool {
        &&& self.window_width_text() == decimal(config.window_width.millis())
        &&& self.span_before_peak_text() == decimal(config.span_before_peak.millis())
        &&& self.span_after_peak_text() == decimal(config.span_after_peak.millis())
    }

    /// What the fields offer to apply: the configuration they spell, unless
    /// a field is not a number or nothing changed.
    pub open spec fn offered(&self) -> Option<Config> {
        match parsed_config(
            self.window_width_text(),
            self.span_before_peak_text(),
            self.span_after_peak_text(),
        ) {
            Some(c) => if c != self.previous() {
                Some(c)
            } else {
                None
            },
            None => None,
        }
    }

    /// Opens the dialog on `config`.
    pub fn new(config: Config) -> (r: Self)
        ensures
            r.shows(config),
            r.previous() == config,
    {
        SpectrogramConfig {
            window_width: format_u128(config.window_width.as_millis()),
            span_before_peak: format_u128(config.span_before_peak.as_millis()),
            span_after_peak: format_u128(config.span_after_peak.as_millis()),
            prev_config: config,
        }
    }

    /// Handles one message.
    pub fn update(&mut self, message: Message) -> (r: Action)
        ensures
            final(self).previous() == old(self).previous(),
            update_post(*old(self), *final(self), message, r),
    {
        match message {
            Message::Close => Action::Close,
            Message::WindowWidthChanged(width) => {
                self.window_width = width;
                Action::Nothing
            },
            Message::SpanBeforePeakChanged(span) => {
                self.span_before_peak = span;
                Action::Nothing
            },
            Message::SpanAfterPeakChanged(span) => {
                self.span_after_peak = span;
                Action::Nothing
            },
            Message::Apply(preferences) => Action::ConfigChanged(preferences),
            Message::ResetToDefault => {
                self.reset_to_default();
                Action::Nothing
            },
            Message::ResetToPrevious => {
                let prev = self.prev_config;
                self.reset_to_config(prev);
                Action::Nothing
            },
        }
    }

    /// The configuration the Apply button offers, or `None` where it is
    /// disabled: a field is not a number, or the numbers are those the
    /// dialog was opened with.
    pub fn edited_config(&self) -> (r: Option<Config>)
        ensures
            r == self.offered(),
    {
        let window_width = parse_u64(self.window_width.as_str());
        let span_before_peak = parse_u64(self.span_before_peak.as_str());
        let span_after_peak = parse_u64(self.span_after_peak.as_str());
        match (window_width, span_before_peak, span_after_peak) {
            (Ok(w), Ok(b), Ok(a)) => {
                let new_config = Config {
                    window_width: TimeSpan::from_millis(w),
                    span_before_peak: TimeSpan::from_millis(b),
                    span_after_peak: TimeSpan::from_millis(a),
                };
                if new_config != self.prev_config {
                    Some(new_config)
                } else {
                    None
                }
            },
            _ => None,
        }
    }

    /// Whether each field reads as a number, for marking the fields in error.
    pub fn field_errors(&self) -> (r: (Option<ParseError>, Option<ParseError>, Option<ParseError>))
        ensures
            r.0 == parse_u64_spec(self.window_width_text()).err(),
            r.1 == parse_u64_spec(self.span_before_peak_text()).err(),
            r.2 == parse_u64_spec(self.span_after_peak_text()).err(),
    {
        (
            parse_u64(self.window_width.as_str()).err(),
            parse_u64(self.span_before_peak.as_str()).err(),
            parse_u64(self.span_after_peak.as_str()).err(),
        )
    }

    /// Shows the default configuration in the fields.
    pub fn reset_to_default(&mut self)
        ensures
            final(self).shows(default_config()),
            final(self).previous() == old(self).previous(),
    {
        self.reset_to_config(Config::default());
    }

    /// Shows `config` in the fields.
    pub fn reset_to_config(&mut self, config: Config)
        ensures
            final(self).shows(config),
            final(self).previous() == old(self).previous(),
    {
        self.window_width = format_u128(config.window_width.as_millis());
        self.span_before_peak = format_u128(config.span_before_peak.as_millis());
        self.span_after_peak = format_u128(config.span_after_peak.as_millis());
    }
}

/// Fields that show a configuration spell it again, cut to whole
/// milliseconds.
pub proof fn lemma_shown_config_reads_back(dialog: SpectrogramConfig, config: Config)
    requires
        dialog.shows(config),
        fits_fields(config),
    ensures
        parsed_config(
            dialog.window_width_text(),
            dialog.span_before_peak_text(),
            dialog.span_after_peak_text(),
        ) == Some(whole_millis(config)),
{
    lemma_parse_decimal(config.window_width.millis() as u64);
    lemma_parse_decimal(config.span_before_peak.millis() as u64);
    lemma_parse_decimal(config.span_after_peak.millis() as u64);
}

/// A dialog just opened on a configuration offers nothing to apply, and so
/// does one whose fields were reset to that configuration, where it is whole
/// milliseconds; otherwise it offers the configuration cut to whole
/// milliseconds.
pub proof fn law_unchanged_dialog_offers_nothing(dialog: SpectrogramConfig)
    requires
        dialog.shows(dialog.previous()),
        fits_fields(dialog.previous()),
    ensures
        whole_millis(dialog.previous()) == dialog.previous() ==> dialog.offered() == None::<Config>,
        whole_millis(dialog.previous()) != dialog.previous() ==> dialog.offered() == Some(
            whole_millis(dialog.previous()),
        ),
{
    lemma_shown_config_reads_back(dialog, dialog.previous());
}

/// Resetting to the defaults offers the defaults to apply, unless the dialog
/// was opened on them.
pub proof fn law_reset_to_default_offers_default(dialog: SpectrogramConfig)
    requires
        dialog.shows(default_config()),
    ensures
        dialog.previous() != default_config() ==> dialog.offered() == Some(default_config()),
        dialog.previous() == default_config() ==> dialog.offered() == None::<Config>,
{
    lemma_shown_config_reads_back(dialog, default_config());
    assert(whole_millis(default_config()) == default_config());
}

} // verus!
