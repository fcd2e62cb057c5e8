//! The dialog in which the spectral decay is configured: three durations,
//! shown and edited as whole milliseconds.
use vstd::prelude::*;

use crate::decimal::{decimal, format_u128, lemma_parse_decimal, parse_u64, parse_u64_spec};
use crate::duration::{TimeSpan, span_ms};

verus! {

/// How a spectral decay is computed.
#[derive(Debug, Clone, Copy, PartialEq, Eq, Structural)]
pub struct Preferences {
    pub shift: TimeSpan,
    pub left_window_width: TimeSpan,
    pub right_window_width: TimeSpan,
    pub smoothing_fraction: u8,
}

/// What the user asks of the dialog.
#[derive(Debug, Clone)]
pub enum Message {
    Apply(Preferences),
    Discard,
    ShiftChanged(String),
    LeftWidthChanged(String),
    RightWidthChanged(String),
}

/// What the dialog asks of its owner.
#[derive(Debug, Clone, Copy, PartialEq, Eq, Structural)]
pub enum Action {
    Apply(Preferences),
    Discard,
}

/// The text of each field of the dialog.
#[derive(Debug)]
pub struct Config {
    shift: String,
    left_window_width: String,
    right_window_width: String,
}

/// What one message does to the dialog, and what it asks of its owner.
pub open spec fn update_post(old: Config, new: Config, message: Message, r: Option<Action>) -> bool {
    match message {
        Message::Apply(p) => r == Some(Action::Apply(p)) && new == old,
        Message::Discard => r == Some(Action::Discard) && new == old,
        Message::ShiftChanged(t) => {
            &&& r is None
            &&& new.shift_text() == t@
            &&& new.left_window_width_text() == old.left_window_width_text()
            &&& new.right_window_width_text() == old.right_window_width_text()
        },
        Message::LeftWidthChanged(t) => {
            &&& r is None
            &&& new.shift_text() == old.shift_text()
            &&& new.left_window_width_text() == t@
            &&& new.right_window_width_text() == old.right_window_width_text()
        },
        Message::RightWidthChanged(t) => {
            &&& r is None
            &&& new.shift_text() == old.shift_text()
            &&& new.left_window_width_text() == old.left_window_width_text()
            &&& new.right_window_width_text() == t@
        },
    }
}

impl Config {
    pub closed spec fn shift_text(&self) -> Seq<char> {
        self.shift@
    }

    pub closed spec fn left_window_width_text(&self) -> Seq<char> {
        self.left_window_width@
    }

    pub closed spec fn right_window_width_text(&self) -> Seq<char> {
        self.right_window_width@
    }

    /// What the Apply button offers: the durations the fields spell, with
    /// 1/24-octave smoothing, unless a field is not a number of milliseconds.
    pub open spec fn offered(&self) -> Option<Preferences> {
        match (
            parse_u64_spec(self.shift_text()),
            parse_u64_spec(self.left_window_width_text()),
            parse_u64_spec(self.right_window_width_text()),
        ) {
            (Ok(shift_ms), Ok(left_ms), Ok(right_ms)) => Some(
                Preferences {
                    shift: span_ms(shift_ms),
                    left_window_width: span_ms(left_ms),
                    right_window_width: span_ms(right_ms),
                    smoothing_fraction: 24,
                },
            ),
            _ => None,
        }
    }

    /// The configuration the Apply button offers, or `None` where it is
    /// disabled (see `offered`).
    pub fn edited_preferences(&self) -> (r: Option<Preferences>)
        ensures
            r == self.offered(),
    {
        let shift = parse_u64(self.shift.as_str());
        let left = parse_u64(self.left_window_width.as_str());
        let right = parse_u64(self.right_window_width.as_str());
        match (shift, left, right) {
            (Ok(shift_ms), Ok(left_ms), Ok(right_ms)) => Some(
                Preferences {
                    shift: TimeSpan::from_millis(shift_ms),
                    left_window_width: TimeSpan::from_millis(left_ms),
                    right_window_width: TimeSpan::from_millis(right_ms),
                    smoothing_fraction: 24,
                },
            ),
            _ => None,
        }
    }

    /// Opens the dialog on `config`: each field shows its duration in whole
    /// milliseconds, in decimal.
    pub fn new(config: &Preferences) -> (r: Self)
        ensures
            r.shift_text() == decimal(config.shift.millis()),
            r.left_window_width_text() == decimal(config.left_window_width.millis()),
            r.right_window_width_text() == decimal(config.right_window_width.millis()),
    {
        Config {
            shift: format_u128(config.shift.as_millis()),
            left_window_width: format_u128(config.left_window_width.as_millis()),
            right_window_width: format_u128(config.right_window_width.as_millis()),
        }
    }

    /// Handles one message: an edit changes its field and asks nothing; Apply
    /// and Discard change nothing and are handed to the owner.
    pub fn update(&mut self, message: Message) -> (r: Option<Action>)
        ensures
            update_post(*old(self), *final(self), message, r),
    {
        match message {
            Message::Apply(config) => Some(Action::Apply(config)),
            Message::Discard => Some(Action::Discard),
            Message::ShiftChanged(shift) => {
                self.shift = shift;
                None
            },
            Message::LeftWidthChanged(left_width) => {
                self.left_window_width = left_width;
                None
            },
            Message::RightWidthChanged(right_width) => {
                self.right_window_width = right_width;
                None
            },
        }
    }
}

/// A dialog opened on a configuration offers that configuration back, cut
/// to whole milliseconds, with the smoothing the dialog always applies.
pub proof fn law_opened_dialog_offers_its_config(dialog: Config, config: Preferences)
    requires
        dialog.shift_text() == decimal(config.shift.millis()),
        dialog.left_window_width_text() == decimal(config.left_window_width.millis()),
        dialog.right_window_width_text() == decimal(config.right_window_width.millis()),
        config.shift.millis() <= u64::MAX,
        config.left_window_width.millis() <= u64::MAX,
        config.right_window_width.millis() <= u64::MAX,
    ensures
        dialog.offered() == Some(
            Preferences {
                shift: span_ms(config.shift.millis() as u64),
                left_window_width: span_ms(config.left_window_width.millis() as u64),
                right_window_width: span_ms(config.right_window_width.millis() as u64),
                smoothing_fraction: 24,
            },
        ),
{
    lemma_parse_decimal(config.shift.millis() as u64);
    lemma_parse_decimal(config.left_window_width.millis() as u64);
    lemma_parse_decimal(config.right_window_width.millis() as u64);
}

} // verus!
