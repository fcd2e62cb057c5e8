//! The page on which the sweep of a recording is set up: its frequency range
//! and duration, edited as text.
use vstd::prelude::*;

use crate::decimal::{decimal, format_u64};

verus! {

/// The fields of the measurement setup page: the duration in seconds and the
/// frequency range in hertz, as text.
#[derive(Debug, Clone)]
pub struct ConfigFields {
    pub duration: String,
    pub start_frequency: String,
    pub end_frequency: String,
}

impl ConfigFields {
    /// The fields showing a configuration, each number in decimal.
    pub fn new(duration_secs: u64, start_frequency: u64, end_frequency: u64) -> (r: Self)
        ensures
            r.duration@ == decimal(duration_secs as nat),
            r.start_frequency@ == decimal(start_frequency as nat),
            r.end_frequency@ == decimal(end_frequency as nat),
    {
        ConfigFields {
            duration: format_u64(duration_secs),
            start_frequency: format_u64(start_frequency),
            end_frequency: format_u64(end_frequency),
        }
    }
}

/// The sweep's settings being edited: its duration in seconds and its
/// frequency range in hertz, as text.
#[derive(Debug)]
pub struct SignalSetup {
    duration: String,
    start_frequency: String,
    end_frequency: String,
}

/// What the user does on the page; `C` is a checked configuration.
#[derive(Debug, Clone, PartialEq, Eq)]
pub enum Message<C> {
    StartFrequency(String),
    EndFrequency(String),
    Duration(String),
    /// Go on with this configuration.
    Next(C),
}

impl SignalSetup {
    pub closed spec fn duration_text(&self) -> Seq<char> {
        self.duration@
    }

    pub closed spec fn start_frequency_text(&self) -> Seq<char> {
        self.start_frequency@
    }

    pub closed spec fn end_frequency_text(&self) -> Seq<char> {
        self.end_frequency@
    }

    /// The page showing a configuration: `start_frequency` to
    /// `end_frequency` hertz for `duration_secs` seconds.
    pub fn new(start_frequency: u64, end_frequency: u64, duration_secs: u64) -> (r: Self)
        ensures
            r.duration_text() == decimal(duration_secs as nat),
            r.start_frequency_text() == decimal(start_frequency as nat),
            r.end_frequency_text() == decimal(end_frequency as nat),
    {
        SignalSetup {
            duration: format_u64(duration_secs),
            start_frequency: format_u64(start_frequency),
            end_frequency: format_u64(end_frequency),
        }
    }

    /// Handles one message: an edit changes its field; `Next` hands its
    /// configuration on.
    pub fn update<C>(&mut self, message: Message<C>) -> (r: Option<C>)
        ensures
            match message {
                Message::Next(c) => {
                    &&& r == Some(c)
                    &&& final(self).duration_text() == old(self).duration_text()
                    &&& final(self).start_frequency_text() == old(self).start_frequency_text()
                    &&& final(self).end_frequency_text() == old(self).end_frequency_text()
                },
                Message::StartFrequency(t) => {
                    &&& r is None
                    &&& final(self).duration_text() == old(self).duration_text()
                    &&& final(self).start_frequency_text() == t@
                    &&& final(self).end_frequency_text() == old(self).end_frequency_text()
                },
                Message::EndFrequency(t) => {
                    &&& r is None
                    &&& final(self).duration_text() == old(self).duration_text()
                    &&& final(self).start_frequency_text() == old(self).start_frequency_text()
                    &&& final(self).end_frequency_text() == t@
                },
                Message::Duration(t) => {
                    &&& r is None
                    &&& final(self).duration_text() == t@
                    &&& final(self).start_frequency_text() == old(self).start_frequency_text()
                    &&& final(self).end_frequency_text() == old(self).end_frequency_text()
                },
            },
    {
        match message {
            Message::StartFrequency(freq) => {
                self.start_frequency = freq;
                None
            },
            Message::EndFrequency(freq) => {
                self.end_frequency = freq;
                None
            },
            Message::Duration(duration) => {
                self.duration = duration;
                None
            },
            Message::Next(config) => Some(config),
        }
    }
}

} // verus!
