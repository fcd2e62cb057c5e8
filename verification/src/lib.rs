//! Decisions and bookkeeping of a room-acoustics measurement tool: the
//! state of its dialogs, recordings, analyses and charts.
use vstd::prelude::*;

pub mod decimal;
pub mod duration;
pub mod units;
pub mod viewport;
pub mod window_builder;
pub mod spectrogram_config;
pub mod spectral_decay_config;
pub mod save_project;
pub mod project_save;
pub mod recent_projects;
pub mod measurement;
pub mod analysis;
pub mod spectrogram;
pub mod spectral_decay;
pub mod frequency_response;
pub mod recording;
pub mod signal_setup;
pub mod analyses;
pub mod staged_analyses;
pub mod tab;
pub mod modal;
pub mod screen;

verus! {
}
