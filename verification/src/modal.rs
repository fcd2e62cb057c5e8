//! The dialog that may cover the main screen.
use vstd::prelude::*;

use crate::save_project;
use crate::spectral_decay_config;
use crate::spectrogram_config::SpectrogramConfig;
use crate::tab;

verus! {

/// The open dialog, if any; `Op` is how imported measurement files are
/// handled when a project is saved.
#[derive(Debug)]
pub enum Modal<Op> {
    Closed,
    /// The window of the impulse-response tab was edited and not applied;
    /// the user wanted to go to `goto_tab`.
    PendingWindow { goto_tab: tab::Id },
    SpectralDecayConfig(spectral_decay_config::Config),
    SpectrogramConfig(SpectrogramConfig),
    SaveProjectDialog(save_project::View<Op>),
}

impl<Op> Default for Modal<Op> {
    fn default() -> (r: Self)
        ensures
            r is Closed,
    {
        Modal::Closed
    }
}

} // verus!
