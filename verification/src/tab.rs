//! The tabs of the main screen.
use vstd::prelude::*;

verus! {

/// Names a tab.
#[derive(Debug, Clone, Copy, PartialEq, Eq, Structural)]
pub enum Id {
    Measurements,
    ImpulseResponses,
    FrequencyResponses,
    SpectralDecays,
    Spectrograms,
}

/// The open tab; the impulse-response tab holds the window being edited
/// there (`W`), which applies only once the user confirms it.
#[derive(Debug, Clone)]
pub enum Tab<W> {
    Measurements,
    ImpulseResponses { pending_window: W },
    FrequencyResponses,
    SpectralDecays,
    Spectrograms,
}

impl<W> Tab<W> {
    /// Which tab this is.
    pub fn id(&self) -> (r: Id)
        ensures
            r == tab_id(*self),
    {
        match self {
            Tab::Measurements => Id::Measurements,
            Tab::ImpulseResponses { .. } => Id::ImpulseResponses,
            Tab::FrequencyResponses => Id::FrequencyResponses,
            Tab::SpectralDecays => Id::SpectralDecays,
            Tab::Spectrograms => Id::Spectrograms,
        }
    }
}

pub open spec fn tab_id<W>(t: Tab<W>) -> Id {
    match t {
        Tab::Measurements => Id::Measurements,
        Tab::ImpulseResponses { .. } => Id::ImpulseResponses,
        Tab::FrequencyResponses => Id::FrequencyResponses,
        Tab::SpectralDecays => Id::SpectralDecays,
        Tab::Spectrograms => Id::Spectrograms,
    }
}

impl<W> Default for Tab<W> {
    fn default() -> (r: Self)
        ensures
            r is Measurements,
    {
        Tab::Measurements
    }
}

} // verus!
