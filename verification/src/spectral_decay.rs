//! The spectral decay of a measurement, computed from its impulse response.
use vstd::prelude::*;

use crate::analysis::Computation;

verus! {

/// What the user is told about a spectral decay.
#[derive(Debug, Clone, Copy, PartialEq, Eq, Structural)]
pub enum Progress {
    Idle,
    WaitingForImpulseResponse,
    Computing,
    Finished,
}

/// A spectral decay whose data is a `T`.
#[derive(Debug, Clone)]
pub struct SpectralDecay<T>(pub Computation<T>);

pub open spec fn progress_of<T>(c: Computation<T>) -> Progress {
    match c {
        Computation::Idle => Progress::Idle,
        Computation::WaitingForImpulseResponse => Progress::WaitingForImpulseResponse,
        Computation::Computing => Progress::Computing,
        Computation::Computed(_) => Progress::Finished,
    }
}

impl<T> SpectralDecay<T> {
    pub fn result(&self) -> (r: Option<&T>)
        ensures
            match self.0 {
                Computation::Computed(t) => r == Some(&t),
                _ => r is None,
            },
    {
        self.0.result()
    }

    pub fn progress(&self) -> (r: Progress)
        ensures
            r == progress_of(self.0),
    {
        match self.0 {
            Computation::Idle => Progress::Idle,
            Computation::WaitingForImpulseResponse => Progress::WaitingForImpulseResponse,
            Computation::Computing => Progress::Computing,
            Computation::Computed(_) => Progress::Finished,
        }
    }

    /// Asks for the spectral decay; returns the impulse response to compute it
    /// from where a computation is to start (see `Computation::compute`).
    pub fn compute<'a, I>(&mut self, impulse_response: Option<&'a I>) -> (r: Option<&'a I>)
        ensures
            old(self).0 is Computed ==> r is None && final(self).0 == old(self).0,
            !(old(self).0 is Computed) ==> match impulse_response {
                Some(ir) => r == Some(ir) && final(self).0 is Computing,
                None => r is None && final(self).0 is WaitingForImpulseResponse,
            },
    {
        self.0.compute(impulse_response)
    }

    pub fn set_result(&mut self, spectral_decay: T)
        ensures
            final(self).0 == Computation::Computed(spectral_decay),
    {
        self.0.set_result(spectral_decay)
    }

    pub fn reset(&mut self)
        ensures
            final(self).0 == Computation::<T>::Idle,
    {
        self.0.reset()
    }
}

impl<T> Default for SpectralDecay<T> {
    fn default() -> (r: Self)
        ensures
            r.0 is Idle,
    {
        SpectralDecay(Computation::Idle)
    }
}

} // verus!
