//! The spectrogram of a measurement, computed from its impulse response.
use vstd::prelude::*;

use crate::analysis::Computation;

verus! {

/// What the user is told about a spectrogram.
#[derive(Debug, Clone, Copy, PartialEq, Eq, Structural)]
pub enum Progress {
    Idle,
    ComputingImpulseResponse,
    Computing,
    Finished,
}

/// A spectrogram whose data is a `T`.
#[derive(Debug, Clone)]
pub struct Spectrogram<T>(pub Computation<T>);

pub open spec fn progress_of<T>(c: Computation<T>) -> Progress {
    match c {
        Computation::Idle => Progress::Idle,
        Computation::WaitingForImpulseResponse => Progress::ComputingImpulseResponse,
        Computation::Computing => Progress::Computing,
        Computation::Computed(_) => Progress::Finished,
    }
}

impl<T> Spectrogram<T> {
    pub fn result(&self) -> (r: Option<&T>)
        ensures
            match self.0 {
                Computation::Computed(t) => r == Some(&t),
                _ => r is None,
            },
    {
        self.0.result()
    }

    pub fn progress(&self) -> (r: Progress)
        ensures
            r == progress_of(self.0),
    {
        match self.0 {
            Computation::Idle => Progress::Idle,
            Computation::WaitingForImpulseResponse => Progress::ComputingImpulseResponse,
            Computation::Computing => Progress::Computing,
            Computation::Computed(_) => Progress::Finished,
        }
    }

    /// Asks for the spectrogram; returns the impulse response to compute it
    /// from where a computation is to start (see `Computation::compute`).
    pub fn compute<'a, I>(&mut self, impulse_response: Option<&'a I>) -> (r: Option<&'a I>)
        ensures
            old(self).0 is Computed ==> r is None && final(self).0 == old(self).0,
            !(old(self).0 is Computed) ==> match impulse_response {
                Some(ir) => r == Some(ir) && final(self).0 is Computing,
                None => r is None && final(self).0 is WaitingForImpulseResponse,
            },
    {
        self.0.compute(impulse_response)
    }

    pub fn set_result(&mut self, spectrogram: T)
        ensures
            final(self).0 == Computation::Computed(spectrogram),
    {
        self.0.set_result(spectrogram)
    }

    pub fn reset(&mut self)
        ensures
            final(self).0 == Computation::<T>::Idle,
    {
        self.0.reset()
    }
}

impl<T> Default for Spectrogram<T> {
    fn default() -> (r: Self)
        ensures
            r.0 is Idle,
    {
        Spectrogram(Computation::Idle)
    }
}

} // verus!
