//! The life of an analysis that is computed from an impulse response:
//! nothing asked yet, waiting for the impulse response, computing, done.
use vstd::prelude::*;

verus! {

/// Where an analysis whose result is a `T` stands.
#[derive(Debug, Clone)]
pub enum Computation<T> {
    Idle,
    WaitingForImpulseResponse,
    Computing,
    Computed(T),
}

impl<T> Computation<T> {
    /// The result, once computed.
    pub fn result(&self) -> (r: Option<&T>)
        ensures
            match self {
                Computation::Computed(t) => r == Some(t),
                _ => r is None,
            },
    {
        match self {
            Computation::Computed(t) => Some(t),
            _ => None,
        }
    }

    /// Asks for the analysis, given the impulse response if it is known.
    /// Returns the impulse response to compute from where a computation is
    /// to start. A computed analysis is left as it is; without an impulse
    /// response the analysis waits for one.
    pub fn compute<'a, I>(&mut self, impulse_response: Option<&'a I>) -> (r: Option<&'a I>)
        ensures
            *old(self) is Computed ==> r is None && *final(self) == *old(self),
            !(*old(self) is Computed) ==> match impulse_response {
                Some(ir) => r == Some(ir) && *final(self) is Computing,
                None => r is None && *final(self) is WaitingForImpulseResponse,
            },
    {
        if let Computation::Computed(_) = self {
            return None;
        }
        match impulse_response {
            Some(ir) => {
                *self = Computation::Computing;
                Some(ir)
            },
            None => {
                *self = Computation::WaitingForImpulseResponse;
                None
            },
        }
    }

    /// Stores the result of a computation.
    pub fn set_result(&mut self, result: T)
        ensures
            *final(self) == Computation::Computed(result),
    {
        *self = Computation::Computed(result);
    }

    /// Forgets the analysis, for instance after its settings changed.
    pub fn reset(&mut self)
        ensures
            *final(self) == Computation::<T>::Idle,
    {
        *self = Computation::Idle;
    }
}

impl<T> Default for Computation<T> {
    fn default() -> (r: Self)
        ensures
            r is Idle,
    {
        Computation::Idle
    }
}

} // verus!
