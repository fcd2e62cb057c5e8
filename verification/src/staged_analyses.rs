//! The analyses of the measurements as a pipeline of stages: the impulse
//! response is computed first, then the frequency response from it. Each
//! request says whether a computation is to start, and each finished
//! computation moves its measurement one stage on.
use vstd::prelude::*;
use std::collections::HashMap;

use crate::measurement::Id;

verus! {

broadcast use vstd::std_specs::hash::group_hash_axioms;

/// How far the analysis of one measurement has come; `I` is its impulse
/// response and `R` its frequency response.
#[derive(Debug)]
pub enum State<I, R> {
    ImpulseResponseComputing,
    ImpulseResponseComputed(I),
    FrequencyResponseComputing(I),
    FrequencyResponseComputed { impulse_response: I, frequency_response: R },
}

impl<I, R> Default for State<I, R> {
    fn default() -> (r: Self)
        ensures
            r is ImpulseResponseComputing,
    {
        State::ImpulseResponseComputing
    }
}

/// A finished computation.
#[derive(Debug)]
pub enum Event<I, R> {
    ImpulseResponseComputed(Id, I),
    FrequencyResponseComputed(Id, R),
}

/// What a finished computation asks of the owner.
#[derive(Debug, Clone, Copy, PartialEq, Eq, Structural)]
pub enum Action {
    Nothing,
    /// An impulse response came in: what waits for it can be asked for.
    ImpulseResponseComputed,
}

/// The answer to a request for an impulse response.
#[derive(Debug, Clone, Copy, PartialEq, Eq, Structural)]
pub enum ImpulseResponseComputationState {
    /// Start computing it.
    Compute,
    Computing,
    Computed,
}

/// The answer to a request for a frequency response.
#[derive(Debug, Clone)]
pub enum FrequencyResponseCompuationState<I> {
    /// The impulse response is not there yet.
    NoImpulseResponse,
    /// Start computing it from this impulse response.
    Compute(I),
    Computing,
    Computed,
}

/// The stage of each measurement, by identifier.
#[derive(Debug)]
pub struct Analyses<I, R>(HashMap<usize, State<I, R>>);

/// The stages after `event` on `m`, and what it asks of the owner.
pub open spec fn applied<I, R>(m: Map<usize, State<I, R>>, event: Event<I, R>) -> (Map<
    usize,
    State<I, R>,
>, Action) {
    match event {
        Event::ImpulseResponseComputed(id, ir) => (
            m.insert(id.0, State::ImpulseResponseComputed(ir)),
            Action::ImpulseResponseComputed,
        ),
        Event::FrequencyResponseComputed(id, fr) => if !m.contains_key(id.0) {
            (m, Action::Nothing)
        } else {
            (
                match m[id.0] {
                    State::ImpulseResponseComputing => m.remove(id.0),
                    State::ImpulseResponseComputed(ir) => m.insert(
                        id.0,
                        State::FrequencyResponseComputed { impulse_response: ir, frequency_response: fr },
                    ),
                    State::FrequencyResponseComputing(ir) => m.insert(
                        id.0,
                        State::FrequencyResponseComputed { impulse_response: ir, frequency_response: fr },
                    ),
                    State::FrequencyResponseComputed { impulse_response, .. } => m.insert(
                        id.0,
                        State::FrequencyResponseComputed { impulse_response, frequency_response: fr },
                    ),
                },
                Action::Nothing,
            )
        },
    }
}

/// The stages after a request for the impulse response of `id` on `m`, and
/// the answer.
pub open spec fn ir_step<I, R>(m: Map<usize, State<I, R>>, id: Id) -> (Map<usize, State<I, R>>, ImpulseResponseComputationState) {
    if !m.contains_key(id.0) {
        (m.insert(id.0, State::ImpulseResponseComputing), ImpulseResponseComputationState::Compute)
    } else if m[id.0] is ImpulseResponseComputing {
        (m, ImpulseResponseComputationState::Computing)
    } else {
        (m, ImpulseResponseComputationState::Computed)
    }
}

/// The answer to a request for a frequency response, without the impulse
/// response it hands out.
#[derive(Debug, Clone, Copy, PartialEq, Eq, Structural)]
pub enum FrAnswer {
    NoImpulseResponse,
    Compute,
    Computing,
    Computed,
}

/// The stages after a request for the frequency response of `id` on `m`,
/// and the kind of answer.
pub open spec fn fr_step<I, R>(m: Map<usize, State<I, R>>, id: Id) -> (Map<usize, State<I, R>>, FrAnswer) {
    if !m.contains_key(id.0) {
        (m, FrAnswer::NoImpulseResponse)
    } else {
        match m[id.0] {
            State::ImpulseResponseComputing => (m, FrAnswer::NoImpulseResponse),
            State::ImpulseResponseComputed(ir) => (
                m.insert(id.0, State::FrequencyResponseComputing(ir)),
                FrAnswer::Compute,
            ),
            State::FrequencyResponseComputing(_) => (m, FrAnswer::Computing),
            State::FrequencyResponseComputed { .. } => (m, FrAnswer::Computed),
        }
    }
}

/// The kind of a frequency-response answer.
pub open spec fn fr_answer_kind<I>(a: FrequencyResponseCompuationState<I>) -> FrAnswer {
    match a {
        FrequencyResponseCompuationState::NoImpulseResponse => FrAnswer::NoImpulseResponse,
        FrequencyResponseCompuationState::Compute(_) => FrAnswer::Compute,
        FrequencyResponseCompuationState::Computing => FrAnswer::Computing,
        FrequencyResponseCompuationState::Computed => FrAnswer::Computed,
    }
}

impl<I, R> Analyses<I, R> {
    pub closed spec fn view(&self) -> Map<usize, State<I, R>> {
        self.0@
    }

    /// No measurement analysed yet.
    pub fn new() -> (r: Self)
        ensures
            r@ == Map::<usize, State<I, R>>::empty(),
    {
        Analyses(HashMap::new())
    }

    /// Moves the measurement of a finished computation on (see `applied`).
    pub fn apply(&mut self, event: Event<I, R>) -> (r: Action)
        ensures
            (final(self)@, r) == applied(old(self)@, event),
    {
        match event {
            Event::ImpulseResponseComputed(id, ir) => {
                self.0.insert(id.0, State::ImpulseResponseComputed(ir));
                Action::ImpulseResponseComputed
            },
            Event::FrequencyResponseComputed(id, fr) => {
                match self.0.remove(&id.0) {
                    None => {
                        assert(self@ =~= old(self)@);
                        Action::Nothing
                    },
                    Some(State::ImpulseResponseComputing) => Action::Nothing,
                    Some(State::ImpulseResponseComputed(impulse_response))
                    | Some(State::FrequencyResponseComputing(impulse_response))
                    | Some(
                        State::FrequencyResponseComputed { impulse_response, .. },
                    ) => {
                        self.0.insert(
                            id.0,
                            State::FrequencyResponseComputed { impulse_response, frequency_response: fr },
                        );
                        assert(self@ =~= applied(old(self)@, Event::FrequencyResponseComputed(id, fr)).0);
                        Action::Nothing
                    },
                }
            },
        }
    }

    /// Asks for the impulse response of `id` (see `ir_step`).
    pub fn compute_impulse_response(&mut self, id: Id) -> (r: ImpulseResponseComputationState)
        ensures
            (final(self)@, r) == ir_step(old(self)@, id),
    {
        match self.0.get(&id.0) {
            Some(State::ImpulseResponseComputing) => ImpulseResponseComputationState::Computing,
            Some(_) => ImpulseResponseComputationState::Computed,
            None => {
                self.0.insert(id.0, State::ImpulseResponseComputing);
                ImpulseResponseComputationState::Compute
            },
        }
    }

    /// Asks for the frequency response of `id` (see `fr_step`); where its
    /// computation is to start, the answer holds a clone of the impulse
    /// response to compute it from.
    pub fn compute_frequency_response(&mut self, id: Id) -> (r: FrequencyResponseCompuationState<I>)
        where I: Clone
        ensures
            (final(self)@, fr_answer_kind(r)) == fr_step(old(self)@, id),
            r matches FrequencyResponseCompuationState::Compute(ir) ==> old(self)@[id.0] matches State::ImpulseResponseComputed(
                kept,
            ) && cloned(kept, ir),
    {
        match self.0.remove(&id.0) {
            None => {
                assert(self@ =~= old(self)@);
                FrequencyResponseCompuationState::NoImpulseResponse
            },
            Some(State::ImpulseResponseComputed(impulse_response)) => {
                let ir = impulse_response.clone();
                self.0.insert(id.0, State::FrequencyResponseComputing(impulse_response));
                FrequencyResponseCompuationState::Compute(ir)
            },
            Some(state) => {
                let answer = match &state {
                    State::ImpulseResponseComputing => FrequencyResponseCompuationState::NoImpulseResponse,
                    State::FrequencyResponseComputing(_) => FrequencyResponseCompuationState::Computing,
                    _ => FrequencyResponseCompuationState::Computed,
                };
                self.0.insert(id.0, state);
                assert(self@ =~= old(self)@);
                answer
            },
        }
    }
}

/// An impulse response is computed at most once: asked for twice, the
/// second request starts nothing and changes nothing.
pub proof fn law_impulse_response_computed_once<I, R>(m: Map<usize, State<I, R>>, id: Id)
    ensures
        ir_step(ir_step(m, id).0, id).1 != ImpulseResponseComputationState::Compute,
        ir_step(ir_step(m, id).0, id).0 == ir_step(m, id).0,
{
}

/// Once the impulse response of a measurement came in, its frequency
/// response can be computed.
pub proof fn law_frequency_response_follows_impulse_response<I, R>(
    m: Map<usize, State<I, R>>,
    id: Id,
    ir: I,
)
    ensures
        fr_step(applied(m, Event::ImpulseResponseComputed(id, ir)).0, id).1 == FrAnswer::Compute,
{
}

/// A frequency response is computed at most once at a time: asked for
/// twice, the second request starts nothing and changes nothing.
pub proof fn law_frequency_response_computed_once<I, R>(m: Map<usize, State<I, R>>, id: Id)
    ensures
        fr_step(fr_step(m, id).0, id).1 != FrAnswer::Compute,
        fr_step(fr_step(m, id).0, id).0 == fr_step(m, id).0,
{
}

/// A finished frequency response keeps the impulse response it was computed
/// from, and is then reported as computed.
pub proof fn law_frequency_response_kept<I, R>(
    m: Map<usize, State<I, R>>,
    id: Id,
    ir: I,
    fr: R,
)
    requires
        m.contains_key(id.0),
        m[id.0] == State::<I, R>::FrequencyResponseComputing(ir),
    ensures
        applied(m, Event::FrequencyResponseComputed(id, fr)).0[id.0] == (State::<I, R>::FrequencyResponseComputed {
            impulse_response: ir,
            frequency_response: fr,
        }),
        fr_step(applied(m, Event::FrequencyResponseComputed(id, fr)).0, id).1 == FrAnswer::Computed,
{
}

} // verus!
