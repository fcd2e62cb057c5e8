//! The analyses of each measurement, and the decisions which of them to
//! compute next.
use vstd::prelude::*;
use std::collections::BTreeMap;
use vstd::std_specs::iter::IteratorSpec;

use crate::analysis::Computation;
use crate::frequency_response::{FrequencyResponse, Data};
use crate::measurement::Id;
use crate::spectral_decay::SpectralDecay;
use crate::spectrogram::Spectrogram;

verus! {

broadcast use vstd::std_specs::btree::group_btree_axioms;

/// Everything computed for one measurement: its impulse response `I`, its
/// frequency response `F` with curves `L`, its spectral decay `D` and its
/// spectrogram `G`.
#[derive(Debug)]
pub struct Analysis<I, F, L, D, G> {
    pub impulse_response: Computation<I>,
    pub frequency_response: FrequencyResponse<F, L>,
    pub spectral_decay: SpectralDecay<D>,
    pub spectrogram: Spectrogram<G>,
}

/// An analysis with nothing computed: a shown frequency response in some
/// colour, and every computation idle.
pub open spec fn is_fresh<I, F, L, D, G>(a: Analysis<I, F, L, D, G>) -> bool {
    &&& a.impulse_response is Idle
    &&& a.frequency_response.is_shown
    &&& a.frequency_response.state is Idle
    &&& a.spectral_decay.0 is Idle
    &&& a.spectrogram.0 is Idle
}

impl<I, F, L, D, G> Analysis<I, F, L, D, G> {
    pub fn new() -> (r: Self)
        ensures
            is_fresh(r),
    {
        Analysis {
            impulse_response: Computation::Idle,
            frequency_response: FrequencyResponse::new(),
            spectral_decay: SpectralDecay(Computation::Idle),
            spectrogram: Spectrogram(Computation::Idle),
        }
    }

    /// The impulse response, once computed.
    pub fn impulse_response(&self) -> (r: Option<&I>)
        ensures
            match self.impulse_response {
                Computation::Computed(i) => r == Some(&i),
                _ => r is None,
            },
    {
        self.impulse_response.result()
    }
}

/// What a request for an analysis starts.
#[derive(Debug, Clone, Copy, PartialEq, Eq, Structural)]
pub enum Start {
    /// Nothing: the analysis is done, or cannot be started yet.
    Nothing,
    /// The impulse response, which the analysis waits for.
    ImpulseResponse,
    /// The analysis itself, from the computed impulse response.
    Analysis,
}

/// The analyses, by measurement.
#[derive(Debug)]
pub struct Analyses<I, F, L, D, G> {
    map: BTreeMap<usize, Analysis<I, F, L, D, G>>,
}

impl<I, F, L, D, G> Analyses<I, F, L, D, G> {
    pub closed spec fn view(&self) -> Map<usize, Analysis<I, F, L, D, G>> {
        self.map@
    }

    pub fn new() -> (r: Self)
        ensures
            r@ == Map::<usize, Analysis<I, F, L, D, G>>::empty(),
    {
        Analyses { map: BTreeMap::new() }
    }

    /// The keys of the map, each once.
    fn key_list(&self) -> (r: Vec<usize>)
        ensures
            r@.to_set() == self@.dom(),
            r@.no_duplicates(),
    {
        let mut r: Vec<usize> = Vec::new();
        let ghost keys = self.map.keys().remaining();
        for k in it: self.map.keys()
            invariant
                r@ == it.seq().take(it.index() as int).map_values(|k: &usize| *k),
        {
            r.push(*k);
        }
        proof {
            assert(r@ =~= keys.unref());
        }
        r
    }
}


/// Whether a request for the impulse response starts its computation: it is
/// neither computed nor being computed.
pub open spec fn starts_impulse_response<I>(c: Computation<I>) -> bool {
    !(c is Computed || c is Computing)
}

/// `b` is `a` after a request for the impulse response, the measurement's
/// signals being loaded; `started` tells whether a computation starts.
pub open spec fn ir_requested<I, F, L, D, G>(
    a: Analysis<I, F, L, D, G>,
    b: Analysis<I, F, L, D, G>,
    started: bool,
) -> bool {
    &&& started == starts_impulse_response(a.impulse_response)
    &&& b.impulse_response == (if started {
        Computation::<I>::Computing
    } else {
        a.impulse_response
    })
    &&& b.frequency_response == a.frequency_response
    &&& b.spectral_decay == a.spectral_decay
    &&& b.spectrogram == a.spectrogram
}

/// An impulse response asked for twice in a row is computed once: the
/// second request starts nothing and changes nothing.
pub proof fn law_impulse_response_started_once<I, F, L, D, G>(
    a: Analysis<I, F, L, D, G>,
    b: Analysis<I, F, L, D, G>,
    c: Analysis<I, F, L, D, G>,
    first: bool,
    second: bool,
)
    requires
        ir_requested(a, b, first),
        ir_requested(b, c, second),
    ensures
        !second,
        c == b,
{
}

/// `b` is `a` with its frequency response in state `state`.
pub open spec fn with_fr_state<I, F, L, D, G>(
    a: Analysis<I, F, L, D, G>,
    state: Computation<Data<F, L>>,
) -> Analysis<I, F, L, D, G> {
    Analysis {
        frequency_response: FrequencyResponse { state, ..a.frequency_response },
        ..a
    }
}

/// `b` is `a` after a request for the frequency response, with `ready`
/// telling whether the signals it needs are loaded.
pub open spec fn fr_requested<I, F, L, D, G>(
    a: Analysis<I, F, L, D, G>,
    b: Analysis<I, F, L, D, G>,
    ready: bool,
    r: Start,
) -> bool {
    if a.frequency_response.state is Computed {
        r == Start::Nothing && b == a
    } else if a.impulse_response is Computed {
        r == Start::Analysis && b == with_fr_state(a, Computation::Computing)
    } else {
        let waiting = with_fr_state(a, Computation::WaitingForImpulseResponse);
        if ready {
            &&& ir_requested(waiting, b, r == Start::ImpulseResponse)
            &&& r != Start::Analysis
        } else {
            r == Start::Nothing && b == waiting
        }
    }
}

/// `b` is `a` after a request for the spectral decay.
pub open spec fn sd_requested<I, F, L, D, G>(
    a: Analysis<I, F, L, D, G>,
    b: Analysis<I, F, L, D, G>,
    ready: bool,
    r: Start,
) -> bool {
    if !(a.spectral_decay.0 is Computed) && a.impulse_response is Computed {
        &&& r == Start::Analysis
        &&& b == Analysis { spectral_decay: SpectralDecay(Computation::Computing), ..a }
    } else {
        let after = if a.spectral_decay.0 is Computed {
            a
        } else {
            Analysis { spectral_decay: SpectralDecay(Computation::WaitingForImpulseResponse), ..a }
        };
        if ready {
            &&& ir_requested(after, b, r == Start::ImpulseResponse)
            &&& r != Start::Analysis
        } else {
            r == Start::Nothing && b == after
        }
    }
}

/// `b` is `a` after a request for the spectrogram.
pub open spec fn sg_requested<I, F, L, D, G>(
    a: Analysis<I, F, L, D, G>,
    b: Analysis<I, F, L, D, G>,
    ready: bool,
    r: Start,
) -> bool {
    if !(a.spectrogram.0 is Computed) && a.impulse_response is Computed {
        &&& r == Start::Analysis
        &&& b == Analysis { spectrogram: Spectrogram(Computation::Computing), ..a }
    } else {
        let after = if a.spectrogram.0 is Computed {
            a
        } else {
            Analysis { spectrogram: Spectrogram(Computation::WaitingForImpulseResponse), ..a }
        };
        if ready {
            &&& ir_requested(after, b, r == Start::ImpulseResponse)
            &&& r != Start::Analysis
        } else {
            r == Start::Nothing && b == after
        }
    }
}

/// `new` is `old` where the entry of `id` was made, if missing, from an
/// analysis `before` (the old entry, or a fresh one), and then became `after`.
pub open spec fn entry_changed<I, F, L, D, G>(
    old: Map<usize, Analysis<I, F, L, D, G>>,
    new: Map<usize, Analysis<I, F, L, D, G>>,
    id: Id,
    before: Analysis<I, F, L, D, G>,
) -> bool {
    &&& new.contains_key(id.0)
    &&& new.remove(id.0) == old.remove(id.0)
    &&& old.contains_key(id.0) ==> before == old[id.0]
    &&& !old.contains_key(id.0) ==> is_fresh(before)
}

impl<I, F, L, D, G> Analyses<I, F, L, D, G> {
    /// The analysis of `id`, if there is one.
    pub fn get(&self, id: Id) -> (r: Option<&Analysis<I, F, L, D, G>>)
        ensures
            match r {
                Some(a) => self@.contains_key(id.0) && self@[id.0] == *a,
                None => !self@.contains_key(id.0),
            },
    {
        self.map.get(&id.0)
    }

    /// Forgets the analysis of `id`.
    pub fn remove(&mut self, id: Id)
        ensures
            final(self)@ == old(self)@.remove(id.0),
    {
        self.map.remove(&id.0);
    }

    /// Takes the analysis of `id` out, or a fresh one where there is none.
    fn take_or_fresh(&mut self, id: Id) -> (a: Analysis<I, F, L, D, G>)
        ensures
            final(self)@ == old(self)@.remove(id.0),
            old(self)@.contains_key(id.0) ==> a == old(self)@[id.0],
            !old(self)@.contains_key(id.0) ==> is_fresh(a),
    {
        match self.map.remove(&id.0) {
            Some(a) => a,
            None => Analysis::new(),
        }
    }

    fn put(&mut self, id: Id, a: Analysis<I, F, L, D, G>)
        ensures
            final(self)@ == old(self)@.insert(id.0, a),
    {
        self.map.insert(id.0, a);
    }

    /// Asks for the impulse response of `id`; `ready` tells whether the
    /// loopback and the measurement's signal are loaded, without which
    /// nothing happens. Returns whether its computation is to start.
    pub fn compute_impulse_response(&mut self, id: Id, ready: bool) -> (started: bool)
        ensures
            !ready ==> !started && final(self)@ == old(self)@,
            ready ==> exists|before: Analysis<I, F, L, D, G>|
                entry_changed(old(self)@, final(self)@, id, before) && ir_requested(
                    before,
                    final(self)@[id.0],
                    started,
                ),
    {
        if !ready {
            return false;
        }
        let mut a = self.take_or_fresh(id);
        let ghost before = a;
        let started = match a.impulse_response {
            Computation::Computed(_) | Computation::Computing => false,
            _ => true,
        };
        if started {
            a.impulse_response = Computation::Computing;
        }
        self.put(id, a);
        assert(self@.remove(id.0) =~= old(self)@.remove(id.0));
        assert(entry_changed(old(self)@, self@, id, before));
        started
    }

    /// Asks for the frequency response of `id` (see `fr_requested`).
    pub fn compute_frequency_response(&mut self, id: Id, ready: bool) -> (r: Start)
        ensures
            exists|before: Analysis<I, F, L, D, G>|
                entry_changed(old(self)@, final(self)@, id, before) && fr_requested(
                    before,
                    final(self)@[id.0],
                    ready,
                    r,
                ),
    {
        let mut a = self.take_or_fresh(id);
        let ghost before = a;
        if let Computation::Computed(_) = a.frequency_response.state {
            self.put(id, a);
            assert(self@.remove(id.0) =~= old(self)@.remove(id.0));
        assert(entry_changed(old(self)@, self@, id, before));
            return Start::Nothing;
        }
        if let Computation::Computed(_) = a.impulse_response {
            a.frequency_response.state = Computation::Computing;
            self.put(id, a);
            assert(self@.remove(id.0) =~= old(self)@.remove(id.0));
        assert(entry_changed(old(self)@, self@, id, before));
            return Start::Analysis;
        }
        a.frequency_response.state = Computation::WaitingForImpulseResponse;
        let ghost waiting = a;
        self.put(id, a);
        let ghost mid = self@;
        let started = self.compute_impulse_response(id, ready);
        assert(mid.remove(id.0) =~= old(self)@.remove(id.0));
        assert(entry_changed(old(self)@, self@, id, before));
        if started {
            Start::ImpulseResponse
        } else {
            Start::Nothing
        }
    }
}


/// A change made to every analysis at once.
#[derive(Debug, Clone, Copy, PartialEq, Eq, Structural)]
enum Sweep {
    ResetSmoothing,
    ResetSpectralDecay,
    ResetSpectrogram,
}

/// The frequency response without its smoothed curve.
pub open spec fn without_smoothing<F, L>(fr: FrequencyResponse<F, L>) -> FrequencyResponse<F, L> {
    match fr.state {
        Computation::Computed(d) => FrequencyResponse {
            state: Computation::Computed(
                Data { origin: d.origin, base_smoothed: d.base_smoothed, smoothed: None },
            ),
            ..fr
        },
        _ => fr,
    }
}

spec fn swept<I, F, L, D, G>(sweep: Sweep, a: Analysis<I, F, L, D, G>) -> Analysis<I, F, L, D, G> {
    match sweep {
        Sweep::ResetSmoothing => Analysis {
            frequency_response: without_smoothing(a.frequency_response),
            ..a
        },
        Sweep::ResetSpectralDecay => Analysis { spectral_decay: SpectralDecay(Computation::Idle), ..a },
        Sweep::ResetSpectrogram => Analysis { spectrogram: Spectrogram(Computation::Idle), ..a },
    }
}

impl<I, F, L, D, G> Analyses<I, F, L, D, G> {
    fn sweep_one(sweep: Sweep, a: &mut Analysis<I, F, L, D, G>)
        ensures
            *final(a) == swept(sweep, *old(a)),
    {
        match sweep {
            Sweep::ResetSmoothing => a.frequency_response.reset_smoothing(),
            Sweep::ResetSpectralDecay => a.spectral_decay.reset(),
            Sweep::ResetSpectrogram => a.spectrogram.reset(),
        }
    }

    fn sweep_all(&mut self, sweep: Sweep)
        ensures
            final(self)@.dom() == old(self)@.dom(),
            forall|k: usize|
                #[trigger] old(self)@.contains_key(k) ==> final(self)@[k] == swept(sweep, old(self)@[k]),
    {
        let keys = self.key_list();
        let ghost ks = keys@;
        let mut i: usize = 0;
        while i < keys.len()
            invariant
                ks == keys@,
                ks.to_set() == old(self)@.dom(),
                ks.no_duplicates(),
                i <= keys.len(),
                self@.dom() == old(self)@.dom(),
                forall|j: int| 0 <= j < i ==> self@[#[trigger] ks[j]] == swept(sweep, old(self)@[ks[j]]),
                forall|k: usize|
                    old(self)@.contains_key(k) && !ks.take(i as int).contains(k) ==> #[trigger] self@[k] == old(self)@[k],
            decreases keys.len() - i,
        {
            let k = keys[i];
            assert(ks.to_set().contains(k));
            assert(!ks.take(i as int).contains(k)) by {
                if ks.take(i as int).contains(k) {
                    let j = choose|j: int| 0 <= j < i && ks.take(i as int)[j] == k;
                    assert(ks[j] == ks[i as int]);
                }
            }
            let mut a = match self.map.remove(&k) {
                Some(a) => a,
                None => {
                    assert(false);
                    return;
                }
            };
            Self::sweep_one(sweep, &mut a);
            self.map.insert(k, a);
            assert(self@.dom() =~= old(self)@.dom());
            assert forall|k2: usize|
                old(self)@.contains_key(k2) && !ks.take(i as int + 1).contains(k2) implies #[trigger] self@[k2] == old(self)@[k2] by {
                assert(ks.take(i as int + 1)[i as int] == k);
                if ks.take(i as int).contains(k2) {
                    let j = choose|j: int| 0 <= j < i && ks.take(i as int)[j] == k2;
                    assert(ks.take(i as int + 1)[j] == k2);
                }
            }
            assert forall|j: int| 0 <= j < i + 1 implies self@[#[trigger] ks[j]] == swept(sweep, old(self)@[ks[j]]) by {
                if j < i {
                    assert(ks[j] != ks[i as int]);
                }
            }
            i = i + 1;
        }
        assert forall|k: usize| #[trigger] old(self)@.contains_key(k) implies self@[k] == swept(sweep, old(self)@[k]) by {
            assert(ks.to_set().contains(k));
            let j = choose|j: int| 0 <= j < ks.len() && ks[j] == k;
            assert(ks[j] == k);
        }
    }

    /// Drops the smoothed curve of every computed frequency response.
    pub fn reset_smoothing_all(&mut self)
        ensures
            final(self)@.dom() == old(self)@.dom(),
            forall|k: usize| #[trigger] old(self)@.contains_key(k) ==> final(self)@[k] == (Analysis {
                frequency_response: without_smoothing(old(self)@[k].frequency_response),
                ..old(self)@[k]
            }),
    {
        self.sweep_all(Sweep::ResetSmoothing);
    }

    /// Forgets every spectral decay, for instance after its settings changed.
    pub fn reset_spectral_decays_all(&mut self)
        ensures
            final(self)@.dom() == old(self)@.dom(),
            forall|k: usize| #[trigger] old(self)@.contains_key(k) ==> final(self)@[k] == (Analysis {
                spectral_decay: SpectralDecay(Computation::Idle),
                ..old(self)@[k]
            }),
    {
        self.sweep_all(Sweep::ResetSpectralDecay);
    }

    /// Forgets every spectrogram, for instance after its settings changed.
    pub fn reset_spectrograms_all(&mut self)
        ensures
            final(self)@.dom() == old(self)@.dom(),
            forall|k: usize| #[trigger] old(self)@.contains_key(k) ==> final(self)@[k] == (Analysis {
                spectrogram: Spectrogram(Computation::Idle),
                ..old(self)@[k]
            }),
    {
        self.sweep_all(Sweep::ResetSpectrogram);
    }
}


impl<I, F, L, D, G> Analyses<I, F, L, D, G> {
    /// Asks for the spectral decay of `id` (see `sd_requested`).
    pub fn compute_spectral_decay(&mut self, id: Id, ready: bool) -> (r: Start)
        ensures
            exists|before: Analysis<I, F, L, D, G>|
                entry_changed(old(self)@, final(self)@, id, before) && sd_requested(
                    before,
                    final(self)@[id.0],
                    ready,
                    r,
                ),
    {
        let mut a = self.take_or_fresh(id);
        let ghost before = a;
        let start = a.spectral_decay.compute(a.impulse_response.result()).is_some();
        self.put(id, a);
        let ghost mid = self@;
        assert(mid.remove(id.0) =~= old(self)@.remove(id.0));
        if start {
            assert(entry_changed(old(self)@, self@, id, before));
            return Start::Analysis;
        }
        let started = self.compute_impulse_response(id, ready);
        assert(entry_changed(old(self)@, self@, id, before));
        if started {
            Start::ImpulseResponse
        } else {
            Start::Nothing
        }
    }

    /// Asks for the spectrogram of `id` (see `sg_requested`).
    pub fn compute_spectrogram(&mut self, id: Id, ready: bool) -> (r: Start)
        ensures
            exists|before: Analysis<I, F, L, D, G>|
                entry_changed(old(self)@, final(self)@, id, before) && sg_requested(
                    before,
                    final(self)@[id.0],
                    ready,
                    r,
                ),
    {
        let mut a = self.take_or_fresh(id);
        let ghost before = a;
        let start = a.spectrogram.compute(a.impulse_response.result()).is_some();
        self.put(id, a);
        let ghost mid = self@;
        assert(mid.remove(id.0) =~= old(self)@.remove(id.0));
        if start {
            assert(entry_changed(old(self)@, self@, id, before));
            return Start::Analysis;
        }
        let started = self.compute_impulse_response(id, ready);
        assert(entry_changed(old(self)@, self@, id, before));
        if started {
            Start::ImpulseResponse
        } else {
            Start::Nothing
        }
    }

    /// Asks again for the spectrogram of `id` after its settings changed,
    /// where `id` has an analysis; returns whether its computation starts.
    pub fn restart_spectrogram(&mut self, id: Id) -> (started: bool)
        ensures
            !old(self)@.contains_key(id.0) ==> !started && final(self)@ == old(self)@,
            old(self)@.contains_key(id.0) ==> {
                let a = old(self)@[id.0];
                &&& final(self)@ == old(self)@.insert(id.0, final(self)@[id.0])
                &&& started == (!(a.spectrogram.0 is Computed) && a.impulse_response is Computed)
                &&& final(self)@[id.0] == (if a.spectrogram.0 is Computed {
                    a
                } else if started {
                    Analysis { spectrogram: Spectrogram(Computation::Computing), ..a }
                } else {
                    Analysis { spectrogram: Spectrogram(Computation::WaitingForImpulseResponse), ..a }
                })
            },
    {
        match self.map.remove(&id.0) {
            Some(mut a) => {
                let started = a.spectrogram.compute(a.impulse_response.result()).is_some();
                self.map.insert(id.0, a);
                assert(self@ =~= old(self)@.insert(id.0, self@[id.0]));
                started
            },
            None => {
                assert(self@ =~= old(self)@);
                false
            },
        }
    }

    /// Stores what the impulse-response computation of `id` reports, where
    /// `id` has an analysis: the impulse response once it is done
    /// (`Some`), or that it is still under way (`None`).
    pub fn set_impulse_response(&mut self, id: Id, impulse_response: Option<I>)
        ensures
            !old(self)@.contains_key(id.0) ==> final(self)@ == old(self)@,
            old(self)@.contains_key(id.0) ==> final(self)@ == old(self)@.insert(
                id.0,
                Analysis {
                    impulse_response: match impulse_response {
                        Some(ir) => Computation::Computed(ir),
                        None => Computation::Computing,
                    },
                    ..old(self)@[id.0]
                },
            ),
    {
        if let Some(mut a) = self.map.remove(&id.0) {
            a.impulse_response = match impulse_response {
                Some(ir) => Computation::Computed(ir),
                None => Computation::Computing,
            };
            self.map.insert(id.0, a);
        } else {
            assert(self@ =~= old(self)@);
        }
    }

    /// Stores the computed frequency response of `id` and the curve drawn
    /// for it, making the analysis if there is none.
    pub fn set_frequency_response(&mut self, id: Id, origin: F, curve: L)
        ensures
            exists|before: Analysis<I, F, L, D, G>|
                entry_changed(old(self)@, final(self)@, id, before) && final(self)@[id.0] == (
                Analysis {
                    frequency_response: FrequencyResponse {
                        state: Computation::Computed(
                            Data { origin, base_smoothed: curve, smoothed: None },
                        ),
                        ..before.frequency_response
                    },
                    ..before
                }),
    {
        let mut a = self.take_or_fresh(id);
        let ghost before = a;
        a.frequency_response.set_result(origin, curve);
        self.put(id, a);
        assert(self@.remove(id.0) =~= old(self)@.remove(id.0));
        assert(entry_changed(old(self)@, self@, id, before));
    }

    /// Shows or hides the frequency response of `id`; returns whether `id`
    /// has an analysis (otherwise nothing changes).
    pub fn set_frequency_shown(&mut self, id: Id, shown: bool) -> (r: bool)
        ensures
            r == old(self)@.contains_key(id.0),
            !r ==> final(self)@ == old(self)@,
            r ==> final(self)@ == old(self)@.insert(
                id.0,
                Analysis {
                    frequency_response: FrequencyResponse {
                        is_shown: shown,
                        ..old(self)@[id.0].frequency_response
                    },
                    ..old(self)@[id.0]
                },
            ),
    {
        if let Some(mut a) = self.map.remove(&id.0) {
            a.frequency_response.is_shown = shown;
            self.map.insert(id.0, a);
            true
        } else {
            assert(self@ =~= old(self)@);
            false
        }
    }

    /// Stores the smoothed curve of `id`, where its frequency response is
    /// computed; returns whether it was stored (otherwise nothing changes).
    pub fn set_smoothed(&mut self, id: Id, smoothed: L) -> (r: bool)
        ensures
            r == (old(self)@.contains_key(id.0)
                && old(self)@[id.0].frequency_response.state is Computed),
            !r ==> final(self)@ == old(self)@,
            r ==> {
                let a = old(self)@[id.0];
                let d = a.frequency_response.state->Computed_0;
                final(self)@ == old(self)@.insert(
                    id.0,
                    Analysis {
                        frequency_response: FrequencyResponse {
                            state: Computation::Computed(
                                Data { origin: d.origin, base_smoothed: d.base_smoothed, smoothed: Some(smoothed) },
                            ),
                            ..a.frequency_response
                        },
                        ..a
                    },
                )
            },
    {
        if let Some(mut a) = self.map.remove(&id.0) {
            let stored = a.frequency_response.set_smoothed(smoothed);
            self.map.insert(id.0, a);
            if !stored {
                assert(self@ =~= old(self)@);
            }
            stored
        } else {
            assert(self@ =~= old(self)@);
            false
        }
    }

    /// Stores the spectral decay of `id`, where `id` has an analysis;
    /// returns whether it was stored.
    pub fn set_spectral_decay(&mut self, id: Id, spectral_decay: D) -> (r: bool)
        ensures
            r == old(self)@.contains_key(id.0),
            !r ==> final(self)@ == old(self)@,
            r ==> final(self)@ == old(self)@.insert(
                id.0,
                Analysis {
                    spectral_decay: SpectralDecay(Computation::Computed(spectral_decay)),
                    ..old(self)@[id.0]
                },
            ),
    {
        if let Some(mut a) = self.map.remove(&id.0) {
            a.spectral_decay.set_result(spectral_decay);
            self.map.insert(id.0, a);
            true
        } else {
            assert(self@ =~= old(self)@);
            false
        }
    }

    /// Stores the spectrogram of `id`, making the analysis if there is none.
    pub fn set_spectrogram(&mut self, id: Id, spectrogram: G)
        ensures
            exists|before: Analysis<I, F, L, D, G>|
                entry_changed(old(self)@, final(self)@, id, before) && final(self)@[id.0] == (
                Analysis { spectrogram: Spectrogram(Computation::Computed(spectrogram)), ..before }),
    {
        let mut a = self.take_or_fresh(id);
        let ghost before = a;
        a.spectrogram.set_result(spectrogram);
        self.put(id, a);
        assert(self@.remove(id.0) =~= old(self)@.remove(id.0));
        assert(entry_changed(old(self)@, self@, id, before));
    }

    /// The measurements whose frequency response is computed, each once.
    pub fn computed_frequency_responses(&self) -> (r: Vec<Id>)
        ensures
            forall|id: Id| #[trigger] r@.contains(id) <==> (self@.contains_key(id.0)
                && self@[id.0].frequency_response.state is Computed),
            r@.no_duplicates(),
    {
        let keys = self.key_list();
        let ghost ks = keys@;
        let mut r: Vec<Id> = Vec::new();
        let mut i: usize = 0;
        while i < keys.len()
            invariant
                ks == keys@,
                ks.to_set() == self@.dom(),
                ks.no_duplicates(),
                i <= keys.len(),
                r@.no_duplicates(),
                forall|id: Id| #[trigger] r@.contains(id) <==> (ks.take(i as int).contains(id.0)
                    && self@[id.0].frequency_response.state is Computed),
            decreases keys.len() - i,
        {
            let k = keys[i];
            assert(ks.to_set().contains(k));
            let computed = match self.map.get(&k) {
                Some(a) => a.frequency_response.result().is_some(),
                None => false,
            };
            let ghost old_r = r@;
            assert(!ks.take(i as int).contains(k)) by {
                if ks.take(i as int).contains(k) {
                    let j = choose|j: int| 0 <= j < i && ks.take(i as int)[j] == k;
                    assert(ks[j] == ks[i as int]);
                }
            }
            assert(computed == (self@[k].frequency_response.state is Computed));
            assert(!old_r.contains(Id(k)));
            if computed {
                r.push(Id(k));
                assert(r@ == old_r.push(Id(k)));
            }
            assert forall|id: Id| #[trigger] r@.contains(id) <==> (ks.take(i as int + 1).contains(id.0)
                && self@[id.0].frequency_response.state is Computed) by {
                let t1 = ks.take(i as int + 1);
                let t0 = ks.take(i as int);
                assert(t1[i as int] == k);
                if r@.contains(id) {
                    if computed && id == Id(k) {
                        assert(t1.contains(id.0));
                    } else {
                        let j = choose|j: int| 0 <= j < r@.len() && r@[j] == id;
                        if computed {
                            assert(j < old_r.len());
                            assert(old_r[j] == id);
                        }
                        assert(old_r.contains(id));
                        let m = choose|m: int| 0 <= m < i && #[trigger] t0[m] == id.0;
                        assert(t1[m] == id.0);
                    }
                }
                if t1.contains(id.0) && self@[id.0].frequency_response.state is Computed {
                    if id.0 == k {
                        assert(id == Id(k));
                        assert(r@[r@.len() - 1] == id);
                    } else {
                        let m = choose|m: int| 0 <= m < i + 1 && #[trigger] t1[m] == id.0;
                        assert(t0[m] == id.0);
                        assert(t0.contains(id.0));
                        assert(old_r.contains(id));
                        let j = choose|j: int| 0 <= j < old_r.len() && old_r[j] == id;
                        assert(r@[j] == id);
                    }
                }
            }
            i = i + 1;
        }
        assert forall|id: Id| #[trigger] r@.contains(id) <==> (self@.contains_key(id.0)
            && self@[id.0].frequency_response.state is Computed) by {
            assert(ks.take(i as int) =~= ks);
            if self@.contains_key(id.0) {
                assert(ks.to_set().contains(id.0));
            }
        }
        r
    }

    /// Starts every analysis afresh, for instance after the window changed.
    pub fn reset_all(&mut self)
        ensures
            final(self)@.dom() == old(self)@.dom(),
            forall|k: usize| #[trigger] old(self)@.contains_key(k) ==> is_fresh(final(self)@[k]),
    {
        let keys = self.key_list();
        let ghost ks = keys@;
        let mut i: usize = 0;
        while i < keys.len()
            invariant
                ks == keys@,
                ks.to_set() == old(self)@.dom(),
                i <= keys.len(),
                self@.dom() == old(self)@.dom(),
                forall|j: int| 0 <= j < i ==> is_fresh(self@[#[trigger] ks[j]]),
            decreases keys.len() - i,
        {
            let k = keys[i];
            assert(ks.to_set().contains(k));
            self.map.insert(k, Analysis::new());
            assert(self@.dom() =~= old(self)@.dom());
            i = i + 1;
        }
        assert forall|k: usize| #[trigger] old(self)@.contains_key(k) implies is_fresh(self@[k]) by {
            assert(ks.to_set().contains(k));
            let j = choose|j: int| 0 <= j < ks.len() && ks[j] == k;
            assert(is_fresh(self@[ks[j]]));
        }
    }
}


impl<I, F, L, D, G> Analyses<I, F, L, D, G> {
    /// Makes sure `id` has an analysis, a fresh one where it had none.
    pub fn ensure_entry(&mut self, id: Id)
        ensures
            final(self)@.contains_key(id.0),
            old(self)@.contains_key(id.0) ==> final(self)@ == old(self)@,
            !old(self)@.contains_key(id.0) ==> final(self)@.remove(id.0) == old(self)@
                && is_fresh(final(self)@[id.0]),
    {
        let a = self.take_or_fresh(id);
        self.put(id, a);
        assert(self@.remove(id.0) =~= old(self)@.remove(id.0));
        proof {
            if old(self)@.contains_key(id.0) {
                assert(self@ =~= old(self)@);
            } else {
                assert(old(self)@.remove(id.0) =~= old(self)@);
            }
        }
    }
}

} // verus!
