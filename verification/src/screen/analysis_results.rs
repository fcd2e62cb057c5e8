//! What the main screen does with finished frequency responses, spectral
//! decays and spectrograms, with the smoothing chosen for the frequency
//! responses, and with the dialogs that configure spectral decays and
//! spectrograms.
use vstd::prelude::*;

use crate::analyses::{Analysis, entry_changed};
use crate::analysis::Computation;
use crate::frequency_response::{Data, FrequencyResponse};
use crate::measurement::Id;
use crate::screen::analysis_events::only_state_changes;
use crate::screen::{Command, Main, State, same_settings, same_signals};
use crate::spectral_decay::SpectralDecay;
use crate::spectrogram::Spectrogram;
use crate::tab::Tab;
use crate::units::{Smoothing, smoothing_fraction};

verus! {

/// Whether `m` analyses with the tab `tab` open.
pub open spec fn analysing_in<W, S, LB, LE, Op, I, F, L, D, G>(
    m: Main<W, S, LB, LE, Op, I, F, L, D, G>,
    tab: crate::tab::Id,
) -> bool {
    m.state matches State::Analysing { active_tab, .. } && crate::tab::tab_id(active_tab) == tab
}

/// `new` is the state `old` with only its analyses changed.
pub open spec fn analyses_changed<W, I, F, L, D, G>(
    old: State<W, I, F, L, D, G>,
    new: State<W, I, F, L, D, G>,
) -> bool {
    &&& old matches State::Analysing { active_tab, selected, .. }
    &&& new matches State::Analysing { active_tab: t2, selected: s2, .. }
    &&& t2 == active_tab
    &&& s2 == selected
}

/// The analyses of a state that analyses.
pub open spec fn analyses_of<W, I, F, L, D, G>(s: State<W, I, F, L, D, G>) -> Map<
    usize,
    Analysis<I, F, L, D, G>,
> {
    s->analyses@
}

/// `new` is the state `old`, its analyses taken by their view.
pub open spec fn state_kept<W, I, F, L, D, G>(
    old: State<W, I, F, L, D, G>,
    new: State<W, I, F, L, D, G>,
) -> bool {
    match old {
        State::Collecting => new is Collecting,
        State::Analysing { .. } => analyses_changed(old, new) && analyses_of(new) == analyses_of(old),
    }
}

/// The job that smooths the frequency response of `id` as `smoothing` asks,
/// if it asks for any.
pub open spec fn smoothing_commands<W, Op>(smoothing: Smoothing, id: Id) -> Seq<Command<W, Op>> {
    match smoothing_fraction(smoothing) {
        Some(f) => seq![Command::<W, Op>::SmoothFrequencyResponse(id, f)],
        None => Seq::empty(),
    }
}

/// `new` is `old` where the spectrogram of `id` became `spectrogram`, the
/// analysis being made where missing.
pub open spec fn sg_stored<I, F, L, D, G>(
    old: Map<usize, Analysis<I, F, L, D, G>>,
    new: Map<usize, Analysis<I, F, L, D, G>>,
    id: Id,
    spectrogram: G,
) -> bool {
    exists|before: Analysis<I, F, L, D, G>|
        entry_changed(old, new, id, before) && new[id.0] == (Analysis {
            spectrogram: Spectrogram(Computation::Computed(spectrogram)),
            ..before
        })
}

/// `new` is `old` where the frequency response of `id` became `origin` with
/// the curve `curve`, the analysis being made where missing.
pub open spec fn fr_stored<I, F, L, D, G>(
    old: Map<usize, Analysis<I, F, L, D, G>>,
    new: Map<usize, Analysis<I, F, L, D, G>>,
    id: Id,
    origin: F,
    curve: L,
) -> bool {
    exists|before: Analysis<I, F, L, D, G>|
        {
            &&& entry_changed(old, new, id, before)
            &&& new[id.0] == Analysis {
                frequency_response: FrequencyResponse {
                    state: Computation::Computed(Data { origin, base_smoothed: curve, smoothed: None }),
                    ..before.frequency_response
                },
                ..before
            }
        }
}

/// `new` and the jobs `r` are what `frequency_response_computed` makes of `old`.
pub open spec fn frequency_response_computed_post<W: Clone, S, LB, LE, Op: Copy, I, F, L, D, G>(
    old: Main<W, S, LB, LE, Op, I, F, L, D, G>,
    new: Main<W, S, LB, LE, Op, I, F, L, D, G>,
    id: Id,
    origin: F,
    curve: L,
    r: Seq<Command<W, Op>>,
) -> bool {
    &&& only_state_changes(old, new)
    &&& (!analysing_in(old, crate::tab::Id::FrequencyResponses) ==> {
            &&& new.state == old.state
            &&& r.len() == 0
        })
    &&& (analysing_in(old, crate::tab::Id::FrequencyResponses) ==> {
            &&& analyses_changed(old.state, new.state)
            &&& fr_stored(
                analyses_of(old.state),
                analyses_of(new.state),
                id,
                origin,
                curve,
            )
            &&& r == seq![Command::<W, Op>::ClearTabCache] + smoothing_commands::<W, Op>(
                old.smoothing,
                id,
            )
        })
}

/// `new` and the jobs `r` are what `frequency_response_toggled` makes of `old`.
pub open spec fn frequency_response_toggled_post<W: Clone, S, LB, LE, Op: Copy, I, F, L, D, G>(
    old: Main<W, S, LB, LE, Op, I, F, L, D, G>,
    new: Main<W, S, LB, LE, Op, I, F, L, D, G>,
    id: Id,
    shown: bool,
    r: Seq<Command<W, Op>>,
) -> bool {
    &&& only_state_changes(old, new)
    &&& (!(analysing_in(old, crate::tab::Id::FrequencyResponses)
            && analyses_of(old.state).contains_key(id.0)) ==> {
            &&& state_kept(old.state, new.state)
            &&& r.len() == 0
        })
    &&& (analysing_in(old, crate::tab::Id::FrequencyResponses) && analyses_of(
            old.state,
        ).contains_key(id.0) ==> {
            let a = analyses_of(old.state)[id.0];
            &&& analyses_changed(old.state, new.state)
            &&& analyses_of(new.state) == analyses_of(old.state).insert(
                id.0,
                Analysis {
                    frequency_response: FrequencyResponse { is_shown: shown, ..a.frequency_response },
                    ..a
                },
            )
            &&& r == seq![Command::<W, Op>::ClearTabCache]
        })
}

/// `new` and the jobs `r` are what `frequency_response_smoothed` makes of `old`.
pub open spec fn frequency_response_smoothed_post<W: Clone, S, LB, LE, Op: Copy, I, F, L, D, G>(
    old: Main<W, S, LB, LE, Op, I, F, L, D, G>,
    new: Main<W, S, LB, LE, Op, I, F, L, D, G>,
    id: Id,
    smoothed: L,
    r: Seq<Command<W, Op>>,
) -> bool {
    &&& only_state_changes(old, new)
    &&& (!(analysing_in(old, crate::tab::Id::FrequencyResponses)
            && analyses_of(old.state).contains_key(id.0)
            && analyses_of(old.state)[id.0].frequency_response.state is Computed) ==> {
            &&& state_kept(old.state, new.state)
            &&& r.len() == 0
        })
    &&& (analysing_in(old, crate::tab::Id::FrequencyResponses) && analyses_of(
            old.state,
        ).contains_key(id.0) && analyses_of(old.state)[id.0].frequency_response.state
            is Computed ==> {
            let a = analyses_of(old.state)[id.0];
            let d = a.frequency_response.state->Computed_0;
            &&& analyses_changed(old.state, new.state)
            &&& analyses_of(new.state) == analyses_of(old.state).insert(
                id.0,
                Analysis {
                    frequency_response: FrequencyResponse {
                        state: Computation::Computed(
                            Data {
                                origin: d.origin,
                                base_smoothed: d.base_smoothed,
                                smoothed: Some(smoothed),
                            },
                        ),
                        ..a.frequency_response
                    },
                    ..a
                },
            )
            &&& r == seq![Command::<W, Op>::ClearTabCache]
        })
}

/// `new` and the jobs `r` are what `change_smoothing` makes of `old`.
pub open spec fn change_smoothing_post<W: Clone, S, LB, LE, Op: Copy, I, F, L, D, G>(
    old: Main<W, S, LB, LE, Op, I, F, L, D, G>,
    new: Main<W, S, LB, LE, Op, I, F, L, D, G>,
    smoothing: Smoothing,
    r: Seq<Command<W, Op>>,
) -> bool {
    &&& same_signals(old, new)
    &&& new.modal == old.modal
    &&& (!analysing_in(old, crate::tab::Id::FrequencyResponses) ==> {
            &&& new == old
            &&& r.len() == 0
        })
    &&& (analysing_in(old, crate::tab::Id::FrequencyResponses) ==> {
            &&& same_settings(old, Main { smoothing: old.smoothing, ..new })
            &&& new.smoothing == smoothing
            &&& analyses_changed(old.state, new.state)
            &&& match smoothing_fraction(smoothing) {
                Some(f) => {
                    &&& analyses_of(new.state) == analyses_of(old.state)
                    &&& r.no_duplicates()
                    &&& forall|c: Command<W, Op>| #[trigger] r.contains(c) <==> exists|id: Id|
                        {
                            &&& c == Command::<W, Op>::SmoothFrequencyResponse(id, f)
                            &&& analyses_of(old.state).contains_key(id.0)
                            &&& analyses_of(old.state)[id.0].frequency_response.state
                                is Computed
                        }
                },
                None => {
                    let old_analyses = analyses_of(old.state);
                    let new_analyses = analyses_of(new.state);
                    &&& new_analyses.dom() == old_analyses.dom()
                    &&& forall|k: usize| #[trigger] old_analyses.contains_key(k) ==> new_analyses[k] == (Analysis {
                        frequency_response: crate::analyses::without_smoothing(old_analyses[k].frequency_response),
                        ..old_analyses[k]
                    })
                    &&& r == seq![Command::<W, Op>::ClearTabCache]
                },
            }
        })
}

impl<W: Clone, S, LB, LE, Op: Copy, I, F, L, D, G> Main<W, S, LB, LE, Op, I, F, L, D, G> {
    /// Stores the computed frequency response of `id` with the curve drawn
    /// for it, while the frequency-response tab is open; the chosen
    /// smoothing is then applied to it.
    pub fn frequency_response_computed(&mut self, id: Id, origin: F, curve: L) -> (r: Vec<
        Command<W, Op>,
    >)
        ensures
            frequency_response_computed_post(*old(self), *final(self), id, origin, curve, r@),
    {
        let fraction = self.smoothing.fraction();
        match &mut self.state {
            State::Analysing { active_tab: Tab::FrequencyResponses, analyses, .. } => {
                analyses.set_frequency_response(id, origin, curve);
                let mut r = Vec::new();
                r.push(Command::ClearTabCache);
                if let Some(f) = fraction {
                    r.push(Command::SmoothFrequencyResponse(id, f));
                }
                assert(r@ =~= seq![Command::<W, Op>::ClearTabCache] + smoothing_commands::<W, Op>(
                    self.smoothing,
                    id,
                ));
                r
            },
            _ => Vec::new(),
        }
    }

    /// Shows or hides the frequency response of `id`, while the
    /// frequency-response tab is open and `id` has an analysis.
    pub fn frequency_response_toggled(&mut self, id: Id, shown: bool) -> (r: Vec<Command<W, Op>>)
        ensures
            frequency_response_toggled_post(*old(self), *final(self), id, shown, r@),
    {
        let mut r = Vec::new();
        match &mut self.state {
            State::Analysing { active_tab: Tab::FrequencyResponses, analyses, .. } => {
                if analyses.set_frequency_shown(id, shown) {
                    r.push(Command::ClearTabCache);
                }
            },
            _ => {},
        }
        r
    }

    /// Stores the smoothed curve of `id`, while the frequency-response tab is
    /// open and its frequency response is computed.
    pub fn frequency_response_smoothed(&mut self, id: Id, smoothed: L) -> (r: Vec<Command<W, Op>>)
        ensures
            frequency_response_smoothed_post(*old(self), *final(self), id, smoothed, r@),
    {
        let mut r = Vec::new();
        match &mut self.state {
            State::Analysing { active_tab: Tab::FrequencyResponses, analyses, .. } => {
                if analyses.set_smoothed(id, smoothed) {
                    r.push(Command::ClearTabCache);
                }
            },
            _ => {},
        }
        r
    }

    /// Chooses how the frequency responses are smoothed, while the
    /// frequency-response tab is open: each computed one is smoothed anew, or
    /// every smoothed curve is dropped when no smoothing is chosen.
    pub fn change_smoothing(&mut self, smoothing: Smoothing) -> (r: Vec<Command<W, Op>>)
        ensures
            change_smoothing_post(*old(self), *final(self), smoothing, r@),
    {
        let fraction = smoothing.fraction();
        match &mut self.state {
            State::Analysing { active_tab: Tab::FrequencyResponses, analyses, .. } => {
                self.smoothing = smoothing;
                let mut r: Vec<Command<W, Op>> = Vec::new();
                match fraction {
                    Some(f) => {
                        let ids = analyses.computed_frequency_responses();
                        let mut i: usize = 0;
                        while i < ids.len()
                            invariant
                                i <= ids.len(),
                                ids@.no_duplicates(),
                                r@ == ids@.take(i as int).map_values(
                                    |id: Id| Command::<W, Op>::SmoothFrequencyResponse(id, f),
                                ),
                            decreases ids.len() - i,
                        {
                            r.push(Command::SmoothFrequencyResponse(ids[i], f));
                            assert(ids@.take(i as int + 1).map_values(
                                |id: Id| Command::<W, Op>::SmoothFrequencyResponse(id, f),
                            ) =~= ids@.take(i as int).map_values(
                                |id: Id| Command::<W, Op>::SmoothFrequencyResponse(id, f),
                            ).push(Command::SmoothFrequencyResponse(ids@[i as int], f)));
                            i = i + 1;
                        }
                        proof {
                            assert(ids@.take(i as int) =~= ids@);
                            let cmds = r@;
                            assert forall|a: int, b: int|
                                0 <= a < cmds.len() && 0 <= b < cmds.len() && a != b implies cmds[a]
                                != cmds[b] by {
                                assert(ids@[a] != ids@[b]);
                            }
                            assert forall|c: Command<W, Op>| #[trigger] cmds.contains(c) <==> exists|
                                id: Id,
                            |
                                {
                                    &&& c == Command::<W, Op>::SmoothFrequencyResponse(id, f)
                                    &&& analyses@.contains_key(id.0)
                                    &&& analyses@[id.0].frequency_response.state is Computed
                                } by {
                                if cmds.contains(c) {
                                    let j = choose|j: int| 0 <= j < cmds.len() && cmds[j] == c;
                                    assert(ids@.contains(ids@[j]));
                                }
                                if exists|id: Id|
                                    {
                                        &&& c == Command::<W, Op>::SmoothFrequencyResponse(id, f)
                                        &&& analyses@.contains_key(id.0)
                                        &&& analyses@[id.0].frequency_response.state is Computed
                                    } {
                                    let id = choose|id: Id|
                                        {
                                            &&& c == Command::<W, Op>::SmoothFrequencyResponse(id, f)
                                            &&& analyses@.contains_key(id.0)
                                            &&& analyses@[id.0].frequency_response.state
                                                is Computed
                                        };
                                    assert(ids@.contains(id));
                                    let j = choose|j: int| 0 <= j < ids@.len() && ids@[j] == id;
                                    assert(cmds[j] == c);
                                }
                            }
                        }
                    },
                    None => {
                        analyses.reset_smoothing_all();
                        r.push(Command::ClearTabCache);
                    },
                }
                r
            },
            _ => Vec::new(),
        }
    }
}

/// `new` and the jobs `r` are what `spectral_decay_computed` makes of `old`.
pub open spec fn spectral_decay_computed_post<W: Clone, S, LB, LE, Op: Copy, I, F, L, D, G>(
    old: Main<W, S, LB, LE, Op, I, F, L, D, G>,
    new: Main<W, S, LB, LE, Op, I, F, L, D, G>,
    id: Id,
    spectral_decay: D,
    r: Seq<Command<W, Op>>,
) -> bool {
    &&& only_state_changes(old, new)
    &&& (!(analysing_in(old, crate::tab::Id::SpectralDecays) && analyses_of(
            old.state,
        ).contains_key(id.0)) ==> {
            &&& state_kept(old.state, new.state)
            &&& r.len() == 0
        })
    &&& (analysing_in(old, crate::tab::Id::SpectralDecays) && analyses_of(
            old.state,
        ).contains_key(id.0) ==> {
            &&& analyses_changed(old.state, new.state)
            &&& analyses_of(new.state) == analyses_of(old.state).insert(
                id.0,
                Analysis {
                    spectral_decay: SpectralDecay(Computation::Computed(spectral_decay)),
                    ..analyses_of(old.state)[id.0]
                },
            )
            &&& r == seq![Command::<W, Op>::ClearTabCache]
        })
}

/// `new` and the jobs `r` are what `spectrogram_computed` makes of `old`.
pub open spec fn spectrogram_computed_post<W: Clone, S, LB, LE, Op: Copy, I, F, L, D, G>(
    old: Main<W, S, LB, LE, Op, I, F, L, D, G>,
    new: Main<W, S, LB, LE, Op, I, F, L, D, G>,
    id: Id,
    spectrogram: G,
    r: Seq<Command<W, Op>>,
) -> bool {
    &&& only_state_changes(old, new)
    &&& old.state is Collecting ==> new.state is Collecting && r.len() == 0
    &&& (old.state matches State::Analysing { selected, .. } ==> {
            &&& analyses_changed(old.state, new.state)
            &&& sg_stored(analyses_of(old.state), analyses_of(new.state), id, spectrogram)
            &&& r == (if selected == Some(id) {
                seq![Command::<W, Op>::ClearSpectrogramCache]
            } else {
                Seq::empty()
            })
        })
}

impl<W: Clone, S, LB, LE, Op: Copy, I, F, L, D, G> Main<W, S, LB, LE, Op, I, F, L, D, G> {
    /// Stores the computed spectral decay of `id`, while the spectral-decay
    /// tab is open and `id` has an analysis.
    pub fn spectral_decay_computed(&mut self, id: Id, spectral_decay: D) -> (r: Vec<Command<W, Op>>)
        ensures
            spectral_decay_computed_post(*old(self), *final(self), id, spectral_decay, r@),
    {
        let mut r = Vec::new();
        match &mut self.state {
            State::Analysing { active_tab: Tab::SpectralDecays, analyses, .. } => {
                if analyses.set_spectral_decay(id, spectral_decay) {
                    r.push(Command::ClearTabCache);
                }
            },
            _ => {},
        }
        r
    }

    /// Stores the computed spectrogram of `id`, making its analysis where
    /// missing; the chart is redrawn when `id` is the selected measurement.
    pub fn spectrogram_computed(&mut self, id: Id, spectrogram: G) -> (r: Vec<Command<W, Op>>)
        ensures
            spectrogram_computed_post(*old(self), *final(self), id, spectrogram, r@),
    {
        let mut r = Vec::new();
        match &mut self.state {
            State::Analysing { selected, analyses, .. } => {
                analyses.set_spectrogram(id, spectrogram);
                if let Some(s) = selected {
                    if s.0 == id.0 {
                        r.push(Command::ClearSpectrogramCache);
                    }
                }
            },
            State::Collecting => {},
        }
        r
    }
}

/// A computed frequency response that comes in while the frequency-response
/// tab is open is stored: the measurement's analysis (made where missing)
/// then holds it with its curve and no smoothed curve yet, no other analysis
/// changes, the chart is redrawn and the chosen smoothing, if any, is asked
/// for.
pub proof fn law_computed_frequency_response_is_stored<
    W: Clone,
    S,
    LB,
    LE,
    Op: Copy,
    I,
    F,
    L,
    D,
    G,
>(
    old: Main<W, S, LB, LE, Op, I, F, L, D, G>,
    new: Main<W, S, LB, LE, Op, I, F, L, D, G>,
    id: Id,
    origin: F,
    curve: L,
    r: Seq<Command<W, Op>>,
)
    requires
        frequency_response_computed_post(old, new, id, origin, curve, r),
        old.state is Analysing,
        old.state->active_tab is FrequencyResponses,
    ensures
        ({
            let before = old.state->analyses@;
            let after = new.state->analyses@;
            &&& new.state is Analysing
            &&& new.state->active_tab is FrequencyResponses
            &&& new.state->selected == old.state->selected
            &&& after.contains_key(id.0)
            &&& after.remove(id.0) == before.remove(id.0)
            &&& after[id.0].frequency_response.state == Computation::Computed(
                Data { origin, base_smoothed: curve, smoothed: None },
            )
            &&& (before.contains_key(id.0) ==> {
                &&& after[id.0].impulse_response == before[id.0].impulse_response
                &&& after[id.0].spectral_decay == before[id.0].spectral_decay
                &&& after[id.0].spectrogram == before[id.0].spectrogram
                &&& after[id.0].frequency_response.is_shown
                    == before[id.0].frequency_response.is_shown
            })
            &&& (old.smoothing is NoSmoothing ==> r == seq![Command::<W, Op>::ClearTabCache])
            &&& (smoothing_fraction(old.smoothing) matches Some(f) ==> r == seq![
                Command::<W, Op>::ClearTabCache,
                Command::<W, Op>::SmoothFrequencyResponse(id, f),
            ])
        }),
{
    let before = old.state->analyses@;
    let after = new.state->analyses@;
    assert(analysing_in(old, crate::tab::Id::FrequencyResponses));
    assert(fr_stored(before, after, id, origin, curve));
    let a = choose|a: Analysis<I, F, L, D, G>|
        {
            &&& entry_changed(before, after, id, a)
            &&& after[id.0] == Analysis {
                frequency_response: FrequencyResponse {
                    state: Computation::Computed(Data { origin, base_smoothed: curve, smoothed: None }),
                    ..a.frequency_response
                },
                ..a
            }
        };
    assert(seq![Command::<W, Op>::ClearTabCache] + Seq::<Command<W, Op>>::empty() =~= seq![
        Command::<W, Op>::ClearTabCache,
    ]);
    if let Some(f) = smoothing_fraction(old.smoothing) {
        assert(seq![Command::<W, Op>::ClearTabCache] + seq![Command::<W, Op>::SmoothFrequencyResponse(id, f)]
            =~= seq![Command::<W, Op>::ClearTabCache, Command::<W, Op>::SmoothFrequencyResponse(id, f)]);
    }
}

/// A computed spectrogram is stored in the measurement's analysis (made
/// where missing), whatever tab is open; no other analysis changes, and the
/// chart is redrawn when it shows that measurement.
pub proof fn law_computed_spectrogram_is_stored<W: Clone, S, LB, LE, Op: Copy, I, F, L, D, G>(
    old: Main<W, S, LB, LE, Op, I, F, L, D, G>,
    new: Main<W, S, LB, LE, Op, I, F, L, D, G>,
    id: Id,
    spectrogram: G,
    r: Seq<Command<W, Op>>,
)
    requires
        spectrogram_computed_post(old, new, id, spectrogram, r),
        old.state is Analysing,
    ensures
        ({
            let before = old.state->analyses@;
            let after = new.state->analyses@;
            &&& new.state is Analysing
            &&& new.state->active_tab == old.state->active_tab
            &&& new.state->selected == old.state->selected
            &&& after.contains_key(id.0)
            &&& after.remove(id.0) == before.remove(id.0)
            &&& after[id.0].spectrogram.0 == Computation::Computed(spectrogram)
            &&& (before.contains_key(id.0) ==> {
                &&& after[id.0].impulse_response == before[id.0].impulse_response
                &&& after[id.0].frequency_response == before[id.0].frequency_response
                &&& after[id.0].spectral_decay == before[id.0].spectral_decay
            })
            &&& (old.state->selected == Some(id) ==> r == seq![
                Command::<W, Op>::ClearSpectrogramCache,
            ])
            &&& (old.state->selected != Some(id) ==> r.len() == 0)
        }),
{
    let before = old.state->analyses@;
    let after = new.state->analyses@;
    assert(sg_stored(before, after, id, spectrogram));
    let a = choose|a: Analysis<I, F, L, D, G>|
        entry_changed(before, after, id, a) && after[id.0] == (Analysis {
            spectrogram: Spectrogram(Computation::Computed(spectrogram)),
            ..a
        });
}

/// A computed spectral decay that comes in while the spectral-decay tab is
/// open is stored in the measurement's analysis, where it has one; no other
/// analysis changes and the chart is redrawn.
pub proof fn law_computed_spectral_decay_is_stored<W: Clone, S, LB, LE, Op: Copy, I, F, L, D, G>(
    old: Main<W, S, LB, LE, Op, I, F, L, D, G>,
    new: Main<W, S, LB, LE, Op, I, F, L, D, G>,
    id: Id,
    spectral_decay: D,
    r: Seq<Command<W, Op>>,
)
    requires
        spectral_decay_computed_post(old, new, id, spectral_decay, r),
        old.state is Analysing,
        old.state->active_tab is SpectralDecays,
        old.state->analyses@.contains_key(id.0),
    ensures
        ({
            let before = old.state->analyses@;
            let after = new.state->analyses@;
            &&& new.state is Analysing
            &&& new.state->active_tab is SpectralDecays
            &&& new.state->selected == old.state->selected
            &&& after.contains_key(id.0)
            &&& after.remove(id.0) == before.remove(id.0)
            &&& after[id.0].spectral_decay.0 == Computation::Computed(spectral_decay)
            &&& after[id.0].impulse_response == before[id.0].impulse_response
            &&& after[id.0].frequency_response == before[id.0].frequency_response
            &&& after[id.0].spectrogram == before[id.0].spectrogram
            &&& r == seq![Command::<W, Op>::ClearTabCache]
        }),
{
    assert(analysing_in(old, crate::tab::Id::SpectralDecays));
    assert(new.state->analyses@.remove(id.0) =~= old.state->analyses@.remove(id.0));
}

} // verus!
