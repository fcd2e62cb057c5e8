//! What the main screen does when a measurement is selected for analysis, when
//! an impulse response is to be saved, and when one has been computed.
use vstd::prelude::*;

use crate::analyses::{Analyses, Analysis, is_fresh};
use crate::analysis::Computation;
use crate::measurement::Id;
use crate::screen::{
    Command, Main, State, fr_request, inputs_ready, ir_request, request_frequency_response,
    request_impulse_response, request_spectral_decay, request_spectrogram, ready_for,
    same_settings, same_signals, sd_request, sg_request,
};
use crate::tab::Tab;

verus! {

/// Only the state of `old` may differ in `new`: the signals, the dialog and
/// the settings stay.
pub open spec fn only_state_changes<W, S, LB, LE, Op, I, F, L, D, G>(
    old: Main<W, S, LB, LE, Op, I, F, L, D, G>,
    new: Main<W, S, LB, LE, Op, I, F, L, D, G>,
) -> bool {
    &&& same_settings(old, new)
    &&& same_signals(old, new)
    &&& new.modal == old.modal
}

/// What the open tab `tab` asks for when the measurement `id` is selected in
/// it: the impulse response, the spectral decay or the spectrogram, with the
/// settings of `m`; the other tabs ask for nothing.
pub open spec fn selection_requests<W, S, LB, LE, Op, I, F, L, D, G>(
    m: Main<W, S, LB, LE, Op, I, F, L, D, G>,
    tab: Tab<W>,
    old: Map<usize, Analysis<I, F, L, D, G>>,
    new: Map<usize, Analysis<I, F, L, D, G>>,
    id: Id,
    cmds: Seq<Command<W, Op>>,
) -> bool {
    let ready = inputs_ready(m, id);
    match tab {
        Tab::ImpulseResponses { .. } => ir_request(old, new, id, ready, cmds),
        Tab::SpectralDecays => sd_request(old, new, id, ready, m.spectral_decay_config, cmds),
        Tab::Spectrograms => sg_request(old, new, id, ready, m.spectrogram_config, cmds),
        _ => new == old && cmds.len() == 0,
    }
}

/// What the open tab `tab` asks for once the impulse response of `id` has
/// come in: the frequency response through the window of `m`, the spectral
/// decay or the spectrogram; the other tabs ask for nothing.
pub open spec fn computed_requests<W: Clone, S, LB, LE, Op, I, F, L, D, G>(
    m: Main<W, S, LB, LE, Op, I, F, L, D, G>,
    tab: Tab<W>,
    old: Map<usize, Analysis<I, F, L, D, G>>,
    new: Map<usize, Analysis<I, F, L, D, G>>,
    id: Id,
    cmds: Seq<Command<W, Op>>,
) -> bool {
    let ready = inputs_ready(m, id);
    match tab {
        Tab::FrequencyResponses => fr_request(old, new, id, ready, m.window.unwrap(), cmds),
        Tab::SpectralDecays => sd_request(old, new, id, ready, m.spectral_decay_config, cmds),
        Tab::Spectrograms => sg_request(old, new, id, ready, m.spectrogram_config, cmds),
        _ => new == old && cmds.len() == 0,
    }
}

/// `new` is `old` where `id` has an analysis: the old one, or a fresh one
/// where there was none.
pub open spec fn entry_ensured<I, F, L, D, G>(
    old: Map<usize, Analysis<I, F, L, D, G>>,
    new: Map<usize, Analysis<I, F, L, D, G>>,
    id: Id,
) -> bool {
    &&& new.contains_key(id.0)
    &&& old.contains_key(id.0) ==> new == old
    &&& !old.contains_key(id.0) ==> new.remove(id.0) == old && is_fresh(new[id.0])
}

/// `old` after the impulse-response computation of `id` reported `ir`: the
/// result once done (`Some`), or that it is still under way (`None`); only
/// an existing analysis is changed.
pub open spec fn ir_stored<I, F, L, D, G>(
    old: Map<usize, Analysis<I, F, L, D, G>>,
    id: Id,
    ir: Option<I>,
) -> Map<usize, Analysis<I, F, L, D, G>> {
    if old.contains_key(id.0) {
        old.insert(
            id.0,
            Analysis {
                impulse_response: match ir {
                    Some(x) => Computation::Computed(x),
                    None => Computation::Computing,
                },
                ..old[id.0]
            },
        )
    } else {
        old
    }
}

/// `new` and `cmds` are what saving the impulse response of `id` to `path`
/// makes of `old`: a computed one is written; otherwise the analysis is made
/// where missing, the impulse response asked for, and the save tried again
/// after that.
pub open spec fn save_planned<W, Op, I, F, L, D, G>(
    old: Map<usize, Analysis<I, F, L, D, G>>,
    new: Map<usize, Analysis<I, F, L, D, G>>,
    id: Id,
    ready: bool,
    path: String,
    cmds: Seq<Command<W, Op>>,
) -> bool {
    if old.contains_key(id.0) && old[id.0].impulse_response is Computed {
        new == old && cmds == seq![Command::<W, Op>::SaveImpulseResponse(id, path)]
    } else {
        exists|mid: Map<usize, Analysis<I, F, L, D, G>>, requested: Seq<Command<W, Op>>|
            {
                &&& entry_ensured(old, mid, id)
                &&& ir_request(mid, new, id, ready, requested)
                &&& cmds == requested.push(Command::<W, Op>::RetrySaveImpulseResponse(id, path))
            }
    }
}

fn save_or_request<W, Op, I, F, L, D, G>(
    analyses: &mut Analyses<I, F, L, D, G>,
    id: Id,
    ready: bool,
    path: String,
) -> (r: Vec<Command<W, Op>>)
    ensures
        save_planned(old(analyses)@, final(analyses)@, id, ready, path, r@),
{
    let computed = match analyses.get(id) {
        Some(a) => a.impulse_response().is_some(),
        None => false,
    };
    if computed {
        let mut r = Vec::new();
        r.push(Command::SaveImpulseResponse(id, path));
        r
    } else {
        analyses.ensure_entry(id);
        let ghost mid = analyses@;
        let mut r = request_impulse_response(analyses, id, ready);
        let ghost requested = r@;
        r.push(Command::RetrySaveImpulseResponse(id, path));
        assert(entry_ensured(old(analyses)@, mid, id));
        assert(ir_request(mid, analyses@, id, ready, requested));
        r
    }
}

/// `new` and the jobs `r` are what `impulse_response_selected` makes of `old`.
pub open spec fn impulse_response_selected_post<W: Clone, S, LB, LE, Op: Copy, I, F, L, D, G>(
    old: Main<W, S, LB, LE, Op, I, F, L, D, G>,
    new: Main<W, S, LB, LE, Op, I, F, L, D, G>,
    id: Id,
    r: Seq<Command<W, Op>>,
) -> bool {
    &&& only_state_changes(old, new)
    &&& (match old.state {
            State::Collecting => new.state is Collecting && r.len() == 0,
            State::Analysing { active_tab, analyses, .. } => {
                &&& new.state matches State::Analysing {
                    active_tab: t2,
                    selected: s2,
                    analyses: a2,
                }
                &&& t2 == active_tab
                &&& s2 == Some(id)
                &&& r.len() >= 1
                &&& r[0] == Command::<W, Op>::ClearImpulseResponseDataCache
                &&& selection_requests(old, active_tab, analyses@, a2@, id, r.drop_first())
            },
        })
}

/// Selecting a measurement whose signals are loaded while the spectrogram tab
/// is open asks for its spectrogram. The tab stays open with the measurement
/// selected, and only its analysis changes: one is made where there was none.
/// A spectrogram not computed yet is then either being computed, the job
/// `ComputeSpectrogram` with the screen's settings being started, or waits
/// for the impulse response, whose computation is under way: started now
/// (`ComputeImpulseResponse`) unless it was already. With nothing computed
/// yet, the impulse response is what starts.
pub proof fn law_selection_asks_for_the_spectrogram<
    W: Clone,
    S,
    LB,
    LE,
    Op: Copy,
    I,
    F,
    L,
    D,
    G,
>(
    old: Main<W, S, LB, LE, Op, I, F, L, D, G>,
    new: Main<W, S, LB, LE, Op, I, F, L, D, G>,
    id: Id,
    r: Seq<Command<W, Op>>,
)
    requires
        impulse_response_selected_post(old, new, id, r),
        old.state is Analysing,
        old.state->active_tab is Spectrograms,
        inputs_ready(old, id),
    ensures
        ({
            let before = old.state->analyses@;
            let after = new.state->analyses@;
            let clear = Command::<W, Op>::ClearImpulseResponseDataCache;
            &&& new.state is Analysing
            &&& new.state->active_tab is Spectrograms
            &&& new.state->selected == Some(id)
            &&& after.contains_key(id.0)
            &&& after.remove(id.0) == before.remove(id.0)
            &&& (!before.contains_key(id.0) ==> {
                &&& r == seq![clear, Command::<W, Op>::ComputeImpulseResponse(id)]
                &&& after[id.0].impulse_response is Computing
                &&& after[id.0].spectrogram.0 is WaitingForImpulseResponse
            })
            &&& (before.contains_key(id.0) && before[id.0].impulse_response is Computed
                && !(before[id.0].spectrogram.0 is Computed) ==> {
                &&& r == seq![clear, Command::<W, Op>::ComputeSpectrogram(id, old.spectrogram_config)]
                &&& after[id.0].spectrogram.0 is Computing
            })
            &&& (!(before.contains_key(id.0) && before[id.0].spectrogram.0 is Computed) ==> {
                ||| {
                    &&& after[id.0].spectrogram.0 is Computing
                    &&& r == seq![clear, Command::<W, Op>::ComputeSpectrogram(id, old.spectrogram_config)]
                }
                ||| {
                    &&& after[id.0].spectrogram.0 is WaitingForImpulseResponse
                    &&& after[id.0].impulse_response is Computing
                    &&& {
                        ||| r == seq![clear, Command::<W, Op>::ComputeImpulseResponse(id)]
                        ||| r == seq![clear] && before.contains_key(id.0)
                            && before[id.0].impulse_response is Computing
                    }
                }
            })
            &&& (before.contains_key(id.0) && before[id.0].spectrogram.0 is Computed
                ==> after[id.0].spectrogram == before[id.0].spectrogram)
        }),
{
    let before_map = old.state->analyses@;
    let after_map = new.state->analyses@;
    let cmds = r.drop_first();
    let ready = inputs_ready(old, id);
    assert(sg_request(before_map, after_map, id, ready, old.spectrogram_config, cmds));
    let (a, start) = choose|a: Analysis<I, F, L, D, G>, start: crate::analyses::Start|
        {
            &&& crate::analyses::entry_changed(before_map, after_map, id, a)
            &&& crate::analyses::sg_requested(a, after_map[id.0], ready, start)
            &&& cmds == crate::screen::start_commands(
                start,
                id,
                Command::<W, Op>::ComputeSpectrogram(id, old.spectrogram_config),
            )
        };
    assert(r =~= seq![Command::<W, Op>::ClearImpulseResponseDataCache].add(cmds));
    assert(seq![Command::<W, Op>::ClearImpulseResponseDataCache].add(Seq::<Command<W, Op>>::empty())
        =~= seq![Command::<W, Op>::ClearImpulseResponseDataCache]);
    assert(seq![Command::<W, Op>::ClearImpulseResponseDataCache].add(
        seq![Command::<W, Op>::ComputeImpulseResponse(id)],
    ) =~= seq![Command::<W, Op>::ClearImpulseResponseDataCache, Command::<W, Op>::ComputeImpulseResponse(id)]);
    assert(seq![Command::<W, Op>::ClearImpulseResponseDataCache].add(
        seq![Command::<W, Op>::ComputeSpectrogram(id, old.spectrogram_config)],
    ) =~= seq![
        Command::<W, Op>::ClearImpulseResponseDataCache,
        Command::<W, Op>::ComputeSpectrogram(id, old.spectrogram_config),
    ]);
}

/// Selecting a measurement whose signals are loaded while the spectral-decay
/// tab is open asks for its spectral decay, as the spectrogram tab asks for
/// the spectrogram: a spectral decay not computed yet is then being computed
/// (`ComputeSpectralDecay` with the screen's settings) or waits for the
/// impulse response, whose computation is under way.
pub proof fn law_selection_asks_for_the_spectral_decay<
    W: Clone,
    S,
    LB,
    LE,
    Op: Copy,
    I,
    F,
    L,
    D,
    G,
>(
    old: Main<W, S, LB, LE, Op, I, F, L, D, G>,
    new: Main<W, S, LB, LE, Op, I, F, L, D, G>,
    id: Id,
    r: Seq<Command<W, Op>>,
)
    requires
        impulse_response_selected_post(old, new, id, r),
        old.state is Analysing,
        old.state->active_tab is SpectralDecays,
        inputs_ready(old, id),
    ensures
        ({
            let before = old.state->analyses@;
            let after = new.state->analyses@;
            let clear = Command::<W, Op>::ClearImpulseResponseDataCache;
            let job = Command::<W, Op>::ComputeSpectralDecay(id, old.spectral_decay_config);
            &&& new.state is Analysing
            &&& new.state->active_tab is SpectralDecays
            &&& new.state->selected == Some(id)
            &&& after.contains_key(id.0)
            &&& after.remove(id.0) == before.remove(id.0)
            &&& (!before.contains_key(id.0) ==> {
                &&& r == seq![clear, Command::<W, Op>::ComputeImpulseResponse(id)]
                &&& after[id.0].impulse_response is Computing
                &&& after[id.0].spectral_decay.0 is WaitingForImpulseResponse
            })
            &&& (before.contains_key(id.0) && before[id.0].impulse_response is Computed
                && !(before[id.0].spectral_decay.0 is Computed) ==> {
                &&& r == seq![clear, job]
                &&& after[id.0].spectral_decay.0 is Computing
            })
            &&& (!(before.contains_key(id.0) && before[id.0].spectral_decay.0 is Computed) ==> {
                ||| after[id.0].spectral_decay.0 is Computing && r == seq![clear, job]
                ||| {
                    &&& after[id.0].spectral_decay.0 is WaitingForImpulseResponse
                    &&& after[id.0].impulse_response is Computing
                    &&& {
                        ||| r == seq![clear, Command::<W, Op>::ComputeImpulseResponse(id)]
                        ||| r == seq![clear] && before.contains_key(id.0)
                            && before[id.0].impulse_response is Computing
                    }
                }
            })
            &&& (before.contains_key(id.0) && before[id.0].spectral_decay.0 is Computed
                ==> after[id.0].spectral_decay == before[id.0].spectral_decay)
        }),
{
    let before_map = old.state->analyses@;
    let after_map = new.state->analyses@;
    let cmds = r.drop_first();
    let ready = inputs_ready(old, id);
    let job = Command::<W, Op>::ComputeSpectralDecay(id, old.spectral_decay_config);
    let clear = Command::<W, Op>::ClearImpulseResponseDataCache;
    assert(sd_request(before_map, after_map, id, ready, old.spectral_decay_config, cmds));
    let (a, start) = choose|a: Analysis<I, F, L, D, G>, start: crate::analyses::Start|
        {
            &&& crate::analyses::entry_changed(before_map, after_map, id, a)
            &&& crate::analyses::sd_requested(a, after_map[id.0], ready, start)
            &&& cmds == crate::screen::start_commands(start, id, job)
        };
    assert(r =~= seq![clear].add(cmds));
    assert(seq![clear].add(Seq::<Command<W, Op>>::empty()) =~= seq![clear]);
    assert(seq![clear].add(seq![Command::<W, Op>::ComputeImpulseResponse(id)]) =~= seq![
        clear,
        Command::<W, Op>::ComputeImpulseResponse(id),
    ]);
    assert(seq![clear].add(seq![job]) =~= seq![clear, job]);
}

/// Selecting a measurement while the impulse-response tab is open asks for
/// its impulse response: with its signals loaded, the measurement then has an
/// analysis whose impulse response is computed or being computed, and the
/// job `ComputeImpulseResponse` starts exactly where it was neither; with its
/// signals missing, nothing is asked for.
pub proof fn law_selection_asks_for_the_impulse_response<
    W: Clone,
    S,
    LB,
    LE,
    Op: Copy,
    I,
    F,
    L,
    D,
    G,
>(
    old: Main<W, S, LB, LE, Op, I, F, L, D, G>,
    new: Main<W, S, LB, LE, Op, I, F, L, D, G>,
    id: Id,
    r: Seq<Command<W, Op>>,
)
    requires
        impulse_response_selected_post(old, new, id, r),
        old.state is Analysing,
        old.state->active_tab is ImpulseResponses,
    ensures
        ({
            let before = old.state->analyses@;
            let after = new.state->analyses@;
            let clear = Command::<W, Op>::ClearImpulseResponseDataCache;
            let idle = !before.contains_key(id.0) || !(before[id.0].impulse_response is Computed
                || before[id.0].impulse_response is Computing);
            &&& new.state is Analysing
            &&& new.state->active_tab == old.state->active_tab
            &&& new.state->selected == Some(id)
            &&& (!inputs_ready(old, id) ==> after == before && r == seq![clear])
            &&& (inputs_ready(old, id) ==> {
                &&& after.contains_key(id.0)
                &&& after.remove(id.0) == before.remove(id.0)
                &&& (after[id.0].impulse_response is Computed || after[id.0].impulse_response
                    is Computing)
                &&& (idle ==> r == seq![clear, Command::<W, Op>::ComputeImpulseResponse(id)])
                &&& (!idle ==> r == seq![clear] && after[id.0] == before[id.0])
            })
        }),
{
    let before_map = old.state->analyses@;
    let after_map = new.state->analyses@;
    let cmds = r.drop_first();
    let ready = inputs_ready(old, id);
    let clear = Command::<W, Op>::ClearImpulseResponseDataCache;
    assert(ir_request(before_map, after_map, id, ready, cmds));
    assert(r =~= seq![clear].add(cmds));
    assert(seq![clear].add(Seq::<Command<W, Op>>::empty()) =~= seq![clear]);
    assert(seq![clear].add(seq![Command::<W, Op>::ComputeImpulseResponse(id)]) =~= seq![
        clear,
        Command::<W, Op>::ComputeImpulseResponse(id),
    ]);
    if ready {
        let (a, started) = choose|a: Analysis<I, F, L, D, G>, started: bool|
            {
                &&& crate::analyses::entry_changed(before_map, after_map, id, a)
                &&& crate::analyses::ir_requested(a, after_map[id.0], started)
                &&& cmds == crate::screen::ir_commands::<W, Op>(started, id)
            };
    }
}

/// `new` and the jobs `r` are what `impulse_response_save_requested` makes of `old`.
pub open spec fn impulse_response_save_requested_post<W: Clone, S, LB, LE, Op: Copy, I, F, L, D, G>(
    old: Main<W, S, LB, LE, Op, I, F, L, D, G>,
    new: Main<W, S, LB, LE, Op, I, F, L, D, G>,
    id: Id,
    r: Seq<Command<W, Op>>,
) -> bool {
    &&& (r == (if old.state is Analysing {
            seq![Command::<W, Op>::ChooseImpulseResponseFile(id)]
        } else {
            Seq::empty()
        }))
}

/// `new` and the jobs `r` are what `save_impulse_response_to_file` makes of `old`.
pub open spec fn save_impulse_response_to_file_post<W: Clone, S, LB, LE, Op: Copy, I, F, L, D, G>(
    old: Main<W, S, LB, LE, Op, I, F, L, D, G>,
    new: Main<W, S, LB, LE, Op, I, F, L, D, G>,
    id: Id,
    path: Option<String>,
    r: Seq<Command<W, Op>>,
) -> bool {
    &&& only_state_changes(old, new)
    &&& ((path is None || old.state is Collecting) ==> new.state == old.state && r.len() == 0)
    &&& (path matches Some(p) ==> (old.state matches State::Analysing {
            active_tab,
            selected,
            analyses,
        } ==> {
            &&& new.state matches State::Analysing {
                active_tab: t2,
                selected: s2,
                analyses: a2,
            }
            &&& t2 == active_tab
            &&& s2 == selected
            &&& save_planned(analyses@, a2@, id, inputs_ready(old, id), p, r)
        }))
}

impl<W: Clone, S, LB, LE, Op: Copy, I, F, L, D, G> Main<W, S, LB, LE, Op, I, F, L, D, G> {
    /// Selects the measurement `id` for analysis: the open tab starts what it
    /// shows of it.
    pub fn impulse_response_selected(&mut self, id: Id) -> (r: Vec<Command<W, Op>>)
        ensures
            impulse_response_selected_post(*old(self), *final(self), id, r@),
    {
        let ready = ready_for(&self.loopback, &self.measurements, id);
        let sd_config = self.spectral_decay_config;
        let sg_config = self.spectrogram_config;
        match &mut self.state {
            State::Collecting => Vec::new(),
            State::Analysing { active_tab, selected, analyses } => {
                *selected = Some(id);
                let mut more = match active_tab {
                    Tab::ImpulseResponses { .. } => request_impulse_response(analyses, id, ready),
                    Tab::SpectralDecays => request_spectral_decay(analyses, id, ready, sd_config),
                    Tab::Spectrograms => request_spectrogram(analyses, id, ready, sg_config),
                    _ => Vec::new(),
                };
                let ghost requested = more@;
                let mut r = Vec::new();
                r.push(Command::ClearImpulseResponseDataCache);
                r.append(&mut more);
                assert(r@.drop_first() =~= requested);
                r
            },
        }
    }

    /// The user wants to save the impulse response of `id`: ask where.
    pub fn impulse_response_save_requested(&self, id: Id) -> (r: Vec<Command<W, Op>>)
        ensures
            impulse_response_save_requested_post(*self, *self, id, r@),
    {
        let mut r = Vec::new();
        if let State::Analysing { .. } = self.state {
            r.push(Command::ChooseImpulseResponseFile(id));
        }
        r
    }

    /// Saves the impulse response of `id` to the chosen file (none where the
    /// user cancelled); one not computed yet is asked for first, and the save
    /// is tried again after that.
    pub fn save_impulse_response_to_file(&mut self, id: Id, path: Option<String>) -> (r: Vec<
        Command<W, Op>,
    >)
        ensures
            save_impulse_response_to_file_post(*old(self), *final(self), id, path, r@),
    {
        let ready = ready_for(&self.loopback, &self.measurements, id);
        let p = match path {
            Some(p) => p,
            None => return Vec::new(),
        };
        match &mut self.state {
            State::Collecting => Vec::new(),
            State::Analysing { analyses, .. } => save_or_request(analyses, id, ready, p),
        }
    }
}

/// `new` and the jobs `r` are what `impulse_response_computed` makes of `old`.
pub open spec fn impulse_response_computed_post<W: Clone, S, LB, LE, Op: Copy, I, F, L, D, G>(
    old: Main<W, S, LB, LE, Op, I, F, L, D, G>,
    new: Main<W, S, LB, LE, Op, I, F, L, D, G>,
    id: Id,
    impulse_response: Option<I>,
    r: Seq<Command<W, Op>>,
) -> bool {
    &&& only_state_changes(old, new)
    &&& (match old.state {
            State::Collecting => new.state is Collecting && r.len() == 0,
            State::Analysing { active_tab, selected, analyses } => {
                &&& new.state matches State::Analysing {
                    active_tab: t2,
                    selected: s2,
                    analyses: a2,
                }
                &&& t2 == active_tab
                &&& s2 == selected
                &&& computed_requests(
                    old,
                    active_tab,
                    ir_stored(analyses@, id, impulse_response),
                    a2@,
                    id,
                    r,
                )
            },
        })
}

/// Once the impulse response of a measurement with an analysis comes in, it
/// is stored, and the open tab starts what it shows from it: the frequency
/// response through the window in use, the spectral decay or the
/// spectrogram, with the screen's settings, unless that is computed already.
/// The other tabs start nothing, and no other analysis changes.
pub proof fn law_computed_impulse_response_starts_the_open_tab<
    W: Clone,
    S,
    LB,
    LE,
    Op: Copy,
    I,
    F,
    L,
    D,
    G,
>(
    old: Main<W, S, LB, LE, Op, I, F, L, D, G>,
    new: Main<W, S, LB, LE, Op, I, F, L, D, G>,
    id: Id,
    impulse_response: I,
    r: Seq<Command<W, Op>>,
)
    requires
        impulse_response_computed_post(old, new, id, Some(impulse_response), r),
        old.state is Analysing,
        old.state->analyses@.contains_key(id.0),
    ensures
        ({
            let tab = old.state->active_tab;
            let before = old.state->analyses@[id.0];
            let after_map = new.state->analyses@;
            let after = after_map[id.0];
            &&& new.state is Analysing
            &&& new.state->active_tab == tab
            &&& new.state->selected == old.state->selected
            &&& after_map.contains_key(id.0)
            &&& after_map.remove(id.0) == old.state->analyses@.remove(id.0)
            &&& after.impulse_response == Computation::Computed(impulse_response)
            &&& (tab is Spectrograms ==> if before.spectrogram.0 is Computed {
                r.len() == 0 && after.spectrogram == before.spectrogram
            } else {
                &&& after.spectrogram.0 is Computing
                &&& r == seq![Command::<W, Op>::ComputeSpectrogram(id, old.spectrogram_config)]
            })
            &&& (tab is SpectralDecays ==> if before.spectral_decay.0 is Computed {
                r.len() == 0 && after.spectral_decay == before.spectral_decay
            } else {
                &&& after.spectral_decay.0 is Computing
                &&& r == seq![Command::<W, Op>::ComputeSpectralDecay(id, old.spectral_decay_config)]
            })
            &&& (tab is FrequencyResponses ==> if before.frequency_response.state is Computed {
                r.len() == 0 && after.frequency_response == before.frequency_response
            } else {
                &&& after.frequency_response.state is Computing
                &&& r.len() == 1
                &&& r[0] matches Command::ComputeFrequencyResponse(i, w) && i == id && cloned(
                    old.window.unwrap(),
                    w,
                )
            })
            &&& (tab is Measurements || tab is ImpulseResponses ==> r.len() == 0 && after == Analysis {
                impulse_response: Computation::Computed(impulse_response),
                ..before
            })
        }),
{
    let tab = old.state->active_tab;
    let stored = ir_stored(old.state->analyses@, id, Some(impulse_response));
    let after_map = new.state->analyses@;
    let ready = inputs_ready(old, id);
    assert(computed_requests(old, tab, stored, after_map, id, r));
    match tab {
        Tab::Spectrograms => {
            let (a, start) = choose|a: Analysis<I, F, L, D, G>, start: crate::analyses::Start|
                {
                    &&& crate::analyses::entry_changed(stored, after_map, id, a)
                    &&& crate::analyses::sg_requested(a, after_map[id.0], ready, start)
                    &&& r == crate::screen::start_commands(
                        start,
                        id,
                        Command::<W, Op>::ComputeSpectrogram(id, old.spectrogram_config),
                    )
                };
            assert(after_map.remove(id.0) =~= old.state->analyses@.remove(id.0));
        },
        Tab::SpectralDecays => {
            let (a, start) = choose|a: Analysis<I, F, L, D, G>, start: crate::analyses::Start|
                {
                    &&& crate::analyses::entry_changed(stored, after_map, id, a)
                    &&& crate::analyses::sd_requested(a, after_map[id.0], ready, start)
                    &&& r == crate::screen::start_commands(
                        start,
                        id,
                        Command::<W, Op>::ComputeSpectralDecay(id, old.spectral_decay_config),
                    )
                };
            assert(after_map.remove(id.0) =~= old.state->analyses@.remove(id.0));
        },
        Tab::FrequencyResponses => {
            let window = old.window.unwrap();
            let (a, start) = choose|a: Analysis<I, F, L, D, G>, start: crate::analyses::Start|
                {
                    &&& crate::analyses::entry_changed(stored, after_map, id, a)
                    &&& crate::analyses::fr_requested(a, after_map[id.0], ready, start)
                    &&& crate::screen::fr_start_commands(start, id, window, r)
                };
            assert(after_map.remove(id.0) =~= old.state->analyses@.remove(id.0));
        },
        _ => {
            assert(after_map.remove(id.0) =~= old.state->analyses@.remove(id.0));
        },
    }
}

impl<W: Clone, S, LB, LE, Op: Copy, I, F, L, D, G> Main<W, S, LB, LE, Op, I, F, L, D, G> {
    /// Stores what the impulse-response computation of `id` reported; the
    /// open tab then asks for what it shows of `id`.
    pub fn impulse_response_computed(&mut self, id: Id, impulse_response: Option<I>) -> (r: Vec<
        Command<W, Op>,
    >)
        requires
            old(self).state matches State::Analysing { active_tab, .. } && active_tab
                is FrequencyResponses ==> old(self).window is Some,
        ensures
            impulse_response_computed_post(*old(self), *final(self), id, impulse_response, r@),
    {
        let ready = ready_for(&self.loopback, &self.measurements, id);
        let sd_config = self.spectral_decay_config;
        let sg_config = self.spectrogram_config;
        match &mut self.state {
            State::Collecting => Vec::new(),
            State::Analysing { active_tab, analyses, .. } => {
                analyses.set_impulse_response(id, impulse_response);
                match active_tab {
                    Tab::FrequencyResponses => match &self.window {
                        Some(window) => request_frequency_response(analyses, id, ready, window),
                        None => Vec::new(),
                    },
                    Tab::SpectralDecays => request_spectral_decay(analyses, id, ready, sd_config),
                    Tab::Spectrograms => request_spectrogram(analyses, id, ready, sg_config),
                    _ => Vec::new(),
                }
            },
        }
    }
}

} // verus!
