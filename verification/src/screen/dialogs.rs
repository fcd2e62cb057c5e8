//! The dialogs of the main screen that configure spectral decays and
//! spectrograms: opening them, and what their answers change.
use vstd::prelude::*;

use crate::analyses::Analysis;
use crate::analysis::Computation;
use crate::measurement::Id;
use crate::modal::Modal;
use crate::screen::{
    Command, Main, State, inputs_ready, ready_for, request_spectral_decay, same_signals, sd_request,
};
use crate::spectral_decay::SpectralDecay;
use crate::spectral_decay_config;
use crate::spectrogram::Spectrogram;
use crate::spectrogram_config::{self, Config, SpectrogramConfig};
use crate::decimal::decimal;

verus! {

/// Every analysis of `m` with its spectral decay forgotten.
pub open spec fn without_spectral_decays<I, F, L, D, G>(m: Map<usize, Analysis<I, F, L, D, G>>) -> Map<
    usize,
    Analysis<I, F, L, D, G>,
> {
    Map::new(
        |k: usize| m.contains_key(k),
        |k: usize| Analysis { spectral_decay: SpectralDecay(Computation::Idle), ..m[k] },
    )
}

/// Every analysis of `m` with its spectrogram forgotten.
pub open spec fn without_spectrograms<I, F, L, D, G>(m: Map<usize, Analysis<I, F, L, D, G>>) -> Map<
    usize,
    Analysis<I, F, L, D, G>,
> {
    Map::new(
        |k: usize| m.contains_key(k),
        |k: usize| Analysis { spectrogram: Spectrogram(Computation::Idle), ..m[k] },
    )
}

/// `new` is `old` with the settings allowed to differ in their spectral
/// decay and spectrogram configurations only.
pub open spec fn other_settings_kept<W, S, LB, LE, Op, I, F, L, D, G>(
    old: Main<W, S, LB, LE, Op, I, F, L, D, G>,
    new: Main<W, S, LB, LE, Op, I, F, L, D, G>,
) -> bool {
    &&& new.project_path == old.project_path
    &&& new.measurement_operation == old.measurement_operation
    &&& new.export_from_memory == old.export_from_memory
    &&& new.smoothing == old.smoothing
    &&& new.default_operation == old.default_operation
    &&& new.default_spectral_decay_config == old.default_spectral_decay_config
    &&& new.offset == old.offset
    &&& new.spectrogram_offset == old.spectrogram_offset
}

/// Whether the spectrogram of `id` starts anew once its settings change:
/// `id` has an analysis whose spectrogram is not done and whose impulse
/// response is.
pub open spec fn spectrogram_restarts<I, F, L, D, G>(
    analyses: Map<usize, Analysis<I, F, L, D, G>>,
    id: Id,
) -> bool {
    &&& analyses.contains_key(id.0)
    &&& !(analyses[id.0].spectrogram.0 is Computed)
    &&& analyses[id.0].impulse_response is Computed
}

/// `new` is what `open_spectral_decay_config` makes of `old`.
pub open spec fn open_spectral_decay_config_post<W: Clone, S, LB, LE, Op: Copy, I, F, L, D, G>(
    old: Main<W, S, LB, LE, Op, I, F, L, D, G>,
    new: Main<W, S, LB, LE, Op, I, F, L, D, G>,
) -> bool {
    &&& (new.modal matches Modal::SpectralDecayConfig(d) && {
            &&& d.shift_text() == decimal(old.spectral_decay_config.shift.millis())
            &&& d.left_window_width_text() == decimal(
                old.spectral_decay_config.left_window_width.millis(),
            )
            &&& d.right_window_width_text() == decimal(
                old.spectral_decay_config.right_window_width.millis(),
            )
        })
    &&& new.state == old.state
    &&& other_settings_kept(old, new)
    &&& new.spectral_decay_config == old.spectral_decay_config
    &&& new.spectrogram_config == old.spectrogram_config
    &&& same_signals(old, new)
}

/// `new` is what `open_spectrogram_config` makes of `old`.
pub open spec fn open_spectrogram_config_post<W: Clone, S, LB, LE, Op: Copy, I, F, L, D, G>(
    old: Main<W, S, LB, LE, Op, I, F, L, D, G>,
    new: Main<W, S, LB, LE, Op, I, F, L, D, G>,
) -> bool {
    &&& (new.modal matches Modal::SpectrogramConfig(d) && d.shows(
            old.spectrogram_config,
        ) && d.previous() == old.spectrogram_config)
    &&& new.state == old.state
    &&& other_settings_kept(old, new)
    &&& new.spectral_decay_config == old.spectral_decay_config
    &&& new.spectrogram_config == old.spectrogram_config
    &&& same_signals(old, new)
}

/// `new` and the jobs `r` are what `spectral_decay_config_message` makes of `old`.
pub open spec fn spectral_decay_config_message_post<W: Clone, S, LB, LE, Op: Copy, I, F, L, D, G>(
    old: Main<W, S, LB, LE, Op, I, F, L, D, G>,
    new: Main<W, S, LB, LE, Op, I, F, L, D, G>,
    message: spectral_decay_config::Message,
    r: Seq<Command<W, Op>>,
) -> bool {
    &&& same_signals(old, new)
    &&& other_settings_kept(old, new)
    &&& new.spectrogram_config == old.spectrogram_config
    &&& (!(old.modal is SpectralDecayConfig && old.state is Analysing) ==> {
            &&& new == old
            &&& r.len() == 0
        })
    &&& (old.modal matches Modal::SpectralDecayConfig(d) ==> (old.state matches State::Analysing {
            active_tab,
            selected,
            analyses,
        } ==> exists|d2: spectral_decay_config::Config, a: Option<spectral_decay_config::Action>|
            {
                &&& spectral_decay_config::update_post(d, d2, message, a)
                &&& match a {
                    None => {
                        &&& new.modal == Modal::<Op>::SpectralDecayConfig(d2)
                        &&& new.state == old.state
                        &&& new.spectral_decay_config == old.spectral_decay_config
                        &&& r.len() == 0
                    },
                    Some(spectral_decay_config::Action::Discard) => {
                        &&& new.modal is Closed
                        &&& new.state == old.state
                        &&& new.spectral_decay_config == old.spectral_decay_config
                        &&& r.len() == 0
                    },
                    Some(spectral_decay_config::Action::Apply(p)) => {
                        let reset = without_spectral_decays(analyses@);
                        &&& new.modal is Closed
                        &&& new.spectral_decay_config == p
                        &&& new.state matches State::Analysing {
                            active_tab: t2,
                            selected: s2,
                            analyses: a2,
                        }
                        &&& t2 == active_tab
                        &&& s2 == selected
                        &&& match selected {
                            Some(id) => sd_request(reset, a2@, id, inputs_ready(old, id), p, r),
                            None => a2@ == reset && r.len() == 0,
                        }
                    },
                }
            }))
}

/// `new` and the jobs `r` are what `spectrogram_config_message` makes of `old`.
pub open spec fn spectrogram_config_message_post<W: Clone, S, LB, LE, Op: Copy, I, F, L, D, G>(
    old: Main<W, S, LB, LE, Op, I, F, L, D, G>,
    new: Main<W, S, LB, LE, Op, I, F, L, D, G>,
    message: spectrogram_config::Message,
    r: Seq<Command<W, Op>>,
) -> bool {
    &&& same_signals(old, new)
    &&& other_settings_kept(old, new)
    &&& new.spectral_decay_config == old.spectral_decay_config
    &&& (!(old.modal is SpectrogramConfig && old.state is Analysing) ==> {
            &&& new == old
            &&& r.len() == 0
        })
    &&& (old.modal matches Modal::SpectrogramConfig(d) ==> (old.state matches State::Analysing {
            active_tab,
            selected,
            analyses,
        } ==> exists|d2: SpectrogramConfig, a: spectrogram_config::Action|
            {
                &&& spectrogram_config::update_post(d, d2, message, a)
                &&& d2.previous() == d.previous()
                &&& match a {
                    spectrogram_config::Action::Nothing => {
                        &&& new.modal == Modal::<Op>::SpectrogramConfig(d2)
                        &&& new.state == old.state
                        &&& new.spectrogram_config == old.spectrogram_config
                        &&& r.len() == 0
                    },
                    spectrogram_config::Action::Close => {
                        &&& new.modal is Closed
                        &&& new.state == old.state
                        &&& new.spectrogram_config == old.spectrogram_config
                        &&& r.len() == 0
                    },
                    spectrogram_config::Action::ConfigChanged(p) => {
                        &&& new.modal is Closed
                        &&& new.spectrogram_config == p
                        &&& new.state matches State::Analysing {
                            active_tab: t2,
                            selected: s2,
                            analyses: a2,
                        }
                        &&& t2 == active_tab
                        &&& s2 == selected
                        &&& a2@ == without_spectrograms(analyses@)
                        &&& r == (if selected matches Some(id) && spectrogram_restarts(
                            analyses@,
                            id,
                        ) {
                            seq![Command::<W, Op>::ComputeSpectrogram(selected.unwrap(), p)]
                        } else {
                            Seq::empty()
                        })
                    },
                }
            }))
}

/// An answer in the spectral-decay dialog either changes nothing, or closes
/// the dialog; where it applies settings, every spectral decay computed with
/// the settings before is forgotten (everything else of the analyses stays),
/// and the selected measurement, its signals loaded, has its spectral decay
/// asked for anew: being computed with the settings now in use, or waiting
/// for its impulse response, whose computation is under way.
pub proof fn law_applied_spectral_decay_settings_recompute<
    W: Clone,
    S,
    LB,
    LE,
    Op: Copy,
    I,
    F,
    L,
    D,
    G,
>(
    old: Main<W, S, LB, LE, Op, I, F, L, D, G>,
    new: Main<W, S, LB, LE, Op, I, F, L, D, G>,
    message: spectral_decay_config::Message,
    r: Seq<Command<W, Op>>,
)
    requires
        spectral_decay_config_message_post(old, new, message, r),
        old.modal is SpectralDecayConfig,
        old.state is Analysing,
    ensures
        new.state is Analysing,
        new.state->active_tab == old.state->active_tab,
        new.state->selected == old.state->selected,
        ({
            let before = old.state->analyses@;
            let after = new.state->analyses@;
            let selected = old.state->selected;
            ||| {
                &&& new.state == old.state
                &&& new.spectral_decay_config == old.spectral_decay_config
                &&& r.len() == 0
            }
            ||| {
                &&& new.modal is Closed
                &&& forall|k: usize| #[trigger] before.contains_key(k) ==> after.contains_key(k)
                &&& forall|k: usize|
                    #[trigger] after.contains_key(k) && selected != Some(Id(k)) ==> {
                        &&& before.contains_key(k)
                        &&& after[k] == Analysis {
                            spectral_decay: SpectralDecay(Computation::Idle),
                            ..before[k]
                        }
                    }
                &&& (selected is None ==> r.len() == 0)
                &&& (selected is Some && inputs_ready(old, selected->0) ==> {
                    let id = selected->0;
                    &&& after.contains_key(id.0)
                    &&& !(after[id.0].spectral_decay.0 is Idle)
                    &&& !(after[id.0].spectral_decay.0 is Computed)
                    &&& (after[id.0].spectral_decay.0 is Computing ==> r == seq![
                        Command::<W, Op>::ComputeSpectralDecay(id, new.spectral_decay_config),
                    ])
                    &&& (after[id.0].spectral_decay.0 is WaitingForImpulseResponse
                        ==> after[id.0].impulse_response is Computing)
                })
            }
        }),
{
    let d = old.modal->SpectralDecayConfig_0;
    let before = old.state->analyses@;
    let after = new.state->analyses@;
    let selected = old.state->selected;
    let (d2, a) = choose|d2: spectral_decay_config::Config, a: Option<spectral_decay_config::Action>|
        {
            &&& spectral_decay_config::update_post(d, d2, message, a)
            &&& match a {
                None => {
                    &&& new.modal == Modal::<Op>::SpectralDecayConfig(d2)
                    &&& new.state == old.state
                    &&& new.spectral_decay_config == old.spectral_decay_config
                    &&& r.len() == 0
                },
                Some(spectral_decay_config::Action::Discard) => {
                    &&& new.modal is Closed
                    &&& new.state == old.state
                    &&& new.spectral_decay_config == old.spectral_decay_config
                    &&& r.len() == 0
                },
                Some(spectral_decay_config::Action::Apply(p)) => {
                    let reset = without_spectral_decays(before);
                    &&& new.modal is Closed
                    &&& new.spectral_decay_config == p
                    &&& new.state matches State::Analysing {
                        active_tab: t2,
                        selected: s2,
                        analyses: a2,
                    }
                    &&& t2 == old.state->active_tab
                    &&& s2 == selected
                    &&& match selected {
                        Some(id) => sd_request(reset, a2@, id, inputs_ready(old, id), p, r),
                        None => a2@ == reset && r.len() == 0,
                    }
                },
            }
        };
    if let Some(spectral_decay_config::Action::Apply(p)) = a {
        let reset = without_spectral_decays(before);
        if let Some(id) = selected {
            let ready = inputs_ready(old, id);
            let (b, start) = choose|b: Analysis<I, F, L, D, G>, start: crate::analyses::Start|
                {
                    &&& crate::analyses::entry_changed(reset, after, id, b)
                    &&& crate::analyses::sd_requested(b, after[id.0], ready, start)
                    &&& r == crate::screen::start_commands(
                        start,
                        id,
                        Command::<W, Op>::ComputeSpectralDecay(id, p),
                    )
                };
            assert forall|k: usize| #[trigger] before.contains_key(k) implies after.contains_key(k) by {
                if k != id.0 {
                    assert(after.remove(id.0).contains_key(k));
                }
            }
            assert forall|k: usize| #[trigger] after.contains_key(k) && selected != Some(Id(k)) implies {
                &&& before.contains_key(k)
                &&& after[k] == Analysis {
                    spectral_decay: SpectralDecay(Computation::Idle),
                    ..before[k]
                }
            } by {
                assert(k != id.0);
                assert(after.remove(id.0).contains_key(k));
                assert(after.remove(id.0)[k] == reset.remove(id.0)[k]);
            }
        }
    }
}

impl<W: Clone, S, LB, LE, Op: Copy, I, F, L, D, G> Main<W, S, LB, LE, Op, I, F, L, D, G> {
    /// Opens the spectral-decay dialog on the settings in use.
    pub fn open_spectral_decay_config(&mut self)
        ensures
            open_spectral_decay_config_post(*old(self), *final(self)),
    {
        self.modal = Modal::SpectralDecayConfig(
            spectral_decay_config::Config::new(&self.spectral_decay_config),
        );
    }

    /// Opens the spectrogram dialog on the settings in use.
    pub fn open_spectrogram_config(&mut self)
        ensures
            open_spectrogram_config_post(*old(self), *final(self)),
    {
        self.modal = Modal::SpectrogramConfig(SpectrogramConfig::new(self.spectrogram_config));
    }

    /// Hands a message to the spectral-decay dialog, where it is open while
    /// the screen analyses: an applied configuration replaces the one in use,
    /// every spectral decay is forgotten, and the selected measurement's is
    /// asked for anew.
    pub fn spectral_decay_config_message(&mut self, message: spectral_decay_config::Message) -> (r:
        Vec<Command<W, Op>>)
        ensures
            spectral_decay_config_message_post(*old(self), *final(self), message, r@),
    {
        if let State::Collecting = self.state {
            return Vec::new();
        }
        let ready = match &self.state {
            State::Analysing { selected: Some(id), .. } => ready_for(&self.loopback, &self.measurements, *id),
            _ => false,
        };
        let action = match &mut self.modal {
            Modal::SpectralDecayConfig(dialog) => dialog.update(message),
            _ => return Vec::new(),
        };
        match action {
            None => Vec::new(),
            Some(spectral_decay_config::Action::Discard) => {
                self.modal = Modal::Closed;
                Vec::new()
            },
            Some(spectral_decay_config::Action::Apply(p)) => {
                self.modal = Modal::Closed;
                self.spectral_decay_config = p;
                match &mut self.state {
                    State::Analysing { selected, analyses, .. } => {
                        let ghost before = analyses@;
                        analyses.reset_spectral_decays_all();
                        assert(analyses@ =~= without_spectral_decays(before));
                        match selected {
                            Some(id) => request_spectral_decay(analyses, *id, ready, p),
                            None => Vec::new(),
                        }
                    },
                    State::Collecting => Vec::new(),
                }
            },
        }
    }

    /// Hands a message to the spectrogram dialog, where it is open while the
    /// screen analyses: a changed configuration replaces the one in use and
    /// every spectrogram is forgotten; the selected measurement's spectrogram
    /// is computed anew where its impulse response is there.
    pub fn spectrogram_config_message(&mut self, message: spectrogram_config::Message) -> (r: Vec<
        Command<W, Op>,
    >)
        ensures
            spectrogram_config_message_post(*old(self), *final(self), message, r@),
    {
        if let State::Collecting = self.state {
            return Vec::new();
        }
        let action = match &mut self.modal {
            Modal::SpectrogramConfig(dialog) => dialog.update(message),
            _ => return Vec::new(),
        };
        match action {
            spectrogram_config::Action::Nothing => Vec::new(),
            spectrogram_config::Action::Close => {
                self.modal = Modal::Closed;
                Vec::new()
            },
            spectrogram_config::Action::ConfigChanged(p) => {
                self.modal = Modal::Closed;
                let mut r = Vec::new();
                match &mut self.state {
                    State::Analysing { selected, analyses, .. } => {
                        let ghost before = analyses@;
                        if let Some(id) = selected {
                            if analyses.restart_spectrogram(*id) {
                                r.push(Command::ComputeSpectrogram(*id, p));
                            }
                        }
                        let ghost restarted = analyses@;
                        self.spectrogram_config = p;
                        analyses.reset_spectrograms_all();
                        assert(analyses@ =~= without_spectrograms(before)) by {
                            assert(restarted.dom() =~= before.dom());
                        }
                    },
                    State::Collecting => {},
                }
                r
            },
        }
    }
}

} // verus!
