//! The main screen: the loaded signals, the open tab and dialog, and the
//! analyses; what each user action or finished job changes, and which jobs
//! it starts.
//!
//! The screen decides; its owner runs the jobs (file dialogs, loading and
//! saving, computations) that `Command`s name and reports back with
//! `Message`s. The types of the signal layer are parameters: `W` a window,
//! `S` a measurement signal, `LB` a loopback signal, `LE` why a loopback
//! could not be read, `Op` how imported files are handled on saving, and
//! `I`, `F`, `L`, `D`, `G` the impulse response, frequency response, curve,
//! spectral decay and spectrogram of a measurement.
use vstd::prelude::*;

pub mod analysis_events;
pub mod analysis_results;
pub mod dialogs;
pub mod navigation;
pub mod update;

use crate::analyses::{
    Analyses, Start, fr_requested, sd_requested, sg_requested, ir_requested, entry_changed,
};
use crate::measurement::{self, Id, List, Loopback, Measurement, Selected, holds_id, loaded_ids, position_of};
use crate::modal::Modal;
use crate::save_project;
use crate::spectral_decay_config::Preferences;
use crate::spectrogram_config::{Config, default_config};
use crate::tab::Tab;
use crate::units::{Offset, Smoothing};

verus! {

/// Whether signals are still being collected, or analysed.
#[derive(Debug)]
pub enum State<W, I, F, L, D, G> {
    /// Waiting for a loopback and a measurement.
    Collecting,
    Analysing { active_tab: Tab<W>, selected: Option<Id>, analyses: Analyses<I, F, L, D, G> },
}

/// A job for the owner of the screen.
#[derive(Debug)]
pub enum Command<W, Op> {
    /// Let the user pick a project file, and load it (`ProjectLoaded`).
    PickProjectFile,
    /// Load the loopback from this file (`LoopbackLoaded`).
    LoadLoopbackFile(String),
    /// Load a measurement from this file (`MeasurementLoaded`).
    LoadMeasurementFile(String),
    /// Let the user pick a loopback file, and load it.
    PickLoopbackFile,
    /// Let the user pick a measurement file, and load it.
    PickMeasurementFile,
    /// Let the user pick where to save the project (the dialog's
    /// `ChangeProjectPath`).
    PickProjectSavePath,
    /// Save the project to `path` (`ProjectSaved`).
    SaveProject { path: String, operation: Op, export_from_memory: bool },
    /// Compute the impulse response of a measurement (`ImpulseResponseComputed`).
    ComputeImpulseResponse(Id),
    /// Compute its frequency response through a window (`FrequencyResponseComputed`).
    ComputeFrequencyResponse(Id, W),
    /// Compute its spectral decay (`SpectralDecayComputed`).
    ComputeSpectralDecay(Id, Preferences),
    /// Compute its spectrogram (`SpectrogramComputed`).
    ComputeSpectrogram(Id, Config),
    /// Smooth its frequency response by 1/n octave (`FrequencyResponseSmoothed`).
    SmoothFrequencyResponse(Id, u8),
    /// Let the user choose where to save its impulse response
    /// (`SaveImpulseResponseToFile`).
    ChooseImpulseResponseFile(Id),
    /// Write its impulse response to this file.
    SaveImpulseResponse(Id, String),
    /// Once the jobs before it are done, send `SaveImpulseResponseToFile`
    /// with this path again.
    RetrySaveImpulseResponse(Id, String),
    ClearSignalCache,
    ClearTabCache,
    ClearImpulseResponseDataCache,
    ClearImpulseResponseOverlayCache,
    ClearSpectrogramCache,
}

/// The main screen.
#[derive(Debug)]
pub struct Main<W, S, LB, LE, Op, I, F, L, D, G> {
    pub state: State<W, I, F, L, D, G>,
    pub modal: Modal<Op>,
    pub selected: Option<Selected>,
    pub loopback: Option<Loopback<LB, LE>>,
    pub measurements: List<S>,
    pub project_path: Option<String>,
    pub measurement_operation: Op,
    pub export_from_memory: bool,
    pub offset: Offset,
    pub smoothing: Smoothing,
    pub window: Option<W>,
    pub spectrogram_offset: Offset,
    pub spectral_decay_config: Preferences,
    pub spectrogram_config: Config,
    pub default_operation: Op,
    pub default_spectral_decay_config: Preferences,
}

/// `m` is a screen as it opens: nothing loaded, nothing open, default
/// settings, with the given project path and file handling.
pub open spec fn is_initial<W, S, LB, LE, Op, I, F, L, D, G>(
    m: Main<W, S, LB, LE, Op, I, F, L, D, G>,
    project_path: Option<String>,
    operation: Op,
    default_operation: Op,
    default_spectral_decay_config: Preferences,
) -> bool {
    &&& m.state is Collecting
    &&& m.modal is Closed
    &&& m.selected is None
    &&& m.loopback is None
    &&& m.measurements.items().len() == 0
    &&& m.project_path == project_path
    &&& m.measurement_operation == operation
    &&& m.export_from_memory
    &&& m.offset.value() == 0
    &&& m.smoothing == Smoothing::NoSmoothing
    &&& m.window is None
    &&& m.spectrogram_offset.value() == 0
    &&& m.spectral_decay_config == default_spectral_decay_config
    &&& m.spectrogram_config == default_config()
    &&& m.default_operation == default_operation
    &&& m.default_spectral_decay_config == default_spectral_decay_config
}

/// A fresh analysis state: the measurements tab, nothing selected, no analyses.
pub open spec fn is_fresh_analysis<W, I, F, L, D, G>(s: State<W, I, F, L, D, G>) -> bool {
    &&& s matches State::Analysing { active_tab, selected, analyses }
    &&& active_tab is Measurements
    &&& selected is None
    &&& analyses@ == Map::<usize, crate::analyses::Analysis<I, F, L, D, G>>::empty()
}

/// Whether the loopback's signal is loaded.
pub open spec fn loopback_loaded<LB, LE>(l: Option<Loopback<LB, LE>>) -> bool {
    l matches Some(lb) && lb.loaded_spec()
}

impl<W: Clone, S, LB, LE, Op: Copy, I, F, L, D, G> Main<W, S, LB, LE, Op, I, F, L, D, G> {
    /// A screen with nothing loaded; `default_operation` and
    /// `default_spectral_decay_config` are the settings a new project starts with.
    pub fn new(default_operation: Op, default_spectral_decay_config: Preferences) -> (r: Self)
        ensures
            is_initial(r, None, default_operation, default_operation, default_spectral_decay_config),
    {
        Main {
            state: State::Collecting,
            modal: Modal::Closed,
            selected: None,
            loopback: None,
            measurements: List::new(),
            project_path: None,
            measurement_operation: default_operation,
            export_from_memory: true,
            offset: Offset::default(),
            smoothing: Smoothing::NoSmoothing,
            window: None,
            spectrogram_offset: Offset::default(),
            spectral_decay_config: default_spectral_decay_config,
            spectrogram_config: Config::default(),
            default_operation,
            default_spectral_decay_config,
        }
    }

    /// Whether the loopback's signal is loaded.
    pub fn is_loopback_loaded(&self) -> (r: bool)
        ensures
            r == loopback_loaded(self.loopback),
    {
        match &self.loopback {
            Some(l) => l.is_loaded(),
            None => false,
        }
    }
}


/// The jobs that load a project's files: the loopback first, then the
/// measurements in order.
pub open spec fn load_commands<W, Op>(loopback: Option<String>, measurements: Seq<String>) -> Seq<
    Command<W, Op>,
> {
    let first = match loopback {
        Some(p) => seq![Command::<W, Op>::LoadLoopbackFile(p)],
        None => Seq::<Command<W, Op>>::empty(),
    };
    first + measurements.map_values(|p: String| Command::<W, Op>::LoadMeasurementFile(p))
}

/// `new` is `old` with only the fields the relation names allowed to differ:
/// the settings, project and defaults stay.
pub open spec fn same_settings<W, S, LB, LE, Op, I, F, L, D, G>(
    old: Main<W, S, LB, LE, Op, I, F, L, D, G>,
    new: Main<W, S, LB, LE, Op, I, F, L, D, G>,
) -> bool {
    &&& new.project_path == old.project_path
    &&& new.measurement_operation == old.measurement_operation
    &&& new.export_from_memory == old.export_from_memory
    &&& new.smoothing == old.smoothing
    &&& new.spectral_decay_config == old.spectral_decay_config
    &&& new.spectrogram_config == old.spectrogram_config
    &&& new.default_operation == old.default_operation
    &&& new.default_spectral_decay_config == old.default_spectral_decay_config
    &&& new.offset == old.offset
    &&& new.spectrogram_offset == old.spectrogram_offset
}

/// `new` is `old` with only the fields the relation names allowed to differ:
/// the signals and the window stay.
pub open spec fn same_signals<W, S, LB, LE, Op, I, F, L, D, G>(
    old: Main<W, S, LB, LE, Op, I, F, L, D, G>,
    new: Main<W, S, LB, LE, Op, I, F, L, D, G>,
) -> bool {
    &&& new.loopback == old.loopback
    &&& new.measurements.items() == old.measurements.items()
    &&& new.window == old.window
    &&& new.selected == old.selected
}

/// `new` is what `new_project` makes of `old`.
pub open spec fn new_project_post<W: Clone, S, LB, LE, Op: Copy, I, F, L, D, G>(
    old: Main<W, S, LB, LE, Op, I, F, L, D, G>,
    new: Main<W, S, LB, LE, Op, I, F, L, D, G>,
) -> bool {
    &&& (is_initial(
            new,
            None,
            old.default_operation,
            old.default_operation,
            old.default_spectral_decay_config,
        ))
}

/// `new` and the jobs `r` are what `open_project` makes of `old`.
pub open spec fn open_project_post<W: Clone, S, LB, LE, Op: Copy, I, F, L, D, G>(
    old: Main<W, S, LB, LE, Op, I, F, L, D, G>,
    new: Main<W, S, LB, LE, Op, I, F, L, D, G>,
    path: String,
    loopback: Option<String>,
    measurements: Seq<String>,
    operation: Op,
    r: Seq<Command<W, Op>>,
) -> bool {
    &&& (is_initial(
            new,
            Some(path),
            operation,
            old.default_operation,
            old.default_spectral_decay_config,
        ))
    &&& r == load_commands::<W, Op>(loopback, measurements)
}

impl<W: Clone, S, LB, LE, Op: Copy, I, F, L, D, G> Main<W, S, LB, LE, Op, I, F, L, D, G> {
    /// Starts a new project: everything as when the screen opened.
    pub fn new_project(&mut self)
        ensures
            new_project_post(*old(self), *final(self)),
    {
        *self = Main::new(self.default_operation, self.default_spectral_decay_config);
    }

    /// Opens a project stored at `path`, which names a loopback file, the
    /// measurement files and how imported files are handled; returns the jobs
    /// that load those files.
    pub fn open_project(
        &mut self,
        path: String,
        loopback: Option<String>,
        measurements: Vec<String>,
        operation: Op,
    ) -> (r: Vec<Command<W, Op>>)
        ensures
            open_project_post(*old(self), *final(self), path, loopback, measurements@, operation, r@),
    {
        *self = Main::new(self.default_operation, self.default_spectral_decay_config);
        self.project_path = Some(path);
        self.measurement_operation = operation;
        let mut r: Vec<Command<W, Op>> = Vec::new();
        if let Some(p) = loopback {
            r.push(Command::LoadLoopbackFile(p));
        }
        let ghost first = r@;
        let mut i: usize = 0;
        while i < measurements.len()
            invariant
                i <= measurements.len(),
                first == match loopback {
                    Some(p) => seq![Command::<W, Op>::LoadLoopbackFile(p)],
                    None => Seq::<Command<W, Op>>::empty(),
                },
                r@ == first + measurements@.take(i as int).map_values(
                    |p: String| Command::<W, Op>::LoadMeasurementFile(p),
                ),
            decreases measurements.len() - i,
        {
            let p = measurements[i].clone();
            r.push(Command::LoadMeasurementFile(p));
            assert(measurements@.take(i as int + 1).map_values(
                |p: String| Command::<W, Op>::LoadMeasurementFile(p),
            ) =~= measurements@.take(i as int).map_values(
                |p: String| Command::<W, Op>::LoadMeasurementFile(p),
            ).push(Command::LoadMeasurementFile(measurements@[i as int])));
            i = i + 1;
        }
        assert(measurements@.take(i as int) =~= measurements@);
        r
    }
}


/// What the save dialog's action asks of the screen.
pub open spec fn save_dialog_commands<W, Op>(a: save_project::Action<Op>) -> Seq<Command<W, Op>> {
    match a {
        save_project::Action::Nothing => Seq::empty(),
        save_project::Action::Cancel => Seq::empty(),
        save_project::Action::PickFile => seq![Command::<W, Op>::PickProjectSavePath],
        save_project::Action::Save(path, operation, export_from_memory) => seq![
            Command::<W, Op>::SaveProject { path, operation, export_from_memory },
        ],
    }
}

/// `new` is what `open_save_project_dialog` makes of `old`.
pub open spec fn open_save_project_dialog_post<W: Clone, S, LB, LE, Op: Copy, I, F, L, D, G>(
    old: Main<W, S, LB, LE, Op, I, F, L, D, G>,
    new: Main<W, S, LB, LE, Op, I, F, L, D, G>,
) -> bool {
    &&& (new.modal matches Modal::SaveProjectDialog(d) && d.base().len() == 0
            && d.file_path().len() == 0 && d.subdir() && d.export() == old.export_from_memory
            && d.operation() == old.measurement_operation)
    &&& same_settings(old, new)
    &&& same_signals(old, new)
    &&& new.state == old.state
}

/// `new` and the jobs `r` are what `project_save_dialog` makes of `old`.
pub open spec fn project_save_dialog_post<W: Clone, S, LB, LE, Op: Copy, I, F, L, D, G>(
    old: Main<W, S, LB, LE, Op, I, F, L, D, G>,
    new: Main<W, S, LB, LE, Op, I, F, L, D, G>,
    msg: save_project::Message<Op>,
    r: Seq<Command<W, Op>>,
) -> bool {
    &&& same_settings(old, new)
    &&& same_signals(old, new)
    &&& new.state == old.state
    &&& (!(old.modal is SaveProjectDialog) ==> r.len() == 0 && new.modal
            == old.modal)
    &&& (old.modal matches Modal::SaveProjectDialog(d) ==> exists|
            d2: save_project::View<Op>,
            a: save_project::Action<Op>,
        |
            {
                &&& save_project::update_post(d, d2, msg, a)
                &&& new.modal == (if a is Cancel {
                    Modal::<Op>::Closed
                } else {
                    Modal::SaveProjectDialog(d2)
                })
                &&& r == save_dialog_commands::<W, Op>(a)
            })
}

/// `new` and the jobs `r` are what `save_project` makes of `old`.
pub open spec fn save_project_post<W: Clone, S, LB, LE, Op: Copy, I, F, L, D, G>(
    old: Main<W, S, LB, LE, Op, I, F, L, D, G>,
    new: Main<W, S, LB, LE, Op, I, F, L, D, G>,
    path: String,
    r: Seq<Command<W, Op>>,
) -> bool {
    &&& (r == seq![
            Command::<W, Op>::SaveProject {
                path,
                operation: old.measurement_operation,
                export_from_memory: old.export_from_memory,
            },
        ])
}

/// `new` is what `loopback_loaded` makes of `old`.
pub open spec fn loopback_loaded_post<W: Clone, S, LB, LE, Op: Copy, I, F, L, D, G>(
    old: Main<W, S, LB, LE, Op, I, F, L, D, G>,
    new: Main<W, S, LB, LE, Op, I, F, L, D, G>,
    loopback: Loopback<LB, LE>,
    window: Option<W>,
) -> bool {
    &&& new.loopback == Some(loopback)
    &&& new.window == window
    &&& (new.window is Some <==> loopback.loaded_spec())
    &&& new.measurements.items() == old.measurements.items()
    &&& new.selected == old.selected
    &&& new.modal == old.modal
    &&& same_settings(old, new)
    &&& old.measurements.items().len() > 0 ==> is_fresh_analysis(new.state)
    &&& old.measurements.items().len() == 0 ==> new.state == old.state
}

/// `new` is what `measurement_loaded` makes of `old`.
pub open spec fn measurement_loaded_post<W: Clone, S, LB, LE, Op: Copy, I, F, L, D, G>(
    old: Main<W, S, LB, LE, Op, I, F, L, D, G>,
    new: Main<W, S, LB, LE, Op, I, F, L, D, G>,
    measurement: Measurement<S>,
) -> bool {
    &&& new.measurements.items() == old.measurements.items().push(measurement)
    &&& new.loopback == old.loopback
    &&& new.window == old.window
    &&& new.selected == old.selected
    &&& new.modal == old.modal
    &&& same_settings(old, new)
    &&& ((loopback_loaded(old.loopback) && old.measurements.items().len() == 0)
            ==> is_fresh_analysis(new.state))
    &&& (!(loopback_loaded(old.loopback) && old.measurements.items().len() == 0)
            ==> new.state == old.state)
}

/// `new` and the jobs `r` are what `measurement_message` makes of `old`.
pub open spec fn measurement_message_post<W: Clone, S, LB, LE, Op: Copy, I, F, L, D, G>(
    old: Main<W, S, LB, LE, Op, I, F, L, D, G>,
    new: Main<W, S, LB, LE, Op, I, F, L, D, G>,
    msg: measurement::Message,
    r: Seq<Command<W, Op>>,
) -> bool {
    &&& same_settings(old, new)
    &&& new.loopback == old.loopback
    &&& new.window == old.window
    &&& new.modal == old.modal
    &&& (match msg {
            measurement::Message::Select(sel) => {
                &&& new.selected == Some(sel)
                &&& new.measurements.items() == old.measurements.items()
                &&& new.state == old.state
                &&& r == seq![Command::<W, Op>::ClearSignalCache]
            },
            measurement::Message::Remove(id) => {
                &&& r.len() == 0
                &&& new.selected == old.selected
                &&& new.measurements.items() == (match position_of(
                    old.measurements.items(),
                    id,
                ) {
                    Some(k) => old.measurements.items().remove(k),
                    None => old.measurements.items(),
                })
                &&& if loaded_ids(new.measurements.items()).len() == 0 {
                    new.state is Collecting
                } else {
                    match old.state {
                        State::Collecting => new.state is Collecting,
                        State::Analysing { active_tab, selected, analyses } => {
                            &&& new.state matches State::Analysing {
                                active_tab: t2,
                                selected: s2,
                                analyses: a2,
                            }
                            &&& t2 == active_tab
                            &&& s2 == selected
                            &&& a2@ == analyses@.remove(id.0)
                        },
                    }
                }
            },
        })
}

/// Loading a loopback puts it in place of the old one; a window is in use
/// exactly when its signal is loaded. With measurements already there, the
/// analysis starts afresh on the measurements tab; without, the screen goes
/// on collecting as it was.
pub proof fn law_loaded_loopback_restarts_the_analysis<
    W: Clone,
    S,
    LB,
    LE,
    Op: Copy,
    I,
    F,
    L,
    D,
    G,
>(
    old: Main<W, S, LB, LE, Op, I, F, L, D, G>,
    new: Main<W, S, LB, LE, Op, I, F, L, D, G>,
    loopback: Loopback<LB, LE>,
    window: Option<W>,
)
    requires
        loopback_loaded_post(old, new, loopback, window),
    ensures
        new.loopback == Some(loopback),
        loopback_loaded(new.loopback) == loopback.loaded_spec(),
        new.window is Some <==> loopback.loaded_spec(),
        new.measurements.items() == old.measurements.items(),
        old.measurements.items().len() > 0 ==> {
            &&& new.state matches State::Analysing { active_tab, selected, analyses }
            &&& active_tab is Measurements
            &&& selected is None
            &&& analyses@.dom().len() == 0
        },
        old.measurements.items().len() == 0 ==> new.state == old.state,
{
    if old.measurements.items().len() > 0 {
        assert(new.state->analyses@.dom() =~= Set::<usize>::empty());
    }
}

/// Loading a measurement appends it to the list. While measurements are
/// already there, or the loopback is not loaded, the analysis goes on as it
/// was: the open tab, the selection and everything computed stay. Only the
/// first measurement, arriving with the loopback loaded, starts a fresh
/// analysis.
pub proof fn law_loading_more_measurements_keeps_the_analysis<
    W: Clone,
    S,
    LB,
    LE,
    Op: Copy,
    I,
    F,
    L,
    D,
    G,
>(
    old: Main<W, S, LB, LE, Op, I, F, L, D, G>,
    new: Main<W, S, LB, LE, Op, I, F, L, D, G>,
    measurement: Measurement<S>,
)
    requires
        measurement_loaded_post(old, new, measurement),
    ensures
        new.measurements.items().len() == old.measurements.items().len() + 1,
        new.measurements.items().last() == measurement,
        new.measurements.items().drop_last() == old.measurements.items(),
        old.measurements.items().len() > 0 ==> new.state == old.state,
        !loopback_loaded(old.loopback) ==> new.state == old.state,
        old.measurements.items().len() == 0 && loopback_loaded(old.loopback) ==> {
            &&& new.state matches State::Analysing { active_tab, selected, analyses }
            &&& active_tab is Measurements
            &&& selected is None
            &&& analyses@.dom().len() == 0
        },
{
    assert(new.measurements.items().drop_last() =~= old.measurements.items());
    if old.measurements.items().len() == 0 && loopback_loaded(old.loopback) {
        assert(new.state->analyses@.dom() =~= Set::<usize>::empty());
    }
}

/// A removed measurement keeps no analysis: where the screen still
/// analyses after the removal, the analyses hold nothing for its identifier.
pub proof fn law_removed_measurement_has_no_analysis<
    W: Clone,
    S,
    LB,
    LE,
    Op: Copy,
    I,
    F,
    L,
    D,
    G,
>(
    old: Main<W, S, LB, LE, Op, I, F, L, D, G>,
    new: Main<W, S, LB, LE, Op, I, F, L, D, G>,
    id: Id,
    r: Seq<Command<W, Op>>,
)
    requires
        measurement_message_post(old, new, measurement::Message::Remove(id), r),
    ensures
        new.state matches State::Analysing { analyses, .. } ==> !analyses@.contains_key(id.0),
        new.state matches State::Analysing { analyses, .. } ==> forall|k: usize|
            #[trigger] analyses@.contains_key(k) && k != id.0 ==> (old.state matches State::Analysing {
                analyses: before,
                ..
            } && before@.contains_key(k) && before@[k] == analyses@[k]),
{
}

/// `new` and the jobs `r` are what `measurement_offset_changed` makes of `old`.
pub open spec fn measurement_offset_changed_post<W: Clone, S, LB, LE, Op: Copy, I, F, L, D, G>(
    old: Main<W, S, LB, LE, Op, I, F, L, D, G>,
    new: Main<W, S, LB, LE, Op, I, F, L, D, G>,
    offset: Offset,
    r: Seq<Command<W, Op>>,
) -> bool {
    &&& new == (Main { offset, ..old })
    &&& r == seq![Command::<W, Op>::ClearSignalCache]
}

/// `new` and the jobs `r` are what `spectrogram_offset_changed` makes of `old`.
pub open spec fn spectrogram_offset_changed_post<W: Clone, S, LB, LE, Op: Copy, I, F, L, D, G>(
    old: Main<W, S, LB, LE, Op, I, F, L, D, G>,
    new: Main<W, S, LB, LE, Op, I, F, L, D, G>,
    offset: Offset,
    r: Seq<Command<W, Op>>,
) -> bool {
    &&& new == (Main { spectrogram_offset: offset, ..old })
    &&& r == seq![Command::<W, Op>::ClearSpectrogramCache]
}

/// `new` is what `recorded_loopback` makes of `old`.
pub open spec fn recorded_loopback_post<W: Clone, S, LB, LE, Op: Copy, I, F, L, D, G>(
    old: Main<W, S, LB, LE, Op, I, F, L, D, G>,
    new: Main<W, S, LB, LE, Op, I, F, L, D, G>,
    loopback: LB,
) -> bool {
    &&& (new.loopback matches Some(l) && l.spec_path() is None && l.spec_state()
            == measurement::LoadState::<LB, LE>::Loaded(loopback) && l.spec_name()@
            == "Loopback"@)
    &&& new == (Main { loopback: new.loopback, ..old })
}

/// `new` is what `recorded_measurement` makes of `old`: a measurement `id`
/// named "Measurement", from no file, with the recorded signal, is added.
pub open spec fn recorded_measurement_post<W: Clone, S, LB, LE, Op: Copy, I, F, L, D, G>(
    old: Main<W, S, LB, LE, Op, I, F, L, D, G>,
    new: Main<W, S, LB, LE, Op, I, F, L, D, G>,
    id: Id,
    signal: S,
) -> bool {
    let items = new.measurements.items();
    &&& items.len() == old.measurements.items().len() + 1
    &&& items.drop_last() == old.measurements.items()
    &&& items.last().spec_id() == id
    &&& items.last().spec_name()@ == "Measurement"@
    &&& items.last().spec_path() is None
    &&& items.last().spec_signal() == Some(signal)
    &&& new == (Main { measurements: new.measurements, ..old })
}

impl<W: Clone, S, LB, LE, Op: Copy, I, F, L, D, G> Main<W, S, LB, LE, Op, I, F, L, D, G> {
    /// Opens the save dialog with the project's file handling and its
    /// choice to export signals held only in memory.
    pub fn open_save_project_dialog(&mut self)
        ensures
            open_save_project_dialog_post(*old(self), *final(self)),
    {
        self.modal = Modal::SaveProjectDialog(save_project::View::new(self.measurement_operation, self.export_from_memory));
    }

    /// Hands a message to the save dialog, where it is open.
    pub fn project_save_dialog(&mut self, msg: save_project::Message<Op>) -> (r: Vec<Command<W, Op>>)
        ensures
            project_save_dialog_post(*old(self), *final(self), msg, r@),
    {
        let mut r: Vec<Command<W, Op>> = Vec::new();
        match &mut self.modal {
            Modal::SaveProjectDialog(dialog) => {
                let a = dialog.update(msg);
                match a {
                    save_project::Action::Nothing => {},
                    save_project::Action::Cancel => {
                        self.modal = Modal::Closed;
                    },
                    save_project::Action::PickFile => {
                        r.push(Command::PickProjectSavePath);
                    },
                    save_project::Action::Save(path, operation, export_from_memory) => {
                        r.push(Command::SaveProject { path, operation, export_from_memory });
                    },
                }
            },
            _ => {},
        }
        r
    }

    /// Saves the project to `path` with its file handling.
    pub fn save_project(&self, path: String) -> (r: Vec<Command<W, Op>>)
        ensures
            save_project_post(*self, *self, path, r@),
    {
        let mut r = Vec::new();
        r.push(
            Command::SaveProject {
                path,
                operation: self.measurement_operation,
                export_from_memory: self.export_from_memory,
            },
        );
        r
    }

    /// Stores a loaded loopback and the window made for its sample rate
    /// (`None` where it could not be read); with measurements present the
    /// analysis starts afresh.
    pub fn loopback_loaded(&mut self, loopback: Loopback<LB, LE>, window: Option<W>)
        requires
            window is Some <==> loopback.loaded_spec(),
        ensures
            loopback_loaded_post(*old(self), *final(self), loopback, window),
    {
        self.window = window;
        self.loopback = Some(loopback);
        if !self.measurements.is_empty() {
            self.state = State::Analysing {
                active_tab: Tab::Measurements,
                selected: None,
                analyses: Analyses::new(),
            };
        }
    }

    /// Adds a loaded measurement; the first one, with the loopback loaded,
    /// starts the analysis.
    pub fn measurement_loaded(&mut self, measurement: Measurement<S>)
        requires
            !holds_id(old(self).measurements.items(), measurement.spec_id()),
        ensures
            measurement_loaded_post(*old(self), *final(self), measurement),
    {
        if self.is_loopback_loaded() && self.measurements.is_empty() {
            self.state = State::Analysing {
                active_tab: Tab::Measurements,
                selected: None,
                analyses: Analyses::new(),
            };
        }
        self.measurements.push(measurement);
    }

    /// Selects a signal, or removes a measurement together with its
    /// analyses; without loaded measurements the screen goes back to
    /// collecting signals.
    pub fn measurement_message(&mut self, msg: measurement::Message) -> (r: Vec<Command<W, Op>>)
        ensures
            measurement_message_post(*old(self), *final(self), msg, r@),
    {
        let mut r: Vec<Command<W, Op>> = Vec::new();
        match msg {
            measurement::Message::Select(selected) => {
                self.selected = Some(selected);
                r.push(Command::ClearSignalCache);
            },
            measurement::Message::Remove(id) => {
                self.measurements.remove(id);
                if self.measurements.loaded().len() == 0 {
                    self.state = State::Collecting;
                }
                if let State::Analysing { analyses, .. } = &mut self.state {
                    analyses.remove(id);
                }
            },
        }
        r
    }

    /// Shifts the signal chart.
    pub fn measurement_offset_changed(&mut self, offset: Offset) -> (r: Vec<Command<W, Op>>)
        ensures
            measurement_offset_changed_post(*old(self), *final(self), offset, r@),
    {
        self.offset = offset;
        let mut r = Vec::new();
        r.push(Command::ClearSignalCache);
        r
    }

    /// Shifts the spectrogram chart.
    pub fn spectrogram_offset_changed(&mut self, offset: Offset) -> (r: Vec<Command<W, Op>>)
        ensures
            spectrogram_offset_changed_post(*old(self), *final(self), offset, r@),
    {
        self.spectrogram_offset = offset;
        let mut r = Vec::new();
        r.push(Command::ClearSpectrogramCache);
        r
    }

    /// A loopback recorded in this session replaces the loopback.
    pub fn recorded_loopback(&mut self, loopback: LB)
        ensures
            recorded_loopback_post(*old(self), *final(self), loopback),
    {
        self.loopback = Some(Loopback::new("Loopback".to_owned(), loopback));
    }

    /// A measurement recorded in this session is added under the
    /// identifier `id`.
    pub fn recorded_measurement(&mut self, id: Id, signal: S)
        requires
            !holds_id(old(self).measurements.items(), id),
        ensures
            recorded_measurement_post(*old(self), *final(self), id, signal),
    {
        proof {
            reveal_strlit("Measurement");
        }
        let ghost before = self.measurements.items();
        let measurement = Measurement::new(id, "Measurement".to_owned(), None, Some(signal));
        self.measurements.push(measurement);
        assert(self.measurements.items().drop_last() =~= before);
    }
}


/// Whether the signals an impulse response of `id` needs are loaded: the
/// loopback and the measurement.
pub open spec fn inputs_ready<W, S, LB, LE, Op, I, F, L, D, G>(
    m: Main<W, S, LB, LE, Op, I, F, L, D, G>,
    id: Id,
) -> bool {
    signals_ready(m.loopback, m.measurements.items(), id)
}

/// Whether `loopback` is loaded and the first measurement of `measurements`
/// with identifier `id` is loaded.
pub open spec fn signals_ready<LB, LE, S>(
    loopback: Option<Loopback<LB, LE>>,
    measurements: Seq<Measurement<S>>,
    id: Id,
) -> bool {
    &&& loopback_loaded(loopback)
    &&& position_of(measurements, id) matches Some(k)
    &&& measurements[k].loaded()
}

pub(crate) fn ready_for<LB, LE, S>(loopback: &Option<Loopback<LB, LE>>, measurements: &List<S>, id: Id) -> (r: bool)
    ensures
        r == signals_ready(*loopback, measurements.items(), id),
{
    let loopback_ready = match loopback {
        Some(l) => l.is_loaded(),
        None => false,
    };
    loopback_ready && match measurements.get(id) {
        Some(m) => m.is_loaded(),
        None => false,
    }
}

/// The jobs a request starts: none, the impulse response, or the analysis
/// (`analysis`).
pub open spec fn start_commands<W, Op>(start: Start, id: Id, analysis: Command<W, Op>) -> Seq<
    Command<W, Op>,
> {
    match start {
        Start::Nothing => Seq::empty(),
        Start::ImpulseResponse => seq![Command::<W, Op>::ComputeImpulseResponse(id)],
        Start::Analysis => seq![analysis],
    }
}

/// The jobs a request for a frequency response starts; the window in the
/// job is a clone of `window`.
pub open spec fn fr_start_commands<W: Clone, Op>(
    start: Start,
    id: Id,
    window: W,
    cmds: Seq<Command<W, Op>>,
) -> bool {
    match start {
        Start::Analysis => {
            &&& cmds.len() == 1
            &&& cmds[0] matches Command::ComputeFrequencyResponse(i2, w2)
            &&& i2 == id
            &&& cloned(window, w2)
        },
        _ => cmds == start_commands(start, id, Command::<W, Op>::ClearTabCache),
    }
}

/// The jobs a request for an impulse response starts.
pub open spec fn ir_commands<W, Op>(started: bool, id: Id) -> Seq<Command<W, Op>> {
    if started {
        seq![Command::<W, Op>::ComputeImpulseResponse(id)]
    } else {
        Seq::empty()
    }
}

/// The analyses by measurement identifier, as a mathematical map.
type AnalysisMap<I, F, L, D, G> = Map<usize, crate::analyses::Analysis<I, F, L, D, G>>;

/// `new` and `cmds` are what a request for the spectral decay of `id` makes
/// of `old`.
pub open spec fn sd_request<W, Op, I, F, L, D, G>(
    old: AnalysisMap<I, F, L, D, G>,
    new: AnalysisMap<I, F, L, D, G>,
    id: Id,
    ready: bool,
    config: Preferences,
    cmds: Seq<Command<W, Op>>,
) -> bool {
    exists|before: crate::analyses::Analysis<I, F, L, D, G>, start: Start|
        {
            &&& entry_changed(old, new, id, before)
            &&& sd_requested(before, new[id.0], ready, start)
            &&& cmds == start_commands(start, id, Command::<W, Op>::ComputeSpectralDecay(id, config))
        }
}

/// `new` and `cmds` are what a request for the spectrogram of `id` makes of `old`.
pub open spec fn sg_request<W, Op, I, F, L, D, G>(
    old: AnalysisMap<I, F, L, D, G>,
    new: AnalysisMap<I, F, L, D, G>,
    id: Id,
    ready: bool,
    config: Config,
    cmds: Seq<Command<W, Op>>,
) -> bool {
    exists|before: crate::analyses::Analysis<I, F, L, D, G>, start: Start|
        {
            &&& entry_changed(old, new, id, before)
            &&& sg_requested(before, new[id.0], ready, start)
            &&& cmds == start_commands(start, id, Command::<W, Op>::ComputeSpectrogram(id, config))
        }
}

/// `new` and `cmds` are what a request for the impulse response of `id`
/// makes of `old`.
pub open spec fn ir_request<W, Op, I, F, L, D, G>(
    old: AnalysisMap<I, F, L, D, G>,
    new: AnalysisMap<I, F, L, D, G>,
    id: Id,
    ready: bool,
    cmds: Seq<Command<W, Op>>,
) -> bool {
    if !ready {
        new == old && cmds.len() == 0
    } else {
        exists|before: crate::analyses::Analysis<I, F, L, D, G>, started: bool|
            {
                &&& entry_changed(old, new, id, before)
                &&& ir_requested(before, new[id.0], started)
                &&& cmds == ir_commands::<W, Op>(started, id)
            }
    }
}

/// `new` and `cmds` are what a request for the frequency response of `id`
/// through `window` makes of `old`.
pub open spec fn fr_request<W: Clone, Op, I, F, L, D, G>(
    old: AnalysisMap<I, F, L, D, G>,
    new: AnalysisMap<I, F, L, D, G>,
    id: Id,
    ready: bool,
    window: W,
    cmds: Seq<Command<W, Op>>,
) -> bool {
    exists|before: crate::analyses::Analysis<I, F, L, D, G>, start: Start|
        {
            &&& entry_changed(old, new, id, before)
            &&& fr_requested(before, new[id.0], ready, start)
            &&& fr_start_commands(start, id, window, cmds)
        }
}

pub(crate) fn request_impulse_response<W, Op, I, F, L, D, G>(
    analyses: &mut Analyses<I, F, L, D, G>,
    id: Id,
    ready: bool,
) -> (r: Vec<Command<W, Op>>)
    ensures
        ir_request(old(analyses)@, final(analyses)@, id, ready, r@),
{
    let started = analyses.compute_impulse_response(id, ready);
    let mut r = Vec::new();
    if started {
        r.push(Command::ComputeImpulseResponse(id));
    }
    r
}

pub(crate) fn request_frequency_response<W: Clone, Op, I, F, L, D, G>(
    analyses: &mut Analyses<I, F, L, D, G>,
    id: Id,
    ready: bool,
    window: &W,
) -> (r: Vec<Command<W, Op>>)
    ensures
        fr_request(old(analyses)@, final(analyses)@, id, ready, *window, r@),
{
    let start = analyses.compute_frequency_response(id, ready);
    let mut r = Vec::new();
    match start {
        Start::Nothing => {},
        Start::ImpulseResponse => r.push(Command::ComputeImpulseResponse(id)),
        Start::Analysis => r.push(Command::ComputeFrequencyResponse(id, window.clone())),
    }
    r
}

pub(crate) fn request_spectral_decay<W, Op, I, F, L, D, G>(
    analyses: &mut Analyses<I, F, L, D, G>,
    id: Id,
    ready: bool,
    config: Preferences,
) -> (r: Vec<Command<W, Op>>)
    ensures
        sd_request(old(analyses)@, final(analyses)@, id, ready, config, r@),
{
    let start = analyses.compute_spectral_decay(id, ready);
    let mut r = Vec::new();
    match start {
        Start::Nothing => {},
        Start::ImpulseResponse => r.push(Command::ComputeImpulseResponse(id)),
        Start::Analysis => r.push(Command::ComputeSpectralDecay(id, config)),
    }
    r
}

pub(crate) fn request_spectrogram<W, Op, I, F, L, D, G>(
    analyses: &mut Analyses<I, F, L, D, G>,
    id: Id,
    ready: bool,
    config: Config,
) -> (r: Vec<Command<W, Op>>)
    ensures
        sg_request(old(analyses)@, final(analyses)@, id, ready, config, r@),
{
    let start = analyses.compute_spectrogram(id, ready);
    let mut r = Vec::new();
    match start {
        Start::Nothing => {},
        Start::ImpulseResponse => r.push(Command::ComputeImpulseResponse(id)),
        Start::Analysis => r.push(Command::ComputeSpectrogram(id, config)),
    }
    r
}

impl<W: Clone, S, LB, LE, Op: Copy, I, F, L, D, G> Main<W, S, LB, LE, Op, I, F, L, D, G> {
    /// Whether the signals the impulse response of `id` needs are loaded.
    pub fn inputs_ready(&self, id: Id) -> (r: bool)
        ensures
            r == inputs_ready(*self, id),
    {
        ready_for(&self.loopback, &self.measurements, id)
    }
}

} // verus!
