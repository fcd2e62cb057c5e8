//! Everything that can happen on the main screen, handled in one place, and
//! what holds of the screen whatever happens.
use vstd::prelude::*;

use crate::measurement::{
    self, Id, Loopback, Measurement, holds_id, ids_distinct, law_remove_then_get,
    lemma_push_keeps_ids_distinct, loaded_ids, position_of,
};
use crate::save_project;
use crate::screen::analysis_events::{
    impulse_response_computed_post, impulse_response_save_requested_post,
    impulse_response_selected_post, save_impulse_response_to_file_post,
};
use crate::screen::analysis_results::{
    change_smoothing_post, frequency_response_computed_post, frequency_response_smoothed_post,
    frequency_response_toggled_post, spectral_decay_computed_post, spectrogram_computed_post,
};
use crate::screen::dialogs::{
    open_spectral_decay_config_post, open_spectrogram_config_post,
    spectral_decay_config_message_post, spectrogram_config_message_post,
};
use crate::screen::navigation::{
    PendingWindowMessage, held_back, open_tab_post, pending_window_post, window_after,
};
use crate::screen::{
    Command, Main, State, loopback_loaded_post, measurement_loaded_post, measurement_message_post,
    measurement_offset_changed_post, new_project_post, open_project_post,
    open_save_project_dialog_post, project_save_dialog_post, recorded_loopback_post,
    recorded_measurement_post, save_project_post, spectrogram_offset_changed_post,
};
use crate::modal::Modal;
use crate::spectral_decay_config;
use crate::spectrogram_config;
use crate::tab;
use crate::units::{Offset, Smoothing};

verus! {

/// Something that happened on the main screen: a user action, or a job of
/// the screen's owner that finished.
#[derive(Debug)]
pub enum Message<W, S, LB, LE, Op, I, F, L, D, G> {
    NewProject,
    /// The user wants to pick a project file to open.
    LoadProject,
    /// The user wants to pick a loopback file.
    LoadLoopback,
    /// The user wants to pick a measurement file.
    LoadMeasurement,
    /// A project was read from `path`.
    ProjectLoaded { path: String, loopback: Option<String>, measurements: Vec<String>, operation: Op },
    /// The project was saved to `path` with these files: the screen opens it
    /// anew from there.
    ProjectSaved { path: String, loopback: Option<String>, measurements: Vec<String>, operation: Op },
    OpenSaveProjectDialog,
    ProjectSaveDialog(save_project::Message<Op>),
    SaveProject(String),
    /// The user wants the tab `to`; `pending_differs` tells whether the
    /// window edited in the impulse-response tab differs from the one in use.
    OpenTab { to: tab::Id, pending_differs: bool },
    /// A loopback was read, with the window made for its sample rate where
    /// its signal could be read (`None` where it could not).
    LoopbackLoaded(Loopback<LB, LE>, Option<W>),
    MeasurementLoaded(Measurement<S>),
    Measurement(measurement::Message),
    MeasurementOffsetChanged(Offset),
    ImpulseResponseSelected(Id),
    SaveImpulseResponse(Id),
    SaveImpulseResponseToFile(Id, Option<String>),
    ImpulseResponseComputed(Id, Option<I>),
    PendingWindow(PendingWindowMessage),
    FrequencyResponseComputed(Id, F, L),
    FrequencyResponseToggled(Id, bool),
    ChangeSmoothing(Smoothing),
    FrequencyResponseSmoothed(Id, L),
    SpectralDecayComputed(Id, D),
    OpenSpectralDecayConfig,
    SpectralDecayConfig(spectral_decay_config::Message),
    SpectrogramComputed(Id, G),
    SpectrogramOffsetChanged(Offset),
    OpenSpectrogramConfig,
    SpectrogramConfig(spectrogram_config::Message),
    RecordedLoopback(LB),
    /// A measurement was recorded; it joins under the identifier given.
    RecordedMeasurement(Id, S),
}

/// Whether `m` can take `message`: the frequency-response tab needs a window
/// as soon as a loaded measurement is to be shown in it; a loopback comes
/// with a window exactly when its signal is loaded; a measurement joins under
/// an identifier no measurement has.
pub open spec fn accepts<W: Clone, S, LB, LE, Op: Copy, I, F, L, D, G>(
    m: Main<W, S, LB, LE, Op, I, F, L, D, G>,
    message: Message<W, S, LB, LE, Op, I, F, L, D, G>,
) -> bool {
    match message {
        Message::ImpulseResponseComputed(..) => m.state matches State::Analysing { active_tab, .. }
            && active_tab is FrequencyResponses ==> m.window is Some,
        Message::OpenTab { to, pending_differs } => m.state is Analysing && to
            == tab::Id::FrequencyResponses && !held_back(m, to, pending_differs) ==> m.window
            is Some || loaded_ids(m.measurements.items()).len() == 0,
        Message::PendingWindow(answer) => m.state is Analysing && m.modal == (
        Modal::<Op>::PendingWindow { goto_tab: tab::Id::FrequencyResponses }) ==> window_after(
            m,
            answer,
        ) is Some || loaded_ids(m.measurements.items()).len() == 0,
        Message::LoopbackLoaded(loopback, window) => window is Some <==> loopback.loaded_spec(),
        Message::MeasurementLoaded(measurement) => !holds_id(
            m.measurements.items(),
            measurement.spec_id(),
        ),
        Message::RecordedMeasurement(id, _) => !holds_id(m.measurements.items(), id),
        _ => true,
    }
}

/// `new` and the jobs `r` are what `message` makes of `old`: what the
/// handler of the message does.
pub open spec fn update_post<W: Clone, S, LB, LE, Op: Copy, I, F, L, D, G>(
    old: Main<W, S, LB, LE, Op, I, F, L, D, G>,
    new: Main<W, S, LB, LE, Op, I, F, L, D, G>,
    message: Message<W, S, LB, LE, Op, I, F, L, D, G>,
    r: Seq<Command<W, Op>>,
) -> bool {
    match message {
        Message::NewProject => new_project_post(old, new) && r.len() == 0,
        Message::LoadProject => new == old && r == seq![Command::<W, Op>::PickProjectFile],
        Message::LoadLoopback => new == old && r == seq![Command::<W, Op>::PickLoopbackFile],
        Message::LoadMeasurement => new == old && r == seq![Command::<W, Op>::PickMeasurementFile],
        Message::ProjectLoaded { path, loopback, measurements, operation } => open_project_post(
            old,
            new,
            path,
            loopback,
            measurements@,
            operation,
            r,
        ),
        Message::ProjectSaved { path, loopback, measurements, operation } => open_project_post(
            old,
            new,
            path,
            loopback,
            measurements@,
            operation,
            r,
        ),
        Message::OpenSaveProjectDialog => open_save_project_dialog_post(old, new) && r.len() == 0,
        Message::ProjectSaveDialog(msg) => project_save_dialog_post(old, new, msg, r),
        Message::SaveProject(path) => new == old && save_project_post(old, old, path, r),
        Message::OpenTab { to, pending_differs } => open_tab_post(old, new, to, pending_differs, r),
        Message::LoopbackLoaded(loopback, window) => loopback_loaded_post(old, new, loopback, window)
            && r.len() == 0,
        Message::MeasurementLoaded(m) => measurement_loaded_post(old, new, m) && r.len() == 0,
        Message::Measurement(msg) => measurement_message_post(old, new, msg, r),
        Message::MeasurementOffsetChanged(o) => measurement_offset_changed_post(old, new, o, r),
        Message::ImpulseResponseSelected(id) => impulse_response_selected_post(old, new, id, r),
        Message::SaveImpulseResponse(id) => new == old && impulse_response_save_requested_post(
            old,
            old,
            id,
            r,
        ),
        Message::SaveImpulseResponseToFile(id, path) => save_impulse_response_to_file_post(
            old,
            new,
            id,
            path,
            r,
        ),
        Message::ImpulseResponseComputed(id, ir) => impulse_response_computed_post(old, new, id, ir, r),
        Message::PendingWindow(answer) => pending_window_post(old, new, answer, r),
        Message::FrequencyResponseComputed(id, origin, curve) => frequency_response_computed_post(
            old,
            new,
            id,
            origin,
            curve,
            r,
        ),
        Message::FrequencyResponseToggled(id, shown) => frequency_response_toggled_post(
            old,
            new,
            id,
            shown,
            r,
        ),
        Message::ChangeSmoothing(s) => change_smoothing_post(old, new, s, r),
        Message::FrequencyResponseSmoothed(id, curve) => frequency_response_smoothed_post(
            old,
            new,
            id,
            curve,
            r,
        ),
        Message::SpectralDecayComputed(id, d) => spectral_decay_computed_post(old, new, id, d, r),
        Message::OpenSpectralDecayConfig => open_spectral_decay_config_post(old, new) && r.len() == 0,
        Message::SpectralDecayConfig(msg) => spectral_decay_config_message_post(old, new, msg, r),
        Message::SpectrogramComputed(id, g) => spectrogram_computed_post(old, new, id, g, r),
        Message::SpectrogramOffsetChanged(o) => spectrogram_offset_changed_post(old, new, o, r),
        Message::OpenSpectrogramConfig => open_spectrogram_config_post(old, new) && r.len() == 0,
        Message::SpectrogramConfig(msg) => spectrogram_config_message_post(old, new, msg, r),
        Message::RecordedLoopback(lb) => recorded_loopback_post(old, new, lb) && r.len() == 0,
        Message::RecordedMeasurement(id, signal) => recorded_measurement_post(old, new, id, signal)
            && r.len() == 0,
    }
}

/// The screen analyses only while a loopback and at least one measurement
/// are there.
pub open spec fn analyses_with_signals<W, S, LB, LE, Op, I, F, L, D, G>(
    m: Main<W, S, LB, LE, Op, I, F, L, D, G>,
) -> bool {
    m.state is Analysing ==> m.loopback is Some && m.measurements.items().len() > 0
}

proof fn lemma_loaded_ids_need_measurements<S>(s: Seq<Measurement<S>>)
    requires
        loaded_ids(s).len() > 0,
    ensures
        s.len() > 0,
{
}

impl<W: Clone, S, LB, LE, Op: Copy, I, F, L, D, G> Main<W, S, LB, LE, Op, I, F, L, D, G> {
    /// Handles one message with its handler and returns the jobs it starts;
    /// a screen that analyses only with a loopback and a measurement keeps
    /// doing so, and measurement identifiers that are distinct stay so.
    pub fn update(&mut self, message: Message<W, S, LB, LE, Op, I, F, L, D, G>) -> (r: Vec<
        Command<W, Op>,
    >)
        requires
            accepts(*old(self), message),
        ensures
            update_post(*old(self), *final(self), message, r@),
            analyses_with_signals(*old(self)) ==> analyses_with_signals(*final(self)),
            ids_distinct(old(self).measurements.items()) ==> ids_distinct(
                final(self).measurements.items(),
            ),
    {
        let ghost before = self.measurements.items();
        match message {
            Message::NewProject => {
                self.new_project();
                Vec::new()
            },
            Message::LoadProject => {
                let mut r = Vec::new();
                r.push(Command::PickProjectFile);
                r
            },
            Message::LoadLoopback => {
                let mut r = Vec::new();
                r.push(Command::PickLoopbackFile);
                r
            },
            Message::LoadMeasurement => {
                let mut r = Vec::new();
                r.push(Command::PickMeasurementFile);
                r
            },
            Message::ProjectLoaded { path, loopback, measurements, operation } => {
                self.open_project(path, loopback, measurements, operation)
            },
            Message::ProjectSaved { path, loopback, measurements, operation } => {
                self.open_project(path, loopback, measurements, operation)
            },
            Message::OpenSaveProjectDialog => {
                self.open_save_project_dialog();
                Vec::new()
            },
            Message::ProjectSaveDialog(msg) => self.project_save_dialog(msg),
            Message::SaveProject(path) => self.save_project(path),
            Message::OpenTab { to, pending_differs } => self.open_tab(to, pending_differs),
            Message::LoopbackLoaded(loopback, window) => {
                self.loopback_loaded(loopback, window);
                Vec::new()
            },
            Message::MeasurementLoaded(m) => {
                proof {
                    lemma_push_keeps_ids_distinct(before, m);
                }
                self.measurement_loaded(m);
                Vec::new()
            },
            Message::Measurement(msg) => {
                let r = self.measurement_message(msg);
                proof {
                    if let measurement::Message::Remove(id) = msg {
                        if ids_distinct(before) && position_of(before, id) is Some {
                            law_remove_then_get(before, id);
                        }
                    }
                    if loaded_ids(self.measurements.items()).len() > 0 {
                        lemma_loaded_ids_need_measurements(self.measurements.items());
                    }
                }
                r
            },
            Message::MeasurementOffsetChanged(o) => self.measurement_offset_changed(o),
            Message::ImpulseResponseSelected(id) => self.impulse_response_selected(id),
            Message::SaveImpulseResponse(id) => self.impulse_response_save_requested(id),
            Message::SaveImpulseResponseToFile(id, path) => self.save_impulse_response_to_file(id, path),
            Message::ImpulseResponseComputed(id, ir) => self.impulse_response_computed(id, ir),
            Message::PendingWindow(answer) => self.pending_window(answer),
            Message::FrequencyResponseComputed(id, origin, curve) => {
                self.frequency_response_computed(id, origin, curve)
            },
            Message::FrequencyResponseToggled(id, shown) => self.frequency_response_toggled(id, shown),
            Message::ChangeSmoothing(s) => self.change_smoothing(s),
            Message::FrequencyResponseSmoothed(id, curve) => self.frequency_response_smoothed(id, curve),
            Message::SpectralDecayComputed(id, d) => self.spectral_decay_computed(id, d),
            Message::OpenSpectralDecayConfig => {
                self.open_spectral_decay_config();
                Vec::new()
            },
            Message::SpectralDecayConfig(msg) => self.spectral_decay_config_message(msg),
            Message::SpectrogramComputed(id, g) => self.spectrogram_computed(id, g),
            Message::SpectrogramOffsetChanged(o) => self.spectrogram_offset_changed(o),
            Message::OpenSpectrogramConfig => {
                self.open_spectrogram_config();
                Vec::new()
            },
            Message::SpectrogramConfig(msg) => self.spectrogram_config_message(msg),
            Message::RecordedLoopback(lb) => {
                self.recorded_loopback(lb);
                Vec::new()
            },
            Message::RecordedMeasurement(id, signal) => {
                self.recorded_measurement(id, signal);
                proof {
                    let after = self.measurements.items();
                    assert(after =~= before.push(after.last()));
                    lemma_push_keeps_ids_distinct(before, after.last());
                }
                Vec::new()
            },
        }
    }
}

} // verus!
