use raumklang::analysis::Computation;
use raumklang::duration::TimeSpan;
use raumklang::measurement::{self, Id, LoadState, Loopback, Measurement, Selected};
use raumklang::modal::Modal;
use raumklang::save_project;
use raumklang::screen::navigation::PendingWindowMessage;
use raumklang::screen::{Command, Main, State};
use raumklang::spectral_decay_config::{self, Preferences};
use raumklang::spectrogram_config::{self, Config};
use raumklang::tab::{self, Tab};
use raumklang::units::Smoothing;

// window, signal, loopback signal, loopback error, file handling, impulse
// response, frequency response, curve, spectral decay, spectrogram
type Screen = Main<u8, u8, u8, String, u8, u32, u32, u32, u32, u32>;
type Cmd = Command<u8, u8>;

fn prefs() -> Preferences {
    Preferences {
        shift: TimeSpan::from_millis(10),
        left_window_width: TimeSpan::from_millis(20),
        right_window_width: TimeSpan::from_millis(300),
        smoothing_fraction: 3,
    }
}

fn measurement(id: usize, loaded: bool) -> Measurement<u8> {
    Measurement::new(Id(id), format!("m{id}"), None, if loaded { Some(1) } else { None })
}

/// A screen analysing one loaded measurement `Id(1)` against a loaded
/// loopback, with window 7.
fn analysing() -> Screen {
    let mut m = Screen::new(0, prefs());
    m.loopback_loaded(Loopback::new("Loopback".to_string(), 1), Some(7));
    assert!(matches!(m.state, State::Collecting));
    m.measurement_loaded(measurement(1, true));
    assert!(matches!(m.state, State::Analysing { active_tab: Tab::Measurements, selected: None, .. }));
    m
}

fn ir_state(m: &Screen, id: Id) -> Option<&Computation<u32>> {
    match &m.state {
        State::Analysing { analyses, .. } => analyses.get(id).map(|a| &a.impulse_response),
        State::Collecting => None,
    }
}

#[test]
fn a_new_screen_collects_signals() {
    let m = Screen::new(3, prefs());
    assert!(matches!(m.state, State::Collecting));
    assert!(matches!(m.modal, Modal::Closed));
    assert!(m.measurements.is_empty());
    assert_eq!(m.measurement_operation, 3);
    assert!(m.export_from_memory);
    assert_eq!(m.smoothing, Smoothing::NoSmoothing);
    assert_eq!(m.spectrogram_config, Config::default());
    assert!(!m.is_loopback_loaded());
}

#[test]
fn opening_a_project_loads_its_files() {
    let mut m = analysing();
    let cmds = m.open_project(
        "p/project.rpr".to_string(),
        Some("lb.wav".to_string()),
        vec!["a.wav".to_string(), "b.wav".to_string()],
        5,
    );
    assert_eq!(cmds.len(), 3);
    assert!(matches!(&cmds[0], Cmd::LoadLoopbackFile(p) if p == "lb.wav"));
    assert!(matches!(&cmds[1], Cmd::LoadMeasurementFile(p) if p == "a.wav"));
    assert!(matches!(&cmds[2], Cmd::LoadMeasurementFile(p) if p == "b.wav"));
    assert!(matches!(m.state, State::Collecting));
    assert_eq!(m.project_path, Some("p/project.rpr".to_string()));
    assert_eq!(m.measurement_operation, 5);
    m.new_project();
    assert_eq!(m.project_path, None);
    assert_eq!(m.measurement_operation, 0);
}

#[test]
fn impulse_response_tab_computes_the_selected_measurement() {
    let mut m = analysing();
    assert!(m.open_tab(tab::Id::ImpulseResponses, false).is_empty());
    assert!(matches!(m.state, State::Analysing { active_tab: Tab::ImpulseResponses { pending_window: 7 }, .. }));
    let cmds = m.impulse_response_selected(Id(1));
    assert_eq!(cmds.len(), 2);
    assert!(matches!(cmds[0], Cmd::ClearImpulseResponseDataCache));
    assert!(matches!(cmds[1], Cmd::ComputeImpulseResponse(Id(1))));
    assert!(m.impulse_response_selected(Id(1)).len() == 1);
    assert!(m.impulse_response_computed(Id(1), None).is_empty());
    assert!(matches!(ir_state(&m, Id(1)), Some(Computation::Computing)));
    assert!(m.impulse_response_computed(Id(1), Some(42)).is_empty());
    assert!(matches!(ir_state(&m, Id(1)), Some(Computation::Computed(42))));
}

#[test]
fn leaving_the_impulse_response_tab_with_a_pending_window() {
    let mut m = analysing();
    m.open_tab(tab::Id::ImpulseResponses, false);
    m.impulse_response_selected(Id(1));
    m.impulse_response_computed(Id(1), Some(42));
    assert!(m.open_tab(tab::Id::FrequencyResponses, true).is_empty());
    assert!(matches!(m.modal, Modal::PendingWindow { goto_tab: tab::Id::FrequencyResponses }));
    assert!(matches!(m.state, State::Analysing { active_tab: Tab::ImpulseResponses { .. }, .. }));

    let cmds = m.pending_window(PendingWindowMessage::Apply);
    assert!(matches!(m.modal, Modal::Closed));
    assert_eq!(m.window, Some(7));
    assert!(matches!(m.state, State::Analysing { active_tab: Tab::FrequencyResponses, .. }));
    // every analysis starts afresh, so the impulse response is asked for again
    assert_eq!(cmds.len(), 2);
    assert!(matches!(cmds[0], Cmd::ClearTabCache));
    assert!(matches!(cmds[1], Cmd::ComputeImpulseResponse(Id(1))));
}

#[test]
fn discarding_a_pending_window() {
    let mut m = analysing();
    m.open_tab(tab::Id::ImpulseResponses, false);
    m.open_tab(tab::Id::Measurements, true);
    let cmds = m.pending_window(PendingWindowMessage::Discard);
    assert_eq!(cmds.len(), 1);
    assert!(matches!(cmds[0], Cmd::ClearImpulseResponseOverlayCache));
    assert!(matches!(m.state, State::Analysing { active_tab: Tab::Measurements, .. }));
    assert!(m.pending_window(PendingWindowMessage::Discard).is_empty());
}

#[test]
fn an_unchanged_window_lets_the_user_leave() {
    let mut m = analysing();
    m.open_tab(tab::Id::ImpulseResponses, false);
    let cmds = m.open_tab(tab::Id::SpectralDecays, false);
    assert!(matches!(m.modal, Modal::Closed));
    assert!(matches!(m.state, State::Analysing { active_tab: Tab::SpectralDecays, .. }));
    assert_eq!(cmds.len(), 1);
}

#[test]
fn frequency_responses_and_smoothing() {
    let mut m = analysing();
    let cmds = m.open_tab(tab::Id::FrequencyResponses, false);
    assert_eq!(cmds.len(), 2);
    assert!(matches!(cmds[1], Cmd::ComputeImpulseResponse(Id(1))));
    let cmds = m.impulse_response_computed(Id(1), Some(42));
    assert_eq!(cmds.len(), 1);
    assert!(matches!(cmds[0], Cmd::ComputeFrequencyResponse(Id(1), 7)));
    let cmds = m.frequency_response_computed(Id(1), 5, 6);
    assert_eq!(cmds.len(), 1);
    assert!(matches!(cmds[0], Cmd::ClearTabCache));

    let cmds = m.change_smoothing(Smoothing::OneThird);
    assert_eq!(m.smoothing, Smoothing::OneThird);
    assert_eq!(cmds.len(), 1);
    assert!(matches!(cmds[0], Cmd::SmoothFrequencyResponse(Id(1), 3)));
    assert_eq!(m.frequency_response_smoothed(Id(1), 9).len(), 1);
    assert!(m.frequency_response_smoothed(Id(2), 9).is_empty());

    let cmds = m.change_smoothing(Smoothing::NoSmoothing);
    assert_eq!(cmds.len(), 1);
    assert!(matches!(cmds[0], Cmd::ClearTabCache));
    match &m.state {
        State::Analysing { analyses, .. } => {
            let fr = &analyses.get(Id(1)).unwrap().frequency_response;
            assert_eq!(fr.result().unwrap().smoothed, None);
        }
        State::Collecting => panic!("not analysing"),
    }
    assert_eq!(m.frequency_response_toggled(Id(1), false).len(), 1);
    assert!(m.frequency_response_toggled(Id(2), false).is_empty());

    // a new frequency response is smoothed as chosen
    m.change_smoothing(Smoothing::OneSixth);
    let cmds = m.frequency_response_computed(Id(1), 5, 6);
    assert_eq!(cmds.len(), 2);
    assert!(matches!(cmds[1], Cmd::SmoothFrequencyResponse(Id(1), 6)));
}

#[test]
fn smoothing_outside_the_frequency_response_tab_is_ignored() {
    let mut m = analysing();
    assert!(m.change_smoothing(Smoothing::OneThird).is_empty());
    assert_eq!(m.smoothing, Smoothing::NoSmoothing);
    assert!(m.frequency_response_computed(Id(1), 5, 6).is_empty());
}

#[test]
fn spectral_decays_follow_their_settings() {
    let mut m = analysing();
    assert_eq!(m.open_tab(tab::Id::SpectralDecays, false).len(), 1);
    let cmds = m.impulse_response_selected(Id(1));
    assert_eq!(cmds.len(), 2);
    assert!(matches!(cmds[1], Cmd::ComputeImpulseResponse(Id(1))));
    let cmds = m.impulse_response_computed(Id(1), Some(1));
    assert_eq!(cmds.len(), 1);
    assert!(matches!(cmds[0], Cmd::ComputeSpectralDecay(Id(1), p) if p == prefs()));
    assert_eq!(m.spectral_decay_computed(Id(1), 3).len(), 1);
    assert!(m.spectral_decay_computed(Id(9), 3).is_empty());

    m.open_spectral_decay_config();
    assert!(matches!(m.modal, Modal::SpectralDecayConfig(_)));
    let edited = Preferences { shift: TimeSpan::from_millis(11), ..prefs() };
    let cmds = m.spectral_decay_config_message(spectral_decay_config::Message::Apply(edited));
    assert!(matches!(m.modal, Modal::Closed));
    assert_eq!(m.spectral_decay_config, edited);
    assert_eq!(cmds.len(), 1);
    assert!(matches!(cmds[0], Cmd::ComputeSpectralDecay(Id(1), p) if p == edited));

    m.open_spectral_decay_config();
    assert!(m.spectral_decay_config_message(spectral_decay_config::Message::Discard).is_empty());
    assert!(matches!(m.modal, Modal::Closed));
    assert_eq!(m.spectral_decay_config, edited);
}

#[test]
fn spectrograms_follow_their_settings() {
    let mut m = analysing();
    m.open_tab(tab::Id::ImpulseResponses, false);
    m.impulse_response_selected(Id(1));
    m.impulse_response_computed(Id(1), Some(1));
    let cmds = m.open_tab(tab::Id::Spectrograms, false);
    assert_eq!(cmds.len(), 2);
    assert!(matches!(cmds[0], Cmd::ClearSpectrogramCache));
    assert!(matches!(cmds[1], Cmd::ComputeSpectrogram(Id(1), c) if c == Config::default()));
    assert_eq!(m.spectrogram_computed(Id(1), 4).len(), 1);
    assert!(m.spectrogram_computed(Id(2), 4).is_empty());

    m.open_spectrogram_config();
    let edited = Config { window_width: TimeSpan::from_millis(30), ..Config::default() };
    let cmds = m.spectrogram_config_message(spectrogram_config::Message::Apply(edited));
    assert!(cmds.is_empty());
    assert_eq!(m.spectrogram_config, edited);
    assert!(matches!(m.modal, Modal::Closed));
    match &m.state {
        State::Analysing { analyses, .. } => {
            assert!(analyses.get(Id(1)).unwrap().spectrogram.result().is_none());
        }
        State::Collecting => panic!("not analysing"),
    }
    assert!(m.spectrogram_config_message(spectrogram_config::Message::Close).is_empty());
}

#[test]
fn nothing_is_computed_without_a_loaded_loopback() {
    let mut m = Screen::new(0, prefs());
    m.measurement_loaded(measurement(1, true));
    assert!(matches!(m.state, State::Collecting));
    let broken: Loopback<u8, String> = Loopback::from_file_result(
        "lb".to_string(),
        "lb.wav".to_string(),
        LoadState::NotLoaded("unreadable".to_string()),
    );
    m.loopback_loaded(broken, None);
    assert!(matches!(m.state, State::Analysing { .. }));
    assert!(m.open_tab(tab::Id::ImpulseResponses, false).is_empty());
    assert!(matches!(m.state, State::Analysing { active_tab: Tab::Measurements, .. }));
    assert_eq!(m.impulse_response_selected(Id(1)).len(), 1);
    assert_eq!(m.open_tab(tab::Id::SpectralDecays, false).len(), 1);
}

#[test]
fn removing_the_last_loaded_measurement_stops_the_analysis() {
    let mut m = analysing();
    m.measurement_loaded(measurement(2, false));
    let cmds = m.measurement_message(measurement::Message::Select(Selected::Measurement(Id(2))));
    assert_eq!(cmds.len(), 1);
    assert!(matches!(cmds[0], Cmd::ClearSignalCache));
    assert_eq!(m.selected, Some(Selected::Measurement(Id(2))));
    assert!(m.measurement_message(measurement::Message::Remove(Id(1))).is_empty());
    assert!(matches!(m.state, State::Collecting));
    assert_eq!(m.measurements.iter().len(), 1);
}

#[test]
fn saving_an_impulse_response() {
    let mut m = analysing();
    let cmds = m.impulse_response_save_requested(Id(1));
    assert!(matches!(cmds[0], Cmd::ChooseImpulseResponseFile(Id(1))));
    assert!(m.save_impulse_response_to_file(Id(1), None).is_empty());
    let cmds = m.save_impulse_response_to_file(Id(1), Some("ir.wav".to_string()));
    assert_eq!(cmds.len(), 2);
    assert!(matches!(cmds[0], Cmd::ComputeImpulseResponse(Id(1))));
    assert!(matches!(&cmds[1], Cmd::RetrySaveImpulseResponse(Id(1), p) if p == "ir.wav"));
    m.impulse_response_computed(Id(1), Some(5));
    let cmds = m.save_impulse_response_to_file(Id(1), Some("ir.wav".to_string()));
    assert_eq!(cmds.len(), 1);
    assert!(matches!(&cmds[0], Cmd::SaveImpulseResponse(Id(1), p) if p == "ir.wav"));
    let collecting = Screen::new(0, prefs());
    assert!(collecting.impulse_response_save_requested(Id(1)).is_empty());
}

#[test]
fn saving_the_project_through_the_dialog() {
    let mut m = analysing();
    m.open_save_project_dialog();
    let cmds = m.project_save_dialog(save_project::Message::OpenFileDialog);
    assert!(matches!(cmds[0], Cmd::PickProjectSavePath));
    m.project_save_dialog(save_project::Message::ChangeProjectPath("/tmp/x/room.rpr".to_string()));
    let cmds = m.project_save_dialog(save_project::Message::Save);
    assert_eq!(cmds.len(), 1);
    assert!(matches!(&cmds[0], Cmd::SaveProject { path, operation: 0, export_from_memory: true } if path == "/tmp/x/room/room.rpr"));
    assert!(m.project_save_dialog(save_project::Message::Cancel).is_empty());
    assert!(matches!(m.modal, Modal::Closed));
    let cmds = m.save_project("a.rpr".to_string());
    assert!(matches!(&cmds[0], Cmd::SaveProject { path, .. } if path == "a.rpr"));
}

#[test]
fn charts_and_recordings() {
    let mut m = analysing();
    let shifted = m.offset.saturating_add(10);
    assert!(matches!(m.measurement_offset_changed(shifted)[0], Cmd::ClearSignalCache));
    assert_eq!(m.offset, shifted);
    assert!(matches!(m.spectrogram_offset_changed(shifted)[0], Cmd::ClearSpectrogramCache));
    m.recorded_loopback(3);
    assert!(m.is_loopback_loaded());
    m.recorded_measurement(Id(5), 2);
    assert_eq!(m.measurements.get(Id(5)).unwrap().name, "Measurement");
    assert_eq!(m.measurements.get(Id(5)).unwrap().path, None);
    assert!(m.inputs_ready(Id(5)));
    assert!(!m.inputs_ready(Id(6)));
}

type ScreenMsg = raumklang::screen::update::Message<u8, u8, u8, String, u8, u32, u32, u32, u32, u32>;

#[test]
fn messages_reach_their_handlers() {
    let mut m = Screen::new(0, prefs());
    assert!(m.update(ScreenMsg::LoopbackLoaded(Loopback::new("Loopback".to_string(), 1), Some(7))).is_empty());
    assert!(m.update(ScreenMsg::MeasurementLoaded(measurement(1, true))).is_empty());
    assert!(matches!(m.state, State::Analysing { .. }));
    m.update(ScreenMsg::OpenTab { to: tab::Id::ImpulseResponses, pending_differs: false });
    let cmds = m.update(ScreenMsg::ImpulseResponseSelected(Id(1)));
    assert_eq!(cmds.len(), 2);
    assert!(matches!(cmds[1], Cmd::ComputeImpulseResponse(Id(1))));
    assert!(m.update(ScreenMsg::ImpulseResponseComputed(Id(1), Some(3))).is_empty());
    let cmds = m.update(ScreenMsg::SaveImpulseResponse(Id(1)));
    assert!(matches!(cmds[0], Cmd::ChooseImpulseResponseFile(Id(1))));
    let cmds = m.update(ScreenMsg::SaveProject("a.rpr".to_string()));
    assert!(matches!(&cmds[0], Cmd::SaveProject { path, .. } if path == "a.rpr"));
    m.update(ScreenMsg::Measurement(measurement::Message::Remove(Id(1))));
    assert!(matches!(m.state, State::Collecting));
    let cmds = m.update(ScreenMsg::ProjectLoaded {
        path: "p.rpr".to_string(),
        loopback: None,
        measurements: vec!["m.wav".to_string()],
        operation: 2,
    });
    assert_eq!(cmds.len(), 1);
    assert!(m.loopback.is_none());
    m.update(ScreenMsg::NewProject);
    assert_eq!(m.project_path, None);
    assert!(matches!(m.update(ScreenMsg::LoadProject)[0], Cmd::PickProjectFile));
    assert!(matches!(m.update(ScreenMsg::LoadLoopback)[0], Cmd::PickLoopbackFile));
    assert!(matches!(m.update(ScreenMsg::LoadMeasurement)[0], Cmd::PickMeasurementFile));
    assert!(matches!(m.state, State::Collecting));
}
