use raumklang::decimal::ParseError;
use raumklang::duration::TimeSpan;
use raumklang::save_project;
use raumklang::signal_setup::{self, ConfigFields, SignalSetup};
use raumklang::spectral_decay_config::{self, Preferences};
use raumklang::spectrogram_config::{Action, Config, Message, SpectrogramConfig};

fn config(w: u64, b: u64, a: u64) -> Config {
    Config {
        window_width: TimeSpan::from_millis(w),
        span_before_peak: TimeSpan::from_millis(b),
        span_after_peak: TimeSpan::from_millis(a),
    }
}

#[test]
fn spectrogram_dialog_opens_with_nothing_to_apply() {
    let dialog = SpectrogramConfig::new(config(20, 10, 300));
    assert_eq!(dialog.edited_config(), None);
    assert_eq!(dialog.field_errors(), (None, None, None));
}

#[test]
fn spectrogram_dialog_offers_an_edited_config() {
    let mut dialog = SpectrogramConfig::new(config(20, 10, 300));
    let action = dialog.update(Message::WindowWidthChanged("25".to_string()));
    assert_eq!(action, Action::Nothing);
    assert_eq!(dialog.edited_config(), Some(config(25, 10, 300)));
}

#[test]
fn spectrogram_dialog_edit_back_offers_nothing() {
    let mut dialog = SpectrogramConfig::new(config(20, 10, 300));
    dialog.update(Message::SpanAfterPeakChanged("301".to_string()));
    dialog.update(Message::SpanAfterPeakChanged("300".to_string()));
    assert_eq!(dialog.edited_config(), None);
}

#[test]
fn spectrogram_dialog_invalid_field() {
    let mut dialog = SpectrogramConfig::new(config(20, 10, 300));
    dialog.update(Message::SpanBeforePeakChanged("ten".to_string()));
    assert_eq!(dialog.edited_config(), None);
    assert_eq!(dialog.field_errors(), (None, Some(ParseError::InvalidDigit), None));
    dialog.update(Message::WindowWidthChanged(String::new()));
    assert_eq!(
        dialog.field_errors(),
        (Some(ParseError::Empty), Some(ParseError::InvalidDigit), None)
    );
}

#[test]
fn spectrogram_dialog_resets() {
    let mut dialog = SpectrogramConfig::new(config(20, 10, 300));
    dialog.update(Message::ResetToDefault);
    assert_eq!(dialog.edited_config(), Some(Config::default()));
    dialog.update(Message::ResetToPrevious);
    assert_eq!(dialog.edited_config(), None);
    dialog.reset_to_config(config(1, 2, 3));
    assert_eq!(dialog.edited_config(), Some(config(1, 2, 3)));
    dialog.reset_to_default();
    assert_eq!(dialog.edited_config(), Some(Config::default()));
}

#[test]
fn spectrogram_dialog_default_shows_nothing_new() {
    let dialog = SpectrogramConfig::new(Config::default());
    assert_eq!(dialog.edited_config(), None);
}

#[test]
fn spectrogram_dialog_actions() {
    let mut dialog = SpectrogramConfig::new(config(20, 10, 300));
    assert_eq!(dialog.update(Message::Close), Action::Close);
    assert_eq!(dialog.update(Message::Apply(config(5, 6, 7))), Action::ConfigChanged(config(5, 6, 7)));
}

#[test]
fn spectral_decay_dialog_edits_and_answers() {
    let prefs = Preferences {
        shift: TimeSpan::from_millis(10),
        left_window_width: TimeSpan::from_millis(20),
        right_window_width: TimeSpan::from_millis(300),
        smoothing_fraction: 3,
    };
    let mut dialog = spectral_decay_config::Config::new(&prefs);
    assert_eq!(dialog.update(spectral_decay_config::Message::ShiftChanged("12".to_string())), None);
    assert_eq!(
        dialog.update(spectral_decay_config::Message::Apply(prefs)),
        Some(spectral_decay_config::Action::Apply(prefs))
    );
    assert_eq!(
        dialog.update(spectral_decay_config::Message::Discard),
        Some(spectral_decay_config::Action::Discard)
    );
}

#[test]
fn save_dialog_starts_empty() {
    let dialog = save_project::View::new(7u8, true);
    assert!(!dialog.can_save());
}

#[test]
fn save_dialog_puts_the_project_into_a_subdirectory() {
    let mut dialog = save_project::View::new(7u8, true);
    let action =
        dialog.update(save_project::Message::ChangeProjectPath("/home/me/room.rpr".to_string()));
    assert!(matches!(action, save_project::Action::Nothing));
    assert!(dialog.can_save());
    match dialog.update(save_project::Message::Save) {
        save_project::Action::Save(path, op, export) => {
            assert_eq!(path, "/home/me/room/room.rpr");
            assert_eq!(op, 7);
            assert!(export);
        }
        other => panic!("unexpected {other:?}"),
    }
}

#[test]
fn save_dialog_without_subdirectory_keeps_the_path() {
    let mut dialog = save_project::View::new(7u8, true);
    dialog.update(save_project::Message::ChangeProjectPath("/home/me/room.rpr".to_string()));
    dialog.update(save_project::Message::ToggleCreateSubdir(false));
    dialog.update(save_project::Message::ChangeOperation(9));
    dialog.update(save_project::Message::ToggleExportFromMemory(false));
    assert_eq!(dialog.compute_final_path(true), "/home/me/room/room.rpr");
    match dialog.update(save_project::Message::Save) {
        save_project::Action::Save(path, op, export) => {
            assert_eq!(path, "/home/me/room.rpr");
            assert_eq!(op, 9);
            assert!(!export);
        }
        other => panic!("unexpected {other:?}"),
    }
}

#[test]
fn save_dialog_other_answers() {
    let mut dialog = save_project::View::new(7u8, true);
    assert!(matches!(dialog.update(save_project::Message::OpenFileDialog), save_project::Action::PickFile));
    assert!(matches!(dialog.update(save_project::Message::Cancel), save_project::Action::Cancel));
}

#[test]
fn signal_setup_edits_and_hands_on() {
    let mut setup = SignalSetup::new(20, 20000, 5);
    assert_eq!(setup.update(signal_setup::Message::<u32>::Duration("6".to_string())), None);
    assert_eq!(setup.update(signal_setup::Message::<u32>::StartFrequency("30".to_string())), None);
    assert_eq!(setup.update(signal_setup::Message::Next(42u32)), Some(42));
}

#[test]
fn config_fields_show_numbers() {
    let fields = ConfigFields::new(5, 20, 20000);
    assert_eq!(fields.duration, "5");
    assert_eq!(fields.start_frequency, "20");
    assert_eq!(fields.end_frequency, "20000");
}

#[test]
fn spectral_decay_dialog_offers_what_its_fields_spell() {
    let prefs = Preferences {
        shift: TimeSpan::from_millis(10),
        left_window_width: TimeSpan::from_millis(20),
        right_window_width: TimeSpan::from_millis(300),
        smoothing_fraction: 3,
    };
    let mut dialog = spectral_decay_config::Config::new(&prefs);
    assert_eq!(dialog.edited_preferences(), Some(Preferences { smoothing_fraction: 24, ..prefs }));
    dialog.update(spectral_decay_config::Message::LeftWidthChanged("25".to_string()));
    assert_eq!(
        dialog.edited_preferences(),
        Some(Preferences { left_window_width: TimeSpan::from_millis(25), smoothing_fraction: 24, ..prefs })
    );
    dialog.update(spectral_decay_config::Message::RightWidthChanged("wide".to_string()));
    assert_eq!(dialog.edited_preferences(), None);
}

#[test]
fn spectrogram_dialog_shows_whole_milliseconds_of_an_exact_config() {
    let exact = Config {
        window_width: TimeSpan::from_millis(50),
        span_before_peak: TimeSpan::from_millis(10),
        span_after_peak: TimeSpan::from_micros(300_900),
    };
    let mut dialog = SpectrogramConfig::new(exact);
    // the fields read "50", "10" and "300": that differs from 300.9 ms
    assert_eq!(dialog.edited_config(), Some(config(50, 10, 300)));
    dialog.update(Message::SpanAfterPeakChanged("301".to_string()));
    assert_eq!(dialog.edited_config(), Some(config(50, 10, 301)));
    dialog.update(Message::ResetToPrevious);
    assert_eq!(dialog.edited_config(), Some(config(50, 10, 300)));
}

#[test]
fn spectral_decay_dialog_shows_whole_milliseconds() {
    let prefs = Preferences {
        shift: TimeSpan::from_micros(1_500),
        left_window_width: TimeSpan::from_millis(20),
        right_window_width: TimeSpan::from_micros(299_999),
        smoothing_fraction: 24,
    };
    let dialog = spectral_decay_config::Config::new(&prefs);
    assert_eq!(
        dialog.edited_preferences(),
        Some(Preferences {
            shift: TimeSpan::from_millis(1),
            left_window_width: TimeSpan::from_millis(20),
            right_window_width: TimeSpan::from_millis(299),
            smoothing_fraction: 24,
        })
    );
}

#[test]
fn save_dialog_opens_with_the_export_choice() {
    let mut dialog = save_project::View::new(7u8, false);
    dialog.update(save_project::Message::ChangeProjectPath("/a/b.rpr".to_string()));
    match dialog.update(save_project::Message::Save) {
        save_project::Action::Save(_, _, export) => assert!(!export),
        other => panic!("unexpected {other:?}"),
    }
}
