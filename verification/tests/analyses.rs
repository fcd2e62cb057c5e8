use raumklang::analyses::{Analyses, Start};
use raumklang::analysis::Computation;
use raumklang::frequency_response::{random_color, FrequencyResponse};
use raumklang::measurement::{Id, List, Loopback, LoadState, Measurement};
use raumklang::spectral_decay::{self, SpectralDecay};
use raumklang::spectrogram::{self, Spectrogram};

type A = Analyses<u32, u32, u32, u32, u32>;

#[test]
fn computation_lifecycle() {
    let mut c: Computation<u32> = Computation::default();
    assert!(matches!(c, Computation::Idle));
    assert_eq!(c.compute::<u8>(None), None);
    assert!(matches!(c, Computation::WaitingForImpulseResponse));
    let ir = 9u8;
    assert_eq!(c.compute(Some(&ir)), Some(&9));
    assert!(matches!(c, Computation::Computing));
    c.set_result(5);
    assert_eq!(c.result(), Some(&5));
    assert_eq!(c.compute(Some(&ir)), None);
    assert_eq!(c.result(), Some(&5));
    c.reset();
    assert_eq!(c.result(), None);
}

#[test]
fn spectrogram_and_spectral_decay_progress() {
    let mut s: Spectrogram<u32> = Spectrogram::default();
    assert_eq!(s.progress(), spectrogram::Progress::Idle);
    s.compute::<u8>(None);
    assert_eq!(s.progress(), spectrogram::Progress::ComputingImpulseResponse);
    s.compute(Some(&1u8));
    assert_eq!(s.progress(), spectrogram::Progress::Computing);
    s.set_result(3);
    assert_eq!(s.progress(), spectrogram::Progress::Finished);
    assert_eq!(s.result(), Some(&3));

    let mut d: SpectralDecay<u32> = SpectralDecay::default();
    assert_eq!(d.progress(), spectral_decay::Progress::Idle);
    d.compute(Some(&1u8));
    assert_eq!(d.progress(), spectral_decay::Progress::Computing);
    d.set_result(4);
    assert_eq!(d.progress(), spectral_decay::Progress::Finished);
    d.reset();
    assert_eq!(d.progress(), spectral_decay::Progress::Idle);
}

#[test]
fn random_colors_stay_below_full_intensity() {
    for _ in 0..200 {
        let c = random_color();
        assert!(c.r < 255 && c.g < 255 && c.b < 255);
    }
}

#[test]
fn frequency_response_smoothing() {
    let mut fr: FrequencyResponse<u32, u32> = FrequencyResponse::new();
    assert!(fr.is_shown);
    assert!(!fr.set_smoothed(1));
    fr.set_result(10, 11);
    assert!(fr.set_smoothed(12));
    assert_eq!(fr.result().unwrap().smoothed, Some(12));
    fr.reset_smoothing();
    let data = fr.result().unwrap();
    assert_eq!((data.origin, data.base_smoothed, data.smoothed), (10, 11, None));
}

#[test]
fn impulse_response_is_asked_for_once() {
    let mut a = A::new();
    assert!(!a.compute_impulse_response(Id(1), false));
    assert!(a.get(Id(1)).is_none());
    assert!(a.compute_impulse_response(Id(1), true));
    assert!(!a.compute_impulse_response(Id(1), true));
    assert!(matches!(a.get(Id(1)).unwrap().impulse_response, Computation::Computing));
    a.set_impulse_response(Id(1), Some(77));
    assert_eq!(a.get(Id(1)).unwrap().impulse_response(), Some(&77));
    assert!(!a.compute_impulse_response(Id(1), true));
}

#[test]
fn frequency_response_waits_for_the_impulse_response() {
    let mut a = A::new();
    assert_eq!(a.compute_frequency_response(Id(2), false), Start::Nothing);
    assert!(matches!(
        a.get(Id(2)).unwrap().frequency_response.state,
        Computation::WaitingForImpulseResponse
    ));
    assert_eq!(a.compute_frequency_response(Id(2), true), Start::ImpulseResponse);
    a.set_impulse_response(Id(2), Some(1));
    assert_eq!(a.compute_frequency_response(Id(2), true), Start::Analysis);
    a.set_frequency_response(Id(2), 5, 6);
    assert_eq!(a.compute_frequency_response(Id(2), true), Start::Nothing);
    assert_eq!(a.computed_frequency_responses(), vec![Id(2)]);
}

#[test]
fn spectral_decay_and_spectrogram_requests() {
    let mut a = A::new();
    assert_eq!(a.compute_spectral_decay(Id(3), true), Start::ImpulseResponse);
    assert_eq!(a.compute_spectrogram(Id(3), true), Start::Nothing);
    a.set_impulse_response(Id(3), Some(1));
    assert_eq!(a.compute_spectral_decay(Id(3), true), Start::Analysis);
    assert_eq!(a.compute_spectrogram(Id(3), false), Start::Analysis);
    assert!(a.set_spectral_decay(Id(3), 8));
    assert!(!a.set_spectral_decay(Id(4), 8));
    a.set_spectrogram(Id(3), 9);
    assert_eq!(a.compute_spectral_decay(Id(3), true), Start::Nothing);
    a.reset_spectral_decays_all();
    assert_eq!(a.compute_spectral_decay(Id(3), true), Start::Analysis);
    a.reset_spectrograms_all();
    assert!(a.restart_spectrogram(Id(3)));
    assert!(!a.restart_spectrogram(Id(5)));
}

#[test]
fn resetting_all_starts_afresh() {
    let mut a = A::new();
    a.set_impulse_response(Id(1), Some(1));
    a.ensure_entry(Id(1));
    a.set_impulse_response(Id(1), Some(1));
    a.set_frequency_response(Id(1), 2, 3);
    a.reset_all();
    let analysis = a.get(Id(1)).unwrap();
    assert!(matches!(analysis.impulse_response, Computation::Idle));
    assert!(matches!(analysis.frequency_response.state, Computation::Idle));
    assert!(a.computed_frequency_responses().is_empty());
}

#[test]
fn shown_flag_and_smoothed_curves() {
    let mut a = A::new();
    assert!(!a.set_frequency_shown(Id(1), false));
    a.set_frequency_response(Id(1), 2, 3);
    assert!(a.set_frequency_shown(Id(1), false));
    assert!(!a.get(Id(1)).unwrap().frequency_response.is_shown);
    assert!(a.set_smoothed(Id(1), 4));
    assert!(!a.set_smoothed(Id(7), 4));
    a.reset_smoothing_all();
    assert_eq!(a.get(Id(1)).unwrap().frequency_response.result().unwrap().smoothed, None);
    a.remove(Id(1));
    assert!(a.get(Id(1)).is_none());
}

#[test]
fn measurement_list_push_get_remove() {
    let mut list: List<u8> = List::new();
    assert!(list.is_empty());
    list.push(Measurement::new(Id(1), "a".to_string(), None, Some(1)));
    list.push(Measurement::new(Id(2), "b".to_string(), Some("b.wav".to_string()), None));
    list.push(Measurement::new(Id(3), "c".to_string(), None, Some(3)));
    assert_eq!(list.loaded(), vec![Id(1), Id(3)]);
    assert_eq!(list.get(Id(2)).unwrap().name, "b");
    assert!(!list.get(Id(2)).unwrap().is_loaded());
    assert_eq!(list.get(Id(3)).unwrap().signal(), Some(&3));
    let removed = list.remove(Id(1)).unwrap();
    assert_eq!(removed.id(), Id(1));
    assert!(list.get(Id(1)).is_none());
    assert!(list.remove(Id(1)).is_none());
    let ids: Vec<Id> = list.iter().iter().map(|m| m.id()).collect();
    assert_eq!(ids, vec![Id(2), Id(3)]);
}

#[test]
fn loopback_load_state() {
    let recorded: Loopback<u8, String> = Loopback::new("Loopback".to_string(), 4);
    assert!(recorded.is_loaded());
    assert_eq!(recorded.loaded(), Some(&4));
    assert_eq!(recorded.path, None);
    let failed: Loopback<u8, String> = Loopback::from_file_result(
        "lb".to_string(),
        "lb.wav".to_string(),
        LoadState::NotLoaded("broken".to_string()),
    );
    assert!(!failed.is_loaded());
    assert_eq!(failed.loaded(), None);
    assert_eq!(failed.path, Some("lb.wav".to_string()));
}
