use raumklang::recording::{Action, Backend, Kind, Message, Notification, Page, Recording, State};

// ports are names, the signal configuration a number, loudness and samples
// are integers, the volume a percentage, the backend a number, errors text
type Wizard = Recording<String, String, u32, i32, i16, u8, u32, String>;
type Msg = Message<String, String, u32, i32, i16, u8, u32, String>;

fn wizard() -> Wizard {
    Recording::new(
        Kind::Measurement,
        Some("in".to_string()),
        Some("out".to_string()),
        20,
        20000,
        5,
        50,
    )
}

#[test]
fn a_new_wizard_connects_first() {
    let w = wizard();
    assert_eq!(w.page(), Page::Connecting);
    assert!(w.needs_retry_ticks());
    assert_eq!(w.start_frequency, "20");
    assert_eq!(w.end_frequency, "20000");
    assert_eq!(w.duration, "5");
    assert_eq!(w.volume, 50);
}

#[test]
fn connection_failure_counts_down_and_retries() {
    let mut w = wizard();
    let a = w.update(Msg::BackendError { err: "down".to_string(), retry_in_ms: 3000, now_ms: 1000 });
    assert!(matches!(a, Action::Nothing));
    assert_eq!(w.page(), Page::ConnectionFailed);
    w.update(Msg::RetryTick { now_ms: 2500 });
    match &w.backend {
        Backend::Connecting(Some(retry)) => {
            assert_eq!(retry.end_ms, 4000);
            assert_eq!(retry.remaining_ms, 1500);
        }
        _ => panic!("not waiting to retry"),
    }
    w.update(Msg::RetryTick { now_ms: 9000 });
    match &w.backend {
        Backend::Connecting(Some(retry)) => assert_eq!(retry.remaining_ms, 0),
        _ => panic!("not waiting to retry"),
    }
    assert!(matches!(w.update(Msg::RetryNow), Action::RetryNow));
}

#[test]
fn connecting_asks_for_the_selected_ports() {
    let mut w = wizard();
    match w.update(Msg::BackendReady { backend: 1, notifications: true }) {
        Action::ConnectPorts { out_port, in_port } => {
            assert_eq!(out_port, Some("out".to_string()));
            assert_eq!(in_port, Some("in".to_string()));
        }
        other => panic!("unexpected {other:?}"),
    }
    assert_eq!(w.page(), Page::Setup);
    assert!(!w.needs_retry_ticks());
    assert!(matches!(w.update(Msg::RetryNow), Action::Nothing));
}

#[test]
fn without_notifications_nothing_connects() {
    let mut w = wizard();
    assert!(matches!(w.update(Msg::BackendReady { backend: 1, notifications: false }), Action::Nothing));
    assert_eq!(w.page(), Page::Connecting);
}

#[test]
fn whole_recording() {
    let mut w = wizard();
    w.update(Msg::BackendReady { backend: 1, notifications: true });
    assert!(matches!(w.update(Msg::VolumeChanged(70)), Action::SetVolume(70)));
    match w.update(Msg::RunTest(7)) {
        Action::RunTest { volume } => assert_eq!(volume, 70),
        other => panic!("unexpected {other:?}"),
    }
    assert_eq!(w.page(), Page::LoudnessTest);
    w.update(Msg::RmsChanged(-12));
    match &w.state {
        State::LoudnessTest { config, loudness } => {
            assert_eq!(*config, 7);
            assert_eq!(*loudness, Some(-12));
        }
        _ => panic!("not testing loudness"),
    }
    assert!(matches!(w.update(Msg::TestOk), Action::RunMeasurement(7)));
    assert_eq!(w.page(), Page::Measurement { finished: false });
    w.update(Msg::RecordingChunk(vec![1, 2]));
    w.update(Msg::RecordingChunk(vec![3]));
    w.update(Msg::RecordingFinished);
    assert_eq!(w.page(), Page::Measurement { finished: true });
    match w.update(Msg::Accept) {
        Action::Finished { out_port, in_port, config, kind, data } => {
            assert_eq!(out_port, Some("out".to_string()));
            assert_eq!(in_port, Some("in".to_string()));
            assert_eq!(config, 7);
            assert_eq!(kind, Kind::Measurement);
            assert_eq!(data, vec![1, 2, 3]);
        }
        other => panic!("unexpected {other:?}"),
    }
    assert_eq!(w.page(), Page::Setup);
    assert_eq!(w.selected_in_port, None);
}

#[test]
fn declining_goes_back_to_the_setup() {
    let mut w = wizard();
    w.update(Msg::BackendReady { backend: 1, notifications: true });
    w.update(Msg::RunTest(7));
    w.update(Msg::TestOk);
    assert!(matches!(w.update(Msg::Decline), Action::Nothing));
    assert_eq!(w.page(), Page::Setup);
    assert!(matches!(w.update(Msg::Cancel), Action::Cancel));
}

#[test]
fn port_notifications_and_selections() {
    let mut w = wizard();
    assert!(matches!(w.update(Msg::OutPortSelected("x".to_string())), Action::Nothing));
    w.update(Msg::BackendReady { backend: 1, notifications: true });
    assert!(matches!(w.update(Msg::InPortSelected("y".to_string())), Action::ConnectInPort(p) if p == "y"));
    w.update(Msg::JackNotification(Notification::InPortConnected("y".to_string())));
    assert_eq!(w.selected_in_port, Some("y".to_string()));
    w.update(Msg::JackNotification(Notification::OutPortDisconnected));
    assert_eq!(w.selected_out_port, None);
    w.update(Msg::StartFrequencyChanged("30".to_string()));
    assert_eq!(w.start_frequency, "30");
}

#[test]
fn test_ok_outside_the_loudness_test_goes_to_setup() {
    let mut w = wizard();
    w.update(Msg::BackendReady { backend: 1, notifications: true });
    assert!(matches!(w.update(Msg::TestOk), Action::Nothing));
    assert_eq!(w.page(), Page::Setup);
}
