//! The recording wizard: connect to the audio server, choose ports and a
//! signal, test the loudness, record, then accept or decline the recording.
//!
//! The wizard decides; whoever runs it talks to the audio server. Each
//! message returns an `Action` that says what to do. The types it carries
//! are those of the audio layer: `P` an input port, `Q` an output port, `C`
//! a signal configuration, `L` a loudness reading, `S` a sample, `V` a
//! volume, `B` a connected audio backend and `E` a connection error.
use vstd::prelude::*;

use crate::decimal::{decimal, format_u64};

verus! {

/// What is recorded: the loopback (the signal as played), or a measurement.
#[derive(Debug, Clone, Copy, PartialEq, Eq, Structural)]
pub enum Kind {
    Loopback,
    Measurement,
}

/// A recording in progress or done.
#[derive(Debug)]
pub struct Measurement<C, L, S> {
    pub loudness: Option<L>,
    pub data: Vec<S>,
    pub config: C,
    pub finished: bool,
}

/// The step of the wizard.
#[derive(Debug)]
pub enum State<C, L, S> {
    Setup,
    LoudnessTest { config: C, loudness: Option<L> },
    Measurement(Measurement<C, L, S>),
}

/// A failed connection attempt, and when the next one is due (times in
/// milliseconds on a monotonic clock).
#[derive(Debug)]
pub struct Retry<E> {
    pub err: E,
    pub end_ms: u64,
    pub remaining_ms: u64,
}

/// The connection to the audio server.
#[derive(Debug)]
pub enum Backend<B, E> {
    Connecting(Option<Retry<E>>),
    Connected { backend: B },
}

/// What the audio server reports about the ports.
#[derive(Debug, Clone)]
pub enum Notification<P, Q> {
    OutPortConnected(Q),
    OutPortDisconnected,
    InPortConnected(P),
    InPortDisconnected,
}

/// What happens to the wizard.
#[derive(Debug)]
pub enum Message<P, Q, C, L, S, V, B, E> {
    OutPortSelected(Q),
    InPortSelected(P),
    StartFrequencyChanged(String),
    EndFrequencyChanged(String),
    DurationChanged(String),
    VolumeChanged(V),
    TestOk,
    RmsChanged(L),
    RunTest(C),
    /// The backend is up; `notifications` is whether its notification
    /// channel could be taken over.
    BackendReady { backend: B, notifications: bool },
    /// A connection attempt failed at `now_ms`; the next is due `retry_in_ms` later.
    BackendError { err: E, retry_in_ms: u64, now_ms: u64 },
    RetryTick { now_ms: u64 },
    JackNotification(Notification<P, Q>),
    RecordingChunk(Vec<S>),
    RecordingFinished,
    Chart,
    Back,
    Cancel,
    RetryNow,
    Decline,
    Accept,
}

/// What the owner of the wizard is to do.
#[derive(Debug)]
pub enum Action<P, Q, C, S, V> {
    Nothing,
    /// Close the wizard without a result.
    Cancel,
    /// Listen to the backend's notifications and connect the given ports.
    ConnectPorts { out_port: Option<Q>, in_port: Option<P> },
    ConnectOutPort(Q),
    ConnectInPort(P),
    SetVolume(V),
    /// Set the volume and play the test signal, reporting loudness readings.
    RunTest { volume: V },
    /// Record with the given signal, reporting loudness readings and chunks.
    RunMeasurement(C),
    /// Try to connect now.
    RetryNow,
    /// Close the wizard with a recording.
    Finished { out_port: Option<Q>, in_port: Option<P>, config: C, kind: Kind, data: Vec<S> },
}

/// The wizard.
#[derive(Debug)]
pub struct Recording<P, Q, C, L, S, V, B, E> {
    pub kind: Kind,
    pub state: State<C, L, S>,
    pub volume: V,
    pub backend: Backend<B, E>,
    pub selected_in_port: Option<P>,
    pub selected_out_port: Option<Q>,
    pub start_frequency: String,
    pub end_frequency: String,
    pub duration: String,
}

/// The page the wizard shows.
#[derive(Debug, Clone, Copy, PartialEq, Eq, Structural)]
pub enum Page {
    Connecting,
    ConnectionFailed,
    Setup,
    LoudnessTest,
    Measurement { finished: bool },
}

pub open spec fn is_connected<B, E>(b: Backend<B, E>) -> bool {
    b is Connected
}

impl<P: Clone, Q: Clone, C: Clone, L, S: Copy, V: Copy, B, E> Recording<P, Q, C, L, S, V, B, E> {
    /// Opens the wizard on the given ports and signal, at half volume
    /// (`half_volume`), not yet connected.
    pub fn new(
        kind: Kind,
        in_port: Option<P>,
        out_port: Option<Q>,
        start_frequency: u64,
        end_frequency: u64,
        duration_secs: u64,
        half_volume: V,
    ) -> (r: Self)
        ensures
            r.kind == kind,
            r.state is Setup,
            r.backend == Backend::<B, E>::Connecting(None),
            r.selected_in_port == in_port,
            r.selected_out_port == out_port,
            r.start_frequency@ == decimal(start_frequency as nat),
            r.end_frequency@ == decimal(end_frequency as nat),
            r.duration@ == decimal(duration_secs as nat),
            r.volume == half_volume,
    {
        Recording {
            kind,
            state: State::Setup,
            backend: Backend::Connecting(None),
            selected_in_port: in_port,
            selected_out_port: out_port,
            start_frequency: format_u64(start_frequency),
            end_frequency: format_u64(end_frequency),
            duration: format_u64(duration_secs),
            volume: half_volume,
        }
    }

    /// The page to show.
    pub fn page(&self) -> (r: Page)
        ensures
            r == match self.backend {
                Backend::Connecting(None) => Page::Connecting,
                Backend::Connecting(Some(_)) => Page::ConnectionFailed,
                Backend::Connected { .. } => match self.state {
                    State::Setup => Page::Setup,
                    State::LoudnessTest { .. } => Page::LoudnessTest,
                    State::Measurement(m) => Page::Measurement { finished: m.finished },
                },
            },
    {
        match &self.backend {
            Backend::Connecting(None) => Page::Connecting,
            Backend::Connecting(Some(_)) => Page::ConnectionFailed,
            Backend::Connected { .. } => match &self.state {
                State::Setup => Page::Setup,
                State::LoudnessTest { .. } => Page::LoudnessTest,
                State::Measurement(m) => Page::Measurement { finished: m.finished },
            },
        }
    }

    /// Whether the retry countdown is to be ticked: while not connected.
    pub fn needs_retry_ticks(&self) -> (r: bool)
        ensures
            r == (self.backend is Connecting),
    {
        match &self.backend {
            Backend::Connecting(_) => true,
            Backend::Connected { .. } => false,
        }
    }

    /// Handles one message.
    pub fn update(&mut self, message: Message<P, Q, C, L, S, V, B, E>) -> (r: Action<P, Q, C, S, V>)
        requires
            message matches Message::BackendError { retry_in_ms, now_ms, .. } ==> now_ms
                + retry_in_ms <= u64::MAX,
        ensures
            final(self).kind == old(self).kind,
            final(self).volume == (if message matches Message::VolumeChanged(v) && is_connected(
                old(self).backend,
            ) {
                message->VolumeChanged_0
            } else {
                old(self).volume
            }),
            final(self).selected_out_port == (match message {
                Message::JackNotification(Notification::OutPortConnected(q)) => Some(q),
                Message::JackNotification(Notification::OutPortDisconnected) => None,
                Message::Accept => if is_connected(old(self).backend) && old(self).state is Measurement {
                    None
                } else {
                    old(self).selected_out_port
                },
                _ => old(self).selected_out_port,
            }),
            final(self).selected_in_port == (match message {
                Message::JackNotification(Notification::InPortConnected(p)) => Some(p),
                Message::JackNotification(Notification::InPortDisconnected) => None,
                Message::Accept => if is_connected(old(self).backend) && old(self).state is Measurement {
                    None
                } else {
                    old(self).selected_in_port
                },
                _ => old(self).selected_in_port,
            }),
            final(self).start_frequency@ == (match message {
                Message::StartFrequencyChanged(t) => t@,
                _ => old(self).start_frequency@,
            }),
            final(self).end_frequency@ == (match message {
                Message::EndFrequencyChanged(t) => t@,
                _ => old(self).end_frequency@,
            }),
            final(self).duration@ == (match message {
                Message::DurationChanged(t) => t@,
                _ => old(self).duration@,
            }),
            message matches Message::BackendReady { backend, notifications } ==> (if notifications {
                    &&& final(self).backend == Backend::<B, E>::Connected { backend }
                    &&& r is ConnectPorts
                    &&& (r->ConnectPorts_out_port is Some <==> old(self).selected_out_port is Some)
                    &&& (r->ConnectPorts_in_port is Some <==> old(self).selected_in_port is Some)
                    &&& (r->ConnectPorts_out_port is Some ==> cloned(old(self).selected_out_port->0, r->ConnectPorts_out_port->0))
                    &&& (r->ConnectPorts_in_port is Some ==> cloned(old(self).selected_in_port->0, r->ConnectPorts_in_port->0))
                    &&& final(self).state == old(self).state
                } else {
                    r is Nothing && final(self).backend == old(self).backend
                        && final(self).state == old(self).state
                }),
            message matches Message::BackendError { err, retry_in_ms, now_ms } ==> ({
                    &&& r is Nothing
                    &&& final(self).backend == Backend::<B, E>::Connecting(
                        Some(Retry { err, end_ms: (now_ms + retry_in_ms) as u64, remaining_ms: retry_in_ms }),
                    )
                    &&& final(self).state == old(self).state
                }),
            message matches Message::RetryTick { now_ms } ==> ({
                    &&& r is Nothing
                    &&& final(self).state == old(self).state
                    &&& match old(self).backend {
                        Backend::Connecting(Some(retry)) => final(self).backend
                            == Backend::<B, E>::Connecting(
                            Some(Retry {
                                err: retry.err,
                                end_ms: retry.end_ms,
                                remaining_ms: if retry.end_ms >= now_ms {
                                    (retry.end_ms - now_ms) as u64
                                } else {
                                    0
                                },
                            }),
                        ),
                        _ => final(self).backend == old(self).backend,
                    }
                }),
            message matches Message::JackNotification(n) ==> ({
                    &&& r is Nothing
                    &&& final(self).state == old(self).state
                    &&& final(self).backend == old(self).backend
                    &&& match n {
                        Notification::OutPortConnected(q) => final(self).selected_out_port == Some(q)
                            && final(self).selected_in_port == old(self).selected_in_port,
                        Notification::OutPortDisconnected => final(self).selected_out_port is None
                            && final(self).selected_in_port == old(self).selected_in_port,
                        Notification::InPortConnected(p) => final(self).selected_in_port == Some(p)
                            && final(self).selected_out_port == old(self).selected_out_port,
                        Notification::InPortDisconnected => final(self).selected_in_port is None
                            && final(self).selected_out_port == old(self).selected_out_port,
                    }
                }),
            message matches Message::OutPortSelected(q) ==> ({
                    &&& final(self).state == old(self).state
                    &&& final(self).backend == old(self).backend
                    &&& final(self).selected_out_port == old(self).selected_out_port
                    &&& if is_connected(old(self).backend) {
                        r == Action::<P, Q, C, S, V>::ConnectOutPort(q)
                    } else {
                        r is Nothing
                    }
                }),
            message matches Message::InPortSelected(p) ==> ({
                    &&& final(self).state == old(self).state
                    &&& final(self).backend == old(self).backend
                    &&& final(self).selected_in_port == old(self).selected_in_port
                    &&& if is_connected(old(self).backend) {
                        r == Action::<P, Q, C, S, V>::ConnectInPort(p)
                    } else {
                        r is Nothing
                    }
                }),
            message matches Message::VolumeChanged(v) ==> ({
                    &&& final(self).state == old(self).state
                    &&& final(self).backend == old(self).backend
                    &&& if is_connected(old(self).backend) {
                        r == Action::<P, Q, C, S, V>::SetVolume(v) && final(self).volume == v
                    } else {
                        r is Nothing && final(self).volume == old(self).volume
                    }
                }),
            message matches Message::RmsChanged(l) ==> ({
                    &&& r is Nothing
                    &&& final(self).backend == old(self).backend
                    &&& match old(self).state {
                        State::LoudnessTest { config, .. } => final(self).state
                            == State::<C, L, S>::LoudnessTest { config, loudness: Some(l) },
                        State::Measurement(m) => final(self).state == State::<C, L, S>::Measurement(
                            Measurement { loudness: Some(l), data: m.data, config: m.config, finished: m.finished },
                        ),
                        State::Setup => final(self).state is Setup,
                    }
                }),
            message matches Message::RunTest(c) ==> ({
                    &&& final(self).backend == old(self).backend
                    &&& if is_connected(old(self).backend) {
                        &&& r == Action::<P, Q, C, S, V>::RunTest { volume: old(self).volume }
                        &&& final(self).state == State::<C, L, S>::LoudnessTest { config: c, loudness: None }
                    } else {
                        r is Nothing && final(self).state == old(self).state
                    }
                }),
            message matches Message::TestOk ==> ({
                    &&& final(self).backend == old(self).backend
                    &&& if !is_connected(old(self).backend) {
                        r is Nothing && final(self).state == old(self).state
                    } else {
                        match old(self).state {
                            State::LoudnessTest { config, .. } => {
                                &&& r matches Action::RunMeasurement(c2)
                                &&& cloned(config, c2)
                                &&& final(self).state matches State::Measurement(m)
                                &&& m.loudness is None && m.data@.len() == 0 && m.config == config
                                &&& !m.finished
                            },
                            _ => r is Nothing && final(self).state is Setup,
                        }
                    }
                }),
            message matches Message::RecordingChunk(chunk) ==> ({
                    &&& r is Nothing
                    &&& final(self).backend == old(self).backend
                    &&& match old(self).state {
                        State::Measurement(m) => final(self).state matches State::Measurement(m2)
                            && m2.data@ == m.data@ + chunk@ && m2.loudness == m.loudness
                            && m2.config == m.config && m2.finished == m.finished,
                        _ => final(self).state == old(self).state,
                    }
                }),
            message matches Message::RecordingFinished ==> ({
                    &&& r is Nothing
                    &&& final(self).backend == old(self).backend
                    &&& match old(self).state {
                        State::Measurement(m) => final(self).state == State::<C, L, S>::Measurement(
                            Measurement { loudness: m.loudness, data: m.data, config: m.config, finished: true },
                        ),
                        _ => final(self).state == old(self).state,
                    }
                }),
            message matches Message::Cancel ==> (r is Cancel && final(self).state == old(self).state
                    && final(self).backend == old(self).backend),
            (message matches Message::Back || message matches Message::Decline) ==> (r is Nothing && final(self).state is Setup
                    && final(self).backend == old(self).backend),
            message matches Message::RetryNow ==> ({
                    &&& final(self).state == old(self).state
                    &&& final(self).backend == old(self).backend
                    &&& if old(self).backend matches Backend::Connecting(Some(_)) {
                        r is RetryNow
                    } else {
                        r is Nothing
                    }
                }),
            message matches Message::Accept ==> ({
                    &&& final(self).backend == old(self).backend
                    &&& if !is_connected(old(self).backend) {
                        r is Nothing && final(self).state == old(self).state
                            && final(self).selected_in_port == old(self).selected_in_port
                            && final(self).selected_out_port == old(self).selected_out_port
                    } else {
                        &&& final(self).state is Setup
                        &&& match old(self).state {
                            State::Measurement(m) => {
                                &&& r == Action::<P, Q, C, S, V>::Finished {
                                    out_port: old(self).selected_out_port,
                                    in_port: old(self).selected_in_port,
                                    config: m.config,
                                    kind: old(self).kind,
                                    data: m.data,
                                }
                                &&& final(self).selected_in_port is None
                                &&& final(self).selected_out_port is None
                            },
                            _ => r is Nothing && final(self).selected_in_port
                                == old(self).selected_in_port && final(self).selected_out_port
                                == old(self).selected_out_port,
                        }
                    }
                }),
            (message matches Message::StartFrequencyChanged(_) || message matches Message::EndFrequencyChanged(_) || message matches Message::DurationChanged(_) || message matches Message::Chart) ==> ({
                    &&& r is Nothing
                    &&& final(self).state == old(self).state
                    &&& final(self).backend == old(self).backend
                }),
    {
        match message {
            Message::BackendReady { backend, notifications } => {
                if notifications {
                    let out_port = match &self.selected_out_port {
                        Some(q) => Some(q.clone()),
                        None => None,
                    };
                    let in_port = match &self.selected_in_port {
                        Some(p) => Some(p.clone()),
                        None => None,
                    };
                    self.backend = Backend::Connected { backend };
                    Action::ConnectPorts { out_port, in_port }
                } else {
                    Action::Nothing
                }
            },
            Message::BackendError { err, retry_in_ms, now_ms } => {
                self.backend = Backend::Connecting(
                    Some(Retry { err, end_ms: now_ms + retry_in_ms, remaining_ms: retry_in_ms }),
                );
                Action::Nothing
            },
            Message::JackNotification(notification) => {
                match notification {
                    Notification::OutPortConnected(port) => {
                        self.selected_out_port = Some(port);
                    },
                    Notification::OutPortDisconnected => {
                        self.selected_out_port = None;
                    },
                    Notification::InPortConnected(port) => {
                        self.selected_in_port = Some(port);
                    },
                    Notification::InPortDisconnected => {
                        self.selected_in_port = None;
                    },
                }
                Action::Nothing
            },
            Message::OutPortSelected(port) => {
                if let Backend::Connected { .. } = &self.backend {
                    Action::ConnectOutPort(port)
                } else {
                    Action::Nothing
                }
            },
            Message::InPortSelected(port) => {
                if let Backend::Connected { .. } = &self.backend {
                    Action::ConnectInPort(port)
                } else {
                    Action::Nothing
                }
            },
            Message::RetryTick { now_ms } => {
                if let Backend::Connecting(Some(retry)) = &mut self.backend {
                    retry.remaining_ms = if retry.end_ms >= now_ms {
                        retry.end_ms - now_ms
                    } else {
                        0
                    };
                }
                Action::Nothing
            },
            Message::VolumeChanged(volume) => {
                if let Backend::Connected { .. } = &self.backend {
                    self.volume = volume;
                    Action::SetVolume(volume)
                } else {
                    Action::Nothing
                }
            },
            Message::RmsChanged(new_loudness) => {
                match &mut self.state {
                    State::LoudnessTest { loudness, .. } => {
                        *loudness = Some(new_loudness);
                    },
                    State::Measurement(measurement) => {
                        measurement.loudness = Some(new_loudness);
                    },
                    State::Setup => {},
                }
                Action::Nothing
            },
            Message::RunTest(signal_config) => {
                if let Backend::Connected { .. } = &self.backend {
                    self.state = State::LoudnessTest { config: signal_config, loudness: None };
                    Action::RunTest { volume: self.volume }
                } else {
                    Action::Nothing
                }
            },
            Message::TestOk => {
                if let Backend::Connected { .. } = &self.backend {
                    let mut state = State::Setup;
                    std::mem::swap(&mut state, &mut self.state);
                    match state {
                        State::LoudnessTest { config, .. } => {
                            let run = config.clone();
                            self.state = State::Measurement(
                                Measurement { loudness: None, data: Vec::new(), config, finished: false },
                            );
                            Action::RunMeasurement(run)
                        },
                        _ => Action::Nothing,
                    }
                } else {
                    Action::Nothing
                }
            },
            Message::RecordingChunk(chunk) => {
                if let State::Measurement(measurement) = &mut self.state {
                    let mut chunk = chunk;
                    measurement.data.append(&mut chunk);
                }
                Action::Nothing
            },
            Message::RecordingFinished => {
                if let State::Measurement(measurement) = &mut self.state {
                    measurement.finished = true;
                }
                Action::Nothing
            },
            Message::Cancel => Action::Cancel,
            Message::Back | Message::Decline => {
                self.state = State::Setup;
                Action::Nothing
            },
            Message::RetryNow => {
                if let Backend::Connecting(Some(_)) = &self.backend {
                    Action::RetryNow
                } else {
                    Action::Nothing
                }
            },
            Message::Accept => {
                if let Backend::Connected { .. } = &self.backend {
                    let mut state = State::Setup;
                    std::mem::swap(&mut state, &mut self.state);
                    match state {
                        State::Measurement(measurement) => {
                            let out_port = self.selected_out_port.take();
                            let in_port = self.selected_in_port.take();
                            Action::Finished {
                                out_port,
                                in_port,
                                config: measurement.config,
                                kind: self.kind,
                                data: measurement.data,
                            }
                        },
                        _ => Action::Nothing,
                    }
                } else {
                    Action::Nothing
                }
            },
            Message::StartFrequencyChanged(start) => {
                self.start_frequency = start;
                Action::Nothing
            },
            Message::EndFrequencyChanged(end) => {
                self.end_frequency = end;
                Action::Nothing
            },
            Message::DurationChanged(duration) => {
                self.duration = duration;
                Action::Nothing
            },
            Message::Chart => Action::Nothing,
        }
    }
}

} // verus!
