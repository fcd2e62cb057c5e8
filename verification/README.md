# raumklang

The decisions and bookkeeping of a room-acoustics measurement tool, verified
with Verus: which signals are loaded, which analyses (impulse response,
frequency response, spectral decay, spectrogram) each measurement has and
which of them to compute next, the dialogs that configure them, the recording
wizard, chart viewports and the planning of a project save.

The library decides; its owner runs the jobs it names (file dialogs, loading
and writing wave files, audio I/O, the signal processing) and reports back.
The types of that layer (signals, windows, results) are type parameters, so
every decision is proved for whatever they hold.

Layout:

- `src/screen.rs` and `src/screen/`: the main screen. Each handler states in
  its contract what it makes of the screen and which jobs (`Command`s) it
  starts; `screen/update.rs` dispatches every `Message` to its handler and
  proves that the screen analyses only while a loopback and a measurement are
  there.
- `src/analyses.rs`, `src/analysis.rs`, `src/frequency_response.rs`,
  `src/spectral_decay.rs`, `src/spectrogram.rs`: the analyses of each
  measurement and the requests that start them; `src/staged_analyses.rs`: the
  same as a two-stage pipeline.
- `src/measurement.rs`: measurements, the loopback, and their list.
- `src/recording.rs`, `src/signal_setup.rs`: the recording wizard.
- `src/spectrogram_config.rs`, `src/spectral_decay_config.rs`,
  `src/save_project.rs`: the dialogs; `src/project_save.rs`: which files a
  saved project records and which in-memory signals are written first.
- `src/decimal.rs`: reading and writing decimal numbers in text fields;
  `src/duration.rs`: exact lengths of time, shown as whole milliseconds.
- `src/units.rs`, `src/viewport.rs`, `src/window_builder.rs`: chart settings,
  the scrolled part of a chart, and the shape of the analysis window.
- `app/`: a terminal front end that loads wave files and shows what the screen
  asks for.
- `tests/`: tests of the library on concrete values.
