//! Switching tabs on the main screen, and the dialog that holds a switch
//! back while an edited window is neither applied nor discarded.
use vstd::prelude::*;

use crate::analyses::{Analyses, Analysis, is_fresh};
use crate::measurement::{Id, loaded_ids};
use crate::modal::Modal;
use crate::screen::analysis_events::only_state_changes;
use crate::screen::{
    Command, Main, State, fr_request, inputs_ready, ready_for, request_frequency_response,
    request_spectral_decay, request_spectrogram, same_settings, same_signals, sd_request,
    sg_request,
};
use crate::tab::{self, Tab};

verus! {

/// The user's answer in the pending-window dialog.
#[derive(Debug, Clone, Copy, PartialEq, Eq, Structural)]
pub enum PendingWindowMessage {
    /// Drop the edited window.
    Discard,
    /// Use the edited window from now on.
    Apply,
}

/// `new` and `cmds` are what asking, one after the other, for the frequency
/// response of each `(id, ready)` of `requests` through `window` makes of
/// `old`; `ready` tells whether the signals of `id` are loaded.
pub open spec fn fr_requests_all<W: Clone, Op, I, F, L, D, G>(
    old: Map<usize, Analysis<I, F, L, D, G>>,
    new: Map<usize, Analysis<I, F, L, D, G>>,
    requests: Seq<(Id, bool)>,
    window: W,
    cmds: Seq<Command<W, Op>>,
) -> bool {
    exists|maps: Seq<Map<usize, Analysis<I, F, L, D, G>>>, chunks: Seq<Seq<Command<W, Op>>>|
        fr_chain(old, new, requests, window, cmds, maps, chunks)
}

/// The requests of `fr_requests_all` one by one: `maps[i]` is the analyses
/// before the `i`-th request and `chunks[i]` the jobs it starts.
pub open spec fn fr_chain<W: Clone, Op, I, F, L, D, G>(
    old: Map<usize, Analysis<I, F, L, D, G>>,
    new: Map<usize, Analysis<I, F, L, D, G>>,
    requests: Seq<(Id, bool)>,
    window: W,
    cmds: Seq<Command<W, Op>>,
    maps: Seq<Map<usize, Analysis<I, F, L, D, G>>>,
    chunks: Seq<Seq<Command<W, Op>>>,
) -> bool {
    &&& maps.len() == requests.len() + 1
    &&& chunks.len() == requests.len()
    &&& maps[0] == old
    &&& maps.last() == new
    &&& forall|i: int|
        0 <= i < requests.len() ==> fr_request(
            maps[i],
            maps[i + 1],
            requests[i].0,
            requests[i].1,
            window,
            #[trigger] chunks[i],
        )
    &&& cmds == chunks.flatten_alt()
}

/// A request for a frequency response never leaves it idle: it is kept once
/// computed, and otherwise computing or waiting for the impulse response.
proof fn lemma_fr_requested_not_idle<I, F, L, D, G>(
    a: Analysis<I, F, L, D, G>,
    b: Analysis<I, F, L, D, G>,
    ready: bool,
    start: crate::analyses::Start,
)
    requires
        crate::analyses::fr_requested(a, b, ready, start),
    ensures
        !(b.frequency_response.state is Idle),
{
}

/// After the first `k` requests of a chain, each of the measurements they
/// named has an analysis whose frequency response is not idle.
proof fn lemma_fr_chain_covers<W: Clone, Op, I, F, L, D, G>(
    old: Map<usize, Analysis<I, F, L, D, G>>,
    new: Map<usize, Analysis<I, F, L, D, G>>,
    requests: Seq<(Id, bool)>,
    window: W,
    cmds: Seq<Command<W, Op>>,
    maps: Seq<Map<usize, Analysis<I, F, L, D, G>>>,
    chunks: Seq<Seq<Command<W, Op>>>,
    k: int,
)
    requires
        fr_chain(old, new, requests, window, cmds, maps, chunks),
        0 <= k <= requests.len(),
    ensures
        forall|j: int|
            0 <= j < k ==> #[trigger] maps[k].contains_key(requests[j].0.0) && !(
            maps[k][requests[j].0.0].frequency_response.state is Idle),
    decreases k,
{
    if k > 0 {
        lemma_fr_chain_covers(old, new, requests, window, cmds, maps, chunks, k - 1);
        let id = requests[k - 1].0;
        let prev = maps[k - 1];
        let next = maps[k];
        let ready = requests[k - 1].1;
        let chunk = chunks[k - 1];
        assert(fr_request(prev, next, id, ready, window, chunk));
        let (a, start) = choose|a: Analysis<I, F, L, D, G>, start: crate::analyses::Start|
            {
                &&& crate::analyses::entry_changed(prev, next, id, a)
                &&& crate::analyses::fr_requested(a, next[id.0], ready, start)
                &&& crate::screen::fr_start_commands(start, id, window, chunk)
            };
        lemma_fr_requested_not_idle(a, next[id.0], ready, start);
        assert forall|j: int| 0 <= j < k implies #[trigger] maps[k].contains_key(requests[j].0.0)
            && !(maps[k][requests[j].0.0].frequency_response.state is Idle) by {
            let key = requests[j].0.0;
            if key != id.0 {
                assert(prev.contains_key(key));
                assert(next.remove(id.0).contains_key(key));
                assert(next.remove(id.0)[key] == prev.remove(id.0)[key]);
            }
        }
    }
}

/// Opening the frequency-response tab asks for the frequency response of
/// every loaded measurement: afterwards each has an analysis whose frequency
/// response is computed, being computed, or waiting for its impulse response;
/// the analyses of other measurements stay as they were.
pub proof fn law_frequency_responses_of_all_loaded_measurements<
    W: Clone,
    S,
    LB,
    LE,
    Op: Copy,
    I,
    F,
    L,
    D,
    G,
>(
    old: Main<W, S, LB, LE, Op, I, F, L, D, G>,
    new: Main<W, S, LB, LE, Op, I, F, L, D, G>,
    pending_differs: bool,
    r: Seq<Command<W, Op>>,
)
    requires
        open_tab_post(old, new, tab::Id::FrequencyResponses, pending_differs, r),
        old.state is Analysing,
        !held_back(old, tab::Id::FrequencyResponses, pending_differs),
    ensures
        new.state is Analysing,
        new.state->active_tab is FrequencyResponses,
        r.len() >= 1 && r[0] == Command::<W, Op>::ClearTabCache,
        forall|id: Id|
            #[trigger] loaded_ids(old.measurements.items()).contains(id) ==> {
                &&& new.state->analyses@.contains_key(id.0)
                &&& !(new.state->analyses@[id.0].frequency_response.state is Idle)
            },
{
    let ids = loaded_ids(old.measurements.items());
    let requests = loaded_requests(old);
    let before = old.state->analyses@;
    let after = new.state->analyses@;
    let window = old.window.unwrap();
    let cmds = r.drop_first();
    assert(fr_requests_all(before, after, requests, window, cmds));
    let (maps, chunks) = choose|
        maps: Seq<Map<usize, Analysis<I, F, L, D, G>>>,
        chunks: Seq<Seq<Command<W, Op>>>,
    | fr_chain(before, after, requests, window, cmds, maps, chunks);
    lemma_fr_chain_covers(before, after, requests, window, cmds, maps, chunks, requests.len() as int);
    assert forall|id: Id| #[trigger] ids.contains(id) implies {
        &&& after.contains_key(id.0)
        &&& !(after[id.0].frequency_response.state is Idle)
    } by {
        let j = choose|j: int| 0 <= j < ids.len() && ids[j] == id;
        assert(requests[j].0 == id);
        assert(maps[requests.len() as int].contains_key(requests[j].0.0));
    }
}

/// Opening the spectrogram tab asks for the spectrogram of the selected
/// measurement: where its signals are loaded, it then has an analysis whose
/// spectrogram is computed, being computed (`ComputeSpectrogram` with the
/// screen's settings starting exactly where it was not computed and the
/// impulse response was), or waiting for its impulse response, whose
/// computation is under way. With nothing selected, no analysis changes.
pub proof fn law_spectrogram_tab_asks_for_the_selected_spectrogram<
    W: Clone,
    S,
    LB,
    LE,
    Op: Copy,
    I,
    F,
    L,
    D,
    G,
>(
    old: Main<W, S, LB, LE, Op, I, F, L, D, G>,
    new: Main<W, S, LB, LE, Op, I, F, L, D, G>,
    pending_differs: bool,
    id: Id,
    r: Seq<Command<W, Op>>,
)
    requires
        open_tab_post(old, new, tab::Id::Spectrograms, pending_differs, r),
        old.state is Analysing,
        !held_back(old, tab::Id::Spectrograms, pending_differs),
    ensures
        ({
            let before = old.state->analyses@;
            let after = new.state->analyses@;
            let clear = Command::<W, Op>::ClearSpectrogramCache;
            &&& new.state is Analysing
            &&& new.state->active_tab is Spectrograms
            &&& new.state->selected == old.state->selected
            &&& (old.state->selected is None ==> after == before && r == seq![clear])
            &&& (old.state->selected == Some(id) && inputs_ready(old, id) ==> {
                &&& after.contains_key(id.0)
                &&& after.remove(id.0) == before.remove(id.0)
                &&& !(after[id.0].spectrogram.0 is Idle)
                &&& (!before.contains_key(id.0) ==> r == seq![
                    clear,
                    Command::<W, Op>::ComputeImpulseResponse(id),
                ] && after[id.0].impulse_response is Computing)
                &&& (before.contains_key(id.0) && before[id.0].impulse_response is Computed
                    && !(before[id.0].spectrogram.0 is Computed) ==> r == seq![
                    clear,
                    Command::<W, Op>::ComputeSpectrogram(id, old.spectrogram_config),
                ] && after[id.0].spectrogram.0 is Computing)
                &&& (after[id.0].spectrogram.0 is WaitingForImpulseResponse
                    ==> after[id.0].impulse_response is Computing)
            })
        }),
{
    let before = old.state->analyses@;
    let after = new.state->analyses@;
    let clear = Command::<W, Op>::ClearSpectrogramCache;
    let cmds = r.drop_first();
    assert(r =~= seq![clear].add(cmds));
    assert(seq![clear].add(Seq::<Command<W, Op>>::empty()) =~= seq![clear]);
    if old.state->selected == Some(id) {
        let ready = inputs_ready(old, id);
        let job = Command::<W, Op>::ComputeSpectrogram(id, old.spectrogram_config);
        assert(sg_request(before, after, id, ready, old.spectrogram_config, cmds));
        let (a, start) = choose|a: Analysis<I, F, L, D, G>, start: crate::analyses::Start|
            {
                &&& crate::analyses::entry_changed(before, after, id, a)
                &&& crate::analyses::sg_requested(a, after[id.0], ready, start)
                &&& cmds == crate::screen::start_commands(start, id, job)
            };
        assert(seq![clear].add(seq![Command::<W, Op>::ComputeImpulseResponse(id)]) =~= seq![
            clear,
            Command::<W, Op>::ComputeImpulseResponse(id),
        ]);
        assert(seq![clear].add(seq![job]) =~= seq![clear, job]);
    }
}

/// Opening the spectral-decay tab asks for the spectral decay of the
/// selected measurement, as the spectrogram tab asks for its spectrogram.
pub proof fn law_spectral_decay_tab_asks_for_the_selected_spectral_decay<
    W: Clone,
    S,
    LB,
    LE,
    Op: Copy,
    I,
    F,
    L,
    D,
    G,
>(
    old: Main<W, S, LB, LE, Op, I, F, L, D, G>,
    new: Main<W, S, LB, LE, Op, I, F, L, D, G>,
    pending_differs: bool,
    id: Id,
    r: Seq<Command<W, Op>>,
)
    requires
        open_tab_post(old, new, tab::Id::SpectralDecays, pending_differs, r),
        old.state is Analysing,
        !held_back(old, tab::Id::SpectralDecays, pending_differs),
    ensures
        ({
            let before = old.state->analyses@;
            let after = new.state->analyses@;
            let clear = Command::<W, Op>::ClearTabCache;
            &&& new.state is Analysing
            &&& new.state->active_tab is SpectralDecays
            &&& new.state->selected == old.state->selected
            &&& (old.state->selected is None ==> after == before && r == seq![clear])
            &&& (old.state->selected == Some(id) && inputs_ready(old, id) ==> {
                &&& after.contains_key(id.0)
                &&& after.remove(id.0) == before.remove(id.0)
                &&& !(after[id.0].spectral_decay.0 is Idle)
                &&& (!before.contains_key(id.0) ==> r == seq![
                    clear,
                    Command::<W, Op>::ComputeImpulseResponse(id),
                ] && after[id.0].impulse_response is Computing)
                &&& (before.contains_key(id.0) && before[id.0].impulse_response is Computed
                    && !(before[id.0].spectral_decay.0 is Computed) ==> r == seq![
                    clear,
                    Command::<W, Op>::ComputeSpectralDecay(id, old.spectral_decay_config),
                ] && after[id.0].spectral_decay.0 is Computing)
                &&& (after[id.0].spectral_decay.0 is WaitingForImpulseResponse
                    ==> after[id.0].impulse_response is Computing)
            })
        }),
{
    let before = old.state->analyses@;
    let after = new.state->analyses@;
    let clear = Command::<W, Op>::ClearTabCache;
    let cmds = r.drop_first();
    assert(r =~= seq![clear].add(cmds));
    assert(seq![clear].add(Seq::<Command<W, Op>>::empty()) =~= seq![clear]);
    if old.state->selected == Some(id) {
        let ready = inputs_ready(old, id);
        let job = Command::<W, Op>::ComputeSpectralDecay(id, old.spectral_decay_config);
        assert(sd_request(before, after, id, ready, old.spectral_decay_config, cmds));
        let (a, start) = choose|a: Analysis<I, F, L, D, G>, start: crate::analyses::Start|
            {
                &&& crate::analyses::entry_changed(before, after, id, a)
                &&& crate::analyses::sd_requested(a, after[id.0], ready, start)
                &&& cmds == crate::screen::start_commands(start, id, job)
            };
        assert(seq![clear].add(seq![Command::<W, Op>::ComputeImpulseResponse(id)]) =~= seq![
            clear,
            Command::<W, Op>::ComputeImpulseResponse(id),
        ]);
        assert(seq![clear].add(seq![job]) =~= seq![clear, job]);
    }
}

/// Each loaded measurement of `m`, in order, with whether its signals are
/// ready for an impulse response.
pub open spec fn loaded_requests<W, S, LB, LE, Op, I, F, L, D, G>(
    m: Main<W, S, LB, LE, Op, I, F, L, D, G>,
) -> Seq<(Id, bool)> {
    loaded_ids(m.measurements.items()).map_values(|id: Id| (id, inputs_ready(m, id)))
}

/// Whether opening the tab `to` is held back: the impulse-response tab is
/// open in `m`, `to` is another tab, and the window edited there is not the
/// one in use (`pending_differs`).
pub open spec fn held_back<W, S, LB, LE, Op, I, F, L, D, G>(
    m: Main<W, S, LB, LE, Op, I, F, L, D, G>,
    to: tab::Id,
    pending_differs: bool,
) -> bool {
    &&& m.state matches State::Analysing { active_tab, .. }
    &&& active_tab is ImpulseResponses
    &&& to != tab::Id::ImpulseResponses
    &&& pending_differs
}

/// `new` and `cmds` are what opening the tab `to` makes of the state of `m`
/// while it analyses with `active_tab`, `selected` and `analyses`.
pub open spec fn tab_opened<W: Clone, S, LB, LE, Op, I, F, L, D, G>(
    m: Main<W, S, LB, LE, Op, I, F, L, D, G>,
    to: tab::Id,
    active_tab: Tab<W>,
    selected: Option<Id>,
    analyses: Map<usize, Analysis<I, F, L, D, G>>,
    new: State<W, I, F, L, D, G>,
    cmds: Seq<Command<W, Op>>,
) -> bool {
    &&& new matches State::Analysing { active_tab: t2, selected: s2, analyses: a2 }
    &&& s2 == selected
    &&& match to {
        tab::Id::Measurements => t2 is Measurements && a2@ == analyses && cmds.len() == 0,
        tab::Id::ImpulseResponses => {
            &&& a2@ == analyses
            &&& cmds.len() == 0
            &&& match m.window {
                Some(w) => t2 matches Tab::ImpulseResponses { pending_window } && cloned(
                    w,
                    pending_window,
                ),
                None => t2 == active_tab,
            }
        },
        tab::Id::FrequencyResponses => {
            &&& t2 is FrequencyResponses
            &&& cmds.len() >= 1
            &&& cmds[0] == Command::<W, Op>::ClearTabCache
            &&& fr_requests_all(analyses, a2@, loaded_requests(m), m.window.unwrap(), cmds.drop_first())
        },
        tab::Id::SpectralDecays => {
            &&& t2 is SpectralDecays
            &&& cmds.len() >= 1
            &&& cmds[0] == Command::<W, Op>::ClearTabCache
            &&& match selected {
                Some(id) => sd_request(
                    analyses,
                    a2@,
                    id,
                    inputs_ready(m, id),
                    m.spectral_decay_config,
                    cmds.drop_first(),
                ),
                None => a2@ == analyses && cmds.len() == 1,
            }
        },
        tab::Id::Spectrograms => {
            &&& t2 is Spectrograms
            &&& cmds.len() >= 1
            &&& cmds[0] == Command::<W, Op>::ClearSpectrogramCache
            &&& match selected {
                Some(id) => sg_request(
                    analyses,
                    a2@,
                    id,
                    inputs_ready(m, id),
                    m.spectrogram_config,
                    cmds.drop_first(),
                ),
                None => a2@ == analyses && cmds.len() == 1,
            }
        },
    }
}

fn request_frequency_responses<W: Clone, Op, I, F, L, D, G>(
    analyses: &mut Analyses<I, F, L, D, G>,
    requests: &Vec<(Id, bool)>,
    window: &W,
) -> (r: Vec<Command<W, Op>>)
    ensures
        fr_requests_all(old(analyses)@, final(analyses)@, requests@, *window, r@),
{
    let mut r: Vec<Command<W, Op>> = Vec::new();
    let ghost mut maps = seq![old(analyses)@];
    let ghost mut chunks: Seq<Seq<Command<W, Op>>> = Seq::empty();
    let mut i: usize = 0;
    while i < requests.len()
        invariant
            i <= requests.len(),
            fr_chain(old(analyses)@, analyses@, requests@.take(i as int), *window, r@, maps, chunks),
        decreases requests.len() - i,
    {
        let (id, ready) = requests[i];
        let ghost earlier = chunks;
        let mut last = request_frequency_response(analyses, id, ready, window);
        let ghost last_cmds = last@;
        r.append(&mut last);
        proof {
            let t = requests@.take(i as int + 1);
            assert(t[i as int] == (id, ready));
            maps = maps.push(analyses@);
            chunks = chunks.push(last_cmds);
            assert(chunks.drop_last() =~= earlier);
            assert(chunks.flatten_alt() == earlier.flatten_alt() + last_cmds);
            assert forall|j: int| 0 <= j < t.len() implies fr_request(
                maps[j],
                maps[j + 1],
                t[j].0,
                t[j].1,
                *window,
                #[trigger] chunks[j],
            ) by {
                if j < i {
                    assert(t[j] == requests@.take(i as int)[j]);
                    assert(chunks[j] == earlier[j]);
                }
            }
        }
        i = i + 1;
    }
    assert(requests@.take(i as int) =~= requests@);
    assert(fr_chain(old(analyses)@, analyses@, requests@, *window, r@, maps, chunks));
    r
}

/// `new` and the jobs `r` are what `open_tab` makes of `old`.
pub open spec fn open_tab_post<W: Clone, S, LB, LE, Op: Copy, I, F, L, D, G>(
    old: Main<W, S, LB, LE, Op, I, F, L, D, G>,
    new: Main<W, S, LB, LE, Op, I, F, L, D, G>,
    to: tab::Id,
    pending_differs: bool,
    r: Seq<Command<W, Op>>,
) -> bool {
    &&& same_settings(old, new)
    &&& same_signals(old, new)
    &&& (old.state is Collecting ==> {
            &&& new.state == old.state
            &&& new.modal == old.modal
            &&& r.len() == 0
        })
    &&& (held_back(old, to, pending_differs) ==> {
            &&& new.state == old.state
            &&& new.modal == Modal::<Op>::PendingWindow { goto_tab: to }
            &&& r.len() == 0
        })
    &&& (!held_back(old, to, pending_differs) ==> (old.state matches State::Analysing {
            active_tab,
            selected,
            analyses,
        } ==> {
            &&& new.modal == old.modal
            &&& tab_opened(old, to, active_tab, selected, analyses@, new.state, r)
        }))
}

impl<W: Clone, S, LB, LE, Op: Copy, I, F, L, D, G> Main<W, S, LB, LE, Op, I, F, L, D, G> {
    /// Each loaded measurement, in order, with whether its signals are ready
    /// for an impulse response.
    fn loaded_requests(&self) -> (r: Vec<(Id, bool)>)
        ensures
            r@ == loaded_requests(*self),
    {
        let ids = self.measurements.loaded();
        let mut r: Vec<(Id, bool)> = Vec::new();
        let mut i: usize = 0;
        while i < ids.len()
            invariant
                i <= ids.len(),
                ids@ == loaded_ids(self.measurements.items()),
                r@ == ids@.take(i as int).map_values(|id: Id| (id, inputs_ready(*self, id))),
            decreases ids.len() - i,
        {
            let id = ids[i];
            let ready = ready_for(&self.loopback, &self.measurements, id);
            r.push((id, ready));
            assert(ids@.take(i as int + 1).map_values(|id: Id| (id, inputs_ready(*self, id)))
                =~= ids@.take(i as int).map_values(|id: Id| (id, inputs_ready(*self, id))).push(
                (id, ready),
            ));
            i = i + 1;
        }
        assert(ids@.take(i as int) =~= ids@);
        r
    }

    /// Opens the tab `to`, with what it shows of the analyses asked for.
    /// `pending_differs` tells whether the window edited in the
    /// impulse-response tab differs from the one in use (or none is in use):
    /// leaving that tab is then held back by a dialog.
    pub fn open_tab(&mut self, to: tab::Id, pending_differs: bool) -> (r: Vec<Command<W, Op>>)
        requires
            old(self).state is Analysing && to == tab::Id::FrequencyResponses && !held_back(
                *old(self),
                to,
                pending_differs,
            ) ==> old(self).window is Some || loaded_ids(old(self).measurements.items()).len()
                == 0,
        ensures
            open_tab_post(*old(self), *final(self), to, pending_differs, r@),
    {
        let held = match &self.state {
            State::Analysing { active_tab: Tab::ImpulseResponses { .. }, .. } => {
                pending_differs && to != tab::Id::ImpulseResponses
            },
            _ => false,
        };
        if held {
            self.modal = Modal::PendingWindow { goto_tab: to };
            return Vec::new();
        }
        self.switch_tab(to)
    }

    /// Opens the tab `to` without asking about a pending window.
    fn switch_tab(&mut self, to: tab::Id) -> (r: Vec<Command<W, Op>>)
        requires
            old(self).state is Analysing && to == tab::Id::FrequencyResponses ==> old(self).window is Some
                || loaded_ids(old(self).measurements.items()).len() == 0,
        ensures
            only_state_changes(*old(self), *final(self)),
            old(self).state is Collecting ==> final(self).state == old(self).state && r@.len() == 0,
            old(self).state matches State::Analysing { active_tab, selected, analyses } ==> tab_opened(
                *old(self),
                to,
                active_tab,
                selected,
                analyses@,
                final(self).state,
                r@,
            ),
    {
        let requests = self.loaded_requests();
        let selected_ready = match &self.state {
            State::Analysing { selected: Some(id), .. } => ready_for(&self.loopback, &self.measurements, *id),
            _ => false,
        };
        let sd_config = self.spectral_decay_config;
        let sg_config = self.spectrogram_config;
        match &mut self.state {
            State::Collecting => Vec::new(),
            State::Analysing { active_tab, selected, analyses } => {
                let mut r = Vec::new();
                match to {
                    tab::Id::Measurements => {
                        *active_tab = Tab::Measurements;
                    },
                    tab::Id::ImpulseResponses => {
                        if let Some(w) = &self.window {
                            *active_tab = Tab::ImpulseResponses { pending_window: w.clone() };
                        }
                    },
                    tab::Id::FrequencyResponses => {
                        *active_tab = Tab::FrequencyResponses;
                        r.push(Command::ClearTabCache);
                        if requests.len() == 0 {
                            proof {
                                let ghost w = old(self).window.unwrap();
                                assert(r@.drop_first() =~= Seq::<Command<W, Op>>::empty());
                                assert(fr_chain(
                                    analyses@,
                                    analyses@,
                                    requests@,
                                    w,
                                    r@.drop_first(),
                                    seq![analyses@],
                                    Seq::<Seq<Command<W, Op>>>::empty(),
                                ));
                            }
                        } else {
                            let w = match &self.window {
                                Some(w) => w,
                                None => {
                                    assert(false);
                                    return r;
                                },
                            };
                            let mut more = request_frequency_responses(analyses, &requests, w);
                            let ghost requested = more@;
                            r.append(&mut more);
                            assert(r@.drop_first() =~= requested);
                        }
                    },
                    tab::Id::SpectralDecays => {
                        *active_tab = Tab::SpectralDecays;
                        r.push(Command::ClearTabCache);
                        if let Some(id) = selected {
                            let mut more = request_spectral_decay(analyses, *id, selected_ready, sd_config);
                            let ghost requested = more@;
                            r.append(&mut more);
                            assert(r@.drop_first() =~= requested);
                        }
                    },
                    tab::Id::Spectrograms => {
                        *active_tab = Tab::Spectrograms;
                        r.push(Command::ClearSpectrogramCache);
                        if let Some(id) = selected {
                            let mut more = request_spectrogram(analyses, *id, selected_ready, sg_config);
                            let ghost requested = more@;
                            r.append(&mut more);
                            assert(r@.drop_first() =~= requested);
                        }
                    },
                }
                r
            },
        }
    }
}

/// The window `m` uses after the answer `message` in the pending-window
/// dialog: the edited one on `Apply`, where the impulse-response tab is open.
pub open spec fn window_after<W, S, LB, LE, Op, I, F, L, D, G>(
    m: Main<W, S, LB, LE, Op, I, F, L, D, G>,
    message: PendingWindowMessage,
) -> Option<W> {
    match m.state {
        State::Analysing { active_tab: Tab::ImpulseResponses { pending_window }, .. } => {
            if message == PendingWindowMessage::Apply {
                Some(pending_window)
            } else {
                m.window
            }
        },
        _ => m.window,
    }
}

/// Whether the answer `message` applies a window edited in `active_tab`.
pub open spec fn applied<W>(active_tab: Tab<W>, message: PendingWindowMessage) -> bool {
    message == PendingWindowMessage::Apply && active_tab is ImpulseResponses
}

/// The jobs the answer `message` starts before the next tab opens: the
/// overlay of the impulse-response chart is redrawn when an edited window is
/// dropped.
pub open spec fn overlay_cleared<W, Op>(active_tab: Tab<W>, message: PendingWindowMessage) -> Seq<
    Command<W, Op>,
> {
    if message == PendingWindowMessage::Discard && active_tab is ImpulseResponses {
        seq![Command::<W, Op>::ClearImpulseResponseOverlayCache]
    } else {
        Seq::empty()
    }
}

/// `m` using `window`.
pub open spec fn with_window<W, S, LB, LE, Op, I, F, L, D, G>(
    m: Main<W, S, LB, LE, Op, I, F, L, D, G>,
    window: Option<W>,
) -> Main<W, S, LB, LE, Op, I, F, L, D, G> {
    Main { window, ..m }
}

/// `new` and the jobs `r` are what `pending_window` makes of `old`.
pub open spec fn pending_window_post<W: Clone, S, LB, LE, Op: Copy, I, F, L, D, G>(
    old: Main<W, S, LB, LE, Op, I, F, L, D, G>,
    new: Main<W, S, LB, LE, Op, I, F, L, D, G>,
    message: PendingWindowMessage,
    r: Seq<Command<W, Op>>,
) -> bool {
    &&& same_settings(old, new)
    &&& new.loopback == old.loopback
    &&& new.measurements.items() == old.measurements.items()
    &&& new.selected == old.selected
    &&& (old.state is Collecting ==> {
            &&& new.state == old.state
            &&& new.modal == old.modal
            &&& new.window == old.window
            &&& r.len() == 0
        })
    &&& old.state is Analysing ==> new.modal is Closed
    &&& (old.state is Analysing && !(old.modal is PendingWindow) ==> {
            &&& new.state == old.state
            &&& new.window == old.window
            &&& r.len() == 0
        })
    &&& (old.modal matches Modal::PendingWindow { goto_tab } ==> (old.state matches State::Analysing {
            active_tab,
            selected,
            analyses,
        } ==> {
            let prefix = overlay_cleared::<W, Op>(active_tab, message);
            let mid = with_window(old, window_after(old, message));
            &&& new.window == mid.window
            &&& r.len() >= prefix.len()
            &&& r.take(prefix.len() as int) == prefix
            &&& exists|reset: Map<usize, Analysis<I, F, L, D, G>>|
                #![trigger tab_opened(mid, goto_tab, Tab::Measurements, selected, reset, new.state, r.skip(prefix.len() as int))]
                {
                    &&& (applied(active_tab, message) ==> reset.dom() == analyses@.dom()
                        && forall|k: usize| #[trigger] reset.contains_key(k) ==> is_fresh(reset[k]))
                    &&& (!applied(active_tab, message) ==> reset == analyses@)
                    &&& tab_opened(
                        mid,
                        goto_tab,
                        Tab::Measurements,
                        selected,
                        reset,
                        new.state,
                        r.skip(prefix.len() as int),
                    )
                }
        }))
}

impl<W: Clone, S, LB, LE, Op: Copy, I, F, L, D, G> Main<W, S, LB, LE, Op, I, F, L, D, G> {
    /// The user's answer in the pending-window dialog: the dialog closes, the
    /// edited window is applied (every analysis then starts afresh) or
    /// dropped, and the tab the user wanted opens.
    pub fn pending_window(&mut self, message: PendingWindowMessage) -> (r: Vec<Command<W, Op>>)
        requires
            old(self).state is Analysing && old(self).modal == (Modal::<Op>::PendingWindow {
                goto_tab: tab::Id::FrequencyResponses,
            }) ==> window_after(*old(self), message) is Some || loaded_ids(
                old(self).measurements.items(),
            ).len() == 0,
        ensures
            pending_window_post(*old(self), *final(self), message, r@),
    {
        if let State::Collecting = self.state {
            return Vec::new();
        }
        let mut modal = Modal::Closed;
        std::mem::swap(&mut self.modal, &mut modal);
        let goto = match modal {
            Modal::PendingWindow { goto_tab } => goto_tab,
            _ => return Vec::new(),
        };
        let mut r = Vec::new();
        match &mut self.state {
            State::Analysing { active_tab, analyses, .. } => {
                let mut tab = Tab::Measurements;
                std::mem::swap(active_tab, &mut tab);
                if let Tab::ImpulseResponses { pending_window } = tab {
                    match message {
                        PendingWindowMessage::Discard => r.push(Command::ClearImpulseResponseOverlayCache),
                        PendingWindowMessage::Apply => {
                            self.window = Some(pending_window);
                            analyses.reset_all();
                        },
                    }
                }
            },
            State::Collecting => {},
        }
        let ghost prefix = r@;
        let ghost mid = *self;
        let ghost spec_mid = with_window(*old(self), window_after(*old(self), message));
        assert(loaded_requests(mid) =~= loaded_requests(spec_mid));
        let mut more = self.switch_tab(goto);
        let ghost opened = more@;
        r.append(&mut more);
        assert(r@.take(prefix.len() as int) =~= prefix);
        assert(r@.skip(prefix.len() as int) =~= opened);
        proof {
            let reset = mid.state->analyses@;
            let active_tab = old(self).state->active_tab;
            assert(prefix == overlay_cleared::<W, Op>(active_tab, message));
            assert(applied(active_tab, message) ==> reset.dom() == old(self).state->analyses@.dom()
                && forall|k: usize| #[trigger] reset.contains_key(k) ==> is_fresh(reset[k]));
            assert(!applied(active_tab, message) ==> reset == old(self).state->analyses@);
            assert(tab_opened(
                spec_mid,
                goto,
                Tab::Measurements,
                old(self).state->selected,
                reset,
                self.state,
                r@.skip(prefix.len() as int),
            ));
        }
        r
    }
}

} // verus!
