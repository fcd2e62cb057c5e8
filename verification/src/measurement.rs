//! Measurements the user has loaded or recorded, each with an identifier
//! that stays with it for the rest of the session.
use vstd::prelude::*;

use crate::decimal::{decimal, format_u64};
use crate::save_project::{file_name, path_file_name};

verus! {

/// Identifies a measurement.
#[derive(Debug, Clone, Copy, PartialEq, Eq, PartialOrd, Ord, Hash, Structural)]
pub struct Id(pub usize);

impl Id {
    /// The identifier in decimal, as it is shown and logged.
    pub fn to_string(&self) -> (r: String)
        ensures
            r@ == decimal(self.0 as nat),
    {
        format_u64(self.0 as u64)
    }
}

/// Which signal the user looks at.
#[derive(Debug, Clone, Copy, PartialEq, Eq, Structural)]
pub enum Selected {
    Loopback,
    Measurement(Id),
}

/// What the user does with an entry of the list.
#[derive(Debug, Clone, Copy, PartialEq, Eq, Structural)]
pub enum Message {
    Select(Selected),
    Remove(Id),
}

/// A measurement: its name, the file it came from, and its signal `S` when
/// that could be loaded.
#[derive(Debug, Clone)]
pub struct Measurement<S> {
    id: Id,
    pub name: String,
    pub path: Option<String>,
    signal: Option<S>,
}

impl<S> Measurement<S> {
    pub closed spec fn spec_id(&self) -> Id {
        self.id
    }

    pub closed spec fn spec_name(&self) -> String {
        self.name
    }

    pub closed spec fn spec_path(&self) -> Option<String> {
        self.path
    }

    pub closed spec fn spec_signal(&self) -> Option<S> {
        self.signal
    }

    pub open spec fn loaded(&self) -> bool {
        self.spec_signal() is Some
    }

    /// A measurement named `name`, from the file `path`, whose signal is
    /// `signal` (`None` where it could not be loaded).
    pub fn new(id: Id, name: String, path: Option<String>, signal: Option<S>) -> (r: Self)
        ensures
            r.spec_id() == id,
            r.spec_name() == name,
            r.spec_path() == path,
            r.spec_signal() == signal,
    {
        Measurement { id, name, path, signal }
    }

    pub fn is_loaded(&self) -> (r: bool)
        ensures
            r == self.loaded(),
    {
        self.signal.is_some()
    }

    pub fn signal(&self) -> (r: Option<&S>)
        ensures
            r matches Some(s) ==> self.spec_signal() == Some(*s),
            r is None <==> self.spec_signal() is None,
    {
        match &self.signal {
            Some(s) => Some(s),
            None => None,
        }
    }

    pub fn id(&self) -> (r: Id)
        ensures
            r == self.spec_id(),
    {
        self.id
    }
}

/// The identifiers of the loaded measurements of `s`, in order.
pub open spec fn loaded_ids<S>(s: Seq<Measurement<S>>) -> Seq<Id>
    decreases s.len(),
{
    if s.len() == 0 {
        Seq::empty()
    } else if s.last().loaded() {
        loaded_ids(s.drop_last()).push(s.last().spec_id())
    } else {
        loaded_ids(s.drop_last())
    }
}

/// The first position in `s` that holds `id`, if any.
pub open spec fn position_of<S>(s: Seq<Measurement<S>>, id: Id) -> Option<int> {
    if exists|i: int| 0 <= i < s.len() && s[i].spec_id() == id {
        Some(
            choose|i: int|
                0 <= i < s.len() && s[i].spec_id() == id && forall|j: int|
                    0 <= j < i ==> s[j].spec_id() != id,
        )
    } else {
        None
    }
}

pub open spec fn holds_id<S>(s: Seq<Measurement<S>>, id: Id) -> bool {
    exists|i: int| 0 <= i < s.len() && s[i].spec_id() == id
}

/// No identifier occurs twice.
pub open spec fn ids_distinct<S>(s: Seq<Measurement<S>>) -> bool {
    forall|i: int, j: int|
        0 <= i < s.len() && 0 <= j < s.len() && i != j ==> s[i].spec_id() != s[j].spec_id()
}

proof fn lemma_first_position<S>(s: Seq<Measurement<S>>, id: Id, k: int)
    requires
        0 <= k < s.len(),
        s[k].spec_id() == id,
        forall|j: int| 0 <= j < k ==> s[j].spec_id() != id,
    ensures
        position_of(s, id) == Some(k),
{
    let p = choose|i: int|
        0 <= i < s.len() && s[i].spec_id() == id && forall|j: int|
            0 <= j < i ==> s[j].spec_id() != id;
    assert(0 <= k < s.len() && s[k].spec_id() == id && forall|j: int|
        0 <= j < k ==> s[j].spec_id() != id);
    if p < k {
        assert(s[p].spec_id() != id);
    } else if p > k {
        assert(s[k].spec_id() != id);
    }
}

/// Adding a measurement under a new identifier keeps identifiers distinct.
pub proof fn lemma_push_keeps_ids_distinct<S>(s: Seq<Measurement<S>>, m: Measurement<S>)
    requires
        !holds_id(s, m.spec_id()),
    ensures
        ids_distinct(s) ==> ids_distinct(s.push(m)),
{
    let t = s.push(m);
    if ids_distinct(s) {
        assert forall|i: int, j: int|
            0 <= i < t.len() && 0 <= j < t.len() && i != j implies t[i].spec_id() != t[j].spec_id() by {
            if i < s.len() && j < s.len() {
                assert(t[i] == s[i] && t[j] == s[j]);
            } else if i < s.len() {
                assert(t[i] == s[i]);
            } else {
                assert(t[j] == s[j]);
            }
        }
    }
}

/// The measurements in the order they were added.
#[derive(Debug, Clone)]
pub struct List<S>(Vec<Measurement<S>>);

impl<S> List<S> {
    pub closed spec fn items(&self) -> Seq<Measurement<S>> {
        self.0@
    }

    pub fn new() -> (r: Self)
        ensures
            r.items() == Seq::<Measurement<S>>::empty(),
    {
        List(Vec::new())
    }

    /// All measurements, in order.
    pub fn iter(&self) -> (r: &[Measurement<S>])
        ensures
            r@ == self.items(),
    {
        self.0.as_slice()
    }

    /// The identifiers of the loaded measurements, in order.
    pub fn loaded(&self) -> (r: Vec<Id>)
        ensures
            r@ == loaded_ids(self.items()),
    {
        let mut r: Vec<Id> = Vec::new();
        let mut i: usize = 0;
        while i < self.0.len()
            invariant
                i <= self.0.len(),
                r@ == loaded_ids(self.items().take(i as int)),
            decreases self.0.len() - i,
        {
            let ghost t = self.items().take(i as int + 1);
            assert(t.drop_last() =~= self.items().take(i as int));
            if self.0[i].is_loaded() {
                r.push(self.0[i].id());
            }
            i = i + 1;
        }
        assert(self.items().take(i as int) =~= self.items());
        r
    }

    /// Adds a measurement at the end, under an identifier no measurement of
    /// the list has.
    pub fn push(&mut self, measurement: Measurement<S>)
        requires
            !holds_id(old(self).items(), measurement.spec_id()),
        ensures
            final(self).items() == old(self).items().push(measurement),
            ids_distinct(old(self).items()) ==> ids_distinct(final(self).items()),
    {
        proof {
            lemma_push_keeps_ids_distinct(self.items(), measurement);
        }
        self.0.push(measurement);
    }

    /// Removes the first measurement with identifier `id` and returns it;
    /// `None`, with the list unchanged, where no measurement has it.
    pub fn remove(&mut self, id: Id) -> (r: Option<Measurement<S>>)
        ensures
            match position_of(old(self).items(), id) {
                Some(k) => {
                    &&& r == Some(old(self).items()[k])
                    &&& final(self).items() == old(self).items().remove(k)
                },
                None => {
                    &&& r is None
                    &&& final(self).items() == old(self).items()
                },
            },
    {
        let mut i: usize = 0;
        while i < self.0.len()
            invariant
                i <= self.0.len(),
                self.items() == old(self).items(),
                forall|j: int| 0 <= j < i ==> self.items()[j].spec_id() != id,
            decreases self.0.len() - i,
        {
            if self.0[i].id == id {
                proof {
                    lemma_first_position(self.items(), id, i as int);
                }
                let m = self.0.remove(i);
                return Some(m);
            }
            i = i + 1;
        }
        assert(!holds_id(self.items(), id));
        None
    }

    /// The first measurement with identifier `id`, if any.
    pub fn get(&self, id: Id) -> (r: Option<&Measurement<S>>)
        ensures
            match position_of(self.items(), id) {
                Some(k) => r == Some(&self.items()[k]),
                None => r is None,
            },
    {
        let mut i: usize = 0;
        while i < self.0.len()
            invariant
                i <= self.0.len(),
                forall|j: int| 0 <= j < i ==> self.items()[j].spec_id() != id,
            decreases self.0.len() - i,
        {
            if self.0[i].id == id {
                proof {
                    lemma_first_position(self.items(), id, i as int);
                }
                return Some(&self.0[i]);
            }
            i = i + 1;
        }
        assert(!holds_id(self.items(), id));
        None
    }

    /// Whether there is no measurement.
    pub fn is_empty(&self) -> (r: bool)
        ensures
            r == (self.items().len() == 0),
    {
        self.0.len() == 0
    }
}

/// A measurement just added is found under its identifier, where no other
/// measurement had that identifier.
pub proof fn law_push_then_get<S>(before: Seq<Measurement<S>>, m: Measurement<S>)
    requires
        !holds_id(before, m.spec_id()),
    ensures
        position_of(before.push(m), m.spec_id()) == Some(before.len() as int),
{
    let after = before.push(m);
    assert forall|j: int| 0 <= j < before.len() implies after[j].spec_id() != m.spec_id() by {
        assert(after[j] == before[j]);
    }
    lemma_first_position(after, m.spec_id(), before.len() as int);
}

/// Once a measurement is removed, no measurement has its identifier any more,
/// where identifiers were distinct; the others stay, in the same order.
pub proof fn law_remove_then_get<S>(before: Seq<Measurement<S>>, id: Id)
    requires
        ids_distinct(before),
        position_of(before, id) is Some,
    ensures
        !holds_id(before.remove(position_of(before, id)->0), id),
        ids_distinct(before.remove(position_of(before, id)->0)),
        before.remove(position_of(before, id)->0).len() == before.len() - 1,
{
    let k = position_of(before, id)->0;
    let after = before.remove(k);
    assert forall|i: int| 0 <= i < after.len() implies after[i].spec_id() != id by {
        if i < k {
            assert(after[i] == before[i]);
        } else {
            assert(after[i] == before[i + 1]);
        }
    }
    assert forall|i: int, j: int|
        0 <= i < after.len() && 0 <= j < after.len() && i != j implies after[i].spec_id()
        != after[j].spec_id() by {
        let bi = if i < k { i } else { i + 1 };
        let bj = if j < k { j } else { j + 1 };
        assert(after[i] == before[bi]);
        assert(after[j] == before[bj]);
    }
}


/// Whether a loopback's signal could be read.
#[derive(Debug, Clone)]
pub enum LoadState<LB, LE> {
    Loaded(LB),
    NotLoaded(LE),
}

/// The loopback recording: the signal as it was played, against which the
/// measurements are compared. `LB` is its signal, `LE` why it could not be
/// loaded.
#[derive(Debug, Clone)]
pub struct Loopback<LB, LE> {
    pub name: String,
    pub path: Option<String>,
    state: LoadState<LB, LE>,
}

impl<LB, LE> Loopback<LB, LE> {
    pub closed spec fn spec_name(&self) -> String {
        self.name
    }

    pub closed spec fn spec_path(&self) -> Option<String> {
        self.path
    }

    pub closed spec fn spec_state(&self) -> LoadState<LB, LE> {
        self.state
    }

    pub open spec fn loaded_spec(&self) -> bool {
        self.spec_state() is Loaded
    }

    /// A loopback recorded in this session: no file yet.
    pub fn new(name: String, inner: LB) -> (r: Self)
        ensures
            r.spec_name() == name,
            r.spec_path() is None,
            r.spec_state() == LoadState::<LB, LE>::Loaded(inner),
    {
        Loopback { name, path: None, state: LoadState::Loaded(inner) }
    }

    /// A loopback read from the file `path`: its signal, or why it could not
    /// be read.
    pub fn from_file_result(name: String, path: String, state: LoadState<LB, LE>) -> (r: Self)
        ensures
            r.spec_name() == name,
            r.spec_path() == Some(path),
            r.spec_state() == state,
    {
        Loopback { name, path: Some(path), state }
    }

    pub fn is_loaded(&self) -> (r: bool)
        ensures
            r == self.loaded_spec(),
    {
        match &self.state {
            LoadState::Loaded(_) => true,
            LoadState::NotLoaded(_) => false,
        }
    }

    pub fn loaded(&self) -> (r: Option<&LB>)
        ensures
            r matches Some(l) ==> self.spec_state() == LoadState::<LB, LE>::Loaded(*l),
            r is None <==> self.spec_state() is NotLoaded,
    {
        match &self.state {
            LoadState::Loaded(l) => Some(l),
            LoadState::NotLoaded(_) => None,
        }
    }
}

/// Which kind of signal a file is loaded as.
#[derive(Debug, Clone, Copy, PartialEq, Eq, Structural)]
pub enum Kind {
    Loopback,
    Normal,
}

impl Kind {
    /// The name shown for the kind.
    pub fn to_string(&self) -> (r: String)
        ensures
            r@ == (match self {
                Kind::Loopback => "Loopback"@,
                Kind::Normal => "Measurement"@,
            }),
    {
        proof {
            reveal_strlit("Loopback");
            reveal_strlit("Measurement");
        }
        match self {
            Kind::Loopback => "Loopback".to_owned(),
            Kind::Normal => "Measurement".to_owned(),
        }
    }
}

/// A signal loaded from a file, as the kind it was asked for.
#[derive(Debug)]
pub enum LoadedKind<S, LB, LE> {
    Loopback(Loopback<LB, LE>),
    Normal(Measurement<S>),
}

/// Why a wave file could not be read; `K` is the kind of I/O error.
#[derive(Debug, Clone, Copy, PartialEq, Eq)]
pub enum WavLoadError<K> {
    IoError(K),
    Other,
}

/// The signal picked in the signal list.
#[derive(Debug, Clone, Copy, PartialEq, Eq, Structural)]
pub enum SelectedMeasurement {
    Loopback,
    /// The measurement at this position of the list.
    Measurement(usize),
}

/// What the user does with an entry of the frequency-response list.
#[derive(Debug, Clone, Copy, PartialEq, Eq, Structural)]
pub enum ListEntryMessage {
    ShowInGraphToggled(bool),
}

/// The name a signal read from `path` is shown under: the last component
/// of the path, or "Unknown" where it has none.
pub open spec fn display_name(path: Seq<char>) -> Seq<char> {
    match path_file_name(path) {
        Some(n) => n,
        None => "Unknown"@,
    }
}

/// The name a signal read from `path` is shown under (see `display_name`).
pub fn name_from_path(path: &str) -> (r: String)
    ensures
        r@ == display_name(path@),
{
    match file_name(path) {
        Some(n) => n,
        None => {
            proof {
                reveal_strlit("Unknown");
            }
            "Unknown".to_owned()
        },
    }
}

} // verus!
