//! Saving a project: which file each signal is read from when the project
//! is opened again, which signals held only in memory are written out first,
//! and the list of files the project records.
use vstd::prelude::*;
use std::path::Path;

use crate::decimal::{decimal, format_u64, push_char};
use crate::measurement::Id;
use crate::save_project::path_parent;

verus! {

/// `path` with its last component replaced by `name`, as
/// `std::path::Path::with_file_name` makes it.
pub uninterp spec fn path_with_file_name(path: Seq<char>, name: Seq<char>) -> Seq<char>;

/// Calls `std::path::Path::with_file_name` on the path `path` spells; the
/// result, made of valid strings, is read back without loss.
#[verifier::external_body]
fn with_file_name(path: &str, name: &str) -> (r: String)
    ensures
        r@ == path_with_file_name(path@, name@),
{
    Path::new(path).with_file_name(name).to_string_lossy().into_owned()
}

/// Why a project could not be saved; `E` is what the file system reported.
#[derive(Debug, Clone)]
pub enum ProjectError<E> {
    /// The project file has no directory to go into.
    NoSubDirectory,
    Io(E),
}

/// What becomes of one signal's file when the project is saved.
#[derive(Debug, Clone, PartialEq, Eq)]
pub enum SignalFile {
    /// The signal was loaded from this file, which the project records.
    Keep(String),
    /// The signal is only in memory: it is written to this file first.
    Export(String),
    /// The signal is only in memory and is left out.
    Skip,
}

/// `f` is what becomes of a signal loaded from `own` (or held only in
/// memory, `None`) when in-memory signals are exported to `export_path` or
/// not.
pub open spec fn planned(f: SignalFile, own: Option<String>, export_from_memory: bool, export_path: Seq<char>) -> bool {
    match own {
        Some(p) => f matches SignalFile::Keep(q) && q@ == p@,
        None => if export_from_memory {
            f matches SignalFile::Export(q) && q@ == export_path
        } else {
            f is Skip
        },
    }
}

/// What saving the project file to `path` does with the signals.
#[derive(Debug)]
pub struct SavePlan {
    /// The directory the project goes into; it is made first.
    pub directory: String,
    /// The loopback's file, where there is a loopback.
    pub loopback: Option<SignalFile>,
    /// Each measurement's file, in order.
    pub measurements: Vec<SignalFile>,
}

/// The file an in-memory loopback is exported to.
pub open spec fn loopback_export_path(path: Seq<char>) -> Seq<char> {
    path_with_file_name(path, "loopback.wav"@)
}

/// The file the in-memory measurement `id` is exported to.
pub open spec fn measurement_export_path(path: Seq<char>, id: Id) -> Seq<char> {
    path_with_file_name(path, "measurement_"@ + decimal(id.0 as nat) + ".wav"@)
}

/// `plan` is what saving the project file to `path` makes of the signals:
/// the loopback loaded from `loopback` (`Some(None)` where it is only in
/// memory) and the measurements `(id, own file)`.
pub open spec fn plans(
    plan: SavePlan,
    path: Seq<char>,
    loopback: Option<Option<String>>,
    measurements: Seq<(Id, Option<String>)>,
    export_from_memory: bool,
) -> bool {
    &&& path_parent(path) == Some(plan.directory@)
    &&& match loopback {
        Some(own) => plan.loopback matches Some(f) && planned(
            f,
            own,
            export_from_memory,
            loopback_export_path(path),
        ),
        None => plan.loopback is None,
    }
    &&& plan.measurements@.len() == measurements.len()
    &&& forall|i: int|
        0 <= i < measurements.len() ==> planned(
            #[trigger] plan.measurements@[i],
            measurements[i].1,
            export_from_memory,
            measurement_export_path(path, measurements[i].0),
        )
}

/// A signal loaded from a file of its own is saved as a reference to that
/// file, whether in-memory signals are exported or not; `export_from_memory`
/// decides only about the signals held in memory: exported to their export
/// file, or left out.
pub proof fn law_own_files_are_kept(
    plan: SavePlan,
    path: Seq<char>,
    loopback: Option<Option<String>>,
    measurements: Seq<(Id, Option<String>)>,
    export_from_memory: bool,
)
    requires
        plans(plan, path, loopback, measurements, export_from_memory),
    ensures
        forall|i: int|
            0 <= i < measurements.len() && #[trigger] measurements[i].1 is Some ==> (
            plan.measurements@[i] matches SignalFile::Keep(q) && q@ == measurements[i].1->0@),
        forall|i: int|
            0 <= i < measurements.len() && #[trigger] measurements[i].1 is None ==> (if export_from_memory {
                plan.measurements@[i] matches SignalFile::Export(q) && q@ == path_with_file_name(
                    path,
                    "measurement_"@ + decimal(measurements[i].0.0 as nat) + ".wav"@,
                )
            } else {
                plan.measurements@[i] == SignalFile::Skip
            }),
        loopback matches Some(Some(p)) ==> (plan.loopback matches Some(SignalFile::Keep(q))
            && q@ == p@),
        loopback == Some(None::<String>) ==> (if export_from_memory {
            plan.loopback matches Some(SignalFile::Export(q)) && q@ == path_with_file_name(
                path,
                "loopback.wav"@,
            )
        } else {
            plan.loopback == Some(SignalFile::Skip)
        }),
        loopback is None ==> plan.loopback is None,
{
    assert forall|i: int|
        0 <= i < measurements.len() && #[trigger] measurements[i].1 is Some implies (
        plan.measurements@[i] matches SignalFile::Keep(q) && q@ == measurements[i].1->0@) by {
        assert(planned(
            plan.measurements@[i],
            measurements[i].1,
            export_from_memory,
            measurement_export_path(path, measurements[i].0),
        ));
    }
    assert forall|i: int| 0 <= i < measurements.len() && #[trigger] measurements[i].1 is None implies (if export_from_memory {
        plan.measurements@[i] matches SignalFile::Export(q) && q@ == path_with_file_name(
            path,
            "measurement_"@ + decimal(measurements[i].0.0 as nat) + ".wav"@,
        )
    } else {
        plan.measurements@[i] == SignalFile::Skip
    }) by {
        assert(planned(
            plan.measurements@[i],
            measurements[i].1,
            export_from_memory,
            measurement_export_path(path, measurements[i].0),
        ));
    }
}

/// Appends the characters of `t` to `s`.
fn append_str(s: &mut String, t: &str)
    ensures
        final(s)@ == old(s)@ + t@,
{
    let n = t.unicode_len();
    let mut i: usize = 0;
    while i < n
        invariant
            n == t@.len(),
            i <= n,
            s@ == old(s)@ + t@.take(i as int),
        decreases n - i,
    {
        let c = t.get_char(i);
        push_char(s, c);
        assert(t@.take(i as int + 1) =~= t@.take(i as int).push(c));
        i = i + 1;
    }
    assert(t@.take(n as int) =~= t@);
}

/// The name of the file the in-memory measurement `id` is exported to.
fn measurement_file_name(id: Id) -> (r: String)
    ensures
        r@ == "measurement_"@ + decimal(id.0 as nat) + ".wav"@,
{
    let mut r = String::new();
    append_str(&mut r, "measurement_");
    let digits = format_u64(id.0 as u64);
    append_str(&mut r, digits.as_str());
    append_str(&mut r, ".wav");
    r
}

/// What becomes of a signal loaded from `own` (or held only in memory).
fn signal_file(own: Option<String>, export_from_memory: bool, export_path: String) -> (r: SignalFile)
    ensures
        planned(r, own, export_from_memory, export_path@),
{
    match own {
        Some(p) => SignalFile::Keep(p),
        None => if export_from_memory {
            SignalFile::Export(export_path)
        } else {
            SignalFile::Skip
        },
    }
}

/// Plans saving the project file to `path`: the loopback comes from
/// `loopback` (`Some(None)` where it is only in memory), the measurements
/// from `measurements`, each with its identifier and own file. Fails, with
/// nothing planned, where `path` has no parent directory.
pub fn plan_project_save<E>(
    path: &str,
    loopback: Option<Option<String>>,
    measurements: &Vec<(Id, Option<String>)>,
    export_from_memory: bool,
) -> (r: Result<SavePlan, ProjectError<E>>)
    ensures
        r is Err <==> path_parent(path@) is None,
        r matches Err(e) ==> e is NoSubDirectory,
        r matches Ok(plan) ==> plans(plan, path@, loopback, measurements@, export_from_memory),
{
    let directory = match crate::save_project::parent(path) {
        Some(d) => d,
        None => return Err(ProjectError::NoSubDirectory),
    };
    let loopback_file = match loopback {
        Some(own) => Some(signal_file(own, export_from_memory, with_file_name(path, "loopback.wav"))),
        None => None,
    };
    let mut files: Vec<SignalFile> = Vec::new();
    let mut i: usize = 0;
    while i < measurements.len()
        invariant
            i <= measurements.len(),
            files@.len() == i,
            forall|j: int|
                0 <= j < i ==> planned(
                    #[trigger] files@[j],
                    measurements@[j].1,
                    export_from_memory,
                    measurement_export_path(path@, measurements@[j].0),
                ),
        decreases measurements.len() - i,
    {
        let id = measurements[i].0;
        let own = match &measurements[i].1 {
            Some(p) => Some(p.clone()),
            None => None,
        };
        let name = measurement_file_name(id);
        let export_path = with_file_name(path, name.as_str());
        files.push(signal_file(own, export_from_memory, export_path));
        i = i + 1;
    }
    Ok(SavePlan { directory, loopback: loopback_file, measurements: files })
}

/// The files the saved project records, in order: those kept, and those
/// exported where writing them succeeded (`written[i]` for the `i`-th of
/// `files`).
pub open spec fn recorded_files(files: Seq<SignalFile>, written: Seq<bool>) -> Seq<String>
    decreases files.len(),
{
    if files.len() == 0 {
        Seq::empty()
    } else {
        let rest = recorded_files(files.drop_last(), written.drop_last());
        match files.last() {
            SignalFile::Keep(p) => rest.push(p),
            SignalFile::Export(p) => if written.last() {
                rest.push(p)
            } else {
                rest
            },
            SignalFile::Skip => rest,
        }
    }
}

/// The files the saved project records: each kept file, and each exported
/// one whose writing succeeded (`written`, one flag per file).
pub fn project_files(files: &Vec<SignalFile>, written: &Vec<bool>) -> (r: Vec<String>)
    requires
        written@.len() == files@.len(),
    ensures
        r@ == recorded_files(files@, written@),
{
    let mut r: Vec<String> = Vec::new();
    let mut i: usize = 0;
    while i < files.len()
        invariant
            i <= files.len(),
            written@.len() == files@.len(),
            r@ == recorded_files(files@.take(i as int), written@.take(i as int)),
        decreases files.len() - i,
    {
        assert(files@.take(i as int + 1).drop_last() =~= files@.take(i as int));
        assert(written@.take(i as int + 1).drop_last() =~= written@.take(i as int));
        match &files[i] {
            SignalFile::Keep(p) => r.push(p.clone()),
            SignalFile::Export(p) => if written[i] {
                r.push(p.clone());
            },
            SignalFile::Skip => {},
        }
        i = i + 1;
    }
    assert(files@.take(i as int) =~= files@);
    assert(written@.take(i as int) =~= written@);
    r
}

} // verus!
