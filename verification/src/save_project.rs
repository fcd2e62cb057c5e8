//! The "Save Project" dialog: where the project file goes, and how its
//! measurements are exported.
use vstd::prelude::*;
use std::path::{Path, PathBuf};
use vstd::view::View as _;

verus! {

/// The parent directory of a path, as `std::path::Path::parent` gives it.
pub uninterp spec fn path_parent(path: Seq<char>) -> Option<Seq<char>>;

/// The file name of a path without its extension, as
/// `std::path::Path::file_stem` gives it.
pub uninterp spec fn path_file_stem(path: Seq<char>) -> Option<Seq<char>>;

/// The last component of a path, as `std::path::Path::file_name` gives it.
pub uninterp spec fn path_file_name(path: Seq<char>) -> Option<Seq<char>>;

/// `base` extended by `component`, as `std::path::PathBuf::push` makes it.
pub uninterp spec fn path_join(base: Seq<char>, component: Seq<char>) -> Seq<char>;

/// Calls `std::path::Path::parent` on the path that `path` spells; the
/// result, a part of a valid string, is read back without loss.
#[verifier::external_body]
pub(crate) fn parent(path: &str) -> (r: Option<String>)
    ensures
        r matches Some(q) ==> path_parent(path@) == Some(q@),
        r is None ==> path_parent(path@) is None,
{
    match Path::new(path).parent() {
        Some(p) => Some(p.to_string_lossy().into_owned()),
        None => None,
    }
}

/// Calls `std::path::Path::file_stem` on the path that `path` spells.
#[verifier::external_body]
fn file_stem(path: &str) -> (r: Option<String>)
    ensures
        r matches Some(q) ==> path_file_stem(path@) == Some(q@),
        r is None ==> path_file_stem(path@) is None,
{
    match Path::new(path).file_stem() {
        Some(p) => Some(p.to_string_lossy().into_owned()),
        None => None,
    }
}

/// Calls `std::path::Path::file_name` on the path that `path` spells.
#[verifier::external_body]
pub(crate) fn file_name(path: &str) -> (r: Option<String>)
    ensures
        r matches Some(q) ==> path_file_name(path@) == Some(q@),
        r is None ==> path_file_name(path@) is None,
{
    match Path::new(path).file_name() {
        Some(p) => Some(p.to_string_lossy().into_owned()),
        None => None,
    }
}

/// Calls `std::path::PathBuf::push` on `base` with `component`.
#[verifier::external_body]
fn join(base: &str, component: &str) -> (r: String)
    ensures
        r@ == path_join(base@, component@),
{
    let mut p = PathBuf::from(base);
    p.push(component);
    p.to_string_lossy().into_owned()
}

pub open spec fn or_empty(o: Option<Seq<char>>) -> Seq<char> {
    match o {
        Some(s) => s,
        None => Seq::empty(),
    }
}

/// Where the project file goes: with `subdir`, into a directory beside the
/// chosen file, named after the file's stem.
pub open spec fn final_path(base: Seq<char>, subdir: bool) -> Seq<char> {
    if subdir {
        path_join(
            path_join(or_empty(path_parent(base)), or_empty(path_file_stem(base))),
            or_empty(path_file_name(base)),
        )
    } else {
        base
    }
}

/// What the user asks of the dialog.
#[derive(Debug, Clone)]
pub enum Message<Op> {
    OpenFileDialog,
    ChangeProjectPath(String),
    ToggleCreateSubdir(bool),
    ChangeOperation(Op),
    ToggleExportFromMemory(bool),
    Cancel,
    Save,
}

/// What the dialog asks of its owner: to let the user pick a file (whose
/// path comes back as `ChangeProjectPath`), to close, or to save.
#[derive(Debug, Clone)]
pub enum Action<Op> {
    Nothing,
    Cancel,
    PickFile,
    Save(String, Op, bool),
}

/// The dialog's state; `Op` is how imported measurement files are handled.
#[derive(Debug, Clone)]
pub struct View<Op> {
    base_path: String,
    file_path_str: String,
    create_subdir: bool,
    measurement_operation: Op,
    export_from_memory: bool,
}

/// What one message does to the dialog, and what it asks of its owner.
pub open spec fn update_post<Op: Copy>(old: View<Op>, new: View<Op>, msg: Message<Op>, r: Action<Op>) -> bool {
    match msg {
        Message::OpenFileDialog => r is PickFile && new == old,
        Message::ChangeProjectPath(p) => {
            &&& r is Nothing
            &&& new.base() == p@
            &&& new.file_path() == final_path(p@, old.subdir())
            &&& new.subdir() == old.subdir()
            &&& new.operation() == old.operation()
            &&& new.export() == old.export()
        },
        Message::ToggleCreateSubdir(b) => {
            &&& r is Nothing
            &&& new.base() == old.base()
            &&& new.file_path() == final_path(old.base(), b)
            &&& new.subdir() == b
            &&& new.operation() == old.operation()
            &&& new.export() == old.export()
        },
        Message::ChangeOperation(op) => {
            &&& r is Nothing
            &&& new.base() == old.base()
            &&& new.file_path() == old.file_path()
            &&& new.subdir() == old.subdir()
            &&& new.operation() == op
            &&& new.export() == old.export()
        },
        Message::ToggleExportFromMemory(b) => {
            &&& r is Nothing
            &&& new.base() == old.base()
            &&& new.file_path() == old.file_path()
            &&& new.subdir() == old.subdir()
            &&& new.operation() == old.operation()
            &&& new.export() == b
        },
        Message::Cancel => r is Cancel && new == old,
        Message::Save => {
            &&& new == old
            &&& r matches Action::Save(path, op, export)
            &&& path@ == old.file_path()
            &&& op == old.operation()
            &&& export == old.export()
        },
    }
}

impl<Op: Copy> View<Op> {
    pub closed spec fn base(&self) -> Seq<char> {
        self.base_path@
    }

    pub closed spec fn file_path(&self) -> Seq<char> {
        self.file_path_str@
    }

    pub closed spec fn subdir(&self) -> bool {
        self.create_subdir
    }

    pub closed spec fn operation(&self) -> Op {
        self.measurement_operation
    }

    pub closed spec fn export(&self) -> bool {
        self.export_from_memory
    }

    /// Opens the dialog with no path chosen, a subdirectory to be made, and
    /// the project's handling of imported files and of signals held only in
    /// memory.
    pub fn new(measurement_operation: Op, export_from_memory: bool) -> (r: Self)
        ensures
            r.base() == Seq::<char>::empty(),
            r.file_path() == Seq::<char>::empty(),
            r.subdir(),
            r.operation() == measurement_operation,
            r.export() == export_from_memory,
    {
        View {
            base_path: String::new(),
            file_path_str: String::new(),
            create_subdir: true,
            measurement_operation,
            export_from_memory,
        }
    }

    /// Whether Save can be pressed: a path has been chosen.
    pub fn can_save(&self) -> (r: bool)
        ensures
            r == (self.file_path().len() > 0),
    {
        !self.file_path_str.as_str().is_empty()
    }

    /// Handles one message.
    pub fn update(&mut self, msg: Message<Op>) -> (r: Action<Op>)
        ensures
            update_post(*old(self), *final(self), msg, r),
    {
        match msg {
            Message::OpenFileDialog => Action::PickFile,
            Message::ChangeProjectPath(path) => {
                self.base_path = path;
                let subdir = self.create_subdir;
                self.file_path_str = self.compute_final_path(subdir);
                Action::Nothing
            },
            Message::ToggleCreateSubdir(state) => {
                self.create_subdir = state;
                self.file_path_str = self.compute_final_path(state);
                Action::Nothing
            },
            Message::ChangeOperation(operation) => {
                self.measurement_operation = operation;
                Action::Nothing
            },
            Message::ToggleExportFromMemory(state) => {
                self.export_from_memory = state;
                Action::Nothing
            },
            Message::Cancel => Action::Cancel,
            Message::Save => Action::Save(
                self.file_path_str.clone(),
                self.measurement_operation,
                self.export_from_memory,
            ),
        }
    }

    /// The path the project file goes to, with or without a subdirectory.
    pub fn compute_final_path(&self, subdir: bool) -> (r: String)
        ensures
            r@ == final_path(self.base(), subdir),
    {
        if subdir {
            let base = self.base_path.as_str();
            let parent_dir = match parent(base) {
                Some(p) => p,
                None => String::new(),
            };
            let stem = match file_stem(base) {
                Some(s) => s,
                None => String::new(),
            };
            let name = match file_name(base) {
                Some(n) => n,
                None => String::new(),
            };
            let dir = join(parent_dir.as_str(), stem.as_str());
            join(dir.as_str(), name.as_str())
        } else {
            self.base_path.clone()
        }
    }
}

} // verus!
