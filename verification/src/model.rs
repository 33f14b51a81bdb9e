//! Data the planner works on: directory entries as the binary reports
//! them, and the actions a run performs, together with their
//! mathematical views (paths become sequences of component names).

use vstd::prelude::*;

verus! {

/// What kind of object a directory entry is, as far as the run cares.
///
/// `Unreadable` stands for an entry whose name or type could not be
/// obtained (including a whole listing that failed: such a listing is
/// handed in as a single unreadable entry).
#[derive(Debug, Clone, Copy, PartialEq, Eq, Structural)]
pub enum EntryKind {
    File,
    Dir,
    Other,
    Unreadable,
}

/// One immediate entry of a target directory.
///
/// `note` carries the diagnostic text shown if this entry aborts the
/// run: the I/O error for an unreadable entry, a description of the
/// unsupported type for an `Other` entry. It is empty otherwise, and
/// `name` is empty for an unreadable entry.
#[derive(Debug, Clone, PartialEq, Eq)]
pub struct Entry {
    pub name: String,
    pub kind: EntryKind,
    pub note: String,
}

/// Mathematical view of an [`Entry`].
pub struct EntryModel {
    pub name: Seq<char>,
    pub kind: EntryKind,
    pub note: Seq<char>,
}

impl DeepView for Entry {
    type V = EntryModel;

    open spec fn deep_view(&self) -> EntryModel {
        EntryModel { name: self.name@, kind: self.kind, note: self.note@ }
    }
}

/// One step of a run, in order. A path is the sequence of components
/// from the data root; the binary joins them into a platform path.
///
/// `PrintToDelete` and `LogDeleting` write a line to standard output;
/// `DeleteFile` removes one file, `DeleteDir` removes a whole subtree.
#[derive(Debug, Clone, PartialEq, Eq)]
pub enum Action {
    PrintToDelete { path: Vec<String> },
    LogDeleting { path: Vec<String> },
    DeleteFile { path: Vec<String> },
    DeleteDir { path: Vec<String> },
}

/// Mathematical view of an [`Action`].
pub enum ActionModel {
    PrintToDelete { path: Seq<Seq<char>> },
    LogDeleting { path: Seq<Seq<char>> },
    DeleteFile { path: Seq<Seq<char>> },
    DeleteDir { path: Seq<Seq<char>> },
}

impl DeepView for Action {
    type V = ActionModel;

    open spec fn deep_view(&self) -> ActionModel {
        match self {
            Action::PrintToDelete { path } => ActionModel::PrintToDelete { path: path.deep_view() },
            Action::LogDeleting { path } => ActionModel::LogDeleting { path: path.deep_view() },
            Action::DeleteFile { path } => ActionModel::DeleteFile { path: path.deep_view() },
            Action::DeleteDir { path } => ActionModel::DeleteDir { path: path.deep_view() },
        }
    }
}

/// Whether an action mutates the filesystem (a deletion, as opposed to
/// a line of output).
pub open spec fn is_mutation(a: ActionModel) -> bool {
    a is DeleteFile || a is DeleteDir
}

/// A deletion candidate: the path of an entry that the sweep targets,
/// and whether it is removed as a directory (recursively) or as a file.
pub struct Candidate {
    pub path: Seq<Seq<char>>,
    pub is_dir: bool,
}

/// The deletion that a candidate receives when the run is not a dry run.
pub open spec fn delete_action(cd: Candidate) -> ActionModel {
    if cd.is_dir {
        ActionModel::DeleteDir { path: cd.path }
    } else {
        ActionModel::DeleteFile { path: cd.path }
    }
}

/// One target directory together with the snapshot of its immediate
/// entries: `None` when the directory does not exist (that branch of
/// the sweep is skipped), `Some` with the listing otherwise.
#[derive(Debug, Clone, PartialEq, Eq)]
pub struct FolderListing {
    pub dir: Vec<String>,
    pub entries: Option<Vec<Entry>>,
}

/// Mathematical view of a [`FolderListing`].
pub struct FolderModel {
    pub dir: Seq<Seq<char>>,
    pub entries: Option<Seq<EntryModel>>,
}

impl DeepView for FolderListing {
    type V = FolderModel;

    open spec fn deep_view(&self) -> FolderModel {
        FolderModel { dir: self.dir.deep_view(), entries: self.entries.deep_view() }
    }
}

} // verus!
