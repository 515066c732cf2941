//! Resolution plans.
//!
//! Resolving a target produces a sequence of actions instead of
//! performing any side effect.  The embedding application carries the
//! actions out in order and stops at the first one that fails, so the
//! core's decisions stay pure and fully verified.

use vstd::prelude::*;

use crate::target::ProgramCommand;
use crate::target::ProgramCommandV;

verus! {

/// View of an [`Action`].
pub ghost enum ActionV {
    CreateDirAll { path: Seq<char> },
    CreateDir { path: Seq<char> },
    WriteFile { path: Seq<char>, contents: Seq<char> },
    WriteExecutable { path: Seq<char>, contents: Seq<char> },
    CopyFile { from: Seq<char>, to: Seq<char> },
    Run { dir: Option<Seq<char>>, command: ProgramCommandV },
    RunWithStdin { dir: Option<Seq<char>>, command: ProgramCommandV },
}

/// One step of a resolution plan.
#[derive(Clone, Debug, PartialEq, Eq)]
pub enum Action {
    /// Create a directory together with any missing parents.
    CreateDirAll { path: String },
    /// Create a single directory.
    CreateDir { path: String },
    /// Write a file with the given contents.
    WriteFile { path: String, contents: String },
    /// Write a file with the given contents and mark it executable
    /// (owner read, write and execute).
    WriteExecutable { path: String, contents: String },
    /// Copy one file byte for byte.
    CopyFile { from: String, to: String },
    /// Spawn the command in the given working directory (the caller's
    /// when absent), pass its standard output through, and wait for it
    /// to exit.
    Run { dir: Option<String>, command: ProgramCommand },
    /// As `Run`, but with the caller's standard input forwarded, for
    /// interactive sessions.
    RunWithStdin { dir: Option<String>, command: ProgramCommand },
}

impl View for Action {
    type V = ActionV;

    open spec fn view(&self) -> ActionV {
        match self {
            Action::CreateDirAll { path } => ActionV::CreateDirAll { path: path@ },
            Action::CreateDir { path } => ActionV::CreateDir { path: path@ },
            Action::WriteFile { path, contents } => ActionV::WriteFile {
                path: path@,
                contents: contents@,
            },
            Action::WriteExecutable { path, contents } => ActionV::WriteExecutable {
                path: path@,
                contents: contents@,
            },
            Action::CopyFile { from, to } => ActionV::CopyFile { from: from@, to: to@ },
            Action::Run { dir, command } => ActionV::Run {
                dir: match dir {
                    Some(d) => Some(d@),
                    None => None,
                },
                command: command@,
            },
            Action::RunWithStdin { dir, command } => ActionV::RunWithStdin {
                dir: match dir {
                    Some(d) => Some(d@),
                    None => None,
                },
                command: command@,
            },
        }
    }
}

impl DeepView for Action {
    type V = ActionV;

    open spec fn deep_view(&self) -> ActionV {
        self.view()
    }
}

/// View of an [`FsEntry`].
pub ghost struct FsEntryV {
    pub rel_path: Seq<char>,
    pub is_dir: bool,
}

/// One entry of a directory listing, named by its path relative to the
/// walked root.  The embedding application gathers these; the core only
/// decides what to do with them.
#[derive(Clone, Debug, PartialEq, Eq)]
pub struct FsEntry {
    pub rel_path: String,
    pub is_dir: bool,
}

impl View for FsEntry {
    type V = FsEntryV;

    open spec fn view(&self) -> FsEntryV {
        FsEntryV { rel_path: self.rel_path@, is_dir: self.is_dir }
    }
}

impl DeepView for FsEntry {
    type V = FsEntryV;

    open spec fn deep_view(&self) -> FsEntryV {
        self.view()
    }
}

impl FsEntry {
    /// An entry at the given relative path.
    pub fn new(rel_path: String, is_dir: bool) -> (r: FsEntry)
        ensures
            r@ == (FsEntryV { rel_path: rel_path@, is_dir }),
    {
        FsEntry { rel_path, is_dir }
    }
}

} // verus!
