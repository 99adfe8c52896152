//! The values that planning works on, and what each of them stands for.

use vstd::prelude::*;

verus! {

/// The version-control system that governs a project.
#[derive(Clone, Copy, Debug, PartialEq, Eq, Structural)]
pub enum VersionControl {
    Git,
    Hg,
    NoVcs,
}

/// What the caller asked for.
#[derive(Clone, Copy, Debug, PartialEq, Eq)]
pub struct NewOptions<'a> {
    /// The version control asked for, if any was.
    pub version_control: Option<VersionControl>,
    /// Whether a program, rather than a library, is wanted.
    pub bin: bool,
    /// Where the project goes.
    pub path: &'a str,
    /// The project's name, where it is not to be taken from the path.
    pub name: Option<&'a str>,
}

/// One source file of the project: found on disk, or still to be written.
#[derive(Clone, Debug, PartialEq, Eq)]
pub struct SourceFileInformation {
    /// Where the file is, seen from the project's root.
    pub relative_path: String,
    /// The name of the target that is built from it.
    pub target_name: String,
    /// Whether the target is a program; a library otherwise.
    pub bin: bool,
}

/// A source file as a mathematical value.
pub ghost struct SourceFile {
    pub relative_path: Seq<char>,
    pub target_name: Seq<char>,
    pub bin: bool,
}

impl View for SourceFileInformation {
    type V = SourceFile;

    open spec fn view(&self) -> SourceFile {
        SourceFile {
            relative_path: self.relative_path@,
            target_name: self.target_name@,
            bin: self.bin,
        }
    }
}

/// Everything that is settled about a project before anything is written.
#[derive(Clone, Debug, PartialEq, Eq)]
pub struct MkOptions<'a> {
    /// The version control asked for or found; to be settled if `None`.
    pub version_control: Option<VersionControl>,
    /// Where the project goes.
    pub path: &'a str,
    /// The project's name.
    pub name: &'a str,
    /// The project's source files, in the order in which they were looked for.
    pub source_files: Vec<SourceFileInformation>,
}

/// The user's standing preferences.
#[derive(Clone, Debug, PartialEq, Eq)]
pub struct CargoNewConfig {
    pub name: Option<String>,
    pub email: Option<String>,
    pub version_control: Option<VersionControl>,
}

/// Why a final path component gave no name.
#[derive(Clone, Copy, Debug, PartialEq, Eq, Structural)]
pub enum NameFailure {
    /// The path has no final component.
    NoFinalComponent,
    /// The final component is not text.
    NotText,
}

/// Why no plan could be made.
#[derive(Clone, Debug, PartialEq, Eq)]
pub enum NewError {
    /// What is to be created is there already.
    DestinationExists,
    /// The path gives no name, and none was given beside it.
    NameResolution(NameFailure),
    /// The name holds `character`, which no name may hold.
    InvalidName { character: char, name: String },
    /// Two source files would both be the program called the same.
    AmbiguousBinaryTargets { first: String, second: String },
    /// Two source files would both be the library.
    DuplicateLibraryFiles { first: String, second: String },
    /// Both a git and a mercurial directory are there, and no choice was made.
    AmbiguousVcs,
    /// No source names the author.
    AuthorResolution,
    /// `name` names no version control.
    UnknownVcs { name: String },
    /// The source files handed over for a plan contradict one another.
    Internal,
}

/// An error as a mathematical value.
pub ghost enum Failure {
    DestinationExists,
    NameResolution(NameFailure),
    InvalidName { character: char, name: Seq<char> },
    AmbiguousBinaryTargets { first: Seq<char>, second: Seq<char> },
    DuplicateLibraryFiles { first: Seq<char>, second: Seq<char> },
    AmbiguousVcs,
    AuthorResolution,
    UnknownVcs { name: Seq<char> },
    Internal,
}

impl View for NewError {
    type V = Failure;

    open spec fn view(&self) -> Failure {
        match *self {
            NewError::DestinationExists => Failure::DestinationExists,
            NewError::NameResolution(why) => Failure::NameResolution(why),
            NewError::InvalidName { character, name } => Failure::InvalidName {
                character,
                name: name@,
            },
            NewError::AmbiguousBinaryTargets { first, second } => Failure::AmbiguousBinaryTargets {
                first: first@,
                second: second@,
            },
            NewError::DuplicateLibraryFiles { first, second } => Failure::DuplicateLibraryFiles {
                first: first@,
                second: second@,
            },
            NewError::AmbiguousVcs => Failure::AmbiguousVcs,
            NewError::AuthorResolution => Failure::AuthorResolution,
            NewError::UnknownVcs { name } => Failure::UnknownVcs { name: name@ },
            NewError::Internal => Failure::Internal,
        }
    }
}

/// The characters of an optional string.
pub open spec fn text_of(s: Option<String>) -> Option<Seq<char>> {
    match s {
        Some(t) => Some(t@),
        None => None,
    }
}

/// The source files of `files` as mathematical values, in order.
pub open spec fn source_files_of(files: Seq<SourceFileInformation>) -> Seq<SourceFile> {
    files.map_values(|f: SourceFileInformation| f@)
}

} // verus!
