//! Which version control governs the project.

use crate::model::{Failure, NewError, VersionControl};
use vstd::prelude::*;

verus! {

/// The version control that `name` names.
pub open spec fn vcs_named(name: Seq<char>) -> Option<VersionControl> {
    if name == "git"@ {
        Some(VersionControl::Git)
    } else if name == "hg"@ {
        Some(VersionControl::Hg)
    } else if name == "none"@ {
        Some(VersionControl::NoVcs)
    } else {
        None
    }
}

/// What reading `name` as a version control comes to.
pub open spec fn vcs_decoded(name: Seq<char>) -> Result<VersionControl, Failure> {
    match vcs_named(name) {
        Some(vcs) => Ok(vcs),
        None => Err(Failure::UnknownVcs { name }),
    }
}

/// The mathematical value of a decoding's outcome.
pub open spec fn decoded_of(r: Result<VersionControl, NewError>) -> Result<
    VersionControl,
    Failure,
> {
    match r {
        Ok(vcs) => Ok(vcs),
        Err(e) => Err(e@),
    }
}

impl VersionControl {
    /// Reads `git`, `hg` or `none` as a version control.
    pub fn decode(name: &str) -> (r: Result<VersionControl, NewError>)
        ensures
            decoded_of(r) == vcs_decoded(name@),
    {
        if *name == *"git" {
            Ok(VersionControl::Git)
        } else if *name == *"hg" {
            Ok(VersionControl::Hg)
        } else if *name == *"none" {
            Ok(VersionControl::NoVcs)
        } else {
            Err(NewError::UnknownVcs { name: name.to_string() })
        }
    }
}

/// The version control that the request and the project's directory point
/// to: the one asked for; else the one whose directory is there, which must
/// not be both; else none yet.
pub open spec fn evident_vcs(asked: Option<VersionControl>, git_dir: bool, hg_dir: bool) -> Result<
    Option<VersionControl>,
    Failure,
> {
    if asked is Some {
        Ok(asked)
    } else if git_dir && hg_dir {
        Err(Failure::AmbiguousVcs)
    } else if git_dir {
        Ok(Some(VersionControl::Git))
    } else if hg_dir {
        Ok(Some(VersionControl::Hg))
    } else {
        Ok(None)
    }
}

/// The mathematical value of a detection's outcome.
pub open spec fn detected_of(r: Result<Option<VersionControl>, NewError>) -> Result<
    Option<VersionControl>,
    Failure,
> {
    match r {
        Ok(vcs) => Ok(vcs),
        Err(e) => Err(e@),
    }
}

/// Takes the version control asked for, or else the one whose directory is
/// in the project's root.
pub fn detect_vcs(asked: Option<VersionControl>, git_dir: bool, hg_dir: bool) -> (r: Result<
    Option<VersionControl>,
    NewError,
>)
    ensures
        detected_of(r) == evident_vcs(asked, git_dir, hg_dir),
        asked is Some ==> r == Ok::<Option<VersionControl>, NewError>(asked),
        asked is None && git_dir && hg_dir ==> r == Err::<Option<VersionControl>, NewError>(
            NewError::AmbiguousVcs,
        ),
{
    if asked.is_some() {
        return Ok(asked);
    }
    if git_dir && hg_dir {
        return Err(NewError::AmbiguousVcs);
    }
    if git_dir {
        Ok(Some(VersionControl::Git))
    } else if hg_dir {
        Ok(Some(VersionControl::Hg))
    } else {
        Ok(None)
    }
}

/// The version control that the project gets: the one chosen so far; else the
/// one that the user prefers; else none where the project stands inside a
/// repository, and git where it does not.
pub open spec fn settled_vcs(
    chosen: Option<VersionControl>,
    preferred: Option<VersionControl>,
    inside_repository: bool,
) -> VersionControl {
    match (chosen, preferred) {
        (Some(vcs), _) => vcs,
        (None, Some(vcs)) => vcs,
        (None, None) => if inside_repository {
            VersionControl::NoVcs
        } else {
            VersionControl::Git
        },
    }
}

/// Settles the project's version control.
pub fn choose_vcs(
    chosen: Option<VersionControl>,
    preferred: Option<VersionControl>,
    inside_repository: bool,
) -> (r: VersionControl)
    ensures
        r == settled_vcs(chosen, preferred, inside_repository),
{
    match (chosen, preferred, inside_repository) {
        (Some(vcs), _, _) => vcs,
        (None, Some(vcs), _) => vcs,
        (None, None, true) => VersionControl::NoVcs,
        (None, None, false) => VersionControl::Git,
    }
}

/// A version control that was asked for is the one that the project gets,
/// whatever is in its directory, whatever the user prefers, and wherever the
/// project stands.
pub proof fn lemma_asked_vcs_wins(
    asked: VersionControl,
    git_dir: bool,
    hg_dir: bool,
    preferred: Option<VersionControl>,
    inside_repository: bool,
)
    ensures
        evident_vcs(Some(asked), git_dir, hg_dir) == Ok::<Option<VersionControl>, Failure>(
            Some(asked),
        ),
        settled_vcs(Some(asked), preferred, inside_repository) == asked,
{
}

} // verus!
