//! The steps that carry out a plan, and what they do to the files.

use crate::author::{author, resolve_author, AuthorSources};
use crate::manifest::{ignore_entries, ignored, manifest, render_manifest, stub, stub_source};
use crate::model::{
    source_files_of, CargoNewConfig, Failure, MkOptions, NewError, SourceFile,
    SourceFileInformation, VersionControl,
};
use crate::plan::Plan;
use crate::vcs::{choose_vcs, settled_vcs};
use vstd::prelude::*;

verus! {

/// One thing to do in the project's root. Paths are seen from the root.
#[derive(Clone, Debug, PartialEq, Eq)]
pub enum Action {
    /// Make the root, and in it a new repository of this kind.
    InitRepository(VersionControl),
    /// Make the root and the directories above it, where they are missing.
    CreateRoot,
    /// Put `content` at the end of the file, which is made if it is missing.
    Append { relative_path: String, content: String },
    /// Make the file hold `content` and nothing else.
    Write { relative_path: String, content: String },
    /// Make the directories above the file, where they are missing.
    CreateParents { relative_path: String },
}

/// A step as a mathematical value.
pub ghost enum Step {
    InitRepository(VersionControl),
    CreateRoot,
    Append { relative_path: Seq<char>, content: Seq<char> },
    Write { relative_path: Seq<char>, content: Seq<char> },
    CreateParents { relative_path: Seq<char> },
}

impl View for Action {
    type V = Step;

    open spec fn view(&self) -> Step {
        match *self {
            Action::InitRepository(vcs) => Step::InitRepository(vcs),
            Action::CreateRoot => Step::CreateRoot,
            Action::Append { relative_path, content } => Step::Append {
                relative_path: relative_path@,
                content: content@,
            },
            Action::Write { relative_path, content } => Step::Write {
                relative_path: relative_path@,
                content: content@,
            },
            Action::CreateParents { relative_path } => Step::CreateParents {
                relative_path: relative_path@,
            },
        }
    }
}

/// The steps of `actions` as mathematical values, in order.
pub open spec fn steps_of(actions: Seq<Action>) -> Seq<Step> {
    actions.map_values(|a: Action| a@)
}

/// What was found where the project is to stand.
#[derive(Clone, Debug, PartialEq, Eq)]
pub struct Observed {
    /// Whether the directory that will hold the root lies in a repository.
    pub inside_repository: bool,
    /// Whether the root holds git's directory.
    pub git_dir: bool,
    /// Whether the root holds mercurial's directory.
    pub hg_dir: bool,
    /// The planned source files that are there as regular files, by path.
    pub existing_files: Vec<String>,
    /// What is known of the user.
    pub author: AuthorSources,
}

/// The texts of `list`, in order.
pub open spec fn texts_of(list: Seq<String>) -> Seq<Seq<char>> {
    list.map_values(|s: String| s@)
}

/// The name of the manifest.
pub open spec fn manifest_path() -> Seq<char> {
    "Cargo.toml"@
}

/// The file in which a version control is told what to leave out.
pub open spec fn ignore_path(vcs: VersionControl) -> Option<Seq<char>> {
    match vcs {
        VersionControl::Git => Some(".gitignore"@),
        VersionControl::Hg => Some(".hgignore"@),
        VersionControl::NoVcs => None,
    }
}

/// The steps that put the root under `vcs`: a new repository unless its
/// directory is there, and the two entries added to its ignore file. Without
/// version control, the root is made.
pub open spec fn repository_steps(vcs: VersionControl, git_dir: bool, hg_dir: bool) -> Seq<Step> {
    match vcs {
        VersionControl::Git => (if git_dir {
            Seq::<Step>::empty()
        } else {
            seq![Step::InitRepository(VersionControl::Git)]
        }) + seq![Step::Append { relative_path: ".gitignore"@, content: ignored() }],
        VersionControl::Hg => (if hg_dir {
            Seq::<Step>::empty()
        } else {
            seq![Step::InitRepository(VersionControl::Hg)]
        }) + seq![Step::Append { relative_path: ".hgignore"@, content: ignored() }],
        VersionControl::NoVcs => seq![Step::CreateRoot],
    }
}

/// The steps for one source file: the directories above it are made, and
/// unless the file is among `existing` it is written as a stub.
pub open spec fn source_steps(file: SourceFile, existing: Seq<Seq<char>>) -> Seq<Step> {
    if existing.contains(file.relative_path) {
        seq![Step::CreateParents { relative_path: file.relative_path }]
    } else {
        seq![
            Step::CreateParents { relative_path: file.relative_path },
            Step::Write { relative_path: file.relative_path, content: stub(file.bin) },
        ]
    }
}

/// The steps for the source files, file by file in order.
pub open spec fn sources_steps(files: Seq<SourceFile>, existing: Seq<Seq<char>>) -> Seq<Step>
    decreases files.len(),
{
    if files.len() == 0 {
        Seq::empty()
    } else {
        sources_steps(files.drop_last(), existing) + source_steps(files.last(), existing)
    }
}

/// The steps that carry out `plan`: the root is put under version control,
/// the manifest is written, and each source file that is missing is written
/// as a stub. There are none where the author cannot be named.
pub open spec fn steps(plan: Plan, preferences: CargoNewConfig, seen: Observed) -> Result<
    Seq<Step>,
    Failure,
> {
    match author(preferences, seen.author) {
        Err(e) => Err(e),
        Ok(by) => Ok(
            repository_steps(
                settled_vcs(
                    plan.version_control,
                    preferences.version_control,
                    seen.inside_repository,
                ),
                seen.git_dir,
                seen.hg_dir,
            ) + seq![
                Step::Write {
                    relative_path: manifest_path(),
                    content: manifest(plan.name, by, plan.source_files),
                },
            ] + sources_steps(plan.source_files, texts_of(seen.existing_files@)),
        ),
    }
}

/// The mathematical value of a list of steps or an error.
pub open spec fn steps_or_failure(r: Result<Vec<Action>, NewError>) -> Result<Seq<Step>, Failure> {
    match r {
        Ok(actions) => Ok(steps_of(actions@)),
        Err(e) => Err(e@),
    }
}

/// Whether `path` is in `list`.
fn is_listed(list: &Vec<String>, path: &str) -> (r: bool)
    ensures
        r == texts_of(list@).contains(path@),
{
    let mut i: usize = 0;
    while i < list.len()
        invariant
            i <= list.len(),
            forall|k: int| 0 <= k < i ==> texts_of(list@)[k] != path@,
        decreases list.len() - i,
    {
        if *list[i].as_str() == *path {
            assert(texts_of(list@)[i as int] == path@);
            return true;
        }
        i += 1;
    }
    false
}

/// Adds to `actions` the steps that put the root under `vcs`.
fn push_repository_steps(actions: &mut Vec<Action>, vcs: VersionControl, git_dir: bool, hg_dir: bool)
    ensures
        steps_of(final(actions)@) == steps_of(old(actions)@) + repository_steps(
            vcs,
            git_dir,
            hg_dir,
        ),
{
    let ghost start = steps_of(actions@);
    match vcs {
        VersionControl::Git => {
            if !git_dir {
                actions.push(Action::InitRepository(VersionControl::Git));
            }
            actions.push(
                Action::Append {
                    relative_path: ".gitignore".to_string(),
                    content: ignore_entries(),
                },
            );
        },
        VersionControl::Hg => {
            if !hg_dir {
                actions.push(Action::InitRepository(VersionControl::Hg));
            }
            actions.push(
                Action::Append {
                    relative_path: ".hgignore".to_string(),
                    content: ignore_entries(),
                },
            );
        },
        VersionControl::NoVcs => {
            actions.push(Action::CreateRoot);
        },
    }
    assert(steps_of(actions@) =~= start + repository_steps(vcs, git_dir, hg_dir));
}

/// Adds to `actions` the steps for one source file.
fn push_source_steps(actions: &mut Vec<Action>, file: &SourceFileInformation, existing: &Vec<String>)
    ensures
        steps_of(final(actions)@) == steps_of(old(actions)@) + source_steps(
            file@,
            texts_of(existing@),
        ),
{
    let ghost start = steps_of(actions@);
    actions.push(Action::CreateParents { relative_path: file.relative_path.clone() });
    if !is_listed(existing, file.relative_path.as_str()) {
        actions.push(
            Action::Write {
                relative_path: file.relative_path.clone(),
                content: stub_source(file.bin),
            },
        );
    }
    assert(steps_of(actions@) =~= start + source_steps(file@, texts_of(existing@)));
}

/// Lists the steps that carry out a plan, given the user's preferences and
/// what was found where the project is to stand.
pub fn mk(opts: &MkOptions, preferences: &CargoNewConfig, seen: &Observed) -> (r: Result<
    Vec<Action>,
    NewError,
>)
    ensures
        steps_or_failure(r) == steps(opts@, *preferences, *seen),
{
    let by = match resolve_author(preferences, &seen.author) {
        Ok(by) => by,
        Err(e) => {
            return Err(e);
        },
    };
    let vcs = choose_vcs(opts.version_control, preferences.version_control, seen.inside_repository);
    let mut actions: Vec<Action> = Vec::new();
    push_repository_steps(&mut actions, vcs, seen.git_dir, seen.hg_dir);
    let ghost first = steps_of(actions@);
    assert(first =~= repository_steps(vcs, seen.git_dir, seen.hg_dir));
    actions.push(
        Action::Write {
            relative_path: "Cargo.toml".to_string(),
            content: render_manifest(opts.name, by.as_str(), &opts.source_files),
        },
    );
    let ghost head = steps_of(actions@);
    let ghost files = source_files_of(opts.source_files@);
    let ghost existing = texts_of(seen.existing_files@);
    assert(head =~= first + seq![
        Step::Write {
            relative_path: manifest_path(),
            content: manifest(opts.name@, by@, files),
        },
    ]);
    assert(head + sources_steps(files.take(0), existing) =~= head);
    let mut i: usize = 0;
    while i < opts.source_files.len()
        invariant
            i <= opts.source_files.len(),
            files == source_files_of(opts.source_files@),
            existing == texts_of(seen.existing_files@),
            steps_of(actions@) == head + sources_steps(files.take(i as int), existing),
        decreases opts.source_files.len() - i,
    {
        assert(files.take(i + 1).drop_last() =~= files.take(i as int));
        assert(files.take(i + 1).last() == opts.source_files[i as int]@);
        push_source_steps(&mut actions, &opts.source_files[i], &seen.existing_files);
        assert(steps_of(actions@) =~= head + sources_steps(files.take(i + 1), existing));
        i += 1;
    }
    assert(files.take(opts.source_files.len() as int) =~= files);
    Ok(actions)
}

} // verus!
