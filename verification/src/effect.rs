//! What carrying out a plan does to the files under the project's root, and
//! what it leaves alone.

use crate::manifest::ignored;
use crate::model::{CargoNewConfig, Failure, NewOptions, SourceFile};
use crate::name::FinalComponent;
use crate::plan::{default_source, planned_init, planned_new, Plan};
use crate::steps::{
    ignore_path, manifest_path, repository_steps, source_steps, sources_steps, steps, texts_of,
    Observed, Step,
};
use crate::survey::{candidates, found_of, survey, surveyed, Found, Probe};
use crate::vcs::settled_vcs;
use vstd::prelude::*;

verus! {

/// Whether `step` changes the file at `path`.
pub open spec fn touches(step: Step, path: Seq<char>) -> bool {
    match step {
        Step::Append { relative_path, .. } => relative_path == path,
        Step::Write { relative_path, .. } => relative_path == path,
        _ => false,
    }
}

/// The text of the file at `path`: empty where there is no file.
pub open spec fn text_at(files: Map<Seq<char>, Seq<char>>, path: Seq<char>) -> Seq<char> {
    if files.dom().contains(path) {
        files[path]
    } else {
        Seq::empty()
    }
}

/// The files, by path, after `step`.
pub open spec fn after(files: Map<Seq<char>, Seq<char>>, step: Step) -> Map<Seq<char>, Seq<char>> {
    match step {
        Step::Append { relative_path, content } => files.insert(
            relative_path,
            text_at(files, relative_path) + content,
        ),
        Step::Write { relative_path, content } => files.insert(relative_path, content),
        _ => files,
    }
}

/// The files, by path, after `steps` in order.
pub open spec fn after_all(files: Map<Seq<char>, Seq<char>>, steps: Seq<Step>) -> Map<
    Seq<char>,
    Seq<char>,
>
    decreases steps.len(),
{
    if steps.len() == 0 {
        files
    } else {
        after(after_all(files, steps.drop_last()), steps.last())
    }
}

/// Whether the file at `path` is the same in `before` and in `later`: there
/// or not there in both, with the same text.
pub open spec fn same_at(
    before: Map<Seq<char>, Seq<char>>,
    later: Map<Seq<char>, Seq<char>>,
    path: Seq<char>,
) -> bool {
    before.dom().contains(path) == later.dom().contains(path) && (before.dom().contains(path)
        ==> before[path] == later[path])
}

/// Doing `first` and then `second` is doing the two lists one after the
/// other.
pub proof fn lemma_after_both(files: Map<Seq<char>, Seq<char>>, first: Seq<Step>, second: Seq<Step>)
    ensures
        after_all(files, first + second) == after_all(after_all(files, first), second),
    decreases second.len(),
{
    if second.len() == 0 {
        assert(first + second =~= first);
    } else {
        assert((first + second).drop_last() =~= first + second.drop_last());
        assert((first + second).last() == second.last());
        lemma_after_both(files, first, second.drop_last());
    }
}

/// Steps that do not touch a file leave it as it is.
pub proof fn lemma_untouched(files: Map<Seq<char>, Seq<char>>, steps: Seq<Step>, path: Seq<char>)
    requires
        forall|k: int| 0 <= k < steps.len() ==> !touches(#[trigger] steps[k], path),
    ensures
        same_at(files, after_all(files, steps), path),
    decreases steps.len(),
{
    if steps.len() > 0 {
        let before = steps.drop_last();
        assert forall|k: int| 0 <= k < before.len() implies !touches(#[trigger] before[k], path) by {
            assert(before[k] == steps[k]);
        }
        lemma_untouched(files, before, path);
        assert(!touches(steps[steps.len() - 1], path));
    }
}

/// The steps for the source files touch a file only to write the stub of a
/// planned source file that is not among the existing ones.
pub proof fn lemma_sources_steps_touch(files: Seq<SourceFile>, existing: Seq<Seq<char>>, path: Seq<char>)
    ensures
        forall|k: int|
            0 <= k < sources_steps(files, existing).len() && touches(
                #[trigger] sources_steps(files, existing)[k],
                path,
            ) ==> !existing.contains(path) && exists|i: int|
                0 <= i < files.len() && (#[trigger] files[i]).relative_path == path,
    decreases files.len(),
{
    if files.len() > 0 {
        let before = files.drop_last();
        lemma_sources_steps_touch(before, existing, path);
        let all = sources_steps(files, existing);
        let head = sources_steps(before, existing);
        let tail = source_steps(files.last(), existing);
        assert forall|k: int| 0 <= k < all.len() && touches(#[trigger] all[k], path) implies 
            !existing.contains(path) && exists|i: int|
                0 <= i < files.len() && (#[trigger] files[i]).relative_path == path by {
            if k < head.len() {
                assert(all[k] == head[k]);
                let i = choose|i: int|
                    0 <= i < before.len() && (#[trigger] before[i]).relative_path == path;
                assert(files[i] == before[i]);
            } else {
                assert(all[k] == tail[k - head.len()]);
                assert(files[files.len() - 1].relative_path == path);
            }
        }
    }
}

/// Carrying out a plan leaves every file that was reported as existing as it
/// is, unless the file stands where the manifest or the ignore file goes.
pub proof fn lemma_existing_files_are_kept(
    plan: Plan,
    preferences: CargoNewConfig,
    seen: Observed,
    files: Map<Seq<char>, Seq<char>>,
    path: Seq<char>,
)
    requires
        steps(plan, preferences, seen) is Ok,
        texts_of(seen.existing_files@).contains(path),
        path != manifest_path(),
        ignore_path(
            settled_vcs(plan.version_control, preferences.version_control, seen.inside_repository),
        ) != Some(path),
    ensures
        same_at(files, after_all(files, steps(plan, preferences, seen)->Ok_0), path),
{
    let all = steps(plan, preferences, seen)->Ok_0;
    let existing = texts_of(seen.existing_files@);
    let vcs = settled_vcs(plan.version_control, preferences.version_control, seen.inside_repository);
    let first = repository_steps(vcs, seen.git_dir, seen.hg_dir);
    let last = sources_steps(plan.source_files, existing);
    lemma_sources_steps_touch(plan.source_files, existing, path);
    assert forall|k: int| 0 <= k < all.len() implies !touches(#[trigger] all[k], path) by {
        if k < first.len() {
            assert(all[k] == first[k]);
        } else if k == first.len() {
        } else {
            assert(all[k] == last[k - first.len() - 1]);
        }
    }
    lemma_untouched(files, all, path);
}

/// Carrying out a plan under git or mercurial leaves in the ignore file what
/// was in it, followed by the two entries: provided that no planned source
/// file that is still to be written stands where the ignore file goes.
pub proof fn lemma_ignore_file_grows(
    plan: Plan,
    preferences: CargoNewConfig,
    seen: Observed,
    files: Map<Seq<char>, Seq<char>>,
)
    requires
        steps(plan, preferences, seen) is Ok,
        ignore_path(
            settled_vcs(plan.version_control, preferences.version_control, seen.inside_repository),
        ) matches Some(path) && (texts_of(seen.existing_files@).contains(path) || forall|i: int|
            0 <= i < plan.source_files.len() ==> (#[trigger] plan.source_files[i]).relative_path
                != path),
    ensures
        ({
            let path = ignore_path(
                settled_vcs(
                    plan.version_control,
                    preferences.version_control,
                    seen.inside_repository,
                ),
            )->0;
            let later = after_all(files, steps(plan, preferences, seen)->Ok_0);
            later.dom().contains(path) && later[path] == text_at(files, path) + ignored()
        }),
{
    let all = steps(plan, preferences, seen)->Ok_0;
    let existing = texts_of(seen.existing_files@);
    let vcs = settled_vcs(plan.version_control, preferences.version_control, seen.inside_repository);
    let path = ignore_path(vcs)->0;
    let first = repository_steps(vcs, seen.git_dir, seen.hg_dir);
    let write = all[first.len() as int];
    let last = sources_steps(plan.source_files, existing);
    reveal_strlit("Cargo.toml");
    reveal_strlit(".gitignore");
    reveal_strlit(".hgignore");
    assert(path != manifest_path()) by {
        assert(manifest_path()[0] == 'C');
        assert(path[0] == '.');
    }
    let rest = seq![write] + last;
    assert(all =~= first + rest);
    lemma_after_both(files, first, rest);
    let middle = after_all(files, first);
    assert(middle.dom().contains(path) && middle[path] == text_at(files, path) + ignored()) by {
        let append = Step::Append { relative_path: path, content: ignored() };
        if first.len() == 1 {
            assert(first.drop_last() =~= Seq::<Step>::empty());
            assert(first.last() == append);
            assert(after_all(files, first.drop_last()) == files);
        } else {
            let init = first.drop_last();
            assert(first.last() == append);
            assert(init.len() == 1);
            assert(init.drop_last() =~= Seq::<Step>::empty());
            assert(after_all(files, init.drop_last()) == files);
            assert(after_all(files, init) == files);
        }
    }
    lemma_sources_steps_touch(plan.source_files, existing, path);
    assert forall|k: int| 0 <= k < rest.len() implies !touches(#[trigger] rest[k], path) by {
        if k > 0 {
            assert(rest[k] == last[k - 1]);
        }
    }
    lemma_untouched(middle, rest, path);
}

/// Carrying out a plan twice leaves the two entries twice at the end of the
/// ignore file: provided that neither time a planned source file that is
/// still to be written stands where the ignore file goes.
pub proof fn lemma_ignore_file_grows_twice(
    plan: Plan,
    preferences: CargoNewConfig,
    seen: Observed,
    seen_again: Observed,
    files: Map<Seq<char>, Seq<char>>,
)
    requires
        steps(plan, preferences, seen) is Ok,
        steps(plan, preferences, seen_again) is Ok,
        settled_vcs(plan.version_control, preferences.version_control, seen.inside_repository)
            == settled_vcs(
            plan.version_control,
            preferences.version_control,
            seen_again.inside_repository,
        ),
        ignore_path(
            settled_vcs(plan.version_control, preferences.version_control, seen.inside_repository),
        ) is Some,
        forall|i: int|
            0 <= i < plan.source_files.len() ==> Some(
                (#[trigger] plan.source_files[i]).relative_path,
            ) != ignore_path(
                settled_vcs(
                    plan.version_control,
                    preferences.version_control,
                    seen.inside_repository,
                ),
            ),
    ensures
        ({
            let path = ignore_path(
                settled_vcs(
                    plan.version_control,
                    preferences.version_control,
                    seen.inside_repository,
                ),
            )->0;
            let once = after_all(files, steps(plan, preferences, seen)->Ok_0);
            let twice = after_all(once, steps(plan, preferences, seen_again)->Ok_0);
            twice.dom().contains(path) && twice[path] == text_at(files, path) + ignored()
                + ignored()
        }),
{
    let once = after_all(files, steps(plan, preferences, seen)->Ok_0);
    lemma_ignore_file_grows(plan, preferences, seen, files);
    lemma_ignore_file_grows(plan, preferences, seen_again, once);
}

/// Whether `path` has the ending of a Rust source file.
pub open spec fn is_rust_source(path: Seq<char>) -> bool {
    ".rs"@.is_suffix_of(path)
}

/// Whether every source file of `plan` has the ending of a Rust source file.
pub open spec fn has_rust_sources(plan: Plan) -> bool {
    forall|i: int|
        0 <= i < plan.source_files.len() ==> is_rust_source(
            (#[trigger] plan.source_files[i]).relative_path,
        )
}

/// A Rust source file stands neither where the manifest goes nor where an
/// ignore file goes.
pub proof fn lemma_rust_source_is_apart(path: Seq<char>)
    requires
        is_rust_source(path),
    ensures
        path != manifest_path(),
        path != ".gitignore"@,
        path != ".hgignore"@,
{
    reveal_strlit(".rs");
    reveal_strlit("Cargo.toml");
    reveal_strlit(".gitignore");
    reveal_strlit(".hgignore");
    let tail = path.subrange(path.len() - 3, path.len() as int);
    assert(tail[2] == 's');
    assert(path[path.len() - 1] == 's');
}

/// Every place where a source file is looked for has the ending of a Rust
/// source file.
pub proof fn lemma_candidates_are_rust_sources(name: Seq<char>)
    ensures
        forall|i: int| 0 <= i < 6 ==> is_rust_source((#[trigger] candidates(name)[i]).0),
{
    reveal_strlit(".rs");
    reveal_strlit("src/main.rs");
    reveal_strlit("main.rs");
    reveal_strlit("src/lib.rs");
    reveal_strlit("lib.rs");
    let places = candidates(name);
    assert forall|i: int| 0 <= i < 6 implies is_rust_source((#[trigger] places[i]).0) by {
        let path = places[i].0;
        assert(path.len() >= 3);
        assert(path.subrange(path.len() - 3, path.len() as int) =~= ".rs"@);
    }
}

/// Every source file that a survey yields stands at one of the places.
pub proof fn lemma_surveyed_stand_at_places(name: Seq<char>, probes: Seq<Found>, upto: int)
    requires
        0 <= upto <= 6,
    ensures
        forall|k: int|
            0 <= k < surveyed(name, probes, upto).len() ==> exists|i: int|
                0 <= i < upto && (#[trigger] surveyed(name, probes, upto)[k]).relative_path
                    == candidates(name)[i].0,
    decreases upto,
{
    if upto > 0 {
        lemma_surveyed_stand_at_places(name, probes, upto - 1);
        let before = surveyed(name, probes, upto - 1);
        let all = surveyed(name, probes, upto);
        assert forall|k: int| 0 <= k < all.len() implies exists|i: int|
            0 <= i < upto && (#[trigger] all[k]).relative_path == candidates(name)[i].0 by {
            if k < before.len() {
                assert(all[k] == before[k]);
                let i = choose|i: int|
                    0 <= i < upto - 1 && before[k].relative_path == candidates(name)[i].0;
                assert(0 <= i < upto && all[k].relative_path == candidates(name)[i].0);
            } else {
                assert(all[k].relative_path == candidates(name)[upto - 1].0);
            }
        }
    }
}

/// The source files of a plan that `new` or `init` makes have the ending of
/// Rust source files.
pub proof fn lemma_planned_sources_are_rust(
    opts: NewOptions,
    exists: bool,
    last: FinalComponent,
    probes: Seq<Probe>,
    git_dir: bool,
    hg_dir: bool,
)
    ensures
        planned_new(opts, exists, last) matches Ok(plan) ==> has_rust_sources(plan),
        planned_init(opts, exists, last, probes, git_dir, hg_dir) matches Ok(plan)
            ==> has_rust_sources(plan),
{
    reveal_strlit(".rs");
    reveal_strlit("src/main.rs");
    reveal_strlit("src/lib.rs");
    assert forall|bin: bool, name: Seq<char>|
        is_rust_source((#[trigger] default_source(bin, name)).relative_path) by {
        let path = default_source(bin, name).relative_path;
        assert(path.subrange(path.len() - 3, path.len() as int) =~= ".rs"@);
    }
    if let Ok(plan) = planned_init(opts, exists, last, probes, git_dir, hg_dir) {
        let found = survey(plan.name, found_of(probes));
        lemma_surveyed_stand_at_places(plan.name, found_of(probes), 6);
        lemma_candidates_are_rust_sources(plan.name);
        assert forall|k: int| 0 <= k < found.len() implies is_rust_source(
            (#[trigger] found[k]).relative_path,
        ) by {
            let i = choose|i: int|
                0 <= i < 6 && found[k].relative_path == candidates(plan.name)[i].0;
            assert(is_rust_source(candidates(plan.name)[i].0));
        }
    }
}

/// Carrying out a plan that `init` made leaves every source file that was
/// found as it is.
pub proof fn lemma_init_keeps_found_sources(
    opts: NewOptions,
    last: FinalComponent,
    probes: Seq<Probe>,
    git_dir: bool,
    hg_dir: bool,
    preferences: CargoNewConfig,
    seen: Observed,
    files: Map<Seq<char>, Seq<char>>,
    at: int,
)
    requires
        planned_init(opts, false, last, probes, git_dir, hg_dir) is Ok,
        steps(
            planned_init(opts, false, last, probes, git_dir, hg_dir)->Ok_0,
            preferences,
            seen,
        ) is Ok,
        0 <= at < planned_init(opts, false, last, probes, git_dir, hg_dir)->Ok_0.source_files.len(),
        texts_of(seen.existing_files@).contains(
            planned_init(opts, false, last, probes, git_dir, hg_dir)->Ok_0.source_files[at].relative_path,
        ),
    ensures
        ({
            let plan = planned_init(opts, false, last, probes, git_dir, hg_dir)->Ok_0;
            same_at(
                files,
                after_all(files, steps(plan, preferences, seen)->Ok_0),
                plan.source_files[at].relative_path,
            )
        }),
{
    let plan = planned_init(opts, false, last, probes, git_dir, hg_dir)->Ok_0;
    let path = plan.source_files[at].relative_path;
    lemma_planned_sources_are_rust(opts, false, last, probes, git_dir, hg_dir);
    lemma_rust_source_is_apart(path);
    lemma_existing_files_are_kept(plan, preferences, seen, files, path);
}

/// Carrying out, under git or mercurial, a plan that `new` or `init` made
/// leaves in the ignore file what was in it, followed by the two entries.
pub proof fn lemma_planned_ignore_file_grows(
    opts: NewOptions,
    exists: bool,
    last: FinalComponent,
    probes: Seq<Probe>,
    git_dir: bool,
    hg_dir: bool,
    preferences: CargoNewConfig,
    seen: Observed,
    files: Map<Seq<char>, Seq<char>>,
    plan: Plan,
)
    requires
        planned_new(opts, exists, last) == Ok::<Plan, Failure>(plan) || planned_init(
            opts,
            exists,
            last,
            probes,
            git_dir,
            hg_dir,
        ) == Ok::<Plan, Failure>(plan),
        steps(plan, preferences, seen) is Ok,
        ignore_path(
            settled_vcs(plan.version_control, preferences.version_control, seen.inside_repository),
        ) is Some,
    ensures
        ({
            let path = ignore_path(
                settled_vcs(
                    plan.version_control,
                    preferences.version_control,
                    seen.inside_repository,
                ),
            )->0;
            let later = after_all(files, steps(plan, preferences, seen)->Ok_0);
            later.dom().contains(path) && later[path] == text_at(files, path) + ignored()
        }),
{
    lemma_planned_sources_are_rust(opts, exists, last, probes, git_dir, hg_dir);
    assert forall|i: int| 0 <= i < plan.source_files.len() implies (
    #[trigger] plan.source_files[i]).relative_path != ".gitignore"@ && plan.source_files[i].relative_path
        != ".hgignore"@ by {
        lemma_rust_source_is_apart(plan.source_files[i].relative_path);
    }
    lemma_ignore_file_grows(plan, preferences, seen, files);
}

} // verus!
