//! The source files that a project starts from: which of the usual places
//! hold one, what each of them is built into, and whether they agree.

use crate::model::{source_files_of, Failure, NewError, SourceFile, SourceFileInformation};
use crate::name::outcome_of;
use crate::text::{contains, occurs_in};
use vstd::prelude::*;

verus! {

/// How a file found at a usual place is classed.
#[derive(Clone, Copy, Debug, PartialEq, Eq, Structural)]
pub enum Handling {
    /// It is a program.
    Bin,
    /// It is a library.
    Lib,
    /// It is a program if its text defines an entry point, else a library.
    Detect,
}

/// A place where a source file is looked for.
#[derive(Clone, Debug, PartialEq, Eq)]
pub struct Candidate {
    /// The place, seen from the project's root.
    pub proposed_path: String,
    pub handling: Handling,
}

impl View for Candidate {
    type V = (Seq<char>, Handling);

    open spec fn view(&self) -> (Seq<char>, Handling) {
        (self.proposed_path@, self.handling)
    }
}

/// What was found at a place.
#[derive(Clone, Debug, PartialEq, Eq)]
pub enum Probe {
    /// Nothing, or something that is no regular file.
    Absent,
    /// A regular file, which was not read.
    File,
    /// A regular file that holds this text.
    Text(String),
}

/// What was found at a place, as a mathematical value.
pub ghost enum Found {
    Absent,
    File,
    Text(Seq<char>),
}

impl View for Probe {
    type V = Found;

    open spec fn view(&self) -> Found {
        match *self {
            Probe::Absent => Found::Absent,
            Probe::File => Found::File,
            Probe::Text(text) => Found::Text(text@),
        }
    }
}

/// What was found at each place, in order.
pub open spec fn found_of(probes: Seq<Probe>) -> Seq<Found> {
    probes.map_values(|p: Probe| p@)
}

/// The places where the source files of the project `name` are looked for,
/// in the order in which they are looked at.
pub open spec fn candidates(name: Seq<char>) -> Seq<(Seq<char>, Handling)> {
    seq![
        ("src/main.rs"@, Handling::Bin),
        ("main.rs"@, Handling::Bin),
        ("src/"@ + name + ".rs"@, Handling::Detect),
        (name + ".rs"@, Handling::Detect),
        ("src/lib.rs"@, Handling::Lib),
        ("lib.rs"@, Handling::Lib),
    ]
}

/// The places where the source files of the project `name` are looked for.
pub fn source_candidates(name: &str) -> (r: Vec<Candidate>)
    ensures
        r@.map_values(|c: Candidate| c@) == candidates(name@),
{
    let mut in_src = "src/".to_string();
    in_src.append(name);
    in_src.append(".rs");
    let mut at_root = name.to_string();
    at_root.append(".rs");
    let r = vec![
        Candidate { proposed_path: "src/main.rs".to_string(), handling: Handling::Bin },
        Candidate { proposed_path: "main.rs".to_string(), handling: Handling::Bin },
        Candidate { proposed_path: in_src, handling: Handling::Detect },
        Candidate { proposed_path: at_root, handling: Handling::Detect },
        Candidate { proposed_path: "src/lib.rs".to_string(), handling: Handling::Lib },
        Candidate { proposed_path: "lib.rs".to_string(), handling: Handling::Lib },
    ];
    assert(r@.map_values(|c: Candidate| c@) =~= candidates(name@));
    r
}

/// Whether a file found at a place of the given handling is a program.
pub open spec fn is_program(handling: Handling, found: Found) -> bool {
    match handling {
        Handling::Bin => true,
        Handling::Lib => false,
        Handling::Detect => found matches Found::Text(text) && occurs_in("fn main"@, text),
    }
}

/// The source file that a place contributes, if it holds one.
pub open spec fn contribution(place: (Seq<char>, Handling), found: Found, name: Seq<char>) -> Option<
    SourceFile,
> {
    if found is Absent {
        None
    } else {
        Some(
            SourceFile {
                relative_path: place.0,
                target_name: name,
                bin: is_program(place.1, found),
            },
        )
    }
}

/// What was found at the place of index `at`: nothing where nothing is
/// reported.
pub open spec fn found_at(probes: Seq<Found>, at: int) -> Found {
    if 0 <= at < probes.len() {
        probes[at]
    } else {
        Found::Absent
    }
}

/// The source files that the first `upto` places contribute, in order.
pub open spec fn surveyed(name: Seq<char>, probes: Seq<Found>, upto: int) -> Seq<SourceFile>
    decreases upto,
{
    if upto <= 0 {
        Seq::empty()
    } else {
        let before = surveyed(name, probes, upto - 1);
        match contribution(candidates(name)[upto - 1], found_at(probes, upto - 1), name) {
            Some(file) => before.push(file),
            None => before,
        }
    }
}

/// The source files that the places contribute, in order.
pub open spec fn survey(name: Seq<char>, probes: Seq<Found>) -> Seq<SourceFile> {
    surveyed(name, probes, 6)
}

/// Whether `later` cannot stand beside `earlier`: both are libraries, or both
/// are programs of one name.
pub open spec fn clash(earlier: SourceFile, later: SourceFile) -> bool {
    if later.bin {
        earlier.bin && earlier.target_name == later.target_name
    } else {
        !earlier.bin
    }
}

/// Whether no two of `files` clash: at most one is a library, and no two
/// programs share a name.
pub open spec fn consistent(files: Seq<SourceFile>) -> bool {
    forall|i: int, j: int| 0 <= i < j < files.len() ==> !clash(#[trigger] files[i], #[trigger] files[j])
}

/// The error for `later` clashing with `earlier`.
pub open spec fn conflict(earlier: SourceFile, later: SourceFile) -> Failure {
    if later.bin {
        Failure::AmbiguousBinaryTargets {
            first: earlier.relative_path,
            second: later.relative_path,
        }
    } else {
        Failure::DuplicateLibraryFiles {
            first: earlier.relative_path,
            second: later.relative_path,
        }
    }
}

/// The first of `before` that `file` clashes with.
pub open spec fn clashing(before: Seq<SourceFile>, file: SourceFile) -> Option<SourceFile>
    decreases before.len(),
{
    if before.len() == 0 {
        None
    } else if clash(before.first(), file) {
        Some(before.first())
    } else {
        clashing(before.drop_first(), file)
    }
}

/// The error that going through `files` in order meets first: that of the
/// first file that clashes with one before it.
pub open spec fn first_conflict(files: Seq<SourceFile>) -> Option<Failure>
    decreases files.len(),
{
    if files.len() == 0 {
        None
    } else {
        match first_conflict(files.drop_last()) {
            Some(failure) => Some(failure),
            None => match clashing(files.drop_last(), files.last()) {
                Some(earlier) => Some(conflict(earlier, files.last())),
                None => None,
            },
        }
    }
}

/// What checking `files` comes to.
pub open spec fn targets_check(files: Seq<SourceFile>) -> Result<(), Failure> {
    match first_conflict(files) {
        Some(failure) => Err(failure),
        None => Ok(()),
    }
}

/// `clashing` finds nothing exactly where nothing clashes, and what it finds
/// is the first that does.
pub proof fn lemma_clashing(before: Seq<SourceFile>, file: SourceFile)
    ensures
        clashing(before, file) is None <==> forall|i: int|
            0 <= i < before.len() ==> !clash(#[trigger] before[i], file),
        clashing(before, file) matches Some(earlier) ==> exists|i: int|
            0 <= i < before.len() && #[trigger] before[i] == earlier && clash(earlier, file) && (
            forall|k: int| 0 <= k < i ==> !clash(#[trigger] before[k], file)),
    decreases before.len(),
{
    if before.len() == 0 {
    } else if clash(before.first(), file) {
        assert(before[0] == before.first());
    } else {
        let rest = before.drop_first();
        lemma_clashing(rest, file);
        if clashing(rest, file) is None {
            assert forall|i: int| 0 <= i < before.len() implies !clash(
                #[trigger] before[i],
                file,
            ) by {
                if i > 0 {
                    assert(rest[i - 1] == before[i]);
                }
            }
        } else {
            let earlier = clashing(rest, file)->0;
            let i = choose|i: int|
                0 <= i < rest.len() && #[trigger] rest[i] == earlier && clash(earlier, file) && (
                forall|k: int| 0 <= k < i ==> !clash(#[trigger] rest[k], file));
            assert(before[i + 1] == earlier);
            assert forall|k: int| 0 <= k < i + 1 implies !clash(#[trigger] before[k], file) by {
                if k > 0 {
                    assert(rest[k - 1] == before[k]);
                }
            }
        }
    }
}

/// Going through the files meets no error exactly where the files are
/// consistent. The error it meets otherwise is that of the first file that
/// clashes with an earlier one, and names the two.
pub proof fn lemma_first_conflict(files: Seq<SourceFile>)
    ensures
        first_conflict(files) is None <==> consistent(files),
        first_conflict(files) matches Some(failure) ==> exists|i: int, j: int|
            0 <= i < j < files.len() && clash(#[trigger] files[i], #[trigger] files[j])
                && consistent(files.take(j)) && failure == conflict(files[i], files[j]),
    decreases files.len(),
{
    if files.len() == 0 {
    } else {
        let before = files.drop_last();
        let last = files.len() - 1;
        lemma_first_conflict(before);
        lemma_clashing(before, files.last());
        assert forall|k: int| 0 <= k < before.len() implies before[k] == files[k] by {}
        match first_conflict(before) {
            Some(failure) => {
                let (i, j) = choose|i: int, j: int|
                    0 <= i < j < before.len() && clash(#[trigger] before[i], #[trigger] before[j])
                        && consistent(before.take(j)) && failure == conflict(before[i], before[j]);
                assert(before.take(j) =~= files.take(j));
                assert(clash(files[i], files[j]));
            },
            None => {
                assert(files.take(last) =~= before);
                match clashing(before, files.last()) {
                    Some(earlier) => {
                        let i = choose|i: int|
                            0 <= i < before.len() && #[trigger] before[i] == earlier && clash(
                                earlier,
                                files.last(),
                            ) && (forall|k: int|
                                0 <= k < i ==> !clash(#[trigger] before[k], files.last()));
                        assert(clash(files[i], files[last]));
                    },
                    None => {
                        assert forall|i: int, j: int| 0 <= i < j < files.len() implies !clash(
                            #[trigger] files[i],
                            #[trigger] files[j],
                        ) by {
                            if j < last {
                                assert(!clash(before[i], before[j]));
                            } else {
                                assert(!clash(before[i], files.last()));
                            }
                        }
                    },
                }
            },
        }
    }
}

/// Looks among `files[..upto]` for the first that `files[upto]` clashes with.
fn find_clash(files: &Vec<SourceFileInformation>, upto: usize) -> (r: Option<usize>)
    requires
        upto < files.len(),
    ensures
        match r {
            Some(i) => i < upto && clashing(
                source_files_of(files@).take(upto as int),
                files[upto as int]@,
            ) == Some(files[i as int]@),
            None => clashing(source_files_of(files@).take(upto as int), files[upto as int]@)
                is None,
        },
{
    let ghost before = source_files_of(files@).take(upto as int);
    let ghost file = files[upto as int]@;
    let later = &files[upto];
    let mut i: usize = 0;
    assert(before.skip(0) =~= before);
    while i < upto
        invariant
            i <= upto < files.len(),
            before == source_files_of(files@).take(upto as int),
            file == files[upto as int]@,
            later == files[upto as int],
            clashing(before, file) == clashing(before.skip(i as int), file),
        decreases upto - i,
    {
        let earlier = &files[i];
        assert(before.skip(i as int).first() == earlier@);
        assert(before.skip(i as int).drop_first() =~= before.skip(i + 1));
        let clashes = if later.bin {
            earlier.bin && earlier.target_name == later.target_name
        } else {
            !earlier.bin
        };
        if clashes {
            return Some(i);
        }
        i += 1;
    }
    assert(before.skip(upto as int).len() == 0);
    None
}

/// Checks that no two of `files` clash; reports the first clash otherwise.
pub fn check_targets(files: &Vec<SourceFileInformation>) -> (r: Result<(), NewError>)
    ensures
        outcome_of(r) == targets_check(source_files_of(files@)),
        r is Ok <==> consistent(source_files_of(files@)),
{
    let ghost all = source_files_of(files@);
    let mut j: usize = 0;
    while j < files.len()
        invariant
            j <= files.len(),
            all == source_files_of(files@),
            first_conflict(all.take(j as int)) is None,
        decreases files.len() - j,
    {
        assert(all.take(j + 1).drop_last() =~= all.take(j as int));
        assert(all.take(j + 1).last() == files[j as int]@);
        match find_clash(files, j) {
            Some(i) => {
                let first = files[i].relative_path.clone();
                let second = files[j].relative_path.clone();
                proof {
                    lemma_conflict_in_prefix(all, j + 1);
                    lemma_first_conflict(all);
                }
                if files[j].bin {
                    return Err(NewError::AmbiguousBinaryTargets { first, second });
                } else {
                    return Err(NewError::DuplicateLibraryFiles { first, second });
                }
            },
            None => {},
        }
        j += 1;
    }
    proof {
        assert(all.take(files.len() as int) =~= all);
        lemma_first_conflict(all);
    }
    Ok(())
}

/// The first error met in the first `upto` files is the first met in all.
pub proof fn lemma_conflict_in_prefix(files: Seq<SourceFile>, upto: int)
    requires
        0 <= upto <= files.len(),
        first_conflict(files.take(upto)) is Some,
    ensures
        first_conflict(files) == first_conflict(files.take(upto)),
    decreases files.len() - upto,
{
    if upto < files.len() {
        assert(files.take(upto + 1).drop_last() =~= files.take(upto));
        lemma_conflict_in_prefix(files, upto + 1);
    } else {
        assert(files.take(upto) =~= files);
    }
}

/// The source file that a project gets where none was found.
pub fn plan_new_source_file(bin: bool, project_name: String) -> (r: SourceFileInformation)
    ensures
        r@ == (SourceFile {
            relative_path: if bin {
                "src/main.rs"@
            } else {
                "src/lib.rs"@
            },
            target_name: project_name@,
            bin,
        }),
{
    if bin {
        SourceFileInformation {
            relative_path: "src/main.rs".to_string(),
            target_name: project_name,
            bin: true,
        }
    } else {
        SourceFileInformation {
            relative_path: "src/lib.rs".to_string(),
            target_name: project_name,
            bin: false,
        }
    }
}

/// Adds to `detected_files` the source files found at the usual places of the
/// project `project_name`, where `probes` tells for each place in turn what
/// was found there, and checks that the files agree.
pub fn detect_source_paths_and_types(
    project_name: &str,
    probes: &Vec<Probe>,
    detected_files: &mut Vec<SourceFileInformation>,
) -> (r: Result<(), NewError>)
    ensures
        source_files_of(final(detected_files)@) == source_files_of(old(detected_files)@) + survey(
            project_name@,
            found_of(probes@),
        ),
        outcome_of(r) == targets_check(source_files_of(final(detected_files)@)),
        r is Ok <==> consistent(source_files_of(final(detected_files)@)),
{
    let tests = source_candidates(project_name);
    let ghost name = project_name@;
    let ghost found = found_of(probes@);
    let ghost start = source_files_of(detected_files@);
    assert(tests@.len() == 6) by {
        assert(tests@.map_values(|c: Candidate| c@).len() == 6);
    }
    let mut i: usize = 0;
    assert(source_files_of(detected_files@) =~= start + surveyed(name, found, 0));
    while i < tests.len()
        invariant
            i <= tests.len() == 6,
            name == project_name@,
            found == found_of(probes@),
            tests@.map_values(|c: Candidate| c@) == candidates(name),
            source_files_of(detected_files@) == start + surveyed(name, found, i as int),
        decreases tests.len() - i,
    {
        let ghost before = source_files_of(detected_files@);
        assert(tests@.map_values(|c: Candidate| c@)[i as int] == tests[i as int]@);
        assert(tests[i as int]@ == candidates(name)[i as int]);
        if i < probes.len() {
            assert(found_at(found, i as int) == probes[i as int]@);
            let bin = match probes[i] {
                Probe::Absent => None,
                Probe::File => Some(
                    match tests[i].handling {
                        Handling::Bin => true,
                        _ => false,
                    },
                ),
                Probe::Text(ref content) => Some(
                    match tests[i].handling {
                        Handling::Bin => true,
                        Handling::Lib => false,
                        Handling::Detect => contains(content.as_str(), "fn main"),
                    },
                ),
            };
            if let Some(bin) = bin {
                let sfi = SourceFileInformation {
                    relative_path: tests[i].proposed_path.clone(),
                    target_name: project_name.to_string(),
                    bin,
                };
                detected_files.push(sfi);
                assert(source_files_of(detected_files@) =~= before.push(sfi@));
                assert(before.push(sfi@) =~= start + surveyed(name, found, i + 1));
            }
        }
        i += 1;
    }
    check_targets(detected_files)
}

/// Where only the first place holds a file, that file is the project's one
/// program, whatever it holds, and nothing clashes.
pub proof fn lemma_only_main_found(name: Seq<char>, first: Found)
    requires
        !(first is Absent),
    ensures
        survey(name, seq![first]) == seq![
            SourceFile { relative_path: "src/main.rs"@, target_name: name, bin: true },
        ],
        targets_check(survey(name, seq![first])) is Ok,
{
    reveal_with_fuel(surveyed, 7);
    let found = survey(name, seq![first]);
    assert(found =~= seq![
        SourceFile { relative_path: "src/main.rs"@, target_name: name, bin: true },
    ]);
    assert(consistent(found));
    lemma_first_conflict(found);
}

/// Where `main.rs` and the file named after the project stand side by side,
/// and the latter defines an entry point, the two are programs of one name:
/// the survey yields both and the check reports them.
pub proof fn lemma_two_programs_clash(name: Seq<char>, main: Found, named: Seq<char>)
    requires
        !(main is Absent),
        occurs_in("fn main"@, named),
    ensures
        survey(name, seq![Found::Absent, main, Found::Absent, Found::Text(named)]) == seq![
            SourceFile { relative_path: "main.rs"@, target_name: name, bin: true },
            SourceFile { relative_path: name + ".rs"@, target_name: name, bin: true },
        ],
        targets_check(survey(name, seq![Found::Absent, main, Found::Absent, Found::Text(named)]))
            == Err::<(), Failure>(
            Failure::AmbiguousBinaryTargets { first: "main.rs"@, second: name + ".rs"@ },
        ),
{
    reveal_with_fuel(surveyed, 7);
    reveal_with_fuel(first_conflict, 3);
    reveal_with_fuel(clashing, 3);
    let found = survey(name, seq![Found::Absent, main, Found::Absent, Found::Text(named)]);
    let both = seq![
        SourceFile { relative_path: "main.rs"@, target_name: name, bin: true },
        SourceFile { relative_path: name + ".rs"@, target_name: name, bin: true },
    ];
    assert(found =~= both);
    assert(both.drop_last() =~= seq![both[0]]);
    assert(both.drop_last().drop_last() =~= Seq::<SourceFile>::empty());
    assert(both.drop_last().drop_first() =~= Seq::<SourceFile>::empty());
}

/// Where both `src/lib.rs` and `lib.rs` are there, the check fails, whatever
/// else is there; and where nothing else is there, it reports the two.
pub proof fn lemma_two_libraries_clash(name: Seq<char>, probes: Seq<Found>)
    requires
        !(found_at(probes, 4) is Absent),
        !(found_at(probes, 5) is Absent),
    ensures
        targets_check(survey(name, probes)) is Err,
        (forall|i: int| 0 <= i < 4 ==> found_at(probes, i) is Absent) ==> targets_check(
            survey(name, probes),
        ) == Err::<(), Failure>(
            Failure::DuplicateLibraryFiles { first: "src/lib.rs"@, second: "lib.rs"@ },
        ),
{
    reveal_with_fuel(surveyed, 7);
    let found = survey(name, probes);
    let four = surveyed(name, probes, 4);
    let one = SourceFile { relative_path: "src/lib.rs"@, target_name: name, bin: false };
    let other = SourceFile { relative_path: "lib.rs"@, target_name: name, bin: false };
    assert(found == four.push(one).push(other));
    let n = four.len() as int;
    assert(found[n] == one && found[n + 1] == other);
    assert(clash(found[n], found[n + 1]));
    lemma_first_conflict(found);
    if forall|i: int| 0 <= i < 4 ==> found_at(probes, i) is Absent {
        assert(found_at(probes, 0) is Absent && found_at(probes, 1) is Absent && found_at(
            probes,
            2,
        ) is Absent && found_at(probes, 3) is Absent);
        assert(four =~= Seq::<SourceFile>::empty());
        reveal_with_fuel(first_conflict, 3);
        reveal_with_fuel(clashing, 3);
        assert(found =~= seq![one, other]);
        assert(found.drop_last() =~= seq![one]);
        assert(found.drop_last().drop_last() =~= Seq::<SourceFile>::empty());
        assert(found.drop_last().drop_first() =~= Seq::<SourceFile>::empty());
    }
}

} // verus!
