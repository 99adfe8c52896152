//! From what was asked and what was found to what has to be done.

use crate::model::{
    source_files_of, Failure, MkOptions, NewError, NewOptions, SourceFile,
    SourceFileInformation, VersionControl,
};
use crate::name::{
    check_name, get_name, name_check, name_is_changed, resolved_name, valid_name, FinalComponent,
};
use crate::survey::{
    check_targets, consistent, detect_source_paths_and_types, found_of, plan_new_source_file,
    survey, targets_check, Probe,
};
use crate::vcs::{detect_vcs, evident_vcs};
use vstd::prelude::*;

verus! {

/// What is settled about a project, as a mathematical value.
pub ghost struct Plan {
    pub version_control: Option<VersionControl>,
    pub path: Seq<char>,
    pub name: Seq<char>,
    pub source_files: Seq<SourceFile>,
}

impl<'a> View for MkOptions<'a> {
    type V = Plan;

    open spec fn view(&self) -> Plan {
        Plan {
            version_control: self.version_control,
            path: self.path@,
            name: self.name@,
            source_files: source_files_of(self.source_files@),
        }
    }
}

/// Whether a plan can be carried out: its name is valid, it has one library
/// at most, and no two of its programs share a name.
pub open spec fn sound(plan: Plan) -> bool {
    valid_name(plan.name) && consistent(plan.source_files)
}

/// What `new` or `init` settled, and whether the name it settled on differs
/// from the directory's.
#[derive(Clone, Debug, PartialEq, Eq)]
pub struct Prepared<'a> {
    pub options: MkOptions<'a>,
    /// Whether an affix was taken off the directory's name.
    pub renamed: bool,
}

/// The source file that a project starts from where none was found.
pub open spec fn default_source(bin: bool, name: Seq<char>) -> SourceFile {
    SourceFile {
        relative_path: if bin {
            "src/main.rs"@
        } else {
            "src/lib.rs"@
        },
        target_name: name,
        bin,
    }
}

/// Puts a plan together, after checking that its source files agree.
pub fn assemble<'a>(
    version_control: Option<VersionControl>,
    path: &'a str,
    name: &'a str,
    source_files: Vec<SourceFileInformation>,
) -> (r: Result<MkOptions<'a>, NewError>)
    ensures
        r is Ok <==> consistent(source_files_of(source_files@)),
        r matches Ok(options) ==> options@ == (Plan {
            version_control,
            path: path@,
            name: name@,
            source_files: source_files_of(source_files@),
        }),
        r matches Err(e) ==> e@ == Failure::Internal,
{
    match check_targets(&source_files) {
        Ok(()) => Ok(MkOptions { version_control, path, name, source_files }),
        Err(_) => Err(NewError::Internal),
    }
}

/// The plan for a project in a directory of its own that is still to be
/// made.
pub open spec fn planned_new(opts: NewOptions, destination_exists: bool, last: FinalComponent) -> Result<
    Plan,
    Failure,
> {
    if destination_exists {
        Err(Failure::DestinationExists)
    } else {
        match resolved_name(last, opts) {
            Err(e) => Err(e),
            Ok(name) => match name_check(name) {
                Err(e) => Err(e),
                Ok(()) => Ok(
                    Plan {
                        version_control: opts.version_control,
                        path: opts.path@,
                        name,
                        source_files: seq![default_source(opts.bin, name)],
                    },
                ),
            },
        }
    }
}

/// The mathematical value of a plan or an error.
pub open spec fn plan_or_failure(r: Result<Prepared, NewError>) -> Result<Plan, Failure> {
    match r {
        Ok(prepared) => Ok(prepared.options@),
        Err(e) => Err(e@),
    }
}

/// Plans a project in a directory of its own. `destination_exists` tells
/// whether anything is at `opts.path` already, and `last` is the last
/// component of that path.
pub fn new<'a>(opts: NewOptions<'a>, destination_exists: bool, last: &FinalComponent<'a>) -> (r:
    Result<Prepared<'a>, NewError>)
    ensures
        plan_or_failure(r) == planned_new(opts, destination_exists, *last),
        r matches Ok(prepared) ==> sound(prepared.options@) && prepared.renamed == name_is_changed(
            *last,
            opts,
        ),
{
    if destination_exists {
        return Err(NewError::DestinationExists);
    }
    let resolved = match get_name(last, &opts) {
        Ok(resolved) => resolved,
        Err(e) => {
            return Err(e);
        },
    };
    let name = resolved.name;
    match check_name(name) {
        Ok(()) => {},
        Err(e) => {
            return Err(e);
        },
    }
    let source_files = vec![plan_new_source_file(opts.bin, name.to_string())];
    proof {
        let files = source_files_of(source_files@);
        assert(files =~= seq![default_source(opts.bin, name@)]);
        assert(consistent(files));
    }
    match assemble(opts.version_control, opts.path, name, source_files) {
        Ok(options) => Ok(Prepared { options, renamed: resolved.renamed }),
        Err(e) => Err(e),
    }
}

/// The plan for a project in a directory that is there, where `probes` tell
/// what was found at the usual places of source files.
pub open spec fn planned_init(
    opts: NewOptions,
    manifest_exists: bool,
    last: FinalComponent,
    probes: Seq<Probe>,
    git_dir: bool,
    hg_dir: bool,
) -> Result<Plan, Failure> {
    if manifest_exists {
        Err(Failure::DestinationExists)
    } else {
        match resolved_name(last, opts) {
            Err(e) => Err(e),
            Ok(name) => match name_check(name) {
                Err(e) => Err(e),
                Ok(()) => {
                    let found = survey(name, found_of(probes));
                    match targets_check(found) {
                        Err(e) => Err(e),
                        Ok(()) => match evident_vcs(opts.version_control, git_dir, hg_dir) {
                            Err(e) => Err(e),
                            Ok(version_control) => Ok(
                                Plan {
                                    version_control,
                                    path: opts.path@,
                                    name,
                                    source_files: if found.len() == 0 {
                                        seq![default_source(opts.bin, name)]
                                    } else {
                                        found
                                    },
                                },
                            ),
                        },
                    }
                },
            },
        }
    }
}

/// Plans a project in a directory that is there. `manifest_exists` tells
/// whether the directory holds a manifest already, `last` is the last
/// component of the directory's path, `probes` tell for each of the usual
/// places of source files what was found there, and `git_dir` and `hg_dir`
/// whether the directory holds those of git and of mercurial.
pub fn init<'a>(
    opts: NewOptions<'a>,
    manifest_exists: bool,
    last: &FinalComponent<'a>,
    probes: &Vec<Probe>,
    git_dir: bool,
    hg_dir: bool,
) -> (r: Result<Prepared<'a>, NewError>)
    ensures
        plan_or_failure(r) == planned_init(opts, manifest_exists, *last, probes@, git_dir, hg_dir),
        r matches Ok(prepared) ==> sound(prepared.options@) && prepared.renamed == name_is_changed(
            *last,
            opts,
        ),
{
    if manifest_exists {
        return Err(NewError::DestinationExists);
    }
    let resolved = match get_name(last, &opts) {
        Ok(resolved) => resolved,
        Err(e) => {
            return Err(e);
        },
    };
    let name = resolved.name;
    match check_name(name) {
        Ok(()) => {},
        Err(e) => {
            return Err(e);
        },
    }
    let mut src_paths_types: Vec<SourceFileInformation> = Vec::new();
    let detected = detect_source_paths_and_types(name, probes, &mut src_paths_types);
    assert(source_files_of(src_paths_types@) =~= survey(name@, found_of(probes@)));
    match detected {
        Ok(()) => {},
        Err(e) => {
            return Err(e);
        },
    }
    if src_paths_types.len() == 0 {
        src_paths_types.push(plan_new_source_file(opts.bin, name.to_string()));
        proof {
            let files = source_files_of(src_paths_types@);
            assert(files =~= seq![default_source(opts.bin, name@)]);
            assert(consistent(files));
        }
    }
    let version_control = match detect_vcs(opts.version_control, git_dir, hg_dir) {
        Ok(version_control) => version_control,
        Err(e) => {
            return Err(e);
        },
    };
    match assemble(version_control, opts.path, name, src_paths_types) {
        Ok(options) => Ok(Prepared { options, renamed: resolved.renamed }),
        Err(e) => Err(e),
    }
}

} // verus!
