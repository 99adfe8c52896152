use scaffold::model::{NewError, SourceFileInformation};
use scaffold::survey::{
    check_targets, detect_source_paths_and_types, plan_new_source_file, source_candidates,
    Candidate, Handling, Probe,
};

fn file(path: &str, name: &str, bin: bool) -> SourceFileInformation {
    SourceFileInformation {
        relative_path: path.to_string(),
        target_name: name.to_string(),
        bin,
    }
}

fn text(content: &str) -> Probe {
    Probe::Text(content.to_string())
}

fn detect(name: &str, probes: Vec<Probe>) -> (Vec<SourceFileInformation>, Result<(), NewError>) {
    let mut found = Vec::new();
    let r = detect_source_paths_and_types(name, &probes, &mut found);
    (found, r)
}

const PROGRAM: &str = "\n        fn main() {\n            println!(\"Hello, world 2!\");\n        }\n    ";

const LIBRARY: &str = "\n        pub fn qqq() {}\n    ";

#[test]
fn places_are_looked_at_in_a_fixed_order() {
    let places = source_candidates("foo");
    let expected = vec![
        Candidate { proposed_path: "src/main.rs".to_string(), handling: Handling::Bin },
        Candidate { proposed_path: "main.rs".to_string(), handling: Handling::Bin },
        Candidate { proposed_path: "src/foo.rs".to_string(), handling: Handling::Detect },
        Candidate { proposed_path: "foo.rs".to_string(), handling: Handling::Detect },
        Candidate { proposed_path: "src/lib.rs".to_string(), handling: Handling::Lib },
        Candidate { proposed_path: "lib.rs".to_string(), handling: Handling::Lib },
    ];
    assert_eq!(places, expected);
}

#[test]
fn places_follow_the_project_name() {
    let places = source_candidates("my-tool");
    assert_eq!(places.len(), 6);
    assert_eq!(places[2].proposed_path, "src/my-tool.rs");
    assert_eq!(places[3].proposed_path, "my-tool.rs");
}

#[test]
fn planned_program_is_src_main() {
    assert_eq!(plan_new_source_file(true, "foo".to_string()), file("src/main.rs", "foo", true));
}

#[test]
fn planned_library_is_src_lib() {
    assert_eq!(plan_new_source_file(false, "foo".to_string()), file("src/lib.rs", "foo", false));
}

#[test]
fn nothing_found_is_nothing_detected() {
    let (found, r) = detect("foo", vec![]);
    assert_eq!(r, Ok(()));
    assert!(found.is_empty());
    let (found, r) = detect("foo", vec![Probe::Absent; 6]);
    assert_eq!(r, Ok(()));
    assert!(found.is_empty());
}

#[test]
fn only_src_main_is_one_program() {
    let (found, r) = detect("foo", vec![text(PROGRAM)]);
    assert_eq!(r, Ok(()));
    assert_eq!(found, vec![file("src/main.rs", "foo", true)]);
}

#[test]
fn src_main_is_a_program_whatever_it_holds() {
    let (found, r) = detect("foo", vec![text(LIBRARY)]);
    assert_eq!(r, Ok(()));
    assert_eq!(found, vec![file("src/main.rs", "foo", true)]);
    let (found, r) = detect("foo", vec![Probe::File]);
    assert_eq!(r, Ok(()));
    assert_eq!(found, vec![file("src/main.rs", "foo", true)]);
}

#[test]
fn main_at_the_root_is_a_program() {
    let (found, r) = detect("foo", vec![Probe::Absent, Probe::File]);
    assert_eq!(r, Ok(()));
    assert_eq!(found, vec![file("main.rs", "foo", true)]);
}

#[test]
fn named_file_with_an_entry_point_is_a_program() {
    let (found, r) = detect("foo", vec![Probe::Absent, Probe::Absent, text(PROGRAM)]);
    assert_eq!(r, Ok(()));
    assert_eq!(found, vec![file("src/foo.rs", "foo", true)]);
    let (found, r) =
        detect("foo", vec![Probe::Absent, Probe::Absent, Probe::Absent, text(PROGRAM)]);
    assert_eq!(r, Ok(()));
    assert_eq!(found, vec![file("foo.rs", "foo", true)]);
}

#[test]
fn named_file_without_an_entry_point_is_a_library() {
    let (found, r) = detect("foo", vec![Probe::Absent, Probe::Absent, text(LIBRARY)]);
    assert_eq!(r, Ok(()));
    assert_eq!(found, vec![file("src/foo.rs", "foo", false)]);
    let (found, r) = detect("foo", vec![Probe::Absent, Probe::Absent, Probe::Absent, text("")]);
    assert_eq!(r, Ok(()));
    assert_eq!(found, vec![file("foo.rs", "foo", false)]);
}

#[test]
fn entry_point_is_looked_for_anywhere_in_the_text() {
    for content in ["fn main", "xfn mainx", "pub fn main() {}", "// fn main", "\u{e9}fn main"] {
        let (found, _) = detect("foo", vec![Probe::Absent, Probe::Absent, text(content)]);
        assert_eq!(found, vec![file("src/foo.rs", "foo", true)]);
    }
    for content in ["fn  main", "fn\nmain", "fn mai", "Fn main", "n main", "fnmain"] {
        let (found, _) = detect("foo", vec![Probe::Absent, Probe::Absent, text(content)]);
        assert_eq!(found, vec![file("src/foo.rs", "foo", false)]);
    }
}

#[test]
fn named_file_that_was_not_read_is_a_library() {
    let (found, r) = detect("foo", vec![Probe::Absent, Probe::Absent, Probe::File]);
    assert_eq!(r, Ok(()));
    assert_eq!(found, vec![file("src/foo.rs", "foo", false)]);
}

#[test]
fn library_files_are_libraries_whatever_they_hold() {
    let probes = vec![Probe::Absent, Probe::Absent, Probe::Absent, Probe::Absent, text(PROGRAM)];
    let (found, r) = detect("foo", probes);
    assert_eq!(r, Ok(()));
    assert_eq!(found, vec![file("src/lib.rs", "foo", false)]);
    let probes = vec![
        Probe::Absent,
        Probe::Absent,
        Probe::Absent,
        Probe::Absent,
        Probe::Absent,
        Probe::File,
    ];
    let (found, r) = detect("foo", probes);
    assert_eq!(r, Ok(()));
    assert_eq!(found, vec![file("lib.rs", "foo", false)]);
}

#[test]
fn a_program_and_a_library_agree() {
    let probes = vec![
        text(PROGRAM),
        Probe::Absent,
        Probe::Absent,
        Probe::Absent,
        text(LIBRARY),
    ];
    let (found, r) = detect("foo", probes);
    assert_eq!(r, Ok(()));
    assert_eq!(found, vec![file("src/main.rs", "foo", true), file("src/lib.rs", "foo", false)]);
}

#[test]
fn found_files_come_in_the_order_of_the_places() {
    let probes = vec![
        Probe::File,
        Probe::File,
        text(PROGRAM),
        text(LIBRARY),
        Probe::File,
        Probe::File,
    ];
    let (found, r) = detect("foo", probes);
    assert!(r.is_err());
    assert_eq!(
        found,
        vec![
            file("src/main.rs", "foo", true),
            file("main.rs", "foo", true),
            file("src/foo.rs", "foo", true),
            file("foo.rs", "foo", false),
            file("src/lib.rs", "foo", false),
            file("lib.rs", "foo", false),
        ]
    );
}

#[test]
fn probes_past_the_last_place_are_ignored() {
    let mut probes = vec![Probe::Absent; 6];
    probes.push(Probe::File);
    probes.push(text(PROGRAM));
    let (found, r) = detect("foo", probes);
    assert_eq!(r, Ok(()));
    assert!(found.is_empty());
}

#[test]
fn multibin_project_name_clash() {
    let probes = vec![Probe::Absent, text(PROGRAM), Probe::Absent, text(PROGRAM)];
    let (found, r) = detect("foo", probes);
    assert_eq!(found, vec![file("main.rs", "foo", true), file("foo.rs", "foo", true)]);
    assert_eq!(
        r,
        Err(NewError::AmbiguousBinaryTargets {
            first: "main.rs".to_string(),
            second: "foo.rs".to_string(),
        })
    );
}

#[test]
fn two_mains_are_ambiguous() {
    let (_, r) = detect("foo", vec![Probe::File, Probe::File]);
    assert_eq!(
        r,
        Err(NewError::AmbiguousBinaryTargets {
            first: "src/main.rs".to_string(),
            second: "main.rs".to_string(),
        })
    );
}

#[test]
fn confused_by_multiple_lib_files() {
    let probes = vec![
        Probe::Absent,
        Probe::Absent,
        Probe::Absent,
        Probe::Absent,
        text("\n        fn qqq () {\n            println!(\"Hello, world 2!\");\n        }\n    "),
        text("\n        fn qqq () {\n            println!(\"Hello, world 3!\");\n        }\n    "),
    ];
    let (_, r) = detect("foo", probes);
    assert_eq!(
        r,
        Err(NewError::DuplicateLibraryFiles {
            first: "src/lib.rs".to_string(),
            second: "lib.rs".to_string(),
        })
    );
}

#[test]
fn named_library_and_lib_are_two_libraries() {
    let probes = vec![Probe::Absent, Probe::Absent, text(LIBRARY), Probe::Absent, Probe::File];
    let (_, r) = detect("foo", probes);
    assert_eq!(
        r,
        Err(NewError::DuplicateLibraryFiles {
            first: "src/foo.rs".to_string(),
            second: "src/lib.rs".to_string(),
        })
    );
}

#[test]
fn the_first_clash_in_order_is_the_one_reported() {
    let probes = vec![
        Probe::File,
        Probe::File,
        Probe::Absent,
        Probe::Absent,
        Probe::File,
        Probe::File,
    ];
    let (_, r) = detect("foo", probes);
    assert_eq!(
        r,
        Err(NewError::AmbiguousBinaryTargets {
            first: "src/main.rs".to_string(),
            second: "main.rs".to_string(),
        })
    );
}

#[test]
fn files_already_listed_are_kept_and_checked() {
    let mut found = vec![file("other/lib.rs", "foo", false)];
    let probes = vec![Probe::File, Probe::Absent, Probe::Absent, Probe::Absent, Probe::File];
    let r = detect_source_paths_and_types("foo", &probes, &mut found);
    assert_eq!(
        found,
        vec![
            file("other/lib.rs", "foo", false),
            file("src/main.rs", "foo", true),
            file("src/lib.rs", "foo", false),
        ]
    );
    assert_eq!(
        r,
        Err(NewError::DuplicateLibraryFiles {
            first: "other/lib.rs".to_string(),
            second: "src/lib.rs".to_string(),
        })
    );
}

#[test]
fn programs_of_different_names_agree() {
    let files = vec![
        file("a.rs", "a", true),
        file("b.rs", "b", true),
        file("lib.rs", "a", false),
    ];
    assert_eq!(check_targets(&files), Ok(()));
    assert_eq!(check_targets(&Vec::new()), Ok(()));
}

#[test]
fn programs_of_one_name_clash_with_the_first_of_them() {
    let files = vec![
        file("a.rs", "a", true),
        file("b.rs", "b", true),
        file("lib.rs", "b", false),
        file("c.rs", "b", true),
    ];
    assert_eq!(
        check_targets(&files),
        Err(NewError::AmbiguousBinaryTargets {
            first: "b.rs".to_string(),
            second: "c.rs".to_string(),
        })
    );
}
