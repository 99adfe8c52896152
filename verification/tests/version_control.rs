use scaffold::model::{NewError, VersionControl};
use scaffold::vcs::{choose_vcs, detect_vcs};

#[test]
fn names_of_version_controls_are_decoded() {
    assert_eq!(VersionControl::decode("git"), Ok(VersionControl::Git));
    assert_eq!(VersionControl::decode("hg"), Ok(VersionControl::Hg));
    assert_eq!(VersionControl::decode("none"), Ok(VersionControl::NoVcs));
}

#[test]
fn other_names_are_not_decoded() {
    for name in ["", "Git", "svn", "git ", "mercurial", "None"] {
        assert_eq!(
            VersionControl::decode(name),
            Err(NewError::UnknownVcs { name: name.to_string() })
        );
    }
}

#[test]
fn git_and_hg_side_by_side_are_ambiguous() {
    assert_eq!(detect_vcs(None, true, true), Err(NewError::AmbiguousVcs));
}

#[test]
fn the_directory_that_is_there_decides() {
    assert_eq!(detect_vcs(None, true, false), Ok(Some(VersionControl::Git)));
    assert_eq!(detect_vcs(None, false, true), Ok(Some(VersionControl::Hg)));
    assert_eq!(detect_vcs(None, false, false), Ok(None));
}

#[test]
fn what_was_asked_for_wins_over_what_is_there() {
    for asked in [VersionControl::Git, VersionControl::Hg, VersionControl::NoVcs] {
        for git_dir in [false, true] {
            for hg_dir in [false, true] {
                assert_eq!(detect_vcs(Some(asked), git_dir, hg_dir), Ok(Some(asked)));
            }
        }
    }
}

#[test]
fn what_was_chosen_wins_over_everything() {
    for chosen in [VersionControl::Git, VersionControl::Hg, VersionControl::NoVcs] {
        for preferred in [None, Some(VersionControl::Git), Some(VersionControl::Hg)] {
            for inside in [false, true] {
                assert_eq!(choose_vcs(Some(chosen), preferred, inside), chosen);
            }
        }
    }
}

#[test]
fn the_preference_comes_next() {
    for inside in [false, true] {
        assert_eq!(choose_vcs(None, Some(VersionControl::Hg), inside), VersionControl::Hg);
        assert_eq!(choose_vcs(None, Some(VersionControl::NoVcs), inside), VersionControl::NoVcs);
        assert_eq!(choose_vcs(None, Some(VersionControl::Git), inside), VersionControl::Git);
    }
}

#[test]
fn git_is_the_default_outside_a_repository() {
    assert_eq!(choose_vcs(None, None, false), VersionControl::Git);
}

#[test]
fn no_repository_is_nested_by_default() {
    assert_eq!(choose_vcs(None, None, true), VersionControl::NoVcs);
}
