use scaffold::model::{NameFailure, NewError, NewOptions, VersionControl};
use scaffold::name::{
    allowed_in_name, check_name, get_name, strip_rust_affixes, FinalComponent, ResolvedName,
};
use scaffold::text::trim_ends;

fn options<'a>(bin: bool, name: Option<&'a str>) -> NewOptions<'a> {
    NewOptions { version_control: None, bin, path: "somewhere", name }
}

#[test]
fn affixes_stripped() {
    assert_eq!(strip_rust_affixes("rust-foo"), "foo");
    assert_eq!(strip_rust_affixes("foo-rs"), "foo");
    assert_eq!(strip_rust_affixes("rs_foo"), "foo");
    // Only one affix is stripped
    assert_eq!(strip_rust_affixes("rs-foo-rs"), "foo-rs");
    assert_eq!(strip_rust_affixes("foo-rs-rs"), "foo-rs");
    // It shouldn't touch the middle
    assert_eq!(strip_rust_affixes("some-rust-crate"), "some-rust-crate");
}

#[test]
fn every_affix_is_stripped() {
    assert_eq!(strip_rust_affixes("rust-a"), "a");
    assert_eq!(strip_rust_affixes("rust_a"), "a");
    assert_eq!(strip_rust_affixes("rs-a"), "a");
    assert_eq!(strip_rust_affixes("rs_a"), "a");
    assert_eq!(strip_rust_affixes("a-rust"), "a");
    assert_eq!(strip_rust_affixes("a_rust"), "a");
    assert_eq!(strip_rust_affixes("a-rs"), "a");
    assert_eq!(strip_rust_affixes("a_rs"), "a");
}

#[test]
fn prefix_is_stripped_before_suffix() {
    assert_eq!(strip_rust_affixes("rust-foo-rust"), "foo-rust");
    assert_eq!(strip_rust_affixes("rs_foo_rust"), "foo_rust");
}

#[test]
fn bare_affix_leaves_nothing() {
    assert_eq!(strip_rust_affixes("rust-"), "");
    assert_eq!(strip_rust_affixes("-rs"), "");
    assert_eq!(strip_rust_affixes(""), "");
    assert_eq!(strip_rust_affixes("rs"), "rs");
    assert_eq!(strip_rust_affixes("rust"), "rust");
}

#[test]
fn stripping_counts_characters_not_bytes() {
    assert_eq!(strip_rust_affixes("rs-h\u{e9}llo"), "h\u{e9}llo");
    assert_eq!(strip_rust_affixes("h\u{e9}llo-rs"), "h\u{e9}llo");
    assert_eq!(strip_rust_affixes("\u{e9}\u{e9}_rust"), "\u{e9}\u{e9}");
}

#[test]
fn stripping_twice_changes_nothing_without_a_second_affix() {
    for name in ["rust-foo", "foo-rs", "rs_foo", "plain", "rs-a_b"] {
        let once = strip_rust_affixes(name);
        assert_eq!(strip_rust_affixes(once), once);
    }
}

#[test]
fn stripping_twice_takes_a_second_affix() {
    let once = strip_rust_affixes("rs-foo-rs");
    assert_eq!(once, "foo-rs");
    assert_eq!(strip_rust_affixes(once), "foo");
}

#[test]
fn valid_names_are_accepted() {
    assert_eq!(check_name("foo"), Ok(()));
    assert_eq!(check_name("foo_bar-baz"), Ok(()));
    assert_eq!(check_name("Foo123"), Ok(()));
    assert_eq!(check_name("_"), Ok(()));
    assert_eq!(check_name("-"), Ok(()));
    assert_eq!(check_name("h\u{e9}llo"), Ok(()));
    assert_eq!(check_name("\u{4e16}\u{754c}"), Ok(()));
    assert_eq!(check_name("\u{663}"), Ok(()));
}

#[test]
fn empty_name_has_no_invalid_character() {
    assert_eq!(check_name(""), Ok(()));
}

#[test]
fn invalid_character_is_reported() {
    assert_eq!(
        check_name("foo bar"),
        Err(NewError::InvalidName { character: ' ', name: "foo bar".to_string() })
    );
    assert_eq!(
        check_name("foo.rs"),
        Err(NewError::InvalidName { character: '.', name: "foo.rs".to_string() })
    );
    assert_eq!(
        check_name("/"),
        Err(NewError::InvalidName { character: '/', name: "/".to_string() })
    );
}

#[test]
fn first_invalid_character_is_the_one_reported() {
    assert_eq!(
        check_name("a+b*c"),
        Err(NewError::InvalidName { character: '+', name: "a+b*c".to_string() })
    );
    assert_eq!(
        check_name("*a+"),
        Err(NewError::InvalidName { character: '*', name: "*a+".to_string() })
    );
    assert_eq!(
        check_name("ab\u{2603}!"),
        Err(NewError::InvalidName { character: '\u{2603}', name: "ab\u{2603}!".to_string() })
    );
}

#[test]
fn given_name_is_taken_as_it_is() {
    let opts = options(false, Some("rust-given"));
    assert_eq!(
        get_name(&FinalComponent::Text("dir-rs"), &opts),
        Ok(ResolvedName { name: "rust-given", renamed: false })
    );
    assert_eq!(
        get_name(&FinalComponent::Absent, &opts),
        Ok(ResolvedName { name: "rust-given", renamed: false })
    );
    assert_eq!(
        get_name(&FinalComponent::NotText, &opts),
        Ok(ResolvedName { name: "rust-given", renamed: false })
    );
}

#[test]
fn given_name_is_not_checked_by_get_name() {
    let opts = options(true, Some("not valid"));
    assert_eq!(
        get_name(&FinalComponent::Text("dir"), &opts),
        Ok(ResolvedName { name: "not valid", renamed: false })
    );
}

#[test]
fn library_name_loses_an_affix() {
    let opts = options(false, None);
    assert_eq!(
        get_name(&FinalComponent::Text("rust-foo"), &opts),
        Ok(ResolvedName { name: "foo", renamed: true })
    );
    assert_eq!(
        get_name(&FinalComponent::Text("rs-foo-rs"), &opts),
        Ok(ResolvedName { name: "foo-rs", renamed: true })
    );
    assert_eq!(
        get_name(&FinalComponent::Text("foo"), &opts),
        Ok(ResolvedName { name: "foo", renamed: false })
    );
}

#[test]
fn program_name_keeps_its_affix() {
    let opts = options(true, None);
    assert_eq!(
        get_name(&FinalComponent::Text("rust-foo"), &opts),
        Ok(ResolvedName { name: "rust-foo", renamed: false })
    );
}

#[test]
fn path_without_a_name_is_an_error() {
    for bin in [true, false] {
        let opts = options(bin, None);
        assert_eq!(
            get_name(&FinalComponent::Absent, &opts),
            Err(NewError::NameResolution(NameFailure::NoFinalComponent))
        );
        assert_eq!(
            get_name(&FinalComponent::NotText, &opts),
            Err(NewError::NameResolution(NameFailure::NotText))
        );
    }
}

#[test]
fn options_keep_what_they_are_given() {
    let opts = NewOptions {
        version_control: Some(VersionControl::Hg),
        bin: true,
        path: "p",
        name: Some("n"),
    };
    assert_eq!(opts.version_control, Some(VersionControl::Hg));
    assert!(opts.bin);
    assert_eq!(opts.path, "p");
    assert_eq!(opts.name, Some("n"));
}

#[test]
fn trimming_takes_white_space_from_both_ends() {
    assert_eq!(trim_ends("  foo bar \t\n"), "foo bar");
    assert_eq!(trim_ends("foo"), "foo");
    assert_eq!(trim_ends(" \u{a0}\u{3000}x\u{2003}"), "x");
    assert_eq!(trim_ends(" \t "), "");
    assert_eq!(trim_ends(""), "");
}

#[test]
fn letters_numbers_underscore_and_hyphen_are_allowed() {
    assert!(allowed_in_name('a', true));
    assert!(allowed_in_name('7', true));
    assert!(allowed_in_name('_', false));
    assert!(allowed_in_name('-', false));
    assert!(!allowed_in_name(' ', false));
    assert!(!allowed_in_name('.', false));
    assert!(!allowed_in_name('\u{2014}', false));
}
