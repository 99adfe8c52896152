//! The text of the manifest and of the files that go with it.

use crate::model::{source_files_of, SourceFile, SourceFileInformation};
use crate::text::{quoted, toml_string};
use vstd::prelude::*;

verus! {

/// Where a program's source is unless the manifest says otherwise.
pub open spec fn default_program_path() -> Seq<char> {
    "src/main.rs"@
}

/// Where a library's source is unless the manifest says otherwise.
pub open spec fn default_library_path() -> Seq<char> {
    "src/lib.rs"@
}

/// Whether the manifest of the project `project` need not mention `file`: it
/// is where a target of its kind is by default, and the target is named
/// after the project.
pub open spec fn is_implied(file: SourceFile, project: Seq<char>) -> bool {
    file.target_name == project && file.relative_path == if file.bin {
        default_program_path()
    } else {
        default_library_path()
    }
}

/// The section of the manifest that pins the name and the path of a target.
pub open spec fn pinned_section(file: SourceFile) -> Seq<char> {
    (if file.bin {
        "\n[[bin]]\nname = \""@
    } else {
        "\n[lib]\nname = \""@
    }) + file.target_name + "\"\npath = "@ + quoted(file.relative_path) + "\n"@
}

/// What the manifest of the project `project` says of `file`: nothing where
/// the file is implied, else its section.
pub open spec fn target_section(file: SourceFile, project: Seq<char>) -> Seq<char> {
    if is_implied(file, project) {
        Seq::empty()
    } else {
        pinned_section(file)
    }
}

/// What the manifest says of `files`, file by file in order.
pub open spec fn target_sections(files: Seq<SourceFile>, project: Seq<char>) -> Seq<char>
    decreases files.len(),
{
    if files.len() == 0 {
        Seq::empty()
    } else {
        target_sections(files.drop_last(), project) + target_section(files.last(), project)
    }
}

/// The manifest of the project `name` by `author` with the source files
/// `files`.
pub open spec fn manifest(name: Seq<char>, author: Seq<char>, files: Seq<SourceFile>) -> Seq<
    char,
> {
    "[package]\nname = \""@ + name + "\"\nversion = \"0.1.0\"\nauthors = ["@ + quoted(author)
        + "]\n\n[dependencies]\n"@ + target_sections(files, name)
}

/// The lines that keep build products out of version control.
pub open spec fn ignored() -> Seq<char> {
    "target\nCargo.lock\n"@
}

/// The source that a new target starts with.
pub open spec fn stub(bin: bool) -> Seq<char> {
    if bin {
        "fn main() {\n    println!(\"Hello, world!\");\n}\n"@
    } else {
        "#[test]\nfn it_works() {\n}\n"@
    }
}

/// Whether the manifest of the project `project` need not mention `file`.
pub fn implied(file: &SourceFileInformation, project: &str) -> (r: bool)
    ensures
        r == is_implied(file@, project@),
{
    let at_default = if file.bin {
        *file.relative_path.as_str() == *"src/main.rs"
    } else {
        *file.relative_path.as_str() == *"src/lib.rs"
    };
    at_default && *file.target_name.as_str() == *project
}

/// Adds to `text` what the manifest of the project `project` says of `file`.
pub fn push_target_section(text: &mut String, file: &SourceFileInformation, project: &str)
    ensures
        final(text)@ == old(text)@ + target_section(file@, project@),
{
    if implied(file, project) {
        assert(text@ + Seq::<char>::empty() =~= text@);
    } else {
        let ghost start = text@;
        if file.bin {
            text.append("\n[[bin]]\nname = \"");
        } else {
            text.append("\n[lib]\nname = \"");
        }
        text.append(file.target_name.as_str());
        text.append("\"\npath = ");
        let path = toml_string(file.relative_path.as_str());
        text.append(path.as_str());
        text.append("\n");
        assert(text@ =~= start + pinned_section(file@));
    }
}

/// The text of the manifest.
pub fn render_manifest(name: &str, author: &str, files: &Vec<SourceFileInformation>) -> (r: String)
    ensures
        r@ == manifest(name@, author@, source_files_of(files@)),
{
    let mut text = "[package]\nname = \"".to_string();
    text.append(name);
    text.append("\"\nversion = \"0.1.0\"\nauthors = [");
    let quoted_author = toml_string(author);
    text.append(quoted_author.as_str());
    text.append("]\n\n[dependencies]\n");
    let ghost head = text@;
    let ghost all = source_files_of(files@);
    assert(head + target_sections(all.take(0), name@) =~= head);
    let mut i: usize = 0;
    while i < files.len()
        invariant
            i <= files.len(),
            all == source_files_of(files@),
            text@ == head + target_sections(all.take(i as int), name@),
        decreases files.len() - i,
    {
        assert(all.take(i + 1).drop_last() =~= all.take(i as int));
        assert(all.take(i + 1).last() == files[i as int]@);
        push_target_section(&mut text, &files[i], name);
        assert(text@ =~= head + target_sections(all.take(i + 1), name@));
        i += 1;
    }
    assert(all.take(files.len() as int) =~= all);
    text
}

/// The lines that keep build products out of version control.
pub fn ignore_entries() -> (r: String)
    ensures
        r@ == ignored(),
{
    let mut ignore = "target\n".to_string();
    ignore.append("Cargo.lock\n");
    proof {
        reveal_strlit("target\n");
        reveal_strlit("Cargo.lock\n");
        reveal_strlit("target\nCargo.lock\n");
        assert(ignore@ =~= ignored());
    }
    ignore
}

/// The source that a new target starts with: a program that greets, or a
/// library with one test.
pub fn stub_source(bin: bool) -> (r: String)
    ensures
        r@ == stub(bin),
{
    if bin {
        "fn main() {\n    println!(\"Hello, world!\");\n}\n".to_string()
    } else {
        "#[test]\nfn it_works() {\n}\n".to_string()
    }
}

} // verus!
