//! The project's name: taken as given or from the directory, and checked.

use crate::model::{Failure, NameFailure, NewError, NewOptions};
use crate::text::{alphanumeric, ends_with, starts_with};
use vstd::prelude::*;

verus! {

/// `name` without `prefix` in front, where it begins with it.
pub open spec fn without_prefix(name: Seq<char>, prefix: Seq<char>) -> Option<Seq<char>> {
    if prefix.is_prefix_of(name) {
        Some(name.skip(prefix.len() as int))
    } else {
        None
    }
}

/// `name` without `suffix` at its end, where it ends with it.
pub open spec fn without_suffix(name: Seq<char>, suffix: Seq<char>) -> Option<Seq<char>> {
    if suffix.is_suffix_of(name) {
        Some(name.take(name.len() - suffix.len()))
    } else {
        None
    }
}

/// The prefixes that mark a directory as holding Rust code, in the order in
/// which they are tried.
pub open spec fn rust_prefixes() -> Seq<Seq<char>> {
    seq!["rust-"@, "rust_"@, "rs-"@, "rs_"@]
}

/// The suffixes that mark a directory as holding Rust code, in the order in
/// which they are tried.
pub open spec fn rust_suffixes() -> Seq<Seq<char>> {
    seq!["-rust"@, "_rust"@, "-rs"@, "_rs"@]
}

/// What the first of `prefixes[from..]` that `name` begins with leaves of it.
pub open spec fn first_without_prefix(name: Seq<char>, prefixes: Seq<Seq<char>>, from: int) -> Option<
    Seq<char>,
>
    decreases prefixes.len() - from,
{
    if from < 0 || from >= prefixes.len() {
        None
    } else if prefixes[from].is_prefix_of(name) {
        without_prefix(name, prefixes[from])
    } else {
        first_without_prefix(name, prefixes, from + 1)
    }
}

/// What the first of `suffixes[from..]` that `name` ends with leaves of it.
pub open spec fn first_without_suffix(name: Seq<char>, suffixes: Seq<Seq<char>>, from: int) -> Option<
    Seq<char>,
>
    decreases suffixes.len() - from,
{
    if from < 0 || from >= suffixes.len() {
        None
    } else if suffixes[from].is_suffix_of(name) {
        without_suffix(name, suffixes[from])
    } else {
        first_without_suffix(name, suffixes, from + 1)
    }
}

/// `name` with one Rust affix taken away: the first prefix that matches, or
/// where none does the first suffix that matches, or nothing.
pub open spec fn stripped(name: Seq<char>) -> Seq<char> {
    match first_without_prefix(name, rust_prefixes(), 0) {
        Some(rest) => rest,
        None => match first_without_suffix(name, rust_suffixes(), 0) {
            Some(rest) => rest,
            None => name,
        },
    }
}

/// Takes one Rust affix off a directory's name.
pub fn strip_rust_affixes(name: &str) -> (r: &str)
    ensures
        r@ == stripped(name@),
{
    let len = name.unicode_len();
    let prefixes = ["rust-", "rust_", "rs-", "rs_"];
    let suffixes = ["-rust", "_rust", "-rs", "_rs"];
    assert(prefixes@.map_values(|p: &str| p@) =~= rust_prefixes());
    assert(suffixes@.map_values(|p: &str| p@) =~= rust_suffixes());
    for i in 0..4
        invariant
            len == name@.len(),
            prefixes@.map_values(|p: &str| p@) == rust_prefixes(),
            first_without_prefix(name@, rust_prefixes(), 0) == first_without_prefix(
                name@,
                rust_prefixes(),
                i as int,
            ),
    {
        let prefix = prefixes[i];
        assert(prefix@ == rust_prefixes()[i as int]);
        if starts_with(name, prefix) {
            let r = name.substring_char(prefix.unicode_len(), len);
            assert(r@ =~= name@.skip(prefix@.len() as int));
            return r;
        }
    }
    for i in 0..4
        invariant
            len == name@.len(),
            suffixes@.map_values(|p: &str| p@) == rust_suffixes(),
            first_without_prefix(name@, rust_prefixes(), 0) is None,
            first_without_suffix(name@, rust_suffixes(), 0) == first_without_suffix(
                name@,
                rust_suffixes(),
                i as int,
            ),
    {
        let suffix = suffixes[i];
        assert(suffix@ == rust_suffixes()[i as int]);
        if ends_with(name, suffix) {
            let r = name.substring_char(0, len - suffix.unicode_len());
            assert(r@ =~= name@.take(name@.len() - suffix@.len()));
            return r;
        }
    }
    name
}

/// Whether `name` begins or ends with one of the Rust affixes.
pub open spec fn has_rust_affix(name: Seq<char>) -> bool {
    ||| exists|i: int| 0 <= i < 4 && (#[trigger] rust_prefixes()[i]).is_prefix_of(name)
    ||| exists|i: int| 0 <= i < 4 && (#[trigger] rust_suffixes()[i]).is_suffix_of(name)
}

/// Stripping takes away one affix at most: what is left is the name itself,
/// or the name without one of the prefixes in front, or the name without one
/// of the suffixes at its end. It leaves a name as it is exactly when the
/// name has no affix.
pub proof fn lemma_one_affix_is_stripped(name: Seq<char>)
    ensures
        ({
            ||| stripped(name) == name
            ||| exists|i: int| 0 <= i < 4 && name == #[trigger] rust_prefixes()[i] + stripped(name)
            ||| exists|i: int| 0 <= i < 4 && name == stripped(name) + #[trigger] rust_suffixes()[i]
        }),
        stripped(name) == name <==> !has_rust_affix(name),
{
    reveal_with_fuel(first_without_prefix, 5);
    reveal_with_fuel(first_without_suffix, 5);
    reveal_strlit("rust-");
    reveal_strlit("rust_");
    reveal_strlit("rs-");
    reveal_strlit("rs_");
    reveal_strlit("-rust");
    reveal_strlit("_rust");
    reveal_strlit("-rs");
    reveal_strlit("_rs");
    let ps = rust_prefixes();
    let ss = rust_suffixes();
    if exists|i: int| 0 <= i < 4 && (#[trigger] ps[i]).is_prefix_of(name) {
        let i = if ps[0].is_prefix_of(name) {
            0
        } else if ps[1].is_prefix_of(name) {
            1
        } else if ps[2].is_prefix_of(name) {
            2
        } else {
            3int
        };
        assert(stripped(name) == name.skip(ps[i].len() as int));
        assert(name =~= ps[i] + stripped(name));
        assert(stripped(name).len() < name.len());
    } else if exists|i: int| 0 <= i < 4 && (#[trigger] ss[i]).is_suffix_of(name) {
        assert(!ps[0].is_prefix_of(name) && !ps[1].is_prefix_of(name) && !ps[2].is_prefix_of(name)
            && !ps[3].is_prefix_of(name));
        let i = if ss[0].is_suffix_of(name) {
            0
        } else if ss[1].is_suffix_of(name) {
            1
        } else if ss[2].is_suffix_of(name) {
            2
        } else {
            3int
        };
        assert(stripped(name) == name.take(name.len() - ss[i].len()));
        assert(name =~= stripped(name) + ss[i]);
        assert(stripped(name).len() < name.len());
    } else {
        assert(!ps[0].is_prefix_of(name) && !ps[1].is_prefix_of(name) && !ps[2].is_prefix_of(name)
            && !ps[3].is_prefix_of(name));
        assert(!ss[0].is_suffix_of(name) && !ss[1].is_suffix_of(name) && !ss[2].is_suffix_of(name)
            && !ss[3].is_suffix_of(name));
        assert(stripped(name) == name);
    }
}

/// Where what stripping leaves has no affix of its own, stripping it again
/// changes nothing.
pub proof fn lemma_stripping_twice(name: Seq<char>)
    requires
        !has_rust_affix(stripped(name)),
    ensures
        stripped(stripped(name)) == stripped(name),
{
    lemma_one_affix_is_stripped(stripped(name));
}

/// Whether a name may hold `c`, where `letter_or_number` tells whether `c` is
/// a letter or a number.
pub open spec fn allowed(c: char, letter_or_number: bool) -> bool {
    letter_or_number || c == '_' || c == '-'
}

/// Whether a name may hold `c`.
pub open spec fn name_char(c: char) -> bool {
    allowed(c, alphanumeric(c))
}

/// Whether a name may hold `c`, where `letter_or_number` tells whether `c` is
/// a letter or a number.
pub fn allowed_in_name(c: char, letter_or_number: bool) -> (r: bool)
    ensures
        r == allowed(c, letter_or_number),
{
    letter_or_number || c == '_' || c == '-'
}

/// Whether `name` holds no character that a name may not hold.
pub open spec fn valid_name(name: Seq<char>) -> bool {
    forall|i: int| 0 <= i < name.len() ==> name_char(#[trigger] name[i])
}

/// The first character of `name` that a name may not hold.
pub open spec fn first_invalid(name: Seq<char>) -> Option<char>
    decreases name.len(),
{
    if name.len() == 0 {
        None
    } else if !name_char(name.first()) {
        Some(name.first())
    } else {
        first_invalid(name.drop_first())
    }
}

/// What checking `name` comes to.
pub open spec fn name_check(name: Seq<char>) -> Result<(), Failure> {
    match first_invalid(name) {
        None => Ok(()),
        Some(character) => Err(Failure::InvalidName { character, name }),
    }
}

/// What `first_invalid` finds is the character at the first position whose
/// character a name may not hold; it finds none exactly in a valid name.
pub proof fn lemma_first_invalid(name: Seq<char>)
    ensures
        first_invalid(name) is None <==> valid_name(name),
        first_invalid(name) matches Some(c) ==> exists|at: int|
            0 <= at < name.len() && #[trigger] name[at] == c && !name_char(c) && valid_name(
                name.take(at),
            ),
    decreases name.len(),
{
    if name.len() == 0 {
    } else if !name_char(name.first()) {
        assert(name[0] == name.first());
        assert(name.take(0).len() == 0);
    } else {
        let rest = name.drop_first();
        lemma_first_invalid(rest);
        if first_invalid(rest) is None {
            assert forall|i: int| 0 <= i < name.len() implies name_char(#[trigger] name[i]) by {
                if i > 0 {
                    assert(rest[i - 1] == name[i]);
                }
            }
        } else {
            let c = first_invalid(rest)->0;
            let at = choose|at: int|
                0 <= at < rest.len() && #[trigger] rest[at] == c && !name_char(c) && valid_name(
                    rest.take(at),
                );
            assert(name[at + 1] == c);
            assert forall|i: int| 0 <= i < name.take(at + 1).len() implies name_char(
                #[trigger] name.take(at + 1)[i],
            ) by {
                if i > 0 {
                    assert(rest.take(at)[i - 1] == name.take(at + 1)[i]);
                }
            }
        }
    }
}

/// The mathematical value of a check's outcome.
pub open spec fn outcome_of(r: Result<(), NewError>) -> Result<(), Failure> {
    match r {
        Ok(()) => Ok(()),
        Err(e) => Err(e@),
    }
}

/// Accepts a name made of letters, numbers, `_` and `-`; of any other name it
/// reports the first character that is none of these.
pub fn check_name(name: &str) -> (r: Result<(), NewError>)
    ensures
        outcome_of(r) == name_check(name@),
        r is Ok <==> valid_name(name@),
        r matches Err(e) ==> exists|at: int|
            0 <= at < name@.len() && !name_char(#[trigger] name@[at]) && valid_name(
                name@.take(at),
            ) && e@ == (Failure::InvalidName { character: name@[at], name: name@ }),
{
    proof {
        lemma_first_invalid(name@);
        assert(name@.skip(0) =~= name@);
    }
    for c in it: name.chars()
        invariant
            it.seq() == name@,
            first_invalid(name@) == first_invalid(name@.skip(it.index())),
    {
        let ghost at = it.index();
        assert(name@.skip(at).first() == c);
        assert(name@.skip(at).drop_first() =~= name@.skip(at + 1));
        if !allowed_in_name(c, c.is_alphanumeric()) {
            proof {
                lemma_first_invalid(name@);
                assert(first_invalid(name@) == Some(c));
                let first = choose|first: int|
                    0 <= first < name@.len() && #[trigger] name@[first] == c && !name_char(c)
                        && valid_name(name@.take(first));
                assert(!name_char(name@[first]));
            }
            return Err(NewError::InvalidName { character: c, name: name.to_string() });
        }
    }
    assert(name@.skip(name@.len() as int).len() == 0);
    Ok(())
}

/// The last component of the path at which the project is to stand.
#[derive(Clone, Copy, Debug, PartialEq, Eq)]
pub enum FinalComponent<'a> {
    /// The path has none.
    Absent,
    /// It is not text.
    NotText,
    /// It is this text.
    Text(&'a str),
}

/// A project's name, and whether it differs from the directory's.
#[derive(Clone, Copy, Debug, PartialEq, Eq)]
pub struct ResolvedName<'a> {
    pub name: &'a str,
    /// Whether an affix was taken off the directory's name to get it.
    pub renamed: bool,
}

/// The name that a project gets: the one given, or else the directory's name,
/// stripped of one Rust affix where a library is wanted.
pub open spec fn resolved_name(last: FinalComponent, opts: NewOptions) -> Result<
    Seq<char>,
    Failure,
> {
    match opts.name {
        Some(given) => Ok(given@),
        None => match last {
            FinalComponent::Absent => Err(Failure::NameResolution(NameFailure::NoFinalComponent)),
            FinalComponent::NotText => Err(Failure::NameResolution(NameFailure::NotText)),
            FinalComponent::Text(dir) => Ok(
                if opts.bin {
                    dir@
                } else {
                    stripped(dir@)
                },
            ),
        },
    }
}

/// Whether resolving the name changes the directory's name.
pub open spec fn name_is_changed(last: FinalComponent, opts: NewOptions) -> bool {
    opts.name is None && !opts.bin && (last matches FinalComponent::Text(dir) && stripped(dir@)
        != dir@)
}

/// Settles the project's name.
pub fn get_name<'a>(last: &FinalComponent<'a>, opts: &NewOptions<'a>) -> (r: Result<
    ResolvedName<'a>,
    NewError,
>)
    ensures
        match r {
            Ok(resolved) => resolved_name(*last, *opts) == Ok::<Seq<char>, Failure>(resolved.name@)
                && resolved.renamed == name_is_changed(*last, *opts),
            Err(e) => resolved_name(*last, *opts) == Err::<Seq<char>, Failure>(e@),
        },
{
    if let Some(name) = opts.name {
        return Ok(ResolvedName { name, renamed: false });
    }
    match *last {
        FinalComponent::Absent => Err(NewError::NameResolution(NameFailure::NoFinalComponent)),
        FinalComponent::NotText => Err(NewError::NameResolution(NameFailure::NotText)),
        FinalComponent::Text(dir_name) => {
            if opts.bin {
                Ok(ResolvedName { name: dir_name, renamed: false })
            } else {
                let new_name = strip_rust_affixes(dir_name);
                let renamed = !(*new_name == *dir_name);
                Ok(ResolvedName { name: new_name, renamed })
            }
        },
    }
}

} // verus!
