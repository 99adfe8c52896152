//! Operations on text that the standard library and the `toml` crate provide,
//! with the contracts that the rest of the library relies on.

use vstd::prelude::*;

verus! {

/// Whether `needle` occurs in `hay` as a contiguous run of characters.
pub open spec fn occurs_in(needle: Seq<char>, hay: Seq<char>) -> bool {
    exists|i: int|
        0 <= i && i + needle.len() <= hay.len() && #[trigger] hay.subrange(i, i + needle.len())
            == needle
}

/// What `char::is_alphanumeric` answers for `c`: whether Unicode classes the
/// character as a letter or a number.
pub uninterp spec fn alphanumeric(c: char) -> bool;

/// What `char::is_whitespace` answers for `c`: whether the character has the
/// Unicode property `White_Space`, by which `str::trim` goes.
pub uninterp spec fn is_white_space(c: char) -> bool;

/// `s` without its leading and trailing white space.
pub open spec fn trimmed(s: Seq<char>) -> Seq<char>
    decreases s.len(),
{
    if s.len() > 0 && is_white_space(s.first()) {
        trimmed(s.drop_first())
    } else if s.len() > 0 && is_white_space(s.last()) {
        trimmed(s.drop_last())
    } else {
        s
    }
}

/// How one character stands inside a quoted TOML string.
pub open spec fn escaped_char(c: char) -> Seq<char> {
    if c == '\u{8}' {
        seq!['\\', 'b']
    } else if c == '\u{9}' {
        seq!['\\', 't']
    } else if c == '\u{a}' {
        seq!['\\', 'n']
    } else if c == '\u{c}' {
        seq!['\\', 'f']
    } else if c == '\u{d}' {
        seq!['\\', 'r']
    } else if c == '"' {
        seq!['\\', '"']
    } else if c == '\\' {
        seq!['\\', '\\']
    } else {
        seq![c]
    }
}

/// The characters of `s`, each one escaped, in order.
pub open spec fn escaped(s: Seq<char>) -> Seq<char>
    decreases s.len(),
{
    if s.len() == 0 {
        Seq::empty()
    } else {
        escaped(s.drop_last()) + escaped_char(s.last())
    }
}

/// `s` as a TOML string value: escaped, between double quotes.
pub open spec fn quoted(s: Seq<char>) -> Seq<char> {
    seq!['"'] + escaped(s) + seq!['"']
}

/// `str`'s `==`. Trusted: two string slices are equal exactly when they hold
/// the same characters.
pub assume_specification[ <str as PartialEq>::eq ](a: &str, b: &str) -> (r: bool)
    ensures
        r == (a@ == b@),
;

/// `char::is_alphanumeric`. Trusted: the answer depends on the character alone.
pub assume_specification[ char::is_alphanumeric ](c: char) -> (r: bool)
    ensures
        r == alphanumeric(c),
;

/// `str::trim`. Trusted: the result is a sub-slice; every character outside
/// it is white space; and unless it is empty, it neither begins nor ends with
/// white space.
pub assume_specification[ str::trim ](s: &str) -> (r: &str)
    ensures
        (exists|i: int|
            0 <= i <= s@.len() - r@.len() && r@ == #[trigger] s@.subrange(i, i + r@.len())
                && (forall|k: int|
                0 <= k < s@.len() && !(i <= k < i + r@.len()) ==> is_white_space(
                    #[trigger] s@[k],
                )) && (r@.len() > 0 ==> !is_white_space(r@.first()) && !is_white_space(
                r@.last(),
            ))),
;

/// `str::starts_with` with a string pattern. Trusted: it tells whether the
/// pattern is a prefix of the slice.
#[verifier::external_body]
pub(crate) fn starts_with(s: &str, prefix: &str) -> (r: bool)
    ensures
        r == prefix@.is_prefix_of(s@),
{
    s.starts_with(prefix)
}

/// `str::ends_with` with a string pattern. Trusted: it tells whether the
/// pattern is a suffix of the slice.
#[verifier::external_body]
pub(crate) fn ends_with(s: &str, suffix: &str) -> (r: bool)
    ensures
        r == suffix@.is_suffix_of(s@),
{
    s.ends_with(suffix)
}

/// `str::contains` with a string pattern. Trusted: it tells whether the
/// pattern matches some sub-slice.
#[verifier::external_body]
pub(crate) fn contains(hay: &str, needle: &str) -> (r: bool)
    ensures
        r == occurs_in(needle@, hay@),
{
    hay.contains(needle)
}

/// `Display` of `toml::Value::String`. Trusted: it writes a double quote, each
/// character of the text in turn (backspace, tab, line feed, form feed,
/// carriage return, double quote and backslash as a backslash escape, every
/// other character as it is), and a closing double quote.
#[verifier::external_body]
pub(crate) fn toml_string(s: &str) -> (r: String)
    ensures
        r@ == quoted(s@),
{
    toml::Value::String(s.to_string()).to_string()
}

/// A slice of `s` that has only white space around it, and none at its own
/// ends, is `trimmed(s)`.
pub proof fn lemma_trimmed_is_the_trim(s: Seq<char>, i: int, j: int)
    requires
        0 <= i <= j <= s.len(),
        forall|k: int| 0 <= k < i ==> is_white_space(#[trigger] s[k]),
        forall|k: int| j <= k < s.len() ==> is_white_space(#[trigger] s[k]),
        i < j ==> !is_white_space(s[i]) && !is_white_space(s[j - 1]),
    ensures
        trimmed(s) == s.subrange(i, j),
    decreases s.len(),
{
    if s.len() > 0 && is_white_space(s.first()) {
        let t = s.drop_first();
        if i < j {
            assert(i >= 1);
            assert forall|k: int| 0 <= k < i - 1 implies is_white_space(#[trigger] t[k]) by {
                assert(t[k] == s[k + 1]);
            }
            assert forall|k: int| j - 1 <= k < t.len() implies is_white_space(#[trigger] t[k]) by {
                assert(t[k] == s[k + 1]);
            }
            lemma_trimmed_is_the_trim(t, i - 1, j - 1);
            assert(t.subrange(i - 1, j - 1) =~= s.subrange(i, j));
        } else {
            assert forall|k: int| 0 <= k < t.len() implies is_white_space(#[trigger] t[k]) by {
                assert(t[k] == s[k + 1]);
                assert(is_white_space(s[k + 1]));
            }
            lemma_trimmed_is_the_trim(t, 0, 0);
            assert(t.subrange(0, 0) =~= s.subrange(i, j));
        }
    } else if s.len() > 0 && is_white_space(s.last()) {
        let t = s.drop_last();
        if i < j {
            assert(j <= s.len() - 1);
            assert forall|k: int| 0 <= k < i implies is_white_space(#[trigger] t[k]) by {
                assert(t[k] == s[k]);
            }
            assert forall|k: int| j <= k < t.len() implies is_white_space(#[trigger] t[k]) by {
                assert(t[k] == s[k]);
            }
            lemma_trimmed_is_the_trim(t, i, j);
            assert(t.subrange(i, j) =~= s.subrange(i, j));
        } else {
            assert forall|k: int| 0 <= k < t.len() implies is_white_space(#[trigger] t[k]) by {
                assert(t[k] == s[k]);
                assert(is_white_space(s[k]));
            }
            lemma_trimmed_is_the_trim(t, 0, 0);
            assert(t.subrange(0, 0) =~= s.subrange(i, j));
        }
    } else if s.len() > 0 {
        assert(i == 0) by {
            if i > 0 {
                assert(is_white_space(s[0]));
            }
        }
        assert(j == s.len()) by {
            if j < s.len() {
                assert(is_white_space(s[s.len() - 1]));
            }
        }
        assert(s.subrange(i, j) =~= s);
    } else {
        assert(s.subrange(i, j) =~= s);
    }
}

/// `s` without the white space at its two ends.
pub fn trim_ends(s: &str) -> (r: &str)
    ensures
        r@ == trimmed(s@),
{
    let r = s.trim();
    proof {
        let i = choose|i: int|
            0 <= i <= s@.len() - r@.len() && r@ == #[trigger] s@.subrange(i, i + r@.len())
                && (forall|k: int|
                0 <= k < s@.len() && !(i <= k < i + r@.len()) ==> is_white_space(
                    #[trigger] s@[k],
                )) && (r@.len() > 0 ==> !is_white_space(r@.first()) && !is_white_space(
                r@.last(),
            ));
        let j = i + r@.len();
        if i < j {
            assert(r@.first() == s@[i]);
            assert(r@.last() == s@[j - 1]);
        }
        lemma_trimmed_is_the_trim(s@, i, j);
    }
    r
}

} // verus!
