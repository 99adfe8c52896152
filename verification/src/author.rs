//! Who the author of the project is, as the manifest names them.

use crate::model::{text_of, CargoNewConfig, Failure, NewError};
use crate::text::{trim_ends, trimmed};
use crate::vcs::vcs_named;
use crate::model::VersionControl;
use vstd::prelude::*;

verus! {

/// What the version control's own settings and the environment say of the
/// user.
#[derive(Clone, Debug, PartialEq, Eq)]
pub struct AuthorSources {
    /// The name that git is set up with.
    pub git_name: Option<String>,
    /// The e-mail address that git is set up with.
    pub git_email: Option<String>,
    /// The user's name in the environment, as Unix gives it.
    pub user: Option<String>,
    /// The user's name in the environment, as Windows gives it.
    pub username: Option<String>,
    /// The e-mail address in the environment.
    pub email: Option<String>,
}

/// The first of two optional texts that is there.
pub open spec fn or_else(first: Option<Seq<char>>, second: Option<Seq<char>>) -> Option<
    Seq<char>,
> {
    if first is Some {
        first
    } else {
        second
    }
}

/// `text` without the white space at its ends, if it is there.
pub open spec fn trimmed_if_some(text: Option<Seq<char>>) -> Option<Seq<char>> {
    match text {
        Some(t) => Some(trimmed(t)),
        None => None,
    }
}

/// The user's name as the sources give it: git's, else Unix's, else
/// Windows's, trimmed.
pub open spec fn discovered_name(sources: AuthorSources) -> Option<Seq<char>> {
    trimmed_if_some(
        or_else(
            text_of(sources.git_name),
            or_else(text_of(sources.user), text_of(sources.username)),
        ),
    )
}

/// The user's e-mail address as the sources give it: git's, else the
/// environment's, trimmed.
pub open spec fn discovered_email(sources: AuthorSources) -> Option<Seq<char>> {
    trimmed_if_some(or_else(text_of(sources.git_email), text_of(sources.email)))
}

/// The first of two optional strings that is there.
fn first_of<'a>(first: &'a Option<String>, second: &'a Option<String>) -> (r: &'a Option<String>)
    ensures
        text_of(*r) == or_else(text_of(*first), text_of(*second)),
{
    if first.is_some() {
        first
    } else {
        second
    }
}

/// A trimmed copy of `text`, if it is there.
fn trimmed_copy(text: &Option<String>) -> (r: Option<String>)
    ensures
        text_of(r) == trimmed_if_some(text_of(*text)),
{
    match text {
        Some(t) => Some(trim_ends(t.as_str()).to_string()),
        None => None,
    }
}

/// The user's e-mail address, from git's settings or else the environment.
pub fn discover_email(sources: &AuthorSources) -> (r: Option<String>)
    ensures
        text_of(r) == discovered_email(*sources),
{
    trimmed_copy(first_of(&sources.git_email, &sources.email))
}

/// The user's name and e-mail address, from git's settings or else the
/// environment. It fails where nothing names the user.
pub fn discover_author(sources: &AuthorSources) -> (r: Result<(String, Option<String>), NewError>)
    ensures
        match r {
            Ok((name, email)) => discovered_name(*sources) == Some(name@) && text_of(email)
                == discovered_email(*sources),
            Err(e) => discovered_name(*sources) is None && e@ == Failure::AuthorResolution,
        },
{
    let name = trimmed_copy(first_of(&sources.git_name, first_of(&sources.user, &sources.username)));
    match name {
        Some(name) => Ok((name, discover_email(sources))),
        None => Err(NewError::AuthorResolution),
    }
}

/// A name and an e-mail address as one author: `name <email>`, or the name
/// alone where there is no address.
pub open spec fn attributed(name: Seq<char>, email: Option<Seq<char>>) -> Seq<char> {
    match email {
        Some(address) => name + " <"@ + address + ">"@,
        None => name,
    }
}

/// A name and an e-mail address as one author.
pub fn attribute(name: String, email: Option<String>) -> (r: String)
    ensures
        r@ == attributed(name@, text_of(email)),
{
    let mut author = name;
    if let Some(address) = email {
        author.append(" <");
        author.append(address.as_str());
        author.append(">");
    }
    author
}

/// The author of the project: by name the one of the user's preferences, else
/// the one that the sources give; by address likewise. Without a name there is
/// no author.
pub open spec fn author(preferences: CargoNewConfig, sources: AuthorSources) -> Result<
    Seq<char>,
    Failure,
> {
    let name = or_else(text_of(preferences.name), discovered_name(sources));
    let email = or_else(text_of(preferences.email), discovered_email(sources));
    match name {
        Some(name) => Ok(attributed(name, email)),
        None => Err(Failure::AuthorResolution),
    }
}

/// The mathematical value of a text or an error.
pub open spec fn text_or_failure(r: Result<String, NewError>) -> Result<Seq<char>, Failure> {
    match r {
        Ok(text) => Ok(text@),
        Err(e) => Err(e@),
    }
}

/// Names the author of the project.
pub fn resolve_author(preferences: &CargoNewConfig, sources: &AuthorSources) -> (r: Result<
    String,
    NewError,
>)
    ensures
        text_or_failure(r) == author(*preferences, *sources),
{
    let name = match &preferences.name {
        Some(name) => name.clone(),
        None => match discover_author(sources) {
            Ok((name, _)) => name,
            Err(e) => {
                return Err(e);
            },
        },
    };
    let email = match &preferences.email {
        Some(email) => Some(email.clone()),
        None => discover_email(sources),
    };
    Ok(attribute(name, email))
}

/// The user's preferences, where the preferred version control is given by
/// name: `git`, `hg` or `none`.
pub fn global_config(name: Option<String>, email: Option<String>, vcs: Option<&str>) -> (r: Result<
    CargoNewConfig,
    NewError,
>)
    ensures
        match r {
            Ok(preferences) => preferences.name == name && preferences.email == email && (match vcs {
                Some(v) => vcs_named(v@) is Some && preferences.version_control == vcs_named(v@),
                None => preferences.version_control is None,
            }),
            Err(e) => vcs matches Some(v) && vcs_named(v@) is None && e@ == (Failure::UnknownVcs {
                name: v@,
            }),
        },
{
    let version_control = match vcs {
        Some(v) => match VersionControl::decode(v) {
            Ok(vcs) => Some(vcs),
            Err(e) => {
                return Err(e);
            },
        },
        None => None,
    };
    Ok(CargoNewConfig { name, email, version_control })
}

} // verus!
