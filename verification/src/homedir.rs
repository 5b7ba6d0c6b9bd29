//! Expansion of a tilde at the start of a path.
//!
//! - `~` expands to the home directory of the current user: the one the
//!   environment names, or else the one the user database records.
//! - `~user` expands to the home directory that the user database records
//!   for `user`.
//! - Any other path is left as it is.

use vstd::prelude::*;
use crate::text::{chars_of, push_all, slice_of, string_of};

verus! {

/// Why a path could not be expanded.
#[derive(Debug, PartialEq)]
#[non_exhaustive]
pub enum Error {
    /// The user being looked up is not in the user database.
    MissingEntry(String),
    /// The current user, with this numeric id, is not in the user database.
    CurrentUserDoesNotExist(u32),
}

impl Error {
    /// What went wrong, in words.
    pub fn message(&self) -> (r: String)
        ensures
            match self {
                Error::MissingEntry(user) => r@ == "the user "@ + user@
                    + " does not exist in the user database"@,
                Error::CurrentUserDoesNotExist(uid) => r@ == "the current user (numeric id "@
                    + crate::decimal::decimal(*uid as nat)
                    + ") does not exist in the user database"@,
            },
    {
        match self {
            Error::MissingEntry(user) => {
                let mut chars = chars_of("the user ");
                push_all(&mut chars, &chars_of(user.as_str()));
                push_all(&mut chars, &chars_of(" does not exist in the user database"));
                string_of(&chars)
            },
            Error::CurrentUserDoesNotExist(uid) => {
                let mut chars = chars_of("the current user (numeric id ");
                crate::decimal::push_decimal(*uid as u64, &mut chars);
                push_all(&mut chars, &chars_of(") does not exist in the user database"));
                string_of(&chars)
            },
        }
    }
}

/// `std::path::is_separator` tells whether a character separates the
/// components of a path on this platform. The slash does so everywhere, and
/// nothing but the slash and the backslash does so anywhere.
pub assume_specification[ std::path::is_separator ](c: char) -> (r: bool)
    ensures
        c == '/' ==> r,
        r ==> c == '/' || c == '\\',
;

/// `home::home_dir` gives the home directory of the current user as the
/// environment or the system tells it, if either does. It changes with the
/// environment, so nothing is claimed of it.
#[verifier::external_body]
fn getenv() -> (r: Option<String>) {
    home::home_dir().map(|dir| dir.to_string_lossy().into_owned())
}

/// `nix::unistd::User::from_name` looks `name` up in the user database;
/// the home directory of the entry is handed back, if there is an entry.
/// It depends on the database, so nothing is claimed of it.
#[verifier::external_body]
fn user_home(name: &str) -> (r: Option<String>) {
    let user = nix::unistd::User::from_name(name).ok()??;
    Some(user.dir.to_string_lossy().into_owned())
}

/// `nix::unistd::Uid::current` gives the id of the current user and
/// `nix::unistd::User::from_uid` looks it up in the user database; the id
/// is handed back with the home directory of the entry, if there is one.
/// Both depend on the process and the database, so nothing is claimed.
#[verifier::external_body]
fn current_user_home() -> (r: (u32, Option<String>)) {
    let uid = nix::unistd::Uid::current();
    let user = nix::unistd::User::from_uid(uid).ok().flatten();
    (uid.as_raw(), user.map(|u| u.dir.to_string_lossy().into_owned()))
}

/// The home directory `found` for the user `name`, or the error that says
/// that `name` is not in the user database.
pub fn entry_of(name: &str, found: Option<String>) -> (r: Result<String, Error>)
    ensures
        match found {
            Some(dir) => r == Ok::<String, Error>(dir),
            None => r matches Err(Error::MissingEntry(user)) && user@ == name@,
        },
{
    match found {
        Some(dir) => Ok(dir),
        None => Err(Error::MissingEntry(String::from_str(name))),
    }
}

/// The home directory of the user `name` as the user database records it.
/// The only error is that `name` has no entry.
pub fn getent(name: &str) -> (r: Result<String, Error>)
    ensures
        r matches Err(e) ==> e matches Error::MissingEntry(user) && user@ == name@,
{
    entry_of(name, user_home(name))
}

/// The home directory of the current user as the user database records
/// it. The only error is that the current user has no entry.
pub fn getent_current() -> (r: Result<String, Error>)
    ensures
        r matches Err(e) ==> e is CurrentUserDoesNotExist,
{
    let (uid, found) = current_user_home();
    current_entry_of(uid, found)
}

/// The home directory `found` for the current user, whose numeric id is
/// `uid`, or the error that says that this user is not in the user
/// database.
pub fn current_entry_of(uid: u32, found: Option<String>) -> (r: Result<String, Error>)
    ensures
        r == match found {
            Some(dir) => Ok::<String, Error>(dir),
            None => Err::<String, Error>(Error::CurrentUserDoesNotExist(uid)),
        },
{
    match found {
        Some(dir) => Ok(dir),
        None => Err(Error::CurrentUserDoesNotExist(uid)),
    }
}

/// Whether `end` can be where the first component of `path` ends: at the
/// end of the path or at a slash or backslash, with no slash before.
pub open spec fn ends_first_component(path: Seq<char>, end: int) -> bool {
    &&& 0 <= end <= path.len()
    &&& end < path.len() ==> path[end] == '/' || path[end] == '\\'
    &&& forall|j: int| 0 <= j < end ==> path[j] != '/'
}

/// Whether `path` begins with a tilde.
pub open spec fn begins_with_tilde(path: Seq<char>) -> bool {
    path.len() > 0 && path[0] == '~'
}

/// What holds of the expansion `r` of `path`. A path that does not begin
/// with a tilde is its own expansion. Of a path that does, the first
/// component is replaced by a home directory and the rest is kept; it
/// fails only if the user that the first component names, or the current
/// user for a bare tilde, has no entry in the user database.
pub open spec fn is_expansion(path: Seq<char>, r: Result<String, Error>) -> bool {
    if !begins_with_tilde(path) {
        r matches Ok(p) && p@ == path
    } else {
        exists|end: int| #[trigger]
            ends_first_component(path, end) && end >= 1 && match r {
                Ok(p) => exists|home: Seq<char>| p@ == #[trigger] (home + path.skip(end)),
                Err(Error::MissingEntry(user)) => end > 1 && user@ == path.subrange(1, end),
                Err(Error::CurrentUserDoesNotExist(_)) => end == 1,
            }
    }
}

/// The expansion of `path`, whose first component ends at `end`, with
/// `home` for its home directory: the home directory followed by the rest
/// of the path, or the error of the lookup.
pub fn expand_with(path: &str, end: usize, home: Result<String, Error>) -> (r: Result<
    String,
    Error,
>)
    requires
        end <= path@.len(),
    ensures
        match home {
            Ok(dir) => r matches Ok(p) && p@ == dir@ + path@.skip(end as int),
            Err(e) => r == Err::<String, Error>(e),
        },
{
    match home {
        Ok(dir) => {
            let all = chars_of(path);
            let mut chars = chars_of(dir.as_str());
            push_all(&mut chars, &slice_of(&all, end, all.len()));
            Ok(string_of(&chars))
        },
        Err(e) => Err(e),
    }
}

/// Expansion of a tilde at the start of a path.
pub trait HomeDirExt {
    /// The characters of the path.
    spec fn path_text(&self) -> Seq<char>;

    /// Expands the home directory that a tilde at the start of this path
    /// stands for.
    fn expand_home(&self) -> (r: Result<String, Error>)
        ensures
            is_expansion(self.path_text(), r),
    ;
}

impl HomeDirExt for str {
    open spec fn path_text(&self) -> Seq<char> {
        self@
    }

    fn expand_home(&self) -> (r: Result<String, Error>) {
        let chars = chars_of(self);
        if chars.len() == 0 || chars[0] != '~' {
            return Ok(string_of(&chars));
        }
        let mut end: usize = 1;
        while end < chars.len() && !std::path::is_separator(chars[end])
            invariant
                1 <= end <= chars.len(),
                chars@[0] == '~',
                forall|j: int| 0 <= j < end ==> chars@[j] != '/',
            decreases chars.len() - end,
        {
            end += 1;
        }
        assert(ends_first_component(self@, end as int));
        let home = if end == 1 {
            match getenv() {
                Some(dir) => Ok(dir),
                None => getent_current(),
            }
        } else {
            let user = string_of(&slice_of(&chars, 1, end));
            getent(user.as_str())
        };
        let ghost found = home;
        let r = expand_with(self, end, home);
        proof {
            if r is Ok {
                assert(r->Ok_0@ == found->Ok_0@ + self@.skip(end as int));
            }
        }
        r
    }
}

impl HomeDirExt for String {
    open spec fn path_text(&self) -> Seq<char> {
        self@
    }

    fn expand_home(&self) -> (r: Result<String, Error>) {
        self.as_str().expand_home()
    }
}

} // verus!
