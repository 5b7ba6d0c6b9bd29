//! Paths as texts: the few operations on paths that the launcher's
//! decisions need, and the choice of its data directory.

use vstd::prelude::*;

verus! {

/// Whether `path` is absolute by the rules of the platform the launcher
/// runs on.
pub uninterp spec fn path_is_absolute(path: Seq<char>) -> bool;

/// The path `base` extended by `tail`, by the rules of the platform.
pub uninterp spec fn path_join(base: Seq<char>, tail: Seq<char>) -> Seq<char>;

/// The path `path` with `extension` for its extension, by the rules of the
/// platform.
pub uninterp spec fn path_with_extension(path: Seq<char>, extension: Seq<char>) -> Seq<char>;

/// The shortest path that names what `path` names, worked out on the text
/// alone: doubled separators, `.` and inner `..` are removed.
pub uninterp spec fn path_clean(path: Seq<char>) -> Seq<char>;

/// Whether the last components of `path` are those of `child`, by the
/// rules of the platform.
pub uninterp spec fn path_ends_with(path: Seq<char>, child: Seq<char>) -> bool;

/// The path `path` without its last component, if it has one to lose, by
/// the rules of the platform.
pub uninterp spec fn path_parent(path: Seq<char>) -> Option<Seq<char>>;

/// `std::path::Path::ends_with` tells whether a path ends with the
/// components of another. It looks at the texts only and is given the name
/// `path_ends_with`.
#[verifier::external_body]
pub(crate) fn ends_with(path: &str, child: &str) -> (r: bool)
    ensures
        r == path_ends_with(path@, child@),
{
    std::path::Path::new(path).ends_with(child)
}

/// `std::path::Path::parent` gives a path without its last component, if
/// it has one to lose. It looks at the text only and is given the name
/// `path_parent`.
#[verifier::external_body]
pub(crate) fn parent(path: &str) -> (r: Option<String>)
    ensures
        r.deep_view() == path_parent(path@),
{
    match std::path::Path::new(path).parent() {
        Some(dir) => Some(dir.to_string_lossy().into_owned()),
        None => None,
    }
}

/// `std::path::Path::is_absolute` tells whether a path is absolute. It
/// looks at the text only and is given the name `path_is_absolute`.
#[verifier::external_body]
pub(crate) fn is_absolute(path: &str) -> (r: bool)
    ensures
        r == path_is_absolute(path@),
{
    std::path::Path::new(path).is_absolute()
}

/// `std::path::Path::join` extends a path by another, which replaces it if
/// it is absolute. It looks at the texts only and is given the name
/// `path_join`.
#[verifier::external_body]
pub(crate) fn join(base: &str, tail: &str) -> (r: String)
    ensures
        r@ == path_join(base@, tail@),
{
    std::path::Path::new(base).join(tail).to_string_lossy().into_owned()
}

/// Whether `extension` can be the extension of a file: it holds no path
/// separator.
pub open spec fn is_extension(extension: Seq<char>) -> bool {
    !extension.contains('/') && !extension.contains('\\')
}

/// `std::path::Path::with_extension` replaces the extension of the last
/// component of a path. It looks at the texts only and is given the name
/// `path_with_extension`. It panics on an extension that holds a path
/// separator, hence the precondition.
#[verifier::external_body]
pub(crate) fn with_extension(path: &str, extension: &str) -> (r: String)
    requires
        is_extension(extension@),
    ensures
        r@ == path_with_extension(path@, extension@),
{
    std::path::Path::new(path).with_extension(extension).to_string_lossy().into_owned()
}

/// `path_clean::clean` simplifies a path lexically, without touching the
/// file system: it depends on the text alone and is given the name
/// `path_clean`.
#[verifier::external_body]
pub(crate) fn clean(path: &str) -> (r: String)
    ensures
        r@ == path_clean(path@),
{
    path_clean::clean(path).to_string_lossy().into_owned()
}

/// The absolute form of `path` where `current_dir` is the current
/// directory, if it is known: an absolute path is cleaned, a relative one
/// is appended to the current directory first. Without a current directory
/// a relative path has no absolute form.
pub open spec fn absolute(path: Seq<char>, current_dir: Option<Seq<char>>) -> Option<Seq<char>> {
    if path_is_absolute(path) {
        Some(path_clean(path))
    } else {
        match current_dir {
            Some(dir) => Some(path_clean(path_join(dir, path))),
            None => None,
        }
    }
}

/// The absolute form of `path`.
pub fn absolute_path(path: &str, current_dir: Option<&str>) -> (r: Option<String>)
    ensures
        r.deep_view() == absolute(
            path@,
            match current_dir {
                Some(dir) => Some(dir@),
                None => None,
            },
        ),
{
    if is_absolute(path) {
        Some(clean(path))
    } else {
        match current_dir {
            Some(dir) => {
                let full = join(dir, path);
                Some(clean(full.as_str()))
            },
            None => None,
        }
    }
}

/// The places where the data directory of the application `app_name` is
/// looked for: below the user's configuration directory, and as a hidden
/// directory in the user's home.
#[derive(Debug)]
pub struct DataPathCandidates {
    /// `{configuration directory}/{app_name}`.
    pub xdg: String,
    /// `{home}/.{app_name}`.
    pub fallback: String,
}

/// The places where the data directory of `app_name` is looked for, given
/// the user's `home` and the configuration directory that the environment
/// names, if it names one.
pub fn data_path_candidates(app_name: &str, home: &str, xdg_config_home: Option<&str>) -> (r:
    DataPathCandidates)
    ensures
        r.fallback@ == path_join(home@, "."@ + app_name@),
        r.xdg@ == path_join(
            match xdg_config_home {
                Some(dir) => dir@,
                None => path_join(home@, ".config"@),
            },
            app_name@,
        ),
{
    let hidden = crate::text::joined(".", app_name);
    let fallback = join(home, hidden.as_str());
    let xdg = match xdg_config_home {
        Some(dir) => join(dir, app_name),
        None => {
            let config = join(home, ".config");
            join(config.as_str(), app_name)
        },
    };
    DataPathCandidates { xdg, fallback }
}

/// The data directory that Windows has for the application `app_name`,
/// given the directory `app_data_dir` of application data that the system
/// names: the application's folder in it; if the system names the roaming
/// directory, the application's folder in the local one beside it.
pub open spec fn windows_data_path(app_name: Seq<char>, app_data_dir: Seq<char>) -> Seq<char> {
    match path_parent(app_data_dir) {
        Some(beside) if path_ends_with(app_data_dir, "Roaming"@) => path_join(
            path_join(beside, "Local"@),
            app_name,
        ),
        _ => path_join(app_data_dir, app_name),
    }
}

/// The data directory that the platform has for the application
/// `app_name`, where `local_app_data` and `app_data` are the directories of
/// local and of roaming application data that the system names, if it
/// names them: the local one is taken first. None where it names neither.
pub fn platform_data_path(
    app_name: &str,
    local_app_data: Option<&str>,
    app_data: Option<&str>,
) -> (r: Option<String>)
    ensures
        r.deep_view() == match (local_app_data, app_data) {
            (Some(dir), _) => Some(windows_data_path(app_name@, dir@)),
            (None, Some(dir)) => Some(windows_data_path(app_name@, dir@)),
            (None, None) => None,
        },
{
    let dir = match local_app_data {
        Some(dir) => dir,
        None => match app_data {
            Some(dir) => dir,
            None => {
                return None;
            },
        },
    };
    if ends_with(dir, "Roaming") {
        match parent(dir) {
            Some(beside) => {
                let local = join(beside.as_str(), "Local");
                return Some(join(local.as_str(), app_name));
            },
            None => {},
        }
    }
    Some(join(dir, app_name))
}

/// The data directory of the application: the one below the configuration
/// directory if it exists, else the hidden one in the user's home if it
/// exists, else the platform's own place if it has one, else the hidden
/// one.
pub fn get_app_data_path(
    candidates: DataPathCandidates,
    xdg_exists: bool,
    fallback_exists: bool,
    platform_default: Option<String>,
) -> (r: String)
    ensures
        r == if xdg_exists {
            candidates.xdg
        } else if fallback_exists {
            candidates.fallback
        } else {
            match platform_default {
                Some(path) => path,
                None => candidates.fallback,
            }
        },
{
    if xdg_exists {
        candidates.xdg
    } else if fallback_exists {
        candidates.fallback
    } else {
        match platform_default {
            Some(path) => path,
            None => candidates.fallback,
        }
    }
}

} // verus!
