//! What the launcher resolves at startup: the server's data directory, its
//! database, its binary and its working directory. The caller looks at the
//! file system; which place is looked at and which one is taken is decided
//! here.

use vstd::prelude::*;
use crate::homedir::{is_expansion, Error, HomeDirExt};
use crate::platform::Platform;
use crate::runtime_config::{RuntimeConfig, RuntimeConfigView};
use crate::text::{
    chars_of, push_all, same_chars, string_of, strip_leading, trim, trimmed, without_leading,
};
use crate::utils::{
    absolute, absolute_path, is_extension, join, path_join, path_with_extension, with_extension,
};

verus! {

/// The text in `text`, trimmed; empty if there is none.
pub open spec fn trimmed_or_empty(text: Option<Seq<char>>) -> Seq<char> {
    match text {
        Some(s) => trim(s),
        None => Seq::empty(),
    }
}

fn trimmed_text(text: &Option<String>) -> (r: Vec<char>)
    ensures
        r@ == trimmed_or_empty(text.deep_view()),
{
    match text {
        Some(s) => trimmed(&chars_of(s.as_str())),
        None => Vec::new(),
    }
}

/// The path that `expanded`, the expansion of a configured path, resolves
/// to: its absolute form, where an expansion that failed counts as the
/// empty path, or `fallback` if it has no absolute form.
pub open spec fn resolved(
    expanded: Result<String, Error>,
    current_dir: Option<Seq<char>>,
    fallback: Seq<char>,
) -> Seq<char> {
    let path = match expanded {
        Ok(p) => p@,
        Err(_) => Seq::empty(),
    };
    match absolute(path, current_dir) {
        Some(p) => p,
        None => fallback,
    }
}

fn resolve(expanded: Result<String, Error>, current_dir: Option<&str>, fallback: &str) -> (r:
    String)
    ensures
        r@ == resolved(
            expanded,
            match current_dir {
                Some(dir) => Some(dir@),
                None => None,
            },
            fallback@,
        ),
{
    let path = match expanded {
        Ok(p) => p,
        Err(_) => String::new(),
    };
    match absolute_path(path.as_str(), current_dir) {
        Some(p) => p,
        None => String::from_str(fallback),
    }
}

/// Whether the configured data directory `data` stands for the launcher's
/// own: it is not set, empty or `.`.
pub open spec fn is_own_directory(data: Seq<char>) -> bool {
    data.len() == 0 || data == "."@
}

/// The server's data directory for the expansion `expanded` of the
/// configured one: the launcher's data directory if none is configured,
/// else what the configured one resolves to.
pub open spec fn data_directory(
    config: RuntimeConfigView,
    expanded: Result<String, Error>,
    current_dir: Option<Seq<char>>,
) -> Seq<char> {
    if is_own_directory(trimmed_or_empty(config.yaml.memos.data)) {
        config.paths.memospot_data
    } else {
        resolved(expanded, current_dir, config.paths.memospot_data)
    }
}

/// The server's data directory, given the expansion `expanded` of the
/// configured one.
pub fn memos_data_with(
    rtcfg: &RuntimeConfig,
    expanded: Result<String, Error>,
    current_dir: Option<&str>,
) -> (r: String)
    ensures
        r@ == data_directory(
            rtcfg@,
            expanded,
            match current_dir {
                Some(dir) => Some(dir@),
                None => None,
            },
        ),
{
    let data = trimmed_text(&rtcfg.yaml.memos.data);
    if data.len() == 0 || same_chars(&data, &chars_of(".")) {
        rtcfg.paths.memospot_data.clone()
    } else {
        resolve(expanded, current_dir, rtcfg.paths.memospot_data.as_str())
    }
}

/// The server's data directory: the launcher's own if none is configured,
/// or the configured one is empty or `.`; else the configured one with its
/// tilde expanded, in absolute form. The caller makes sure that it exists
/// and is a directory.
pub fn memos_data(rtcfg: &RuntimeConfig, current_dir: Option<&str>) -> (r: String)
    ensures
        exists|expanded: Result<String, Error>|
            is_expansion(trimmed_or_empty(rtcfg@.yaml.memos.data), expanded) && r@
                == data_directory(
                rtcfg@,
                expanded,
                match current_dir {
                    Some(dir) => Some(dir@),
                    None => None,
                },
            ),
{
    let data = string_of(&trimmed_text(&rtcfg.yaml.memos.data));
    let expanded = data.expand_home();
    let ghost witness = expanded;
    let r = memos_data_with(rtcfg, expanded, current_dir);
    assert(is_expansion(trimmed_or_empty(rtcfg@.yaml.memos.data), witness));
    r
}

/// The port that the server is to listen on, as configured: the search for
/// a free port begins with it. 0 if none is configured.
pub fn memos_port(rtcfg: &RuntimeConfig) -> (r: u16)
    ensures
        r == match rtcfg@.yaml.memos.port {
            Some(p) => p,
            None => 0,
        },
{
    match rtcfg.yaml.memos.port {
        Some(p) => p,
        None => 0,
    }
}

/// The name of the database file of the mode `mode`.
pub open spec fn database_name(mode: Option<Seq<char>>) -> Seq<char> {
    "memos_"@ + match mode {
        Some(m) => m,
        None => Seq::empty(),
    } + ".db"@
}

/// The files beside `path` that have its name with one of `extensions`.
pub open spec fn siblings(path: Seq<char>, extensions: Seq<Seq<char>>) -> Seq<Seq<char>> {
    Seq::new(extensions.len(), |i: int| path_with_extension(path, extensions[i]))
}

/// The files of the database at `db_path`: the database itself, its
/// write-ahead log and its shared memory.
pub open spec fn database_files(db_path: Seq<char>) -> Seq<Seq<char>> {
    siblings(db_path, seq!["db"@, "db-wal"@, "db-shm"@])
}

/// The database file of the server: in its data directory, named after its
/// mode.
pub fn database(rtcfg: &RuntimeConfig) -> (r: String)
    ensures
        r@ == path_join(rtcfg@.paths.memos_data, database_name(rtcfg@.yaml.memos.mode)),
{
    let mut name = chars_of("memos_");
    match &rtcfg.yaml.memos.mode {
        Some(mode) => {
            push_all(&mut name, &chars_of(mode.as_str()));
        },
        None => {},
    }
    push_all(&mut name, &chars_of(".db"));
    let file = string_of(&name);
    join(rtcfg.paths.memos_data.as_str(), file.as_str())
}

/// The files beside `path` that have its name with one of `extensions`,
/// none of which holds a path separator.
pub fn related_files(path: &str, extensions: &Vec<String>) -> (r: Vec<String>)
    requires
        forall|i: int| 0 <= i < extensions.len() ==> is_extension(#[trigger] extensions@[i]@),
    ensures
        r.deep_view() == siblings(path@, extensions.deep_view()),
{
    let mut files: Vec<String> = Vec::new();
    let mut i: usize = 0;
    while i < extensions.len()
        invariant
            i <= extensions.len(),
            files.len() == i,
            forall|k: int| 0 <= k < extensions.len() ==> is_extension(#[trigger] extensions@[k]@),
            forall|j: int|
                0 <= j < i ==> (#[trigger] files@[j])@ == path_with_extension(
                    path@,
                    extensions@[j]@,
                ),
        decreases extensions.len() - i,
    {
        files.push(with_extension(path, extensions[i].as_str()));
        i += 1;
    }
    assert(files.deep_view() =~= siblings(path@, extensions.deep_view()));
    files
}

/// The files of the database at `db_path` that have to be writable if they
/// exist.
pub fn database_file_paths(db_path: &str) -> (r: Vec<String>)
    ensures
        r.deep_view() == database_files(db_path@),
{
    let mut extensions: Vec<String> = Vec::new();
    extensions.push(String::from_str("db"));
    extensions.push(String::from_str("db-wal"));
    extensions.push(String::from_str("db-shm"));
    assert(extensions.deep_view() =~= seq!["db"@, "db-wal"@, "db-shm"@]);
    proof {
        reveal_strlit("db");
        reveal_strlit("db-wal");
        reveal_strlit("db-shm");
    }
    related_files(db_path, &extensions)
}

/// Whether the `i`-th answer of `found` says "there"; an answer that is
/// missing says "not there".
pub open spec fn answered(found: Seq<bool>, i: int) -> bool {
    0 <= i < found.len() && found[i]
}

/// The files that a backup of `main` holds: `main` itself, and those of
/// `related` that exist, as `exists` says, in their order.
pub open spec fn backup_files(main: Seq<char>, related: Seq<Seq<char>>, exists: Seq<bool>) -> Seq<
    Seq<char>,
>
    decreases related.len(),
{
    if related.len() == 0 {
        seq![main]
    } else if answered(exists, related.len() - 1) {
        backup_files(main, related.drop_last(), exists).push(related.last())
    } else {
        backup_files(main, related.drop_last(), exists)
    }
}

/// The files to put into a backup of `main`.
pub fn backup_entries(main: &str, related: &Vec<String>, exists: &Vec<bool>) -> (r: Vec<String>)
    ensures
        r.deep_view() == backup_files(main@, related.deep_view(), exists@),
{
    let mut files: Vec<String> = Vec::new();
    files.push(String::from_str(main));
    let ghost all = related.deep_view();
    let mut i: usize = 0;
    assert(all.take(0) =~= Seq::empty());
    assert(files.deep_view() =~= seq![main@]);
    while i < related.len()
        invariant
            i <= related.len(),
            all == related.deep_view(),
            files.deep_view() == backup_files(main@, all.take(i as int), exists@),
        decreases related.len() - i,
    {
        assert(all.take(i + 1).drop_last() == all.take(i as int));
        assert(all.take(i + 1).last() == related@[i as int]@);
        if i < exists.len() && exists[i] {
            let ghost before = files.deep_view();
            files.push(related[i].clone());
            assert(files.deep_view() =~= before.push(related@[i as int]@));
        }
        i += 1;
    }
    assert(all.take(related.len() as int) == all);
    files
}

/// The name of the backup made before the database is migrated at the
/// local time `datetime`, written as `YYYYMMDD-HHMMSS`.
pub fn backup_name(datetime: &str) -> (r: String)
    ensures
        r@ == "db-"@ + datetime@ + "-pre-migration.zst.zip"@,
{
    let mut name = chars_of("db-");
    push_all(&mut name, &chars_of(datetime));
    push_all(&mut name, &chars_of("-pre-migration.zst.zip"));
    string_of(&name)
}

/// What to do about the rendering of the web view.
#[derive(Clone, Copy, Debug, PartialEq, Eq, Structural)]
pub enum Rendering {
    /// Leave hardware acceleration as it is.
    Untouched,
    /// Force software rendering: set `WEBKIT_DISABLE_COMPOSITING_MODE=1`.
    DisableCompositing,
    /// Switch DMABuf rendering off: set `WEBKIT_DISABLE_DMABUF_RENDERER=1`.
    DisableDmabuf,
}

/// What is known of the graphics of the machine.
#[derive(Clone, Copy, Debug, PartialEq, Eq, Structural)]
pub struct Graphics {
    /// Whether a GPU renderer was detected.
    pub has_renderer: bool,
    /// Whether the session runs under X11, not Wayland.
    pub is_x11: bool,
    /// Whether the launcher runs in a Flatpak sandbox.
    pub is_flatpak: bool,
    /// Whether the machine has an Nvidia GPU.
    pub is_nvidia: bool,
}

/// What is done about the rendering for the graphics `graphics`: without a
/// renderer, software rendering is forced; under X11, DMABuf rendering is
/// switched off in a Flatpak sandbox and with an Nvidia GPU, which are
/// known to fail there; all else is left alone.
pub open spec fn rendering_for(graphics: Graphics) -> Rendering {
    if !graphics.has_renderer {
        Rendering::DisableCompositing
    } else if !graphics.is_x11 {
        Rendering::Untouched
    } else if graphics.is_flatpak || graphics.is_nvidia {
        Rendering::DisableDmabuf
    } else {
        Rendering::Untouched
    }
}

/// Decides what to do about the rendering of the web view.
pub fn hw_acceleration(graphics: Graphics) -> (r: Rendering)
    ensures
        r == rendering_for(graphics),
{
    if !graphics.has_renderer {
        Rendering::DisableCompositing
    } else if !graphics.is_x11 {
        Rendering::Untouched
    } else if graphics.is_flatpak || graphics.is_nvidia {
        Rendering::DisableDmabuf
    } else {
        Rendering::Untouched
    }
}

/// What to do with one file of the database.
#[derive(Clone, Copy, Debug, PartialEq, Eq, Structural)]
pub enum FileAction {
    /// The file is not there, or it is there and writable.
    Accept,
    /// The file belongs to the demonstration database of a development
    /// build: remove it.
    Remove,
    /// The file is not writable: the launcher cannot go on.
    Fatal,
}

/// What to do with a file of the database: nothing if it is not there; a
/// file of a disposable database is removed; any other has to be writable.
pub open spec fn file_action(exists: bool, disposable: bool, writable: bool) -> FileAction {
    if !exists {
        FileAction::Accept
    } else if disposable {
        FileAction::Remove
    } else if writable {
        FileAction::Accept
    } else {
        FileAction::Fatal
    }
}

/// What to do with a file of the database that `exists` or not and is
/// `writable` or not; `disposable` says that the launcher is a development
/// build and the server runs in demonstration mode.
pub fn check_database_file(exists: bool, disposable: bool, writable: bool) -> (r: FileAction)
    ensures
        r == file_action(exists, disposable, writable),
{
    if !exists {
        FileAction::Accept
    } else if disposable {
        FileAction::Remove
    } else if writable {
        FileAction::Accept
    } else {
        FileAction::Fatal
    }
}

/// The position, from `from` on, of the first candidate that is not empty
/// and was found, or the number of candidates.
pub open spec fn first_found_from(candidates: Seq<Seq<char>>, found: Seq<bool>, from: int) -> int
    decreases candidates.len() - from,
{
    if from < 0 || from >= candidates.len() {
        candidates.len() as int
    } else if candidates[from].len() > 0 && answered(found, from) {
        from
    } else {
        first_found_from(candidates, found, from + 1)
    }
}

/// The position of the first candidate that is not empty and was found,
/// or the number of candidates. A candidate without an answer counts as
/// not found.
pub open spec fn first_found(candidates: Seq<Seq<char>>, found: Seq<bool>) -> int {
    first_found_from(candidates, found, 0)
}

/// The position of the first of `candidates` that is not empty and for
/// which `found` says that what was looked for is there.
pub fn pick_first(candidates: &Vec<String>, found: &Vec<bool>) -> (r: Option<usize>)
    ensures
        match r {
            Some(i) => i == first_found(candidates.deep_view(), found@) && i < candidates.len()
                && candidates@[i as int]@.len() > 0 && answered(found@, i as int),
            None => first_found(candidates.deep_view(), found@) == candidates.len(),
        },
{
    let ghost all = candidates.deep_view();
    let mut i: usize = 0;
    while i < candidates.len()
        invariant
            i <= candidates.len(),
            all == candidates.deep_view(),
            first_found(all, found@) == first_found_from(all, found@, i as int),
        decreases candidates.len() - i,
    {
        assert(all[i as int] == candidates@[i as int]@);
        if candidates[i].as_str().unicode_len() > 0 && i < found.len() && found[i] {
            return Some(i);
        }
        i += 1;
    }
    None
}

/// The name of the server binary on `platform`.
pub fn binary_name(platform: Platform) -> (r: &'static str)
    ensures
        r@ == match platform {
            Platform::Other => "memos.exe"@,
            Platform::Posix => "memos"@,
        },
{
    match platform {
        Platform::Other => "memos.exe",
        Platform::Posix => "memos",
    }
}

/// The directories where the server binary is looked for, in order: the
/// launcher's working directory, its data directory, and the places where
/// the platform keeps such programs.
pub open spec fn search_directories(
    config: RuntimeConfigView,
    platform: Platform,
    program_data: Option<Seq<char>>,
) -> Seq<Seq<char>> {
    let own = seq![config.paths.memospot_cwd, config.paths.memospot_data];
    match platform {
        Platform::Posix => own + seq!["/usr/local/bin"@, "/var/opt/memos"@, "/usr/local/memos"@],
        Platform::Other => match program_data {
            Some(dir) => own.push(path_join(dir, "memos"@)),
            None => own,
        },
    }
}

/// The directories where the server binary is looked for.
pub fn memos_search_directories(
    rtcfg: &RuntimeConfig,
    platform: Platform,
    program_data: Option<&str>,
) -> (r: Vec<String>)
    ensures
        r.deep_view() == search_directories(
            rtcfg@,
            platform,
            match program_data {
                Some(dir) => Some(dir@),
                None => None,
            },
        ),
{
    let mut dirs: Vec<String> = Vec::new();
    dirs.push(rtcfg.paths.memospot_cwd.clone());
    dirs.push(rtcfg.paths.memospot_data.clone());
    match platform {
        Platform::Posix => {
            dirs.push(String::from_str("/usr/local/bin"));
            dirs.push(String::from_str("/var/opt/memos"));
            dirs.push(String::from_str("/usr/local/memos"));
        },
        Platform::Other => match program_data {
            Some(dir) => {
                dirs.push(join(dir, "memos"));
            },
            None => {},
        },
    }
    assert(dirs.deep_view() =~= search_directories(
        rtcfg@,
        platform,
        match program_data {
            Some(dir) => Some(dir@),
            None => None,
        },
    ));
    dirs
}

/// The paths where the server binary is looked for: the binary's name in
/// every one of `directories`.
pub fn memos_candidates(directories: &Vec<String>, platform: Platform) -> (r: Vec<String>)
    ensures
        r.len() == directories.len(),
        forall|i: int|
            0 <= i < r.len() ==> (#[trigger] r@[i])@ == path_join(
                directories@[i]@,
                match platform {
                    Platform::Other => "memos.exe"@,
                    Platform::Posix => "memos"@,
                },
            ),
{
    let name = binary_name(platform);
    let mut paths: Vec<String> = Vec::new();
    let mut i: usize = 0;
    while i < directories.len()
        invariant
            i <= directories.len(),
            paths.len() == i,
            name@ == match platform {
                Platform::Other => "memos.exe"@,
                Platform::Posix => "memos"@,
            },
            forall|j: int| 0 <= j < i ==> (#[trigger] paths@[j])@ == path_join(directories@[j]@, name@),
        decreases directories.len() - i,
    {
        paths.push(join(directories[i].as_str(), name));
        i += 1;
    }
    paths
}

/// The server binary: the configured one if it is a file, else the first
/// of `candidates` that `is_file` says is a file. Without any, the
/// launcher cannot go on.
pub fn find_memos(
    configured: Option<String>,
    configured_is_file: bool,
    candidates: Vec<String>,
    is_file: &Vec<bool>,
) -> (r: Option<String>)
    ensures
        match configured {
            Some(path) if configured_is_file => r == Some(path),
            _ => match r {
                Some(path) => {
                    let i = first_found(candidates.deep_view(), is_file@);
                    0 <= i < candidates.len() && path@ == candidates@[i]@
                },
                None => first_found(candidates.deep_view(), is_file@) == candidates.len(),
            },
        },
{
    match configured {
        Some(path) => {
            if configured_is_file {
                return Some(path);
            }
        },
        None => {},
    }
    match pick_first(&candidates, is_file) {
        Some(i) => Some(candidates[i].clone()),
        None => None,
    }
}

/// The configured path `configured`, if it is set and not blank, given its
/// expansion `expanded`: its absolute form, or the empty path if it has
/// none.
pub open spec fn configured_path(
    configured: Option<Seq<char>>,
    expanded: Result<String, Error>,
    current_dir: Option<Seq<char>>,
) -> Option<Seq<char>> {
    if trimmed_or_empty(configured).len() == 0 {
        None
    } else {
        Some(resolved(expanded, current_dir, Seq::empty()))
    }
}

/// The path of the server binary that the configuration names, if it
/// names one: with its tilde expanded, in absolute form.
pub fn configured_binary(rtcfg: &RuntimeConfig, current_dir: Option<&str>) -> (r: Option<String>)
    ensures
        exists|expanded: Result<String, Error>|
            is_expansion(trimmed_or_empty(rtcfg@.yaml.memos.binary_path), expanded)
                && r.deep_view() == configured_path(
                rtcfg@.yaml.memos.binary_path,
                expanded,
                match current_dir {
                    Some(dir) => Some(dir@),
                    None => None,
                },
            ),
{
    let text = trimmed_text(&rtcfg.yaml.memos.binary_path);
    let path = string_of(&text);
    let expanded = path.expand_home();
    let ghost witness = expanded;
    if text.len() == 0 {
        assert(configured_path(
            rtcfg@.yaml.memos.binary_path,
            witness,
            match current_dir {
                Some(dir) => Some(dir@),
                None => None,
            },
        ) is None);
        None
    } else {
        proof {
            reveal_strlit("");
            assert(""@ =~= Seq::<char>::empty());
        }
        let r = Some(resolve(expanded, current_dir, ""));
        assert(r.deep_view() == configured_path(
            rtcfg@.yaml.memos.binary_path,
            witness,
            match current_dir {
                Some(dir) => Some(dir@),
                None => None,
            },
        ));
        r
    }
}

/// The directories where the server's static assets are looked for, in
/// order: the configured working directory if it resolves, the resource
/// directory of the installation, the launcher's data directory and its
/// working directory.
pub open spec fn working_directories(
    config: RuntimeConfigView,
    configured: Option<Seq<char>>,
    resource_dir: Seq<char>,
) -> Seq<Seq<char>> {
    let rest = seq![
        strip_leading(resource_dir, "\\\\?\\"@),
        config.paths.memospot_data,
        config.paths.memospot_cwd,
    ];
    match configured {
        Some(dir) => seq![dir] + rest,
        None => rest,
    }
}

/// The directories where the server's static assets are looked for, where
/// `configured` is the configured working directory in absolute form, if
/// one is configured and resolves.
pub fn cwd_candidates(rtcfg: &RuntimeConfig, configured: Option<String>, resource_dir: &str) -> (r:
    Vec<String>)
    ensures
        r.deep_view() == working_directories(rtcfg@, configured.deep_view(), resource_dir@),
{
    let mut dirs: Vec<String> = Vec::new();
    match configured {
        Some(dir) => {
            dirs.push(dir);
        },
        None => {},
    }
    let plain = without_leading(&chars_of(resource_dir), &chars_of("\\\\?\\"));
    dirs.push(string_of(&plain));
    dirs.push(rtcfg.paths.memospot_data.clone());
    dirs.push(rtcfg.paths.memospot_cwd.clone());
    assert(dirs.deep_view() =~= working_directories(
        rtcfg@,
        configured.deep_view(),
        resource_dir@,
    ));
    dirs
}

/// The working directory of the server: the first of `candidates` that is
/// not empty and has the folder of static assets, as `has_assets` says;
/// the launcher's data directory if none has.
pub fn get_cwd(rtcfg: &RuntimeConfig, candidates: &Vec<String>, has_assets: &Vec<bool>) -> (r:
    String)
    ensures
        ({
            let i = first_found(candidates.deep_view(), has_assets@);
            r@ == if 0 <= i < candidates.len() {
                candidates@[i]@
            } else {
                rtcfg@.paths.memospot_data
            }
        }),
{
    match pick_first(candidates, has_assets) {
        Some(i) => candidates[i].clone(),
        None => rtcfg.paths.memospot_data.clone(),
    }
}

/// The name of the folder of backups inside the launcher's data directory.
pub const BACKUP_FOLDER: &'static str = "backups";

/// The backup directory for the expansion `expanded` of the configured
/// one: the folder of backups in the launcher's data directory if none is
/// configured, else what the configured one resolves to.
pub open spec fn backup_directory(
    config: RuntimeConfigView,
    expanded: Result<String, Error>,
    current_dir: Option<Seq<char>>,
) -> Seq<char> {
    let configured = trimmed_or_empty(config.yaml.memospot.backups.path);
    let own = path_join(config.paths.memospot_data, BACKUP_FOLDER@);
    if is_own_directory(configured) || configured == BACKUP_FOLDER@ {
        own
    } else {
        resolved(expanded, current_dir, own)
    }
}

/// The backup directory, given the expansion `expanded` of the configured
/// one. The caller creates it if it is missing and makes sure that it is a
/// writable directory.
pub fn ensure_backup_directory(
    rtcfg: &RuntimeConfig,
    expanded: Result<String, Error>,
    current_dir: Option<&str>,
) -> (r: String)
    ensures
        r@ == backup_directory(
            rtcfg@,
            expanded,
            match current_dir {
                Some(dir) => Some(dir@),
                None => None,
            },
        ),
{
    let own = join(rtcfg.paths.memospot_data.as_str(), BACKUP_FOLDER);
    let configured = trimmed_text(&rtcfg.yaml.memospot.backups.path);
    if configured.len() == 0 || same_chars(&configured, &chars_of(".")) || same_chars(
        &configured,
        &chars_of(BACKUP_FOLDER),
    ) {
        own
    } else {
        resolve(expanded, current_dir, own.as_str())
    }
}

} // verus!
