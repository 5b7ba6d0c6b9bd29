//! Rewriting the paths of stored resources from absolute to relative.

use vstd::prelude::*;
use crate::text::{
    after_last, chars_of, find_match, has_char, has_match, last_piece, lemma_first_match,
    push_all, same_chars, string_of, strip_leading, with_replaced, without_leading,
};

verus! {

/// `path` with a separator at its end: a slash if it has slashes, else a
/// backslash if it has backslashes; nothing is added where the separator
/// is there, or where the path has neither.
pub open spec fn with_suffix(path: Seq<char>) -> Seq<char> {
    if path.contains('/') && path.last() != '/' {
        path.push('/')
    } else if path.contains('\\') && path.last() != '\\' {
        path.push('\\')
    } else {
        path
    }
}

/// Normalizes the end of `path`, so that it ends with a directory
/// separator.
pub fn norm_suffix(path: &str) -> (r: String)
    ensures
        r@ == with_suffix(path@),
{
    let mut chars = chars_of(path);
    if has_char(&chars, '/') && chars[chars.len() - 1] != '/' {
        chars.push('/');
    } else if has_char(&chars, '\\') && chars[chars.len() - 1] != '\\' {
        chars.push('\\');
    }
    string_of(&chars)
}

/// `s` with every pair of slashes replaced by one slash, from left to
/// right: of three slashes in a row two remain.
pub open spec fn halve_slashes(s: Seq<char>) -> Seq<char>
    decreases s.len(),
{
    if s.len() >= 2 && s[0] == '/' && s[1] == '/' {
        seq!['/'] + halve_slashes(s.skip(2))
    } else if s.len() > 0 {
        seq![s[0]] + halve_slashes(s.skip(1))
    } else {
        Seq::empty()
    }
}

/// `path` with slashes for backslashes, and then one slash for every pair
/// of slashes.
pub open spec fn slashed(path: Seq<char>) -> Seq<char> {
    halve_slashes(crate::text::replace_char(path, '\\', '/'))
}

/// Converts all backslashes of `path` to slashes and replaces doubled
/// slashes by single ones.
pub fn to_slash(path: &str) -> (r: String)
    ensures
        r@ == slashed(path@),
{
    let v = with_replaced(&chars_of(path), '\\', '/');
    let mut out: Vec<char> = Vec::new();
    let mut i: usize = 0;
    assert(v@.skip(0) == v@);
    assert(out@ + halve_slashes(v@) == halve_slashes(v@));
    while i < v.len()
        invariant
            i <= v.len(),
            out@ + halve_slashes(v@.skip(i as int)) == halve_slashes(v@),
        decreases v.len() - i,
    {
        let ghost rest = v@.skip(i as int);
        if i + 1 < v.len() && v[i] == '/' && v[i + 1] == '/' {
            assert(rest.skip(2) == v@.skip(i + 2));
            assert(halve_slashes(rest) == seq!['/'] + halve_slashes(rest.skip(2)));
            out.push('/');
            assert(out@ + halve_slashes(v@.skip(i + 2)) == halve_slashes(v@));
            i += 2;
        } else {
            assert(rest.skip(1) == v@.skip(i + 1));
            assert(halve_slashes(rest) == seq![rest[0]] + halve_slashes(rest.skip(1)));
            out.push(v[i]);
            assert(out@ + halve_slashes(v@.skip(i + 1)) == halve_slashes(v@));
            i += 1;
        }
    }
    assert(halve_slashes(v@.skip(v.len() as int)) == Seq::<char>::empty());
    assert(out@ + Seq::<char>::empty() == out@);
    string_of(&out)
}

/// `paths` without the paths that occur earlier in it.
pub open spec fn unique(paths: Seq<Seq<char>>) -> Seq<Seq<char>>
    decreases paths.len(),
{
    if paths.len() == 0 {
        Seq::empty()
    } else if paths.drop_last().contains(paths.last()) {
        unique(paths.drop_last())
    } else {
        unique(paths.drop_last()).push(paths.last())
    }
}

/// The directories that resources may have been stored in, each with a
/// separator at its end: the system-wide place, the launcher's data
/// directory `data_path` and its working directory `cwd`, and, where the
/// system has one, the folder of the server in `program_data`.
pub open spec fn known_paths(
    data_path: Seq<char>,
    cwd: Seq<char>,
    program_data: Option<Seq<char>>,
) -> Seq<Seq<char>> {
    let own = seq!["/var/opt/memos/"@, with_suffix(data_path), with_suffix(cwd)];
    match program_data {
        Some(dir) => own.push(dir + "\\memos\\"@),
        None => own,
    }
}

fn occurs(paths: &Vec<String>, upto: usize, path: &str) -> (r: bool)
    requires
        upto <= paths.len(),
    ensures
        r == paths.deep_view().take(upto as int).contains(path@),
{
    let wanted = chars_of(path);
    let ghost all = paths.deep_view();
    let mut i: usize = 0;
    while i < upto
        invariant
            i <= upto <= paths.len(),
            all == paths.deep_view(),
            wanted@ == path@,
            forall|j: int| 0 <= j < i ==> all[j] != path@,
        decreases upto - i,
    {
        if same_chars(&chars_of(paths[i].as_str()), &wanted) {
            assert(all.take(upto as int)[i as int] == path@);
            return true;
        }
        i += 1;
    }
    assert forall|j: int| 0 <= j < all.take(upto as int).len() implies all.take(upto as int)[j]
        != path@ by {
        assert(all.take(upto as int)[j] == all[j]);
    }
    false
}

/// The list of directories that resources may have been stored in,
/// without repetitions.
pub fn build_path_list(data_path: &str, cwd: &str, program_data: Option<&str>) -> (r: Vec<String>)
    ensures
        r.deep_view() == unique(
            known_paths(
                data_path@,
                cwd@,
                match program_data {
                    Some(dir) => Some(dir@),
                    None => None,
                },
            ),
        ),
{
    let mut paths: Vec<String> = Vec::new();
    paths.push(String::from_str("/var/opt/memos/"));
    paths.push(norm_suffix(data_path));
    paths.push(norm_suffix(cwd));
    match program_data {
        Some(dir) => {
            paths.push(crate::text::joined(dir, "\\memos\\"));
        },
        None => {},
    }
    let ghost all = paths.deep_view();
    assert(all =~= known_paths(
        data_path@,
        cwd@,
        match program_data {
            Some(dir) => Some(dir@),
            None => None,
        },
    ));
    let mut kept: Vec<String> = Vec::new();
    let mut i: usize = 0;
    assert(all.take(0) =~= Seq::empty());
    assert(kept.deep_view() =~= Seq::empty());
    while i < paths.len()
        invariant
            i <= paths.len(),
            all == paths.deep_view(),
            kept.deep_view() == unique(all.take(i as int)),
        decreases paths.len() - i,
    {
        assert(all.take(i + 1).drop_last() == all.take(i as int));
        assert(all.take(i + 1).last() == paths@[i as int]@);
        if !occurs(&paths, i, paths[i].as_str()) {
            let ghost before = kept.deep_view();
            kept.push(paths[i].clone());
            assert(kept.deep_view() =~= before.push(paths@[i as int]@));
        }
        i += 1;
    }
    assert(all.take(paths.len() as int) == all);
    kept
}

/// Whether the value `value` of the storage setting is in the current
/// format: it names the kind of storage, the template of file paths and the
/// limit of uploads.
pub fn is_current_storage_setting(value: &str) -> (r: bool)
    ensures
        r == (has_match(value@, "storageType"@) && has_match(value@, "filepathTemplate"@)
            && has_match(value@, "uploadSizeLimitMb"@)),
{
    let chars = chars_of(value);
    contains(&chars, "storageType") && contains(&chars, "filepathTemplate") && contains(
        &chars,
        "uploadSizeLimitMb",
    )
}

fn contains(chars: &Vec<char>, pattern: &str) -> (r: bool)
    ensures
        r == has_match(chars@, pattern@),
{
    let pat = chars_of(pattern);
    let at = find_match(chars, &pat, 0);
    proof {
        assert(chars@.skip(0) == chars@);
        lemma_first_match(chars@, pat@);
    }
    pat.len() <= chars.len() - at
}

/// `reference` without the copies of every one of `prefixes` at its
/// start, taken off in the order of `prefixes`.
pub open spec fn without_prefixes(reference: Seq<char>, prefixes: Seq<Seq<char>>) -> Seq<char>
    decreases prefixes.len(),
{
    if prefixes.len() == 0 {
        reference
    } else {
        strip_leading(without_prefixes(reference, prefixes.drop_last()), prefixes.last())
    }
}

/// `path`, if it leads through a folder of assets, from that folder on.
pub open spec fn from_assets(path: Seq<char>) -> Seq<char> {
    if has_match(path, "/assets/"@) {
        "assets/"@ + last_piece(path, "/assets/"@)
    } else {
        path
    }
}

/// The relative path of the resource stored under `reference`: the known
/// absolute `prefixes` are taken off, backslashes become slashes, a path
/// through a folder of assets begins at that folder, and no slash leads.
pub open spec fn relative_reference(reference: Seq<char>, prefixes: Seq<Seq<char>>) -> Seq<char> {
    strip_leading(from_assets(slashed(without_prefixes(reference, prefixes))), "/"@)
}

/// The relative path of the resource stored under `reference`, where
/// `prefixes` are the directories that resources were stored in.
pub fn relative_path(reference: &str, prefixes: &Vec<String>) -> (r: String)
    ensures
        r@ == relative_reference(reference@, prefixes.deep_view()),
{
    let ghost known = prefixes.deep_view();
    let mut path = chars_of(reference);
    let mut i: usize = 0;
    assert(known.take(0) =~= Seq::empty());
    while i < prefixes.len()
        invariant
            i <= prefixes.len(),
            known == prefixes.deep_view(),
            path@ == without_prefixes(reference@, known.take(i as int)),
        decreases prefixes.len() - i,
    {
        assert(known.take(i + 1).drop_last() == known.take(i as int));
        assert(known.take(i + 1).last() == prefixes@[i as int]@);
        path = without_leading(&path, &chars_of(prefixes[i].as_str()));
        i += 1;
    }
    assert(known.take(prefixes.len() as int) == known);
    let text = string_of(&path);
    let plain = chars_of(to_slash(text.as_str()).as_str());
    let marker = chars_of("/assets/");
    proof {
        reveal_strlit("/assets/");
        lemma_first_match(plain@, marker@);
    }
    let at = find_match(&plain, &marker, 0);
    assert(plain@.skip(0) == plain@);
    let inner = if at < plain.len() && marker.len() <= plain.len() - at {
        let mut kept = chars_of("assets/");
        push_all(&mut kept, &after_last(&plain, &marker));
        kept
    } else {
        plain
    };
    assert(inner@ == from_assets(slashed(without_prefixes(reference@, known))));
    string_of(&without_leading(&inner, &chars_of("/")))
}

/// Whether the reference of a resource has to be rewritten: its relative
/// path differs from it.
pub fn needs_update(reference: &str, relative: &str) -> (r: bool)
    ensures
        r == (reference@ != relative@),
{
    !same_chars(&chars_of(reference), &chars_of(relative))
}

/// The kind of storage that the identifier `service_id` of a storage
/// service stands for.
pub open spec fn storage_kind(service_id: Option<int>) -> Seq<char> {
    match service_id {
        None => "LOCAL"@,
        Some(id) => if id == -1 {
            "LOCAL"@
        } else if id == 0 {
            "DATABASE"@
        } else {
            "S3"@
        },
    }
}

/// The kind of storage for the identifier `service_id` of the storage
/// service, `None` if the setting is no number: the local file system for
/// -1 or no number, the database for 0, an object store for anything else.
pub fn storage_type(service_id: Option<i32>) -> (r: &'static str)
    ensures
        r@ == storage_kind(
            match service_id {
                Some(id) => Some(id as int),
                None => None,
            },
        ),
{
    match service_id {
        None => "LOCAL",
        Some(id) => {
            if id == -1 {
                "LOCAL"
            } else if id == 0 {
                "DATABASE"
            } else {
                "S3"
            }
        },
    }
}

/// How many progress reports a migration of `total` resources is divided
/// into.
pub open spec fn report_steps(total: nat) -> nat {
    if total <= 100 {
        1
    } else if total <= 1000 {
        10
    } else if total <= 10000 {
        20
    } else if total <= 100000 {
        50
    } else if total <= 1000000 {
        100
    } else {
        100000
    }
}

/// After how many resources the progress of a migration of `total`
/// resources is reported.
pub fn log_interval(total: usize) -> (r: usize)
    ensures
        r == total as nat / report_steps(total as nat),
{
    let steps: usize = if total <= 100 {
        1
    } else if total <= 1000 {
        10
    } else if total <= 10000 {
        20
    } else if total <= 100000 {
        50
    } else if total <= 1000000 {
        100
    } else {
        100000
    };
    total / steps
}

} // verus!
