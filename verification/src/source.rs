//! Resolving a handler source descriptor into a loadable local module.
//!
//! A source string is either a remote URL (it contains a scheme separator)
//! or a local filesystem path. A remote source is fetched to a deterministic
//! target path derived from the node and operator identity; a local path is
//! used as it stands. The resolved path must exist and is canonicalized by
//! the caller; from it the loop derives the directory to register on the
//! guest module search path and the module name to import.
//!
//! Paths are modeled as strings with `/` as the separator, which is what a
//! canonicalized path uses on the platforms this host runs on.

use vstd::prelude::*;
use crate::events::SessionError;

verus! {

/// A source is remote exactly when it contains the `://` scheme separator.
pub open spec fn is_url_source(s: Seq<char>) -> bool {
    exists|i: int|
        0 <= i && i + 3 <= s.len() && #[trigger] s[i] == ':' && s[i + 1] == '/' && s[i + 2] == '/'
}

/// Decide whether a source descriptor is a remote URL or a local path.
pub fn source_is_url(source: &str) -> (r: bool)
    ensures
        r == is_url_source(source@),
{
    let n = source.unicode_len();
    if n < 3 {
        return false;
    }
    let mut i: usize = 0;
    while i <= n - 3
        invariant
            3 <= n == source@.len(),
            i <= n - 2,
            forall|k: int|
                0 <= k < i ==> !(#[trigger] source@[k] == ':' && source@[k + 1] == '/'
                    && source@[k + 2] == '/'),
        decreases n - i,
    {
        if source.get_char(i) == ':' && source.get_char(i + 1) == '/' && source.get_char(i + 2)
            == '/' {
            return true;
        }
        i = i + 1;
    }
    false
}

/// The deterministic local cache path a remote source is fetched to, built
/// from the node and operator identity.
pub open spec fn download_target_for(node_id: Seq<char>, operator_id: Seq<char>) -> Seq<char> {
    "build/"@ + node_id + "/"@ + operator_id + ".py"@
}

/// Build the local cache path for a remote source.
pub fn target_download_path(node_id: &str, operator_id: &str) -> (r: String)
    ensures
        r@ == download_target_for(node_id@, operator_id@),
{
    let mut r = String::from_str("build/");
    r.append(node_id);
    r.append("/");
    r.append(operator_id);
    r.append(".py");
    proof {
        assert(r@ =~= download_target_for(node_id@, operator_id@));
    }
    r
}

/// How a source descriptor is materialized: a local path is used as it
/// stands; a URL is fetched to the derived target path first.
#[derive(Clone, Debug)]
pub enum SourcePlan {
    Local { path: String },
    Download { url: String, target_path: String },
}

/// Classify a source descriptor and fix where its module file will live.
pub fn plan_source(source: &str, node_id: &str, operator_id: &str) -> (r: SourcePlan)
    ensures
        is_url_source(source@) ==> (r matches SourcePlan::Download { url, target_path } && url@
            == source@ && target_path@ == download_target_for(node_id@, operator_id@)),
        !is_url_source(source@) ==> (r matches SourcePlan::Local { path } && path@ == source@),
{
    if source_is_url(source) {
        SourcePlan::Download {
            url: source.to_owned(),
            target_path: target_download_path(node_id, operator_id),
        }
    } else {
        SourcePlan::Local { path: source.to_owned() }
    }
}

/// Accept a materialized path only if it exists on disk and could be
/// canonicalized; a missing or non-canonicalizable file is the fatal
/// `SourceNotFound` initialization error. `exists` and `canonical` are the
/// filesystem's answers for `path`, supplied by the caller.
pub fn check_resolved(path: String, exists: bool, canonical: Option<String>) -> (r: Result<
    String,
    SessionError,
>)
    ensures
        !exists ==> r == Err::<String, SessionError>(SessionError::SourceNotFound { path }),
        exists ==> (match canonical {
            Some(c) => r == Ok::<String, SessionError>(c),
            None => r == Err::<String, SessionError>(SessionError::SourceNotFound { path }),
        }),
{
    if !exists {
        Err(SessionError::SourceNotFound { path })
    } else {
        match canonical {
            Some(c) => Ok(c),
            None => Err(SessionError::SourceNotFound { path }),
        }
    }
}

/// The index of the last occurrence of `c` in `s`, or `-1` if absent.
pub open spec fn last_index_of(s: Seq<char>, c: char) -> int
    decreases s.len(),
{
    if s.len() == 0 {
        -1
    } else if s[s.len() - 1] == c {
        s.len() - 1
    } else {
        last_index_of(s.drop_last(), c)
    }
}

proof fn lemma_last_index_of_found(s: Seq<char>, c: char, j: int)
    requires
        0 <= j < s.len(),
        s[j] == c,
        forall|k: int| j < k < s.len() ==> s[k] != c,
    ensures
        last_index_of(s, c) == j,
    decreases s.len(),
{
    if j < s.len() - 1 {
        lemma_last_index_of_found(s.drop_last(), c, j);
    }
}

proof fn lemma_last_index_of_absent(s: Seq<char>, c: char)
    requires
        forall|k: int| 0 <= k < s.len() ==> s[k] != c,
    ensures
        last_index_of(s, c) == -1,
    decreases s.len(),
{
    if s.len() > 0 {
        lemma_last_index_of_absent(s.drop_last(), c);
    }
}

/// The directory part of a path: everything before the last `/`, or the
/// root itself if the last `/` is the first character; a path without `/`
/// has no parent directory.
pub open spec fn parent_of(path: Seq<char>) -> Option<Seq<char>> {
    let j = last_index_of(path, '/');
    if j < 0 {
        Option::None
    } else if j == 0 {
        Option::Some("/"@)
    } else {
        Option::Some(path.subrange(0, j))
    }
}

/// The file-name part of a path: everything after the last `/`, or the
/// whole path if it has none.
pub open spec fn file_name_of(path: Seq<char>) -> Seq<char> {
    path.subrange(last_index_of(path, '/') + 1, path.len() as int)
}

/// The module stem of a path's file name: the part before the last `.`,
/// except that a name whose only `.` leads it (or that has none) is its own
/// stem; an empty file name has no stem.
pub open spec fn file_stem_of(path: Seq<char>) -> Option<Seq<char>> {
    let name = file_name_of(path);
    if name.len() == 0 {
        Option::None
    } else {
        let d = last_index_of(name, '.');
        if d <= 0 {
            Option::Some(name)
        } else {
            Option::Some(name.subrange(0, d))
        }
    }
}

/// Find the index of the last occurrence of `c` in `s`, if any.
fn find_last(s: &str, c: char) -> (r: Option<usize>)
    ensures
        match r {
            Some(j) => last_index_of(s@, c) == j as int && (j as int) < s@.len(),
            None => last_index_of(s@, c) == -1,
        },
{
    let n = s.unicode_len();
    let mut i = n;
    while i > 0
        invariant
            n == s@.len(),
            i <= n,
            forall|k: int| i <= k < n ==> s@[k] != c,
        decreases i,
    {
        if s.get_char(i - 1) == c {
            proof {
                lemma_last_index_of_found(s@, c, i - 1);
            }
            return Some(i - 1);
        }
        i = i - 1;
    }
    proof {
        lemma_last_index_of_absent(s@, c);
    }
    None
}

/// The directory to register on the guest module search path for a resolved
/// path, per [`parent_of`].
pub fn parent_directory(path: &str) -> (r: Option<String>)
    ensures
        match r {
            Some(p) => parent_of(path@) == Option::Some(p@),
            None => parent_of(path@) is None,
        },
{
    match find_last(path, '/') {
        None => None,
        Some(j) => {
            if j == 0 {
                let root = String::from_str("/");
                proof {
                    reveal_strlit("/");
                    assert(root@ =~= "/"@);
                }
                Some(root)
            } else {
                Some(path.substring_char(0, j).to_owned())
            }
        },
    }
}

/// The module name to import for a resolved path, per [`file_stem_of`];
/// `None` is the fatal `NoFileStem` initialization error.
pub fn module_file_stem(path: &str) -> (r: Option<String>)
    ensures
        match r {
            Some(s) => file_stem_of(path@) == Option::Some(s@),
            None => file_stem_of(path@) is None,
        },
{
    let n = path.unicode_len();
    let start = match find_last(path, '/') {
        None => 0,
        Some(j) => j + 1,
    };
    let name = path.substring_char(start, n);
    if name.unicode_len() == 0 {
        return None;
    }
    match find_last(name, '.') {
        None => Some(name.to_owned()),
        Some(d) => {
            if d == 0 {
                Some(name.to_owned())
            } else {
                Some(name.substring_char(0, d).to_owned())
            }
        },
    }
}

/// Derive the guest import plan from a resolved module path: the directory
/// to put on the search path (absent for a bare file name) and the module
/// name to import. A path without a file stem cannot be imported and is the
/// fatal `NoFileStem` error.
pub fn import_plan(path: &str) -> (r: Result<(Option<String>, String), SessionError>)
    ensures
        file_stem_of(path@) is None ==> r == Err::<(Option<String>, String), SessionError>(
            SessionError::NoFileStem,
        ),
        file_stem_of(path@) matches Some(stem) ==> (r matches Ok((parent, name)) && name@ == stem
            && (match parent {
            Some(p) => parent_of(path@) == Option::Some(p@),
            None => parent_of(path@) is None,
        })),
{
    match module_file_stem(path) {
        None => Err(SessionError::NoFileStem),
        Some(name) => Ok((parent_directory(path), name)),
    }
}

} // verus!
