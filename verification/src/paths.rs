//! A plain-text model of filesystem paths.
//!
//! The library works on paths as strings of characters with `'/'` as the
//! component separator. A path handed to these functions is expected to name
//! its file directly, without a trailing separator; the functions state
//! exactly what they compute on every string, and the shell that talks to
//! the operating system supplies real absolute paths.

use vstd::prelude::*;
use vstd::string::*;

use crate::error::Error;

verus! {

/// The index of the last occurrence of `c` in `s`, if any.
pub open spec fn last_index_of_char(s: Seq<char>, c: char) -> Option<int>
    decreases s.len(),
{
    if s.len() == 0 {
        None
    } else if s.last() == c {
        Some(s.len() - 1)
    } else {
        last_index_of_char(s.drop_last(), c)
    }
}

/// What `last_index_of_char` returns: the position it names holds `c` and no
/// later position does; `None` means `c` does not occur at all.
pub proof fn lemma_last_index_of_char(s: Seq<char>, c: char)
    ensures
        match last_index_of_char(s, c) {
            Some(j) => 0 <= j < s.len() && s[j] == c && forall|k: int|
                j < k < s.len() ==> s[k] != c,
            None => forall|k: int| 0 <= k < s.len() ==> s[k] != c,
        },
    decreases s.len(),
{
    if s.len() > 0 && s.last() != c {
        lemma_last_index_of_char(s.drop_last(), c);
        assert(forall|k: int| 0 <= k < s.len() - 1 ==> s.drop_last()[k] == s[k]);
    }
}

/// A position that holds `c` with none after it is the last occurrence.
pub proof fn lemma_last_index_of_char_witness(s: Seq<char>, c: char, j: int)
    requires
        0 <= j < s.len(),
        s[j] == c,
        forall|k: int| j < k < s.len() ==> s[k] != c,
    ensures
        last_index_of_char(s, c) == Some(j),
    decreases s.len(),
{
    if j == s.len() - 1 {
    } else {
        lemma_last_index_of_char_witness(s.drop_last(), c, j);
    }
}

/// The path of the file named `name` inside directory `dir`: the two joined
/// by a separator, unless the directory is empty or already ends in one.
pub open spec fn spec_join(dir: Seq<char>, name: Seq<char>) -> Seq<char> {
    if dir.len() == 0 {
        name
    } else if dir.last() == '/' {
        dir + name
    } else {
        dir + seq!['/'] + name
    }
}

/// The directory that contains `s`: the part before the last separator.
/// A lone `"/"` and the empty string have no parent; a bare file name has
/// the empty parent; the parent of a file directly under the root is `"/"`.
pub open spec fn spec_parent(s: Seq<char>) -> Option<Seq<char>> {
    if s.len() == 0 {
        None
    } else if s.len() == 1 && s[0] == '/' {
        None
    } else {
        match last_index_of_char(s, '/') {
            None => Some(Seq::empty()),
            Some(j) => if j == 0 {
                Some(seq!['/'])
            } else {
                Some(s.subrange(0, j))
            },
        }
    }
}

/// The final component of `s`: everything after the last separator, or all
/// of `s` if it has none.
pub open spec fn spec_file_name(s: Seq<char>) -> Seq<char> {
    match last_index_of_char(s, '/') {
        Some(j) => s.subrange(j + 1, s.len() as int),
        None => s,
    }
}

/// The file name of `s` without its extension: the part of the final
/// component before its last `'.'`, except that a name whose only `'.'`
/// leads it (a hidden file) is kept whole. A path with an empty final
/// component has no stem.
pub open spec fn spec_file_stem(s: Seq<char>) -> Option<Seq<char>> {
    let name = spec_file_name(s);
    if name.len() == 0 {
        None
    } else {
        match last_index_of_char(name, '.') {
            Some(j) => if j == 0 {
                Some(name)
            } else {
                Some(name.subrange(0, j))
            },
            None => Some(name),
        }
    }
}

/// The index of the last occurrence of `c` in `s`, or `None`.
pub fn last_char_index(s: &str, c: char) -> (r: Option<usize>)
    ensures
        match r {
            Some(j) => last_index_of_char(s@, c) == Some(j as int),
            None => last_index_of_char(s@, c) is None,
        },
{
    let n = s.unicode_len();
    let mut i: usize = n;
    while i > 0
        invariant
            i <= n == s@.len(),
            forall|k: int| i <= k < s@.len() ==> s@[k] != c,
        decreases i,
    {
        i = i - 1;
        let ch = s.get_char(i);
        if ch == c {
            proof {
                lemma_last_index_of_char_witness(s@, c, i as int);
            }
            return Some(i);
        }
    }
    proof {
        lemma_last_index_of_char(s@, c);
    }
    None
}

/// Joins a file `name` onto a directory path, inserting a separator unless
/// the directory is empty or already ends in one.
pub fn join_path(dir: &str, name: &str) -> (r: String)
    ensures
        r@ == spec_join(dir@, name@),
{
    proof {
        reveal_strlit("/");
    }
    let n = dir.unicode_len();
    if n == 0 {
        let r = name.to_owned();
        assert(r@ =~= spec_join(dir@, name@));
        r
    } else if dir.get_char(n - 1) == '/' {
        let r = dir.to_owned().concat(name);
        assert(r@ =~= spec_join(dir@, name@));
        r
    } else {
        let r = dir.to_owned().concat("/").concat(name);
        assert(r@ =~= spec_join(dir@, name@));
        r
    }
}

/// The directory containing `s`, per `spec_parent`.
pub fn parent_dir(s: &str) -> (r: Option<String>)
    ensures
        match r {
            Some(p) => spec_parent(s@) == Some(p@),
            None => spec_parent(s@) is None,
        },
{
    proof {
        reveal_strlit("/");
    }
    let n = s.unicode_len();
    if n == 0 {
        return None;
    }
    if n == 1 && s.get_char(0) == '/' {
        return None;
    }
    match last_char_index(s, '/') {
        None => {
            let r = String::new();
            assert(r@ =~= Seq::<char>::empty());
            Some(r)
        },
        Some(j) => {
            proof {
                lemma_last_index_of_char(s@, '/');
            }
            if j == 0 {
                let r = String::from_str("/");
                assert(r@ =~= seq!['/']);
                Some(r)
            } else {
                Some(s.substring_char(0, j).to_owned())
            }
        },
    }
}

/// The final component of `s`, per `spec_file_name`.
pub fn file_name_of(s: &str) -> (r: String)
    ensures
        r@ == spec_file_name(s@),
{
    match last_char_index(s, '/') {
        None => s.to_owned(),
        Some(j) => {
            proof {
                lemma_last_index_of_char(s@, '/');
            }
            let n = s.unicode_len();
            s.substring_char(j + 1, n).to_owned()
        },
    }
}

/// The stem of `s`'s final component, per `spec_file_stem`.
pub fn file_stem_of(s: &str) -> (r: Option<String>)
    ensures
        match r {
            Some(stem) => spec_file_stem(s@) == Some(stem@),
            None => spec_file_stem(s@) is None,
        },
{
    let name = file_name_of(s);
    let n = name.as_str().unicode_len();
    if n == 0 {
        return None;
    }
    match last_char_index(name.as_str(), '.') {
        None => Some(name),
        Some(j) => {
            proof {
                lemma_last_index_of_char(name@, '.');
            }
            if j == 0 {
                Some(name)
            } else {
                Some(name.as_str().substring_char(0, j).to_owned())
            }
        },
    }
}

/// The stem used for the per-application subdirectory: the stem of the
/// binary's path when the platform could determine one, the fixed fallback
/// `"default"` when it could not, and nothing when the determined path has
/// no file-name component.
pub open spec fn spec_exe_stem(exe: Result<String, Error>) -> Option<Seq<char>> {
    match exe {
        Ok(p) => spec_file_stem(p@),
        Err(_) => Some("default"@),
    }
}

/// The error reported when a path has no usable file-name component.
pub fn not_found_error(file_name: &str) -> (e: Error)
    ensures
        e is NotFound,
        e.spec_message() == "No file name component: "@ + file_name@,
{
    let mut msg = String::from_str("No file name component: ");
    msg.append(file_name);
    Error::NotFound(msg)
}

/// The stem of the running binary's file name.
///
/// `exe` is the outcome of the platform's own lookup of the binary's path.
/// When the lookup failed the stem falls back to `"default"`; when it
/// succeeded but the path has no file-name component, that is an error.
pub fn exe_file_stem(exe: &Result<String, Error>) -> (r: Result<String, Error>)
    ensures
        match spec_exe_stem(*exe) {
            Some(stem) => r matches Ok(s) && s@ == stem,
            None => r matches Err(e) && e is NotFound && (exe matches Ok(p) && e.spec_message()
                == "No file name component: "@ + p@),
        },
{
    match exe {
        Ok(p) => {
            match file_stem_of(p.as_str()) {
                Some(stem) => Ok(stem),
                None => Err(not_found_error(p.as_str())),
            }
        },
        Err(_) => Ok(String::from_str("default")),
    }
}

/// The directory path `path` extended with the running binary's stem, the
/// per-application subdirectory every candidate location ends in.
pub fn join_exe_file_stem(path: &str, exe: &Result<String, Error>) -> (r: Result<String, Error>)
    ensures
        match spec_exe_stem(*exe) {
            Some(stem) => r matches Ok(joined) && joined@ == spec_join(path@, stem),
            None => r matches Err(e) && e is NotFound,
        },
{
    match exe_file_stem(exe) {
        Ok(stem) => Ok(join_path(path, stem.as_str())),
        Err(e) => Err(e),
    }
}

} // verus!
