//! File paths as text. The platform's own rules for taking a path apart and
//! putting one together are those of `std::path`; they are called here and
//! known to the rest of the library by name. How a file name falls into
//! stem and extension is the same everywhere, and is worked out here.

use vstd::prelude::*;
use crate::text::{chars_of, opt_view, text_of_range};

verus! {

/// What `Path::file_name` returns for a path: its final component, if it
/// has one, by the rules of the platform that the library is built for.
pub uninterp spec fn path_file_name(path: Seq<char>) -> Option<Seq<char>>;

/// What `Path::parent` returns for a path: the path without its final
/// component, if there is one.
pub uninterp spec fn path_parent(path: Seq<char>) -> Option<Seq<char>>;

/// What `Path::join` returns: `base` extended by `part` with the platform's
/// separator, or `part` alone where it is absolute.
pub uninterp spec fn path_join(base: Seq<char>, part: Seq<char>) -> Seq<char>;

/// Calls `Path::file_name`. The result is a function of the path's text
/// alone; a component cut from valid text is valid text again, so the
/// conversion back loses nothing.
#[verifier::external_body]
pub(crate) fn file_name(path: &str) -> (r: Option<String>)
    ensures
        opt_view(r) == path_file_name(path@),
{
    std::path::Path::new(path).file_name().and_then(|n| n.to_str()).map(|n| n.to_string())
}

/// Calls `Path::parent`, with the same remarks as for `file_name`.
#[verifier::external_body]
pub(crate) fn parent(path: &str) -> (r: Option<String>)
    ensures
        opt_view(r) == path_parent(path@),
{
    std::path::Path::new(path).parent().and_then(|p| p.to_str()).map(|p| p.to_string())
}

/// Calls `Path::join` and hands the joined path back as text. Both parts
/// are valid text, so the joined path is too.
#[verifier::external_body]
pub(crate) fn join(base: &str, part: &str) -> (r: String)
    ensures
        r@ == path_join(base@, part@),
{
    std::path::Path::new(base).join(part).to_string_lossy().into_owned()
}

/// The position of the last `c` in the text, or -1 if it holds none.
pub open spec fn last_index_of(s: Seq<char>, c: char) -> int
    decreases s.len(),
{
    if s.len() == 0 {
        -1
    } else if s.last() == c {
        s.len() - 1
    } else {
        last_index_of(s.drop_last(), c)
    }
}

/// The stem of a file name: the whole name if it holds no `.` or only a
/// leading one, else the part before the final `.`.
pub open spec fn stem_part(name: Seq<char>) -> Seq<char> {
    let dot = last_index_of(name, '.');
    if dot <= 0 {
        name
    } else {
        name.subrange(0, dot)
    }
}

/// The extension of a file name: none if the name holds no `.` or only a
/// leading one, else the part after the final `.`.
pub open spec fn extension_part(name: Seq<char>) -> Option<Seq<char>> {
    let dot = last_index_of(name, '.');
    if dot <= 0 {
        None
    } else {
        Some(name.subrange(dot + 1, name.len() as int))
    }
}

/// The stem of a path's file name.
pub open spec fn stem_of_path(path: Seq<char>) -> Option<Seq<char>> {
    match path_file_name(path) {
        Some(name) => Some(stem_part(name)),
        None => None,
    }
}

/// The extension of a path's file name.
pub open spec fn extension_of_path(path: Seq<char>) -> Option<Seq<char>> {
    match path_file_name(path) {
        Some(name) => extension_part(name),
        None => None,
    }
}

/// The position of the last `c` lies inside the text, and no `c` follows it.
pub proof fn lemma_last_index_of(s: Seq<char>, c: char)
    ensures
        -1 <= last_index_of(s, c) < s.len(),
        last_index_of(s, c) >= 0 ==> s[last_index_of(s, c)] == c,
        forall|k: int| last_index_of(s, c) < k < s.len() ==> s[k] != c,
    decreases s.len(),
{
    if s.len() > 0 && s.last() != c {
        let t = s.drop_last();
        lemma_last_index_of(t, c);
        assert forall|k: int| last_index_of(s, c) < k < s.len() implies s[k] != c by {
            if k < t.len() {
                assert(t[k] == s[k]);
            }
        }
    }
}

fn last_position(v: &Vec<char>, c: char) -> (r: Option<usize>)
    ensures
        match r {
            Some(at) => last_index_of(v@, c) == at && at < v.len(),
            None => last_index_of(v@, c) == -1,
        },
{
    let mut i: usize = v.len();
    assert(v@.subrange(0, i as int) == v@);
    while i > 0
        invariant
            i <= v.len(),
            last_index_of(v@, c) == last_index_of(v@.subrange(0, i as int), c),
        decreases i,
    {
        assert(v@.subrange(0, i as int).last() == v@[i - 1]);
        assert(v@.subrange(0, i as int).drop_last() == v@.subrange(0, i - 1));
        if v[i - 1] == c {
            return Some(i - 1);
        }
        i -= 1;
    }
    None
}

/// The stem of a path's file name, as `Path::file_stem` gives it.
pub fn file_stem(path: &str) -> (r: Option<String>)
    ensures
        opt_view(r) == stem_of_path(path@),
{
    match file_name(path) {
        Some(name) => {
            let v = chars_of(name.as_str());
            match last_position(&v, '.') {
                Some(dot) => if dot == 0 {
                    Some(name)
                } else {
                    Some(text_of_range(&v, 0, dot))
                },
                None => Some(name),
            }
        },
        None => None,
    }
}

/// The extension of a path's file name, as `Path::extension` gives it.
pub fn extension(path: &str) -> (r: Option<String>)
    ensures
        opt_view(r) == extension_of_path(path@),
{
    match file_name(path) {
        Some(name) => {
            let v = chars_of(name.as_str());
            match last_position(&v, '.') {
                Some(dot) => if dot == 0 {
                    None
                } else {
                    Some(text_of_range(&v, dot + 1, v.len()))
                },
                None => None,
            }
        },
        None => None,
    }
}

/// The name shown for a file whose path has no final component.
pub open spec fn unknown_name() -> Seq<char> {
    "Unknown"@
}

/// The file name that belongs to a path: its final component, or
/// `Unknown` where it has none.
pub open spec fn filename_spec(path: Seq<char>) -> Seq<char> {
    match path_file_name(path) {
        Some(name) => name,
        None => unknown_name(),
    }
}

/// The name of the folder that holds a path: the final component of its
/// parent, or `Unknown` where there is none.
pub open spec fn parent_folder_spec(path: Seq<char>) -> Seq<char> {
    match path_parent(path) {
        Some(dir) => filename_spec(dir),
        None => unknown_name(),
    }
}

/// The file name that belongs to a path.
pub fn filename_of(path: &str) -> (r: String)
    ensures
        r@ == filename_spec(path@),
{
    match file_name(path) {
        Some(name) => name,
        None => "Unknown".to_string(),
    }
}

/// The name of the folder that holds a path.
pub fn parent_folder_of(path: &str) -> (r: String)
    ensures
        r@ == parent_folder_spec(path@),
{
    match parent(path) {
        Some(dir) => filename_of(dir.as_str()),
        None => "Unknown".to_string(),
    }
}

} // verus!
