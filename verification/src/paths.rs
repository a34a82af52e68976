//! Path text helpers: deriving a file name and joining paths.
//!
//! Both functions work on the path as text, with `/` as the separator, and
//! are verified against the spec functions beside them: the file name is
//! what follows the last separator once trailing separators and lone `.`
//! components are stripped — the same normalization std's path components
//! apply, so `dir/.` carries the name `dir` — and joining puts one
//! separator between a directory and a relative name while an absolute
//! name replaces the directory outright.

use crate::errors::TransferError;
use vstd::prelude::*;
use vstd::string::*;

verus! {

/// Whether `path` ends in a lone `.` component: a final `.` that is the
/// whole of its component.
pub open spec fn ends_in_dot_component(path: Seq<char>) -> bool {
    &&& path.len() > 0
    &&& path[path.len() - 1] == '.'
    &&& (path.len() == 1 || path[path.len() - 2] == '/')
}

/// `path` with trailing separators and trailing lone `.` components
/// removed, one character at a time. What remains decides the file name:
/// path normalization drops `.` components, so they never name a file.
pub open spec fn strip_trailing_noise(path: Seq<char>) -> Seq<char>
    decreases path.len(),
{
    if path.len() > 0 && (path[path.len() - 1] == '/' || ends_in_dot_component(path)) {
        strip_trailing_noise(path.drop_last())
    } else {
        path
    }
}

/// The index just past the last separator of `path`, or 0 when it has none:
/// where the final component starts.
pub open spec fn after_last_separator(path: Seq<char>) -> int
    decreases path.len(),
{
    if path.len() == 0 {
        0
    } else if path[path.len() - 1] == '/' {
        path.len() as int
    } else {
        after_last_separator(path.drop_last())
    }
}

/// The file name a path carries: the text after its last separator, once
/// trailing separators and `.` components are stripped. A path reduced to
/// nothing by that, or whose final component is `..`, carries none.
pub open spec fn file_name_spec(path: Seq<char>) -> Option<Seq<char>> {
    let stripped = strip_trailing_noise(path);
    let name = stripped.skip(after_last_separator(stripped));
    if name.len() == 0 || name == seq!['.', '.'] {
        Option::None
    } else {
        Option::Some(name)
    }
}

/// `filename` placed under the directory `path`: one separator goes between
/// them unless the directory is empty or already ends in one, and an
/// absolute `filename` replaces the directory outright.
pub open spec fn joined_path_spec(path: Seq<char>, filename: Seq<char>) -> Seq<char> {
    if filename.len() > 0 && filename[0] == '/' {
        filename
    } else if path.len() == 0 || path[path.len() - 1] == '/' {
        path + filename
    } else {
        path + seq!['/'] + filename
    }
}

/// The final component of `path`: the name a copied file keeps when the
/// destination is a directory. Trailing separators and `.` components are
/// dropped first, as std's path normalization drops them. Fails with
/// `InvalidPath` exactly when no name is left: an empty path, a root,
/// nothing but separators and `.` components, or a final `..` component.
pub fn get_file_name(path: &str) -> (r: Result<String, TransferError>)
    ensures
        r is Ok <==> file_name_spec(path@) is Some,
        r is Ok ==> r->Ok_0@ == file_name_spec(path@)->Some_0,
        r is Err ==> r->Err_0 == TransferError::InvalidPath,
{
    let len = path.unicode_len();
    proof {
        assert(path@.take(len as int) =~= path@);
    }
    let mut end: usize = len;
    while end > 0 && (path.get_char(end - 1) == '/' || (path.get_char(end - 1) == '.' && (end
        == 1 || path.get_char(end - 2) == '/')))
        invariant
            end <= len,
            len == path@.len(),
            strip_trailing_noise(path@) == strip_trailing_noise(path@.take(end as int)),
        decreases end,
    {
        proof {
            assert(path@.take(end as int).drop_last() =~= path@.take(end - 1int));
        }
        end = end - 1;
    }
    let ghost stripped = strip_trailing_noise(path@);
    proof {
        assert(stripped == path@.take(end as int));
    }
    let mut start: usize = end;
    while start > 0 && path.get_char(start - 1) != '/'
        invariant
            start <= end <= len,
            len == path@.len(),
            stripped == path@.take(end as int),
            after_last_separator(path@.take(end as int)) == after_last_separator(
                path@.take(start as int),
            ),
        decreases start,
    {
        proof {
            assert(path@.take(start as int).drop_last() =~= path@.take(start - 1int));
        }
        start = start - 1;
    }
    proof {
        assert(after_last_separator(stripped) == start as int);
        assert(stripped.skip(start as int) =~= path@.subrange(start as int, end as int));
    }
    let name_len = end - start;
    if name_len == 0 {
        return Err(TransferError::InvalidPath);
    }
    if name_len == 2 && path.get_char(start) == '.' && path.get_char(start + 1) == '.' {
        proof {
            assert(path@.subrange(start as int, end as int) =~= seq!['.', '.']);
        }
        return Err(TransferError::InvalidPath);
    }
    proof {
        let name = path@.subrange(start as int, end as int);
        if name == seq!['.', '.'] {
            assert(name.len() == 2 && name[0] == '.' && name[1] == '.');
        }
    }
    Ok(String::from_str(path.substring_char(start, end)))
}

/// `filename` placed under the directory `path`, with `/` between them
/// where one is needed.
pub fn concatenate_path(path: &str, filename: &str) -> (r: String)
    ensures
        r@ == joined_path_spec(path@, filename@),
{
    proof {
        reveal_strlit("/");
    }
    let filename_len = filename.unicode_len();
    if filename_len > 0 && filename.get_char(0) == '/' {
        return String::from_str(filename);
    }
    let path_len = path.unicode_len();
    let mut result = String::from_str(path);
    if path_len > 0 && path.get_char(path_len - 1) != '/' {
        result.append("/");
        proof {
            assert("/"@ =~= seq!['/']);
        }
    }
    result.append(filename);
    proof {
        if !(path@.len() == 0 || path@[path@.len() - 1] == '/') {
            assert(result@ =~= path@ + seq!['/'] + filename@);
        }
    }
    result
}

} // verus!
