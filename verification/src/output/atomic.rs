//! Where a file is written before it takes its name.
//!
//! A file is written whole under a temporary name and then renamed, so that a
//! reader never finds half of it.

use vstd::prelude::*;
use vstd::string::StrSliceExecFns;

use crate::text;

verus! {

/// A path without what ends it and names nothing: slashes, and dots that stand for
/// the directory itself.
pub open spec fn trimmed(path: Seq<char>) -> Seq<char>
    decreases path.len(),
{
    if path.len() > 0 && path.last() == '/' {
        trimmed(path.drop_last())
    } else if path.len() > 1 && path.last() == '.' && path[path.len() - 2] == '/' {
        trimmed(path.drop_last())
    } else {
        path
    }
}

/// A path without a slash at its end has a name at its end: it is not empty, and it
/// does not end in the directory itself or the one above.
pub open spec fn ends_in_name(path: Seq<char>) -> bool {
    &&& path.len() > 0
    &&& path != seq!['.']
    &&& path != seq!['.', '.']
    &&& !(path.len() > 2 && path.last() == '.' && path[path.len() - 2] == '.' && path[path.len() - 3]
        == '/')
}

/// The path of the file that is written first: `.tmp` behind the file's name. A path
/// that names no file stays as it is.
pub open spec fn tmp_path_of(path: Seq<char>) -> Seq<char> {
    if ends_in_name(trimmed(path)) {
        trimmed(path) + ".tmp"@
    } else {
        path
    }
}

/// The path of the file that is written before it is renamed to `path`.
///
/// The name keeps its extension: `foo.json` is written as `foo.json.tmp`. Components
/// of a path are parted by `/`.
pub fn tmp_path(path: &str) -> (r: String)
    ensures
        r@ == tmp_path_of(path@),
{
    let mut n: usize = path.unicode_len();
    proof {
        assert(path@.take(n as int) =~= path@);
    }
    while n > 0 && (path.get_char(n - 1) == '/' || (n > 1 && path.get_char(n - 1) == '.'
        && path.get_char(n - 2) == '/'))
        invariant
            n <= path@.len(),
            trimmed(path@.take(n as int)) == trimmed(path@),
        decreases n,
    {
        proof {
            assert(path@.take(n as int).drop_last() =~= path@.take(n - 1));
        }
        n = n - 1;
    }
    let ghost kept = path@.take(n as int);
    proof {
        assert(kept == trimmed(path@));
        assert(kept == seq!['.'] <==> n == 1 && kept[0] == '.') by {
            if n == 1 && kept[0] == '.' {
                assert(kept =~= seq!['.']);
            }
        }
        assert(kept == seq!['.', '.'] <==> n == 2 && kept[0] == '.' && kept[1] == '.') by {
            if n == 2 && kept[0] == '.' && kept[1] == '.' {
                assert(kept =~= seq!['.', '.']);
            }
        }
    }
    let named: bool = if n == 0 {
        false
    } else if n == 1 {
        path.get_char(0) != '.'
    } else if path.get_char(n - 1) == '.' && path.get_char(n - 2) == '.' {
        n > 2 && path.get_char(n - 3) != '/'
    } else {
        true
    };
    if named {
        text::join2(path.substring_char(0, n), ".tmp")
    } else {
        path.to_owned()
    }
}

/// Two files that are written at the same temporary path are the same file: their
/// paths differ at most in what ends them and names nothing. So a file is never
/// written over the temporary file of a sibling with another extension.
pub proof fn temporary_files_are_apart(a: Seq<char>, b: Seq<char>)
    requires
        ends_in_name(trimmed(a)),
        ends_in_name(trimmed(b)),
        tmp_path_of(a) == tmp_path_of(b),
    ensures
        trimmed(a) == trimmed(b),
{
    let tmp = tmp_path_of(a);
    let n = tmp.len() - ".tmp"@.len();
    assert(tmp.take(n) =~= trimmed(a));
    assert(tmp.take(n) =~= trimmed(b));
}

/// A file is not written at its own path.
pub proof fn temporary_file_is_another(path: Seq<char>)
    requires
        ends_in_name(trimmed(path)),
    ensures
        tmp_path_of(path).len() == trimmed(path).len() + 4,
        tmp_path_of(path) != trimmed(path),
{
    reveal_strlit(".tmp");
}

/// Behind a path that ends in a plain character the temporary file's path has `.tmp`
/// and nothing else.
pub proof fn plain_paths_get_an_ending(path: Seq<char>)
    requires
        path.len() > 0,
        path.last() != '/',
        path.last() != '.',
    ensures
        tmp_path_of(path) == path + ".tmp"@,
{
    assert(seq!['.'].last() == '.');
    assert(seq!['.', '.'].last() == '.');
}

/// A slash behind a path, or a slash and a dot, does not count.
pub proof fn slashes_behind_a_path_do_not_count(path: Seq<char>)
    requires
        ends_in_name(trimmed(path)),
    ensures
        tmp_path_of(path.push('/')) == tmp_path_of(path),
        tmp_path_of(path.push('/').push('.')) == tmp_path_of(path),
{
    assert(path.push('/').drop_last() =~= path);
    assert(path.push('/').push('.').drop_last() =~= path.push('/'));
}

/// A path that ends in the directory above names no file and stays as it is, and so
/// does the empty path.
pub proof fn directories_above_stay(path: Seq<char>)
    requires
        path.len() == 0 || path.last() == '/',
    ensures
        tmp_path_of(path.push('.').push('.')) == path.push('.').push('.'),
        path.len() == 0 ==> tmp_path_of(path) == path,
{
    let p = path.push('.').push('.');
    assert(trimmed(p) == p);
    if path.len() == 0 {
        assert(p =~= seq!['.', '.']);
    }
}

} // verus!
