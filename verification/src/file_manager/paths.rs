//! Paths of the file panes: a name joined to a directory, and the directory above.

use vstd::prelude::*;

verus! {

/// A remote (SFTP) path: `dir`, then a `/` unless `dir` already ends with one, then
/// `name`.
pub open spec fn join_remote_spec(dir: Seq<char>, name: Seq<char>) -> Seq<char> {
    if dir.len() > 0 && dir.last() == '/' {
        dir + name
    } else {
        dir + seq!['/'] + name
    }
}

/// Joins a name to a remote directory.
pub fn join_remote(dir: &str, name: &str) -> (p: String)
    ensures
        p@ == join_remote_spec(dir@, name@),
{
    let n = dir.unicode_len();
    let ends_with_slash = n > 0 && dir.get_char(n - 1) == '/';
    let mut p = String::from_str(dir);
    if !ends_with_slash {
        p.push('/');
    }
    p.append(name);
    proof {
        if ends_with_slash {
            assert(dir@.last() == '/');
        }
        assert(p@ =~= join_remote_spec(dir@, name@));
    }
    p
}

/// `dir` holds no backslash and `name` is one plain component: no `/`, `\` or `:`.
/// Joining such a name is plain appending on every platform (no absolute or
/// drive-relative `name`, no verbatim `dir` that would be rebuilt).
pub open spec fn plain_join(dir: Seq<char>, name: Seq<char>) -> bool {
    &&& !dir.contains('\\')
    &&& !name.contains('/')
    &&& !name.contains('\\')
    &&& !name.contains(':')
}

/// `p` is `dir`, then at most one separator (`/` or `\`), then `name`: with no
/// separator where `dir` is empty or already ends with `/`, with one where `dir` ends
/// in any other character but `:` (after a `:`, a bare drive on some platforms takes
/// none).
pub open spec fn joined_under(dir: Seq<char>, name: Seq<char>, p: Seq<char>) -> bool {
    &&& dir.len() + name.len() <= p.len() <= dir.len() + name.len() + 1
    &&& p.subrange(0, dir.len() as int) == dir
    &&& p.subrange(p.len() - name.len(), p.len() as int) == name
    &&& p.len() == dir.len() + name.len() + 1 ==> (p[dir.len() as int] == '/' || p[dir.len() as int]
        == '\\')
    &&& (dir.len() == 0 || dir.last() == '/') ==> p == dir + name
    &&& (dir.len() > 0 && dir.last() != '/' && dir.last() != ':') ==> p.len() == dir.len() + name.len()
        + 1
}

/// Calls `std::path::Path::new(dir).join(name)` and renders the path as text with
/// `to_string_lossy` (lossless here: both parts are UTF-8). `PathBuf::push` appends a
/// relative `name` after the platform's separator (`/`, or `\` on Windows), which it
/// adds unless `dir` is empty, ends with a separator, or is a bare drive such as `C:`;
/// that is what is stated, for a plain `name` (see [`plain_join`], [`joined_under`]).
/// What a `name` with a separator or drive does depends on the platform and is not
/// stated.
#[verifier::external_body]
pub(crate) fn join_local(dir: &str, name: &str) -> (p: String)
    ensures
        plain_join(dir@, name@) ==> joined_under(dir@, name@, p@),
{
    std::path::Path::new(dir).join(name).to_string_lossy().into_owned()
}

/// `path` ends with a separator `/` and then one plain component that is not `.`, and
/// holds no backslash and does not begin with two slashes (which some platforms read
/// as the start of a network or device prefix).
pub open spec fn has_plain_last(path: Seq<char>) -> bool {
    &&& !path.contains('\\')
    &&& !(path.len() >= 2 && path[0] == '/' && path[1] == '/')
    &&& exists|k: int|
        #![trigger path[k]]
        0 <= k < path.len() - 1 && path[k] == '/' && {
            let n = path.subrange(k + 1, path.len() as int);
            &&& !n.contains('/')
            &&& !n.contains(':')
            &&& n != seq!['.']
        }
}

/// Position of the last `/` in `s`, or -1 when there is none.
pub open spec fn last_slash(s: Seq<char>) -> int
    decreases s.len(),
{
    if s.len() == 0 {
        -1
    } else if s.last() == '/' {
        s.len() - 1
    } else {
        last_slash(s.drop_last())
    }
}

/// A path in the plain form `a/b/c` or `/a/b/c`: at least one `/`, no two `/` in a row,
/// no `/` at the end, no `.` component, and no `\` or `:` (which some platforms read
/// as separators or drives).
pub open spec fn simple_path(path: Seq<char>) -> bool {
    &&& path.len() > 0
    &&& path.last() != '/'
    &&& !path.contains('\\')
    &&& !path.contains(':')
    &&& last_slash(path) >= 0
    &&& forall|i: int| 0 <= i < path.len() - 1 && #[trigger] path[i] == '/' ==> path[i + 1] != '/'
    &&& forall|i: int|
        0 <= i < path.len() && #[trigger] path[i] == '.' ==> !((i == 0 || path[i - 1] == '/') && (i + 1
            == path.len() || path[i + 1] == '/'))
}

/// The parent of a path in the plain form: the path up to its last `/`, or `/` when
/// that `/` is the first character.
pub open spec fn simple_parent(path: Seq<char>) -> Seq<char> {
    if last_slash(path) == 0 {
        seq!['/']
    } else {
        path.subrange(0, last_slash(path))
    }
}

/// What holds of the parent `parent` of `path`: the empty path has none; a parent is
/// a proper prefix of the path; a path ending in a plain component has one; and a path
/// in the plain form (see [`simple_path`]) has the path without its last component.
pub open spec fn parent_ok(path: Seq<char>, parent: Option<Seq<char>>) -> bool {
    &&& path.len() == 0 ==> parent is None
    &&& parent matches Some(q) ==> q.len() < path.len() && q == path.subrange(0, q.len() as int)
    &&& has_plain_last(path) ==> parent is Some
    &&& simple_path(path) ==> parent == Some(simple_parent(path))
}

/// Calls `std::path::Path::new(path).parent()` and renders the parent as text with
/// `to_string_lossy`. std documents that `parent` is the path without its final
/// component (`/foo/bar` gives `/foo`, `/foo` gives `/`), and `None` where the path
/// ends in a root or prefix or is empty; the parent is a leading slice of the path.
/// That is stated for paths in the plain form (see [`parent_ok`]); for others, which
/// text comes back beyond a leading slice depends on the platform's path syntax.
#[verifier::external_body]
pub(crate) fn parent_path(path: &str) -> (r: Option<String>)
    ensures
        parent_ok(
            path@,
            match r {
                Some(q) => Some(q@),
                None => None,
            },
        ),
{
    match std::path::Path::new(path).parent() {
        Some(p) => Some(p.to_string_lossy().into_owned()),
        None => None,
    }
}

} // verus!
