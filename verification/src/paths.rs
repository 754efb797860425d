//! Path conventions of the build tree.  Paths are plain strings; components
//! are joined with `/`.  File names are read off behind the last path
//! separator, where both `/` and `\` count, since the artifact naming
//! convention on Windows hosts embeds a backslash.

use vstd::prelude::*;

verus! {

/// `dir` and `name` joined with a single separator.
pub open spec fn spec_join_path(dir: Seq<char>, name: Seq<char>) -> Seq<char> {
    dir + "/"@ + name
}

/// Joins a directory and a name with `/`.
pub fn join_path(dir: &str, name: &str) -> (r: String)
    ensures
        r@ == spec_join_path(dir@, name@),
{
    String::from_str(dir).concat("/").concat(name)
}

/// Whether `c` is a path separator.
pub open spec fn spec_is_sep(c: char) -> bool {
    c == '/' || c == '\\'
}

/// Whether some position of `p` holds a path separator.
pub open spec fn spec_has_sep(p: Seq<char>) -> bool {
    exists|i: int| 0 <= i < p.len() && spec_is_sep(#[trigger] p[i])
}

/// The part of `p` after its last path separator: the file name.
pub open spec fn spec_file_name(p: Seq<char>) -> Seq<char>
    decreases p.len(),
{
    if p.len() == 0 {
        p
    } else if spec_has_sep(p) {
        spec_file_name(p.drop_first())
    } else {
        p
    }
}

/// A position `d` right before a separator-free suffix pins the file name
/// down to that suffix (`d == -1` when `p` holds no separator at all).
proof fn lemma_file_name_suffix(p: Seq<char>, d: int)
    requires
        -1 <= d < p.len() || (p.len() == 0 && d == -1),
        d >= 0 ==> spec_is_sep(p[d]),
        forall|k: int| d < k < p.len() ==> !spec_is_sep(#[trigger] p[k]),
    ensures
        spec_file_name(p) =~= p.subrange(d + 1, p.len() as int),
    decreases p.len(),
{
    if p.len() == 0 {
    } else if d == -1 {
        assert(!spec_has_sep(p));
        assert(spec_file_name(p) =~= p.subrange(0, p.len() as int));
    } else {
        assert(spec_has_sep(p));
        let t = p.drop_first();
        assert(forall|k: int| d - 1 < k < t.len() ==> t[k] == p[k + 1] && !spec_is_sep(#[trigger] t[k]));
        lemma_file_name_suffix(t, d - 1);
        assert(t.subrange(d, t.len() as int) =~= p.subrange(d + 1, p.len() as int));
    }
}

/// The file name of a path: everything after the last separator.
pub fn file_name_of(p: &str) -> (r: String)
    ensures
        r@ == spec_file_name(p@),
{
    let n = p.unicode_len();
    let mut start: usize = 0;
    let mut i: usize = 0;
    while i < n
        invariant
            0 <= i <= n,
            start <= i,
            n == p@.len(),
            start == 0 || spec_is_sep(p@[start - 1]),
            forall|k: int| start <= k < i ==> !spec_is_sep(#[trigger] p@[k]),
        decreases n - i,
    {
        let c = p.get_char(i);
        if c == '/' || c == '\\' {
            start = i + 1;
        }
        i = i + 1;
    }
    proof {
        lemma_file_name_suffix(p@, start - 1);
    }
    let tail = p.substring_char(start, n);
    String::from_str(tail)
}

/// The path of the vendored libpng source tree under the package's own
/// install location.  The directory does not contain `pnglibconf.h`, which
/// is generated at build time.
pub fn source_path(manifest_dir: &str) -> (r: String)
    ensures
        r@ == spec_join_path(manifest_dir@, "libpng"@),
{
    join_path(manifest_dir, "libpng")
}

} // verus!
