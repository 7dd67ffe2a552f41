//! Resolution of the paths callers send against the repository root.
//!
//! The engine only acts on absolute paths; callers send paths relative to the
//! repository root. A path that starts with `/` is absolute and passes through
//! unchanged; any other path is joined onto the root, with one `/` between the
//! two unless the root is empty or already ends in `/`.
//!
//! These are the Unix rules of `std::path` (`Path::is_absolute` and
//! `Path::join`), the only platform this library handles. A Windows drive or
//! UNC path such as `C:\work\a.txt` has no leading `/`, so here it is
//! relative and is joined onto the root, as `std::path` does on Unix.
use vstd::prelude::*;

verus! {

broadcast use vstd::string::group_string_axioms;

/// True when `p` is an absolute Unix path: it starts with `/`.
pub open spec fn is_absolute(p: Seq<char>) -> bool {
    p.len() > 0 && p[0] == '/'
}

/// `p` appended to `root`, with one separator between them when `root` is
/// non-empty and does not already end in one.
pub open spec fn join_path(root: Seq<char>, p: Seq<char>) -> Seq<char> {
    if root.len() == 0 || root.last() == '/' {
        root + p
    } else {
        root + "/"@ + p
    }
}

/// `p` resolved against `root`: unchanged when absolute, joined otherwise.
pub open spec fn resolved(root: Seq<char>, p: Seq<char>) -> Seq<char> {
    if is_absolute(p) {
        p
    } else {
        join_path(root, p)
    }
}

/// True when `p` is an absolute path.
pub fn path_is_absolute(p: &str) -> (r: bool)
    ensures
        r == is_absolute(p@),
{
    p.unicode_len() > 0 && p.get_char(0) == '/'
}

/// `p` resolved against `root`.
pub fn resolve_path(root: &str, p: &str) -> (r: String)
    ensures
        r@ == resolved(root@, p@),
{
    if path_is_absolute(p) {
        return String::from_str(p);
    }
    let n = root.unicode_len();
    let mut r = String::from_str(root);
    if n > 0 && root.get_char(n - 1) != '/' {
        r.append("/");
    }
    r.append(p);
    proof {
        reveal_strlit("/");
    }
    r
}

/// Every path of `ps` resolved against `root`, in order.
pub fn resolve_paths(root: &str, ps: &Vec<String>) -> (r: Vec<String>)
    ensures
        r.len() == ps.len(),
        forall|i: int| 0 <= i < ps.len() ==> #[trigger] r[i]@ == resolved(root@, ps[i]@),
{
    let mut r: Vec<String> = Vec::new();
    let mut i: usize = 0;
    while i < ps.len()
        invariant
            i <= ps.len(),
            r.len() == i,
            forall|j: int| 0 <= j < i ==> #[trigger] r[j]@ == resolved(root@, ps[j]@),
        decreases ps.len() - i,
    {
        r.push(resolve_path(root, ps[i].as_str()));
        i += 1;
    }
    r
}


/// Against an absolute root every path resolves to an absolute path, which
/// is what the engine needs to act on it.
pub proof fn lemma_resolved_is_absolute(root: Seq<char>, p: Seq<char>)
    requires
        is_absolute(root),
    ensures
        is_absolute(resolved(root, p)),
{
    if !is_absolute(p) {
        let q = join_path(root, p);
        assert(q[0] == root[0]);
    }
}

/// Resolving is idempotent against an absolute (or empty) root: a path
/// already resolved passes through unchanged, never prefixed twice.
pub proof fn lemma_resolve_idempotent(root: Seq<char>, p: Seq<char>)
    requires
        root.len() == 0 || is_absolute(root),
    ensures
        resolved(root, resolved(root, p)) == resolved(root, p),
{
    if root.len() > 0 {
        lemma_resolved_is_absolute(root, p);
    }
}

} // verus!
