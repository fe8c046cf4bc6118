//! Path normalization against the workspace root.
//!
//! Paths are plain strings with `/` as the separator. A path is *under* the
//! root when it is the root itself or the root followed by a separator. The
//! normalizer strips the root prefix and hands back the pair of the full
//! path and the workspace-relative remainder; the relative name is the wire
//! identifier of a file.

use vstd::prelude::*;
use vstd::string::*;

use crate::errors::Errors;

verus! {

/// `p` lies under the directory `root`: it is `root` itself, or `root`
/// followed by a separator.
pub open spec fn is_under(root: Seq<char>, p: Seq<char>) -> bool {
    ||| p == root
    ||| (p.len() > root.len() && p.subrange(0, root.len() as int) == root && p[root.len() as int]
        == '/')
}

/// The remainder of `p` once the `root` prefix and its separator are gone.
pub open spec fn rel_of(root: Seq<char>, p: Seq<char>) -> Seq<char>
    recommends
        is_under(root, p),
{
    if p == root {
        Seq::empty()
    } else {
        p.subrange(root.len() as int + 1, p.len() as int)
    }
}

/// `root` extended by `rel`, with a separator between them when `rel` is
/// non-empty.
pub open spec fn join(root: Seq<char>, rel: Seq<char>) -> Seq<char> {
    if rel.len() == 0 {
        root
    } else {
        root + seq!['/'] + rel
    }
}

/// A parent-directory segment `..` stands at position `i` of `p`.
pub open spec fn parent_seg_at(p: Seq<char>, i: int) -> bool {
    &&& 0 <= i
    &&& i + 2 <= p.len()
    &&& p[i] == '.'
    &&& p[i + 1] == '.'
    &&& (i == 0 || p[i - 1] == '/')
    &&& (i + 2 == p.len() || p[i + 2] == '/')
}

/// Some segment of `p` is a parent-directory traversal.
pub open spec fn has_parent_component(p: Seq<char>) -> bool {
    exists|i: int| parent_seg_at(p, i)
}

/// `p` begins with a parent-directory segment.
pub open spec fn starts_with_parent(p: Seq<char>) -> bool {
    parent_seg_at(p, 0)
}

/// The full filesystem path of a file and its workspace-relative name.
///
/// The two are produced together by [`strip`]: `full` is only meaningful for
/// local disk access, `relative` only on the wire.
pub struct PathPair {
    pub full: String,
    pub relative: String,
}

/// Strips the `base` prefix from `path`.
///
/// Succeeds exactly when `path` is under `base`, handing back the pair of
/// the full path and the relative remainder; any other path is a
/// programming-invariant violation (the watcher is scoped to `base`) and is
/// reported as a prefix-stripping failure.
pub fn strip(base: &str, path: &str) -> (r: Result<PathPair, Errors>)
    ensures
        r is Ok <==> is_under(base@, path@),
        r is Err ==> r == Result::<PathPair, Errors>::Err(Errors::FailedStripPrefix),
        r matches Ok(pair) ==> pair.full@ == path@ && pair.relative@ == rel_of(base@, path@),
{
    let n = base.unicode_len();
    let m = path.unicode_len();
    if m < n {
        return Err(Errors::FailedStripPrefix);
    }
    let mut i: usize = 0;
    while i < n
        invariant
            0 <= i <= n,
            n == base@.len(),
            m == path@.len(),
            n <= m,
            forall|k: int| 0 <= k < i ==> path@[k] == base@[k],
        decreases n - i,
    {
        if path.get_char(i) != base.get_char(i) {
            proof {
                if is_under(base@, path@) {
                    if path@ == base@ {
                        assert(path@[i as int] == base@[i as int]);
                    } else {
                        assert(path@.subrange(0, base@.len() as int)[i as int]
                            == path@[i as int]);
                    }
                }
            }
            return Err(Errors::FailedStripPrefix);
        }
        i += 1;
    }
    if m == n {
        proof {
            assert(path@ =~= base@);
        }
        return Ok(PathPair { full: String::from_str(path), relative: String::new() });
    }
    proof {
        assert(path@.subrange(0, base@.len() as int) =~= base@);
    }
    if path.get_char(n) != '/' {
        return Err(Errors::FailedStripPrefix);
    }
    let rel = path.substring_char(n + 1, m);
    Ok(PathPair { full: String::from_str(path), relative: String::from_str(rel) })
}

/// Strips the `base` prefix from every path of a batch, in order.
///
/// Fails, as [`strip`] does, as soon as one path is not under `base`.
pub fn strip_all(base: &str, paths: &Vec<String>) -> (r: Result<Vec<PathPair>, Errors>)
    ensures
        r is Ok <==> (forall|i: int| 0 <= i < paths@.len() ==> is_under(base@, paths@[i]@)),
        r is Err ==> r == Result::<Vec<PathPair>, Errors>::Err(Errors::FailedStripPrefix),
        r matches Ok(pairs) ==> pairs@.len() == paths@.len() && (forall|i: int|
            0 <= i < paths@.len() ==> pairs@[i].full@ == paths@[i]@ && pairs@[i].relative@
                == rel_of(base@, paths@[i]@)),
{
    let mut pairs: Vec<PathPair> = Vec::new();
    let mut i: usize = 0;
    while i < paths.len()
        invariant
            0 <= i <= paths@.len(),
            pairs@.len() == i,
            forall|k: int| 0 <= k < i ==> is_under(base@, paths@[k]@),
            forall|k: int|
                0 <= k < i ==> pairs@[k].full@ == paths@[k]@ && pairs@[k].relative@
                    == rel_of(base@, paths@[k]@),
        decreases paths@.len() - i,
    {
        match strip(base, paths[i].as_str()) {
            Ok(pair) => pairs.push(pair),
            Err(e) => {
                return Err(e);
            },
        }
        i += 1;
    }
    Ok(pairs)
}

/// Law: a path that truly descends from the root — it is under the root and
/// holds no parent-directory traversal — normalizes to a relative name that
/// does not begin with a parent-directory segment, and joining the root back
/// onto that name restores the original path.
pub proof fn lemma_normalize_under_root(root: Seq<char>, p: Seq<char>)
    requires
        is_under(root, p),
        !has_parent_component(p),
        p.len() != root.len() + 1,
    ensures
        !starts_with_parent(rel_of(root, p)),
        join(root, rel_of(root, p)) == p,
{
    let rel = rel_of(root, p);
    if p == root {
        assert(join(root, rel) == p);
    } else {
        assert(p.len() > root.len() + 1);
        assert forall|k: int| 0 <= k < root.len() implies p[k] == root[k] by {
            assert(p.subrange(0, root.len() as int)[k] == p[k]);
        }
        assert(join(root, rel) =~= p);
        if starts_with_parent(rel) {
            assert(parent_seg_at(p, root.len() as int + 1));
        }
    }
}

} // verus!
