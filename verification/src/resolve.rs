//! Confinement of an untrusted request path to the document root.
//!
//! Resolution runs in two stages. The syntactic stage (`check_request_path`)
//! rejects any path holding a parent-directory segment and strips the leading
//! separators, yielding a path relative to the document root. The caller then
//! canonicalizes the root and the joined path (a filesystem step that happens
//! outside this library) and hands both canonical strings to the semantic
//! stage (`check_confinement`), which accepts the target only when it lies
//! under the root — this second check is what defeats symlink escapes that
//! the syntactic stage cannot see.

use vstd::prelude::*;

use crate::errors::HandlerError;

verus! {

/// A parent-directory segment `..` starts at index `i` of `s`: the two dots
/// are bounded by separators or by the ends of the string, exactly as a
/// path-component split on `/` would produce the segment `..`.
pub open spec fn is_parent_marker_at(s: Seq<char>, i: int) -> bool {
    &&& 0 <= i
    &&& i + 2 <= s.len()
    &&& s[i] == '.'
    &&& s[i + 1] == '.'
    &&& (i == 0 || s[i - 1] == '/')
    &&& (i + 2 == s.len() || s[i + 2] == '/')
}

/// Some component of the path, split on `/`, is the parent-directory
/// segment `..`.
pub open spec fn has_parent_component(s: Seq<char>) -> bool {
    exists|i: int| is_parent_marker_at(s, i)
}

/// `s` with every leading `/` removed.
pub open spec fn without_leading_slashes(s: Seq<char>) -> Seq<char>
    decreases s.len(),
{
    if s.len() > 0 && s[0] == '/' {
        without_leading_slashes(s.drop_first())
    } else {
        s
    }
}

/// The canonical path `full` lies at or below the canonical directory
/// `root`: `root` is a prefix of `full` and the prefix ends on a component
/// boundary. On canonical absolute paths this is component-wise prefixing.
pub open spec fn confines(root: Seq<char>, full: Seq<char>) -> bool {
    &&& root.len() <= full.len()
    &&& full.subrange(0, root.len() as int) == root
    &&& (full.len() == root.len() || full[root.len() as int] == '/' || (root.len() > 0
        && root[root.len() - 1] == '/'))
}

/// The path formed by placing `rel` below the directory `root`: a separator
/// is inserted unless `root` already ends with one.
pub open spec fn joined_under(root: Seq<char>, rel: Seq<char>) -> Seq<char> {
    if root.len() > 0 && root[root.len() - 1] == '/' {
        root + rel
    } else {
        root + seq!['/'] + rel
    }
}

/// Whether any component of `path` is a parent-directory segment.
pub fn contains_parent_component(path: &str) -> (b: bool)
    ensures
        b == has_parent_component(path@),
{
    let n: usize = path.unicode_len();
    let mut i: usize = 0;
    while i < n
        invariant
            n == path@.len(),
            i <= n,
            forall|j: int| 0 <= j < i ==> !is_parent_marker_at(path@, j),
        decreases n - i,
    {
        if n - i >= 2 && path.get_char(i) == '.' && path.get_char(i + 1) == '.' && (i == 0
            || path.get_char(i - 1) == '/') && (i + 2 == n || path.get_char(i + 2) == '/') {
            assert(is_parent_marker_at(path@, i as int));
            return true;
        }
        i += 1;
    }
    assert(!has_parent_component(path@)) by {
        if has_parent_component(path@) {
            let w = choose|w: int| is_parent_marker_at(path@, w);
            assert(0 <= w < n);
            assert(!is_parent_marker_at(path@, w));
        }
    }
    false
}

proof fn lemma_without_leading_slashes_at(s: Seq<char>, m: int)
    requires
        0 <= m <= s.len(),
        forall|j: int| 0 <= j < m ==> s[j] == '/',
        m == s.len() || s[m] != '/',
    ensures
        without_leading_slashes(s) == s.subrange(m, s.len() as int),
    decreases m,
{
    if m == 0 {
        assert(s.subrange(0, s.len() as int) =~= s);
    } else {
        assert(s[0] == '/');
        lemma_without_leading_slashes_at(s.drop_first(), m - 1);
        assert(s.drop_first().subrange(m - 1, s.drop_first().len() as int) =~= s.subrange(
            m,
            s.len() as int,
        ));
    }
}

/// `path` with every leading separator removed, as a fresh `String`.
pub fn strip_leading_slashes(path: &str) -> (r: String)
    ensures
        r@ == without_leading_slashes(path@),
{
    let n: usize = path.unicode_len();
    let mut k: usize = 0;
    while k < n && path.get_char(k) == '/'
        invariant
            n == path@.len(),
            k <= n,
            forall|j: int| 0 <= j < k ==> path@[j] == '/',
        decreases n - k,
    {
        k += 1;
    }
    proof {
        lemma_without_leading_slashes_at(path@, k as int);
    }
    String::from_str(path.substring_char(k, n))
}

/// Syntactic stage of path resolution: reject a path holding a
/// parent-directory segment outright, else strip the leading separators to
/// form a path relative to the document root.
pub fn check_request_path(path: &str) -> (r: Result<String, HandlerError>)
    ensures
        r is Err <==> has_parent_component(path@),
        r matches Err(e) ==> e == HandlerError::PathTraversal,
        r matches Ok(rel) ==> rel@ == without_leading_slashes(path@),
{
    if contains_parent_component(path) {
        Err(HandlerError::PathTraversal)
    } else {
        Ok(strip_leading_slashes(path))
    }
}

/// Place `rel` below the directory `root`.
pub fn join_under_root(root: &str, rel: &str) -> (r: String)
    ensures
        r@ == joined_under(root@, rel@),
{
    let n: usize = root.unicode_len();
    let mut r = String::from_str(root);
    if n == 0 || root.get_char(n - 1) != '/' {
        r.append("/");
        proof {
            reveal_strlit("/");
            assert(root@ + "/"@ =~= root@ + seq!['/']);
        }
    }
    r.append(rel);
    r
}

/// Whether the canonical path `full` lies at or below the canonical
/// directory `root`.
pub fn path_is_within(root: &str, full: &str) -> (b: bool)
    ensures
        b == confines(root@, full@),
{
    let rn: usize = root.unicode_len();
    let fn_: usize = full.unicode_len();
    if rn > fn_ {
        return false;
    }
    let mut i: usize = 0;
    while i < rn
        invariant
            rn == root@.len(),
            fn_ == full@.len(),
            rn <= fn_,
            i <= rn,
            forall|j: int| 0 <= j < i ==> full@[j] == root@[j],
        decreases rn - i,
    {
        if full.get_char(i) != root.get_char(i) {
            assert(full@.subrange(0, rn as int)[i as int] != root@[i as int]);
            return false;
        }
        i += 1;
    }
    assert(full@.subrange(0, rn as int) =~= root@);
    if fn_ == rn {
        true
    } else if full.get_char(rn) == '/' {
        true
    } else if rn > 0 && root.get_char(rn - 1) == '/' {
        true
    } else {
        false
    }
}

/// Semantic stage of path resolution, applied after canonicalization:
/// accept the target exactly when it is confined to the root; any escape,
/// even one the syntactic stage could not see, is a traversal.
pub fn check_confinement(root: &str, full: &str) -> (r: Result<(), HandlerError>)
    ensures
        r is Ok <==> confines(root@, full@),
        r matches Err(e) ==> e == HandlerError::PathTraversal,
{
    if path_is_within(root, full) {
        Ok(())
    } else {
        Err(HandlerError::PathTraversal)
    }
}

/// A path joined under a directory is always syntactically confined to it:
/// escaping the root therefore takes a parent-directory segment or a
/// symlink, and those are exactly what the two checking stages reject.
pub proof fn lemma_join_is_confined(root: Seq<char>, rel: Seq<char>)
    ensures
        confines(root, joined_under(root, rel)),
{
    if root.len() > 0 && root[root.len() - 1] == '/' {
        assert((root + rel).subrange(0, root.len() as int) =~= root);
    } else {
        assert((root + seq!['/'] + rel).subrange(0, root.len() as int) =~= root);
        assert((root + seq!['/'] + rel)[root.len() as int] == '/');
    }
}

} // verus!
