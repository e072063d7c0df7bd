use vstd::prelude::*;

verus! {

/// Directory of the packaged front end, used whenever it exists.
pub const PRIMARY_ROOT: &'static str = "../yukari/build/yukari-ui";

/// Directory of the front end's sources, used when no packaged build exists.
pub const SECONDARY_ROOT: &'static str = "../yukari-ui";

/// Paths under this prefix belong to the API and are never looked up as files.
pub const RESERVED_PREFIX: &'static str = "api/";

/// Index of the first `c` in `s` at or after `i`, or the length of `s` when there is none.
pub open spec fn first_index_of(s: Seq<char>, c: char, i: int) -> int
    decreases s.len() - i,
{
    if i >= s.len() {
        s.len() as int
    } else if s[i] == c {
        i
    } else {
        first_index_of(s, c, i + 1)
    }
}

/// A request path without its query component: everything before the first `?`.
pub open spec fn strip_query_spec(path: Seq<char>) -> Seq<char> {
    path.subrange(0, first_index_of(path, '?', 0))
}

/// Whether a path starts with the reserved prefix.
pub open spec fn is_reserved_spec(path: Seq<char>) -> bool {
    path.len() >= RESERVED_PREFIX@.len() && path.subrange(0, RESERVED_PREFIX@.len() as int)
        == RESERVED_PREFIX@
}

/// The root that files are looked up under.
pub open spec fn root_spec(primary_exists: bool) -> Seq<char> {
    if primary_exists {
        PRIMARY_ROOT@
    } else {
        SECONDARY_ROOT@
    }
}

/// The file that the relative path `rel` names under the selected root.
pub open spec fn asset_path_spec(rel: Seq<char>, primary_exists: bool) -> Seq<char> {
    root_spec(primary_exists) + "/"@ + rel
}

/// Removes the query component, if any, from a request path.
pub fn strip_query(path: &str) -> (r: &str)
    ensures
        r@ == strip_query_spec(path@),
{
    let n = path.unicode_len();
    let mut i: usize = 0;
    let mut found = false;
    while i < n && !found
        invariant
            n == path@.len(),
            i <= n,
            first_index_of(path@, '?', 0) == first_index_of(path@, '?', i as int),
            found ==> i < n && path@[i as int] == '?',
        decreases n - i + (if found { 0int } else { 1int }),
    {
        if path.get_char(i) == '?' {
            found = true;
        } else {
            i = i + 1;
        }
    }
    path.substring_char(0, i)
}

/// Whether a path (without its query) starts with the reserved prefix `api/`.
pub fn is_reserved(path: &str) -> (r: bool)
    ensures
        r == is_reserved_spec(path@),
{
    proof {
        reveal_strlit("api/");
    }
    let n = path.unicode_len();
    if n < 4 {
        return false;
    }
    let same = path.get_char(0) == 'a' && path.get_char(1) == 'p' && path.get_char(2) == 'i'
        && path.get_char(3) == '/';
    assert(same ==> path@.subrange(0, 4) =~= RESERVED_PREFIX@);
    assert(path@.subrange(0, 4) == RESERVED_PREFIX@ ==> same) by {
        if path@.subrange(0, 4) == RESERVED_PREFIX@ {
            assert(path@.subrange(0, 4)[0] == 'a');
            assert(path@.subrange(0, 4)[1] == 'p');
            assert(path@.subrange(0, 4)[2] == 'i');
            assert(path@.subrange(0, 4)[3] == '/');
        }
    }
    same
}

/// How a request outside the API routes is answered.
#[derive(Debug, PartialEq, Eq)]
pub enum AssetRequest {
    /// The path is reserved for the API: answered with no content, no file is read.
    Reserved,
    /// The path, without its query, names a file to look up.
    File(String),
}

/// Classifies a request path: reserved for the API, or the relative path of a file.
pub fn classify_asset(path: &str) -> (r: AssetRequest)
    ensures
        is_reserved_spec(strip_query_spec(path@)) ==> r is Reserved,
        !is_reserved_spec(strip_query_spec(path@)) ==> (r matches AssetRequest::File(rel)
            && rel@ == strip_query_spec(path@)),
{
    let p = strip_query(path);
    if is_reserved(p) {
        AssetRequest::Reserved
    } else {
        AssetRequest::File(String::from_str(p))
    }
}

/// The file to read for the relative path `rel`: under the packaged root when it
/// exists, under the source root otherwise.
pub fn asset_path(rel: &str, primary_exists: bool) -> (r: String)
    ensures
        r@ == asset_path_spec(rel@, primary_exists),
{
    let mut r = if primary_exists {
        String::from_str(PRIMARY_ROOT)
    } else {
        String::from_str(SECONDARY_ROOT)
    };
    r.append("/");
    r.append(rel);
    r
}

/// With the packaged root present a file is looked up under it, and without it under
/// the source root. The two lookups never name the same file, so a file that exists
/// only under the root that was not selected is not found.
pub proof fn lemma_root_fallback(rel: Seq<char>)
    ensures
        asset_path_spec(rel, true) == PRIMARY_ROOT@ + "/"@ + rel,
        asset_path_spec(rel, false) == SECONDARY_ROOT@ + "/"@ + rel,
        asset_path_spec(rel, true) != asset_path_spec(rel, false),
{
    reveal_strlit("../yukari/build/yukari-ui");
    reveal_strlit("../yukari-ui");
    reveal_strlit("/");
    let p = asset_path_spec(rel, true);
    let q = asset_path_spec(rel, false);
    assert(p[9] == PRIMARY_ROOT@[9]);
    assert(q[9] == SECONDARY_ROOT@[9]);
}

} // verus!
