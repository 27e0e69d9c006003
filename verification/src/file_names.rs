//! Project file naming: every saved show ends in `.rmap.json`.

use vstd::prelude::*;
use vstd::string::*;
use crate::text::{ascii_lower, ascii_lower_char, ends_with, lower_ascii_char};

verus! {

/// The suffix that `Project::load` recognises.
pub const RMAP_JSON_SUFFIX: &'static str = ".rmap.json";

/// Whether a path names an rmap project file: its ASCII-lower-cased text
/// ends in `.rmap.json`.
pub open spec fn names_rmap_project(path: Seq<char>) -> bool {
    ends_with(ascii_lower(path), RMAP_JSON_SUFFIX@)
}

/// The path with `.rmap.json` appended unless it already ends in that
/// suffix (case-insensitively).
pub open spec fn with_rmap_extension(path: Seq<char>) -> Seq<char> {
    if names_rmap_project(path) {
        path
    } else {
        path + RMAP_JSON_SUFFIX@
    }
}

/// Whether `path` ends in `.rmap.json`, ignoring ASCII case.
pub fn path_ends_with_rmap_json(path: &str) -> (r: bool)
    ensures
        r == names_rmap_project(path@),
{
    proof {
        reveal_strlit(".rmap.json");
    }
    let suffix = RMAP_JSON_SUFFIX;
    let n = path.unicode_len();
    let k = suffix.unicode_len();
    if n < k {
        return false;
    }
    let start = n - k;
    let ghost tail = ascii_lower(path@).subrange(start as int, n as int);
    let mut i: usize = 0;
    while i < k
        invariant
            0 <= i <= k,
            k == suffix@.len(),
            suffix@ == RMAP_JSON_SUFFIX@,
            n == path@.len(),
            start == n - k,
            tail == ascii_lower(path@).subrange(start as int, n as int),
            forall|j: int| 0 <= j < i ==> tail[j] == suffix@[j],
        decreases k - i,
    {
        let c = lower_ascii_char(path.get_char(start + i));
        assert(tail[i as int] == ascii_lower_char(path@[start + i]));
        if c != suffix.get_char(i) {
            assert(tail[i as int] != suffix@[i as int]);
            assert(ascii_lower(path@).subrange(start as int, n as int) != RMAP_JSON_SUFFIX@);
            return false;
        }
        i = i + 1;
    }
    assert(tail =~= suffix@);
    true
}

/// Appends `.rmap.json` to `path` unless it already ends in that suffix
/// (compared case-insensitively). A path typed as `show.json` becomes
/// `show.json.rmap.json`: the typed text is kept and the suffix makes the
/// loader unambiguous.
pub fn ensure_rmap_extension(path: String) -> (r: String)
    ensures
        r@ == with_rmap_extension(path@),
{
    if path_ends_with_rmap_json(path.as_str()) {
        path
    } else {
        let mut s = path;
        s.append(RMAP_JSON_SUFFIX);
        s
    }
}

/// Whatever the operator typed, the resulting path names an rmap project,
/// and normalising it again changes nothing.
pub proof fn lemma_extension_idempotent(path: Seq<char>)
    ensures
        names_rmap_project(with_rmap_extension(path)),
        with_rmap_extension(with_rmap_extension(path)) == with_rmap_extension(path),
{
    reveal_strlit(".rmap.json");
    if !names_rmap_project(path) {
        let p = path + RMAP_JSON_SUFFIX@;
        let l = ascii_lower(p);
        let sfx = RMAP_JSON_SUFFIX@;
        assert(l.subrange(l.len() - sfx.len(), l.len() as int) =~= sfx) by {
            assert forall|j: int| 0 <= j < sfx.len() implies #[trigger] l.subrange(
                l.len() - sfx.len(),
                l.len() as int,
            )[j] == sfx[j] by {
                assert(p[path.len() + j] == sfx[j]);
                assert(ascii_lower_char(sfx[j]) == sfx[j]);
            }
        }
    }
}

} // verus!
