//! Preset-library helpers: file-system slugs for user preset names, the
//! starred-preset list, the onboarding flags, and the clock-derived seed.

use vstd::prelude::*;
use vstd::string::*;
use crate::text::{ascii_lower, ascii_lower_char, push_char, views};

verus! {

/// The text `str::to_lowercase` returns for `s`: its Unicode lower-case
/// mapping.
pub uninterp spec fn unicode_lowercase(s: Seq<char>) -> Seq<char>;

/// Lower-cases a string.
///
/// Trusted wrapper around `str::to_lowercase`. The contract names the
/// result: the Unicode lower-case mapping of the input, a function of the
/// text alone. It also states the mapping on ASCII text, where Unicode
/// lower-casing is ASCII lower-casing (`A`..`Z` become `a`..`z`, every other
/// character stays). The mapping table for other characters (including
/// multi-character expansions) is not restated.
#[verifier::external_body]
pub(crate) fn to_lowercase(s: &str) -> (r: String)
    ensures
        r@ == unicode_lowercase(s@),
        is_ascii_text(s@) ==> r@ == ascii_lower(s@),
{
    s.to_lowercase()
}

pub open spec fn is_ascii_alnum(c: char) -> bool {
    ('0' <= c && c <= '9') || ('A' <= c && c <= 'Z') || ('a' <= c && c <= 'z')
}

pub open spec fn is_ascii_char(c: char) -> bool {
    (c as u32) < 128
}

/// Whether every character of the text is ASCII.
pub open spec fn is_ascii_text(s: Seq<char>) -> bool {
    forall|i: int| 0 <= i < s.len() ==> #[trigger] is_ascii_char(s[i])
}

/// The slug character of an ASCII character: letters lower-cased, digits
/// kept, everything else `_`.
pub open spec fn ascii_slug_char(c: char) -> char {
    if is_ascii_alnum(c) {
        ascii_lower_char(c)
    } else {
        '_'
    }
}

/// The slug of ASCII text, character by character.
pub open spec fn ascii_slug(s: Seq<char>) -> Seq<char> {
    s.map_values(|c: char| ascii_slug_char(c))
}

/// A character that may appear in a slug of ASCII text.
pub open spec fn is_slug_char(c: char) -> bool {
    ('a' <= c && c <= 'z') || ('0' <= c && c <= '9') || c == '_'
}

/// The slug of already lower-cased text: ASCII letters and digits are kept,
/// every other ASCII character becomes `_`, and non-ASCII characters are
/// dropped.
pub open spec fn slug_of(s: Seq<char>) -> Seq<char>
    decreases s.len(),
{
    if s.len() == 0 {
        Seq::empty()
    } else {
        let c = s.last();
        let rest = slug_of(s.drop_last());
        if is_ascii_alnum(c) {
            rest.push(c)
        } else if is_ascii_char(c) {
            rest.push('_')
        } else {
            rest
        }
    }
}

fn ascii_alnum(c: char) -> (r: bool)
    ensures
        r == is_ascii_alnum(c),
{
    ('0' <= c && c <= '9') || ('A' <= c && c <= 'Z') || ('a' <= c && c <= 'z')
}

/// The file-system slug of text that is already lower-cased.
pub fn slugify_lowercased(lowered: &str) -> (r: String)
    ensures
        r@ == slug_of(lowered@),
{
    let n = lowered.unicode_len();
    let mut out = String::new();
    let mut i: usize = 0;
    while i < n
        invariant
            0 <= i <= n,
            n == lowered@.len(),
            out@ == slug_of(lowered@.take(i as int)),
        decreases n - i,
    {
        let c = lowered.get_char(i);
        proof {
            assert(lowered@.take(i + 1).drop_last() =~= lowered@.take(i as int));
            assert(lowered@.take(i + 1).last() == c);
        }
        if ascii_alnum(c) {
            push_char(&mut out, c);
        } else if (c as u32) < 128 {
            push_char(&mut out, '_');
        }
        i = i + 1;
    }
    assert(lowered@.take(n as int) =~= lowered@);
    out
}

/// Converts a human name to a file-system slug: lower-case, non-alphanumeric
/// ASCII characters become `_`, non-ASCII characters are stripped.
pub fn slugify(name: &str) -> (r: String)
    ensures
        r@ == slug_of(unicode_lowercase(name@)),
        is_ascii_text(name@) ==> r@ == ascii_slug(name@),
{
    let lowered = to_lowercase(name);
    proof {
        if is_ascii_text(name@) {
            lemma_slug_of_ascii(name@);
        }
    }
    slugify_lowercased(lowered.as_str())
}

proof fn lemma_ascii_char_facts(c: char)
    requires
        is_ascii_char(c),
    ensures
        is_ascii_char(ascii_lower_char(c)),
        is_ascii_alnum(ascii_lower_char(c)) == is_ascii_alnum(c),
        is_slug_char(ascii_slug_char(c)),
        is_ascii_char(ascii_slug_char(c)),
        ascii_slug_char(ascii_slug_char(c)) == ascii_slug_char(c),
{
    if 'A' <= c && c <= 'Z' {
        let l = ((c as u32) + 32) as char;
        assert((l as u32) == (c as u32) + 32);
    }
}

/// On ASCII text, lower-casing and then slugging is the character-wise
/// ASCII slug.
proof fn lemma_slug_of_ascii(s: Seq<char>)
    requires
        is_ascii_text(s),
    ensures
        slug_of(ascii_lower(s)) == ascii_slug(s),
    decreases s.len(),
{
    if s.len() > 0 {
        let t = s.drop_last();
        assert(is_ascii_char(s[s.len() - 1]));
        assert forall|i: int| 0 <= i < t.len() implies #[trigger] is_ascii_char(t[i]) by {
            assert(is_ascii_char(s[i]));
        }
        lemma_slug_of_ascii(t);
        lemma_ascii_char_facts(s.last());
        assert(ascii_lower(s).drop_last() =~= ascii_lower(t));
        assert(ascii_lower(s).last() == ascii_lower_char(s.last()));
        assert(ascii_slug(s) =~= ascii_slug(t).push(ascii_slug_char(s.last())));
    } else {
        assert(ascii_lower(s) =~= Seq::<char>::empty());
        assert(ascii_slug(s) =~= Seq::<char>::empty());
    }
}

/// The slug of ASCII text keeps its length, holds only `a`-`z`, `0`-`9` and
/// `_`, and slugging it again changes nothing: for an ASCII name,
/// `slugify(&slugify(name)) == slugify(name)`.
pub proof fn lemma_ascii_slug_is_lowercase_and_idempotent(s: Seq<char>)
    requires
        is_ascii_text(s),
    ensures
        ascii_slug(s).len() == s.len(),
        forall|i: int| 0 <= i < s.len() ==> #[trigger] is_slug_char(ascii_slug(s)[i]),
        is_ascii_text(ascii_slug(s)),
        ascii_slug(ascii_slug(s)) == ascii_slug(s),
{
    assert forall|i: int| 0 <= i < s.len() implies #[trigger] is_slug_char(ascii_slug(s)[i])
        && is_ascii_char(ascii_slug(s)[i]) && ascii_slug_char(ascii_slug(s)[i]) == ascii_slug(
        s,
    )[i] by {
        assert(is_ascii_char(s[i]));
        lemma_ascii_char_facts(s[i]);
    }
    assert(ascii_slug(ascii_slug(s)) =~= ascii_slug(s));
}

/// A slug never grows, and it holds only ASCII letters, digits and `_`,
/// so it is always safe as a file name stem.
pub proof fn lemma_slug_is_file_safe(s: Seq<char>)
    ensures
        slug_of(s).len() <= s.len(),
        forall|i: int|
            0 <= i < slug_of(s).len() ==> #[trigger] is_ascii_alnum(slug_of(s)[i]) || slug_of(s)[i]
                == '_',
    decreases s.len(),
{
    if s.len() > 0 {
        lemma_slug_is_file_safe(s.drop_last());
    }
}

/// Removes every copy of `id` from a list of ids.
pub open spec fn without(ids: Seq<Seq<char>>, id: Seq<char>) -> Seq<Seq<char>> {
    ids.filter(|s: Seq<char>| s != id)
}

/// The starred list after toggling `id`: a starred id is removed (every
/// copy), an unstarred one is appended.
pub open spec fn toggled_stars(ids: Seq<Seq<char>>, id: Seq<char>) -> Seq<Seq<char>> {
    if ids.contains(id) {
        without(ids, id)
    } else {
        ids.push(id)
    }
}

/// The operator's starred presets, by preset id. Stored on disk as
/// `{ "starred": [...] }`.
pub struct PresetStars {
    pub starred: Vec<String>,
}

impl Default for PresetStars {
    fn default() -> (r: Self)
        ensures
            r.starred@.len() == 0,
    {
        PresetStars { starred: Vec::new() }
    }
}

impl PresetStars {
    /// Whether the preset is starred.
    pub fn is_starred(&self, preset_id: &str) -> (r: bool)
        ensures
            r == views(self.starred@).contains(preset_id@),
    {
        let id = String::from_str(preset_id);
        let mut i: usize = 0;
        while i < self.starred.len()
            invariant
                0 <= i <= self.starred.len(),
                id@ == preset_id@,
                forall|j: int| 0 <= j < i ==> self.starred@[j]@ != preset_id@,
            decreases self.starred.len() - i,
        {
            if self.starred[i] == id {
                assert(views(self.starred@)[i as int] == preset_id@);
                return true;
            }
            i = i + 1;
        }
        proof {
            if views(self.starred@).contains(preset_id@) {
                let j = choose|j: int|
                    0 <= j < views(self.starred@).len() && views(self.starred@)[j] == preset_id@;
                assert(self.starred@[j]@ == preset_id@);
            }
        }
        false
    }

    /// Toggle a preset's star: if starred, remove it; if not, add it.
    /// Persisting the list is the caller's business.
    pub fn toggle(&mut self, preset_id: &str)
        ensures
            views(final(self).starred@) == toggled_stars(views(old(self).starred@), preset_id@),
    {
        if self.is_starred(preset_id) {
            let ghost old_ids = views(self.starred@);
            let id = String::from_str(preset_id);
            let mut kept: Vec<String> = Vec::new();
            let mut i: usize = 0;
            while i < self.starred.len()
                invariant
                    0 <= i <= self.starred.len(),
                    old_ids == views(self.starred@),
                    id@ == preset_id@,
                    views(kept@) == without(old_ids.take(i as int), preset_id@),
                decreases self.starred.len() - i,
            {
                proof {
                    reveal(Seq::filter);
                    assert(old_ids.take(i + 1).drop_last() =~= old_ids.take(i as int));
                    assert(old_ids.take(i + 1).last() == self.starred@[i as int]@);
                }
                if self.starred[i] != id {
                    kept.push(self.starred[i].clone());
                    proof {
                        assert(views(kept@) =~= views(kept@).drop_last().push(
                            self.starred@[i as int]@,
                        ));
                    }
                }
                i = i + 1;
            }
            assert(old_ids.take(self.starred.len() as int) =~= old_ids);
            self.starred = kept;
        } else {
            self.starred.push(String::from_str(preset_id));
            assert(views(self.starred@) =~= views(old(self).starred@).push(preset_id@));
        }
    }
}

/// Starring flips membership, and toggling an unstarred preset twice gives
/// back exactly the list it started from.
pub proof fn lemma_toggle_flips_and_undoes(ids: Seq<Seq<char>>, id: Seq<char>)
    ensures
        toggled_stars(ids, id).contains(id) == !ids.contains(id),
        !ids.contains(id) ==> toggled_stars(toggled_stars(ids, id), id) == ids,
{
    let pred = |s: Seq<char>| s != id;
    if ids.contains(id) {
        assert(!without(ids, id).contains(id)) by {
            if without(ids, id).contains(id) {
                let i = choose|i: int| 0 <= i < without(ids, id).len() && without(ids, id)[i] == id;
                ids.lemma_filter_pred(pred, i);
            }
        }
    } else {
        assert(ids.push(id).contains(id)) by {
            assert(ids.push(id)[ids.len() as int] == id);
        }
        assert(ids.push(id).drop_last() =~= ids);
        assert(without(ids.push(id), id) =~= without(ids, id)) by {
            reveal(Seq::filter);
        }
        assert(without(ids, id) =~= ids) by {
            lemma_filter_keeps_all(ids, id);
        }
    }
}

proof fn lemma_filter_keeps_all(ids: Seq<Seq<char>>, id: Seq<char>)
    requires
        !ids.contains(id),
    ensures
        without(ids, id) == ids,
    decreases ids.len(),
{
    reveal(Seq::filter);
    if ids.len() > 0 {
        assert(!ids.drop_last().contains(id)) by {
            if ids.drop_last().contains(id) {
                let i = choose|i: int| 0 <= i < ids.drop_last().len() && ids.drop_last()[i] == id;
                assert(ids[i] == id);
            }
        }
        lemma_filter_keeps_all(ids.drop_last(), id);
        assert(ids.last() != id) by {
            if ids.last() == id {
                assert(ids[ids.len() - 1] == id);
            }
        }
        assert(ids.drop_last().push(ids.last()) =~= ids);
    }
}

/// Persistent UI-education flags, so each onboarding notice fires at most
/// once per machine.
pub struct UiFlags {
    /// Set once the "Effects merged into the Layers tab as Look chain"
    /// onboarding toast has been shown.
    pub look_chain_toast_seen: bool,
}

impl Default for UiFlags {
    fn default() -> (r: Self)
        ensures
            !r.look_chain_toast_seen,
    {
        UiFlags { look_chain_toast_seen: false }
    }
}

/// Seed for a new FX layer from the clock reading: nanoseconds since the
/// UNIX epoch truncated to 64 bits, or `12345` when the clock reads before
/// the epoch.
pub fn seed_from_clock(nanos_since_epoch: Option<u128>) -> (r: u64)
    ensures
        r == match nanos_since_epoch {
            Some(n) => n as u64,
            None => 12345u64,
        },
{
    match nanos_since_epoch {
        Some(n) => n as u64,
        None => 12345,
    }
}

} // verus!

verus! {

/// Suffix of a single-preset transport file.
pub const PRESET_FILE_SUFFIX: &'static str = ".rmap-preset.json";

/// File name under which a user preset called `name` is saved or exported:
/// its slug plus `.rmap-preset.json`.
pub fn preset_file_name(name: &str) -> (r: String)
    ensures
        r@ == slug_of(unicode_lowercase(name@)) + PRESET_FILE_SUFFIX@,
{
    let mut s = slugify(name);
    s.append(PRESET_FILE_SUFFIX);
    s
}

/// Whether a directory entry is a user preset file.
pub fn is_user_preset_file_name(file_name: &str) -> (r: bool)
    ensures
        r == crate::text::ends_with(file_name@, PRESET_FILE_SUFFIX@),
{
    crate::text::ends_with_text(file_name, PRESET_FILE_SUFFIX)
}

} // verus!
