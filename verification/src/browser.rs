//! FX preset library browser: which presets pass the search and family
//! filters, in what order the grid shows them, the Save dialog, and what
//! the browser tells the operator after an action.

use vstd::prelude::*;
use vstd::string::*;
use crate::presets::{to_lowercase, unicode_lowercase, PresetStars};
use crate::text::{contains_text, occurs_in, trim_white_space, trimmed, views};

verus! {

/// Render family of a built-in FX preset.
#[derive(Debug, Clone, Copy, PartialEq, Eq, Structural)]
pub enum FxFamily {
    Fragment,
    ComputeParticle,
    ComputeFluid,
}

/// A preset as shown in the browser grid: a built-in registry entry, or a
/// user preset loaded from disk.
pub enum BrowserPreset {
    Builtin { preset_id: String, label: String, family: FxFamily },
    User { preset_id: String, name: String, path: String },
}

pub open spec fn preset_id_of(p: BrowserPreset) -> Seq<char> {
    match p {
        BrowserPreset::Builtin { preset_id, .. } => preset_id@,
        BrowserPreset::User { preset_id, .. } => preset_id@,
    }
}

pub open spec fn label_of(p: BrowserPreset) -> Seq<char> {
    match p {
        BrowserPreset::Builtin { label, .. } => label@,
        BrowserPreset::User { name, .. } => name@,
    }
}

pub open spec fn family_of(p: BrowserPreset) -> Option<FxFamily> {
    match p {
        BrowserPreset::Builtin { family, .. } => Some(family),
        BrowserPreset::User { .. } => None,
    }
}

impl BrowserPreset {
    pub fn preset_id(&self) -> (r: &str)
        ensures
            r@ == preset_id_of(*self),
    {
        match self {
            BrowserPreset::Builtin { preset_id, .. } => preset_id.as_str(),
            BrowserPreset::User { preset_id, .. } => preset_id.as_str(),
        }
    }

    pub fn label(&self) -> (r: &str)
        ensures
            r@ == label_of(*self),
    {
        match self {
            BrowserPreset::Builtin { label, .. } => label.as_str(),
            BrowserPreset::User { name, .. } => name.as_str(),
        }
    }

    pub fn family(&self) -> (r: Option<FxFamily>)
        ensures
            r == family_of(*self),
    {
        match self {
            BrowserPreset::Builtin { family, .. } => Some(*family),
            BrowserPreset::User { .. } => None,
        }
    }

    pub fn is_builtin(&self) -> (r: bool)
        ensures
            r == (*self is Builtin),
    {
        match self {
            BrowserPreset::Builtin { .. } => true,
            BrowserPreset::User { .. } => false,
        }
    }

    /// An identical copy of this entry.
    pub fn duplicate(&self) -> (r: BrowserPreset)
        ensures
            r == *self,
    {
        match self {
            BrowserPreset::Builtin { preset_id, label, family } => BrowserPreset::Builtin {
                preset_id: preset_id.clone(),
                label: label.clone(),
                family: *family,
            },
            BrowserPreset::User { preset_id, name, path } => BrowserPreset::User {
                preset_id: preset_id.clone(),
                name: name.clone(),
                path: path.clone(),
            },
        }
    }
}

/// The browser's search box and family toggles
/// (`[Wave/Fragment, ComputeParticle, ComputeFluid]`).
pub struct BrowserFilter {
    pub filter_query: String,
    pub family_filters: [bool; 3],
}

impl Default for BrowserFilter {
    /// Empty search and every family shown, so the full registry is visible
    /// without any setup.
    fn default() -> (r: Self)
        ensures
            r.filter_query@.len() == 0,
            r.family_filters@ == seq![true, true, true],
    {
        BrowserFilter { filter_query: String::new(), family_filters: [true, true, true] }
    }
}

pub open spec fn spec_family_passes(filters: Seq<bool>, family: Option<FxFamily>) -> bool {
    match family {
        None => true,
        Some(FxFamily::Fragment) => filters[0],
        Some(FxFamily::ComputeParticle) => filters[1],
        Some(FxFamily::ComputeFluid) => filters[2],
    }
}

/// The query matches when it is empty, or when its lower-cased text occurs
/// in the lower-cased preset id or label.
pub open spec fn spec_text_passes(query: Seq<char>, preset_id: Seq<char>, label: Seq<char>) -> bool {
    query.len() == 0 || occurs_in(unicode_lowercase(query), unicode_lowercase(preset_id))
        || occurs_in(unicode_lowercase(query), unicode_lowercase(label))
}

impl BrowserFilter {
    /// Whether a preset of `family` passes the family toggles; user presets
    /// (no family) always pass.
    pub fn family_passes(&self, family: Option<FxFamily>) -> (r: bool)
        ensures
            r == spec_family_passes(self.family_filters@, family),
            family is None ==> r,
            family == Some(FxFamily::Fragment) ==> r == self.family_filters[0],
            family == Some(FxFamily::ComputeParticle) ==> r == self.family_filters[1],
            family == Some(FxFamily::ComputeFluid) ==> r == self.family_filters[2],
    {
        match family {
            None => true,
            Some(FxFamily::Fragment) => self.family_filters[0],
            Some(FxFamily::ComputeParticle) => self.family_filters[1],
            Some(FxFamily::ComputeFluid) => self.family_filters[2],
        }
    }

    /// Whether `preset_id` / `label` passes the text search.
    pub fn text_passes(&self, preset_id: &str, label: &str) -> (r: bool)
        ensures
            r == spec_text_passes(self.filter_query@, preset_id@, label@),
    {
        if self.filter_query.as_str().is_empty() {
            return true;
        }
        let q = to_lowercase(self.filter_query.as_str());
        let id_l = to_lowercase(preset_id);
        if contains_text(id_l.as_str(), q.as_str()) {
            return true;
        }
        let label_l = to_lowercase(label);
        contains_text(label_l.as_str(), q.as_str())
    }
}

/// Whether a preset passes both filters.
pub open spec fn passes(filter: BrowserFilter, p: BrowserPreset) -> bool {
    spec_text_passes(filter.filter_query@, preset_id_of(p), label_of(p)) && spec_family_passes(
        filter.family_filters@,
        family_of(p),
    )
}

/// Whether a preset is starred (never, when the star list is not loaded).
pub open spec fn starred(stars: Option<PresetStars>, p: BrowserPreset) -> bool {
    match stars {
        Some(s) => views(s.starred@).contains(preset_id_of(p)),
        None => false,
    }
}

/// The presets of `list` that pass the filters, starred ones first; order is
/// otherwise kept.
pub open spec fn shown_section(
    filter: BrowserFilter,
    stars: Option<PresetStars>,
    list: Seq<BrowserPreset>,
) -> Seq<BrowserPreset> {
    let kept = list.filter(|p: BrowserPreset| passes(filter, p));
    kept.filter(|p: BrowserPreset| starred(stars, p)) + kept.filter(
        |p: BrowserPreset| !starred(stars, p),
    )
}

fn is_starred_opt(stars: &Option<PresetStars>, p: &BrowserPreset) -> (r: bool)
    ensures
        r == starred(*stars, *p),
{
    match stars {
        Some(s) => s.is_starred(p.preset_id()),
        None => false,
    }
}

fn push_section(
    out: &mut Vec<BrowserPreset>,
    filter: &BrowserFilter,
    stars: &Option<PresetStars>,
    list: &Vec<BrowserPreset>,
)
    ensures
        final(out)@ == old(out)@ + shown_section(*filter, *stars, list@),
{
    let ghost pass = |p: BrowserPreset| passes(*filter, p);
    let ghost star = |p: BrowserPreset| starred(*stars, p);
    let ghost unstar = |p: BrowserPreset| !starred(*stars, p);
    let mut kept: Vec<BrowserPreset> = Vec::new();
    let mut i: usize = 0;
    while i < list.len()
        invariant
            0 <= i <= list@.len(),
            pass == (|p: BrowserPreset| passes(*filter, p)),
            kept@ == list@.take(i as int).filter(pass),
        decreases list.len() - i,
    {
        let p = &list[i];
        let ok = filter.text_passes(p.preset_id(), p.label()) && filter.family_passes(p.family());
        proof {
            reveal(Seq::filter);
            assert(list@.take(i + 1).drop_last() =~= list@.take(i as int));
            assert(list@.take(i + 1).last() == list@[i as int]);
        }
        if ok {
            kept.push(p.duplicate());
        }
        i = i + 1;
    }
    assert(list@.take(list.len() as int) =~= list@);
    let ghost start = out@;
    let mut firsts: Vec<BrowserPreset> = Vec::new();
    let mut rest: Vec<BrowserPreset> = Vec::new();
    let mut j: usize = 0;
    while j < kept.len()
        invariant
            0 <= j <= kept@.len(),
            star == (|p: BrowserPreset| starred(*stars, p)),
            unstar == (|p: BrowserPreset| !starred(*stars, p)),
            firsts@ == kept@.take(j as int).filter(star),
            rest@ == kept@.take(j as int).filter(unstar),
        decreases kept.len() - j,
    {
        let p = &kept[j];
        let s = is_starred_opt(stars, p);
        proof {
            reveal(Seq::filter);
            assert(kept@.take(j + 1).drop_last() =~= kept@.take(j as int));
            assert(kept@.take(j + 1).last() == kept@[j as int]);
        }
        if s {
            firsts.push(p.duplicate());
        } else {
            rest.push(p.duplicate());
        }
        j = j + 1;
    }
    assert(kept@.take(kept.len() as int) =~= kept@);
    out.append(&mut firsts);
    out.append(&mut rest);
    assert(out@ =~= start + shown_section(*filter, *stars, list@));
}

/// All presets the grid shows: built-ins first, then user presets; within
/// each group, only presets passing the filters, starred ones first.
pub fn filtered_presets(
    filter: &BrowserFilter,
    stars: &Option<PresetStars>,
    builtins: &Vec<BrowserPreset>,
    user: &Vec<BrowserPreset>,
) -> (r: Vec<BrowserPreset>)
    ensures
        r@ == shown_section(*filter, *stars, builtins@) + shown_section(*filter, *stars, user@),
{
    let mut out: Vec<BrowserPreset> = Vec::new();
    push_section(&mut out, filter, stars, builtins);
    push_section(&mut out, filter, stars, user);
    assert(out@ =~= shown_section(*filter, *stars, builtins@) + shown_section(*filter, *stars, user@));
    out
}

} // verus!

verus! {

/// Everything the grid shows passes the search and family filters (a
/// family toggle switched off hides that whole family), nothing passing
/// is lost, and no unstarred preset is shown ahead of a starred one.
pub proof fn lemma_shown_section_sound(
    filter: BrowserFilter,
    stars: Option<PresetStars>,
    list: Seq<BrowserPreset>,
)
    ensures
        forall|i: int|
            0 <= i < shown_section(filter, stars, list).len() ==> passes(
                filter,
                #[trigger] shown_section(filter, stars, list)[i],
            ),
        shown_section(filter, stars, list).len() == list.filter(
            |p: BrowserPreset| passes(filter, p),
        ).len(),
        forall|i: int, j: int|
            0 <= i < j < shown_section(filter, stars, list).len() && starred(
                stars,
                #[trigger] shown_section(filter, stars, list)[j],
            ) ==> starred(stars, #[trigger] shown_section(filter, stars, list)[i]),
{
    let pass = |p: BrowserPreset| passes(filter, p);
    let star = |p: BrowserPreset| starred(stars, p);
    let unstar = |p: BrowserPreset| !starred(stars, p);
    let kept = list.filter(pass);
    let a = kept.filter(star);
    let b = kept.filter(unstar);
    let shown = shown_section(filter, stars, list);
    assert(shown == a + b);
    lemma_split_len(kept, star, unstar);
    assert forall|i: int| 0 <= i < shown.len() implies passes(filter, #[trigger] shown[i]) by {
        if i < a.len() {
            kept.lemma_filter_len(star);
            assert(a.contains(shown[i]));
            lemma_filter_subset(kept, star, i);
            let k = choose|k: int| 0 <= k < kept.len() && kept[k] == a[i];
            list.lemma_filter_pred(pass, k);
        } else {
            lemma_filter_subset(kept, unstar, i - a.len());
            let k = choose|k: int| 0 <= k < kept.len() && kept[k] == b[i - a.len()];
            list.lemma_filter_pred(pass, k);
        }
    }
    assert forall|i: int, j: int|
        0 <= i < j < shown.len() && starred(stars, #[trigger] shown[j]) implies starred(
        stars,
        #[trigger] shown[i],
    ) by {
        if i < a.len() {
            kept.lemma_filter_pred(star, i);
        } else {
            kept.lemma_filter_pred(unstar, j - a.len());
        }
    }
}

/// Each family toggle governs its own family and no other: toggle 0 (Wave)
/// the Fragment presets, toggle 1 (Particle) the ComputeParticle presets,
/// toggle 2 (Fluid) the ComputeFluid presets. A shown built-in has its own
/// family's toggle on, and every preset that passes the search and whose
/// family's toggle is on (user presets have no family) is shown.
pub proof fn lemma_family_toggles_govern_their_family(
    filter: BrowserFilter,
    stars: Option<PresetStars>,
    list: Seq<BrowserPreset>,
)
    ensures
        forall|i: int|
            0 <= i < shown_section(filter, stars, list).len() ==> {
                let p = #[trigger] shown_section(filter, stars, list)[i];
                &&& family_of(p) == Some(FxFamily::Fragment) ==> filter.family_filters[0]
                &&& family_of(p) == Some(FxFamily::ComputeParticle) ==> filter.family_filters[1]
                &&& family_of(p) == Some(FxFamily::ComputeFluid) ==> filter.family_filters[2]
            },
        forall|k: int|
            0 <= k < list.len() && spec_text_passes(
                filter.filter_query@,
                preset_id_of(#[trigger] list[k]),
                label_of(list[k]),
            ) && (family_of(list[k]) == Some(FxFamily::Fragment) ==> filter.family_filters[0]) && (
            family_of(list[k]) == Some(FxFamily::ComputeParticle) ==> filter.family_filters[1])
                && (family_of(list[k]) == Some(FxFamily::ComputeFluid)
                ==> filter.family_filters[2]) ==> shown_section(filter, stars, list).contains(
                list[k],
            ),
{
    lemma_shown_section_sound(filter, stars, list);
    let pass = |p: BrowserPreset| passes(filter, p);
    let star = |p: BrowserPreset| starred(stars, p);
    let unstar = |p: BrowserPreset| !starred(stars, p);
    let kept = list.filter(pass);
    let shown = shown_section(filter, stars, list);
    assert forall|k: int|
        0 <= k < list.len() && spec_text_passes(
            filter.filter_query@,
            preset_id_of(#[trigger] list[k]),
            label_of(list[k]),
        ) && (family_of(list[k]) == Some(FxFamily::Fragment) ==> filter.family_filters[0]) && (
        family_of(list[k]) == Some(FxFamily::ComputeParticle) ==> filter.family_filters[1]) && (
        family_of(list[k]) == Some(FxFamily::ComputeFluid) ==> filter.family_filters[2])
        implies shown.contains(list[k]) by {
        let p = list[k];
        assert(passes(filter, p));
        list.lemma_filter_contains(pass, k);
        let j = choose|j: int| 0 <= j < kept.len() && kept[j] == p;
        if starred(stars, p) {
            kept.lemma_filter_contains(star, j);
            let m = choose|m: int| 0 <= m < kept.filter(star).len() && kept.filter(star)[m] == p;
            assert(shown[m] == p);
        } else {
            kept.lemma_filter_contains(unstar, j);
            let m = choose|m: int|
                0 <= m < kept.filter(unstar).len() && kept.filter(unstar)[m] == p;
            assert(shown[kept.filter(star).len() + m] == p);
        }
    }
}

proof fn lemma_filter_subset(s: Seq<BrowserPreset>, f: spec_fn(BrowserPreset) -> bool, i: int)
    requires
        0 <= i < s.filter(f).len(),
    ensures
        exists|k: int| 0 <= k < s.len() && s[k] == s.filter(f)[i],
    decreases s.len(),
{
    reveal(Seq::filter);
    if s.len() > 0 {
        let sub = s.drop_last().filter(f);
        if i < sub.len() {
            lemma_filter_subset(s.drop_last(), f, i);
            let k = choose|k: int| 0 <= k < s.drop_last().len() && s.drop_last()[k] == sub[i];
            assert(s[k] == s.filter(f)[i]);
        } else {
            assert(s[s.len() - 1] == s.filter(f)[i]);
        }
    }
}

proof fn lemma_split_len(
    s: Seq<BrowserPreset>,
    f: spec_fn(BrowserPreset) -> bool,
    g: spec_fn(BrowserPreset) -> bool,
)
    requires
        forall|p: BrowserPreset| #[trigger] g(p) == !f(p),
    ensures
        s.filter(f).len() + s.filter(g).len() == s.len(),
    decreases s.len(),
{
    reveal(Seq::filter);
    if s.len() > 0 {
        lemma_split_len(s.drop_last(), f, g);
    }
}

} // verus!

verus! {

/// State of the "Save as preset…" name dialog.
pub struct SaveDialog {
    pub open: bool,
    /// True only on the first frame after opening, to request focus once.
    pub just_opened: bool,
    /// Name being typed.
    pub name_buf: String,
    /// Layer whose preset is saved.
    pub layer_idx: usize,
}

impl Default for SaveDialog {
    fn default() -> (r: Self)
        ensures
            !r.open,
            !r.just_opened,
            r.name_buf@.len() == 0,
            r.layer_idx == 0,
    {
        SaveDialog { open: false, just_opened: false, name_buf: String::new(), layer_idx: 0 }
    }
}

impl SaveDialog {
    /// Open the dialog for `layer_idx` with an empty name field that takes
    /// focus on the next frame.
    pub fn open_for_layer(&mut self, layer_idx: usize)
        ensures
            final(self).open,
            final(self).just_opened,
            final(self).name_buf@.len() == 0,
            final(self).layer_idx == layer_idx,
    {
        self.open = true;
        self.just_opened = true;
        self.layer_idx = layer_idx;
        self.name_buf = String::new();
    }

    /// Whether the name field should take keyboard focus this frame: true
    /// on the first frame after opening only, so the cursor does not jump
    /// back on every later frame.
    pub fn take_focus_request(&mut self) -> (r: bool)
        ensures
            r == old(self).just_opened,
            !final(self).just_opened,
            final(self).open == old(self).open,
            final(self).name_buf@ == old(self).name_buf@,
            final(self).layer_idx == old(self).layer_idx,
    {
        let r = self.just_opened;
        self.just_opened = false;
        r
    }

    /// Save is enabled once the name holds something besides white space.
    pub fn can_save(&self) -> (r: bool)
        ensures
            r == (trimmed(self.name_buf@).len() > 0),
    {
        let name = trim_white_space(self.name_buf.as_str());
        name.as_str().unicode_len() > 0
    }

    /// The name the preset is saved under: the typed text, trimmed.
    pub fn preset_name(&self) -> (r: String)
        ensures
            r@ == trimmed(self.name_buf@),
    {
        trim_white_space(self.name_buf.as_str())
    }

    /// Save and Cancel both close the dialog and clear the name field.
    pub fn close(&mut self)
        ensures
            !final(self).open,
            final(self).name_buf@.len() == 0,
            final(self).layer_idx == old(self).layer_idx,
            final(self).just_opened == old(self).just_opened,
    {
        self.open = false;
        self.name_buf = String::new();
    }
}

/// The star toggle of a grid cell and its hover text.
pub open spec fn star_text(starred: bool) -> (Seq<char>, Seq<char>) {
    if starred {
        ("\u{2605}"@, "Unstar"@)
    } else {
        ("\u{2606}"@, "Star"@)
    }
}

/// `★` with "Unstar" for a starred preset, `☆` with "Star" otherwise.
pub fn star_toggle_label(starred: bool) -> (r: (&'static str, &'static str))
    ensures
        (r.0@, r.1@) == star_text(starred),
{
    if starred {
        ("\u{2605}", "Unstar")
    } else {
        ("\u{2606}", "Star")
    }
}

/// The outcome of a browser action, as reported to the operator.
pub enum BrowserNotice {
    /// A preset was saved from the Save dialog under this name.
    Saved { name: String },
    /// Saving failed with this error text.
    SaveFailed { error: String },
    /// A user preset with this name was deleted.
    Deleted { name: String },
    DeleteFailed { error: String },
    /// The imported file names an FX preset this build does not have.
    ImportUnsupported { preset_id: String },
    /// The imported file could not be read or parsed.
    ImportUnreadable { error: String },
    /// A preset with this name was imported into the user library.
    Imported { name: String },
    ImportFailed { error: String },
}

/// Whether a notice reports a failure (shown as a warning) rather than a
/// completed action (shown as information).
pub open spec fn is_warning(n: BrowserNotice) -> bool {
    match n {
        BrowserNotice::Saved { .. } => false,
        BrowserNotice::Deleted { .. } => false,
        BrowserNotice::Imported { .. } => false,
        _ => true,
    }
}

/// The text of a notice.
pub open spec fn notice_text(n: BrowserNotice) -> Seq<char> {
    match n {
        BrowserNotice::Saved { name } => "Preset '"@ + name@ + "' saved."@,
        BrowserNotice::SaveFailed { error } => "Could not save preset: "@ + error@,
        BrowserNotice::Deleted { name } => "Preset '"@ + name@ + "' deleted."@,
        BrowserNotice::DeleteFailed { error } => "Could not delete preset: "@ + error@,
        BrowserNotice::ImportUnsupported { preset_id } => "This preset requires a version of rmap that supports '"@
            + preset_id@ + "'. It was not imported."@,
        BrowserNotice::ImportUnreadable { error } => "Could not read preset file: "@ + error@,
        BrowserNotice::Imported { name } => "Imported preset '"@ + name@ + "'."@,
        BrowserNotice::ImportFailed { error } => "Could not import preset: "@ + error@,
    }
}

fn framed(before: &str, middle: &str, after: &str) -> (r: String)
    ensures
        r@ == before@ + middle@ + after@,
{
    let mut s = String::from_str(before);
    s.append(middle);
    s.append(after);
    s
}

impl BrowserNotice {
    /// Whether the notice is a warning.
    pub fn is_warning(&self) -> (r: bool)
        ensures
            r == is_warning(*self),
    {
        match self {
            BrowserNotice::Saved { .. } => false,
            BrowserNotice::Deleted { .. } => false,
            BrowserNotice::Imported { .. } => false,
            _ => true,
        }
    }

    /// The text shown to the operator.
    pub fn text(&self) -> (r: String)
        ensures
            r@ == notice_text(*self),
    {
        let (before, middle, after): (&str, &str, &str) = match self {
            BrowserNotice::Saved { name } => ("Preset '", name.as_str(), "' saved."),
            BrowserNotice::SaveFailed { error } => ("Could not save preset: ", error.as_str(), ""),
            BrowserNotice::Deleted { name } => ("Preset '", name.as_str(), "' deleted."),
            BrowserNotice::DeleteFailed { error } => (
                "Could not delete preset: ",
                error.as_str(),
                "",
            ),
            BrowserNotice::ImportUnsupported { preset_id } => (
                "This preset requires a version of rmap that supports '",
                preset_id.as_str(),
                "'. It was not imported.",
            ),
            BrowserNotice::ImportUnreadable { error } => (
                "Could not read preset file: ",
                error.as_str(),
                "",
            ),
            BrowserNotice::Imported { name } => ("Imported preset '", name.as_str(), "'."),
            BrowserNotice::ImportFailed { error } => ("Could not import preset: ", error.as_str(), ""),
        };
        proof {
            reveal_strlit("");
            assert(""@ =~= Seq::<char>::empty());
        }
        let r = framed(before, middle, after);
        assert(r@ =~= notice_text(*self));
        r
    }
}

/// The question of the delete confirmation dialog.
pub fn delete_question(name: &str) -> (r: String)
    ensures
        r@ == "Delete '"@ + name@ + "'? This cannot be undone."@,
{
    framed("Delete '", name, "'? This cannot be undone.")
}

} // verus!

verus! {

/// Code-point lexicographic order on text: the order `str` compares by
/// (UTF-8 byte order agrees with code-point order).
pub open spec fn text_le(a: Seq<char>, b: Seq<char>) -> bool
    decreases a.len(),
{
    if a.len() == 0 {
        true
    } else if b.len() == 0 {
        false
    } else if (a[0] as u32) < (b[0] as u32) {
        true
    } else if a[0] == b[0] {
        text_le(a.drop_first(), b.drop_first())
    } else {
        false
    }
}

proof fn lemma_char_code_injective(a: char, b: char)
    requires
        (a as u32) == (b as u32),
    ensures
        a == b,
{
}

/// Any two texts are ordered one way or the other.
pub proof fn lemma_text_le_total(a: Seq<char>, b: Seq<char>)
    ensures
        text_le(a, b) || text_le(b, a),
    decreases a.len(),
{
    if a.len() > 0 && b.len() > 0 {
        if (a[0] as u32) == (b[0] as u32) {
            lemma_char_code_injective(a[0], b[0]);
            lemma_text_le_total(a.drop_first(), b.drop_first());
        }
    }
}

/// Every text sorts no later than itself.
pub proof fn lemma_text_le_reflexive(a: Seq<char>)
    ensures
        text_le(a, a),
    decreases a.len(),
{
    if a.len() > 0 {
        lemma_text_le_reflexive(a.drop_first());
    }
}

/// The text order is transitive.
pub proof fn lemma_text_le_transitive(a: Seq<char>, b: Seq<char>, c: Seq<char>)
    requires
        text_le(a, b),
        text_le(b, c),
    ensures
        text_le(a, c),
    decreases a.len(),
{
    if a.len() > 0 && b.len() > 0 && c.len() > 0 {
        if a[0] == b[0] && b[0] == c[0] {
            lemma_text_le_transitive(a.drop_first(), b.drop_first(), c.drop_first());
        }
    }
}

/// Only equal texts sort no later than each other: the order is
/// antisymmetric, so sorting by it decides every pair of distinct names.
pub proof fn lemma_text_le_antisymmetric(a: Seq<char>, b: Seq<char>)
    requires
        text_le(a, b),
        text_le(b, a),
    ensures
        a == b,
    decreases a.len(),
{
    if a.len() > 0 && b.len() > 0 {
        lemma_char_code_injective(a[0], b[0]);
        lemma_text_le_antisymmetric(a.drop_first(), b.drop_first());
        assert(a =~= seq![a[0]] + a.drop_first());
        assert(b =~= seq![b[0]] + b.drop_first());
    } else {
        assert(a =~= b);
    }
}

/// Texts are ordered by their first difference: after a common prefix, the
/// text whose next character has the smaller code sorts first, and not the
/// other way round; a text sorts no later than any extension of it.
pub proof fn lemma_text_le_first_difference(
    prefix: Seq<char>,
    c1: char,
    c2: char,
    rest1: Seq<char>,
    rest2: Seq<char>,
)
    requires
        (c1 as u32) < (c2 as u32),
    ensures
        text_le(prefix + seq![c1] + rest1, prefix + seq![c2] + rest2),
        !text_le(prefix + seq![c2] + rest2, prefix + seq![c1] + rest1),
        text_le(prefix, prefix + rest1),
    decreases prefix.len(),
{
    let x = prefix + seq![c1] + rest1;
    let y = prefix + seq![c2] + rest2;
    if prefix.len() == 0 {
        assert(x[0] == c1 && y[0] == c2);
    } else {
        let tail = prefix.drop_first();
        lemma_text_le_first_difference(tail, c1, c2, rest1, rest2);
        assert(x.drop_first() =~= tail + seq![c1] + rest1);
        assert(y.drop_first() =~= tail + seq![c2] + rest2);
        assert((prefix + rest1).drop_first() =~= tail + rest1);
        assert(x[0] == prefix[0] && y[0] == prefix[0] && (prefix + rest1)[0] == prefix[0]);
    }
}

/// Whether `a` sorts no later than `b` in code-point order.
pub fn text_le_exec(a: &str, b: &str) -> (r: bool)
    ensures
        r == text_le(a@, b@),
{
    let x = crate::text::chars_of(a);
    let y = crate::text::chars_of(b);
    assert(a@.skip(0) =~= a@);
    assert(b@.skip(0) =~= b@);
    let mut i: usize = 0;
    while i < x.len() && i < y.len() && x[i] == y[i]
        invariant
            0 <= i <= x@.len(),
            i <= y@.len(),
            x@ == a@,
            y@ == b@,
            text_le(a@, b@) == text_le(a@.skip(i as int), b@.skip(i as int)),
        decreases x.len() - i,
    {
        proof {
            assert(a@.skip(i as int).drop_first() =~= a@.skip(i + 1));
            assert(b@.skip(i as int).drop_first() =~= b@.skip(i + 1));
        }
        i = i + 1;
    }
    if i == x.len() {
        return true;
    }
    if i == y.len() {
        return false;
    }
    (x[i] as u32) < (y[i] as u32)
}

/// Presets ordered by their displayed name.
pub open spec fn sorted_by_label(s: Seq<BrowserPreset>) -> bool {
    forall|i: int, j: int|
        0 <= i < j < s.len() ==> text_le(label_of(#[trigger] s[i]), label_of(#[trigger] s[j]))
}

/// `out` is `input` rearranged by the index map `p` (`out[k]` is
/// `input[p[k]]`, each input position used once), and entries with the
/// same displayed name keep their input order.
pub open spec fn stable_by_label(input: Seq<BrowserPreset>, out: Seq<BrowserPreset>, p: Seq<int>) -> bool {
    &&& p.len() == input.len()
    &&& out.len() == input.len()
    &&& forall|k: int| 0 <= k < p.len() ==> 0 <= #[trigger] p[k] < input.len()
    &&& forall|k: int| 0 <= k < p.len() ==> #[trigger] out[k] == input[p[k]]
    &&& forall|k1: int, k2: int| 0 <= k1 < k2 < p.len() ==> #[trigger] p[k1] != #[trigger] p[k2]
    &&& forall|k1: int, k2: int|
        0 <= k1 < k2 < p.len() && label_of(#[trigger] out[k1]) == label_of(#[trigger] out[k2])
            ==> p[k1] < p[k2]
}

/// The user presets ordered by name: the same entries, rearranged so that
/// names ascend, entries with the same name keeping their listing order.
pub fn sort_by_label(list: &Vec<BrowserPreset>) -> (r: Vec<BrowserPreset>)
    ensures
        sorted_by_label(r@),
        r@.to_multiset() == list@.to_multiset(),
        exists|p: Seq<int>| stable_by_label(list@, r@, p),
{
    broadcast use vstd::seq_lib::group_to_multiset_ensures;

    let mut out: Vec<BrowserPreset> = Vec::new();
    let ghost mut p: Seq<int> = Seq::empty();
    let mut i: usize = 0;
    while i < list.len()
        invariant
            0 <= i <= list@.len(),
            sorted_by_label(out@),
            out@.to_multiset() == list@.take(i as int).to_multiset(),
            p.len() == out@.len(),
            out@.len() == i,
            forall|k: int| 0 <= k < p.len() ==> 0 <= #[trigger] p[k] < i,
            forall|k: int| 0 <= k < p.len() ==> #[trigger] out@[k] == list@[p[k]],
            forall|k1: int, k2: int| 0 <= k1 < k2 < p.len() ==> #[trigger] p[k1] != #[trigger] p[k2],
            forall|k1: int, k2: int|
                0 <= k1 < k2 < p.len() && label_of(#[trigger] out@[k1]) == label_of(
                    #[trigger] out@[k2],
                ) ==> p[k1] < p[k2],
        decreases list.len() - i,
    {
        let x = list[i].duplicate();
        let mut j: usize = 0;
        while j < out.len() && text_le_exec(out[j].label(), x.label())
            invariant
                0 <= j <= out@.len(),
                forall|k: int| 0 <= k < j ==> text_le(label_of(#[trigger] out@[k]), label_of(x)),
            decreases out.len() - j,
        {
            j = j + 1;
        }
        let ghost before = out@;
        let ghost p_before = p;
        proof {
            if j < out@.len() {
                lemma_text_le_total(label_of(out@[j as int]), label_of(x));
                assert forall|k: int| j <= k < before.len() implies text_le(
                    label_of(x),
                    label_of(#[trigger] before[k]),
                ) && label_of(before[k]) != label_of(x) by {
                    if k > j {
                        lemma_text_le_transitive(
                            label_of(x),
                            label_of(before[j as int]),
                            label_of(before[k]),
                        );
                    }
                    if label_of(before[k]) == label_of(x) {
                        lemma_text_le_reflexive(label_of(x));
                        if k > j {
                            lemma_text_le_transitive(
                                label_of(before[j as int]),
                                label_of(before[k]),
                                label_of(x),
                            );
                        }
                    }
                }
            }
        }
        out.insert(j, x);
        proof {
            p = p_before.insert(j as int, i as int);
            let after = out@;
            assert(after == before.insert(j as int, x));
            assert forall|a: int, b: int| 0 <= a < b < after.len() implies text_le(
                label_of(#[trigger] after[a]),
                label_of(#[trigger] after[b]),
            ) by {
                if b < j {
                    assert(after[a] == before[a] && after[b] == before[b]);
                } else if b == j {
                    assert(after[a] == before[a]);
                } else if a == j {
                    assert(after[b] == before[b - 1]);
                } else if a < j {
                    assert(after[a] == before[a] && after[b] == before[b - 1]);
                } else {
                    assert(after[a] == before[a - 1] && after[b] == before[b - 1]);
                }
            }
            assert forall|k: int| 0 <= k < p.len() implies 0 <= #[trigger] p[k] < i + 1
                && after[k] == list@[p[k]] by {
                if k < j {
                    assert(p[k] == p_before[k] && after[k] == before[k]);
                } else if k > j {
                    assert(p[k] == p_before[k - 1] && after[k] == before[k - 1]);
                }
            }
            assert forall|k1: int, k2: int| 0 <= k1 < k2 < p.len() implies #[trigger] p[k1]
                != #[trigger] p[k2] && (label_of(after[k1]) == label_of(after[k2]) ==> p[k1] < p[k2]) by {
                if k2 < j {
                    assert(p[k1] == p_before[k1] && p[k2] == p_before[k2]);
                    assert(after[k1] == before[k1] && after[k2] == before[k2]);
                } else if k2 == j {
                    assert(p[k1] == p_before[k1] && after[k1] == before[k1]);
                } else if k1 == j {
                    assert(p[k2] == p_before[k2 - 1] && after[k2] == before[k2 - 1]);
                } else if k1 < j {
                    assert(p[k1] == p_before[k1] && p[k2] == p_before[k2 - 1]);
                    assert(after[k1] == before[k1] && after[k2] == before[k2 - 1]);
                } else {
                    assert(p[k1] == p_before[k1 - 1] && p[k2] == p_before[k2 - 1]);
                    assert(after[k1] == before[k1 - 1] && after[k2] == before[k2 - 1]);
                }
            }
            vstd::seq_lib::to_multiset_insert(before, j as int, x);
            assert(list@.take(i + 1) =~= list@.take(i as int).push(list@[i as int]));
            vstd::seq_lib::to_multiset_build(list@.take(i as int), list@[i as int]);
            assert(x == list@[i as int]);
        }
        i = i + 1;
    }
    assert(list@.take(list.len() as int) =~= list@);
    assert(stable_by_label(list@, out@, p));
    out
}

} // verus!
