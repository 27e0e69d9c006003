//! State of the control panel and the decisions its widgets make: the
//! bundled effect-chain presets, which layer is selected as layers move,
//! the project Save field, and padding the scene slots on save.

use vstd::prelude::*;
use vstd::string::*;

use crate::browser::{
    lemma_text_le_reflexive, lemma_text_le_total, lemma_text_le_transitive, text_le, text_le_exec,
};
use crate::labels::Effect;
use crate::sections::ControlTab;
use crate::selection::Selection;
use crate::text::{trim_white_space, trimmed};

verus! {

/// One named effect-chain bundle authored as JSON in `assets/presets/`.
/// Applying it replaces the selected layer's effects wholesale.
#[derive(Debug, Clone, PartialEq)]
pub struct Preset {
    pub name: String,
    pub effects: Vec<Effect>,
}

/// Widget state of the control panel that outlives a frame. The queues of
/// pending mutations and the texture caches belong to the application loop
/// and are kept there.
pub struct ControlPanelState {
    pub tab: ControlTab,
    pub selected_layer: usize,
    /// Buffer of the "add layer" path field.
    pub new_layer_path_input: String,
    pub add_layer_error: String,
    /// Target path of **Save** in the project section (`*.rmap.json`).
    pub project_save_path: String,
    pub project_save_message: String,
    /// Preset bundles, loaded on first show and on "Reload".
    pub presets: Vec<Preset>,
    /// Set once loading was tried, so an empty directory is not rescanned
    /// every frame.
    pub presets_loaded: bool,
    /// Selected entry of the preset dropdown.
    pub preset_picker_index: usize,
    /// Whether the floating Controls window is open.
    pub controls_open: bool,
    /// Whether the Glossary window is open.
    pub glossary_open: bool,
    /// Whether the Output side panel is open.
    pub output_panel_open: bool,
}

impl Default for ControlPanelState {
    /// The Scene tab, the first layer, empty text fields, no presets loaded
    /// and every window closed.
    fn default() -> (r: Self)
        ensures
            r.tab == ControlTab::Scene,
            r.selected_layer == 0,
            r.new_layer_path_input@ == Seq::<char>::empty(),
            r.add_layer_error@ == Seq::<char>::empty(),
            r.project_save_path@ == Seq::<char>::empty(),
            r.project_save_message@ == Seq::<char>::empty(),
            r.presets@ == Seq::<Preset>::empty(),
            !r.presets_loaded,
            r.preset_picker_index == 0,
            !r.controls_open,
            !r.glossary_open,
            !r.output_panel_open,
    {
        ControlPanelState {
            tab: ControlTab::Scene,
            selected_layer: 0,
            new_layer_path_input: String::new(),
            add_layer_error: String::new(),
            project_save_path: String::new(),
            project_save_message: String::new(),
            presets: Vec::new(),
            presets_loaded: false,
            preset_picker_index: 0,
            controls_open: false,
            glossary_open: false,
            output_panel_open: false,
        }
    }
}

/// What the control panel asks the application to do after a frame.
#[derive(Debug, Clone, Copy, PartialEq, Eq, Structural)]
pub enum ControlPanelAction {
    /// Nothing to do this frame.
    Idle,
    /// Reload the GPU layer runtime from the project's layer paths.
    RebuildLayers,
    /// Recall a scene slot, through the same crossfade scheduling as the
    /// keyboard hotkey.
    SceneRecall(usize),
    RequestUndo,
    RequestRedo,
    /// Save to the current project file, or ask for one if none is known.
    RequestSave,
    RequestSaveAs,
    RequestEnterGoLive,
    RequestExitGoLive,
    RequestOpenPreview,
    RequestClosePreview,
    /// Bring the already-open preview window to the front.
    FocusPreview,
}

// ---------------------------------------------------------------------------
// Preset discovery
// ---------------------------------------------------------------------------

/// Whether a file name has the extension `json`, as `Path::extension`
/// splits it: the text after the last dot, where a name whose only dot is
/// its first character has no extension.
pub open spec fn spec_has_json_extension(file_name: Seq<char>) -> bool {
    file_name.len() > 5 && file_name.subrange(file_name.len() - 5, file_name.len() as int)
        == ".json"@
}

/// Whether a directory entry is a preset bundle candidate (`*.json`).
pub fn has_json_extension(file_name: &str) -> (r: bool)
    ensures
        r == spec_has_json_extension(file_name@),
{
    proof {
        reveal_strlit(".json");
    }
    let n = file_name.unicode_len();
    if n <= 5 {
        return false;
    }
    let ok = file_name.get_char(n - 5) == '.' && file_name.get_char(n - 4) == 'j'
        && file_name.get_char(n - 3) == 's' && file_name.get_char(n - 2) == 'o'
        && file_name.get_char(n - 1) == 'n';
    let ghost tail = file_name@.subrange(n - 5, n as int);
    assert(ok ==> tail =~= ".json"@);
    assert(tail == ".json"@ ==> (tail[0] == '.' && tail[1] == 'j' && tail[2] == 's' && tail[3]
        == 'o' && tail[4] == 'n'));
    ok
}

/// Presets ordered by name.
pub open spec fn sorted_by_name(s: Seq<Preset>) -> bool {
    forall|i: int, j: int|
        0 <= i < j < s.len() ==> text_le((#[trigger] s[i]).name@, (#[trigger] s[j]).name@)
}

/// `out` is `input` rearranged by the index map `p` (`out[k]` is
/// `input[p[k]]`, each input position used once), and presets with the same
/// name keep their input order.
pub open spec fn stable_rearrangement(input: Seq<Preset>, out: Seq<Preset>, p: Seq<int>) -> bool {
    &&& p.len() == input.len()
    &&& out.len() == input.len()
    &&& forall|k: int| 0 <= k < p.len() ==> 0 <= #[trigger] p[k] < input.len()
    &&& forall|k: int| 0 <= k < p.len() ==> #[trigger] out[k] == input[p[k]]
    &&& forall|k1: int, k2: int| 0 <= k1 < k2 < p.len() ==> #[trigger] p[k1] != #[trigger] p[k2]
    &&& forall|k1: int, k2: int|
        0 <= k1 < k2 < p.len() && (#[trigger] out[k1]).name@ == (#[trigger] out[k2]).name@ ==> p[k1]
            < p[k2]
}

/// The loaded presets ordered by name, so the dropdown reads the same on
/// every run whatever order the directory listing gave. The sort is
/// stable: presets with the same name keep their listing order.
pub fn sort_presets_by_name(presets: Vec<Preset>) -> (r: Vec<Preset>)
    ensures
        sorted_by_name(r@),
        r@.to_multiset() == presets@.to_multiset(),
        exists|p: Seq<int>| stable_rearrangement(presets@, r@, p),
{
    broadcast use vstd::seq_lib::group_to_multiset_ensures;
    broadcast use vstd::multiset::group_multiset_axioms;

    let ghost all = presets@;
    let mut rest = presets;
    let mut out: Vec<Preset> = Vec::new();
    let ghost mut p: Seq<int> = Seq::empty();
    assert(out@.to_multiset().add(rest@.to_multiset()) =~= all.to_multiset());
    assert(rest@ =~= all.take(rest@.len() as int));
    while rest.len() > 0
        invariant
            sorted_by_name(out@),
            out@.to_multiset().add(rest@.to_multiset()) == all.to_multiset(),
            rest@ == all.take(rest@.len() as int),
            rest@.len() <= all.len(),
            p.len() == out@.len(),
            out@.len() + rest@.len() == all.len(),
            forall|k: int| 0 <= k < p.len() ==> rest@.len() <= #[trigger] p[k] < all.len(),
            forall|k: int| 0 <= k < p.len() ==> #[trigger] out@[k] == all[p[k]],
            forall|k1: int, k2: int| 0 <= k1 < k2 < p.len() ==> #[trigger] p[k1] != #[trigger] p[k2],
            forall|k1: int, k2: int|
                0 <= k1 < k2 < p.len() && (#[trigger] out@[k1]).name@ == (
                #[trigger] out@[k2]).name@ ==> p[k1] < p[k2],
        decreases rest.len(),
    {
        let ghost rest_before = rest@;
        let x = rest.pop().unwrap();
        let ghost m = rest@.len() as int;
        proof {
            assert(rest_before =~= rest@.push(x));
            vstd::seq_lib::to_multiset_build(rest@, x);
            assert(x == all[m]);
            assert(rest@ =~= all.take(m));
        }
        let mut j: usize = 0;
        while j < out.len() && !text_le_exec(x.name.as_str(), out[j].name.as_str())
            invariant
                0 <= j <= out@.len(),
                forall|k: int|
                    0 <= k < j ==> text_le((#[trigger] out@[k]).name@, x.name@) && out@[k].name@
                        != x.name@,
            decreases out.len() - j,
        {
            proof {
                lemma_text_le_total(x.name@, out@[j as int].name@);
                lemma_text_le_reflexive(x.name@);
            }
            j = j + 1;
        }
        let ghost before = out@;
        let ghost p_before = p;
        proof {
            if j < out@.len() {
                assert forall|k: int| j <= k < before.len() implies text_le(
                    x.name@,
                    (#[trigger] before[k]).name@,
                ) by {
                    if k > j {
                        lemma_text_le_transitive(x.name@, before[j as int].name@, before[k].name@);
                    }
                }
            }
        }
        out.insert(j, x);
        proof {
            p = p_before.insert(j as int, m);
            let after = out@;
            assert(after == before.insert(j as int, x));
            assert forall|a: int, b: int| 0 <= a < b < after.len() implies text_le(
                (#[trigger] after[a]).name@,
                (#[trigger] after[b]).name@,
            ) by {
                if b < j {
                    assert(after[a] == before[a] && after[b] == before[b]);
                } else if b == j {
                    assert(after[a] == before[a]);
                } else if a == j {
                    assert(after[b] == before[b - 1]);
                } else if a < j {
                    assert(after[a] == before[a] && after[b] == before[b - 1]);
                } else {
                    assert(after[a] == before[a - 1] && after[b] == before[b - 1]);
                }
            }
            assert forall|k: int| 0 <= k < p.len() implies rest@.len() <= #[trigger] p[k] < all.len()
                && after[k] == all[p[k]] by {
                if k < j {
                    assert(p[k] == p_before[k] && after[k] == before[k]);
                } else if k > j {
                    assert(p[k] == p_before[k - 1] && after[k] == before[k - 1]);
                }
            }
            assert forall|k1: int, k2: int| 0 <= k1 < k2 < p.len() implies #[trigger] p[k1]
                != #[trigger] p[k2] && (after[k1].name@ == after[k2].name@ ==> p[k1] < p[k2]) by {
                if k2 < j {
                    assert(p[k1] == p_before[k1] && p[k2] == p_before[k2]);
                    assert(after[k1] == before[k1] && after[k2] == before[k2]);
                } else if k2 == j {
                    assert(p[k1] == p_before[k1] && after[k1] == before[k1]);
                } else if k1 == j {
                    assert(p[k2] == p_before[k2 - 1]);
                } else if k1 < j {
                    assert(p[k1] == p_before[k1] && p[k2] == p_before[k2 - 1]);
                    assert(after[k1] == before[k1] && after[k2] == before[k2 - 1]);
                } else {
                    assert(p[k1] == p_before[k1 - 1] && p[k2] == p_before[k2 - 1]);
                    assert(after[k1] == before[k1 - 1] && after[k2] == before[k2 - 1]);
                }
            }
            vstd::seq_lib::to_multiset_insert(before, j as int, x);
            assert(out@.to_multiset().add(rest@.to_multiset()) =~= before.to_multiset().add(
                rest_before.to_multiset(),
            ));
        }
    }
    assert(rest@.to_multiset() =~= vstd::multiset::Multiset::<Preset>::empty());
    assert(out@.to_multiset().add(rest@.to_multiset()) =~= out@.to_multiset());
    assert(stable_rearrangement(all, out@, p));
    out
}

// ---------------------------------------------------------------------------
// Selection bookkeeping
// ---------------------------------------------------------------------------

/// An index pulled back into a list of `len` entries, as the layer and
/// preset dropdowns do before they index their list; 0 when the list is
/// empty.
pub open spec fn spec_clamp_index(idx: usize, len: usize) -> usize {
    if len == 0 {
        0
    } else if idx < len {
        idx
    } else {
        (len - 1) as usize
    }
}

/// `idx` limited to the last entry of a list of `len` entries.
pub fn clamp_index(idx: usize, len: usize) -> (r: usize)
    ensures
        r == spec_clamp_index(idx, len),
        len > 0 ==> r < len,
{
    if len == 0 {
        0
    } else if idx < len {
        idx
    } else {
        len - 1
    }
}

/// The list with the entries at `i` and `j` exchanged.
pub open spec fn swapped<A>(s: Seq<A>, i: int, j: int) -> Seq<A> {
    s.update(i, s[j]).update(j, s[i])
}

/// The selected position after the rows at `i` and `j` trade places.
pub open spec fn spec_selection_after_swap(selected: usize, i: usize, j: usize) -> usize {
    if selected == i {
        j
    } else if selected == j {
        i
    } else {
        selected
    }
}

/// Where the selection goes when the layers at `i` and `j` are swapped by
/// the up / down arrows: it moves with the layer it was on.
pub fn selection_after_swap(selected: usize, i: usize, j: usize) -> (r: usize)
    ensures
        r == spec_selection_after_swap(selected, i, j),
{
    if selected == i {
        j
    } else if selected == j {
        i
    } else {
        selected
    }
}

/// Reordering never changes which layer is selected: after the swap, the
/// new selected position holds the layer the old one held.
pub proof fn lemma_selection_follows_swapped_layer<A>(
    layers: Seq<A>,
    selected: usize,
    i: usize,
    j: usize,
)
    requires
        selected < layers.len(),
        i < layers.len(),
        j < layers.len(),
    ensures
        spec_selection_after_swap(selected, i, j) < layers.len(),
        swapped(layers, i as int, j as int)[spec_selection_after_swap(selected, i, j) as int]
            == layers[selected as int],
{
}

/// The layer a canvas selection implies: a whole layer, or the layer whose
/// warp corner is being dragged. A mask vertex implies none.
pub open spec fn selection_layer(sel: Option<Selection>) -> Option<usize> {
    match sel {
        Some(Selection::Layer(idx)) => Some(idx),
        Some(Selection::WarpCorner { warp, .. }) => Some(warp),
        _ => None,
    }
}

/// The layer implied by the canvas selection, if any.
pub fn layer_of_selection(sel: Option<Selection>) -> (r: Option<usize>)
    ensures
        r == selection_layer(sel),
{
    match sel {
        Some(Selection::Layer(idx)) => Some(idx),
        Some(Selection::WarpCorner { warp, .. }) => Some(warp),
        _ => None,
    }
}

impl ControlPanelState {
    /// Keeps the panel's selected layer in step with the canvas selection:
    /// a selection that implies an existing layer selects it; anything
    /// else leaves the panel's choice alone.
    pub fn follow_selection(&mut self, sel: Option<Selection>, n_layers: usize)
        ensures
            final(self).selected_layer == (match selection_layer(sel) {
                Some(idx) => if idx < n_layers {
                    idx
                } else {
                    old(self).selected_layer
                },
                None => old(self).selected_layer,
            }),
            final(self).tab == old(self).tab,
            final(self).presets@ == old(self).presets@,
            final(self).preset_picker_index == old(self).preset_picker_index,
            final(self).project_save_path@ == old(self).project_save_path@,
            final(self).project_save_message@ == old(self).project_save_message@,
            final(self).new_layer_path_input@ == old(self).new_layer_path_input@,
            final(self).add_layer_error@ == old(self).add_layer_error@,
            final(self).presets_loaded == old(self).presets_loaded,
            final(self).controls_open == old(self).controls_open,
            final(self).glossary_open == old(self).glossary_open,
            final(self).output_panel_open == old(self).output_panel_open,
    {
        if let Some(idx) = layer_of_selection(sel) {
            if idx < n_layers {
                self.selected_layer = idx;
            }
        }
    }
}

} // verus!

verus! {

// ---------------------------------------------------------------------------
// The project Save field
// ---------------------------------------------------------------------------

/// Why the Save button refused the path field.
#[derive(Debug, Clone, Copy, PartialEq, Eq, Structural)]
pub enum SavePathProblem {
    /// Nothing but white space was typed.
    Empty,
    /// The name does not end in `.rmap.json`.
    NotRmapJson,
}

pub open spec fn problem_text(p: SavePathProblem) -> Seq<char> {
    match p {
        SavePathProblem::Empty => "Enter a path ending in .rmap.json"@,
        SavePathProblem::NotRmapJson => "Filename should end with .rmap.json"@,
    }
}

impl SavePathProblem {
    /// The message shown under the Save field.
    pub fn message(&self) -> (r: &'static str)
        ensures
            r@ == problem_text(*self),
    {
        match self {
            SavePathProblem::Empty => "Enter a path ending in .rmap.json",
            SavePathProblem::NotRmapJson => "Filename should end with .rmap.json",
        }
    }
}

/// What the Save button does with the path field: the trimmed path to save
/// to, or the reason it refuses. The suffix test is case-sensitive, as the
/// Save button applies it.
pub fn check_project_save_path(path: &str) -> (r: Result<String, SavePathProblem>)
    ensures
        match r {
            Ok(p) => p@ == trimmed(path@) && trimmed(path@).len() > 0 && crate::text::ends_with(
                trimmed(path@),
                ".rmap.json"@,
            ),
            Err(SavePathProblem::Empty) => trimmed(path@).len() == 0,
            Err(SavePathProblem::NotRmapJson) => trimmed(path@).len() > 0
                && !crate::text::ends_with(trimmed(path@), ".rmap.json"@),
        },
{
    let t = trim_white_space(path);
    if t.as_str().unicode_len() == 0 {
        Err(SavePathProblem::Empty)
    } else if !crate::text::ends_with_text(t.as_str(), ".rmap.json") {
        Err(SavePathProblem::NotRmapJson)
    } else {
        Ok(t)
    }
}

/// The message shown after a save attempt on `saved_path`: where it went,
/// or the error text of the failure.
pub fn save_outcome_message(saved_path: &str, outcome: &Result<(), String>) -> (r: String)
    ensures
        r@ == (match outcome {
            Ok(_) => "Saved to "@ + saved_path@,
            Err(e) => "Save failed: "@ + e@,
        }),
{
    match outcome {
        Ok(_) => {
            let mut s = String::from_str("Saved to ");
            s.append(saved_path);
            s
        },
        Err(e) => {
            let mut s = String::from_str("Save failed: ");
            s.append(e.as_str());
            s
        },
    }
}

} // verus!

verus! {

/// The name of the placeholder scene in slot position `i` (0-based):
/// `scene1`, `scene2`, ...
pub open spec fn placeholder_scene_name(i: nat) -> Seq<char> {
    "scene"@ + crate::text::dec(i + 1)
}

/// Saving into scene slot `slot` past the end of the scene list first pads
/// the list with named placeholder scenes, so the slot exists. Existing
/// scenes keep their names and positions.
pub fn pad_scene_slots(names: &mut Vec<String>, slot: usize)
    requires
        slot < usize::MAX,
    ensures
        final(names)@.len() == (if old(names)@.len() > slot {
            old(names)@.len()
        } else {
            (slot + 1) as nat
        }),
        forall|i: int| 0 <= i < old(names)@.len() ==> (#[trigger] final(names)@[i])@ == old(names)@[i]@,
        forall|i: int|
            old(names)@.len() <= i < final(names)@.len() ==> (#[trigger] final(names)@[i])@
                == placeholder_scene_name(i as nat),
{
    let ghost before = names@;
    while names.len() <= slot
        invariant
            slot < usize::MAX,
            before.len() <= names@.len(),
            before.len() > slot ==> names@.len() == before.len(),
            before.len() <= slot ==> names@.len() <= slot + 1,
            forall|i: int| 0 <= i < before.len() ==> (#[trigger] names@[i])@ == before[i]@,
            forall|i: int|
                before.len() <= i < names@.len() ==> (#[trigger] names@[i])@
                    == placeholder_scene_name(i as nat),
        decreases slot + 1 - names@.len(),
    {
        let n = names.len();
        let mut name = String::from_str("scene");
        crate::text::push_decimal(&mut name, (n as u64) + 1);
        names.push(name);
    }
}

} // verus!
