//! Layer-list decisions: the solo toggle, fresh non-colliding ids for new
//! layers, the reorder arrows, how a rail row is decorated, and which kind
//! of layer a picked file becomes.

use vstd::prelude::*;
use vstd::string::*;
use crate::labels::LoopMode;
use crate::text::{
    ascii_lower, contains_string, dec, eq_ignore_ascii_case, lemma_some_id_free, push_decimal, views,
};

verus! {

/// The project's single solo slot after the operator clicks S on
/// `clicked_idx`: clicking the solo'd layer clears the solo, clicking any
/// other layer solos it (which implicitly clears the previous solo).
pub open spec fn spec_next_solo(current: Option<usize>, clicked_idx: usize) -> Option<usize> {
    if current == Some(clicked_idx) {
        None
    } else {
        Some(clicked_idx)
    }
}

/// Next `Project.solo` value when the user clicks the S button on
/// `clicked_idx`.
pub fn next_solo(current: Option<usize>, clicked_idx: usize) -> (r: Option<usize>)
    ensures
        r == spec_next_solo(current, clicked_idx),
{
    match current {
        Some(c) => {
            if c == clicked_idx {
                None
            } else {
                Some(clicked_idx)
            }
        },
        None => Some(clicked_idx),
    }
}

/// Clicking S twice on the same layer gives back the solo state the
/// project started in, whenever that layer was solo'd or nothing was.
pub proof fn lemma_solo_click_twice_restores(current: Option<usize>, clicked_idx: usize)
    requires
        current == Some(clicked_idx) || current is None,
    ensures
        spec_next_solo(spec_next_solo(current, clicked_idx), clicked_idx) == current,
{
}

/// After a click on `clicked_idx`, that layer is solo'd exactly when it was
/// not solo'd before, and no other layer is solo'd.
pub proof fn lemma_solo_click_flips(current: Option<usize>, clicked_idx: usize)
    ensures
        (spec_next_solo(current, clicked_idx) == Some(clicked_idx)) <==> (current != Some(
            clicked_idx,
        )),
        forall|other: usize|
            other != clicked_idx ==> spec_next_solo(current, clicked_idx) != Some(other),
{
}

/// `r` is the first id `prefix + n` (counting from `start`) that no
/// layer already uses.
pub open spec fn is_first_free_id(
    taken: Seq<Seq<char>>,
    prefix: Seq<char>,
    start: nat,
    r: Seq<char>,
) -> bool {
    exists|n: nat|
        start <= n && #[trigger] (prefix + dec(n)) == r && !taken.contains(r) && forall|m: nat|
            start <= m < n ==> taken.contains(#[trigger] (prefix + dec(m)))
}

fn numbered_id(prefix: &str, n: u64) -> (r: String)
    ensures
        r@ == prefix@ + dec(n as nat),
{
    let mut s = String::new();
    s.append(prefix);
    push_decimal(&mut s, n);
    s
}

/// Generates a non-colliding id for a new FX layer: the first of `fx_1`,
/// `fx_2`, … that no existing layer id uses.
pub fn unique_fx_layer_id(layer_ids: &Vec<String>) -> (r: String)
    requires
        layer_ids.len() < u32::MAX,
    ensures
        is_first_free_id(views(layer_ids@), "fx_"@, 1, r@),
{
    let ghost taken = views(layer_ids@);
    let mut n: u32 = 1;
    loop
        invariant
            1 <= n <= layer_ids.len() + 1,
            layer_ids.len() < u32::MAX,
            taken == views(layer_ids@),
            forall|m: nat| 1 <= m < n ==> taken.contains(#[trigger] ("fx_"@ + dec(m))),
        decreases layer_ids.len() + 1 - n,
    {
        let candidate = numbered_id("fx_", n as u64);
        if !contains_string(layer_ids, &candidate) {
            return candidate;
        }
        proof {
            if n == layer_ids.len() + 1 {
                lemma_some_id_free(taken, "fx_"@, 1, n as nat);
                let k = choose|k: nat| 1 <= k < 1 + n && !taken.contains(#[trigger] ("fx_"@ + dec(k)));
                assert(taken.contains("fx_"@ + dec(k)));
            }
        }
        n = n + 1;
    }
}

/// Generates a non-colliding id for a layer added by path: the first of
/// `layer<k>`, `layer<k+1>`, … that no existing layer id uses, where `k`
/// is the current number of layers.
pub fn unique_layer_id(layer_ids: &Vec<String>) -> (r: String)
    requires
        layer_ids.len() <= usize::MAX / 2,
    ensures
        is_first_free_id(views(layer_ids@), "layer"@, layer_ids.len() as nat, r@),
{
    let ghost taken = views(layer_ids@);
    let len = layer_ids.len();
    let mut n: usize = len;
    loop
        invariant
            len <= n <= 2 * len,
            len == layer_ids.len(),
            len <= usize::MAX / 2,
            taken == views(layer_ids@),
            forall|m: nat| len <= m < n ==> taken.contains(#[trigger] ("layer"@ + dec(m))),
        decreases 2 * len - n,
    {
        let candidate = numbered_id("layer", n as u64);
        if !contains_string(layer_ids, &candidate) {
            return candidate;
        }
        proof {
            if n == 2 * len {
                lemma_some_id_free(taken, "layer"@, len as nat, (len + 1) as nat);
                let k = choose|k: nat| len <= k < len + len + 1 && !taken.contains(#[trigger] ("layer"@ + dec(k)));
                assert(taken.contains("layer"@ + dec(k)));
            }
        }
        n = n + 1;
    }
}

} // verus!

verus! {

/// The neighbours a row can swap with: the row above (if any) and the row
/// below (if any) in a rail of `n` layers.
pub fn reorder_neighbours(idx: usize, n: usize) -> (r: (Option<usize>, Option<usize>))
    requires
        idx < n,
    ensures
        r.0 == (if idx > 0 {
            Some((idx - 1) as usize)
        } else {
            None::<usize>
        }),
        r.1 == (if idx + 1 < n {
            Some((idx + 1) as usize)
        } else {
            None::<usize>
        }),
{
    let up = if idx > 0 {
        Some(idx - 1)
    } else {
        None
    };
    let down = if idx + 1 < n {
        Some(idx + 1)
    } else {
        None
    };
    (up, down)
}

} // verus!

verus! {

/// How a layer-rail row is outlined.
#[derive(Debug, Clone, Copy, PartialEq, Eq, Structural)]
pub enum RowBorder {
    /// The thick accent ring of the solo'd layer.
    SoloRing,
    /// The thinner border of the selected layer.
    SelectionBorder,
    Plain,
}

/// The outline of a rail row. The solo ring takes precedence over the
/// selection border when both apply: it marks the layer that is live now.
pub fn row_border(is_solo: bool, is_selected: bool) -> (r: RowBorder)
    ensures
        r == (if is_solo {
            RowBorder::SoloRing
        } else if is_selected {
            RowBorder::SelectionBorder
        } else {
            RowBorder::Plain
        }),
{
    if is_solo {
        RowBorder::SoloRing
    } else if is_selected {
        RowBorder::SelectionBorder
    } else {
        RowBorder::Plain
    }
}

/// Glyph drawn on a video row's thumbnail for its end-of-clip policy.
pub open spec fn loop_glyph_text(m: LoopMode) -> Seq<char> {
    match m {
        LoopMode::Loop => "\u{221E}"@,
        LoopMode::Once => "\u{2192}"@,
        LoopMode::PingPong => "\u{21C6}"@,
    }
}

/// `∞` for a looping clip, `→` for play-once, `⇆` for ping-pong.
pub fn loop_mode_glyph(m: LoopMode) -> (r: &'static str)
    ensures
        r@ == loop_glyph_text(m),
{
    match m {
        LoopMode::Loop => "\u{221E}",
        LoopMode::Once => "\u{2192}",
        LoopMode::PingPong => "\u{21C6}",
    }
}

/// The visibility toggle of a rail row: an eye while the layer is enabled,
/// an empty circle while it is hidden.
pub fn visibility_glyph(enabled: bool) -> (r: &'static str)
    ensures
        r@ == (if enabled {
            "\u{1F441}"@
        } else {
            "\u{25CB}"@
        }),
{
    if enabled {
        "\u{1F441}"
    } else {
        "\u{25CB}"
    }
}

/// The kind of layer a picked file becomes.
#[derive(Debug, Clone, Copy, PartialEq, Eq, Structural)]
pub enum PickedLayerKind {
    Svg,
    Image,
}

/// The rail's "+ Add image" policy: an `svg` extension (any ASCII case)
/// makes a vector layer, anything else an image layer.
pub fn rail_layer_kind(extension: &str) -> (r: PickedLayerKind)
    ensures
        r == (if ascii_lower(extension@) == "svg"@ {
            PickedLayerKind::Svg
        } else {
            PickedLayerKind::Image
        }),
{
    proof {
        reveal_strlit("svg");
        assert(ascii_lower("svg"@) =~= "svg"@);
    }
    if eq_ignore_ascii_case(extension, "svg") {
        PickedLayerKind::Svg
    } else {
        PickedLayerKind::Image
    }
}

/// The Layers tab's "+ Add image" policy: `svg` makes a vector layer,
/// `png`, `jpg` and `jpeg` an image layer (any ASCII case); any other
/// extension, or none, is not supported.
pub open spec fn spec_supported_layer_kind(extension: Option<Seq<char>>) -> Option<
    PickedLayerKind,
> {
    match extension {
        Some(e) => if ascii_lower(e) == "svg"@ {
            Some(PickedLayerKind::Svg)
        } else if ascii_lower(e) == "png"@ || ascii_lower(e) == "jpg"@ || ascii_lower(e)
            == "jpeg"@ {
            Some(PickedLayerKind::Image)
        } else {
            None
        },
        None => None,
    }
}

/// Shown when a picked file's extension is not supported.
pub const UNSUPPORTED_FILE_MESSAGE: &'static str =
    "That file type isn't supported yet. Try a JPG, PNG, or SVG.";

/// The layer kind a picked file becomes in the Layers tab, or `None` when
/// its type is not supported (the panel then shows
/// [`UNSUPPORTED_FILE_MESSAGE`]).
pub fn supported_layer_kind(extension: Option<&str>) -> (r: Option<PickedLayerKind>)
    ensures
        r == spec_supported_layer_kind(
            match extension {
                Some(e) => Some(e@),
                None => None,
            },
        ),
{
    proof {
        reveal_strlit("svg");
        reveal_strlit("png");
        reveal_strlit("jpg");
        reveal_strlit("jpeg");
        assert(ascii_lower("svg"@) =~= "svg"@);
        assert(ascii_lower("png"@) =~= "png"@);
        assert(ascii_lower("jpg"@) =~= "jpg"@);
        assert(ascii_lower("jpeg"@) =~= "jpeg"@);
    }
    match extension {
        Some(e) => {
            if eq_ignore_ascii_case(e, "svg") {
                Some(PickedLayerKind::Svg)
            } else if eq_ignore_ascii_case(e, "png") || eq_ignore_ascii_case(e, "jpg")
                || eq_ignore_ascii_case(e, "jpeg") {
                Some(PickedLayerKind::Image)
            } else {
                None
            }
        },
        None => None,
    }
}

} // verus!
