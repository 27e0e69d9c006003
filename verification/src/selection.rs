//! What the canvas editor has selected, and how the layer rail reads it.

use vstd::prelude::*;

verus! {

/// The editor's current selection.
#[derive(Debug, Clone, Copy, PartialEq, Eq, Structural)]
pub enum Selection {
    /// A whole layer, by index.
    Layer(usize),
    /// One corner of a warp mesh: warp index, row, column.
    WarpCorner { warp: usize, r: usize, c: usize },
    /// One vertex of a warp's mask polygon.
    MaskVertex { warp: usize, idx: usize },
}

/// Whether the layer-rail row `idx` is drawn as selected.
pub open spec fn row_selected(selected: Option<Selection>, idx: usize) -> bool {
    selected == Some(Selection::Layer(idx))
}

/// Whether the layer-rail row `idx` is drawn as selected: only a whole-layer
/// selection of that very layer highlights a row.
pub fn is_layer_row_selected(selected: Option<Selection>, idx: usize) -> (r: bool)
    ensures
        r == row_selected(selected, idx),
{
    match selected {
        Some(Selection::Layer(i)) => i == idx,
        _ => false,
    }
}

} // verus!
