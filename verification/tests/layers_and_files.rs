use rmap::layers::reorder_neighbours;
use rmap::edits::{decide_checkbox, decide_u32_edit, EditDecision, Staging};
use rmap::file_names::{ensure_rmap_extension, path_ends_with_rmap_json};
use rmap::layers::{next_solo, unique_fx_layer_id, unique_layer_id};
use rmap::selection::{is_layer_row_selected, Selection};

#[test]
fn ensure_extension_passes_through_when_already_correct() {
    let p = String::from("/tmp/show.rmap.json");
    assert_eq!(ensure_rmap_extension(p.clone()), p);

    let upper = String::from("/tmp/SHOW.RMAP.JSON");
    assert_eq!(ensure_rmap_extension(upper.clone()), upper);
}

#[test]
fn ensure_extension_appends_when_missing() {
    let p = String::from("/tmp/show");
    assert_eq!(ensure_rmap_extension(p), String::from("/tmp/show.rmap.json"));

    let json = String::from("/tmp/show.json");
    assert_eq!(ensure_rmap_extension(json), String::from("/tmp/show.json.rmap.json"));
}

#[test]
fn extension_check_edge_cases() {
    assert!(path_ends_with_rmap_json(".rmap.json"));
    assert!(path_ends_with_rmap_json("a.Rmap.Json"));
    assert!(!path_ends_with_rmap_json("rmap.json"));
    assert!(!path_ends_with_rmap_json(""));
    assert_eq!(ensure_rmap_extension(String::new()), ".rmap.json");
    let once = ensure_rmap_extension(String::from("café"));
    assert_eq!(once, "café.rmap.json");
    assert_eq!(ensure_rmap_extension(once.clone()), once);
}

/// Clicking S on the currently-solo'd layer un-solos it.
#[test]
fn next_solo_clears_current() {
    assert_eq!(next_solo(Some(1), 1), None);
}

/// Clicking S on a non-solo'd layer solos it.
#[test]
fn next_solo_sets_new() {
    assert_eq!(next_solo(None, 2), Some(2));
}

/// Clicking S on a different layer solos that layer.
#[test]
fn next_solo_switches_to_new_layer() {
    assert_eq!(next_solo(Some(0), 2), Some(2));
}

#[test]
fn solo_twice_restores() {
    assert_eq!(next_solo(next_solo(None, 4), 4), None);
    assert_eq!(next_solo(next_solo(Some(4), 4), 4), Some(4));
}

fn ids(v: &[&str]) -> Vec<String> {
    v.iter().map(|s| s.to_string()).collect()
}

#[test]
fn fx_layer_ids_fill_first_gap() {
    assert_eq!(unique_fx_layer_id(&ids(&[])), "fx_1");
    assert_eq!(unique_fx_layer_id(&ids(&["fx_1", "photo", "fx_2"])), "fx_3");
    assert_eq!(unique_fx_layer_id(&ids(&["fx_2", "fx_1", "fx_4"])), "fx_3");
    let many: Vec<String> = (1..=12).map(|n| format!("fx_{n}")).collect();
    assert_eq!(unique_fx_layer_id(&many), "fx_13");
}

#[test]
fn layer_ids_start_at_layer_count() {
    assert_eq!(unique_layer_id(&ids(&[])), "layer0");
    assert_eq!(unique_layer_id(&ids(&["a", "b"])), "layer2");
    assert_eq!(unique_layer_id(&ids(&["layer2", "layer3", "x"])), "layer4");
    let many: Vec<String> = (10..20).map(|n| format!("layer{n}")).collect();
    assert_eq!(unique_layer_id(&many), "layer20");
}

#[test]
fn selection_layer_variant_round_trips() {
    let sel = Selection::Layer(0);
    assert!(matches!(sel, Selection::Layer(0)));
    match sel {
        Selection::Layer(idx) => assert_eq!(idx, 0),
        _ => panic!("expected Selection::Layer"),
    }
}

#[test]
fn selection_warp_corner_variant() {
    let sel = Selection::WarpCorner { warp: 2, r: 1, c: 0 };
    match sel {
        Selection::WarpCorner { warp, r, c } => {
            assert_eq!(warp, 2);
            assert_eq!(r, 1);
            assert_eq!(c, 0);
        }
        _ => panic!("expected Selection::WarpCorner"),
    }
}

#[test]
fn selection_mask_vertex_variant() {
    let sel = Selection::MaskVertex { warp: 1, idx: 3 };
    match sel {
        Selection::MaskVertex { warp, idx } => {
            assert_eq!(warp, 1);
            assert_eq!(idx, 3);
        }
        _ => panic!("expected Selection::MaskVertex"),
    }
}

#[test]
fn row_selection_only_for_whole_layer() {
    assert!(is_layer_row_selected(Some(Selection::Layer(3)), 3));
    assert!(!is_layer_row_selected(Some(Selection::Layer(2)), 3));
    assert!(!is_layer_row_selected(Some(Selection::MaskVertex { warp: 3, idx: 3 }), 3));
    assert!(!is_layer_row_selected(None, 0));
}

/// Reset-corner identity formula: for a 1×1 grid, corner (r, c) sits at
/// (c / cols, r / rows).
#[test]
fn warp_corner_identity_formula() {
    let rows = 1u32;
    let cols = 1u32;
    let cases = [
        (0usize, 0usize, [0.0f32, 0.0f32]),
        (0, 1, [1.0, 0.0]),
        (1, 0, [0.0, 1.0]),
        (1, 1, [1.0, 1.0]),
    ];
    for (r, c, expected) in cases {
        let u = if cols == 0 { 0.0 } else { c as f32 / cols as f32 };
        let v = if rows == 0 { 0.0 } else { r as f32 / rows as f32 };
        let pos = [u, v];
        assert_eq!(pos, expected, "identity mismatch at ({r},{c}): got {pos:?}, expected {expected:?}");
    }
}

#[test]
fn reorder_neighbours_at_edges() {
    assert_eq!(reorder_neighbours(0, 3), (None, Some(1)));
    assert_eq!(reorder_neighbours(1, 3), (Some(0), Some(2)));
    assert_eq!(reorder_neighbours(2, 3), (Some(1), None));
    assert_eq!(reorder_neighbours(0, 1), (None, None));
}

#[test]
fn edit_commit_decisions() {
    // Dragging stages, never commits.
    assert_eq!(decide_u32_edit(4, 9, false, true, true), EditDecision { emit: None, staging: Staging::Stage(9) });
    // Drag stop commits a real change and clears the staged copy.
    assert_eq!(decide_u32_edit(4, 9, true, false, false), EditDecision { emit: Some(9), staging: Staging::Clear });
    assert_eq!(decide_u32_edit(4, 4, true, true, true), EditDecision { emit: None, staging: Staging::Clear });
    // Typed change commits at once.
    assert_eq!(decide_u32_edit(4, 5, false, false, true), EditDecision { emit: Some(5), staging: Staging::Clear });
    // Nothing happened.
    assert_eq!(decide_u32_edit(4, 4, false, false, true), EditDecision { emit: None, staging: Staging::Keep });
    assert_eq!(decide_checkbox(false, true, true), Some(true));
    assert_eq!(decide_checkbox(false, false, true), None);
    assert_eq!(decide_checkbox(false, true, false), None);
}
