use rmap::glossary::{entry, GlossaryTerm};
use rmap::labels::LoopMode;
use rmap::layers::{
    loop_mode_glyph, rail_layer_kind, row_border, supported_layer_kind, visibility_glyph,
    PickedLayerKind, RowBorder, UNSUPPORTED_FILE_MESSAGE,
};
use rmap::text::eq_ignore_ascii_case;
use rmap::zones::{
    mask_summary, zone_badge, zone_pick, zone_role_label, zone_role_palette, ZoneRole,
};

#[test]
fn solo_ring_wins_over_selection_border() {
    assert_eq!(row_border(true, true), RowBorder::SoloRing);
    assert_eq!(row_border(true, false), RowBorder::SoloRing);
    assert_eq!(row_border(false, true), RowBorder::SelectionBorder);
    assert_eq!(row_border(false, false), RowBorder::Plain);
}

#[test]
fn rail_glyphs() {
    assert_eq!(loop_mode_glyph(LoopMode::Loop), "∞");
    assert_eq!(loop_mode_glyph(LoopMode::Once), "→");
    assert_eq!(loop_mode_glyph(LoopMode::PingPong), "⇆");
    assert_eq!(visibility_glyph(true), "👁");
    assert_eq!(visibility_glyph(false), "○");
}

#[test]
fn picked_file_kinds() {
    assert_eq!(rail_layer_kind("svg"), PickedLayerKind::Svg);
    assert_eq!(rail_layer_kind("SVG"), PickedLayerKind::Svg);
    assert_eq!(rail_layer_kind("png"), PickedLayerKind::Image);
    assert_eq!(rail_layer_kind(""), PickedLayerKind::Image);
    assert_eq!(supported_layer_kind(Some("Svg")), Some(PickedLayerKind::Svg));
    assert_eq!(supported_layer_kind(Some("JPEG")), Some(PickedLayerKind::Image));
    assert_eq!(supported_layer_kind(Some("jpg")), Some(PickedLayerKind::Image));
    assert_eq!(supported_layer_kind(Some("png")), Some(PickedLayerKind::Image));
    assert_eq!(supported_layer_kind(Some("gif")), None);
    assert_eq!(supported_layer_kind(Some("svgz")), None);
    assert_eq!(supported_layer_kind(None), None);
    assert_eq!(
        UNSUPPORTED_FILE_MESSAGE,
        "That file type isn't supported yet. Try a JPG, PNG, or SVG."
    );
}

#[test]
fn ascii_case_insensitive_equality() {
    assert!(eq_ignore_ascii_case("Svg", "sVG"));
    assert!(eq_ignore_ascii_case("", ""));
    assert!(!eq_ignore_ascii_case("svg", "svgz"));
    assert!(!eq_ignore_ascii_case("é", "É"));
}

#[test]
fn zone_role_labels_and_badges() {
    assert_eq!(zone_role_label(None), "None");
    assert_eq!(zone_role_label(Some(ZoneRole::LightSource)), "Light Source");
    assert_eq!(zone_badge(ZoneRole::LightSource), "[light-src]");
    assert_eq!(zone_badge(ZoneRole::Window), "[window]");
}

#[test]
fn palette_rows_match_glossary() {
    let palette = zone_role_palette();
    assert_eq!(palette[0].0, Some(ZoneRole::Window));
    assert_eq!(palette[6].1, GlossaryTerm::ZoneRoleLightSource);
    for (role, term, label) in palette {
        assert_eq!(zone_role_label(role), label);
        assert_eq!(entry(term).headline, format!("Zone Role: {label}"));
    }
}

#[test]
fn re_picking_the_current_zone_commits_nothing() {
    assert_eq!(zone_pick(Some(ZoneRole::Void), Some(ZoneRole::Void)), None);
    assert_eq!(zone_pick(None, None), None);
    assert_eq!(zone_pick(None, Some(ZoneRole::Edge)), Some(Some(ZoneRole::Edge)));
    assert_eq!(zone_pick(Some(ZoneRole::Edge), None), Some(None));
}

#[test]
fn mask_summary_text() {
    assert_eq!(mask_summary(0), "mask: 0 vertices (none — needs ≥ 3 vertices)");
    assert_eq!(mask_summary(2), "mask: 2 vertices (none — needs ≥ 3 vertices)");
    assert_eq!(mask_summary(3), "mask: 3 vertices (active)");
    assert_eq!(mask_summary(12), "mask: 12 vertices (active)");
}
