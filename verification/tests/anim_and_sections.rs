use rmap::anim::{DRAG_EASE_MS, HOVER_FADE_MS, TRANSITION_MS};
use rmap::sections::{
    HDR_BLEND_MODE, HDR_DIAGNOSTICS, HDR_DISPLAY_OUTPUT, HDR_EFFECT_CHAIN, HDR_MAPPING, HDR_MASTER,
    HDR_PLACEMENT, HDR_PROJECT, HDR_SELECTED_LAYER, HDR_SOURCE_FIT, HDR_TRANSFORM, HDR_TREATMENT,
    HDR_VIDEO, HELP_URL, SCROLL_ID,
};

/// Timing tokens are all positive and ordered
/// HOVER_FADE_MS < DRAG_EASE_MS < TRANSITION_MS.
#[test]
fn anim_constants_present_and_sensible() {
    assert!(HOVER_FADE_MS > 0, "HOVER_FADE_MS must be positive");
    assert!(DRAG_EASE_MS > 0, "DRAG_EASE_MS must be positive");
    assert!(TRANSITION_MS > 0, "TRANSITION_MS must be positive");
    assert!(
        HOVER_FADE_MS < DRAG_EASE_MS,
        "HOVER_FADE_MS ({HOVER_FADE_MS}) must be less than DRAG_EASE_MS ({DRAG_EASE_MS})"
    );
    assert!(
        DRAG_EASE_MS < TRANSITION_MS,
        "DRAG_EASE_MS ({DRAG_EASE_MS}) must be less than TRANSITION_MS ({TRANSITION_MS})"
    );
}

#[test]
fn anim_token_values() {
    assert_eq!((HOVER_FADE_MS, DRAG_EASE_MS, TRANSITION_MS), (120, 160, 220));
}

/// Pin the id_source constants so a rename of the label text doesn't
/// silently break egui's open/closed persistence.
#[test]
fn advanced_section_id_sources_are_stable() {
    assert_eq!(SCROLL_ID, "adv_scroll");
    assert_eq!(HDR_MASTER, "adv_master");
    assert_eq!(HDR_SELECTED_LAYER, "adv_selected_layer");
    assert_eq!(HDR_EFFECT_CHAIN, "adv_effect_chain");
    assert_eq!(HDR_BLEND_MODE, "adv_blend_mode");
    assert_eq!(HDR_MAPPING, "adv_mapping");
    assert_eq!(HDR_PROJECT, "adv_project");
    assert_eq!(HDR_DIAGNOSTICS, "adv_diagnostics");
    assert_eq!(HDR_DISPLAY_OUTPUT, "adv_display_output");
}

#[test]
fn controls_section_id_sources_are_stable() {
    assert_eq!(SCROLL_ID, "adv_scroll");
    assert_eq!(HDR_MASTER, "adv_master");
    assert_eq!(HDR_SELECTED_LAYER, "adv_selected_layer");
    assert_eq!(HDR_EFFECT_CHAIN, "adv_effect_chain");
    assert_eq!(HDR_BLEND_MODE, "adv_blend_mode");
    assert_eq!(HDR_MAPPING, "adv_mapping");
    assert_eq!(HDR_PROJECT, "adv_project");
    assert_eq!(HDR_DIAGNOSTICS, "adv_diagnostics");
    assert_eq!(HDR_DISPLAY_OUTPUT, "adv_display_output");
}

#[test]
fn section_ids_are_pairwise_distinct() {
    let ids = [
        SCROLL_ID,
        HDR_MASTER,
        HDR_SELECTED_LAYER,
        HDR_EFFECT_CHAIN,
        HDR_BLEND_MODE,
        HDR_MAPPING,
        HDR_PROJECT,
        HDR_DIAGNOSTICS,
        HDR_DISPLAY_OUTPUT,
        HDR_VIDEO,
        HDR_TREATMENT,
        HDR_SOURCE_FIT,
        HDR_TRANSFORM,
        HDR_PLACEMENT,
    ];
    for i in 0..ids.len() {
        for j in (i + 1)..ids.len() {
            assert_ne!(ids[i], ids[j]);
        }
    }
}

/// The help URL is non-empty and starts with https://.
#[test]
fn help_url_is_non_empty_https() {
    assert!(!HELP_URL.is_empty(), "HELP_URL must not be empty");
    assert!(
        HELP_URL.starts_with("https://"),
        "HELP_URL should be an HTTPS URL, got: {HELP_URL:?}"
    );
}

#[test]
fn control_tab_defaults_to_scene() {
    assert_eq!(rmap::sections::ControlTab::default(), rmap::sections::ControlTab::Scene);
}
