//! Stable egui id sources of the collapsible sections in the Controls
//! window, and the help link. egui keys a section's open/closed state off
//! the id, not the display string, so these must never change.

use vstd::prelude::*;

verus! {

pub const SCROLL_ID: &'static str = "adv_scroll";
pub const HDR_MASTER: &'static str = "adv_master";
pub const HDR_SELECTED_LAYER: &'static str = "adv_selected_layer";
pub const HDR_EFFECT_CHAIN: &'static str = "adv_effect_chain";
pub const HDR_BLEND_MODE: &'static str = "adv_blend_mode";
pub const HDR_MAPPING: &'static str = "adv_mapping";
pub const HDR_PROJECT: &'static str = "adv_project";
pub const HDR_DIAGNOSTICS: &'static str = "adv_diagnostics";
pub const HDR_DISPLAY_OUTPUT: &'static str = "adv_display_output";
pub const HDR_VIDEO: &'static str = "adv_video";
pub const HDR_TREATMENT: &'static str = "adv_treatment";
pub const HDR_SOURCE_FIT: &'static str = "adv_source_fit";
pub const HDR_TRANSFORM: &'static str = "adv_transform";
pub const HDR_PLACEMENT: &'static str = "adv_placement";

/// Tabs of the classic tabbed control panel.
#[derive(Debug, Clone, PartialEq, Eq, Structural)]
pub enum ControlTab {
    Scene,
    Effects,
    Layers,
    Scenes,
}

impl Default for ControlTab {
    /// The live-preview tab comes first; the slider tabs are secondary.
    fn default() -> (r: Self)
        ensures
            r == ControlTab::Scene,
    {
        ControlTab::Scene
    }
}

/// The canonical URL of rmap's built-in help, opened by the `?` button.
pub const HELP_URL: &'static str = "https://docs.rs/rmap";

/// Every section id in the order the window lays the sections out.
pub open spec fn section_ids() -> Seq<Seq<char>> {
    seq![
        SCROLL_ID@,
        HDR_MASTER@,
        HDR_SELECTED_LAYER@,
        HDR_EFFECT_CHAIN@,
        HDR_BLEND_MODE@,
        HDR_MAPPING@,
        HDR_PROJECT@,
        HDR_DIAGNOSTICS@,
        HDR_DISPLAY_OUTPUT@,
        HDR_VIDEO@,
        HDR_TREATMENT@,
        HDR_SOURCE_FIT@,
        HDR_TRANSFORM@,
        HDR_PLACEMENT@,
    ]
}

/// No two sections share an id, so collapsing one never collapses another.
pub proof fn lemma_section_ids_distinct()
    ensures
        forall|i: int, j: int|
            0 <= i < j < section_ids().len() ==> section_ids()[i] != section_ids()[j],
{
    reveal_strlit("adv_scroll");
    reveal_strlit("adv_master");
    reveal_strlit("adv_selected_layer");
    reveal_strlit("adv_effect_chain");
    reveal_strlit("adv_blend_mode");
    reveal_strlit("adv_mapping");
    reveal_strlit("adv_project");
    reveal_strlit("adv_diagnostics");
    reveal_strlit("adv_display_output");
    reveal_strlit("adv_video");
    reveal_strlit("adv_treatment");
    reveal_strlit("adv_source_fit");
    reveal_strlit("adv_transform");
    reveal_strlit("adv_placement");
    let ids = section_ids();
    assert forall|i: int, j: int| 0 <= i < j < ids.len() implies ids[i] != ids[j] by {
        if ids[i] == ids[j] {
            assert(ids[i].len() == ids[j].len());
            assert(ids[i][4] == ids[j][4]);
            assert(ids[i][5] == ids[j][5]);
            assert(ids[i][6] == ids[j][6]);
            assert(ids[i][8] == ids[j][8]);
        }
    }
}

/// The help link is an HTTPS URL.
pub proof fn lemma_help_url_is_https()
    ensures
        HELP_URL@.len() > 8,
        HELP_URL@.subrange(0, 8) == "https://"@,
{
    reveal_strlit("https://docs.rs/rmap");
    reveal_strlit("https://");
    assert(HELP_URL@.subrange(0, 8) =~= "https://"@);
}

} // verus!
