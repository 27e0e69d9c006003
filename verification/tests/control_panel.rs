use rmap::binding::{modulator_for_source, BindingSource, Modulator};
use rmap::control_panel::{
    check_project_save_path, clamp_index, pad_scene_slots, has_json_extension, layer_of_selection,
    save_outcome_message, selection_after_swap, sort_presets_by_name,
    ControlPanelAction, ControlPanelState, Preset, SavePathProblem,
};
use rmap::labels::{Effect, IntentGroup, TintMode};
use rmap::look_chain::{headline_for_effect, headline_label, HeadlineParam, ModulatorField};
use rmap::look_chain::{
    collect_osc_bindings_in_effect, intent_group_glyph, non_treatment_variants_for_group,
};
use rmap::sections::ControlTab;
use rmap::text::trim_white_space;
use rmap::selection::Selection;

fn preset(name: &str) -> Preset {
    Preset { name: name.to_string(), effects: Vec::new() }
}

#[test]
fn control_panel_state_defaults() {
    let st = ControlPanelState::default();
    assert_eq!(st.tab, ControlTab::Scene);
    assert_eq!(st.selected_layer, 0);
    assert!(st.presets.is_empty());
    assert!(!st.presets_loaded);
    assert_eq!(st.preset_picker_index, 0);
    assert!(st.project_save_path.is_empty());
    assert!(!st.controls_open && !st.glossary_open && !st.output_panel_open);
    assert_eq!(ControlPanelAction::SceneRecall(3), ControlPanelAction::SceneRecall(3));
    assert_ne!(ControlPanelAction::Idle, ControlPanelAction::RebuildLayers);
}

#[test]
fn json_extension_follows_path_extension_rules() {
    assert!(has_json_extension("neon.json"));
    assert!(has_json_extension("a.json"));
    assert!(has_json_extension("x..json"));
    assert!(!has_json_extension(".json"));
    assert!(!has_json_extension("neon.json.bak"));
    assert!(!has_json_extension("neon.JSON"));
    assert!(!has_json_extension("json"));
    assert!(!has_json_extension(""));
}

#[test]
fn presets_sorted_by_name() {
    let sorted = sort_presets_by_name(vec![
        preset("warm wash"),
        preset("Neon"),
        preset("ambient"),
        preset("Cold"),
    ]);
    let names: Vec<&str> = sorted.iter().map(|p| p.name.as_str()).collect();
    // Byte order, as `String::cmp` orders: upper case before lower case.
    assert_eq!(names, vec!["Cold", "Neon", "ambient", "warm wash"]);
    assert!(sort_presets_by_name(Vec::new()).is_empty());
}

#[test]
fn sorting_keeps_each_preset_with_its_effects() {
    let blur = Preset {
        name: "soft".into(),
        effects: vec![Effect::Blur { radius_px: Modulator::Static }],
    };
    let tint = Preset {
        name: "pink".into(),
        effects: vec![Effect::Tint { amount: Modulator::Sine, mode: TintMode::Add }],
    };
    let sorted = sort_presets_by_name(vec![blur.clone(), tint.clone()]);
    assert_eq!(sorted, vec![tint, blur]);
}

#[test]
fn clamp_index_keeps_dropdowns_in_range() {
    assert_eq!(clamp_index(0, 0), 0);
    assert_eq!(clamp_index(7, 0), 0);
    assert_eq!(clamp_index(2, 5), 2);
    assert_eq!(clamp_index(5, 5), 4);
    assert_eq!(clamp_index(usize::MAX, 3), 2);
}

#[test]
fn selection_moves_with_swapped_layer() {
    // Move layer 2 up: rows 2 and 1 trade places.
    assert_eq!(selection_after_swap(2, 2, 1), 1);
    assert_eq!(selection_after_swap(1, 2, 1), 2);
    assert_eq!(selection_after_swap(0, 2, 1), 0);
    let mut layers = vec!["a", "b", "c"];
    let selected = 2;
    layers.swap(2, 1);
    assert_eq!(layers[selection_after_swap(selected, 2, 1)], "c");
}

#[test]
fn panel_follows_canvas_selection() {
    assert_eq!(layer_of_selection(Some(Selection::Layer(4))), Some(4));
    assert_eq!(layer_of_selection(Some(Selection::WarpCorner { warp: 2, r: 0, c: 1 })), Some(2));
    assert_eq!(layer_of_selection(Some(Selection::MaskVertex { warp: 1, idx: 3 })), None);
    assert_eq!(layer_of_selection(None), None);

    let mut st = ControlPanelState::default();
    st.follow_selection(Some(Selection::Layer(2)), 3);
    assert_eq!(st.selected_layer, 2);
    st.follow_selection(Some(Selection::Layer(9)), 3);
    assert_eq!(st.selected_layer, 2, "a stale index is ignored");
    st.follow_selection(Some(Selection::MaskVertex { warp: 0, idx: 0 }), 3);
    assert_eq!(st.selected_layer, 2);
    st.follow_selection(Some(Selection::WarpCorner { warp: 1, r: 1, c: 1 }), 3);
    assert_eq!(st.selected_layer, 1);
}

#[test]
fn trim_matches_str_trim() {
    for s in [
        "  show.rmap.json  ",
        "\t\n show \u{a0}",
        "\u{3000}x\u{2028}",
        "",
        "   ",
        "no-space",
        "in side",
        "\u{200b}zero-width\u{200b}",
    ] {
        assert_eq!(trim_white_space(s), s.trim(), "input {s:?}");
    }
}

#[test]
fn save_path_checks() {
    assert_eq!(check_project_save_path("   "), Err(SavePathProblem::Empty));
    assert_eq!(check_project_save_path(""), Err(SavePathProblem::Empty));
    assert_eq!(check_project_save_path("show.json"), Err(SavePathProblem::NotRmapJson));
    assert_eq!(check_project_save_path("show.RMAP.JSON"), Err(SavePathProblem::NotRmapJson));
    assert_eq!(check_project_save_path("  my_show.rmap.json \n"), Ok("my_show.rmap.json".to_string()));
    assert_eq!(SavePathProblem::Empty.message(), "Enter a path ending in .rmap.json");
    assert_eq!(SavePathProblem::NotRmapJson.message(), "Filename should end with .rmap.json");
}

#[test]
fn save_outcome_messages() {
    assert_eq!(save_outcome_message("a.rmap.json", &Ok(())), "Saved to a.rmap.json");
    assert_eq!(
        save_outcome_message("a.rmap.json", &Err("permission denied".to_string())),
        "Save failed: permission denied"
    );
}

#[test]
fn picked_source_round_trips() {
    for s in BindingSource::all() {
        assert_eq!(BindingSource::from_modulator(&modulator_for_source(s)), s);
    }
    assert_eq!(modulator_for_source(BindingSource::Audio), Modulator::Audio { band: 0 });
    assert_eq!(
        modulator_for_source(BindingSource::Osc),
        Modulator::OscBound { addr: "/rmap/param".into() }
    );
    assert_eq!(
        modulator_for_source(BindingSource::Midi),
        Modulator::MidiBound { cc: 21, channel: 0 }
    );
    assert_eq!(modulator_for_source(BindingSource::Fixed), Modulator::Static);
}

#[test]
fn intent_group_glyphs() {
    assert_eq!(intent_group_glyph(IntentGroup::Warp), ("\u{1F300}", (0x7B, 0x9E, 0xFF)));
    assert_eq!(intent_group_glyph(IntentGroup::Generative), ("\u{2728}", (0xE0, 0xC0, 0xFF)));
    assert_eq!(intent_group_glyph(IntentGroup::Compose).1, (0xCC, 0xCC, 0xCC));
}

#[test]
fn add_picker_variants_per_group() {
    let color = non_treatment_variants_for_group(IntentGroup::Color);
    let labels: Vec<&str> = color.iter().map(|r| r.0).collect();
    assert_eq!(labels, vec!["Color grade", "Tint"]);
    assert_eq!(color[1].1, "Overlay a solid color tint on the layer");
    assert_eq!(color[1].2, Effect::Tint { amount: Modulator::Static, mode: TintMode::Multiply });
    let warp = non_treatment_variants_for_group(IntentGroup::Warp);
    assert_eq!(warp.len(), 1);
    assert_eq!(warp[0].0, "Transform");
    assert_eq!(non_treatment_variants_for_group(IntentGroup::Texture)[0].0, "Blur");
    assert_eq!(non_treatment_variants_for_group(IntentGroup::Animate)[0].0, "Feedback");
    assert!(non_treatment_variants_for_group(IntentGroup::Compose).is_empty());
    assert!(non_treatment_variants_for_group(IntentGroup::Generative).is_empty());
}

#[test]
fn osc_bindings_of_an_effect() {
    let osc = |a: &str| Modulator::OscBound { addr: a.to_string() };
    let color = Effect::Color {
        hue: osc("/hue"),
        saturation: Modulator::Sine,
        brightness: osc("/bright"),
        contrast: Modulator::Static,
    };
    assert_eq!(
        collect_osc_bindings_in_effect(&color),
        vec![("hue", "/hue".to_string()), ("brightness", "/bright".to_string())]
    );
    let fb = Effect::Feedback { decay: osc("/decay") };
    assert_eq!(collect_osc_bindings_in_effect(&fb), vec![("decay", "/decay".to_string())]);
    let tr = Effect::Transform { rotate_deg: Modulator::Bpm, scale_x: osc("/sx"), scale_y: osc("/sy") };
    assert_eq!(
        collect_osc_bindings_in_effect(&tr),
        vec![("scale_x", "/sx".to_string()), ("scale_y", "/sy".to_string())]
    );
    assert!(collect_osc_bindings_in_effect(&Effect::Treatment { id: "tone_map".into() }).is_empty());
    assert!(collect_osc_bindings_in_effect(&Effect::External { id: "x".into() }).is_empty());
}

#[test]
fn saving_past_the_end_pads_scene_slots() {
    let mut names: Vec<String> = vec!["intro".into()];
    pad_scene_slots(&mut names, 3);
    assert_eq!(names, vec!["intro", "scene2", "scene3", "scene4"]);
    pad_scene_slots(&mut names, 1);
    assert_eq!(names.len(), 4, "an existing slot is not padded");
    let mut empty: Vec<String> = Vec::new();
    pad_scene_slots(&mut empty, 0);
    assert_eq!(empty, vec!["scene1"]);
    let mut many: Vec<String> = Vec::new();
    pad_scene_slots(&mut many, 10);
    assert_eq!(many[10], "scene11");
}

#[test]
fn presets_with_the_same_name_keep_listing_order() {
    let first = Preset { name: "wash".into(), effects: vec![Effect::Blur { radius_px: Modulator::Static }] };
    let second = Preset { name: "wash".into(), effects: vec![Effect::Tint { amount: Modulator::Noise, mode: TintMode::Screen }] };
    let third = Preset { name: "wash".into(), effects: Vec::new() };
    let sorted = sort_presets_by_name(vec![
        first.clone(),
        preset("zz"),
        second.clone(),
        preset("aa"),
        third.clone(),
    ]);
    assert_eq!(sorted, vec![preset("aa"), first, second, third, preset("zz")]);
}

#[test]
fn following_the_selection_leaves_other_state_alone() {
    let mut st = ControlPanelState::default();
    st.add_layer_error = "Path does not exist.".into();
    st.new_layer_path_input = "a.svg".into();
    st.glossary_open = true;
    st.presets_loaded = true;
    st.follow_selection(Some(Selection::Layer(1)), 2);
    assert_eq!(st.selected_layer, 1);
    assert_eq!(st.add_layer_error, "Path does not exist.");
    assert_eq!(st.new_layer_path_input, "a.svg");
    assert!(st.glossary_open && st.presets_loaded);
    assert!(!st.controls_open && !st.output_panel_open);
}

#[test]
fn headline_parameters() {
    let color = Effect::Color {
        hue: Modulator::Static,
        saturation: Modulator::Static,
        brightness: Modulator::Static,
        contrast: Modulator::Static,
    };
    assert_eq!(
        headline_for_effect(&color, None),
        Some(HeadlineParam::Modulator(ModulatorField::ColorBrightness))
    );
    let tint = Effect::Tint { amount: Modulator::Static, mode: TintMode::Multiply };
    assert_eq!(headline_for_effect(&tint, Some("x")), Some(HeadlineParam::Modulator(ModulatorField::TintAmount)));
    let tr = Effect::Treatment { id: "tone_map".into() };
    assert_eq!(headline_for_effect(&tr, Some("exposure")), Some(HeadlineParam::TreatmentParam("exposure")));
    assert_eq!(headline_for_effect(&tr, None), None);
    assert_eq!(headline_for_effect(&Effect::External { id: "e".into() }, Some("k")), None);
    assert_eq!(headline_label(&HeadlineParam::Modulator(ModulatorField::ColorBrightness)), "brightness");
    assert_eq!(headline_label(&HeadlineParam::Modulator(ModulatorField::BlurRadius)), "radius");
    assert_eq!(headline_label(&HeadlineParam::Modulator(ModulatorField::TintAmount)), "amount");
    assert_eq!(headline_label(&HeadlineParam::Modulator(ModulatorField::TransformScaleX)), "scale x");
    assert_eq!(headline_label(&HeadlineParam::Modulator(ModulatorField::FeedbackDecay)), "decay");
    assert_eq!(headline_label(&HeadlineParam::Modulator(ModulatorField::ColorHue)), "param");
    assert_eq!(headline_label(&HeadlineParam::TreatmentParam("exposure")), "exposure");
}
