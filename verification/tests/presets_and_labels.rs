use rmap::presets::{is_user_preset_file_name, preset_file_name};
use rmap::browser::SaveDialog;
use rmap::browser::sort_by_label;
use rmap::browser::{filtered_presets, BrowserFilter, BrowserPreset, FxFamily};
use rmap::labels::{
    blend_label, build_capability_hint, effect_kind_label, intent_group_name, loop_mode_label,
    BlendMode, Effect, IntentGroup, LoopMode, PresetCapability,
};
use rmap::binding::Modulator;
use rmap::output::OutputState;
use rmap::presets::{seed_from_clock, slugify, slugify_lowercased, PresetStars, UiFlags};

/// slugify handles special characters and spaces correctly.
#[test]
fn slugify_handles_special_chars() {
    assert_eq!(slugify("My Preset!"), "my_preset_");
    assert_eq!(slugify("hello world"), "hello_world");
    assert_eq!(slugify("Café"), "caf");
    assert_eq!(slugify("abc123"), "abc123");
}

#[test]
fn slugify_lowercases_before_filtering() {
    assert_eq!(slugify("ABC"), "abc");
    assert_eq!(slugify_lowercased("ABC"), "ABC");
    assert_eq!(slugify_lowercased("a-b.c"), "a_b_c");
    assert_eq!(slugify(""), "");
}

/// Toggle adds; toggle again removes.
#[test]
fn preset_stars_toggle() {
    let mut stars = PresetStars::default();
    assert!(!stars.is_starred("foo"));
    stars.starred.push("foo".to_string());
    assert!(stars.is_starred("foo"));
    stars.starred.retain(|s| s != "foo");
    assert!(!stars.is_starred("foo"));
}

#[test]
fn preset_stars_toggle_method() {
    let mut stars = PresetStars { starred: vec!["a".to_string(), "b".to_string(), "a".to_string()] };
    stars.toggle("c");
    assert_eq!(stars.starred, vec!["a", "b", "a", "c"]);
    stars.toggle("c");
    assert_eq!(stars.starred, vec!["a", "b", "a"]);
    stars.toggle("a");
    assert_eq!(stars.starred, vec!["b"]);
    assert!(!stars.is_starred("a"));
    assert!(stars.is_starred("b"));
}

#[test]
fn ui_flags_default_is_unseen() {
    assert!(!UiFlags::default().look_chain_toast_seen);
}

#[test]
fn seed_from_clock_values() {
    assert_eq!(seed_from_clock(None), 12345);
    assert_eq!(seed_from_clock(Some(42)), 42);
    assert_eq!(seed_from_clock(Some((1u128 << 64) + 7)), 7);
}

#[test]
fn labels() {
    assert_eq!(blend_label(BlendMode::Normal), "Normal");
    assert_eq!(blend_label(BlendMode::Screen), "Screen");
    assert_eq!(loop_mode_label(LoopMode::Once), "Once (stop at end)");
    assert_eq!(loop_mode_label(LoopMode::PingPong), "Ping-pong (currently loops; reverse in Phase 7)");
    assert_eq!(effect_kind_label(&Effect::Treatment { id: "tone_map".into() }), "Treatment");
    assert_eq!(effect_kind_label(&Effect::Feedback { decay: Modulator::Static }), "Feedback");
    assert_eq!(intent_group_name(IntentGroup::Generative), "Generative");
}

#[test]
fn capability_hints() {
    let none = PresetCapability { requires_sdf: false, requires_zone: false, is_particle: false };
    assert_eq!(build_capability_hint(&none), "No special requirements");
    let one = PresetCapability { requires_sdf: false, requires_zone: true, is_particle: false };
    assert_eq!(build_capability_hint(&one), "Needs a zone role");
    let all = PresetCapability { requires_sdf: true, requires_zone: true, is_particle: true };
    assert_eq!(
        build_capability_hint(&all),
        "Needs a mask polygon \u{00B7} Needs a zone role \u{00B7} Particle-based"
    );
}

#[test]
fn output_toggles() {
    let mut s = OutputState::default();
    assert!(!s.blackout && !s.freeze && s.show_editor_overlay);
    s.toggle_blackout();
    assert!(s.blackout && !s.freeze && s.show_editor_overlay);
    s.toggle_freeze();
    s.toggle_editor_overlay();
    assert!(s.blackout && s.freeze && !s.show_editor_overlay);
    s.toggle_blackout();
    s.toggle_freeze();
    s.toggle_editor_overlay();
    assert!(!s.blackout && !s.freeze && s.show_editor_overlay);
}

fn builtin(id: &str, label: &str, family: FxFamily) -> BrowserPreset {
    BrowserPreset::Builtin { preset_id: id.into(), label: label.into(), family }
}

fn ids(list: &[BrowserPreset]) -> Vec<String> {
    list.iter().map(|p| p.preset_id().to_string()).collect()
}

#[test]
fn browser_filters_and_orders() {
    let builtins = vec![
        builtin("mask_edge_ripple_wash", "Ripple wash", FxFamily::Fragment),
        builtin("mask_constrained_drift", "Constrained drift", FxFamily::ComputeParticle),
        builtin("mask_bounded_fluid", "Bounded fluid", FxFamily::ComputeFluid),
        builtin("displacement_ripple", "Displacement RIPPLE", FxFamily::Fragment),
    ];
    let user = vec![BrowserPreset::User {
        preset_id: "mask_edge_ripple_wash".into(),
        name: "My Ripple".into(),
        path: "/tmp/my_ripple.rmap-preset.json".into(),
    }];
    let mut filter = BrowserFilter::default();
    let all = filtered_presets(&filter, &None, &builtins, &user);
    assert_eq!(all.len(), 5);
    assert!(all[4].is_builtin() == false && all[0].is_builtin());

    filter.filter_query = "RiPpLe".into();
    let rip = filtered_presets(&filter, &None, &builtins, &user);
    assert_eq!(ids(&rip), vec!["mask_edge_ripple_wash", "displacement_ripple", "mask_edge_ripple_wash"]);

    filter.filter_query.clear();
    filter.family_filters = [false, true, false];
    let particles = filtered_presets(&filter, &None, &builtins, &user);
    assert_eq!(ids(&particles), vec!["mask_constrained_drift", "mask_edge_ripple_wash"]);
    assert_eq!(particles[0].family(), Some(FxFamily::ComputeParticle));
    assert_eq!(particles[1].family(), None);

    let stars = Some(PresetStars { starred: vec!["mask_bounded_fluid".into()] });
    let starred = filtered_presets(&BrowserFilter::default(), &stars, &builtins, &user);
    assert_eq!(
        ids(&starred),
        vec![
            "mask_bounded_fluid",
            "mask_edge_ripple_wash",
            "mask_constrained_drift",
            "displacement_ripple",
            "mask_edge_ripple_wash"
        ]
    );
    assert_eq!(starred[4].label(), "My Ripple");
}

#[test]
fn preset_file_names() {
    assert_eq!(preset_file_name("My Ripple"), "my_ripple.rmap-preset.json");
    assert_eq!(preset_file_name(""), ".rmap-preset.json");
    assert!(is_user_preset_file_name("my_ripple.rmap-preset.json"));
    assert!(!is_user_preset_file_name("my_ripple.json"));
    assert!(!is_user_preset_file_name("preset.json"));
}

#[test]
fn save_dialog_opens_fresh() {
    let mut d = SaveDialog::default();
    assert!(!d.open);
    d.name_buf.push_str("half typed");
    d.open_for_layer(3);
    assert!(d.open && d.just_opened);
    assert_eq!(d.layer_idx, 3);
    assert!(d.name_buf.is_empty());
}

#[test]
fn user_presets_sorted_by_name() {
    let user = |name: &str| BrowserPreset::User {
        preset_id: format!("id_{name}"),
        name: name.into(),
        path: format!("/p/{name}"),
    };
    let list = vec![user("beta"), user("Alpha"), user("alpha"), user("beta2"), user("")];
    let sorted = sort_by_label(&list);
    let names: Vec<&str> = sorted.iter().map(|p| p.label()).collect();
    assert_eq!(names, vec!["", "Alpha", "alpha", "beta", "beta2"]);
    assert!(sort_by_label(&vec![]).is_empty());
}

#[test]
fn user_presets_with_the_same_name_keep_listing_order() {
    let user = |id: &str, name: &str, path: &str| BrowserPreset::User {
        preset_id: id.into(),
        name: name.into(),
        path: path.into(),
    };
    let list = vec![
        user("fx_b", "Glow", "/p/2.rmap-preset.json"),
        user("fx_a", "Aura", "/p/1.rmap-preset.json"),
        user("fx_c", "Glow", "/p/3.rmap-preset.json"),
    ];
    let sorted = sort_by_label(&list);
    let paths: Vec<String> = sorted
        .iter()
        .map(|p| match p {
            BrowserPreset::User { path, .. } => path.clone(),
            BrowserPreset::Builtin { .. } => String::new(),
        })
        .collect();
    assert_eq!(paths, vec!["/p/1.rmap-preset.json", "/p/2.rmap-preset.json", "/p/3.rmap-preset.json"]);
}

#[test]
fn slug_of_ascii_names_is_lower_case_and_idempotent() {
    for name in ["My Preset!", "Warm WASH 2", "", "a_b-c.d", "ALL CAPS"] {
        let once = slugify(name);
        assert_eq!(once.len(), name.len());
        assert!(once.chars().all(|c| c.is_ascii_lowercase() || c.is_ascii_digit() || c == '_'));
        assert_eq!(slugify(&once), once);
    }
    assert_eq!(slugify("Warm WASH 2"), "warm_wash_2");
}
