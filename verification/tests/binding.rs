use std::collections::HashMap;

use rmap::binding::{BindingSource, Modulator};
use rmap::parameter_row::{ParameterRow, RowOutcome};
use rmap::glossary::GlossaryTerm;

/// `BindingSource::all()` covers every `Modulator` variant exactly once.
#[test]
fn all_variants_mapped_round_trip() {
    let samples = [
        Modulator::Static,
        Modulator::Sine,
        Modulator::Triangle,
        Modulator::Noise,
        Modulator::Bpm,
        Modulator::Audio { band: 0 },
        Modulator::OscBound { addr: "/test".into() },
        Modulator::MidiBound { cc: 21, channel: 0 },
    ];
    let mut seen: HashMap<BindingSource, usize> = HashMap::new();
    for m in samples.iter() {
        let s = BindingSource::from_modulator(m);
        *seen.entry(s).or_insert(0) += 1;
    }
    assert_eq!(seen.len(), 8, "every BindingSource must appear once");
    for src in BindingSource::all() {
        assert_eq!(seen.get(&src), Some(&1), "missing variant: {src:?}");
    }
}

/// Each label is non-empty.
#[test]
fn labels_are_non_empty() {
    for src in BindingSource::all() {
        assert!(!src.label().is_empty());
        assert!(!src.short_label().is_empty());
    }
}

/// "Static" is presented as "fixed value".
#[test]
fn fixed_value_is_relabelled() {
    assert_eq!(BindingSource::Fixed.label(), "fixed value");
}

#[test]
fn dropdown_order_and_labels() {
    let labels: Vec<&str> = BindingSource::all().iter().map(|s| s.label()).collect();
    assert_eq!(labels, vec!["fixed value", "sine", "tri", "noise", "bpm", "audio", "osc", "midi"]);
    let mut unique = labels.clone();
    unique.sort();
    unique.dedup();
    assert_eq!(unique.len(), 8);
    for src in BindingSource::all() {
        assert_eq!(src.short_label(), src.label());
    }
}

#[test]
fn modulator_payload_does_not_change_source() {
    assert_eq!(BindingSource::from_modulator(&Modulator::Audio { band: 7 }), BindingSource::Audio);
    assert_eq!(
        BindingSource::from_modulator(&Modulator::MidiBound { cc: 1, channel: 15 }),
        BindingSource::Midi
    );
    assert_eq!(
        BindingSource::from_modulator(&Modulator::OscBound { addr: String::new() }),
        BindingSource::Osc
    );
}

/// Builder chain retains the values it was given.
#[test]
fn builder_chain_smoke() {
    let row = ParameterRow::new("hue", 42, BindingSource::Fixed).unit("°").learn_active(false);
    assert_eq!(row.label, "hue");
    assert_eq!(row.unit, Some("°"));
    assert_eq!(row.salt, 42);
    assert!(matches!(row.current_source, BindingSource::Fixed));
    assert!(!row.learn_active);
}

/// Default `RowOutcome` reports no binding change.
#[test]
fn default_outcome_is_no_change() {
    let outcome = RowOutcome::default();
    assert!(outcome.binding_changed.is_none());
}

#[test]
fn builder_setters_touch_only_their_field() {
    let row = ParameterRow::new("radius", 7, BindingSource::Audio)
        .glossary(GlossaryTerm::Opacity)
        .learn_active(true)
        .unit("px");
    assert_eq!(row.label, "radius");
    assert_eq!(row.salt, 7);
    assert_eq!(row.current_source, BindingSource::Audio);
    assert_eq!(row.glossary, Some(GlossaryTerm::Opacity));
    assert!(row.learn_active);
    assert_eq!(row.unit, Some("px"));
    let fresh = ParameterRow::new("x", 0, BindingSource::Sine);
    assert_eq!(fresh.unit, None);
    assert_eq!(fresh.glossary, None);
    assert!(!fresh.learn_active);
}
