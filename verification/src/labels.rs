//! Operator-facing labels for the project vocabulary shown in the control
//! windows: blend modes, video loop modes, effect kinds and intent groups,
//! plus the capability hint shown next to a treatment in the add picker.

use vstd::prelude::*;
use vstd::string::*;

use crate::binding::Modulator;

verus! {

/// How a layer's pixels combine with the layers below it.
#[derive(Debug, Clone, Copy, PartialEq, Eq, Structural)]
pub enum BlendMode {
    Normal,
    Add,
    Multiply,
    Screen,
}

pub open spec fn blend_text(m: BlendMode) -> Seq<char> {
    match m {
        BlendMode::Normal => "Normal"@,
        BlendMode::Add => "Add"@,
        BlendMode::Multiply => "Multiply"@,
        BlendMode::Screen => "Screen"@,
    }
}

/// Label of a blend mode in the layer combobox.
pub fn blend_label(m: BlendMode) -> (r: &'static str)
    ensures
        r@ == blend_text(m),
{
    match m {
        BlendMode::Normal => "Normal",
        BlendMode::Add => "Add",
        BlendMode::Multiply => "Multiply",
        BlendMode::Screen => "Screen",
    }
}

/// End-of-clip policy of a video layer.
#[derive(Debug, Clone, Copy, PartialEq, Eq, Structural)]
pub enum LoopMode {
    Once,
    Loop,
    PingPong,
}

pub open spec fn loop_mode_text(m: LoopMode) -> Seq<char> {
    match m {
        LoopMode::Once => "Once (stop at end)"@,
        LoopMode::Loop => "Loop (seamless)"@,
        LoopMode::PingPong => "Ping-pong (currently loops; reverse in Phase 7)"@,
    }
}

/// Label of a loop mode in the Selected-layer Video combobox. Ping-pong
/// ships as a forward-only stub, and the label says so, so the operator is
/// not surprised when the clip just loops.
pub fn loop_mode_label(m: LoopMode) -> (r: &'static str)
    ensures
        r@ == loop_mode_text(m),
{
    match m {
        LoopMode::Once => "Once (stop at end)",
        LoopMode::Loop => "Loop (seamless)",
        LoopMode::PingPong => "Ping-pong (currently loops; reverse in Phase 7)",
    }
}

/// How a tint's colour combines with the layer.
#[derive(Debug, Clone, Copy, PartialEq, Eq, Structural)]
pub enum TintMode {
    Multiply,
    Add,
    Screen,
}

/// One entry of a layer's effect chain. Each modulator-driven slot is held
/// with its modulator; static scalars (tint colour, translation, feedback
/// offset, treatment parameters) live with the renderer and are not part of
/// this model.
#[derive(Debug, Clone, PartialEq)]
pub enum Effect {
    Color { hue: Modulator, saturation: Modulator, brightness: Modulator, contrast: Modulator },
    Tint { amount: Modulator, mode: TintMode },
    Blur { radius_px: Modulator },
    Transform { rotate_deg: Modulator, scale_x: Modulator, scale_y: Modulator },
    External { id: String },
    Treatment { id: String },
    Feedback { decay: Modulator },
}

pub open spec fn effect_kind_text(e: Effect) -> Seq<char> {
    match e {
        Effect::Color { .. } => "Color"@,
        Effect::Tint { .. } => "Tint"@,
        Effect::Blur { .. } => "Blur"@,
        Effect::Transform { .. } => "Transform"@,
        Effect::External { .. } => "External"@,
        Effect::Treatment { .. } => "Treatment"@,
        Effect::Feedback { .. } => "Feedback"@,
    }
}

/// Label of an effect's kind in the effect-chain rows.
pub fn effect_kind_label(effect: &Effect) -> (r: &'static str)
    ensures
        r@ == effect_kind_text(*effect),
{
    match effect {
        Effect::Color { .. } => "Color",
        Effect::Tint { .. } => "Tint",
        Effect::Blur { .. } => "Blur",
        Effect::Transform { .. } => "Transform",
        Effect::External { .. } => "External",
        Effect::Treatment { .. } => "Treatment",
        Effect::Feedback { .. } => "Feedback",
    }
}

/// The intent groups that organise the add-to-chain picker.
#[derive(Debug, Clone, Copy, PartialEq, Eq, Structural)]
pub enum IntentGroup {
    Warp,
    Color,
    Texture,
    Compose,
    Animate,
    Generative,
}

pub open spec fn intent_group_text(g: IntentGroup) -> Seq<char> {
    match g {
        IntentGroup::Warp => "Warp"@,
        IntentGroup::Color => "Color"@,
        IntentGroup::Texture => "Texture"@,
        IntentGroup::Compose => "Compose"@,
        IntentGroup::Animate => "Animate"@,
        IntentGroup::Generative => "Generative"@,
    }
}

/// Human-readable name of an intent group (section headers in the picker).
pub fn intent_group_name(g: IntentGroup) -> (r: &'static str)
    ensures
        r@ == intent_group_text(g),
{
    match g {
        IntentGroup::Warp => "Warp",
        IntentGroup::Color => "Color",
        IntentGroup::Texture => "Texture",
        IntentGroup::Compose => "Compose",
        IntentGroup::Animate => "Animate",
        IntentGroup::Generative => "Generative",
    }
}

/// What a treatment preset needs before it shows anything.
pub struct PresetCapability {
    pub requires_sdf: bool,
    pub requires_zone: bool,
    pub is_particle: bool,
}

/// The parts joined by `sep`, in order.
pub open spec fn join(parts: Seq<Seq<char>>, sep: Seq<char>) -> Seq<char>
    decreases parts.len(),
{
    if parts.len() == 0 {
        Seq::empty()
    } else if parts.len() == 1 {
        parts[0]
    } else {
        join(parts.drop_last(), sep) + sep + parts.last()
    }
}

/// The hints that apply to a capability, in display order.
pub open spec fn capability_parts(sdf: bool, zone: bool, particle: bool) -> Seq<Seq<char>> {
    (if sdf { seq!["Needs a mask polygon"@] } else { Seq::empty() })
        + (if zone { seq!["Needs a zone role"@] } else { Seq::empty() })
        + (if particle { seq!["Particle-based"@] } else { Seq::empty() })
}

/// Hover text for a treatment row in the add picker: the applicable hints
/// joined by a middle dot, or "No special requirements".
pub open spec fn capability_hint(cap: PresetCapability) -> Seq<char> {
    let parts = capability_parts(cap.requires_sdf, cap.requires_zone, cap.is_particle);
    if parts.len() == 0 {
        "No special requirements"@
    } else {
        join(parts, " \u{00B7} "@)
    }
}

/// Short description + capability hints for a treatment picker row.
pub fn build_capability_hint(cap: &PresetCapability) -> (r: String)
    ensures
        r@ == capability_hint(*cap),
{
    let mut parts: Vec<&'static str> = Vec::new();
    if cap.requires_sdf {
        parts.push("Needs a mask polygon");
    }
    if cap.requires_zone {
        parts.push("Needs a zone role");
    }
    if cap.is_particle {
        parts.push("Particle-based");
    }
    let ghost spec_parts = capability_parts(cap.requires_sdf, cap.requires_zone, cap.is_particle);
    assert(parts@.map_values(|p: &'static str| p@) =~= spec_parts);
    if parts.len() == 0 {
        return String::from_str("No special requirements");
    }
    let sep = " \u{00B7} ";
    let mut out = String::new();
    let mut i: usize = 0;
    while i < parts.len()
        invariant
            0 <= i <= parts.len(),
            parts@.map_values(|p: &'static str| p@) == spec_parts,
            out@ == join(spec_parts.take(i as int), sep@),
        decreases parts.len() - i,
    {
        if i > 0 {
            out.append(sep);
        }
        out.append(parts[i]);
        proof {
            assert(spec_parts.take(i + 1).drop_last() =~= spec_parts.take(i as int));
            assert(spec_parts.take(i + 1).last() == parts@[i as int]@);
            if i == 0 {
                assert(spec_parts.take(1) =~= seq![parts@[0]@]);
            }
        }
        i = i + 1;
    }
    assert(spec_parts.take(parts.len() as int) =~= spec_parts);
    out
}

} // verus!
