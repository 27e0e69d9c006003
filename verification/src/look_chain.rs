//! The per-layer look chain: how intent groups are drawn, which effects the
//! add picker offers in each group, which chain slots are driven by OSC,
//! the headline parameter and status of a row, editing the chain, and the
//! autofix chips.

use vstd::prelude::*;
use vstd::string::*;

use crate::binding::Modulator;
use crate::labels::{Effect, IntentGroup, TintMode};
use crate::text::same_text;

verus! {

/// Glyph shown in front of an intent group.
pub open spec fn group_glyph(g: IntentGroup) -> Seq<char> {
    match g {
        IntentGroup::Warp => "\u{1F300}"@,
        IntentGroup::Color => "\u{1F3A8}"@,
        IntentGroup::Texture => "\u{1F9F1}"@,
        IntentGroup::Compose => "\u{1F9E9}"@,
        IntentGroup::Animate => "\u{1F30A}"@,
        IntentGroup::Generative => "\u{2728}"@,
    }
}

/// Accent colour of an intent group as `(r, g, b)`.
pub open spec fn group_rgb(g: IntentGroup) -> (u8, u8, u8) {
    match g {
        IntentGroup::Warp => (0x7B, 0x9E, 0xFF),
        IntentGroup::Color => (0xFF, 0xA0, 0x60),
        IntentGroup::Texture => (0xA0, 0xC8, 0x80),
        IntentGroup::Compose => (0xCC, 0xCC, 0xCC),
        IntentGroup::Animate => (0x80, 0xE0, 0xD0),
        IntentGroup::Generative => (0xE0, 0xC0, 0xFF),
    }
}

/// Glyph and accent colour (soft blue, amber, sage, grey, teal, lavender)
/// of an intent group.
pub fn intent_group_glyph(g: IntentGroup) -> (r: (&'static str, (u8, u8, u8)))
    ensures
        r.0@ == group_glyph(g),
        r.1 == group_rgb(g),
{
    match g {
        IntentGroup::Warp => ("\u{1F300}", (0x7B, 0x9E, 0xFF)),
        IntentGroup::Color => ("\u{1F3A8}", (0xFF, 0xA0, 0x60)),
        IntentGroup::Texture => ("\u{1F9F1}", (0xA0, 0xC8, 0x80)),
        IntentGroup::Compose => ("\u{1F9E9}", (0xCC, 0xCC, 0xCC)),
        IntentGroup::Animate => ("\u{1F30A}", (0x80, 0xE0, 0xD0)),
        IntentGroup::Generative => ("\u{2728}", (0xE0, 0xC0, 0xFF)),
    }
}

/// The non-treatment effects the add picker lists under a group, as
/// `(label, hover text, fresh effect)`. A fresh effect has every
/// modulator slot fixed; a fresh tint multiplies.
pub open spec fn group_variants(g: IntentGroup) -> Seq<(Seq<char>, Seq<char>, Effect)> {
    match g {
        IntentGroup::Warp => seq![
            (
                "Transform"@,
                "Translate, rotate, scale the layer"@,
                Effect::Transform {
                    rotate_deg: Modulator::Static,
                    scale_x: Modulator::Static,
                    scale_y: Modulator::Static,
                },
            ),
        ],
        IntentGroup::Color => seq![
            (
                "Color grade"@,
                "Hue shift, saturation, brightness, contrast"@,
                Effect::Color {
                    hue: Modulator::Static,
                    saturation: Modulator::Static,
                    brightness: Modulator::Static,
                    contrast: Modulator::Static,
                },
            ),
            (
                "Tint"@,
                "Overlay a solid color tint on the layer"@,
                Effect::Tint { amount: Modulator::Static, mode: TintMode::Multiply },
            ),
        ],
        IntentGroup::Texture => seq![
            ("Blur"@, "Gaussian blur"@, Effect::Blur { radius_px: Modulator::Static }),
        ],
        IntentGroup::Animate => seq![
            (
                "Feedback"@,
                "Trails / motion smear \u{2014} blends previous frame into current"@,
                Effect::Feedback { decay: Modulator::Static },
            ),
        ],
        IntentGroup::Compose => Seq::empty(),
        IntentGroup::Generative => Seq::empty(),
    }
}

/// A picker row as plain text plus the effect it adds.
pub open spec fn row_view(row: (&'static str, &'static str, Effect)) -> (
    Seq<char>,
    Seq<char>,
    Effect,
) {
    (row.0@, row.1@, row.2)
}

/// The non-treatment effects offered under `group` in the add picker, in
/// display order. Compose and Generative hold treatments only.
pub fn non_treatment_variants_for_group(group: IntentGroup) -> (r: Vec<
    (&'static str, &'static str, Effect),
>)
    ensures
        r@.map_values(|row: (&'static str, &'static str, Effect)| row_view(row)) == group_variants(
            group,
        ),
{
    let mut out: Vec<(&'static str, &'static str, Effect)> = Vec::new();
    match group {
        IntentGroup::Warp => {
            out.push(
                (
                    "Transform",
                    "Translate, rotate, scale the layer",
                    Effect::Transform {
                        rotate_deg: Modulator::Static,
                        scale_x: Modulator::Static,
                        scale_y: Modulator::Static,
                    },
                ),
            );
        },
        IntentGroup::Color => {
            out.push(
                (
                    "Color grade",
                    "Hue shift, saturation, brightness, contrast",
                    Effect::Color {
                        hue: Modulator::Static,
                        saturation: Modulator::Static,
                        brightness: Modulator::Static,
                        contrast: Modulator::Static,
                    },
                ),
            );
            out.push(
                (
                    "Tint",
                    "Overlay a solid color tint on the layer",
                    Effect::Tint { amount: Modulator::Static, mode: TintMode::Multiply },
                ),
            );
        },
        IntentGroup::Texture => {
            out.push(("Blur", "Gaussian blur", Effect::Blur { radius_px: Modulator::Static }));
        },
        IntentGroup::Animate => {
            out.push(
                (
                    "Feedback",
                    "Trails / motion smear \u{2014} blends previous frame into current",
                    Effect::Feedback { decay: Modulator::Static },
                ),
            );
        },
        IntentGroup::Compose => {},
        IntentGroup::Generative => {},
    }
    assert(out@.map_values(|row: (&'static str, &'static str, Effect)| row_view(row))
        =~= group_variants(group));
    out
}

/// `(slot name, OSC address)` of one slot, if an OSC address drives it.
pub open spec fn osc_slot(name: Seq<char>, m: Modulator) -> Seq<(Seq<char>, Seq<char>)> {
    match m {
        Modulator::OscBound { addr } => seq![(name, addr@)],
        _ => Seq::empty(),
    }
}

/// Every OSC-driven slot of an effect, in the order the slots are listed in
/// the parameter rows. Treatment parameters are static scalars and external
/// effects are opaque, so neither contributes.
pub open spec fn osc_bindings(e: Effect) -> Seq<(Seq<char>, Seq<char>)> {
    match e {
        Effect::Color { hue, saturation, brightness, contrast } => osc_slot("hue"@, hue) + osc_slot(
            "saturation"@,
            saturation,
        ) + osc_slot("brightness"@, brightness) + osc_slot("contrast"@, contrast),
        Effect::Tint { amount, .. } => osc_slot("amount"@, amount),
        Effect::Blur { radius_px } => osc_slot("radius_px"@, radius_px),
        Effect::Transform { rotate_deg, scale_x, scale_y } => osc_slot("rotate_deg"@, rotate_deg)
            + osc_slot("scale_x"@, scale_x) + osc_slot("scale_y"@, scale_y),
        Effect::External { .. } => Seq::empty(),
        Effect::Treatment { .. } => Seq::empty(),
        Effect::Feedback { decay } => osc_slot("decay"@, decay),
    }
}

/// The modulator an effect holds in the slot the parameter rows call
/// `name`, if it has such a slot.
pub open spec fn slot_modulator(e: Effect, name: Seq<char>) -> Option<Modulator> {
    match e {
        Effect::Color { hue, saturation, brightness, contrast } => if name == "hue"@ {
            Some(hue)
        } else if name == "saturation"@ {
            Some(saturation)
        } else if name == "brightness"@ {
            Some(brightness)
        } else if name == "contrast"@ {
            Some(contrast)
        } else {
            None
        },
        Effect::Tint { amount, .. } => if name == "amount"@ {
            Some(amount)
        } else {
            None
        },
        Effect::Blur { radius_px } => if name == "radius_px"@ {
            Some(radius_px)
        } else {
            None
        },
        Effect::Transform { rotate_deg, scale_x, scale_y } => if name == "rotate_deg"@ {
            Some(rotate_deg)
        } else if name == "scale_x"@ {
            Some(scale_x)
        } else if name == "scale_y"@ {
            Some(scale_y)
        } else {
            None
        },
        Effect::Feedback { decay } => if name == "decay"@ {
            Some(decay)
        } else {
            None
        },
        Effect::External { .. } => None,
        Effect::Treatment { .. } => None,
    }
}

/// Whether the slot `name` of `e` is driven by the OSC address `addr`.
pub open spec fn slot_bound_to(e: Effect, name: Seq<char>, addr: Seq<char>) -> bool {
    match slot_modulator(e, name) {
        Some(Modulator::OscBound { addr: a }) => a@ == addr,
        _ => false,
    }
}

proof fn lemma_slot_names_distinct()
    ensures
        "hue"@ != "saturation"@,
        "hue"@ != "brightness"@,
        "hue"@ != "contrast"@,
        "saturation"@ != "brightness"@,
        "saturation"@ != "contrast"@,
        "brightness"@ != "contrast"@,
        "rotate_deg"@ != "scale_x"@,
        "rotate_deg"@ != "scale_y"@,
        "scale_x"@ != "scale_y"@,
{
    reveal_strlit("hue");
    reveal_strlit("saturation");
    reveal_strlit("brightness");
    reveal_strlit("contrast");
    reveal_strlit("rotate_deg");
    reveal_strlit("scale_x");
    reveal_strlit("scale_y");
    assert("hue"@.len() != "saturation"@.len());
    assert("hue"@.len() != "brightness"@.len());
    assert("hue"@.len() != "contrast"@.len());
    assert("saturation"@[0] != "brightness"@[0]);
    assert("saturation"@.len() != "contrast"@.len());
    assert("brightness"@[0] != "contrast"@[0]);
    assert("rotate_deg"@.len() != "scale_x"@.len());
    assert("rotate_deg"@.len() != "scale_y"@.len());
    assert("scale_x"@[6] != "scale_y"@[6]);
}

/// The bindings listed for an effect are exactly its OSC-driven slots,
/// each under the name of the slot that holds it: `(name, addr)` is listed
/// iff the effect's slot `name` is bound to the OSC address `addr`.
pub proof fn lemma_osc_bindings_name_their_slot(e: Effect, name: Seq<char>, addr: Seq<char>)
    ensures
        osc_bindings(e).contains((name, addr)) <==> slot_bound_to(e, name, addr),
{
    lemma_slot_names_distinct();
    let l = osc_bindings(e);
    let entry = (name, addr);
    match e {
        Effect::Color { hue, saturation, brightness, contrast } => {
            let s1 = osc_slot("hue"@, hue);
            let s2 = osc_slot("saturation"@, saturation);
            let s3 = osc_slot("brightness"@, brightness);
            let s4 = osc_slot("contrast"@, contrast);
            lemma_concat_contains(s1 + s2 + s3, s4, entry);
            lemma_concat_contains(s1 + s2, s3, entry);
            lemma_concat_contains(s1, s2, entry);
            lemma_slot_contains("hue"@, hue, entry);
            lemma_slot_contains("saturation"@, saturation, entry);
            lemma_slot_contains("brightness"@, brightness, entry);
            lemma_slot_contains("contrast"@, contrast, entry);
        },
        Effect::Tint { amount, .. } => {
            lemma_slot_contains("amount"@, amount, entry);
        },
        Effect::Blur { radius_px } => {
            lemma_slot_contains("radius_px"@, radius_px, entry);
        },
        Effect::Transform { rotate_deg, scale_x, scale_y } => {
            let s1 = osc_slot("rotate_deg"@, rotate_deg);
            let s2 = osc_slot("scale_x"@, scale_x);
            let s3 = osc_slot("scale_y"@, scale_y);
            lemma_concat_contains(s1 + s2, s3, entry);
            lemma_concat_contains(s1, s2, entry);
            lemma_slot_contains("rotate_deg"@, rotate_deg, entry);
            lemma_slot_contains("scale_x"@, scale_x, entry);
            lemma_slot_contains("scale_y"@, scale_y, entry);
        },
        Effect::Feedback { decay } => {
            lemma_slot_contains("decay"@, decay, entry);
        },
        Effect::External { .. } => {
            assert(!l.contains(entry));
        },
        Effect::Treatment { .. } => {
            assert(!l.contains(entry));
        },
    }
}

proof fn lemma_concat_contains<A>(a: Seq<A>, b: Seq<A>, x: A)
    ensures
        (a + b).contains(x) <==> (a.contains(x) || b.contains(x)),
{
    if (a + b).contains(x) {
        let i = choose|i: int| 0 <= i < (a + b).len() && (a + b)[i] == x;
        if i < a.len() {
            assert(a[i] == x);
        } else {
            assert(b[i - a.len()] == x);
        }
    }
    if a.contains(x) {
        let i = choose|i: int| 0 <= i < a.len() && a[i] == x;
        assert((a + b)[i] == x);
    }
    if b.contains(x) {
        let i = choose|i: int| 0 <= i < b.len() && b[i] == x;
        assert((a + b)[a.len() + i] == x);
    }
}

proof fn lemma_slot_contains(name: Seq<char>, m: Modulator, x: (Seq<char>, Seq<char>))
    ensures
        osc_slot(name, m).contains(x) <==> (x.0 == name && match m {
            Modulator::OscBound { addr } => addr@ == x.1,
            _ => false,
        }),
{
    match m {
        Modulator::OscBound { addr } => {
            if x.0 == name && addr@ == x.1 {
                assert(osc_slot(name, m)[0] == x);
            }
        },
        _ => {},
    }
}

/// A collected binding as plain text.
pub open spec fn binding_view(b: (&'static str, String)) -> (Seq<char>, Seq<char>) {
    (b.0@, b.1@)
}

fn push_osc_slot(out: &mut Vec<(&'static str, String)>, name: &'static str, m: &Modulator)
    ensures
        final(out)@.map_values(|b: (&'static str, String)| binding_view(b)) == old(
            out,
        )@.map_values(|b: (&'static str, String)| binding_view(b)) + osc_slot(name@, *m),
{
    let ghost before = out@;
    match m {
        Modulator::OscBound { addr } => {
            out.push((name, addr.clone()));
            assert(out@.map_values(|b: (&'static str, String)| binding_view(b)) =~= before.map_values(
                |b: (&'static str, String)| binding_view(b),
            ) + osc_slot(name@, *m));
        },
        _ => {
            assert(before.map_values(|b: (&'static str, String)| binding_view(b)) + osc_slot(
                name@,
                *m,
            ) =~= before.map_values(|b: (&'static str, String)| binding_view(b)));
        },
    }
}

/// Every `(slot name, OSC address)` pair of an effect, for the OSC bindings
/// summary. The slot names are the ones the parameter rows use, so the
/// operator can match a summary line to its row. The modulator's scale and
/// offset are render-side values and are not returned.
pub fn collect_osc_bindings_in_effect(effect: &Effect) -> (r: Vec<(&'static str, String)>)
    ensures
        r@.map_values(|b: (&'static str, String)| binding_view(b)) == osc_bindings(*effect),
{
    let mut out: Vec<(&'static str, String)> = Vec::new();
    assert(out@.map_values(|b: (&'static str, String)| binding_view(b)) =~= Seq::empty());
    match effect {
        Effect::Color { hue, saturation, brightness, contrast } => {
            push_osc_slot(&mut out, "hue", hue);
            push_osc_slot(&mut out, "saturation", saturation);
            push_osc_slot(&mut out, "brightness", brightness);
            push_osc_slot(&mut out, "contrast", contrast);
            assert(osc_bindings(*effect) =~= Seq::empty() + osc_slot("hue"@, *hue) + osc_slot(
                "saturation"@,
                *saturation,
            ) + osc_slot("brightness"@, *brightness) + osc_slot("contrast"@, *contrast));
        },
        Effect::Tint { amount, .. } => {
            push_osc_slot(&mut out, "amount", amount);
            assert(osc_bindings(*effect) =~= Seq::empty() + osc_slot("amount"@, *amount));
        },
        Effect::Blur { radius_px } => {
            push_osc_slot(&mut out, "radius_px", radius_px);
            assert(osc_bindings(*effect) =~= Seq::empty() + osc_slot("radius_px"@, *radius_px));
        },
        Effect::Transform { rotate_deg, scale_x, scale_y } => {
            push_osc_slot(&mut out, "rotate_deg", rotate_deg);
            push_osc_slot(&mut out, "scale_x", scale_x);
            push_osc_slot(&mut out, "scale_y", scale_y);
            assert(osc_bindings(*effect) =~= Seq::empty() + osc_slot("rotate_deg"@, *rotate_deg)
                + osc_slot("scale_x"@, *scale_x) + osc_slot("scale_y"@, *scale_y));
        },
        Effect::External { .. } => {},
        Effect::Treatment { .. } => {},
        Effect::Feedback { decay } => {
            push_osc_slot(&mut out, "decay", decay);
            assert(osc_bindings(*effect) =~= Seq::empty() + osc_slot("decay"@, *decay));
        },
    }
    out
}

/// A modulator-driven parameter slot of an effect, as the parameter rows
/// and commands name it.
#[derive(Debug, Clone, Copy, PartialEq, Eq, Structural)]
pub enum ModulatorField {
    ColorHue,
    ColorSaturation,
    ColorBrightness,
    ColorContrast,
    BlurRadius,
    TintAmount,
    TransformRotateDeg,
    TransformScaleX,
    TransformScaleY,
    FeedbackDecay,
}

/// The one parameter a collapsed look-chain row exposes: a modulator slot,
/// or a key of a treatment's parameter map.
#[derive(Debug, Clone, Copy, PartialEq, Eq)]
pub enum HeadlineParam {
    Modulator(ModulatorField),
    TreatmentParam(&'static str),
}

/// The headline parameter of an effect. For a treatment it is the headline
/// key of the treatment's capability, which the treatment registry supplies
/// as `treatment_headline`; external effects have none.
pub open spec fn spec_headline_for_effect(
    effect: Effect,
    treatment_headline: Option<&'static str>,
) -> Option<HeadlineParam> {
    match effect {
        Effect::Color { .. } => Some(HeadlineParam::Modulator(ModulatorField::ColorBrightness)),
        Effect::Blur { .. } => Some(HeadlineParam::Modulator(ModulatorField::BlurRadius)),
        Effect::Tint { .. } => Some(HeadlineParam::Modulator(ModulatorField::TintAmount)),
        Effect::Transform { .. } => Some(HeadlineParam::Modulator(ModulatorField::TransformScaleX)),
        Effect::Feedback { .. } => Some(HeadlineParam::Modulator(ModulatorField::FeedbackDecay)),
        Effect::External { .. } => None,
        Effect::Treatment { .. } => match treatment_headline {
            Some(key) => Some(HeadlineParam::TreatmentParam(key)),
            None => None,
        },
    }
}

/// The parameter shown on a collapsed look-chain row for `effect`.
pub fn headline_for_effect(effect: &Effect, treatment_headline: Option<&'static str>) -> (r:
    Option<HeadlineParam>)
    ensures
        r == spec_headline_for_effect(*effect, treatment_headline),
{
    match effect {
        Effect::Color { .. } => Some(HeadlineParam::Modulator(ModulatorField::ColorBrightness)),
        Effect::Blur { .. } => Some(HeadlineParam::Modulator(ModulatorField::BlurRadius)),
        Effect::Tint { .. } => Some(HeadlineParam::Modulator(ModulatorField::TintAmount)),
        Effect::Transform { .. } => Some(HeadlineParam::Modulator(ModulatorField::TransformScaleX)),
        Effect::Feedback { .. } => Some(HeadlineParam::Modulator(ModulatorField::FeedbackDecay)),
        Effect::External { .. } => None,
        Effect::Treatment { .. } => match treatment_headline {
            Some(key) => Some(HeadlineParam::TreatmentParam(key)),
            None => None,
        },
    }
}

/// Label of a headline parameter: the slot's short name, the treatment key
/// itself, or "param" for a slot no effect uses as its headline.
pub open spec fn headline_text(h: HeadlineParam) -> Seq<char> {
    match h {
        HeadlineParam::Modulator(ModulatorField::ColorBrightness) => "brightness"@,
        HeadlineParam::Modulator(ModulatorField::BlurRadius) => "radius"@,
        HeadlineParam::Modulator(ModulatorField::TintAmount) => "amount"@,
        HeadlineParam::Modulator(ModulatorField::TransformScaleX) => "scale x"@,
        HeadlineParam::Modulator(ModulatorField::FeedbackDecay) => "decay"@,
        HeadlineParam::TreatmentParam(key) => key@,
        _ => "param"@,
    }
}

/// Human-readable label of the headline parameter.
pub fn headline_label(headline: &HeadlineParam) -> (r: &'static str)
    ensures
        r@ == headline_text(*headline),
{
    match headline {
        HeadlineParam::Modulator(ModulatorField::ColorBrightness) => "brightness",
        HeadlineParam::Modulator(ModulatorField::BlurRadius) => "radius",
        HeadlineParam::Modulator(ModulatorField::TintAmount) => "amount",
        HeadlineParam::Modulator(ModulatorField::TransformScaleX) => "scale x",
        HeadlineParam::Modulator(ModulatorField::FeedbackDecay) => "decay",
        HeadlineParam::TreatmentParam(key) => key,
        _ => "param",
    }
}

// ---------------------------------------------------------------------------
// Editing the chain
// ---------------------------------------------------------------------------

/// The chain with a new node appended at its end ("+ Add to chain").
pub fn chain_with_node_added<T>(chain: Vec<T>, node: T) -> (r: Vec<T>)
    ensures
        r@ == chain@.push(node),
{
    let mut chain = chain;
    chain.push(node);
    chain
}

/// The chain with the node at `idx` taken out (the row's `×` button).
pub fn chain_with_node_removed<T>(chain: Vec<T>, idx: usize) -> (r: Vec<T>)
    requires
        idx < chain@.len(),
    ensures
        r@ == chain@.remove(idx as int),
{
    let mut chain = chain;
    chain.remove(idx);
    chain
}

/// The chain after a row is dragged from `from` and dropped on `to`: the
/// node is taken out and put back in at `to`.
pub open spec fn moved<T>(chain: Seq<T>, from: int, to: int) -> Seq<T> {
    chain.remove(from).insert(to, chain[from])
}

/// The chain after dragging the row at `from` onto the row at `to`.
pub fn chain_with_node_moved<T>(chain: Vec<T>, from: usize, to: usize) -> (r: Vec<T>)
    requires
        from < chain@.len(),
        to < chain@.len(),
    ensures
        r@ == moved(chain@, from as int, to as int),
{
    let mut chain = chain;
    let node = chain.remove(from);
    chain.insert(to, node);
    chain
}

/// Dragging a row only reorders the chain: the same nodes stay, the dragged
/// node lands at the drop position, and dragging it back restores the
/// chain.
pub proof fn lemma_move_reorders<T>(chain: Seq<T>, from: int, to: int)
    requires
        0 <= from < chain.len(),
        0 <= to < chain.len(),
    ensures
        moved(chain, from, to).len() == chain.len(),
        moved(chain, from, to)[to] == chain[from],
        moved(chain, from, to).to_multiset() == chain.to_multiset(),
        moved(moved(chain, from, to), to, from) == chain,
{
    broadcast use vstd::seq_lib::group_to_multiset_ensures;

    let once = moved(chain, from, to);
    vstd::seq_lib::to_multiset_remove(chain, from);
    vstd::seq_lib::to_multiset_insert(chain.remove(from), to, chain[from]);
    assert(once.remove(to) =~= chain.remove(from));
    assert(moved(once, to, from) =~= chain);
}

/// The state of a chain row's status dot.
#[derive(Debug, Clone, Copy, PartialEq, Eq, Structural)]
pub enum NodeStatus {
    /// Switched off: grey, "Bypassed — click to enable".
    Bypassed,
    /// On, but it currently changes nothing: amber, with the reason.
    NoOp,
    /// On and doing something: green, "Active".
    Active,
}

/// The status dot of a node: bypass wins; an enabled node is amber when a
/// no-op reason applies to it.
pub fn node_status(enabled: bool, has_no_op_reason: bool) -> (r: NodeStatus)
    ensures
        r == (if !enabled {
            NodeStatus::Bypassed
        } else if has_no_op_reason {
            NodeStatus::NoOp
        } else {
            NodeStatus::Active
        }),
{
    if !enabled {
        NodeStatus::Bypassed
    } else if has_no_op_reason {
        NodeStatus::NoOp
    } else {
        NodeStatus::Active
    }
}

/// The edit an autofix chip triggers.
#[derive(Debug, Clone, Copy, PartialEq, Eq, Structural)]
pub enum AutofixAction {
    /// "Needs a mask polygon": give the layer a mask covering the whole
    /// layer quad.
    FullQuadMask,
    /// "Amplitude at 0": move the treatment's headline parameter to the
    /// middle of its default-to-maximum range.
    NudgeHeadlineParam,
    /// "All params at identity": set the treatment's exposure to one stop.
    ExposureOneStop,
    /// "Needs a zone role": zone-role assignment is not wired yet; nothing
    /// is changed.
    ZoneRoleDeferred,
    /// Any other reason: nothing is changed.
    NoAction,
}

/// The action for a chip reason.
pub open spec fn spec_autofix_action(reason: Seq<char>) -> AutofixAction {
    if reason == "Needs a mask polygon"@ {
        AutofixAction::FullQuadMask
    } else if reason == "Amplitude at 0"@ {
        AutofixAction::NudgeHeadlineParam
    } else if reason == "All params at identity"@ {
        AutofixAction::ExposureOneStop
    } else if reason == "Needs a zone role"@ {
        AutofixAction::ZoneRoleDeferred
    } else {
        AutofixAction::NoAction
    }
}

/// Which edit the autofix chip with `reason` dispatches.
pub fn autofix_action(reason: &str) -> (r: AutofixAction)
    ensures
        r == spec_autofix_action(reason@),
{
    if same_text(reason, "Needs a mask polygon") {
        AutofixAction::FullQuadMask
    } else if same_text(reason, "Amplitude at 0") {
        AutofixAction::NudgeHeadlineParam
    } else if same_text(reason, "All params at identity") {
        AutofixAction::ExposureOneStop
    } else if same_text(reason, "Needs a zone role") {
        AutofixAction::ZoneRoleDeferred
    } else {
        AutofixAction::NoAction
    }
}

} // verus!
