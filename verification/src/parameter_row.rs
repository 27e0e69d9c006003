//! `ParameterRow`: the canonical layout of one editable parameter —
//! label · unit · value editor · binding picker · learn-state pill. This
//! module holds the builder; drawing happens in the UI layer.

use vstd::prelude::*;
use crate::binding::BindingSource;
use crate::glossary::GlossaryTerm;

verus! {

/// Outcome of one render pass of a row.
#[derive(Debug, Clone)]
pub struct RowOutcome {
    /// The operator picked a different binding source; the caller builds
    /// the replacement modulator with range-appropriate defaults.
    pub binding_changed: Option<BindingSource>,
}

impl Default for RowOutcome {
    /// A pass in which the operator changed nothing.
    fn default() -> (r: Self)
        ensures
            r.binding_changed is None,
    {
        RowOutcome { binding_changed: None }
    }
}

/// Builder for one parameter-edit row.
pub struct ParameterRow<'a> {
    /// Parameter name.
    pub label: &'a str,
    /// Optional unit shown after the label ("°", "px").
    pub unit: Option<&'a str>,
    /// Glossary popover attached to the label, if any.
    pub glossary: Option<GlossaryTerm>,
    /// Per-row id seed.
    pub salt: u64,
    /// Source currently driving the parameter.
    pub current_source: BindingSource,
    /// Whether the row is the current MIDI-learn target.
    pub learn_active: bool,
}

impl<'a> ParameterRow<'a> {
    /// Begin a new row: no unit, no glossary popover, not learning.
    pub fn new(label: &'a str, salt: u64, current: BindingSource) -> (r: Self)
        ensures
            r.label == label,
            r.unit is None,
            r.glossary is None,
            r.salt == salt,
            r.current_source == current,
            !r.learn_active,
    {
        ParameterRow {
            label,
            unit: None,
            glossary: None,
            salt,
            current_source: current,
            learn_active: false,
        }
    }

    /// Show a unit string after the label; every other field is kept.
    pub fn unit(self, unit: &'a str) -> (r: Self)
        ensures
            r == (ParameterRow { unit: Some(unit), ..self }),
    {
        ParameterRow { unit: Some(unit), ..self }
    }

    /// Attach a glossary popover to the label; every other field is kept.
    pub fn glossary(self, term: GlossaryTerm) -> (r: Self)
        ensures
            r == (ParameterRow { glossary: Some(term), ..self }),
    {
        ParameterRow { glossary: Some(term), ..self }
    }

    /// Mark the row as the current MIDI-learn target (or not); every other
    /// field is kept.
    pub fn learn_active(self, active: bool) -> (r: Self)
        ensures
            r == (ParameterRow { learn_active: active, ..self }),
    {
        ParameterRow { learn_active: active, ..self }
    }
}

} // verus!
