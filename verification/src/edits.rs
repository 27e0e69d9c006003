//! Commit decisions of the always-visible editors. A value editor works on
//! a staged copy while the operator drags; the project value is only
//! changed by a mutation emitted when the edit finishes, so every edit is a
//! single undo step.

use vstd::prelude::*;

verus! {

/// What to do with the staged copy kept in the UI's transient memory.
#[derive(Debug, Clone, Copy, PartialEq, Eq, Structural)]
pub enum Staging {
    /// Forget the staged copy.
    Clear,
    /// Keep the shown value as the staged copy.
    Stage(u32),
    /// Leave the memory as it is.
    Keep,
}

/// The outcome of one frame of an integer drag-value editor.
#[derive(Debug, Clone, Copy, PartialEq, Eq, Structural)]
pub struct EditDecision {
    /// The value to commit as a mutation, if the edit finished with a change.
    pub emit: Option<u32>,
    pub staging: Staging,
}

pub open spec fn spec_decide_u32_edit(
    project_value: u32,
    shown: u32,
    drag_stopped: bool,
    dragged: bool,
    changed: bool,
) -> EditDecision {
    if drag_stopped {
        EditDecision {
            emit: if shown != project_value { Some(shown) } else { None },
            staging: Staging::Clear,
        }
    } else if dragged {
        EditDecision { emit: None, staging: Staging::Stage(shown) }
    } else if changed && shown != project_value {
        EditDecision { emit: Some(shown), staging: Staging::Clear }
    } else {
        EditDecision { emit: None, staging: Staging::Keep }
    }
}

/// One frame of a `u32` drag-value editor: on drag-stop, commit the shown
/// value if it differs; while dragging, only stage it; a typed or scrolled
/// change commits at once.
pub fn decide_u32_edit(
    project_value: u32,
    shown: u32,
    drag_stopped: bool,
    dragged: bool,
    changed: bool,
) -> (r: EditDecision)
    ensures
        r == spec_decide_u32_edit(project_value, shown, drag_stopped, dragged, changed),
{
    if drag_stopped {
        let emit = if shown != project_value {
            Some(shown)
        } else {
            None
        };
        EditDecision { emit, staging: Staging::Clear }
    } else if dragged {
        EditDecision { emit: None, staging: Staging::Stage(shown) }
    } else if changed && shown != project_value {
        EditDecision { emit: Some(shown), staging: Staging::Clear }
    } else {
        EditDecision { emit: None, staging: Staging::Keep }
    }
}

/// A mutation is only ever emitted for a real change, never mid-drag, and
/// an emitted commit always clears the staged copy.
pub proof fn lemma_edit_commits_only_changes(
    project_value: u32,
    shown: u32,
    drag_stopped: bool,
    dragged: bool,
    changed: bool,
)
    ensures
        ({
            let d = spec_decide_u32_edit(project_value, shown, drag_stopped, dragged, changed);
            &&& d.emit is Some ==> d.emit == Some(shown) && shown != project_value
            &&& d.emit is Some ==> d.staging == Staging::Clear
            &&& (dragged && !drag_stopped) ==> d.emit is None
        }),
{
}

/// A checkbox commits its new state when the operator changed it.
pub fn decide_checkbox(project_value: bool, shown: bool, changed: bool) -> (r: Option<bool>)
    ensures
        r == (if changed && shown != project_value {
            Some(shown)
        } else {
            None
        }),
{
    if changed && shown != project_value {
        Some(shown)
    } else {
        None
    }
}

} // verus!
