//! Animation timing tokens shared by every interactive surface.
//!
//! All durations are whole milliseconds. They are intentionally small:
//! rmap is a live-performance tool and the operator's eye must track the
//! canvas, not wait for animations to settle.

use vstd::prelude::*;

verus! {

/// Duration (ms) for a hover-state fade-in / fade-out.
pub const HOVER_FADE_MS: u32 = 120;

/// Duration (ms) for drag-ease animations (e.g. thumbnail scale during drag).
pub const DRAG_EASE_MS: u32 = 160;

/// Duration (ms) for panel / banner transitions (slide-in, cross-fade).
pub const TRANSITION_MS: u32 = 220;

/// The three timing tokens are positive and ordered
/// hover < drag-ease < transition, so structural changes always take
/// longer than pointer feedback.
pub proof fn lemma_timing_tokens_ordered()
    ensures
        0 < HOVER_FADE_MS,
        HOVER_FADE_MS < DRAG_EASE_MS,
        DRAG_EASE_MS < TRANSITION_MS,
{
}

} // verus!
