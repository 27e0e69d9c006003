//! Operator-level show toggles of the projector output: blackout, freeze,
//! the test pattern and the editor overlay. One state is shared by every
//! projector.

use vstd::prelude::*;

verus! {

/// A built-in test pattern, by its place in the cycle the `T` key steps
/// through. Place 0 is "no test pattern"; the renderer draws the patterns
/// and knows how many places the cycle has.
#[derive(Debug, Clone, Copy, PartialEq, Eq, Structural)]
pub struct TestPattern {
    pub position: u32,
}

/// The place after `position` in a cycle of `cycle_len` places, wrapping
/// back to "no test pattern" after the last one.
pub open spec fn next_position(position: u32, cycle_len: u32) -> u32 {
    ((position + 1) % (cycle_len as int)) as u32
}

impl TestPattern {
    /// No test pattern: the projector shows the show.
    pub fn none() -> (r: TestPattern)
        ensures
            r.position == 0,
    {
        TestPattern { position: 0 }
    }

    /// Whether this is "no test pattern".
    pub fn is_none(&self) -> (r: bool)
        ensures
            r == (self.position == 0),
    {
        self.position == 0
    }

    /// The next pattern in a cycle of `cycle_len` places (place 0 included).
    pub fn next(&self, cycle_len: u32) -> (r: TestPattern)
        requires
            cycle_len >= 1,
        ensures
            r.position == next_position(self.position, cycle_len),
    {
        let p = ((self.position as u64) + 1) % (cycle_len as u64);
        TestPattern { position: p as u32 }
    }
}

impl Default for TestPattern {
    /// No test pattern.
    fn default() -> (r: Self)
        ensures
            r.position == 0,
    {
        TestPattern { position: 0 }
    }
}

/// `k` presses of the `T` key starting from `position`.
pub open spec fn pressed(position: u32, cycle_len: u32, k: nat) -> u32
    decreases k,
{
    if k == 0 {
        position
    } else {
        next_position(pressed(position, cycle_len, (k - 1) as nat), cycle_len)
    }
}

proof fn lemma_pressed_is_offset(position: u32, cycle_len: u32, k: nat)
    requires
        cycle_len >= 1,
        position < cycle_len,
    ensures
        pressed(position, cycle_len, k) == (position + k) % (cycle_len as int),
    decreases k,
{
    if k > 0 {
        lemma_pressed_is_offset(position, cycle_len, (k - 1) as nat);
        let q = (position + k - 1) % (cycle_len as int);
        vstd::arithmetic::div_mod::lemma_add_mod_noop_right(1, position + k - 1, cycle_len as int);
        vstd::arithmetic::div_mod::lemma_mod_bound(position + k - 1, cycle_len as int);
        vstd::arithmetic::div_mod::lemma_mod_bound(q + 1, cycle_len as int);
        let prev = pressed(position, cycle_len, (k - 1) as nat);
        assert(prev == q);
        assert((prev + 1) % (cycle_len as int) == (1 + q) % (cycle_len as int));
        assert(pressed(position, cycle_len, k) == next_position(prev, cycle_len));
        assert(next_position(prev, cycle_len) == ((prev + 1) % (cycle_len as int)) as u32);
        assert(1 + (position + k - 1) == position + k);
        let r = (position + k) % (cycle_len as int);
        vstd::arithmetic::div_mod::lemma_mod_bound(position + k, cycle_len as int);
        assert(0 <= r < cycle_len);
        assert((r as u32) as int == r);
    } else {
        vstd::arithmetic::div_mod::lemma_small_mod(position as nat, cycle_len as nat);
    }
}

/// Pressing `T` cycles: from any place, as many presses as the cycle has
/// places lead back to it, and from "no test pattern" every place is
/// reached on the way.
pub proof fn lemma_test_pattern_cycle(position: u32, cycle_len: u32)
    requires
        cycle_len >= 1,
        position < cycle_len,
    ensures
        pressed(position, cycle_len, cycle_len as nat) == position,
        forall|k: nat| k < cycle_len ==> #[trigger] pressed(0, cycle_len, k) == k,
{
    lemma_pressed_is_offset(position, cycle_len, cycle_len as nat);
    vstd::arithmetic::div_mod::lemma_mod_add_multiples_vanish(position as int, cycle_len as int);
    vstd::arithmetic::div_mod::lemma_small_mod(position as nat, cycle_len as nat);
    assert forall|k: nat| k < cycle_len implies #[trigger] pressed(0, cycle_len, k) == k by {
        lemma_pressed_is_offset(0, cycle_len, k);
        vstd::arithmetic::div_mod::lemma_small_mod(k, cycle_len as nat);
    }
}

#[derive(Debug)]
pub struct OutputState {
    /// Output cut to black; the show keeps running underneath.
    pub blackout: bool,
    /// Output holds the last frame.
    pub freeze: bool,
    /// The calibration pattern shown instead of the show, if any; the `T`
    /// key cycles through the patterns.
    pub test_pattern: TestPattern,
    /// Paint per-layer bounding rects and mask outlines on the projector so
    /// the operator sees where each layer lands while editing. On by
    /// default: a fresh user benefits from the feedback far more than they
    /// are hurt by it; flip it off before the show.
    pub show_editor_overlay: bool,
}

impl Default for OutputState {
    fn default() -> (r: Self)
        ensures
            !r.blackout,
            !r.freeze,
            r.test_pattern.position == 0,
            r.show_editor_overlay,
    {
        OutputState {
            blackout: false,
            freeze: false,
            test_pattern: TestPattern::none(),
            show_editor_overlay: true,
        }
    }
}

pub open spec fn with_blackout_toggled(s: OutputState) -> OutputState {
    OutputState { blackout: !s.blackout, ..s }
}

pub open spec fn with_freeze_toggled(s: OutputState) -> OutputState {
    OutputState { freeze: !s.freeze, ..s }
}

pub open spec fn with_overlay_toggled(s: OutputState) -> OutputState {
    OutputState { show_editor_overlay: !s.show_editor_overlay, ..s }
}

impl OutputState {
    /// Flip blackout (the `B` key); nothing else changes.
    pub fn toggle_blackout(&mut self)
        ensures
            *final(self) == with_blackout_toggled(*old(self)),
    {
        self.blackout = !self.blackout;
    }

    /// Flip freeze; nothing else changes.
    pub fn toggle_freeze(&mut self)
        ensures
            *final(self) == with_freeze_toggled(*old(self)),
    {
        self.freeze = !self.freeze;
    }

    /// Step to the next test pattern (the `T` key) in a cycle of
    /// `cycle_len` places, place 0 being no pattern; nothing else changes.
    pub fn cycle_test_pattern(&mut self, cycle_len: u32)
        requires
            cycle_len >= 1,
        ensures
            *final(self) == (OutputState {
                test_pattern: TestPattern {
                    position: next_position(old(self).test_pattern.position, cycle_len),
                },
                ..*old(self)
            }),
    {
        self.test_pattern = self.test_pattern.next(cycle_len);
    }

    /// Flip the editor overlay (the `O` key); nothing else changes.
    pub fn toggle_editor_overlay(&mut self)
        ensures
            *final(self) == with_overlay_toggled(*old(self)),
    {
        self.show_editor_overlay = !self.show_editor_overlay;
    }
}

/// Pressing a show toggle twice restores the output exactly, and the
/// toggles are independent of one another: their order does not matter.
pub proof fn lemma_toggles_are_involutions_and_commute(s: OutputState)
    ensures
        with_blackout_toggled(with_blackout_toggled(s)) == s,
        with_freeze_toggled(with_freeze_toggled(s)) == s,
        with_overlay_toggled(with_overlay_toggled(s)) == s,
        with_blackout_toggled(with_freeze_toggled(s)) == with_freeze_toggled(
            with_blackout_toggled(s),
        ),
        with_blackout_toggled(with_overlay_toggled(s)) == with_overlay_toggled(
            with_blackout_toggled(s),
        ),
        with_freeze_toggled(with_overlay_toggled(s)) == with_overlay_toggled(
            with_freeze_toggled(s),
        ),
{
}

} // verus!
