//! The binding-source vocabulary of the parameter-row picker: which kind of
//! modulator drives a parameter, and the operator-facing label for it.

use vstd::prelude::*;
use vstd::string::*;

verus! {

/// What drives a parameter over time. Only the data that the picker logic
/// reads is held here: which source it is, and the integer routing data
/// (FFT band, OSC address, MIDI CC / channel) that identifies the binding.
/// Amplitudes, periods and offsets are owned by the render side.
#[derive(Debug, Clone, PartialEq)]
pub enum Modulator {
    /// A fixed value.
    Static,
    /// Internal sine LFO.
    Sine,
    /// Internal triangle LFO.
    Triangle,
    /// Smoothed random LFO.
    Noise,
    /// Sine tied to the project beat clock.
    Bpm,
    /// One of the eight FFT bands.
    Audio { band: u8 },
    /// An incoming OSC address.
    OscBound { addr: String },
    /// A MIDI continuous controller on a channel.
    MidiBound { cc: u8, channel: u8 },
}

/// Discriminator over the eight sources the picker exposes.
#[derive(Debug, Clone, Copy, PartialEq, Eq, Hash, Structural)]
pub enum BindingSource {
    Fixed,
    Sine,
    Triangle,
    Noise,
    Bpm,
    Audio,
    Osc,
    Midi,
}

/// Operator-facing label of each source.
pub open spec fn source_label(s: BindingSource) -> Seq<char> {
    match s {
        BindingSource::Fixed => "fixed value"@,
        BindingSource::Sine => "sine"@,
        BindingSource::Triangle => "tri"@,
        BindingSource::Noise => "noise"@,
        BindingSource::Bpm => "bpm"@,
        BindingSource::Audio => "audio"@,
        BindingSource::Osc => "osc"@,
        BindingSource::Midi => "midi"@,
    }
}

/// Position of each source in the dropdown.
pub open spec fn source_position(s: BindingSource) -> int {
    match s {
        BindingSource::Fixed => 0,
        BindingSource::Sine => 1,
        BindingSource::Triangle => 2,
        BindingSource::Noise => 3,
        BindingSource::Bpm => 4,
        BindingSource::Audio => 5,
        BindingSource::Osc => 6,
        BindingSource::Midi => 7,
    }
}

/// The source kind of a live modulator.
pub open spec fn source_of(m: Modulator) -> BindingSource {
    match m {
        Modulator::Static => BindingSource::Fixed,
        Modulator::Sine => BindingSource::Sine,
        Modulator::Triangle => BindingSource::Triangle,
        Modulator::Noise => BindingSource::Noise,
        Modulator::Bpm => BindingSource::Bpm,
        Modulator::Audio { .. } => BindingSource::Audio,
        Modulator::OscBound { .. } => BindingSource::Osc,
        Modulator::MidiBound { .. } => BindingSource::Midi,
    }
}

impl BindingSource {
    /// Operator-facing label rendered in the picker's button and rows.
    pub fn label(self) -> (r: &'static str)
        ensures
            r@ == source_label(self),
    {
        match self {
            BindingSource::Fixed => "fixed value",
            BindingSource::Sine => "sine",
            BindingSource::Triangle => "tri",
            BindingSource::Noise => "noise",
            BindingSource::Bpm => "bpm",
            BindingSource::Audio => "audio",
            BindingSource::Osc => "osc",
            BindingSource::Midi => "midi",
        }
    }

    /// Compact label for the "currently bound" indicator; the same text as
    /// [`Self::label`].
    pub fn short_label(self) -> (r: &'static str)
        ensures
            r@ == source_label(self),
    {
        self.label()
    }

    /// Every variant in dropdown order.
    pub fn all() -> (r: [BindingSource; 8])
        ensures
            r@.len() == 8,
            forall|s: BindingSource| #[trigger] r@[source_position(s)] == s,
    {
        [
            BindingSource::Fixed,
            BindingSource::Sine,
            BindingSource::Triangle,
            BindingSource::Noise,
            BindingSource::Bpm,
            BindingSource::Audio,
            BindingSource::Osc,
            BindingSource::Midi,
        ]
    }

    /// Read the source kind off a live modulator.
    pub fn from_modulator(m: &Modulator) -> (r: BindingSource)
        ensures
            r == source_of(*m),
    {
        match m {
            Modulator::Static => BindingSource::Fixed,
            Modulator::Sine => BindingSource::Sine,
            Modulator::Triangle => BindingSource::Triangle,
            Modulator::Noise => BindingSource::Noise,
            Modulator::Bpm => BindingSource::Bpm,
            Modulator::Audio { .. } => BindingSource::Audio,
            Modulator::OscBound { .. } => BindingSource::Osc,
            Modulator::MidiBound { .. } => BindingSource::Midi,
        }
    }
}

/// The dropdown lists each source exactly once: positions are distinct and
/// lie in `0..8`.
pub proof fn lemma_dropdown_positions_distinct(a: BindingSource, b: BindingSource)
    ensures
        0 <= source_position(a) < 8,
        source_position(a) == source_position(b) ==> a == b,
{
}

/// The modulator that picking `s` in the dropdown installs, as far as the
/// picker decides it: its kind, and for the bound sources the routing data
/// a fresh binding starts from (FFT band 0, the OSC address `/rmap/param`,
/// MIDI CC 21 on channel 0).
pub open spec fn is_fresh_modulator(s: BindingSource, m: Modulator) -> bool {
    match s {
        BindingSource::Fixed => m is Static,
        BindingSource::Sine => m is Sine,
        BindingSource::Triangle => m is Triangle,
        BindingSource::Noise => m is Noise,
        BindingSource::Bpm => m is Bpm,
        BindingSource::Audio => m matches Modulator::Audio { band } && band == 0,
        BindingSource::Osc => m matches Modulator::OscBound { addr } && addr@ == "/rmap/param"@,
        BindingSource::Midi => m matches Modulator::MidiBound { cc, channel } && cc == 21
            && channel == 0,
    }
}

/// The modulator a parameter gets when the operator picks `source` in the
/// binding picker. Amplitude, period and offset (which the renderer derives
/// from the parameter's range) are not part of this model.
pub fn modulator_for_source(source: BindingSource) -> (r: Modulator)
    ensures
        is_fresh_modulator(source, r),
{
    match source {
        BindingSource::Fixed => Modulator::Static,
        BindingSource::Sine => Modulator::Sine,
        BindingSource::Triangle => Modulator::Triangle,
        BindingSource::Noise => Modulator::Noise,
        BindingSource::Bpm => Modulator::Bpm,
        BindingSource::Audio => Modulator::Audio { band: 0 },
        BindingSource::Osc => Modulator::OscBound { addr: String::from_str("/rmap/param") },
        BindingSource::Midi => Modulator::MidiBound { cc: 21, channel: 0 },
    }
}

/// What a click on `clicked` in the binding picker commits: the clicked
/// source, or nothing when it is the source already bound.
pub fn binding_pick(current: BindingSource, clicked: BindingSource) -> (r: Option<BindingSource>)
    ensures
        r == (if clicked == current {
            None
        } else {
            Some(clicked)
        }),
{
    if clicked == current {
        None
    } else {
        Some(clicked)
    }
}

/// Picking a source and reading the source back off the installed
/// modulator gives the same source: the picker always shows what was
/// picked.
pub proof fn lemma_picked_source_round_trips(s: BindingSource, m: Modulator)
    requires
        is_fresh_modulator(s, m),
    ensures
        source_of(m) == s,
{
}

/// Every label is non-empty, and distinct sources have distinct labels, so
/// the operator can always tell which source a row is bound to.
pub proof fn lemma_labels_nonempty_and_distinct(a: BindingSource, b: BindingSource)
    ensures
        source_label(a).len() > 0,
        a != b ==> source_label(a) != source_label(b),
{
    reveal_strlit("fixed value");
    reveal_strlit("sine");
    reveal_strlit("tri");
    reveal_strlit("noise");
    reveal_strlit("bpm");
    reveal_strlit("audio");
    reveal_strlit("osc");
    reveal_strlit("midi");
    if a != b {
        if source_label(a).len() == source_label(b).len() {
            assert(source_label(a)[0] != source_label(b)[0] || source_label(a)[1] != source_label(b)[1]);
        }
    }
}

} // verus!
