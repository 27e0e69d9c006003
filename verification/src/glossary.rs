//! Typed glossary of every domain term that can appear in the control
//! windows, with a short headline and a one-to-three sentence body each.
//!
//! [`GlossaryTerm`] is the only valid key. [`entry`] matches exhaustively, so
//! a term without copy is a compile error, and
//! [`lemma_every_entry_has_copy`] proves that no arm carries empty or
//! suspiciously short copy. [`all_terms`] lists every term exactly once in
//! display order.

use vstd::prelude::*;

verus! {

/// Every domain term that can appear in the control windows.
#[derive(Debug, Clone, Copy, PartialEq, Eq, Structural)]
pub enum GlossaryTerm {
    Warp,
    MaskPolygon,
    Modulator,
    Gamma,
    Brightness,
    Contrast,
    BlendMode,
    Crossfade,
    Scene,
    ZoneTemplate,
    Blackout,
    Freeze,
    TestPattern,
    EditorOverlay,
    Effect,
    FitMode,
    MaskFeather,
    GridDetail,
    Opacity,
    /// Per-display tone overrides.
    DisplayOverride,
    /// Procedural mask-driven layer type.
    FxLayer,
    /// Live network video stream as a layer source.
    NdiSource,
    /// Overlap zone between two projectors.
    EdgeBlendRegion,
    /// 3×3 per-projector colour matrix.
    RgbMatrix,
    /// Right-click → bind next MIDI CC workflow.
    MidiLearn,
    /// Frames dropped due to bounded-queue overflow.
    DroppedFrames,
    /// Named image-grammar preset applied to an Image
    /// or Video layer before the per-pixel effect chain.
    Treatment,
    /// Tone-map preset.
    ToneMap,
    /// Blur-mask preset.
    BlurMask,
    /// Luminance-reveal preset.
    LuminanceReveal,
    /// Texture-overlay preset.
    TextureOverlay,
    /// Palette-extract preset.
    PaletteExtract,
    /// Collage preset.
    Collage,
    /// Cover-fit crop anchor.
    FocalPoint,
    /// Clip-range trim points.
    InOutPoints,
    /// Once / Loop / PingPong end-of-clip policy.
    LoopMode,
    /// Clip rate locked to current BPM.
    BpmLockedPlayback,
    /// Negative-rate playback via keyframe cache.
    ReversePlayback,
    /// Pre-decoded thumbnail strip with seek.
    ThumbnailScrub,
    // Phase 2 domain terms and built-in preset display labels.
    /// GPU point / sprite simulation layer.
    Particle,
    /// Directional influence volume that steers particles.
    ForceField,
    /// Navier–Stokes-style velocity-field simulation.
    FluidSim,
    /// Browsable collection of built-in and user FX presets.
    PresetLibrary,
    /// Effect or emitter whose output is clipped to the mask boundary.
    MaskConstrained,
    /// Mask shape used as the spawn surface for an emitter.
    EmitterMasking,
    /// Outward-pointing normal derived from the mask's distance field.
    SdfNormal,
    /// Preset family that pushes geometry outward in a wave.
    DisplacementPreset,
    /// Preset family that bends light at the mask boundary.
    RefractionPreset,
    /// Preset family that propagates oscillating wave patterns.
    WavePreset,
    /// Ceiling on active particles for perf control.
    ParticleBudget,
    /// Deterministic noise seed so a preset looks the same every take.
    SeedDeterminism,
    /// Drag-to-reorder gesture for the per-layer effect chain.
    EffectChainReorder,
    /// Preset saved by the operator for their own library.
    UserPreset,
    /// Factory preset shipped with the application.
    BuiltInPreset,
    /// Built-in preset: particle ripple spawned along the mask edge.
    MaskEdgeRippleWash,
    /// Built-in preset: wave wash emitted from the mask edge.
    MaskEdgeWaveWash,
    /// Built-in preset: particles drift inside the mask boundary.
    MaskConstrainedDrift,
    /// Built-in preset: sparks emitted outward from the mask edge.
    MaskEdgeEmission,
    /// Built-in preset: force-field flow driven by the mask shape.
    MaskFieldFlow,
    /// Built-in preset: particles bounce off the mask boundary.
    MaskCollisionReflection,
    /// Built-in preset: fluid simulation bounded by the mask.
    MaskBoundedFluid,
    /// Built-in preset: ripple displacement emanating from the mask.
    DisplacementRipple,
    /// Built-in preset: lens-refraction distortion at the mask edge.
    Refraction,
    // Phase 3 zone domain terms and role labels.
    /// Semantic zone role: a transparent opening (window pane, glass
    /// facade). Distinct from `ZoneTemplate` (a geometry shortcut).
    ZoneRoleWindow,
    /// Semantic zone role: a visual passageway or threshold that
    /// warrants through-the-surface effects.
    ZoneRolePortal,
    /// Semantic zone role: a non-emitting blank region that should
    /// remain dark (recessed area, shadow pocket).
    ZoneRoleVoid,
    /// Semantic zone role: a surface that catches stray light from
    /// a nearby bright zone (wall beside a lit window).
    ZoneRoleSpill,
    /// Semantic zone role: the perimeter or boundary of a surface
    /// feature (sill, reveal, trim).
    ZoneRoleEdge,
    /// Semantic zone role: a surface intended to catch a key light
    /// or colour accent (ceiling cove, accentuated panel).
    ZoneRoleHighlight,
    /// Semantic zone role: a practical luminaire or architectural
    /// element that emits light in the scene (sconce, lantern, ceiling
    /// fixture).
    ZoneRoleLightSource,
    /// An FX preset whose behaviour changes based on the zone tag of
    /// the layer it is applied to.
    ZoneAwareShader,
    /// The semantic role tag attached to a mask polygon, drawn from
    /// the closed seven-role palette (Window, Portal, Void, Spill, Edge,
    /// Highlight, LightSource). Different from `ZoneTemplate` (a geometry
    /// shortcut for common polygon shapes).
    ZoneTag,
    // Phase 4 scene-grammar domain terms + template display labels.
    /// A named, parameterised recipe that assembles media, zones, and
    /// FX presets into a ready-to-run scene.
    SceneTemplate,
    /// The structural vocabulary of a scene: which zone roles it
    /// binds, which media it accepts, which FX presets it activates.
    SceneGrammar,
    /// A guided multi-step UI (template → media → zones → palette →
    /// tempo) for creating a scene from a scene template.
    Wizard,
    /// A curated set of warm, cool, or neutral accent colours used
    /// to tint a scene template's output.
    PaletteMood,
    /// The emotional character of a scene (Calm, Energetic, or
    /// Ethereal) that templates use to pre-select parameter ranges.
    Mood,
    /// Locking a template's animation speed to the project BPM so
    /// the scene moves in time with the music.
    TempoSync,
    /// Bezier handles for mask polygon editing, letting operators
    /// draw smooth curves instead of angular vertices.
    BezierHandles,
    /// Built-in scene template: soft light flows through tagged
    /// window zones revealing the scene beneath.
    WindowReveal,
    /// Built-in scene template: fine particles drift slowly across
    /// the source media surface.
    PixelDrift,
    /// Built-in scene template: four-image collage with particle
    /// blooms at each image edge.
    CollagBloom,
    /// Built-in scene template: fluid light pools behind portal
    /// zones, evoking glow from architectural openings.
    GlowBehindOpenings,
    /// Built-in scene template: portrait image broken into
    /// fragments by colliding particles at the mask boundary.
    FragmentedPortrait,
    /// Built-in scene template: a gentle wave wash that traces the
    /// edge zones of architectural surfaces.
    ArchitecturalWash,
    /// Built-in scene template: the classic mask-edge ripple wash
    /// as a standalone scene (no source media required).
    MaskEdgeRippleWashScene,
    /// Built-in scene template: light appears to spill outward from
    /// tagged window zones as if leaking from an interior source.
    LightSpillFromWindows,
    // Phase 5 lighting output domain terms.
    /// A 512-channel DMX universe, the fundamental unit of lighting
    /// network traffic. Art-Net and sACN both address fixtures by universe
    /// number + channel offset.
    DmxUniverse,
    /// A named collection of fixtures sharing the same personality,
    /// DMX universe, and canvas sampling region. The operator's primary
    /// lighting object in rmap.
    FixtureGroup,
    /// A grid of sample points that maps a canvas region to a
    /// fixture group's DMX channels row-by-row, column-by-column.
    PixelMap,
    /// Abstraction over the DMX wire protocol; Phase 5 ships
    /// Art-Net; Phase 7 can add sACN by implementing a second instance of
    /// this trait without changing the fixture or sampling code.
    DmxTransport,
    /// The Art-Net UDP transport that implements `DmxTransport`;
    /// sends Art-Net `ArtDmx` PDUs to a configurable unicast or broadcast
    /// address on port 6454.
    ArtNetTransport,
    /// The role of a single DMX channel within a fixture's footprint
    /// (e.g. Red, Green, Blue). Phase 5 ships three roles; Phase 7 adds White
    /// and colour-temperature channels additively.
    ChannelRole,
    /// The colour-space conversion applied when mapping a sampled
    /// canvas pixel to DMX byte values. Phase 5 ships RGB Direct and HSV
    /// Intensity Gate; Phase 7 adds RGBW Fill.
    ColorStrategy,
    /// The low-resolution (64×36) texture blit that downsamples the
    /// composited canvas once per frame so the lighting thread can sample any
    /// fixture region without stalling the render thread.
    LightingTap,
    /// The per-fixture-group choice of how canvas colour maps to DMX
    /// values: RGB Direct copies pixel bytes; HSV Intensity Gate dims the
    /// fixture by the pixel's brightness; more strategies land in Phase 7.
    OutputStrategy,
    // Phase 6 show-control and timecode domain terms.
    /// A single entry in the cuelist: a saved scene snapshot plus
    /// per-cue timing, fire mode, and optional timecode trigger fields.
    Cue,
    /// The ordered list of cues the operator steps through during
    /// a live show.
    Cuelist,
    /// The next cue in the list, highlighted in the strip and ready
    /// to fire on the next Space / MIDI Note 60 / OSC go command.
    ArmedNext,
    /// The cue currently playing or crossfading on the projector.
    LiveCue,
    /// A sequence of Follow-mode cues that fire automatically one
    /// after another without operator input.
    FollowChain,
    /// A cue fire mode that waits for a Space / MIDI / OSC trigger
    /// before advancing to the next cue.
    GoOnTrigger,
    /// A cue fire mode that fires the next cue automatically after
    /// the current cue's hold time expires.
    FollowMode,
    /// The crossfade duration from the previous cue state into this
    /// cue's scene snapshot (seconds).
    InTime,
    /// How long the cue stays fully live before the follow chain or
    /// operator trigger can advance to the next cue (seconds or indefinite).
    HoldTime,
    /// The crossfade duration from this cue's scene out to the next
    /// cue's in-time (seconds; usually 0 because `in_time` of the next cue
    /// handles the blend).
    OutTime,
    /// Fires a cue on the next 1 / 2 / 4 / 8-bar beat boundary
    /// at the current BPM instead of immediately on the trigger event.
    BpmQuantize,
    /// Fires a cue automatically when the incoming timecode signal
    /// reaches a specific HH:MM:SS:FF position.
    TimecodePosition,
    /// Persistent on-screen readout showing live BPM, tap source,
    /// armed-cue name, and quantize selector.
    TransportHud,
    /// SMPTE Linear Timecode carried as an audio-rate signal; decoded
    /// via the `ltc` cargo feature to drive automatic cue firing.
    Ltc,
    /// MIDI Timecode: quarter-frame messages (status 0xF1) that
    /// assemble into HH:MM:SS:FF positions for cue triggering.
    Mtc,
    /// MIDI timing clock: 24 pulses per quarter note (status 0xF8)
    /// used to derive a live BPM and optionally drive cue quantize.
    MidiClock,
    // Phase 7 domain terms.
    /// MacOS inter-application video sharing protocol that lets rmap
    /// feed its output to OBS, VDMX, Resolume Arena, and other Syphon-aware
    /// applications on the same machine without a capture card.
    Syphon,
    /// The rmap feature that publishes the composited projector output
    /// as a named Syphon source visible to other macOS applications.
    SyphonOutput,
    /// A separate `.rmap-calibration.json` file that stores the warp,
    /// mask, gamma, and monitor identity for a physical venue, independent of
    /// any show file, so the same geometry can be reused across shows.
    CalibrationFile,
    /// A logical output slot in the calibration file identified by a
    /// stable UUID, bound to a physical display by the show file's OutputTarget.
    SurfaceSlot,
    /// The per-venue calibration data (warp + mask + gamma + display
    /// identity) that travels with a venue rather than with a show file, enabling
    /// one geometry setup to serve many different shows.
    VenueCalibration,
    /// A warp mesh whose edges are defined by cubic Bezier curves,
    /// allowing smooth curved surfaces (columns, arches, organic walls) that
    /// bilinear quads cannot describe.
    BezierWarp,
    /// A corner point of a Bezier warp mesh that lies exactly on the
    /// surface; dragging an anchor moves the point and its attached handles.
    Anchor,
    /// A control point attached to an anchor that adjusts the curvature
    /// of the Bezier edge; dragging a handle bows the edge without moving the
    /// anchor itself.
    TangentHandle,
    /// A mask mode that swaps the opaque and transparent regions of the
    /// mask polygon: areas previously blocked become revealed, and vice versa.
    InverseMask,
    /// A mask mode that derives alpha from the brightness of the
    /// rendered output: bright pixels become opaque, dark pixels become
    /// transparent (or the inverse), driven by threshold and softness sliders.
    LumaKey,
    /// A mask mode that derives alpha from a hue range in the rendered
    /// output: pixels whose hue, saturation, and value fall within the configured
    /// range become transparent, enabling green-screen or colour-spill removal.
    ChromaKey,
    /// A four-channel DMX colour model (Red, Green, Blue, White) used
    /// by warm-white architectural LED fixtures; the White channel carries the
    /// dominant neutral component, reducing colour noise at high intensities.
    Rgbw,
    /// The perceived warmth or coolness of a light source, expressed in
    /// Kelvin; lower values (2700 K) appear warm amber, higher values (6500 K)
    /// appear cool blue-white.  rmap uses CCT to compute which fraction of the
    /// sampled canvas colour should flow into an RGBW fixture's White channel.
    ColourTemperature,
    /// Short for Correlated Colour Temperature; the Kelvin value that
    /// characterises the white point of a light source or fixture group.
    Cct,
    /// A portable `.rmap-scene-pack.zip` archive that bundles one or
    /// more scene templates with their referenced assets, enabling template
    /// sharing across projects and between operators.
    ScenePack,
    /// A calibration verify pattern that fades from opaque to
    /// transparent across one or more screen edges, used to set up and verify
    /// edge-blend overlap zones between adjacent projectors.
    EdgeBlendGradient,
    /// A full-screen test pattern rendered on the projector output to
    /// verify warp accuracy, colour balance, focus, or edge alignment; activated
    /// from the Output panel without affecting the show file.
    CalibrationVerify,
    // Cleanup phase architectural variants + W2 SourceModifier
    // preset names. See specs/004-phase-cleanup.md and the W2 task list in
    // specs/004-phase-cleanup-tasks.md.
    /// FX preset family that reads the underlying layer image
    /// and writes a modified version, as opposed to a generative overlay that
    /// paints its own pixels on top.
    FxFamilySourceModifier,
    /// Per-layer Treatment effect chain variant: applies any
    /// treatment (tone map, displacement ripple, refraction, etc.) to a single
    /// layer rather than the whole composited frame.
    EffectTreatment,
    /// Effect that blends the previous frame's layer output back
    /// into the current frame, producing trails, echoes, and motion smear with
    /// modulator-driven decay.
    EffectFeedback,
    /// Three-mode colour-mixing effect: multiply (proper tint),
    /// additive (wash), or screen, with a modulator-driven amount.
    EffectTint,
    /// Mask-graph node that combines two mask polygons so the
    /// result covers either region: a Boolean union of overlapping shapes.
    MaskNodeUnion,
    /// Mask-graph node that cuts one polygon out of another:
    /// the first mask's coverage minus the second mask's coverage.
    MaskNodeSubtract,
    /// Built-in SourceModifier preset: 2D fluid simulation
    /// inside the mask, displacing the underlying photo by the velocity field.
    FluidWarp,
    /// Built-in SourceModifier preset: concentric rings from the
    /// mask edge act as refraction lenses bulging the underlying image.
    RippleLens,
    /// Built-in SourceModifier preset: four traveling refraction
    /// bumps orbit the mask edge, distorting the image at each crest.
    EdgeLens,
    /// Built-in SourceModifier preset: like FluidWarp but
    /// unbounded — the underlying photo flows across the entire layer.
    FluidWarpFull,
    /// Built-in SourceModifier preset: each particle is a soft
    /// Gaussian brightener that lifts source-pixel luminance in its radius.
    Spotlights,
    /// Built-in SourceModifier preset: particles drift inside
    /// the mask as pinholes through which the underlying photo is visible.
    DriftPinholes,
    /// Built-in SourceModifier preset: particles fly outward
    /// from the mask edge, additively lifting source luminance in a soft radius.
    EdgeSparks,
    /// Built-in SourceModifier preset: uses the mask SDF
    /// gradient field to advect the underlying photo along the mask normals.
    FieldAdvectSource,
    /// Built-in SourceModifier preset: particles bounce inside
    /// the mask; each collision injects a ripple that warps the underlying photo.
    CollisionRipples,
    /// Built-in SourceModifier preset: multiplicatively lifts
    /// the luminance of source pixels in the zone-spill region.
    ZoneBrighten,
    /// Built-in SourceModifier preset: displaces the underlying
    /// photo's UV in a thin band at the zone edge.
    ZoneLens,
    /// Built-in SourceModifier preset: particles drift through
    /// portal zones, each one displacing source pixels in its radius.
    PortalWarp,
}

/// Headline of each term's glossary entry.
pub open spec fn glossary_headline(t: GlossaryTerm) -> Seq<char> {
    match t {
        GlossaryTerm::Warp => "Warp"@,
        GlossaryTerm::MaskPolygon => "Mask Polygon"@,
        GlossaryTerm::Modulator => "Modulator"@,
        GlossaryTerm::Gamma => "Gamma"@,
        GlossaryTerm::Brightness => "Brightness"@,
        GlossaryTerm::Contrast => "Contrast"@,
        GlossaryTerm::BlendMode => "Blend Mode"@,
        GlossaryTerm::Crossfade => "Crossfade"@,
        GlossaryTerm::Scene => "Scene"@,
        GlossaryTerm::ZoneTemplate => "Zone Template"@,
        GlossaryTerm::Blackout => "Blackout"@,
        GlossaryTerm::Freeze => "Freeze"@,
        GlossaryTerm::TestPattern => "Test Pattern"@,
        GlossaryTerm::EditorOverlay => "Editor Overlay"@,
        GlossaryTerm::Effect => "Effect"@,
        GlossaryTerm::FitMode => "Fit Mode"@,
        GlossaryTerm::MaskFeather => "Mask Feather"@,
        GlossaryTerm::GridDetail => "Grid Detail"@,
        GlossaryTerm::Opacity => "Opacity"@,
        GlossaryTerm::DisplayOverride => "Display Override"@,
        GlossaryTerm::FxLayer => "FX Layer"@,
        GlossaryTerm::NdiSource => "NDI Source"@,
        GlossaryTerm::EdgeBlendRegion => "Edge-Blend Region"@,
        GlossaryTerm::RgbMatrix => "RGB Matrix"@,
        GlossaryTerm::MidiLearn => "MIDI Learn"@,
        GlossaryTerm::DroppedFrames => "Dropped Frames"@,
        GlossaryTerm::Treatment => "Treatment"@,
        GlossaryTerm::ToneMap => "Tone Map"@,
        GlossaryTerm::BlurMask => "Blur Mask"@,
        GlossaryTerm::LuminanceReveal => "Luminance Reveal"@,
        GlossaryTerm::TextureOverlay => "Texture Overlay"@,
        GlossaryTerm::PaletteExtract => "Palette Extract"@,
        GlossaryTerm::Collage => "Collage"@,
        GlossaryTerm::FocalPoint => "Focal Point"@,
        GlossaryTerm::InOutPoints => "In / Out Points"@,
        GlossaryTerm::LoopMode => "Loop Mode"@,
        GlossaryTerm::BpmLockedPlayback => "BPM-Locked Playback"@,
        GlossaryTerm::ReversePlayback => "Reverse Playback"@,
        GlossaryTerm::ThumbnailScrub => "Thumbnail Scrub"@,
        GlossaryTerm::Particle => "Particle"@,
        GlossaryTerm::ForceField => "Force Field"@,
        GlossaryTerm::FluidSim => "Fluid Sim"@,
        GlossaryTerm::PresetLibrary => "Preset Library"@,
        GlossaryTerm::MaskConstrained => "Mask-Constrained"@,
        GlossaryTerm::EmitterMasking => "Emitter Masking"@,
        GlossaryTerm::SdfNormal => "SDF Normal"@,
        GlossaryTerm::DisplacementPreset => "Displacement Preset"@,
        GlossaryTerm::RefractionPreset => "Refraction Preset"@,
        GlossaryTerm::WavePreset => "Wave Preset"@,
        GlossaryTerm::ParticleBudget => "Particle Budget"@,
        GlossaryTerm::SeedDeterminism => "Seed (Determinism)"@,
        GlossaryTerm::EffectChainReorder => "Effect-Chain Reorder"@,
        GlossaryTerm::UserPreset => "User Preset"@,
        GlossaryTerm::BuiltInPreset => "Built-In Preset"@,
        GlossaryTerm::MaskEdgeRippleWash => "Mask-Edge Ripple Wash"@,
        GlossaryTerm::MaskEdgeWaveWash => "Mask-Edge Wave Wash"@,
        GlossaryTerm::MaskConstrainedDrift => "Mask-Constrained Drift"@,
        GlossaryTerm::MaskEdgeEmission => "Mask-Edge Emission"@,
        GlossaryTerm::MaskFieldFlow => "Mask Field Flow"@,
        GlossaryTerm::MaskCollisionReflection => "Mask Collision Reflection"@,
        GlossaryTerm::MaskBoundedFluid => "Mask-Bounded Fluid"@,
        GlossaryTerm::DisplacementRipple => "Displacement Ripple"@,
        GlossaryTerm::Refraction => "Refraction"@,
        GlossaryTerm::ZoneRoleWindow => "Zone Role: Window"@,
        GlossaryTerm::ZoneRolePortal => "Zone Role: Portal"@,
        GlossaryTerm::ZoneRoleVoid => "Zone Role: Void"@,
        GlossaryTerm::ZoneRoleSpill => "Zone Role: Spill"@,
        GlossaryTerm::ZoneRoleEdge => "Zone Role: Edge"@,
        GlossaryTerm::ZoneRoleHighlight => "Zone Role: Highlight"@,
        GlossaryTerm::ZoneRoleLightSource => "Zone Role: Light Source"@,
        GlossaryTerm::ZoneAwareShader => "Zone-Aware Shader"@,
        GlossaryTerm::ZoneTag => "Zone Tag"@,
        GlossaryTerm::SceneTemplate => "Scene Template"@,
        GlossaryTerm::SceneGrammar => "Scene Grammar"@,
        GlossaryTerm::Wizard => "Scene Wizard"@,
        GlossaryTerm::PaletteMood => "Palette"@,
        GlossaryTerm::Mood => "Mood"@,
        GlossaryTerm::TempoSync => "Tempo Sync"@,
        GlossaryTerm::BezierHandles => "Bezier Handles"@,
        GlossaryTerm::WindowReveal => "Window Reveal"@,
        GlossaryTerm::PixelDrift => "Pixel Drift"@,
        GlossaryTerm::CollagBloom => "Collage Bloom"@,
        GlossaryTerm::GlowBehindOpenings => "Glow Behind Openings"@,
        GlossaryTerm::FragmentedPortrait => "Fragmented Portrait"@,
        GlossaryTerm::ArchitecturalWash => "Architectural Wash"@,
        GlossaryTerm::MaskEdgeRippleWashScene => "Mask-Edge Ripple Wash (Scene)"@,
        GlossaryTerm::LightSpillFromWindows => "Light Spill from Windows"@,
        GlossaryTerm::DmxUniverse => "DMX Universe"@,
        GlossaryTerm::FixtureGroup => "Fixture Group"@,
        GlossaryTerm::PixelMap => "Pixel Map"@,
        GlossaryTerm::DmxTransport => "DMX Transport"@,
        GlossaryTerm::ArtNetTransport => "Art-Net Transport"@,
        GlossaryTerm::ChannelRole => "Channel Role"@,
        GlossaryTerm::ColorStrategy => "Colour Strategy"@,
        GlossaryTerm::LightingTap => "Lighting Tap"@,
        GlossaryTerm::OutputStrategy => "Output Strategy"@,
        GlossaryTerm::Cue => "Cue"@,
        GlossaryTerm::Cuelist => "Cuelist"@,
        GlossaryTerm::ArmedNext => "Armed Next"@,
        GlossaryTerm::LiveCue => "Live Cue"@,
        GlossaryTerm::FollowChain => "Follow Chain"@,
        GlossaryTerm::GoOnTrigger => "Go-on-trigger"@,
        GlossaryTerm::FollowMode => "Follow (cue mode)"@,
        GlossaryTerm::InTime => "In-time"@,
        GlossaryTerm::HoldTime => "Hold time"@,
        GlossaryTerm::OutTime => "Out-time"@,
        GlossaryTerm::BpmQuantize => "BPM Quantize"@,
        GlossaryTerm::TimecodePosition => "Timecode Position"@,
        GlossaryTerm::TransportHud => "Transport HUD"@,
        GlossaryTerm::Ltc => "LTC (Linear Timecode)"@,
        GlossaryTerm::Mtc => "MTC (MIDI Timecode)"@,
        GlossaryTerm::MidiClock => "MIDI Clock"@,
        GlossaryTerm::Syphon => "Syphon"@,
        GlossaryTerm::SyphonOutput => "Syphon Output"@,
        GlossaryTerm::CalibrationFile => "Calibration File"@,
        GlossaryTerm::SurfaceSlot => "Surface Slot"@,
        GlossaryTerm::VenueCalibration => "Venue Calibration"@,
        GlossaryTerm::BezierWarp => "Bezier Warp"@,
        GlossaryTerm::Anchor => "Anchor"@,
        GlossaryTerm::TangentHandle => "Tangent Handle"@,
        GlossaryTerm::InverseMask => "Inverse Mask"@,
        GlossaryTerm::LumaKey => "Luma Key"@,
        GlossaryTerm::ChromaKey => "Chroma Key"@,
        GlossaryTerm::Rgbw => "RGBW"@,
        GlossaryTerm::ColourTemperature => "Colour Temperature"@,
        GlossaryTerm::Cct => "CCT (Correlated Colour Temperature)"@,
        GlossaryTerm::ScenePack => "Scene Pack"@,
        GlossaryTerm::EdgeBlendGradient => "Edge-Blend Gradient"@,
        GlossaryTerm::CalibrationVerify => "Calibration Verify"@,
        GlossaryTerm::FxFamilySourceModifier => "Source-Modifying FX"@,
        GlossaryTerm::EffectTreatment => "Treatment (per-layer)"@,
        GlossaryTerm::EffectFeedback => "Feedback / Trails"@,
        GlossaryTerm::EffectTint => "Tint"@,
        GlossaryTerm::MaskNodeUnion => "Mask Union"@,
        GlossaryTerm::MaskNodeSubtract => "Mask Subtract"@,
        GlossaryTerm::FluidWarp => "Fluid Warp"@,
        GlossaryTerm::RippleLens => "Ripple Lens"@,
        GlossaryTerm::EdgeLens => "Edge Lens"@,
        GlossaryTerm::FluidWarpFull => "Fluid Warp (Full)"@,
        GlossaryTerm::Spotlights => "Spotlights"@,
        GlossaryTerm::DriftPinholes => "Drift Pinholes"@,
        GlossaryTerm::EdgeSparks => "Edge Sparks"@,
        GlossaryTerm::FieldAdvectSource => "Field Advect Source"@,
        GlossaryTerm::CollisionRipples => "Collision Ripples"@,
        GlossaryTerm::ZoneBrighten => "Zone Brighten"@,
        GlossaryTerm::ZoneLens => "Zone Lens"@,
        GlossaryTerm::PortalWarp => "Portal Warp"@,
    }
}

/// Body text of each term's glossary entry.
pub open spec fn glossary_body(t: GlossaryTerm) -> Seq<char> {
    match t {
        GlossaryTerm::Warp => "Per-layer corner-pin quad that places the layer on the projector. \
                   Each corner is a point in projector space; drag a corner to \
                   move/resize/distort the layer on the wall directly. Increase \
                   rows × cols (Advanced → Mapping) for finer mesh control."@,
        GlossaryTerm::MaskPolygon => "A polygon drawn over the layer that blocks the image outside its \
                   boundary.  Use it to hide parts of the projection that fall on \
                   surfaces you don't want lit (doors, windows, pillars)."@,
        GlossaryTerm::Modulator => "How a parameter changes over time.  \
                   `Static` holds a fixed value; `Sine`, `Sawtooth`, `Square`, \
                   `Random`, and `Bound` animate it on a repeating cycle."@,
        GlossaryTerm::Gamma => "Overall brightness curve of the output.  \
                   Values above 1.0 lift the midtones (brighter); \
                   below 1.0 they darken.  Start at 1.0 and nudge if \
                   the projector looks washed-out or too dark."@,
        GlossaryTerm::Brightness => "Additive offset applied to every pixel after gamma.  \
                   Positive values push towards white; negative values \
                   push towards black.  0.0 leaves the image unchanged."@,
        GlossaryTerm::Contrast => "Stretches the range between dark and bright.  \
                   1.0 is unchanged; higher values increase separation \
                   between shadows and highlights."@,
        GlossaryTerm::BlendMode => "How a layer's pixels combine with the layers below it.  \
                   Normal overwrites; Add makes bright areas brighter (good for \
                   fire / glow); Multiply darkens; Screen is similar to Add but \
                   gentler with very bright content."@,
        GlossaryTerm::Crossfade => "Smooth transition between two scenes.  The duration controls \
                   how many seconds the blend takes to complete."@,
        GlossaryTerm::Scene => "A saved snapshot of all layer content, positions, and settings.  \
                   Switch scenes mid-show to jump between prepared looks."@,
        GlossaryTerm::ZoneTemplate => "A preset mask polygon shape (full, left half, right half, \
                   top/bottom split, etc.) that you can apply in one click instead \
                   of drawing vertices manually."@,
        GlossaryTerm::Blackout => "Cuts the projector output to black instantly.  \
                   The show continues running in the background; \
                   press again to restore."@,
        GlossaryTerm::Freeze => "Holds the last rendered frame on the projector while the \
                   control window keeps updating.  Useful for swapping content \
                   without the audience seeing the edit."@,
        GlossaryTerm::TestPattern => "Replaces the projector output with a calibration source.  \
                   Cycle through patterns to check focus, geometry, corner \
                   alignment, and (P0.7.4) two-projector edge-blend overlap \
                   via the alignment cross + edge-blend gradient patterns."@,
        GlossaryTerm::EditorOverlay => "Draws warp-grid handles and mask-polygon vertices on the \
                   projector output.  Toggle off during a live show so the \
                   audience never sees editing chrome."@,
        GlossaryTerm::Effect => "A real-time filter applied to a single layer \
                   (e.g. Transform moves/scales, others tint or distort).  \
                   Effects stack in order; drag to reorder."@,
        GlossaryTerm::FitMode => "How the layer's source image fills its bounding rectangle.  \
                   `Stretch` fills exactly; `Contain` letterboxes; \
                   `Cover` crops to fill with no bars."@,
        GlossaryTerm::MaskFeather => "Soft fade at the edge of the mask polygon.  \
                   0 = hard edge; values up to about 0.5 produce a \
                   useful graduated blend between lit and dark."@,
        GlossaryTerm::GridDetail => "How many cells make up the warp mesh (rows × columns).  \
                   More cells allow finer local warps but add more control \
                   points to align (see Warp)."@,
        GlossaryTerm::Opacity => "Overall transparency of the layer: 1.0 is fully opaque, \
                   0.0 is invisible.  Useful for subtle overlays or \
                   for fading content in and out."@,
        GlossaryTerm::DisplayOverride => "Optional per-projector gamma / brightness / contrast that \
                   replaces the master values for the projector output only.  \
                   Tune the master for what looks right on your laptop, then \
                   set the override for what looks right on the wall."@,
        GlossaryTerm::FxLayer => "A layer whose visual content is generated from its mask \
                   rather than from media.  v0.4 ships a single proof-point \
                   preset (mask-edge ripple wash); the full library of \
                   particle / wave / fluid presets lands in Phase 2."@,
        GlossaryTerm::NdiSource => "A live video stream received over the network from another \
                   machine (e.g. an OBS instance).  v0.4 supports NDI as input \
                   only; output (Phase 7) lets other apps consume rmap's render."@,
        GlossaryTerm::EdgeBlendRegion => "The overlap zone between two projectors where image \
                   brightness is feathered so the seam between the two beams \
                   becomes invisible.  Configure overlap width and falloff \
                   curve per edge."@,
        GlossaryTerm::RgbMatrix => "A 3×3 colour-correction matrix applied per-projector at \
                   present time, after gamma / brightness / contrast.  Use it \
                   to compensate for differences in projector colour response \
                   when two projectors share the same canvas."@,
        GlossaryTerm::MidiLearn => "Right-click any parameter and pick \"Learn next MIDI CC\".  \
                   The next incoming control-change message binds to that \
                   parameter; press ESC to cancel before a CC arrives."@,
        GlossaryTerm::DroppedFrames => "How many audio / video / NDI frames the renderer had to \
                   discard because a bounded queue was full.  A non-zero \
                   value during a show means a producer is outpacing the \
                   render thread; investigate before it becomes visible \
                   on the projector."@,
        GlossaryTerm::Treatment => "A named image-grammar preset applied to an Image or Video \
                   layer before the per-pixel effect chain.  Picks one preset \
                   per layer (tone map, blur mask, luminance reveal, etc.); \
                   parameters tune the look without exposing dozens of \
                   sliders."@,
        GlossaryTerm::ToneMap => "S-curve exposure + contrast + highlight-rolloff applied \
                   per layer.  Lifts shadows and softens blown highlights so \
                   mixed-light footage matches the rest of the scene without \
                   touching the master gamma slider."@,
        GlossaryTerm::BlurMask => "Gaussian blur gated by the layer's mask SDF: pixels near \
                   the mask edge get heavy blur, pixels deep inside stay \
                   sharp.  Feathers a photo's silhouette into the background \
                   without losing detail in the centre."@,
        GlossaryTerm::LuminanceReveal => "Pixels brighter than the threshold show; everything else \
                   becomes transparent.  A soft band around the threshold \
                   smooths the cut.  Useful for keying out dark backgrounds \
                   without a proper chroma key (Phase 7)."@,
        GlossaryTerm::TextureOverlay => "A second image multiplies into the source — paper grain, \
                   noise, film texture, sky gradient.  Pick the overlay file \
                   via the preset; opacity + tint tune how much of the \
                   overlay's colour reaches the result."@,
        GlossaryTerm::PaletteExtract => "Posterises the source down to a few colours derived from \
                   the image itself (median-cut at layer load; video uses \
                   the first decoded frame).  Dither smooths transitions; \
                   vibrance exaggerates the extracted palette's saturation."@,
        GlossaryTerm::Collage => "Composites up to four images on one layer in a grid \
                   (1×2, 2×1, or 2×2).  Spacing creates visible gaps between \
                   cells.  Richer authored compositions land alongside scene \
                   grammars in Phase 4."@,
        GlossaryTerm::FocalPoint => "When the layer's fit mode is Cover, the focal point is \
                   the normalised position the crop centres on.  Click the \
                   preview thumbnail to anchor it on the subject (e.g. a \
                   face) so resizing the layer keeps the subject in frame."@,
        GlossaryTerm::InOutPoints => "Trim a video clip to play only between two timestamps. \
                   Seamless-loop wraps from the out-point back to the in-\
                   point instead of clip 0 → end.  Drag the markers on the \
                   scrub bar to set them."@,
        GlossaryTerm::LoopMode => "What happens when a video clip reaches its out-point.  \
                   Once stops on the last frame; Loop wraps to the in-point; \
                   PingPong alternates forward and reverse on each end."@,
        GlossaryTerm::BpmLockedPlayback => "Locks the clip's playback rate to the current BPM so the \
                   clip plays exactly N beats per loop.  Tap-tempo changes \
                   propagate to the rate on the next frame without re-\
                   encoding."@,
        GlossaryTerm::ReversePlayback => "Negative speed plays the clip backwards.  v0.5 uses a \
                   pre-decoded keyframe cache (capped at 30-second clips); \
                   longer clips fall back to forward playback at the \
                   absolute rate with a hint."@,
        GlossaryTerm::ThumbnailScrub => "A timeline strip showing pre-decoded mini-frames from the \
                   clip.  Hover to preview a position; click to seek the \
                   playhead there.  Drag the edges to set in/out points."@,
        GlossaryTerm::Particle => "A single GPU-simulated sprite that moves, fades, and \
                   disappears over its lifetime.  Hundreds of thousands run \
                   in parallel on the GPU; the Particle Budget slider caps \
                   the count to match your hardware."@,
        GlossaryTerm::ForceField => "A directional volume that pushes or pulls particles passing \
                   through it.  Combine several overlapping fields to build \
                   wind, vortex, or gravity effects without touching individual \
                   particle settings."@,
        GlossaryTerm::FluidSim => "A velocity-field simulation that makes particles swirl and \
                   flow like smoke or ink.  Viscosity and diffusion sliders \
                   control whether the motion looks like water, fog, or thick \
                   paint."@,
        GlossaryTerm::PresetLibrary => "The browsable panel showing all built-in and saved FX \
                   presets.  Click a preset to apply it to the selected FX \
                   Layer; use the star to pin favourites to the top."@,
        GlossaryTerm::MaskConstrained => "An effect or emitter whose output is clipped to the layer's \
                   mask polygon.  Particles or distortions that cross the \
                   boundary are removed, keeping the look tidy on irregular \
                   surfaces."@,
        GlossaryTerm::EmitterMasking => "Uses the layer's mask polygon as the spawn surface for \
                   particles.  New particles appear along the mask edge or \
                   inside its filled area depending on the preset's emitter \
                   mode."@,
        GlossaryTerm::SdfNormal => "The outward-pointing direction at any point on the mask \
                   boundary, computed from its signed-distance field.  Presets \
                   use this to shoot particles or waves perpendicular to the \
                   mask edge without manual direction tuning."@,
        GlossaryTerm::DisplacementPreset => "A preset family that pushes pixels outward from the mask \
                   boundary using a wave or ripple offset.  Strength and \
                   frequency sliders control how far pixels shift and how \
                   quickly the wave cycles."@,
        GlossaryTerm::RefractionPreset => "A preset family that bends the layer image at the mask \
                   boundary as if viewed through glass or water.  Index and \
                   blur sliders control the strength of the lens effect."@,
        GlossaryTerm::WavePreset => "A preset family that propagates oscillating patterns outward \
                   from the mask edge.  Speed, amplitude, and wavelength \
                   sliders let you tune it from a gentle shimmer to a heavy \
                   ripple."@,
        GlossaryTerm::ParticleBudget => "The maximum number of live particles allowed on this layer \
                   at once.  Lower the budget if you see dropped frames; raise \
                   it for denser effects when headroom is available.  Changes \
                   take effect on the next spawn cycle."@,
        GlossaryTerm::SeedDeterminism => "A numeric value that locks a preset's random noise to a \
                   fixed sequence.  Two shows with the same seed look \
                   identical.  Change the seed to get a different-but-\
                   repeatable variation of the same preset."@,
        GlossaryTerm::EffectChainReorder => "Drag an effect card up or down in the effect chain to change \
                   the order effects are applied.  Order matters: a blur before \
                   a colour shift produces a different result than the reverse."@,
        GlossaryTerm::UserPreset => "An FX preset you saved from your own parameter tweaks.  \
                   User presets appear in the Preset Library alongside built-in \
                   ones; export them to share with other operators."@,
        GlossaryTerm::BuiltInPreset => "A factory preset shipped with the application that cannot be \
                   deleted.  Built-in presets are a starting point; duplicate \
                   one to create an editable user preset."@,
        GlossaryTerm::MaskEdgeRippleWash => "Spawns a continuous wash of particles along the mask \
                   boundary, flowing outward as a ripple.  Speed and density \
                   sliders tune how fast and thick the wash appears."@,
        GlossaryTerm::MaskEdgeWaveWash => "Emits an oscillating wave wash from the mask edge that \
                   crests and fades across the layer surface.  Amplitude and \
                   frequency control the height and spacing of each wave crest."@,
        GlossaryTerm::MaskConstrainedDrift => "Fills the mask interior with slowly drifting particles that \
                   stay within the boundary.  A gentle effect for giving a \
                   still image a sense of quiet movement without visible \
                   directional flow."@,
        GlossaryTerm::MaskEdgeEmission => "Shoots sparks outward from the mask perimeter, following \
                   the SDF normal direction.  Burst rate and spread angle let \
                   you scale from occasional glints to a constant halo."@,
        GlossaryTerm::MaskFieldFlow => "A force-field preset whose flow lines follow the mask \
                   boundary shape, carrying particles along the contour.  \
                   Works well on text or logo masks to trace their outline \
                   with motion."@,
        GlossaryTerm::MaskCollisionReflection => "Particles fill the layer and bounce elastically off the \
                   mask boundary as if the edge were a solid wall.  \
                   Restitution and particle size sliders control how \
                   energetic the collisions look."@,
        GlossaryTerm::MaskBoundedFluid => "A fluid simulation that treats the mask polygon as a \
                   container: the velocity field swirls inside but cannot \
                   escape the boundary.  Viscosity sets the feel from \
                   thin water to heavy oil."@,
        GlossaryTerm::DisplacementRipple => "Pushes pixels in a radial ripple pattern emanating from the \
                   mask edge, distorting the layer image as if a stone were \
                   dropped into the surface.  Speed sets the ring expansion \
                   rate; strength sets maximum pixel offset."@,
        GlossaryTerm::Refraction => "Bends the layer image at the mask boundary using a \
                   lens-distortion pass, creating a glass-edge or water-\
                   surface appearance.  Index controls how strongly light \
                   bends; blur softens the distorted region."@,
        GlossaryTerm::ZoneRoleWindow => "Tags a mask as a transparent opening (window pane, glass \
                   facade).  Zone-aware presets such as \"light spill from \
                   window zones\" read this tag and activate their effect only \
                   on layers with this role.  Unlike Zone Template, this is a \
                   semantic label — not a geometry shortcut."@,
        GlossaryTerm::ZoneRolePortal => "Tags a mask as a visual passageway or threshold (archway, \
                   doorway, gap in a surface).  Presets such as \"particle drift \
                   through portal zones\" spawn their effect inside this \
                   boundary.  Apply to any region where you want through-the-\
                   surface-style visual depth."@,
        GlossaryTerm::ZoneRoleVoid => "Tags a mask as a non-emitting blank region intended to stay \
                   dark — a recessed area, shadow pocket, or unlit surface.  \
                   Zone-aware presets skip or invert their effect for Void-tagged \
                   layers so the dark region stays visually quiet."@,
        GlossaryTerm::ZoneRoleSpill => "Tags a mask as a surface that catches stray light from a \
                   nearby bright zone — the wall beside a lit window, or a \
                   floor below a lantern.  Presets respond with a softer, \
                   indirect-light treatment rather than the full brightness \
                   reserved for the source zone."@,
        GlossaryTerm::ZoneRoleEdge => "Tags a mask as the perimeter or boundary of a surface feature \
                   (window sill, door reveal, architectural trim).  The \
                   \"ripple at edge zones\" preset amplifies its wave effect \
                   specifically at Edge-tagged layers.  Distinct from the mask \
                   feather, which is a render setting rather than a semantic role."@,
        GlossaryTerm::ZoneRoleHighlight => "Tags a mask as a surface intended to catch a key light or \
                   colour accent — a ceiling cove, decorative panel, or any \
                   area you want to pop.  Zone-aware presets can use this tag \
                   to brighten or saturate the region relative to the rest of \
                   the scene."@,
        GlossaryTerm::ZoneRoleLightSource => "Tags a mask as a practical luminaire or architectural \
                   element that emits light in the scene — a sconce, lantern, \
                   or ceiling fixture.  Phase 5 will let fixtures bind to \
                   Light Source zone activity; in Phase 3 this tag acts as a \
                   semantic label FX presets can branch on."@,
        GlossaryTerm::ZoneAwareShader => "An FX preset whose behaviour adapts based on the zone tag \
                   of the layer it is applied to.  A zone-aware preset reads \
                   the tag at runtime and activates its effect only when the \
                   tag matches its target role; applying it to an untagged layer \
                   produces a neutral (transparent) output."@,
        GlossaryTerm::ZoneTag => "The semantic role attached to a mask polygon, chosen from \
                   the closed seven-role palette: Window, Portal, Void, Spill, \
                   Edge, Highlight, or Light Source.  Set the tag in the zone \
                   palette inside Mask mode.  Unlike Zone Template (a geometry \
                   shortcut for common polygon shapes), a Zone Tag is purely \
                   semantic — it does not change the polygon's shape."@,
        GlossaryTerm::SceneTemplate => "A named, parameterised recipe that assembles media, zones, \
                   and FX presets into a ready-to-run scene.  Pick a template \
                   in the wizard, assign a few assets, and confirm — the scene \
                   is live in under a minute."@,
        GlossaryTerm::SceneGrammar => "The structural vocabulary of a scene: which zone roles it \
                   binds, which media slots it accepts, and which FX presets it \
                   activates.  Every built-in template documents its grammar so \
                   the zone-mapping step is unambiguous."@,
        GlossaryTerm::Wizard => "A guided multi-step flow for creating a scene from a \
                   template: template select → media → zone binding → palette \
                   → tempo → confirm.  Cancel at any step to return to the \
                   previous state; one Cmd-Z undoes the entire commit."@,
        GlossaryTerm::PaletteMood => "A curated colour accent set (Warm, Cool, or Neutral) that \
                   templates apply to tint their output.  Warm leans amber and \
                   gold; Cool leans blue and cyan; Neutral leaves the source \
                   colours largely unchanged."@,
        GlossaryTerm::Mood => "The emotional character of a scene template: Calm (gentle, \
                   slow motion), Energetic (fast, punchy), or Ethereal (soft, \
                   dreamy).  Templates use this to pre-select animation speed \
                   and particle density defaults."@,
        GlossaryTerm::TempoSync => "Locks a template's animation speed to the project BPM so \
                   particle bursts, wave cycles, and wipe timings all fall on \
                   the beat.  Requires the BPM clock to be running; toggle \
                   off for freeform, non-musical scenes."@,
        GlossaryTerm::BezierHandles => "Smooth-curve control handles for mask polygon edges that \
                   let operators draw arched window reveals and organic shapes \
                   without lots of vertices.  Bezier handles are planned for \
                   Phase 7; current masks use straight-edge polygons only."@,
        GlossaryTerm::WindowReveal => "A soft wash of light that flows through masks tagged as \
                   Window zones, evoking daylight filtering through a glass \
                   facade.  Assign a background image and tag your window \
                   masks to see the reveal animate across the surface."@,
        GlossaryTerm::PixelDrift => "Fine particles drift slowly and quietly across the source \
                   media, giving a still photograph the feeling of faint \
                   movement without any visible direction or narrative."@,
        GlossaryTerm::CollagBloom => "Composites four images in a 2×2 grid with particles \
                   blooming outward from each image edge.  Assign a different \
                   photo to each slot for maximum contrast between the cells."@,
        GlossaryTerm::GlowBehindOpenings => "Fluid light pools inside masks tagged as Portal zones, \
                   suggesting that warm interior light is spilling through \
                   archways or doorways.  Intensity follows the fluid \
                   simulation viscosity slider."@,
        GlossaryTerm::FragmentedPortrait => "A portrait image that shatters into fragment-like particles \
                   bouncing off the mask boundary.  Works best with a \
                   high-contrast portrait on a dark background."@,
        GlossaryTerm::ArchitecturalWash => "A gentle ripple-wave wash that traces the edges of surfaces \
                   tagged as Edge zones — sills, reveals, and trims.  \
                   Upgrade of the v3 Architectural Wash FX preset; the \
                   underlying effect is unchanged, but this scene template \
                   adds media input and zone composition."@,
        GlossaryTerm::MaskEdgeRippleWashScene => "The classic ripple-wash FX preset promoted to a full scene \
                   template for one-click setup.  No source media required — \
                   the effect generates its own visual content from the mask \
                   boundary alone."@,
        GlossaryTerm::LightSpillFromWindows => "Light appears to leak outward from masks tagged as Window \
                   zones, as if an interior lamp is casting through the \
                   aperture onto the surrounding wall.  Assign an interior-\
                   light image to the media slot for the strongest effect."@,
        GlossaryTerm::DmxUniverse => "A 512-channel DMX data packet, the fundamental unit of \
                   lighting network traffic.  Each Art-Net or sACN packet \
                   carries one universe; fixtures are addressed by universe \
                   number + channel offset within that universe."@,
        GlossaryTerm::FixtureGroup => "A named collection of fixtures that share a personality \
                   (channel layout), DMX universe, and canvas sampling region.  \
                   rmap sends one DMX value per fixture in the group each \
                   frame, derived from the assigned canvas area."@,
        GlossaryTerm::PixelMap => "A grid of UV sample points spread across a canvas region.  \
                   rmap averages the pixel colours at each grid point and maps \
                   the result to the fixture group's DMX channels, letting \
                   physical lights chase the projected image in real time."@,
        GlossaryTerm::DmxTransport => "The network protocol used to carry DMX universe packets to \
                   fixtures.  Phase 5 ships Art-Net (UDP, port 6454); the \
                   transport abstraction lets Phase 7 add sACN (E1.31) without \
                   changing the fixture or canvas-sampling code."@,
        GlossaryTerm::ArtNetTransport => "The Phase 5 implementation of the DMX Transport that sends \
                   Art-Net ArtDmx PDUs over UDP to a configurable unicast or \
                   subnet-broadcast address on port 6454.  Compatible with \
                   Enttec, Artistic Licence, and most budget Art-Net nodes."@,
        GlossaryTerm::ChannelRole => "The function of a single DMX channel within a fixture's \
                   footprint — Red, Green, or Blue in Phase 5.  rmap uses the \
                   channel map to write the correct colour byte to the correct \
                   DMX address; unknown roles are left at zero and will be \
                   extended in Phase 7."@,
        GlossaryTerm::ColorStrategy => "How the sampled canvas pixel colour is converted to DMX byte \
                   values.  RGB Direct copies the pixel bytes unchanged.  HSV \
                   Intensity Gate dims all channels by the pixel's brightness \
                   so dark canvas areas fade the fixture toward black.  \
                   RGBW Fill is planned for Phase 7."@,
        GlossaryTerm::LightingTap => "A 64×36 downsampled copy of the composited canvas rendered \
                   once per frame on the GPU and read back by the lighting \
                   thread.  The low resolution keeps readback bandwidth to \
                   under 10 KB per frame, leaving the render thread unaffected."@,
        GlossaryTerm::OutputStrategy => "The per-fixture-group setting that controls how canvas colour \
                   is translated to DMX values: RGB Direct for accurate colour \
                   reproduction, HSV Intensity Gate for brightness-following \
                   wash behaviour.  Additional strategies are planned for Phase 7."@,
        GlossaryTerm::Cue => "A single entry in the cuelist: a saved scene snapshot plus \
                   per-cue timing (in-time, hold, out-time), fire mode (Follow \
                   or Go-on-trigger), BPM-bar quantize, and an optional timecode \
                   trigger position."@,
        GlossaryTerm::Cuelist => "The ordered list of cues the operator steps through during a \
                   live show.  Navigate with ←/→ to arm the next cue and Space \
                   (or MIDI 60) to fire it.  Cues in Follow mode advance \
                   automatically without operator input."@,
        GlossaryTerm::ArmedNext => "The next cue in the cuelist, highlighted with an amber ring in \
                   the cue strip and ready to fire on the next go command (Space / \
                   MIDI Note 60 / OSC /rmap/cue/go).  Move the arm with ←/→ \
                   without firing."@,
        GlossaryTerm::LiveCue => "The cue currently playing or crossfading on the projector.  \
                   Shown with a \"LIVE\" badge on its tile and a progress ring \
                   during the in-time crossfade.  The live cue advances to the \
                   next cue on a go command or automatically in Follow mode."@,
        GlossaryTerm::FollowChain => "A sequence of cues whose fire mode is set to Follow — they \
                   advance automatically from one to the next after each cue's \
                   hold time expires, without operator input.  The chain halts \
                   at the first Go-on-trigger cue or when the list is exhausted."@,
        GlossaryTerm::GoOnTrigger => "A cue fire mode that pauses the follow chain and waits for an \
                   explicit go command (Space / MIDI Note 60 / OSC /rmap/cue/go) \
                   before advancing to the next cue.  Use this for cues that \
                   require the operator to confirm timing live."@,
        GlossaryTerm::FollowMode => "A cue fire mode that fires the next cue automatically after the \
                   current cue's hold time expires, with no operator input required.  \
                   Chain multiple Follow-mode cues to build an auto-advancing \
                   sequence; the chain halts at the first Go-on-trigger cue."@,
        GlossaryTerm::InTime => "The crossfade duration (seconds) from the previous cue's state \
                   into this cue's scene snapshot.  0.0 snaps instantly; values up \
                   to 60 s create a slow dissolve.  The progress ring on the live \
                   cue tile shows in-time completion."@,
        GlossaryTerm::HoldTime => "How long the cue stays fully live after its in-time completes \
                   before the transport can advance (seconds).  \"∞\" (no value) \
                   means hold indefinitely until a go command or timecode trigger \
                   fires.  Used with Follow mode to create timed auto-advance."@,
        GlossaryTerm::OutTime => "The crossfade duration (seconds) from this cue's scene as the \
                   next cue's in-time begins.  In most workflows this is 0 because \
                   the next cue's in-time handles the blend; set it non-zero when \
                   you want the outgoing cue to fade before the next one fades in."@,
        GlossaryTerm::BpmQuantize => "Defers a cue's fire to the next 1 / 2 / 4 / 8-bar boundary at \
                   the current BPM instead of firing immediately on the go command.  \
                   The armed cue ring stays visible during the wait so the operator \
                   can see the pending fire.  Set to Off to fire on the exact \
                   trigger moment."@,
        GlossaryTerm::TimecodePosition => "An HH:MM:SS:FF timestamp (hours, minutes, seconds, frames) used \
                   as a cue trigger: when the incoming LTC or MTC timecode signal \
                   reaches this position the transport fires the cue automatically.  \
                   Requires a timecode source (LTC or MTC) to be active."@,
        GlossaryTerm::TransportHud => "The persistent on-screen panel showing live BPM value, the \
                   current tap source (Space / MIDI / OSC / MIDI Clock), the \
                   armed-next cue name and index, and a global BPM quantize \
                   override selector.  Always visible during Editing and Go-live \
                   states."@,
        GlossaryTerm::Ltc => "SMPTE 12M timecode carried as an audio-rate biphase-mark \
                   signal on a standard audio cable.  rmap decodes it via the \
                   `ltc` cargo feature (requires libltc) and uses the decoded \
                   HH:MM:SS:FF position to fire timecode-triggered cues within \
                   ±1 frame of the specified position."@,
        GlossaryTerm::Mtc => "MIDI Timecode: eight quarter-frame MIDI messages (status 0xF1) \
                   sent by a DAW or hardware sequencer that assemble into a full \
                   HH:MM:SS:FF timecode position.  Decoded inside the MIDI bus \
                   (no extra feature gate) and used to fire timecode-triggered \
                   cues."@,
        GlossaryTerm::MidiClock => "MIDI timing clock: 24 pulses per quarter note sent as status \
                   0xF8 messages.  rmap derives a rolling BPM average from the \
                   inter-pulse timing and uses it as an alternative tap source \
                   alongside Space, MIDI Note 60, and OSC /rmap/tap."@,
        GlossaryTerm::Syphon => "macOS inter-application video sharing protocol.  A Syphon \
                   server publishes a texture by name; any Syphon client on the \
                   same machine — OBS, VDMX, Resolume Arena, Millumin — can \
                   subscribe to it without a capture card or network hop."@,
        GlossaryTerm::SyphonOutput => "When enabled, rmap publishes its composited projector output \
                   as a Syphon source named \"rmap – <project name>\".  Toggle \
                   it in the Output panel; OBS or another Syphon client will see \
                   it in its source picker immediately."@,
        GlossaryTerm::CalibrationFile => "A `.rmap-calibration.json` file that stores the warp mesh, \
                   mask polygon, gamma curve, and display identity for a physical \
                   venue.  Saved once per venue; loaded alongside any show file so \
                   the geometry is always correct without editing the show itself."@,
        GlossaryTerm::SurfaceSlot => "A logical projector output identified by a stable UUID inside \
                   the calibration file.  The show file's OutputTarget binds to \
                   a surface slot at load time; if the IDs don't match rmap falls \
                   back to an identity warp and shows an audit warning."@,
        GlossaryTerm::VenueCalibration => "The complete set of per-surface geometric and colour corrections \
                   (warp, mask, gamma) for a physical installation.  Venue \
                   calibration travels with the room, not the show: one calibration \
                   file works with every show file designed for that venue."@,
        GlossaryTerm::BezierWarp => "A warp mesh whose row and column edges are cubic Bezier curves \
                   rather than straight lines.  Pull the tangent handles on any \
                   anchor point to bow a single edge, enabling smooth wrapping on \
                   columns, arches, and organic architectural shapes."@,
        GlossaryTerm::Anchor => "A corner point of the Bezier warp mesh that lies exactly on the \
                   projection surface.  Drag an anchor in Anchor mode to reposition \
                   it and its attached tangent handles together; the corner point \
                   itself is always on the surface."@,
        GlossaryTerm::TangentHandle => "A control point connected to an anchor by a thin line.  Dragging \
                   the handle bows the adjacent Bezier edge without moving the \
                   anchor.  In Tangent mode the two handles of a smooth pair mirror \
                   each other; hold Shift to break symmetry for a cusp corner."@,
        GlossaryTerm::InverseMask => "Flips the mask so the region that was blocked becomes revealed \
                   and the region that was visible becomes blocked.  Toggle \
                   \"Inverse\" in the Mask sub-row; undo restores the previous \
                   state."@,
        GlossaryTerm::LumaKey => "Derives the mask alpha from the brightness of the rendered \
                   output: pixels above the threshold become opaque; pixels below \
                   become transparent (or the reverse when Inverse is also active).  \
                   Adjust the Threshold and Softness sliders in the Mask panel."@,
        GlossaryTerm::ChromaKey => "Removes a specific hue range from the rendered output by setting \
                   those pixels to transparent — the classic green-screen technique.  \
                   Set the Hue Centre, Hue Range, Saturation Threshold, and Softness \
                   in the Mask panel; works on any colour, not just green."@,
        GlossaryTerm::Rgbw => "A four-channel DMX colour model (Red, Green, Blue, White) \
                   used by warm-white architectural LED fixtures.  rmap extracts \
                   the white component from the sampled canvas colour using the \
                   fixture group's CCT, reducing colour noise at high intensities \
                   compared with driving the white channel from raw pixel data."@,
        GlossaryTerm::ColourTemperature => "The Kelvin value describing the warmth or coolness of a light \
                   source.  2700 K is warm amber (like an incandescent lamp); \
                   6500 K is cool blue-white (like daylight).  Set the colour \
                   temperature of an RGBW fixture group to match the physical \
                   fixture spec so the White channel renders correctly."@,
        GlossaryTerm::Cct => "Short for Correlated Colour Temperature: the Kelvin value that \
                   best describes the white point of a light source.  rmap uses the \
                   CCT setting on an RGBW fixture group to compute how much of the \
                   sampled canvas colour flows into the White DMX channel versus \
                   the Red, Green, and Blue channels."@,
        GlossaryTerm::ScenePack => "A portable `.rmap-scene-pack.zip` archive containing one or more \
                   scene templates and their referenced assets (images, SVGs, FX \
                   presets).  Export a scene pack from the layer context menu; \
                   import it via File > Import Scene Pack to make its templates \
                   available in the Preset Browser."@,
        GlossaryTerm::EdgeBlendGradient => "A calibration verify pattern that fades from fully opaque to \
                   transparent across a configurable screen edge and blend width.  \
                   Used to set up and verify the overlap zone between two adjacent \
                   projectors; deactivate when the show is running."@,
        GlossaryTerm::CalibrationVerify => "A full-screen test pattern (alignment cross, dot grid, colour \
                   bars, edge-blend gradient, focus chart, or geometry grid) \
                   rendered over the projector output to verify warp accuracy, \
                   colour, and focus.  Select a pattern in the Output panel's \
                   Verify section; deactivate to return to the show."@,
        GlossaryTerm::FxFamilySourceModifier => "A class of FX preset that reads the underlying layer image \
                   and writes a modified version — warping, lensing, brightening, \
                   or smearing the photo — rather than painting its own pixels on \
                   top.  Distinct from generative overlays like ripple wash or \
                   edge emission."@,
        GlossaryTerm::EffectTreatment => "An effect-chain variant that runs a single treatment preset \
                   (tone map, displacement ripple, refraction, palette extract, \
                   collage, etc.) on one layer only, rather than as a global \
                   pass over the composited frame.  Lets you grade or warp one \
                   layer while others remain untouched."@,
        GlossaryTerm::EffectFeedback => "An effect that blends the previous frame's layer output back \
                   into the current frame, producing trails, echoes, and motion \
                   smear.  Decay controls trail length; offset adds directional \
                   motion-trail.  Decay is modulator-driven so the trail can \
                   pulse with audio or MIDI."@,
        GlossaryTerm::EffectTint => "A colour-mixing effect with three modes: multiply (proper tint \
                   that darkens toward the chosen colour), additive (wash that \
                   lightens), and screen.  The amount slider is modulator-driven \
                   so the tint can pulse with audio or MIDI input."@,
        GlossaryTerm::MaskNodeUnion => "A mask-graph operation that combines two mask polygons so the \
                   result covers either region — the Boolean union of overlapping \
                   shapes.  Use it when you want one logical mask out of two \
                   separately drawn polygons."@,
        GlossaryTerm::MaskNodeSubtract => "A mask-graph operation that cuts the second polygon out of the \
                   first, leaving the area the first mask covers minus the area \
                   the second mask covers.  Useful for window-with-mullion shapes \
                   and other 'hole through' geometry."@,
        GlossaryTerm::FluidWarp => "Source-modifying preset: runs a 2D fluid simulation inside \
                   the mask, displacing the underlying photo by the velocity \
                   field.  The image flows like water; amplitude scales the \
                   distortion.  Mask-bounded — fluid never leaks outside the \
                   shape."@,
        GlossaryTerm::RippleLens => "Source-modifying preset: concentric rings from the mask edge \
                   act as refraction lenses, bulging and contracting the \
                   underlying image in bands.  Optional chromatic split per ring \
                   gives a chromatic-aberration look."@,
        GlossaryTerm::EdgeLens => "Source-modifying preset: four traveling refraction bumps orbit \
                   the mask edge, distorting the image at each crest and letting \
                   it recover between them — a 'force field' look without any \
                   overlay geometry."@,
        GlossaryTerm::FluidWarpFull => "Source-modifying preset: like Fluid Warp but unbounded — the \
                   underlying photo flows across the entire layer, not just \
                   inside the mask.  Pair with Fluid Warp on a sibling layer for \
                   'fluid inside, calm outside' compositions."@,
        GlossaryTerm::Spotlights => "Source-modifying preset: each particle becomes a soft Gaussian \
                   brightener that lifts source-pixel luminance in its radius.  \
                   The underlying photo stays visible everywhere; particles light \
                   it up rather than painting on top."@,
        GlossaryTerm::DriftPinholes => "Source-modifying preset: white-dot particles drift inside the \
                   mask, but instead of being opaque dots each one is a pinhole \
                   through which the underlying photo is visible.  The layer \
                   becomes a moving stencil of the image."@,
        GlossaryTerm::EdgeSparks => "Source-modifying preset: particles fly outward from the mask \
                   edge and each one additively lifts the underlying source's \
                   luminance in a soft radius — sparks light up the photo rather \
                   than overlaying opaque dots."@,
        GlossaryTerm::FieldAdvectSource => "Source-modifying preset: uses the mask SDF gradient field to \
                   advect the underlying photo along the mask normals over time.  \
                   No visible particles — the gradient acts on the image \
                   directly."@,
        GlossaryTerm::CollisionRipples => "Source-modifying preset: particles bounce inside the mask, and \
                   each collision event injects a small ripple into a \
                   displacement field that warps the underlying photo — physical \
                   interaction between simulation and image."@,
        GlossaryTerm::ZoneBrighten => "Source-modifying preset: like Zone Light Spill but instead of \
                   adding a warm colour overlay, multiplicatively lifts the \
                   luminance of source pixels in the spill region.  Same falloff \
                   curve, more grounded look."@,
        GlossaryTerm::ZoneLens => "Source-modifying preset: displaces the underlying photo's UV \
                   in a thin band at the zone edge, so the image warps when you \
                   cross through the zone perimeter.  Rest of the layer remains \
                   untouched."@,
        GlossaryTerm::PortalWarp => "Source-modifying preset: particles drift through portal zones \
                   (doorways, openings) and each one displaces source pixels in \
                   its radius — produces a 'ghost moving through the room' \
                   effect on a photo of the room."@,
    }
}

/// Position of each term in the glossary window's display order.
pub open spec fn term_position(t: GlossaryTerm) -> int {
    match t {
        GlossaryTerm::Warp => 0,
        GlossaryTerm::MaskPolygon => 1,
        GlossaryTerm::Modulator => 2,
        GlossaryTerm::Gamma => 3,
        GlossaryTerm::Brightness => 4,
        GlossaryTerm::Contrast => 5,
        GlossaryTerm::BlendMode => 6,
        GlossaryTerm::Crossfade => 7,
        GlossaryTerm::Scene => 8,
        GlossaryTerm::ZoneTemplate => 9,
        GlossaryTerm::Blackout => 10,
        GlossaryTerm::Freeze => 11,
        GlossaryTerm::TestPattern => 12,
        GlossaryTerm::EditorOverlay => 13,
        GlossaryTerm::Effect => 14,
        GlossaryTerm::FitMode => 15,
        GlossaryTerm::MaskFeather => 16,
        GlossaryTerm::GridDetail => 17,
        GlossaryTerm::Opacity => 18,
        GlossaryTerm::DisplayOverride => 19,
        GlossaryTerm::FxLayer => 20,
        GlossaryTerm::NdiSource => 21,
        GlossaryTerm::EdgeBlendRegion => 22,
        GlossaryTerm::RgbMatrix => 23,
        GlossaryTerm::MidiLearn => 24,
        GlossaryTerm::DroppedFrames => 25,
        GlossaryTerm::Treatment => 26,
        GlossaryTerm::ToneMap => 27,
        GlossaryTerm::BlurMask => 28,
        GlossaryTerm::LuminanceReveal => 29,
        GlossaryTerm::TextureOverlay => 30,
        GlossaryTerm::PaletteExtract => 31,
        GlossaryTerm::Collage => 32,
        GlossaryTerm::FocalPoint => 33,
        GlossaryTerm::InOutPoints => 34,
        GlossaryTerm::LoopMode => 35,
        GlossaryTerm::BpmLockedPlayback => 36,
        GlossaryTerm::ReversePlayback => 37,
        GlossaryTerm::ThumbnailScrub => 38,
        GlossaryTerm::Particle => 39,
        GlossaryTerm::ForceField => 40,
        GlossaryTerm::FluidSim => 41,
        GlossaryTerm::PresetLibrary => 42,
        GlossaryTerm::MaskConstrained => 43,
        GlossaryTerm::EmitterMasking => 44,
        GlossaryTerm::SdfNormal => 45,
        GlossaryTerm::DisplacementPreset => 46,
        GlossaryTerm::RefractionPreset => 47,
        GlossaryTerm::WavePreset => 48,
        GlossaryTerm::ParticleBudget => 49,
        GlossaryTerm::SeedDeterminism => 50,
        GlossaryTerm::EffectChainReorder => 51,
        GlossaryTerm::UserPreset => 52,
        GlossaryTerm::BuiltInPreset => 53,
        GlossaryTerm::MaskEdgeRippleWash => 54,
        GlossaryTerm::MaskEdgeWaveWash => 55,
        GlossaryTerm::MaskConstrainedDrift => 56,
        GlossaryTerm::MaskEdgeEmission => 57,
        GlossaryTerm::MaskFieldFlow => 58,
        GlossaryTerm::MaskCollisionReflection => 59,
        GlossaryTerm::MaskBoundedFluid => 60,
        GlossaryTerm::DisplacementRipple => 61,
        GlossaryTerm::Refraction => 62,
        GlossaryTerm::ZoneRoleWindow => 63,
        GlossaryTerm::ZoneRolePortal => 64,
        GlossaryTerm::ZoneRoleVoid => 65,
        GlossaryTerm::ZoneRoleSpill => 66,
        GlossaryTerm::ZoneRoleEdge => 67,
        GlossaryTerm::ZoneRoleHighlight => 68,
        GlossaryTerm::ZoneRoleLightSource => 69,
        GlossaryTerm::ZoneAwareShader => 70,
        GlossaryTerm::ZoneTag => 71,
        GlossaryTerm::SceneTemplate => 72,
        GlossaryTerm::SceneGrammar => 73,
        GlossaryTerm::Wizard => 74,
        GlossaryTerm::PaletteMood => 75,
        GlossaryTerm::Mood => 76,
        GlossaryTerm::TempoSync => 77,
        GlossaryTerm::BezierHandles => 78,
        GlossaryTerm::WindowReveal => 79,
        GlossaryTerm::PixelDrift => 80,
        GlossaryTerm::CollagBloom => 81,
        GlossaryTerm::GlowBehindOpenings => 82,
        GlossaryTerm::FragmentedPortrait => 83,
        GlossaryTerm::ArchitecturalWash => 84,
        GlossaryTerm::MaskEdgeRippleWashScene => 85,
        GlossaryTerm::LightSpillFromWindows => 86,
        GlossaryTerm::DmxUniverse => 87,
        GlossaryTerm::FixtureGroup => 88,
        GlossaryTerm::PixelMap => 89,
        GlossaryTerm::DmxTransport => 90,
        GlossaryTerm::ArtNetTransport => 91,
        GlossaryTerm::ChannelRole => 92,
        GlossaryTerm::ColorStrategy => 93,
        GlossaryTerm::LightingTap => 94,
        GlossaryTerm::OutputStrategy => 95,
        GlossaryTerm::Cue => 96,
        GlossaryTerm::Cuelist => 97,
        GlossaryTerm::ArmedNext => 98,
        GlossaryTerm::LiveCue => 99,
        GlossaryTerm::FollowChain => 100,
        GlossaryTerm::GoOnTrigger => 101,
        GlossaryTerm::FollowMode => 102,
        GlossaryTerm::InTime => 103,
        GlossaryTerm::HoldTime => 104,
        GlossaryTerm::OutTime => 105,
        GlossaryTerm::BpmQuantize => 106,
        GlossaryTerm::TimecodePosition => 107,
        GlossaryTerm::TransportHud => 108,
        GlossaryTerm::Ltc => 109,
        GlossaryTerm::Mtc => 110,
        GlossaryTerm::MidiClock => 111,
        GlossaryTerm::Syphon => 112,
        GlossaryTerm::SyphonOutput => 113,
        GlossaryTerm::CalibrationFile => 114,
        GlossaryTerm::SurfaceSlot => 115,
        GlossaryTerm::VenueCalibration => 116,
        GlossaryTerm::BezierWarp => 117,
        GlossaryTerm::Anchor => 118,
        GlossaryTerm::TangentHandle => 119,
        GlossaryTerm::InverseMask => 120,
        GlossaryTerm::LumaKey => 121,
        GlossaryTerm::ChromaKey => 122,
        GlossaryTerm::Rgbw => 123,
        GlossaryTerm::ColourTemperature => 124,
        GlossaryTerm::Cct => 125,
        GlossaryTerm::ScenePack => 126,
        GlossaryTerm::EdgeBlendGradient => 127,
        GlossaryTerm::CalibrationVerify => 128,
        GlossaryTerm::FxFamilySourceModifier => 129,
        GlossaryTerm::EffectTreatment => 130,
        GlossaryTerm::EffectFeedback => 131,
        GlossaryTerm::EffectTint => 132,
        GlossaryTerm::MaskNodeUnion => 133,
        GlossaryTerm::MaskNodeSubtract => 134,
        GlossaryTerm::FluidWarp => 135,
        GlossaryTerm::RippleLens => 136,
        GlossaryTerm::EdgeLens => 137,
        GlossaryTerm::FluidWarpFull => 138,
        GlossaryTerm::Spotlights => 139,
        GlossaryTerm::DriftPinholes => 140,
        GlossaryTerm::EdgeSparks => 141,
        GlossaryTerm::FieldAdvectSource => 142,
        GlossaryTerm::CollisionRipples => 143,
        GlossaryTerm::ZoneBrighten => 144,
        GlossaryTerm::ZoneLens => 145,
        GlossaryTerm::PortalWarp => 146,
    }
}

/// A single glossary entry: a short headline and a 1–3 sentence body.
pub struct GlossaryEntry {
    pub headline: &'static str,
    pub body: &'static str,
}

/// Look up the glossary entry for a term.
pub fn entry(t: GlossaryTerm) -> (e: GlossaryEntry)
    ensures
        e.headline@ == glossary_headline(t),
        e.body@ == glossary_body(t),
{
    match t {
        GlossaryTerm::Warp => GlossaryEntry {
            headline: "Warp",
            body: "Per-layer corner-pin quad that places the layer on the projector. \
                   Each corner is a point in projector space; drag a corner to \
                   move/resize/distort the layer on the wall directly. Increase \
                   rows × cols (Advanced → Mapping) for finer mesh control.",
        },
        GlossaryTerm::MaskPolygon => GlossaryEntry {
            headline: "Mask Polygon",
            body: "A polygon drawn over the layer that blocks the image outside its \
                   boundary.  Use it to hide parts of the projection that fall on \
                   surfaces you don't want lit (doors, windows, pillars).",
        },
        GlossaryTerm::Modulator => GlossaryEntry {
            headline: "Modulator",
            body: "How a parameter changes over time.  \
                   `Static` holds a fixed value; `Sine`, `Sawtooth`, `Square`, \
                   `Random`, and `Bound` animate it on a repeating cycle.",
        },
        GlossaryTerm::Gamma => GlossaryEntry {
            headline: "Gamma",
            body: "Overall brightness curve of the output.  \
                   Values above 1.0 lift the midtones (brighter); \
                   below 1.0 they darken.  Start at 1.0 and nudge if \
                   the projector looks washed-out or too dark.",
        },
        GlossaryTerm::Brightness => GlossaryEntry {
            headline: "Brightness",
            body: "Additive offset applied to every pixel after gamma.  \
                   Positive values push towards white; negative values \
                   push towards black.  0.0 leaves the image unchanged.",
        },
        GlossaryTerm::Contrast => GlossaryEntry {
            headline: "Contrast",
            body: "Stretches the range between dark and bright.  \
                   1.0 is unchanged; higher values increase separation \
                   between shadows and highlights.",
        },
        GlossaryTerm::BlendMode => GlossaryEntry {
            headline: "Blend Mode",
            body: "How a layer's pixels combine with the layers below it.  \
                   Normal overwrites; Add makes bright areas brighter (good for \
                   fire / glow); Multiply darkens; Screen is similar to Add but \
                   gentler with very bright content.",
        },
        GlossaryTerm::Crossfade => GlossaryEntry {
            headline: "Crossfade",
            body: "Smooth transition between two scenes.  The duration controls \
                   how many seconds the blend takes to complete.",
        },
        GlossaryTerm::Scene => GlossaryEntry {
            headline: "Scene",
            body: "A saved snapshot of all layer content, positions, and settings.  \
                   Switch scenes mid-show to jump between prepared looks.",
        },
        GlossaryTerm::ZoneTemplate => GlossaryEntry {
            headline: "Zone Template",
            body: "A preset mask polygon shape (full, left half, right half, \
                   top/bottom split, etc.) that you can apply in one click instead \
                   of drawing vertices manually.",
        },
        GlossaryTerm::Blackout => GlossaryEntry {
            headline: "Blackout",
            body: "Cuts the projector output to black instantly.  \
                   The show continues running in the background; \
                   press again to restore.",
        },
        GlossaryTerm::Freeze => GlossaryEntry {
            headline: "Freeze",
            body: "Holds the last rendered frame on the projector while the \
                   control window keeps updating.  Useful for swapping content \
                   without the audience seeing the edit.",
        },
        GlossaryTerm::TestPattern => GlossaryEntry {
            headline: "Test Pattern",
            body: "Replaces the projector output with a calibration source.  \
                   Cycle through patterns to check focus, geometry, corner \
                   alignment, and (P0.7.4) two-projector edge-blend overlap \
                   via the alignment cross + edge-blend gradient patterns.",
        },
        GlossaryTerm::EditorOverlay => GlossaryEntry {
            headline: "Editor Overlay",
            body: "Draws warp-grid handles and mask-polygon vertices on the \
                   projector output.  Toggle off during a live show so the \
                   audience never sees editing chrome.",
        },
        GlossaryTerm::Effect => GlossaryEntry {
            headline: "Effect",
            body: "A real-time filter applied to a single layer \
                   (e.g. Transform moves/scales, others tint or distort).  \
                   Effects stack in order; drag to reorder.",
        },
        GlossaryTerm::FitMode => GlossaryEntry {
            headline: "Fit Mode",
            body: "How the layer's source image fills its bounding rectangle.  \
                   `Stretch` fills exactly; `Contain` letterboxes; \
                   `Cover` crops to fill with no bars.",
        },
        GlossaryTerm::MaskFeather => GlossaryEntry {
            headline: "Mask Feather",
            body: "Soft fade at the edge of the mask polygon.  \
                   0 = hard edge; values up to about 0.5 produce a \
                   useful graduated blend between lit and dark.",
        },
        GlossaryTerm::GridDetail => GlossaryEntry {
            headline: "Grid Detail",
            body: "How many cells make up the warp mesh (rows × columns).  \
                   More cells allow finer local warps but add more control \
                   points to align (see Warp).",
        },
        GlossaryTerm::Opacity => GlossaryEntry {
            headline: "Opacity",
            body: "Overall transparency of the layer: 1.0 is fully opaque, \
                   0.0 is invisible.  Useful for subtle overlays or \
                   for fading content in and out.",
        },
        GlossaryTerm::DisplayOverride => GlossaryEntry {
            headline: "Display Override",
            body: "Optional per-projector gamma / brightness / contrast that \
                   replaces the master values for the projector output only.  \
                   Tune the master for what looks right on your laptop, then \
                   set the override for what looks right on the wall.",
        },
        GlossaryTerm::FxLayer => GlossaryEntry {
            headline: "FX Layer",
            body: "A layer whose visual content is generated from its mask \
                   rather than from media.  v0.4 ships a single proof-point \
                   preset (mask-edge ripple wash); the full library of \
                   particle / wave / fluid presets lands in Phase 2.",
        },
        GlossaryTerm::NdiSource => GlossaryEntry {
            headline: "NDI Source",
            body: "A live video stream received over the network from another \
                   machine (e.g. an OBS instance).  v0.4 supports NDI as input \
                   only; output (Phase 7) lets other apps consume rmap's render.",
        },
        GlossaryTerm::EdgeBlendRegion => GlossaryEntry {
            headline: "Edge-Blend Region",
            body: "The overlap zone between two projectors where image \
                   brightness is feathered so the seam between the two beams \
                   becomes invisible.  Configure overlap width and falloff \
                   curve per edge.",
        },
        GlossaryTerm::RgbMatrix => GlossaryEntry {
            headline: "RGB Matrix",
            body: "A 3×3 colour-correction matrix applied per-projector at \
                   present time, after gamma / brightness / contrast.  Use it \
                   to compensate for differences in projector colour response \
                   when two projectors share the same canvas.",
        },
        GlossaryTerm::MidiLearn => GlossaryEntry {
            headline: "MIDI Learn",
            body: "Right-click any parameter and pick \"Learn next MIDI CC\".  \
                   The next incoming control-change message binds to that \
                   parameter; press ESC to cancel before a CC arrives.",
        },
        GlossaryTerm::DroppedFrames => GlossaryEntry {
            headline: "Dropped Frames",
            body: "How many audio / video / NDI frames the renderer had to \
                   discard because a bounded queue was full.  A non-zero \
                   value during a show means a producer is outpacing the \
                   render thread; investigate before it becomes visible \
                   on the projector.",
        },
        GlossaryTerm::Treatment => GlossaryEntry {
            headline: "Treatment",
            body: "A named image-grammar preset applied to an Image or Video \
                   layer before the per-pixel effect chain.  Picks one preset \
                   per layer (tone map, blur mask, luminance reveal, etc.); \
                   parameters tune the look without exposing dozens of \
                   sliders.",
        },
        GlossaryTerm::ToneMap => GlossaryEntry {
            headline: "Tone Map",
            body: "S-curve exposure + contrast + highlight-rolloff applied \
                   per layer.  Lifts shadows and softens blown highlights so \
                   mixed-light footage matches the rest of the scene without \
                   touching the master gamma slider.",
        },
        GlossaryTerm::BlurMask => GlossaryEntry {
            headline: "Blur Mask",
            body: "Gaussian blur gated by the layer's mask SDF: pixels near \
                   the mask edge get heavy blur, pixels deep inside stay \
                   sharp.  Feathers a photo's silhouette into the background \
                   without losing detail in the centre.",
        },
        GlossaryTerm::LuminanceReveal => GlossaryEntry {
            headline: "Luminance Reveal",
            body: "Pixels brighter than the threshold show; everything else \
                   becomes transparent.  A soft band around the threshold \
                   smooths the cut.  Useful for keying out dark backgrounds \
                   without a proper chroma key (Phase 7).",
        },
        GlossaryTerm::TextureOverlay => GlossaryEntry {
            headline: "Texture Overlay",
            body: "A second image multiplies into the source — paper grain, \
                   noise, film texture, sky gradient.  Pick the overlay file \
                   via the preset; opacity + tint tune how much of the \
                   overlay's colour reaches the result.",
        },
        GlossaryTerm::PaletteExtract => GlossaryEntry {
            headline: "Palette Extract",
            body: "Posterises the source down to a few colours derived from \
                   the image itself (median-cut at layer load; video uses \
                   the first decoded frame).  Dither smooths transitions; \
                   vibrance exaggerates the extracted palette's saturation.",
        },
        GlossaryTerm::Collage => GlossaryEntry {
            headline: "Collage",
            body: "Composites up to four images on one layer in a grid \
                   (1×2, 2×1, or 2×2).  Spacing creates visible gaps between \
                   cells.  Richer authored compositions land alongside scene \
                   grammars in Phase 4.",
        },
        GlossaryTerm::FocalPoint => GlossaryEntry {
            headline: "Focal Point",
            body: "When the layer's fit mode is Cover, the focal point is \
                   the normalised position the crop centres on.  Click the \
                   preview thumbnail to anchor it on the subject (e.g. a \
                   face) so resizing the layer keeps the subject in frame.",
        },
        GlossaryTerm::InOutPoints => GlossaryEntry {
            headline: "In / Out Points",
            body: "Trim a video clip to play only between two timestamps. \
                   Seamless-loop wraps from the out-point back to the in-\
                   point instead of clip 0 → end.  Drag the markers on the \
                   scrub bar to set them.",
        },
        GlossaryTerm::LoopMode => GlossaryEntry {
            headline: "Loop Mode",
            body: "What happens when a video clip reaches its out-point.  \
                   Once stops on the last frame; Loop wraps to the in-point; \
                   PingPong alternates forward and reverse on each end.",
        },
        GlossaryTerm::BpmLockedPlayback => GlossaryEntry {
            headline: "BPM-Locked Playback",
            body: "Locks the clip's playback rate to the current BPM so the \
                   clip plays exactly N beats per loop.  Tap-tempo changes \
                   propagate to the rate on the next frame without re-\
                   encoding.",
        },
        GlossaryTerm::ReversePlayback => GlossaryEntry {
            headline: "Reverse Playback",
            body: "Negative speed plays the clip backwards.  v0.5 uses a \
                   pre-decoded keyframe cache (capped at 30-second clips); \
                   longer clips fall back to forward playback at the \
                   absolute rate with a hint.",
        },
        GlossaryTerm::ThumbnailScrub => GlossaryEntry {
            headline: "Thumbnail Scrub",
            body: "A timeline strip showing pre-decoded mini-frames from the \
                   clip.  Hover to preview a position; click to seek the \
                   playhead there.  Drag the edges to set in/out points.",
        },
        GlossaryTerm::Particle => GlossaryEntry {
            headline: "Particle",
            body: "A single GPU-simulated sprite that moves, fades, and \
                   disappears over its lifetime.  Hundreds of thousands run \
                   in parallel on the GPU; the Particle Budget slider caps \
                   the count to match your hardware.",
        },
        GlossaryTerm::ForceField => GlossaryEntry {
            headline: "Force Field",
            body: "A directional volume that pushes or pulls particles passing \
                   through it.  Combine several overlapping fields to build \
                   wind, vortex, or gravity effects without touching individual \
                   particle settings.",
        },
        GlossaryTerm::FluidSim => GlossaryEntry {
            headline: "Fluid Sim",
            body: "A velocity-field simulation that makes particles swirl and \
                   flow like smoke or ink.  Viscosity and diffusion sliders \
                   control whether the motion looks like water, fog, or thick \
                   paint.",
        },
        GlossaryTerm::PresetLibrary => GlossaryEntry {
            headline: "Preset Library",
            body: "The browsable panel showing all built-in and saved FX \
                   presets.  Click a preset to apply it to the selected FX \
                   Layer; use the star to pin favourites to the top.",
        },
        GlossaryTerm::MaskConstrained => GlossaryEntry {
            headline: "Mask-Constrained",
            body: "An effect or emitter whose output is clipped to the layer's \
                   mask polygon.  Particles or distortions that cross the \
                   boundary are removed, keeping the look tidy on irregular \
                   surfaces.",
        },
        GlossaryTerm::EmitterMasking => GlossaryEntry {
            headline: "Emitter Masking",
            body: "Uses the layer's mask polygon as the spawn surface for \
                   particles.  New particles appear along the mask edge or \
                   inside its filled area depending on the preset's emitter \
                   mode.",
        },
        GlossaryTerm::SdfNormal => GlossaryEntry {
            headline: "SDF Normal",
            body: "The outward-pointing direction at any point on the mask \
                   boundary, computed from its signed-distance field.  Presets \
                   use this to shoot particles or waves perpendicular to the \
                   mask edge without manual direction tuning.",
        },
        GlossaryTerm::DisplacementPreset => GlossaryEntry {
            headline: "Displacement Preset",
            body: "A preset family that pushes pixels outward from the mask \
                   boundary using a wave or ripple offset.  Strength and \
                   frequency sliders control how far pixels shift and how \
                   quickly the wave cycles.",
        },
        GlossaryTerm::RefractionPreset => GlossaryEntry {
            headline: "Refraction Preset",
            body: "A preset family that bends the layer image at the mask \
                   boundary as if viewed through glass or water.  Index and \
                   blur sliders control the strength of the lens effect.",
        },
        GlossaryTerm::WavePreset => GlossaryEntry {
            headline: "Wave Preset",
            body: "A preset family that propagates oscillating patterns outward \
                   from the mask edge.  Speed, amplitude, and wavelength \
                   sliders let you tune it from a gentle shimmer to a heavy \
                   ripple.",
        },
        GlossaryTerm::ParticleBudget => GlossaryEntry {
            headline: "Particle Budget",
            body: "The maximum number of live particles allowed on this layer \
                   at once.  Lower the budget if you see dropped frames; raise \
                   it for denser effects when headroom is available.  Changes \
                   take effect on the next spawn cycle.",
        },
        GlossaryTerm::SeedDeterminism => GlossaryEntry {
            headline: "Seed (Determinism)",
            body: "A numeric value that locks a preset's random noise to a \
                   fixed sequence.  Two shows with the same seed look \
                   identical.  Change the seed to get a different-but-\
                   repeatable variation of the same preset.",
        },
        GlossaryTerm::EffectChainReorder => GlossaryEntry {
            headline: "Effect-Chain Reorder",
            body: "Drag an effect card up or down in the effect chain to change \
                   the order effects are applied.  Order matters: a blur before \
                   a colour shift produces a different result than the reverse.",
        },
        GlossaryTerm::UserPreset => GlossaryEntry {
            headline: "User Preset",
            body: "An FX preset you saved from your own parameter tweaks.  \
                   User presets appear in the Preset Library alongside built-in \
                   ones; export them to share with other operators.",
        },
        GlossaryTerm::BuiltInPreset => GlossaryEntry {
            headline: "Built-In Preset",
            body: "A factory preset shipped with the application that cannot be \
                   deleted.  Built-in presets are a starting point; duplicate \
                   one to create an editable user preset.",
        },
        GlossaryTerm::MaskEdgeRippleWash => GlossaryEntry {
            headline: "Mask-Edge Ripple Wash",
            body: "Spawns a continuous wash of particles along the mask \
                   boundary, flowing outward as a ripple.  Speed and density \
                   sliders tune how fast and thick the wash appears.",
        },
        GlossaryTerm::MaskEdgeWaveWash => GlossaryEntry {
            headline: "Mask-Edge Wave Wash",
            body: "Emits an oscillating wave wash from the mask edge that \
                   crests and fades across the layer surface.  Amplitude and \
                   frequency control the height and spacing of each wave crest.",
        },
        GlossaryTerm::MaskConstrainedDrift => GlossaryEntry {
            headline: "Mask-Constrained Drift",
            body: "Fills the mask interior with slowly drifting particles that \
                   stay within the boundary.  A gentle effect for giving a \
                   still image a sense of quiet movement without visible \
                   directional flow.",
        },
        GlossaryTerm::MaskEdgeEmission => GlossaryEntry {
            headline: "Mask-Edge Emission",
            body: "Shoots sparks outward from the mask perimeter, following \
                   the SDF normal direction.  Burst rate and spread angle let \
                   you scale from occasional glints to a constant halo.",
        },
        GlossaryTerm::MaskFieldFlow => GlossaryEntry {
            headline: "Mask Field Flow",
            body: "A force-field preset whose flow lines follow the mask \
                   boundary shape, carrying particles along the contour.  \
                   Works well on text or logo masks to trace their outline \
                   with motion.",
        },
        GlossaryTerm::MaskCollisionReflection => GlossaryEntry {
            headline: "Mask Collision Reflection",
            body: "Particles fill the layer and bounce elastically off the \
                   mask boundary as if the edge were a solid wall.  \
                   Restitution and particle size sliders control how \
                   energetic the collisions look.",
        },
        GlossaryTerm::MaskBoundedFluid => GlossaryEntry {
            headline: "Mask-Bounded Fluid",
            body: "A fluid simulation that treats the mask polygon as a \
                   container: the velocity field swirls inside but cannot \
                   escape the boundary.  Viscosity sets the feel from \
                   thin water to heavy oil.",
        },
        GlossaryTerm::DisplacementRipple => GlossaryEntry {
            headline: "Displacement Ripple",
            body: "Pushes pixels in a radial ripple pattern emanating from the \
                   mask edge, distorting the layer image as if a stone were \
                   dropped into the surface.  Speed sets the ring expansion \
                   rate; strength sets maximum pixel offset.",
        },
        GlossaryTerm::Refraction => GlossaryEntry {
            headline: "Refraction",
            body: "Bends the layer image at the mask boundary using a \
                   lens-distortion pass, creating a glass-edge or water-\
                   surface appearance.  Index controls how strongly light \
                   bends; blur softens the distorted region.",
        },
        GlossaryTerm::ZoneRoleWindow => GlossaryEntry {
            headline: "Zone Role: Window",
            body: "Tags a mask as a transparent opening (window pane, glass \
                   facade).  Zone-aware presets such as \"light spill from \
                   window zones\" read this tag and activate their effect only \
                   on layers with this role.  Unlike Zone Template, this is a \
                   semantic label — not a geometry shortcut.",
        },
        GlossaryTerm::ZoneRolePortal => GlossaryEntry {
            headline: "Zone Role: Portal",
            body: "Tags a mask as a visual passageway or threshold (archway, \
                   doorway, gap in a surface).  Presets such as \"particle drift \
                   through portal zones\" spawn their effect inside this \
                   boundary.  Apply to any region where you want through-the-\
                   surface-style visual depth.",
        },
        GlossaryTerm::ZoneRoleVoid => GlossaryEntry {
            headline: "Zone Role: Void",
            body: "Tags a mask as a non-emitting blank region intended to stay \
                   dark — a recessed area, shadow pocket, or unlit surface.  \
                   Zone-aware presets skip or invert their effect for Void-tagged \
                   layers so the dark region stays visually quiet.",
        },
        GlossaryTerm::ZoneRoleSpill => GlossaryEntry {
            headline: "Zone Role: Spill",
            body: "Tags a mask as a surface that catches stray light from a \
                   nearby bright zone — the wall beside a lit window, or a \
                   floor below a lantern.  Presets respond with a softer, \
                   indirect-light treatment rather than the full brightness \
                   reserved for the source zone.",
        },
        GlossaryTerm::ZoneRoleEdge => GlossaryEntry {
            headline: "Zone Role: Edge",
            body: "Tags a mask as the perimeter or boundary of a surface feature \
                   (window sill, door reveal, architectural trim).  The \
                   \"ripple at edge zones\" preset amplifies its wave effect \
                   specifically at Edge-tagged layers.  Distinct from the mask \
                   feather, which is a render setting rather than a semantic role.",
        },
        GlossaryTerm::ZoneRoleHighlight => GlossaryEntry {
            headline: "Zone Role: Highlight",
            body: "Tags a mask as a surface intended to catch a key light or \
                   colour accent — a ceiling cove, decorative panel, or any \
                   area you want to pop.  Zone-aware presets can use this tag \
                   to brighten or saturate the region relative to the rest of \
                   the scene.",
        },
        GlossaryTerm::ZoneRoleLightSource => GlossaryEntry {
            headline: "Zone Role: Light Source",
            body: "Tags a mask as a practical luminaire or architectural \
                   element that emits light in the scene — a sconce, lantern, \
                   or ceiling fixture.  Phase 5 will let fixtures bind to \
                   Light Source zone activity; in Phase 3 this tag acts as a \
                   semantic label FX presets can branch on.",
        },
        GlossaryTerm::ZoneAwareShader => GlossaryEntry {
            headline: "Zone-Aware Shader",
            body: "An FX preset whose behaviour adapts based on the zone tag \
                   of the layer it is applied to.  A zone-aware preset reads \
                   the tag at runtime and activates its effect only when the \
                   tag matches its target role; applying it to an untagged layer \
                   produces a neutral (transparent) output.",
        },
        GlossaryTerm::ZoneTag => GlossaryEntry {
            headline: "Zone Tag",
            body: "The semantic role attached to a mask polygon, chosen from \
                   the closed seven-role palette: Window, Portal, Void, Spill, \
                   Edge, Highlight, or Light Source.  Set the tag in the zone \
                   palette inside Mask mode.  Unlike Zone Template (a geometry \
                   shortcut for common polygon shapes), a Zone Tag is purely \
                   semantic — it does not change the polygon's shape.",
        },
        GlossaryTerm::SceneTemplate => GlossaryEntry {
            headline: "Scene Template",
            body: "A named, parameterised recipe that assembles media, zones, \
                   and FX presets into a ready-to-run scene.  Pick a template \
                   in the wizard, assign a few assets, and confirm — the scene \
                   is live in under a minute.",
        },
        GlossaryTerm::SceneGrammar => GlossaryEntry {
            headline: "Scene Grammar",
            body: "The structural vocabulary of a scene: which zone roles it \
                   binds, which media slots it accepts, and which FX presets it \
                   activates.  Every built-in template documents its grammar so \
                   the zone-mapping step is unambiguous.",
        },
        GlossaryTerm::Wizard => GlossaryEntry {
            headline: "Scene Wizard",
            body: "A guided multi-step flow for creating a scene from a \
                   template: template select → media → zone binding → palette \
                   → tempo → confirm.  Cancel at any step to return to the \
                   previous state; one Cmd-Z undoes the entire commit.",
        },
        GlossaryTerm::PaletteMood => GlossaryEntry {
            headline: "Palette",
            body: "A curated colour accent set (Warm, Cool, or Neutral) that \
                   templates apply to tint their output.  Warm leans amber and \
                   gold; Cool leans blue and cyan; Neutral leaves the source \
                   colours largely unchanged.",
        },
        GlossaryTerm::Mood => GlossaryEntry {
            headline: "Mood",
            body: "The emotional character of a scene template: Calm (gentle, \
                   slow motion), Energetic (fast, punchy), or Ethereal (soft, \
                   dreamy).  Templates use this to pre-select animation speed \
                   and particle density defaults.",
        },
        GlossaryTerm::TempoSync => GlossaryEntry {
            headline: "Tempo Sync",
            body: "Locks a template's animation speed to the project BPM so \
                   particle bursts, wave cycles, and wipe timings all fall on \
                   the beat.  Requires the BPM clock to be running; toggle \
                   off for freeform, non-musical scenes.",
        },
        GlossaryTerm::BezierHandles => GlossaryEntry {
            headline: "Bezier Handles",
            body: "Smooth-curve control handles for mask polygon edges that \
                   let operators draw arched window reveals and organic shapes \
                   without lots of vertices.  Bezier handles are planned for \
                   Phase 7; current masks use straight-edge polygons only.",
        },
        GlossaryTerm::WindowReveal => GlossaryEntry {
            headline: "Window Reveal",
            body: "A soft wash of light that flows through masks tagged as \
                   Window zones, evoking daylight filtering through a glass \
                   facade.  Assign a background image and tag your window \
                   masks to see the reveal animate across the surface.",
        },
        GlossaryTerm::PixelDrift => GlossaryEntry {
            headline: "Pixel Drift",
            body: "Fine particles drift slowly and quietly across the source \
                   media, giving a still photograph the feeling of faint \
                   movement without any visible direction or narrative.",
        },
        GlossaryTerm::CollagBloom => GlossaryEntry {
            headline: "Collage Bloom",
            body: "Composites four images in a 2×2 grid with particles \
                   blooming outward from each image edge.  Assign a different \
                   photo to each slot for maximum contrast between the cells.",
        },
        GlossaryTerm::GlowBehindOpenings => GlossaryEntry {
            headline: "Glow Behind Openings",
            body: "Fluid light pools inside masks tagged as Portal zones, \
                   suggesting that warm interior light is spilling through \
                   archways or doorways.  Intensity follows the fluid \
                   simulation viscosity slider.",
        },
        GlossaryTerm::FragmentedPortrait => GlossaryEntry {
            headline: "Fragmented Portrait",
            body: "A portrait image that shatters into fragment-like particles \
                   bouncing off the mask boundary.  Works best with a \
                   high-contrast portrait on a dark background.",
        },
        GlossaryTerm::ArchitecturalWash => GlossaryEntry {
            headline: "Architectural Wash",
            body: "A gentle ripple-wave wash that traces the edges of surfaces \
                   tagged as Edge zones — sills, reveals, and trims.  \
                   Upgrade of the v3 Architectural Wash FX preset; the \
                   underlying effect is unchanged, but this scene template \
                   adds media input and zone composition.",
        },
        GlossaryTerm::MaskEdgeRippleWashScene => GlossaryEntry {
            headline: "Mask-Edge Ripple Wash (Scene)",
            body: "The classic ripple-wash FX preset promoted to a full scene \
                   template for one-click setup.  No source media required — \
                   the effect generates its own visual content from the mask \
                   boundary alone.",
        },
        GlossaryTerm::LightSpillFromWindows => GlossaryEntry {
            headline: "Light Spill from Windows",
            body: "Light appears to leak outward from masks tagged as Window \
                   zones, as if an interior lamp is casting through the \
                   aperture onto the surrounding wall.  Assign an interior-\
                   light image to the media slot for the strongest effect.",
        },
        GlossaryTerm::DmxUniverse => GlossaryEntry {
            headline: "DMX Universe",
            body: "A 512-channel DMX data packet, the fundamental unit of \
                   lighting network traffic.  Each Art-Net or sACN packet \
                   carries one universe; fixtures are addressed by universe \
                   number + channel offset within that universe.",
        },
        GlossaryTerm::FixtureGroup => GlossaryEntry {
            headline: "Fixture Group",
            body: "A named collection of fixtures that share a personality \
                   (channel layout), DMX universe, and canvas sampling region.  \
                   rmap sends one DMX value per fixture in the group each \
                   frame, derived from the assigned canvas area.",
        },
        GlossaryTerm::PixelMap => GlossaryEntry {
            headline: "Pixel Map",
            body: "A grid of UV sample points spread across a canvas region.  \
                   rmap averages the pixel colours at each grid point and maps \
                   the result to the fixture group's DMX channels, letting \
                   physical lights chase the projected image in real time.",
        },
        GlossaryTerm::DmxTransport => GlossaryEntry {
            headline: "DMX Transport",
            body: "The network protocol used to carry DMX universe packets to \
                   fixtures.  Phase 5 ships Art-Net (UDP, port 6454); the \
                   transport abstraction lets Phase 7 add sACN (E1.31) without \
                   changing the fixture or canvas-sampling code.",
        },
        GlossaryTerm::ArtNetTransport => GlossaryEntry {
            headline: "Art-Net Transport",
            body: "The Phase 5 implementation of the DMX Transport that sends \
                   Art-Net ArtDmx PDUs over UDP to a configurable unicast or \
                   subnet-broadcast address on port 6454.  Compatible with \
                   Enttec, Artistic Licence, and most budget Art-Net nodes.",
        },
        GlossaryTerm::ChannelRole => GlossaryEntry {
            headline: "Channel Role",
            body: "The function of a single DMX channel within a fixture's \
                   footprint — Red, Green, or Blue in Phase 5.  rmap uses the \
                   channel map to write the correct colour byte to the correct \
                   DMX address; unknown roles are left at zero and will be \
                   extended in Phase 7.",
        },
        GlossaryTerm::ColorStrategy => GlossaryEntry {
            headline: "Colour Strategy",
            body: "How the sampled canvas pixel colour is converted to DMX byte \
                   values.  RGB Direct copies the pixel bytes unchanged.  HSV \
                   Intensity Gate dims all channels by the pixel's brightness \
                   so dark canvas areas fade the fixture toward black.  \
                   RGBW Fill is planned for Phase 7.",
        },
        GlossaryTerm::LightingTap => GlossaryEntry {
            headline: "Lighting Tap",
            body: "A 64×36 downsampled copy of the composited canvas rendered \
                   once per frame on the GPU and read back by the lighting \
                   thread.  The low resolution keeps readback bandwidth to \
                   under 10 KB per frame, leaving the render thread unaffected.",
        },
        GlossaryTerm::OutputStrategy => GlossaryEntry {
            headline: "Output Strategy",
            body: "The per-fixture-group setting that controls how canvas colour \
                   is translated to DMX values: RGB Direct for accurate colour \
                   reproduction, HSV Intensity Gate for brightness-following \
                   wash behaviour.  Additional strategies are planned for Phase 7.",
        },
        GlossaryTerm::Cue => GlossaryEntry {
            headline: "Cue",
            body: "A single entry in the cuelist: a saved scene snapshot plus \
                   per-cue timing (in-time, hold, out-time), fire mode (Follow \
                   or Go-on-trigger), BPM-bar quantize, and an optional timecode \
                   trigger position.",
        },
        GlossaryTerm::Cuelist => GlossaryEntry {
            headline: "Cuelist",
            body: "The ordered list of cues the operator steps through during a \
                   live show.  Navigate with ←/→ to arm the next cue and Space \
                   (or MIDI 60) to fire it.  Cues in Follow mode advance \
                   automatically without operator input.",
        },
        GlossaryTerm::ArmedNext => GlossaryEntry {
            headline: "Armed Next",
            body: "The next cue in the cuelist, highlighted with an amber ring in \
                   the cue strip and ready to fire on the next go command (Space / \
                   MIDI Note 60 / OSC /rmap/cue/go).  Move the arm with ←/→ \
                   without firing.",
        },
        GlossaryTerm::LiveCue => GlossaryEntry {
            headline: "Live Cue",
            body: "The cue currently playing or crossfading on the projector.  \
                   Shown with a \"LIVE\" badge on its tile and a progress ring \
                   during the in-time crossfade.  The live cue advances to the \
                   next cue on a go command or automatically in Follow mode.",
        },
        GlossaryTerm::FollowChain => GlossaryEntry {
            headline: "Follow Chain",
            body: "A sequence of cues whose fire mode is set to Follow — they \
                   advance automatically from one to the next after each cue's \
                   hold time expires, without operator input.  The chain halts \
                   at the first Go-on-trigger cue or when the list is exhausted.",
        },
        GlossaryTerm::GoOnTrigger => GlossaryEntry {
            headline: "Go-on-trigger",
            body: "A cue fire mode that pauses the follow chain and waits for an \
                   explicit go command (Space / MIDI Note 60 / OSC /rmap/cue/go) \
                   before advancing to the next cue.  Use this for cues that \
                   require the operator to confirm timing live.",
        },
        GlossaryTerm::FollowMode => GlossaryEntry {
            headline: "Follow (cue mode)",
            body: "A cue fire mode that fires the next cue automatically after the \
                   current cue's hold time expires, with no operator input required.  \
                   Chain multiple Follow-mode cues to build an auto-advancing \
                   sequence; the chain halts at the first Go-on-trigger cue.",
        },
        GlossaryTerm::InTime => GlossaryEntry {
            headline: "In-time",
            body: "The crossfade duration (seconds) from the previous cue's state \
                   into this cue's scene snapshot.  0.0 snaps instantly; values up \
                   to 60 s create a slow dissolve.  The progress ring on the live \
                   cue tile shows in-time completion.",
        },
        GlossaryTerm::HoldTime => GlossaryEntry {
            headline: "Hold time",
            body: "How long the cue stays fully live after its in-time completes \
                   before the transport can advance (seconds).  \"∞\" (no value) \
                   means hold indefinitely until a go command or timecode trigger \
                   fires.  Used with Follow mode to create timed auto-advance.",
        },
        GlossaryTerm::OutTime => GlossaryEntry {
            headline: "Out-time",
            body: "The crossfade duration (seconds) from this cue's scene as the \
                   next cue's in-time begins.  In most workflows this is 0 because \
                   the next cue's in-time handles the blend; set it non-zero when \
                   you want the outgoing cue to fade before the next one fades in.",
        },
        GlossaryTerm::BpmQuantize => GlossaryEntry {
            headline: "BPM Quantize",
            body: "Defers a cue's fire to the next 1 / 2 / 4 / 8-bar boundary at \
                   the current BPM instead of firing immediately on the go command.  \
                   The armed cue ring stays visible during the wait so the operator \
                   can see the pending fire.  Set to Off to fire on the exact \
                   trigger moment.",
        },
        GlossaryTerm::TimecodePosition => GlossaryEntry {
            headline: "Timecode Position",
            body: "An HH:MM:SS:FF timestamp (hours, minutes, seconds, frames) used \
                   as a cue trigger: when the incoming LTC or MTC timecode signal \
                   reaches this position the transport fires the cue automatically.  \
                   Requires a timecode source (LTC or MTC) to be active.",
        },
        GlossaryTerm::TransportHud => GlossaryEntry {
            headline: "Transport HUD",
            body: "The persistent on-screen panel showing live BPM value, the \
                   current tap source (Space / MIDI / OSC / MIDI Clock), the \
                   armed-next cue name and index, and a global BPM quantize \
                   override selector.  Always visible during Editing and Go-live \
                   states.",
        },
        GlossaryTerm::Ltc => GlossaryEntry {
            headline: "LTC (Linear Timecode)",
            body: "SMPTE 12M timecode carried as an audio-rate biphase-mark \
                   signal on a standard audio cable.  rmap decodes it via the \
                   `ltc` cargo feature (requires libltc) and uses the decoded \
                   HH:MM:SS:FF position to fire timecode-triggered cues within \
                   ±1 frame of the specified position.",
        },
        GlossaryTerm::Mtc => GlossaryEntry {
            headline: "MTC (MIDI Timecode)",
            body: "MIDI Timecode: eight quarter-frame MIDI messages (status 0xF1) \
                   sent by a DAW or hardware sequencer that assemble into a full \
                   HH:MM:SS:FF timecode position.  Decoded inside the MIDI bus \
                   (no extra feature gate) and used to fire timecode-triggered \
                   cues.",
        },
        GlossaryTerm::MidiClock => GlossaryEntry {
            headline: "MIDI Clock",
            body: "MIDI timing clock: 24 pulses per quarter note sent as status \
                   0xF8 messages.  rmap derives a rolling BPM average from the \
                   inter-pulse timing and uses it as an alternative tap source \
                   alongside Space, MIDI Note 60, and OSC /rmap/tap.",
        },
        GlossaryTerm::Syphon => GlossaryEntry {
            headline: "Syphon",
            body: "macOS inter-application video sharing protocol.  A Syphon \
                   server publishes a texture by name; any Syphon client on the \
                   same machine — OBS, VDMX, Resolume Arena, Millumin — can \
                   subscribe to it without a capture card or network hop.",
        },
        GlossaryTerm::SyphonOutput => GlossaryEntry {
            headline: "Syphon Output",
            body: "When enabled, rmap publishes its composited projector output \
                   as a Syphon source named \"rmap – <project name>\".  Toggle \
                   it in the Output panel; OBS or another Syphon client will see \
                   it in its source picker immediately.",
        },
        GlossaryTerm::CalibrationFile => GlossaryEntry {
            headline: "Calibration File",
            body: "A `.rmap-calibration.json` file that stores the warp mesh, \
                   mask polygon, gamma curve, and display identity for a physical \
                   venue.  Saved once per venue; loaded alongside any show file so \
                   the geometry is always correct without editing the show itself.",
        },
        GlossaryTerm::SurfaceSlot => GlossaryEntry {
            headline: "Surface Slot",
            body: "A logical projector output identified by a stable UUID inside \
                   the calibration file.  The show file's OutputTarget binds to \
                   a surface slot at load time; if the IDs don't match rmap falls \
                   back to an identity warp and shows an audit warning.",
        },
        GlossaryTerm::VenueCalibration => GlossaryEntry {
            headline: "Venue Calibration",
            body: "The complete set of per-surface geometric and colour corrections \
                   (warp, mask, gamma) for a physical installation.  Venue \
                   calibration travels with the room, not the show: one calibration \
                   file works with every show file designed for that venue.",
        },
        GlossaryTerm::BezierWarp => GlossaryEntry {
            headline: "Bezier Warp",
            body: "A warp mesh whose row and column edges are cubic Bezier curves \
                   rather than straight lines.  Pull the tangent handles on any \
                   anchor point to bow a single edge, enabling smooth wrapping on \
                   columns, arches, and organic architectural shapes.",
        },
        GlossaryTerm::Anchor => GlossaryEntry {
            headline: "Anchor",
            body: "A corner point of the Bezier warp mesh that lies exactly on the \
                   projection surface.  Drag an anchor in Anchor mode to reposition \
                   it and its attached tangent handles together; the corner point \
                   itself is always on the surface.",
        },
        GlossaryTerm::TangentHandle => GlossaryEntry {
            headline: "Tangent Handle",
            body: "A control point connected to an anchor by a thin line.  Dragging \
                   the handle bows the adjacent Bezier edge without moving the \
                   anchor.  In Tangent mode the two handles of a smooth pair mirror \
                   each other; hold Shift to break symmetry for a cusp corner.",
        },
        GlossaryTerm::InverseMask => GlossaryEntry {
            headline: "Inverse Mask",
            body: "Flips the mask so the region that was blocked becomes revealed \
                   and the region that was visible becomes blocked.  Toggle \
                   \"Inverse\" in the Mask sub-row; undo restores the previous \
                   state.",
        },
        GlossaryTerm::LumaKey => GlossaryEntry {
            headline: "Luma Key",
            body: "Derives the mask alpha from the brightness of the rendered \
                   output: pixels above the threshold become opaque; pixels below \
                   become transparent (or the reverse when Inverse is also active).  \
                   Adjust the Threshold and Softness sliders in the Mask panel.",
        },
        GlossaryTerm::ChromaKey => GlossaryEntry {
            headline: "Chroma Key",
            body: "Removes a specific hue range from the rendered output by setting \
                   those pixels to transparent — the classic green-screen technique.  \
                   Set the Hue Centre, Hue Range, Saturation Threshold, and Softness \
                   in the Mask panel; works on any colour, not just green.",
        },
        GlossaryTerm::Rgbw => GlossaryEntry {
            headline: "RGBW",
            body: "A four-channel DMX colour model (Red, Green, Blue, White) \
                   used by warm-white architectural LED fixtures.  rmap extracts \
                   the white component from the sampled canvas colour using the \
                   fixture group's CCT, reducing colour noise at high intensities \
                   compared with driving the white channel from raw pixel data.",
        },
        GlossaryTerm::ColourTemperature => GlossaryEntry {
            headline: "Colour Temperature",
            body: "The Kelvin value describing the warmth or coolness of a light \
                   source.  2700 K is warm amber (like an incandescent lamp); \
                   6500 K is cool blue-white (like daylight).  Set the colour \
                   temperature of an RGBW fixture group to match the physical \
                   fixture spec so the White channel renders correctly.",
        },
        GlossaryTerm::Cct => GlossaryEntry {
            headline: "CCT (Correlated Colour Temperature)",
            body: "Short for Correlated Colour Temperature: the Kelvin value that \
                   best describes the white point of a light source.  rmap uses the \
                   CCT setting on an RGBW fixture group to compute how much of the \
                   sampled canvas colour flows into the White DMX channel versus \
                   the Red, Green, and Blue channels.",
        },
        GlossaryTerm::ScenePack => GlossaryEntry {
            headline: "Scene Pack",
            body: "A portable `.rmap-scene-pack.zip` archive containing one or more \
                   scene templates and their referenced assets (images, SVGs, FX \
                   presets).  Export a scene pack from the layer context menu; \
                   import it via File > Import Scene Pack to make its templates \
                   available in the Preset Browser.",
        },
        GlossaryTerm::EdgeBlendGradient => GlossaryEntry {
            headline: "Edge-Blend Gradient",
            body: "A calibration verify pattern that fades from fully opaque to \
                   transparent across a configurable screen edge and blend width.  \
                   Used to set up and verify the overlap zone between two adjacent \
                   projectors; deactivate when the show is running.",
        },
        GlossaryTerm::CalibrationVerify => GlossaryEntry {
            headline: "Calibration Verify",
            body: "A full-screen test pattern (alignment cross, dot grid, colour \
                   bars, edge-blend gradient, focus chart, or geometry grid) \
                   rendered over the projector output to verify warp accuracy, \
                   colour, and focus.  Select a pattern in the Output panel's \
                   Verify section; deactivate to return to the show.",
        },
        GlossaryTerm::FxFamilySourceModifier => GlossaryEntry {
            headline: "Source-Modifying FX",
            body: "A class of FX preset that reads the underlying layer image \
                   and writes a modified version — warping, lensing, brightening, \
                   or smearing the photo — rather than painting its own pixels on \
                   top.  Distinct from generative overlays like ripple wash or \
                   edge emission.",
        },
        GlossaryTerm::EffectTreatment => GlossaryEntry {
            headline: "Treatment (per-layer)",
            body: "An effect-chain variant that runs a single treatment preset \
                   (tone map, displacement ripple, refraction, palette extract, \
                   collage, etc.) on one layer only, rather than as a global \
                   pass over the composited frame.  Lets you grade or warp one \
                   layer while others remain untouched.",
        },
        GlossaryTerm::EffectFeedback => GlossaryEntry {
            headline: "Feedback / Trails",
            body: "An effect that blends the previous frame's layer output back \
                   into the current frame, producing trails, echoes, and motion \
                   smear.  Decay controls trail length; offset adds directional \
                   motion-trail.  Decay is modulator-driven so the trail can \
                   pulse with audio or MIDI.",
        },
        GlossaryTerm::EffectTint => GlossaryEntry {
            headline: "Tint",
            body: "A colour-mixing effect with three modes: multiply (proper tint \
                   that darkens toward the chosen colour), additive (wash that \
                   lightens), and screen.  The amount slider is modulator-driven \
                   so the tint can pulse with audio or MIDI input.",
        },
        GlossaryTerm::MaskNodeUnion => GlossaryEntry {
            headline: "Mask Union",
            body: "A mask-graph operation that combines two mask polygons so the \
                   result covers either region — the Boolean union of overlapping \
                   shapes.  Use it when you want one logical mask out of two \
                   separately drawn polygons.",
        },
        GlossaryTerm::MaskNodeSubtract => GlossaryEntry {
            headline: "Mask Subtract",
            body: "A mask-graph operation that cuts the second polygon out of the \
                   first, leaving the area the first mask covers minus the area \
                   the second mask covers.  Useful for window-with-mullion shapes \
                   and other 'hole through' geometry.",
        },
        GlossaryTerm::FluidWarp => GlossaryEntry {
            headline: "Fluid Warp",
            body: "Source-modifying preset: runs a 2D fluid simulation inside \
                   the mask, displacing the underlying photo by the velocity \
                   field.  The image flows like water; amplitude scales the \
                   distortion.  Mask-bounded — fluid never leaks outside the \
                   shape.",
        },
        GlossaryTerm::RippleLens => GlossaryEntry {
            headline: "Ripple Lens",
            body: "Source-modifying preset: concentric rings from the mask edge \
                   act as refraction lenses, bulging and contracting the \
                   underlying image in bands.  Optional chromatic split per ring \
                   gives a chromatic-aberration look.",
        },
        GlossaryTerm::EdgeLens => GlossaryEntry {
            headline: "Edge Lens",
            body: "Source-modifying preset: four traveling refraction bumps orbit \
                   the mask edge, distorting the image at each crest and letting \
                   it recover between them — a 'force field' look without any \
                   overlay geometry.",
        },
        GlossaryTerm::FluidWarpFull => GlossaryEntry {
            headline: "Fluid Warp (Full)",
            body: "Source-modifying preset: like Fluid Warp but unbounded — the \
                   underlying photo flows across the entire layer, not just \
                   inside the mask.  Pair with Fluid Warp on a sibling layer for \
                   'fluid inside, calm outside' compositions.",
        },
        GlossaryTerm::Spotlights => GlossaryEntry {
            headline: "Spotlights",
            body: "Source-modifying preset: each particle becomes a soft Gaussian \
                   brightener that lifts source-pixel luminance in its radius.  \
                   The underlying photo stays visible everywhere; particles light \
                   it up rather than painting on top.",
        },
        GlossaryTerm::DriftPinholes => GlossaryEntry {
            headline: "Drift Pinholes",
            body: "Source-modifying preset: white-dot particles drift inside the \
                   mask, but instead of being opaque dots each one is a pinhole \
                   through which the underlying photo is visible.  The layer \
                   becomes a moving stencil of the image.",
        },
        GlossaryTerm::EdgeSparks => GlossaryEntry {
            headline: "Edge Sparks",
            body: "Source-modifying preset: particles fly outward from the mask \
                   edge and each one additively lifts the underlying source's \
                   luminance in a soft radius — sparks light up the photo rather \
                   than overlaying opaque dots.",
        },
        GlossaryTerm::FieldAdvectSource => GlossaryEntry {
            headline: "Field Advect Source",
            body: "Source-modifying preset: uses the mask SDF gradient field to \
                   advect the underlying photo along the mask normals over time.  \
                   No visible particles — the gradient acts on the image \
                   directly.",
        },
        GlossaryTerm::CollisionRipples => GlossaryEntry {
            headline: "Collision Ripples",
            body: "Source-modifying preset: particles bounce inside the mask, and \
                   each collision event injects a small ripple into a \
                   displacement field that warps the underlying photo — physical \
                   interaction between simulation and image.",
        },
        GlossaryTerm::ZoneBrighten => GlossaryEntry {
            headline: "Zone Brighten",
            body: "Source-modifying preset: like Zone Light Spill but instead of \
                   adding a warm colour overlay, multiplicatively lifts the \
                   luminance of source pixels in the spill region.  Same falloff \
                   curve, more grounded look.",
        },
        GlossaryTerm::ZoneLens => GlossaryEntry {
            headline: "Zone Lens",
            body: "Source-modifying preset: displaces the underlying photo's UV \
                   in a thin band at the zone edge, so the image warps when you \
                   cross through the zone perimeter.  Rest of the layer remains \
                   untouched.",
        },
        GlossaryTerm::PortalWarp => GlossaryEntry {
            headline: "Portal Warp",
            body: "Source-modifying preset: particles drift through portal zones \
                   (doorways, openings) and each one displaces source pixels in \
                   its radius — produces a 'ghost moving through the room' \
                   effect on a photo of the room.",
        },
    }
}

/// All glossary terms in display order: the single source of truth for
/// The in-app Glossary window.
pub fn all_terms() -> (r: &'static [GlossaryTerm])
    ensures
        r@.len() == 147,
        forall|t: GlossaryTerm| #[trigger] r@[term_position(t)] == t,
{
    &[
        GlossaryTerm::Warp,
        GlossaryTerm::MaskPolygon,
        GlossaryTerm::Modulator,
        GlossaryTerm::Gamma,
        GlossaryTerm::Brightness,
        GlossaryTerm::Contrast,
        GlossaryTerm::BlendMode,
        GlossaryTerm::Crossfade,
        GlossaryTerm::Scene,
        GlossaryTerm::ZoneTemplate,
        GlossaryTerm::Blackout,
        GlossaryTerm::Freeze,
        GlossaryTerm::TestPattern,
        GlossaryTerm::EditorOverlay,
        GlossaryTerm::Effect,
        GlossaryTerm::FitMode,
        GlossaryTerm::MaskFeather,
        GlossaryTerm::GridDetail,
        GlossaryTerm::Opacity,
        GlossaryTerm::DisplayOverride,
        GlossaryTerm::FxLayer,
        GlossaryTerm::NdiSource,
        GlossaryTerm::EdgeBlendRegion,
        GlossaryTerm::RgbMatrix,
        GlossaryTerm::MidiLearn,
        GlossaryTerm::DroppedFrames,
        GlossaryTerm::Treatment,
        GlossaryTerm::ToneMap,
        GlossaryTerm::BlurMask,
        GlossaryTerm::LuminanceReveal,
        GlossaryTerm::TextureOverlay,
        GlossaryTerm::PaletteExtract,
        GlossaryTerm::Collage,
        GlossaryTerm::FocalPoint,
        GlossaryTerm::InOutPoints,
        GlossaryTerm::LoopMode,
        GlossaryTerm::BpmLockedPlayback,
        GlossaryTerm::ReversePlayback,
        GlossaryTerm::ThumbnailScrub,
        GlossaryTerm::Particle,
        GlossaryTerm::ForceField,
        GlossaryTerm::FluidSim,
        GlossaryTerm::PresetLibrary,
        GlossaryTerm::MaskConstrained,
        GlossaryTerm::EmitterMasking,
        GlossaryTerm::SdfNormal,
        GlossaryTerm::DisplacementPreset,
        GlossaryTerm::RefractionPreset,
        GlossaryTerm::WavePreset,
        GlossaryTerm::ParticleBudget,
        GlossaryTerm::SeedDeterminism,
        GlossaryTerm::EffectChainReorder,
        GlossaryTerm::UserPreset,
        GlossaryTerm::BuiltInPreset,
        GlossaryTerm::MaskEdgeRippleWash,
        GlossaryTerm::MaskEdgeWaveWash,
        GlossaryTerm::MaskConstrainedDrift,
        GlossaryTerm::MaskEdgeEmission,
        GlossaryTerm::MaskFieldFlow,
        GlossaryTerm::MaskCollisionReflection,
        GlossaryTerm::MaskBoundedFluid,
        GlossaryTerm::DisplacementRipple,
        GlossaryTerm::Refraction,
        GlossaryTerm::ZoneRoleWindow,
        GlossaryTerm::ZoneRolePortal,
        GlossaryTerm::ZoneRoleVoid,
        GlossaryTerm::ZoneRoleSpill,
        GlossaryTerm::ZoneRoleEdge,
        GlossaryTerm::ZoneRoleHighlight,
        GlossaryTerm::ZoneRoleLightSource,
        GlossaryTerm::ZoneAwareShader,
        GlossaryTerm::ZoneTag,
        GlossaryTerm::SceneTemplate,
        GlossaryTerm::SceneGrammar,
        GlossaryTerm::Wizard,
        GlossaryTerm::PaletteMood,
        GlossaryTerm::Mood,
        GlossaryTerm::TempoSync,
        GlossaryTerm::BezierHandles,
        GlossaryTerm::WindowReveal,
        GlossaryTerm::PixelDrift,
        GlossaryTerm::CollagBloom,
        GlossaryTerm::GlowBehindOpenings,
        GlossaryTerm::FragmentedPortrait,
        GlossaryTerm::ArchitecturalWash,
        GlossaryTerm::MaskEdgeRippleWashScene,
        GlossaryTerm::LightSpillFromWindows,
        GlossaryTerm::DmxUniverse,
        GlossaryTerm::FixtureGroup,
        GlossaryTerm::PixelMap,
        GlossaryTerm::DmxTransport,
        GlossaryTerm::ArtNetTransport,
        GlossaryTerm::ChannelRole,
        GlossaryTerm::ColorStrategy,
        GlossaryTerm::LightingTap,
        GlossaryTerm::OutputStrategy,
        GlossaryTerm::Cue,
        GlossaryTerm::Cuelist,
        GlossaryTerm::ArmedNext,
        GlossaryTerm::LiveCue,
        GlossaryTerm::FollowChain,
        GlossaryTerm::GoOnTrigger,
        GlossaryTerm::FollowMode,
        GlossaryTerm::InTime,
        GlossaryTerm::HoldTime,
        GlossaryTerm::OutTime,
        GlossaryTerm::BpmQuantize,
        GlossaryTerm::TimecodePosition,
        GlossaryTerm::TransportHud,
        GlossaryTerm::Ltc,
        GlossaryTerm::Mtc,
        GlossaryTerm::MidiClock,
        GlossaryTerm::Syphon,
        GlossaryTerm::SyphonOutput,
        GlossaryTerm::CalibrationFile,
        GlossaryTerm::SurfaceSlot,
        GlossaryTerm::VenueCalibration,
        GlossaryTerm::BezierWarp,
        GlossaryTerm::Anchor,
        GlossaryTerm::TangentHandle,
        GlossaryTerm::InverseMask,
        GlossaryTerm::LumaKey,
        GlossaryTerm::ChromaKey,
        GlossaryTerm::Rgbw,
        GlossaryTerm::ColourTemperature,
        GlossaryTerm::Cct,
        GlossaryTerm::ScenePack,
        GlossaryTerm::EdgeBlendGradient,
        GlossaryTerm::CalibrationVerify,
        GlossaryTerm::FxFamilySourceModifier,
        GlossaryTerm::EffectTreatment,
        GlossaryTerm::EffectFeedback,
        GlossaryTerm::EffectTint,
        GlossaryTerm::MaskNodeUnion,
        GlossaryTerm::MaskNodeSubtract,
        GlossaryTerm::FluidWarp,
        GlossaryTerm::RippleLens,
        GlossaryTerm::EdgeLens,
        GlossaryTerm::FluidWarpFull,
        GlossaryTerm::Spotlights,
        GlossaryTerm::DriftPinholes,
        GlossaryTerm::EdgeSparks,
        GlossaryTerm::FieldAdvectSource,
        GlossaryTerm::CollisionRipples,
        GlossaryTerm::ZoneBrighten,
        GlossaryTerm::ZoneLens,
        GlossaryTerm::PortalWarp,
    ]
}

/// Every term's position lies inside the display list, and distinct terms
/// Sit at distinct positions; together with [`all_terms`] this says the
/// List names every term exactly once.
pub proof fn lemma_positions_in_range(t: GlossaryTerm)
    ensures
        0 <= term_position(t) < 147,
{
}

/// Every glossary entry carries copy: a non-empty headline and a body of
/// More than twenty characters.
pub proof fn lemma_every_entry_has_copy(t: GlossaryTerm)
    ensures
        glossary_headline(t).len() > 0,
        glossary_body(t).len() > 20,
{
    match t {
        GlossaryTerm::Warp => {
            reveal_strlit("Warp");
            reveal_strlit("Per-layer corner-pin quad that places the layer on the projector. \
                   Each corner is a point in projector space; drag a corner to \
                   move/resize/distort the layer on the wall directly. Increase \
                   rows × cols (Advanced → Mapping) for finer mesh control.");
        },
        GlossaryTerm::MaskPolygon => {
            reveal_strlit("Mask Polygon");
            reveal_strlit("A polygon drawn over the layer that blocks the image outside its \
                   boundary.  Use it to hide parts of the projection that fall on \
                   surfaces you don't want lit (doors, windows, pillars).");
        },
        GlossaryTerm::Modulator => {
            reveal_strlit("Modulator");
            reveal_strlit("How a parameter changes over time.  \
                   `Static` holds a fixed value; `Sine`, `Sawtooth`, `Square`, \
                   `Random`, and `Bound` animate it on a repeating cycle.");
        },
        GlossaryTerm::Gamma => {
            reveal_strlit("Gamma");
            reveal_strlit("Overall brightness curve of the output.  \
                   Values above 1.0 lift the midtones (brighter); \
                   below 1.0 they darken.  Start at 1.0 and nudge if \
                   the projector looks washed-out or too dark.");
        },
        GlossaryTerm::Brightness => {
            reveal_strlit("Brightness");
            reveal_strlit("Additive offset applied to every pixel after gamma.  \
                   Positive values push towards white; negative values \
                   push towards black.  0.0 leaves the image unchanged.");
        },
        GlossaryTerm::Contrast => {
            reveal_strlit("Contrast");
            reveal_strlit("Stretches the range between dark and bright.  \
                   1.0 is unchanged; higher values increase separation \
                   between shadows and highlights.");
        },
        GlossaryTerm::BlendMode => {
            reveal_strlit("Blend Mode");
            reveal_strlit("How a layer's pixels combine with the layers below it.  \
                   Normal overwrites; Add makes bright areas brighter (good for \
                   fire / glow); Multiply darkens; Screen is similar to Add but \
                   gentler with very bright content.");
        },
        GlossaryTerm::Crossfade => {
            reveal_strlit("Crossfade");
            reveal_strlit("Smooth transition between two scenes.  The duration controls \
                   how many seconds the blend takes to complete.");
        },
        GlossaryTerm::Scene => {
            reveal_strlit("Scene");
            reveal_strlit("A saved snapshot of all layer content, positions, and settings.  \
                   Switch scenes mid-show to jump between prepared looks.");
        },
        GlossaryTerm::ZoneTemplate => {
            reveal_strlit("Zone Template");
            reveal_strlit("A preset mask polygon shape (full, left half, right half, \
                   top/bottom split, etc.) that you can apply in one click instead \
                   of drawing vertices manually.");
        },
        GlossaryTerm::Blackout => {
            reveal_strlit("Blackout");
            reveal_strlit("Cuts the projector output to black instantly.  \
                   The show continues running in the background; \
                   press again to restore.");
        },
        GlossaryTerm::Freeze => {
            reveal_strlit("Freeze");
            reveal_strlit("Holds the last rendered frame on the projector while the \
                   control window keeps updating.  Useful for swapping content \
                   without the audience seeing the edit.");
        },
        GlossaryTerm::TestPattern => {
            reveal_strlit("Test Pattern");
            reveal_strlit("Replaces the projector output with a calibration source.  \
                   Cycle through patterns to check focus, geometry, corner \
                   alignment, and (P0.7.4) two-projector edge-blend overlap \
                   via the alignment cross + edge-blend gradient patterns.");
        },
        GlossaryTerm::EditorOverlay => {
            reveal_strlit("Editor Overlay");
            reveal_strlit("Draws warp-grid handles and mask-polygon vertices on the \
                   projector output.  Toggle off during a live show so the \
                   audience never sees editing chrome.");
        },
        GlossaryTerm::Effect => {
            reveal_strlit("Effect");
            reveal_strlit("A real-time filter applied to a single layer \
                   (e.g. Transform moves/scales, others tint or distort).  \
                   Effects stack in order; drag to reorder.");
        },
        GlossaryTerm::FitMode => {
            reveal_strlit("Fit Mode");
            reveal_strlit("How the layer's source image fills its bounding rectangle.  \
                   `Stretch` fills exactly; `Contain` letterboxes; \
                   `Cover` crops to fill with no bars.");
        },
        GlossaryTerm::MaskFeather => {
            reveal_strlit("Mask Feather");
            reveal_strlit("Soft fade at the edge of the mask polygon.  \
                   0 = hard edge; values up to about 0.5 produce a \
                   useful graduated blend between lit and dark.");
        },
        GlossaryTerm::GridDetail => {
            reveal_strlit("Grid Detail");
            reveal_strlit("How many cells make up the warp mesh (rows × columns).  \
                   More cells allow finer local warps but add more control \
                   points to align (see Warp).");
        },
        GlossaryTerm::Opacity => {
            reveal_strlit("Opacity");
            reveal_strlit("Overall transparency of the layer: 1.0 is fully opaque, \
                   0.0 is invisible.  Useful for subtle overlays or \
                   for fading content in and out.");
        },
        GlossaryTerm::DisplayOverride => {
            reveal_strlit("Display Override");
            reveal_strlit("Optional per-projector gamma / brightness / contrast that \
                   replaces the master values for the projector output only.  \
                   Tune the master for what looks right on your laptop, then \
                   set the override for what looks right on the wall.");
        },
        GlossaryTerm::FxLayer => {
            reveal_strlit("FX Layer");
            reveal_strlit("A layer whose visual content is generated from its mask \
                   rather than from media.  v0.4 ships a single proof-point \
                   preset (mask-edge ripple wash); the full library of \
                   particle / wave / fluid presets lands in Phase 2.");
        },
        GlossaryTerm::NdiSource => {
            reveal_strlit("NDI Source");
            reveal_strlit("A live video stream received over the network from another \
                   machine (e.g. an OBS instance).  v0.4 supports NDI as input \
                   only; output (Phase 7) lets other apps consume rmap's render.");
        },
        GlossaryTerm::EdgeBlendRegion => {
            reveal_strlit("Edge-Blend Region");
            reveal_strlit("The overlap zone between two projectors where image \
                   brightness is feathered so the seam between the two beams \
                   becomes invisible.  Configure overlap width and falloff \
                   curve per edge.");
        },
        GlossaryTerm::RgbMatrix => {
            reveal_strlit("RGB Matrix");
            reveal_strlit("A 3×3 colour-correction matrix applied per-projector at \
                   present time, after gamma / brightness / contrast.  Use it \
                   to compensate for differences in projector colour response \
                   when two projectors share the same canvas.");
        },
        GlossaryTerm::MidiLearn => {
            reveal_strlit("MIDI Learn");
            reveal_strlit("Right-click any parameter and pick \"Learn next MIDI CC\".  \
                   The next incoming control-change message binds to that \
                   parameter; press ESC to cancel before a CC arrives.");
        },
        GlossaryTerm::DroppedFrames => {
            reveal_strlit("Dropped Frames");
            reveal_strlit("How many audio / video / NDI frames the renderer had to \
                   discard because a bounded queue was full.  A non-zero \
                   value during a show means a producer is outpacing the \
                   render thread; investigate before it becomes visible \
                   on the projector.");
        },
        GlossaryTerm::Treatment => {
            reveal_strlit("Treatment");
            reveal_strlit("A named image-grammar preset applied to an Image or Video \
                   layer before the per-pixel effect chain.  Picks one preset \
                   per layer (tone map, blur mask, luminance reveal, etc.); \
                   parameters tune the look without exposing dozens of \
                   sliders.");
        },
        GlossaryTerm::ToneMap => {
            reveal_strlit("Tone Map");
            reveal_strlit("S-curve exposure + contrast + highlight-rolloff applied \
                   per layer.  Lifts shadows and softens blown highlights so \
                   mixed-light footage matches the rest of the scene without \
                   touching the master gamma slider.");
        },
        GlossaryTerm::BlurMask => {
            reveal_strlit("Blur Mask");
            reveal_strlit("Gaussian blur gated by the layer's mask SDF: pixels near \
                   the mask edge get heavy blur, pixels deep inside stay \
                   sharp.  Feathers a photo's silhouette into the background \
                   without losing detail in the centre.");
        },
        GlossaryTerm::LuminanceReveal => {
            reveal_strlit("Luminance Reveal");
            reveal_strlit("Pixels brighter than the threshold show; everything else \
                   becomes transparent.  A soft band around the threshold \
                   smooths the cut.  Useful for keying out dark backgrounds \
                   without a proper chroma key (Phase 7).");
        },
        GlossaryTerm::TextureOverlay => {
            reveal_strlit("Texture Overlay");
            reveal_strlit("A second image multiplies into the source — paper grain, \
                   noise, film texture, sky gradient.  Pick the overlay file \
                   via the preset; opacity + tint tune how much of the \
                   overlay's colour reaches the result.");
        },
        GlossaryTerm::PaletteExtract => {
            reveal_strlit("Palette Extract");
            reveal_strlit("Posterises the source down to a few colours derived from \
                   the image itself (median-cut at layer load; video uses \
                   the first decoded frame).  Dither smooths transitions; \
                   vibrance exaggerates the extracted palette's saturation.");
        },
        GlossaryTerm::Collage => {
            reveal_strlit("Collage");
            reveal_strlit("Composites up to four images on one layer in a grid \
                   (1×2, 2×1, or 2×2).  Spacing creates visible gaps between \
                   cells.  Richer authored compositions land alongside scene \
                   grammars in Phase 4.");
        },
        GlossaryTerm::FocalPoint => {
            reveal_strlit("Focal Point");
            reveal_strlit("When the layer's fit mode is Cover, the focal point is \
                   the normalised position the crop centres on.  Click the \
                   preview thumbnail to anchor it on the subject (e.g. a \
                   face) so resizing the layer keeps the subject in frame.");
        },
        GlossaryTerm::InOutPoints => {
            reveal_strlit("In / Out Points");
            reveal_strlit("Trim a video clip to play only between two timestamps. \
                   Seamless-loop wraps from the out-point back to the in-\
                   point instead of clip 0 → end.  Drag the markers on the \
                   scrub bar to set them.");
        },
        GlossaryTerm::LoopMode => {
            reveal_strlit("Loop Mode");
            reveal_strlit("What happens when a video clip reaches its out-point.  \
                   Once stops on the last frame; Loop wraps to the in-point; \
                   PingPong alternates forward and reverse on each end.");
        },
        GlossaryTerm::BpmLockedPlayback => {
            reveal_strlit("BPM-Locked Playback");
            reveal_strlit("Locks the clip's playback rate to the current BPM so the \
                   clip plays exactly N beats per loop.  Tap-tempo changes \
                   propagate to the rate on the next frame without re-\
                   encoding.");
        },
        GlossaryTerm::ReversePlayback => {
            reveal_strlit("Reverse Playback");
            reveal_strlit("Negative speed plays the clip backwards.  v0.5 uses a \
                   pre-decoded keyframe cache (capped at 30-second clips); \
                   longer clips fall back to forward playback at the \
                   absolute rate with a hint.");
        },
        GlossaryTerm::ThumbnailScrub => {
            reveal_strlit("Thumbnail Scrub");
            reveal_strlit("A timeline strip showing pre-decoded mini-frames from the \
                   clip.  Hover to preview a position; click to seek the \
                   playhead there.  Drag the edges to set in/out points.");
        },
        GlossaryTerm::Particle => {
            reveal_strlit("Particle");
            reveal_strlit("A single GPU-simulated sprite that moves, fades, and \
                   disappears over its lifetime.  Hundreds of thousands run \
                   in parallel on the GPU; the Particle Budget slider caps \
                   the count to match your hardware.");
        },
        GlossaryTerm::ForceField => {
            reveal_strlit("Force Field");
            reveal_strlit("A directional volume that pushes or pulls particles passing \
                   through it.  Combine several overlapping fields to build \
                   wind, vortex, or gravity effects without touching individual \
                   particle settings.");
        },
        GlossaryTerm::FluidSim => {
            reveal_strlit("Fluid Sim");
            reveal_strlit("A velocity-field simulation that makes particles swirl and \
                   flow like smoke or ink.  Viscosity and diffusion sliders \
                   control whether the motion looks like water, fog, or thick \
                   paint.");
        },
        GlossaryTerm::PresetLibrary => {
            reveal_strlit("Preset Library");
            reveal_strlit("The browsable panel showing all built-in and saved FX \
                   presets.  Click a preset to apply it to the selected FX \
                   Layer; use the star to pin favourites to the top.");
        },
        GlossaryTerm::MaskConstrained => {
            reveal_strlit("Mask-Constrained");
            reveal_strlit("An effect or emitter whose output is clipped to the layer's \
                   mask polygon.  Particles or distortions that cross the \
                   boundary are removed, keeping the look tidy on irregular \
                   surfaces.");
        },
        GlossaryTerm::EmitterMasking => {
            reveal_strlit("Emitter Masking");
            reveal_strlit("Uses the layer's mask polygon as the spawn surface for \
                   particles.  New particles appear along the mask edge or \
                   inside its filled area depending on the preset's emitter \
                   mode.");
        },
        GlossaryTerm::SdfNormal => {
            reveal_strlit("SDF Normal");
            reveal_strlit("The outward-pointing direction at any point on the mask \
                   boundary, computed from its signed-distance field.  Presets \
                   use this to shoot particles or waves perpendicular to the \
                   mask edge without manual direction tuning.");
        },
        GlossaryTerm::DisplacementPreset => {
            reveal_strlit("Displacement Preset");
            reveal_strlit("A preset family that pushes pixels outward from the mask \
                   boundary using a wave or ripple offset.  Strength and \
                   frequency sliders control how far pixels shift and how \
                   quickly the wave cycles.");
        },
        GlossaryTerm::RefractionPreset => {
            reveal_strlit("Refraction Preset");
            reveal_strlit("A preset family that bends the layer image at the mask \
                   boundary as if viewed through glass or water.  Index and \
                   blur sliders control the strength of the lens effect.");
        },
        GlossaryTerm::WavePreset => {
            reveal_strlit("Wave Preset");
            reveal_strlit("A preset family that propagates oscillating patterns outward \
                   from the mask edge.  Speed, amplitude, and wavelength \
                   sliders let you tune it from a gentle shimmer to a heavy \
                   ripple.");
        },
        GlossaryTerm::ParticleBudget => {
            reveal_strlit("Particle Budget");
            reveal_strlit("The maximum number of live particles allowed on this layer \
                   at once.  Lower the budget if you see dropped frames; raise \
                   it for denser effects when headroom is available.  Changes \
                   take effect on the next spawn cycle.");
        },
        GlossaryTerm::SeedDeterminism => {
            reveal_strlit("Seed (Determinism)");
            reveal_strlit("A numeric value that locks a preset's random noise to a \
                   fixed sequence.  Two shows with the same seed look \
                   identical.  Change the seed to get a different-but-\
                   repeatable variation of the same preset.");
        },
        GlossaryTerm::EffectChainReorder => {
            reveal_strlit("Effect-Chain Reorder");
            reveal_strlit("Drag an effect card up or down in the effect chain to change \
                   the order effects are applied.  Order matters: a blur before \
                   a colour shift produces a different result than the reverse.");
        },
        GlossaryTerm::UserPreset => {
            reveal_strlit("User Preset");
            reveal_strlit("An FX preset you saved from your own parameter tweaks.  \
                   User presets appear in the Preset Library alongside built-in \
                   ones; export them to share with other operators.");
        },
        GlossaryTerm::BuiltInPreset => {
            reveal_strlit("Built-In Preset");
            reveal_strlit("A factory preset shipped with the application that cannot be \
                   deleted.  Built-in presets are a starting point; duplicate \
                   one to create an editable user preset.");
        },
        GlossaryTerm::MaskEdgeRippleWash => {
            reveal_strlit("Mask-Edge Ripple Wash");
            reveal_strlit("Spawns a continuous wash of particles along the mask \
                   boundary, flowing outward as a ripple.  Speed and density \
                   sliders tune how fast and thick the wash appears.");
        },
        GlossaryTerm::MaskEdgeWaveWash => {
            reveal_strlit("Mask-Edge Wave Wash");
            reveal_strlit("Emits an oscillating wave wash from the mask edge that \
                   crests and fades across the layer surface.  Amplitude and \
                   frequency control the height and spacing of each wave crest.");
        },
        GlossaryTerm::MaskConstrainedDrift => {
            reveal_strlit("Mask-Constrained Drift");
            reveal_strlit("Fills the mask interior with slowly drifting particles that \
                   stay within the boundary.  A gentle effect for giving a \
                   still image a sense of quiet movement without visible \
                   directional flow.");
        },
        GlossaryTerm::MaskEdgeEmission => {
            reveal_strlit("Mask-Edge Emission");
            reveal_strlit("Shoots sparks outward from the mask perimeter, following \
                   the SDF normal direction.  Burst rate and spread angle let \
                   you scale from occasional glints to a constant halo.");
        },
        GlossaryTerm::MaskFieldFlow => {
            reveal_strlit("Mask Field Flow");
            reveal_strlit("A force-field preset whose flow lines follow the mask \
                   boundary shape, carrying particles along the contour.  \
                   Works well on text or logo masks to trace their outline \
                   with motion.");
        },
        GlossaryTerm::MaskCollisionReflection => {
            reveal_strlit("Mask Collision Reflection");
            reveal_strlit("Particles fill the layer and bounce elastically off the \
                   mask boundary as if the edge were a solid wall.  \
                   Restitution and particle size sliders control how \
                   energetic the collisions look.");
        },
        GlossaryTerm::MaskBoundedFluid => {
            reveal_strlit("Mask-Bounded Fluid");
            reveal_strlit("A fluid simulation that treats the mask polygon as a \
                   container: the velocity field swirls inside but cannot \
                   escape the boundary.  Viscosity sets the feel from \
                   thin water to heavy oil.");
        },
        GlossaryTerm::DisplacementRipple => {
            reveal_strlit("Displacement Ripple");
            reveal_strlit("Pushes pixels in a radial ripple pattern emanating from the \
                   mask edge, distorting the layer image as if a stone were \
                   dropped into the surface.  Speed sets the ring expansion \
                   rate; strength sets maximum pixel offset.");
        },
        GlossaryTerm::Refraction => {
            reveal_strlit("Refraction");
            reveal_strlit("Bends the layer image at the mask boundary using a \
                   lens-distortion pass, creating a glass-edge or water-\
                   surface appearance.  Index controls how strongly light \
                   bends; blur softens the distorted region.");
        },
        GlossaryTerm::ZoneRoleWindow => {
            reveal_strlit("Zone Role: Window");
            reveal_strlit("Tags a mask as a transparent opening (window pane, glass \
                   facade).  Zone-aware presets such as \"light spill from \
                   window zones\" read this tag and activate their effect only \
                   on layers with this role.  Unlike Zone Template, this is a \
                   semantic label — not a geometry shortcut.");
        },
        GlossaryTerm::ZoneRolePortal => {
            reveal_strlit("Zone Role: Portal");
            reveal_strlit("Tags a mask as a visual passageway or threshold (archway, \
                   doorway, gap in a surface).  Presets such as \"particle drift \
                   through portal zones\" spawn their effect inside this \
                   boundary.  Apply to any region where you want through-the-\
                   surface-style visual depth.");
        },
        GlossaryTerm::ZoneRoleVoid => {
            reveal_strlit("Zone Role: Void");
            reveal_strlit("Tags a mask as a non-emitting blank region intended to stay \
                   dark — a recessed area, shadow pocket, or unlit surface.  \
                   Zone-aware presets skip or invert their effect for Void-tagged \
                   layers so the dark region stays visually quiet.");
        },
        GlossaryTerm::ZoneRoleSpill => {
            reveal_strlit("Zone Role: Spill");
            reveal_strlit("Tags a mask as a surface that catches stray light from a \
                   nearby bright zone — the wall beside a lit window, or a \
                   floor below a lantern.  Presets respond with a softer, \
                   indirect-light treatment rather than the full brightness \
                   reserved for the source zone.");
        },
        GlossaryTerm::ZoneRoleEdge => {
            reveal_strlit("Zone Role: Edge");
            reveal_strlit("Tags a mask as the perimeter or boundary of a surface feature \
                   (window sill, door reveal, architectural trim).  The \
                   \"ripple at edge zones\" preset amplifies its wave effect \
                   specifically at Edge-tagged layers.  Distinct from the mask \
                   feather, which is a render setting rather than a semantic role.");
        },
        GlossaryTerm::ZoneRoleHighlight => {
            reveal_strlit("Zone Role: Highlight");
            reveal_strlit("Tags a mask as a surface intended to catch a key light or \
                   colour accent — a ceiling cove, decorative panel, or any \
                   area you want to pop.  Zone-aware presets can use this tag \
                   to brighten or saturate the region relative to the rest of \
                   the scene.");
        },
        GlossaryTerm::ZoneRoleLightSource => {
            reveal_strlit("Zone Role: Light Source");
            reveal_strlit("Tags a mask as a practical luminaire or architectural \
                   element that emits light in the scene — a sconce, lantern, \
                   or ceiling fixture.  Phase 5 will let fixtures bind to \
                   Light Source zone activity; in Phase 3 this tag acts as a \
                   semantic label FX presets can branch on.");
        },
        GlossaryTerm::ZoneAwareShader => {
            reveal_strlit("Zone-Aware Shader");
            reveal_strlit("An FX preset whose behaviour adapts based on the zone tag \
                   of the layer it is applied to.  A zone-aware preset reads \
                   the tag at runtime and activates its effect only when the \
                   tag matches its target role; applying it to an untagged layer \
                   produces a neutral (transparent) output.");
        },
        GlossaryTerm::ZoneTag => {
            reveal_strlit("Zone Tag");
            reveal_strlit("The semantic role attached to a mask polygon, chosen from \
                   the closed seven-role palette: Window, Portal, Void, Spill, \
                   Edge, Highlight, or Light Source.  Set the tag in the zone \
                   palette inside Mask mode.  Unlike Zone Template (a geometry \
                   shortcut for common polygon shapes), a Zone Tag is purely \
                   semantic — it does not change the polygon's shape.");
        },
        GlossaryTerm::SceneTemplate => {
            reveal_strlit("Scene Template");
            reveal_strlit("A named, parameterised recipe that assembles media, zones, \
                   and FX presets into a ready-to-run scene.  Pick a template \
                   in the wizard, assign a few assets, and confirm — the scene \
                   is live in under a minute.");
        },
        GlossaryTerm::SceneGrammar => {
            reveal_strlit("Scene Grammar");
            reveal_strlit("The structural vocabulary of a scene: which zone roles it \
                   binds, which media slots it accepts, and which FX presets it \
                   activates.  Every built-in template documents its grammar so \
                   the zone-mapping step is unambiguous.");
        },
        GlossaryTerm::Wizard => {
            reveal_strlit("Scene Wizard");
            reveal_strlit("A guided multi-step flow for creating a scene from a \
                   template: template select → media → zone binding → palette \
                   → tempo → confirm.  Cancel at any step to return to the \
                   previous state; one Cmd-Z undoes the entire commit.");
        },
        GlossaryTerm::PaletteMood => {
            reveal_strlit("Palette");
            reveal_strlit("A curated colour accent set (Warm, Cool, or Neutral) that \
                   templates apply to tint their output.  Warm leans amber and \
                   gold; Cool leans blue and cyan; Neutral leaves the source \
                   colours largely unchanged.");
        },
        GlossaryTerm::Mood => {
            reveal_strlit("Mood");
            reveal_strlit("The emotional character of a scene template: Calm (gentle, \
                   slow motion), Energetic (fast, punchy), or Ethereal (soft, \
                   dreamy).  Templates use this to pre-select animation speed \
                   and particle density defaults.");
        },
        GlossaryTerm::TempoSync => {
            reveal_strlit("Tempo Sync");
            reveal_strlit("Locks a template's animation speed to the project BPM so \
                   particle bursts, wave cycles, and wipe timings all fall on \
                   the beat.  Requires the BPM clock to be running; toggle \
                   off for freeform, non-musical scenes.");
        },
        GlossaryTerm::BezierHandles => {
            reveal_strlit("Bezier Handles");
            reveal_strlit("Smooth-curve control handles for mask polygon edges that \
                   let operators draw arched window reveals and organic shapes \
                   without lots of vertices.  Bezier handles are planned for \
                   Phase 7; current masks use straight-edge polygons only.");
        },
        GlossaryTerm::WindowReveal => {
            reveal_strlit("Window Reveal");
            reveal_strlit("A soft wash of light that flows through masks tagged as \
                   Window zones, evoking daylight filtering through a glass \
                   facade.  Assign a background image and tag your window \
                   masks to see the reveal animate across the surface.");
        },
        GlossaryTerm::PixelDrift => {
            reveal_strlit("Pixel Drift");
            reveal_strlit("Fine particles drift slowly and quietly across the source \
                   media, giving a still photograph the feeling of faint \
                   movement without any visible direction or narrative.");
        },
        GlossaryTerm::CollagBloom => {
            reveal_strlit("Collage Bloom");
            reveal_strlit("Composites four images in a 2×2 grid with particles \
                   blooming outward from each image edge.  Assign a different \
                   photo to each slot for maximum contrast between the cells.");
        },
        GlossaryTerm::GlowBehindOpenings => {
            reveal_strlit("Glow Behind Openings");
            reveal_strlit("Fluid light pools inside masks tagged as Portal zones, \
                   suggesting that warm interior light is spilling through \
                   archways or doorways.  Intensity follows the fluid \
                   simulation viscosity slider.");
        },
        GlossaryTerm::FragmentedPortrait => {
            reveal_strlit("Fragmented Portrait");
            reveal_strlit("A portrait image that shatters into fragment-like particles \
                   bouncing off the mask boundary.  Works best with a \
                   high-contrast portrait on a dark background.");
        },
        GlossaryTerm::ArchitecturalWash => {
            reveal_strlit("Architectural Wash");
            reveal_strlit("A gentle ripple-wave wash that traces the edges of surfaces \
                   tagged as Edge zones — sills, reveals, and trims.  \
                   Upgrade of the v3 Architectural Wash FX preset; the \
                   underlying effect is unchanged, but this scene template \
                   adds media input and zone composition.");
        },
        GlossaryTerm::MaskEdgeRippleWashScene => {
            reveal_strlit("Mask-Edge Ripple Wash (Scene)");
            reveal_strlit("The classic ripple-wash FX preset promoted to a full scene \
                   template for one-click setup.  No source media required — \
                   the effect generates its own visual content from the mask \
                   boundary alone.");
        },
        GlossaryTerm::LightSpillFromWindows => {
            reveal_strlit("Light Spill from Windows");
            reveal_strlit("Light appears to leak outward from masks tagged as Window \
                   zones, as if an interior lamp is casting through the \
                   aperture onto the surrounding wall.  Assign an interior-\
                   light image to the media slot for the strongest effect.");
        },
        GlossaryTerm::DmxUniverse => {
            reveal_strlit("DMX Universe");
            reveal_strlit("A 512-channel DMX data packet, the fundamental unit of \
                   lighting network traffic.  Each Art-Net or sACN packet \
                   carries one universe; fixtures are addressed by universe \
                   number + channel offset within that universe.");
        },
        GlossaryTerm::FixtureGroup => {
            reveal_strlit("Fixture Group");
            reveal_strlit("A named collection of fixtures that share a personality \
                   (channel layout), DMX universe, and canvas sampling region.  \
                   rmap sends one DMX value per fixture in the group each \
                   frame, derived from the assigned canvas area.");
        },
        GlossaryTerm::PixelMap => {
            reveal_strlit("Pixel Map");
            reveal_strlit("A grid of UV sample points spread across a canvas region.  \
                   rmap averages the pixel colours at each grid point and maps \
                   the result to the fixture group's DMX channels, letting \
                   physical lights chase the projected image in real time.");
        },
        GlossaryTerm::DmxTransport => {
            reveal_strlit("DMX Transport");
            reveal_strlit("The network protocol used to carry DMX universe packets to \
                   fixtures.  Phase 5 ships Art-Net (UDP, port 6454); the \
                   transport abstraction lets Phase 7 add sACN (E1.31) without \
                   changing the fixture or canvas-sampling code.");
        },
        GlossaryTerm::ArtNetTransport => {
            reveal_strlit("Art-Net Transport");
            reveal_strlit("The Phase 5 implementation of the DMX Transport that sends \
                   Art-Net ArtDmx PDUs over UDP to a configurable unicast or \
                   subnet-broadcast address on port 6454.  Compatible with \
                   Enttec, Artistic Licence, and most budget Art-Net nodes.");
        },
        GlossaryTerm::ChannelRole => {
            reveal_strlit("Channel Role");
            reveal_strlit("The function of a single DMX channel within a fixture's \
                   footprint — Red, Green, or Blue in Phase 5.  rmap uses the \
                   channel map to write the correct colour byte to the correct \
                   DMX address; unknown roles are left at zero and will be \
                   extended in Phase 7.");
        },
        GlossaryTerm::ColorStrategy => {
            reveal_strlit("Colour Strategy");
            reveal_strlit("How the sampled canvas pixel colour is converted to DMX byte \
                   values.  RGB Direct copies the pixel bytes unchanged.  HSV \
                   Intensity Gate dims all channels by the pixel's brightness \
                   so dark canvas areas fade the fixture toward black.  \
                   RGBW Fill is planned for Phase 7.");
        },
        GlossaryTerm::LightingTap => {
            reveal_strlit("Lighting Tap");
            reveal_strlit("A 64×36 downsampled copy of the composited canvas rendered \
                   once per frame on the GPU and read back by the lighting \
                   thread.  The low resolution keeps readback bandwidth to \
                   under 10 KB per frame, leaving the render thread unaffected.");
        },
        GlossaryTerm::OutputStrategy => {
            reveal_strlit("Output Strategy");
            reveal_strlit("The per-fixture-group setting that controls how canvas colour \
                   is translated to DMX values: RGB Direct for accurate colour \
                   reproduction, HSV Intensity Gate for brightness-following \
                   wash behaviour.  Additional strategies are planned for Phase 7.");
        },
        GlossaryTerm::Cue => {
            reveal_strlit("Cue");
            reveal_strlit("A single entry in the cuelist: a saved scene snapshot plus \
                   per-cue timing (in-time, hold, out-time), fire mode (Follow \
                   or Go-on-trigger), BPM-bar quantize, and an optional timecode \
                   trigger position.");
        },
        GlossaryTerm::Cuelist => {
            reveal_strlit("Cuelist");
            reveal_strlit("The ordered list of cues the operator steps through during a \
                   live show.  Navigate with ←/→ to arm the next cue and Space \
                   (or MIDI 60) to fire it.  Cues in Follow mode advance \
                   automatically without operator input.");
        },
        GlossaryTerm::ArmedNext => {
            reveal_strlit("Armed Next");
            reveal_strlit("The next cue in the cuelist, highlighted with an amber ring in \
                   the cue strip and ready to fire on the next go command (Space / \
                   MIDI Note 60 / OSC /rmap/cue/go).  Move the arm with ←/→ \
                   without firing.");
        },
        GlossaryTerm::LiveCue => {
            reveal_strlit("Live Cue");
            reveal_strlit("The cue currently playing or crossfading on the projector.  \
                   Shown with a \"LIVE\" badge on its tile and a progress ring \
                   during the in-time crossfade.  The live cue advances to the \
                   next cue on a go command or automatically in Follow mode.");
        },
        GlossaryTerm::FollowChain => {
            reveal_strlit("Follow Chain");
            reveal_strlit("A sequence of cues whose fire mode is set to Follow — they \
                   advance automatically from one to the next after each cue's \
                   hold time expires, without operator input.  The chain halts \
                   at the first Go-on-trigger cue or when the list is exhausted.");
        },
        GlossaryTerm::GoOnTrigger => {
            reveal_strlit("Go-on-trigger");
            reveal_strlit("A cue fire mode that pauses the follow chain and waits for an \
                   explicit go command (Space / MIDI Note 60 / OSC /rmap/cue/go) \
                   before advancing to the next cue.  Use this for cues that \
                   require the operator to confirm timing live.");
        },
        GlossaryTerm::FollowMode => {
            reveal_strlit("Follow (cue mode)");
            reveal_strlit("A cue fire mode that fires the next cue automatically after the \
                   current cue's hold time expires, with no operator input required.  \
                   Chain multiple Follow-mode cues to build an auto-advancing \
                   sequence; the chain halts at the first Go-on-trigger cue.");
        },
        GlossaryTerm::InTime => {
            reveal_strlit("In-time");
            reveal_strlit("The crossfade duration (seconds) from the previous cue's state \
                   into this cue's scene snapshot.  0.0 snaps instantly; values up \
                   to 60 s create a slow dissolve.  The progress ring on the live \
                   cue tile shows in-time completion.");
        },
        GlossaryTerm::HoldTime => {
            reveal_strlit("Hold time");
            reveal_strlit("How long the cue stays fully live after its in-time completes \
                   before the transport can advance (seconds).  \"∞\" (no value) \
                   means hold indefinitely until a go command or timecode trigger \
                   fires.  Used with Follow mode to create timed auto-advance.");
        },
        GlossaryTerm::OutTime => {
            reveal_strlit("Out-time");
            reveal_strlit("The crossfade duration (seconds) from this cue's scene as the \
                   next cue's in-time begins.  In most workflows this is 0 because \
                   the next cue's in-time handles the blend; set it non-zero when \
                   you want the outgoing cue to fade before the next one fades in.");
        },
        GlossaryTerm::BpmQuantize => {
            reveal_strlit("BPM Quantize");
            reveal_strlit("Defers a cue's fire to the next 1 / 2 / 4 / 8-bar boundary at \
                   the current BPM instead of firing immediately on the go command.  \
                   The armed cue ring stays visible during the wait so the operator \
                   can see the pending fire.  Set to Off to fire on the exact \
                   trigger moment.");
        },
        GlossaryTerm::TimecodePosition => {
            reveal_strlit("Timecode Position");
            reveal_strlit("An HH:MM:SS:FF timestamp (hours, minutes, seconds, frames) used \
                   as a cue trigger: when the incoming LTC or MTC timecode signal \
                   reaches this position the transport fires the cue automatically.  \
                   Requires a timecode source (LTC or MTC) to be active.");
        },
        GlossaryTerm::TransportHud => {
            reveal_strlit("Transport HUD");
            reveal_strlit("The persistent on-screen panel showing live BPM value, the \
                   current tap source (Space / MIDI / OSC / MIDI Clock), the \
                   armed-next cue name and index, and a global BPM quantize \
                   override selector.  Always visible during Editing and Go-live \
                   states.");
        },
        GlossaryTerm::Ltc => {
            reveal_strlit("LTC (Linear Timecode)");
            reveal_strlit("SMPTE 12M timecode carried as an audio-rate biphase-mark \
                   signal on a standard audio cable.  rmap decodes it via the \
                   `ltc` cargo feature (requires libltc) and uses the decoded \
                   HH:MM:SS:FF position to fire timecode-triggered cues within \
                   ±1 frame of the specified position.");
        },
        GlossaryTerm::Mtc => {
            reveal_strlit("MTC (MIDI Timecode)");
            reveal_strlit("MIDI Timecode: eight quarter-frame MIDI messages (status 0xF1) \
                   sent by a DAW or hardware sequencer that assemble into a full \
                   HH:MM:SS:FF timecode position.  Decoded inside the MIDI bus \
                   (no extra feature gate) and used to fire timecode-triggered \
                   cues.");
        },
        GlossaryTerm::MidiClock => {
            reveal_strlit("MIDI Clock");
            reveal_strlit("MIDI timing clock: 24 pulses per quarter note sent as status \
                   0xF8 messages.  rmap derives a rolling BPM average from the \
                   inter-pulse timing and uses it as an alternative tap source \
                   alongside Space, MIDI Note 60, and OSC /rmap/tap.");
        },
        GlossaryTerm::Syphon => {
            reveal_strlit("Syphon");
            reveal_strlit("macOS inter-application video sharing protocol.  A Syphon \
                   server publishes a texture by name; any Syphon client on the \
                   same machine — OBS, VDMX, Resolume Arena, Millumin — can \
                   subscribe to it without a capture card or network hop.");
        },
        GlossaryTerm::SyphonOutput => {
            reveal_strlit("Syphon Output");
            reveal_strlit("When enabled, rmap publishes its composited projector output \
                   as a Syphon source named \"rmap – <project name>\".  Toggle \
                   it in the Output panel; OBS or another Syphon client will see \
                   it in its source picker immediately.");
        },
        GlossaryTerm::CalibrationFile => {
            reveal_strlit("Calibration File");
            reveal_strlit("A `.rmap-calibration.json` file that stores the warp mesh, \
                   mask polygon, gamma curve, and display identity for a physical \
                   venue.  Saved once per venue; loaded alongside any show file so \
                   the geometry is always correct without editing the show itself.");
        },
        GlossaryTerm::SurfaceSlot => {
            reveal_strlit("Surface Slot");
            reveal_strlit("A logical projector output identified by a stable UUID inside \
                   the calibration file.  The show file's OutputTarget binds to \
                   a surface slot at load time; if the IDs don't match rmap falls \
                   back to an identity warp and shows an audit warning.");
        },
        GlossaryTerm::VenueCalibration => {
            reveal_strlit("Venue Calibration");
            reveal_strlit("The complete set of per-surface geometric and colour corrections \
                   (warp, mask, gamma) for a physical installation.  Venue \
                   calibration travels with the room, not the show: one calibration \
                   file works with every show file designed for that venue.");
        },
        GlossaryTerm::BezierWarp => {
            reveal_strlit("Bezier Warp");
            reveal_strlit("A warp mesh whose row and column edges are cubic Bezier curves \
                   rather than straight lines.  Pull the tangent handles on any \
                   anchor point to bow a single edge, enabling smooth wrapping on \
                   columns, arches, and organic architectural shapes.");
        },
        GlossaryTerm::Anchor => {
            reveal_strlit("Anchor");
            reveal_strlit("A corner point of the Bezier warp mesh that lies exactly on the \
                   projection surface.  Drag an anchor in Anchor mode to reposition \
                   it and its attached tangent handles together; the corner point \
                   itself is always on the surface.");
        },
        GlossaryTerm::TangentHandle => {
            reveal_strlit("Tangent Handle");
            reveal_strlit("A control point connected to an anchor by a thin line.  Dragging \
                   the handle bows the adjacent Bezier edge without moving the \
                   anchor.  In Tangent mode the two handles of a smooth pair mirror \
                   each other; hold Shift to break symmetry for a cusp corner.");
        },
        GlossaryTerm::InverseMask => {
            reveal_strlit("Inverse Mask");
            reveal_strlit("Flips the mask so the region that was blocked becomes revealed \
                   and the region that was visible becomes blocked.  Toggle \
                   \"Inverse\" in the Mask sub-row; undo restores the previous \
                   state.");
        },
        GlossaryTerm::LumaKey => {
            reveal_strlit("Luma Key");
            reveal_strlit("Derives the mask alpha from the brightness of the rendered \
                   output: pixels above the threshold become opaque; pixels below \
                   become transparent (or the reverse when Inverse is also active).  \
                   Adjust the Threshold and Softness sliders in the Mask panel.");
        },
        GlossaryTerm::ChromaKey => {
            reveal_strlit("Chroma Key");
            reveal_strlit("Removes a specific hue range from the rendered output by setting \
                   those pixels to transparent — the classic green-screen technique.  \
                   Set the Hue Centre, Hue Range, Saturation Threshold, and Softness \
                   in the Mask panel; works on any colour, not just green.");
        },
        GlossaryTerm::Rgbw => {
            reveal_strlit("RGBW");
            reveal_strlit("A four-channel DMX colour model (Red, Green, Blue, White) \
                   used by warm-white architectural LED fixtures.  rmap extracts \
                   the white component from the sampled canvas colour using the \
                   fixture group's CCT, reducing colour noise at high intensities \
                   compared with driving the white channel from raw pixel data.");
        },
        GlossaryTerm::ColourTemperature => {
            reveal_strlit("Colour Temperature");
            reveal_strlit("The Kelvin value describing the warmth or coolness of a light \
                   source.  2700 K is warm amber (like an incandescent lamp); \
                   6500 K is cool blue-white (like daylight).  Set the colour \
                   temperature of an RGBW fixture group to match the physical \
                   fixture spec so the White channel renders correctly.");
        },
        GlossaryTerm::Cct => {
            reveal_strlit("CCT (Correlated Colour Temperature)");
            reveal_strlit("Short for Correlated Colour Temperature: the Kelvin value that \
                   best describes the white point of a light source.  rmap uses the \
                   CCT setting on an RGBW fixture group to compute how much of the \
                   sampled canvas colour flows into the White DMX channel versus \
                   the Red, Green, and Blue channels.");
        },
        GlossaryTerm::ScenePack => {
            reveal_strlit("Scene Pack");
            reveal_strlit("A portable `.rmap-scene-pack.zip` archive containing one or more \
                   scene templates and their referenced assets (images, SVGs, FX \
                   presets).  Export a scene pack from the layer context menu; \
                   import it via File > Import Scene Pack to make its templates \
                   available in the Preset Browser.");
        },
        GlossaryTerm::EdgeBlendGradient => {
            reveal_strlit("Edge-Blend Gradient");
            reveal_strlit("A calibration verify pattern that fades from fully opaque to \
                   transparent across a configurable screen edge and blend width.  \
                   Used to set up and verify the overlap zone between two adjacent \
                   projectors; deactivate when the show is running.");
        },
        GlossaryTerm::CalibrationVerify => {
            reveal_strlit("Calibration Verify");
            reveal_strlit("A full-screen test pattern (alignment cross, dot grid, colour \
                   bars, edge-blend gradient, focus chart, or geometry grid) \
                   rendered over the projector output to verify warp accuracy, \
                   colour, and focus.  Select a pattern in the Output panel's \
                   Verify section; deactivate to return to the show.");
        },
        GlossaryTerm::FxFamilySourceModifier => {
            reveal_strlit("Source-Modifying FX");
            reveal_strlit("A class of FX preset that reads the underlying layer image \
                   and writes a modified version — warping, lensing, brightening, \
                   or smearing the photo — rather than painting its own pixels on \
                   top.  Distinct from generative overlays like ripple wash or \
                   edge emission.");
        },
        GlossaryTerm::EffectTreatment => {
            reveal_strlit("Treatment (per-layer)");
            reveal_strlit("An effect-chain variant that runs a single treatment preset \
                   (tone map, displacement ripple, refraction, palette extract, \
                   collage, etc.) on one layer only, rather than as a global \
                   pass over the composited frame.  Lets you grade or warp one \
                   layer while others remain untouched.");
        },
        GlossaryTerm::EffectFeedback => {
            reveal_strlit("Feedback / Trails");
            reveal_strlit("An effect that blends the previous frame's layer output back \
                   into the current frame, producing trails, echoes, and motion \
                   smear.  Decay controls trail length; offset adds directional \
                   motion-trail.  Decay is modulator-driven so the trail can \
                   pulse with audio or MIDI.");
        },
        GlossaryTerm::EffectTint => {
            reveal_strlit("Tint");
            reveal_strlit("A colour-mixing effect with three modes: multiply (proper tint \
                   that darkens toward the chosen colour), additive (wash that \
                   lightens), and screen.  The amount slider is modulator-driven \
                   so the tint can pulse with audio or MIDI input.");
        },
        GlossaryTerm::MaskNodeUnion => {
            reveal_strlit("Mask Union");
            reveal_strlit("A mask-graph operation that combines two mask polygons so the \
                   result covers either region — the Boolean union of overlapping \
                   shapes.  Use it when you want one logical mask out of two \
                   separately drawn polygons.");
        },
        GlossaryTerm::MaskNodeSubtract => {
            reveal_strlit("Mask Subtract");
            reveal_strlit("A mask-graph operation that cuts the second polygon out of the \
                   first, leaving the area the first mask covers minus the area \
                   the second mask covers.  Useful for window-with-mullion shapes \
                   and other 'hole through' geometry.");
        },
        GlossaryTerm::FluidWarp => {
            reveal_strlit("Fluid Warp");
            reveal_strlit("Source-modifying preset: runs a 2D fluid simulation inside \
                   the mask, displacing the underlying photo by the velocity \
                   field.  The image flows like water; amplitude scales the \
                   distortion.  Mask-bounded — fluid never leaks outside the \
                   shape.");
        },
        GlossaryTerm::RippleLens => {
            reveal_strlit("Ripple Lens");
            reveal_strlit("Source-modifying preset: concentric rings from the mask edge \
                   act as refraction lenses, bulging and contracting the \
                   underlying image in bands.  Optional chromatic split per ring \
                   gives a chromatic-aberration look.");
        },
        GlossaryTerm::EdgeLens => {
            reveal_strlit("Edge Lens");
            reveal_strlit("Source-modifying preset: four traveling refraction bumps orbit \
                   the mask edge, distorting the image at each crest and letting \
                   it recover between them — a 'force field' look without any \
                   overlay geometry.");
        },
        GlossaryTerm::FluidWarpFull => {
            reveal_strlit("Fluid Warp (Full)");
            reveal_strlit("Source-modifying preset: like Fluid Warp but unbounded — the \
                   underlying photo flows across the entire layer, not just \
                   inside the mask.  Pair with Fluid Warp on a sibling layer for \
                   'fluid inside, calm outside' compositions.");
        },
        GlossaryTerm::Spotlights => {
            reveal_strlit("Spotlights");
            reveal_strlit("Source-modifying preset: each particle becomes a soft Gaussian \
                   brightener that lifts source-pixel luminance in its radius.  \
                   The underlying photo stays visible everywhere; particles light \
                   it up rather than painting on top.");
        },
        GlossaryTerm::DriftPinholes => {
            reveal_strlit("Drift Pinholes");
            reveal_strlit("Source-modifying preset: white-dot particles drift inside the \
                   mask, but instead of being opaque dots each one is a pinhole \
                   through which the underlying photo is visible.  The layer \
                   becomes a moving stencil of the image.");
        },
        GlossaryTerm::EdgeSparks => {
            reveal_strlit("Edge Sparks");
            reveal_strlit("Source-modifying preset: particles fly outward from the mask \
                   edge and each one additively lifts the underlying source's \
                   luminance in a soft radius — sparks light up the photo rather \
                   than overlaying opaque dots.");
        },
        GlossaryTerm::FieldAdvectSource => {
            reveal_strlit("Field Advect Source");
            reveal_strlit("Source-modifying preset: uses the mask SDF gradient field to \
                   advect the underlying photo along the mask normals over time.  \
                   No visible particles — the gradient acts on the image \
                   directly.");
        },
        GlossaryTerm::CollisionRipples => {
            reveal_strlit("Collision Ripples");
            reveal_strlit("Source-modifying preset: particles bounce inside the mask, and \
                   each collision event injects a small ripple into a \
                   displacement field that warps the underlying photo — physical \
                   interaction between simulation and image.");
        },
        GlossaryTerm::ZoneBrighten => {
            reveal_strlit("Zone Brighten");
            reveal_strlit("Source-modifying preset: like Zone Light Spill but instead of \
                   adding a warm colour overlay, multiplicatively lifts the \
                   luminance of source pixels in the spill region.  Same falloff \
                   curve, more grounded look.");
        },
        GlossaryTerm::ZoneLens => {
            reveal_strlit("Zone Lens");
            reveal_strlit("Source-modifying preset: displaces the underlying photo's UV \
                   in a thin band at the zone edge, so the image warps when you \
                   cross through the zone perimeter.  Rest of the layer remains \
                   untouched.");
        },
        GlossaryTerm::PortalWarp => {
            reveal_strlit("Portal Warp");
            reveal_strlit("Source-modifying preset: particles drift through portal zones \
                   (doorways, openings) and each one displaces source pixels in \
                   its radius — produces a 'ghost moving through the room' \
                   effect on a photo of the room.");
        },
    }
}

} // verus!

verus! {
/// Length, first, third and last character of a headline: together they
/// tell every headline apart.
spec fn headline_fingerprint(t: GlossaryTerm) -> (nat, char, char, char) {
    match t {
        GlossaryTerm::Warp => (4, 'W', 'r', 'p'),
        GlossaryTerm::MaskPolygon => (12, 'M', 's', 'n'),
        GlossaryTerm::Modulator => (9, 'M', 'd', 'r'),
        GlossaryTerm::Gamma => (5, 'G', 'm', 'a'),
        GlossaryTerm::Brightness => (10, 'B', 'i', 's'),
        GlossaryTerm::Contrast => (8, 'C', 'n', 't'),
        GlossaryTerm::BlendMode => (10, 'B', 'e', 'e'),
        GlossaryTerm::Crossfade => (9, 'C', 'o', 'e'),
        GlossaryTerm::Scene => (5, 'S', 'e', 'e'),
        GlossaryTerm::ZoneTemplate => (13, 'Z', 'n', 'e'),
        GlossaryTerm::Blackout => (8, 'B', 'a', 't'),
        GlossaryTerm::Freeze => (6, 'F', 'e', 'e'),
        GlossaryTerm::TestPattern => (12, 'T', 's', 'n'),
        GlossaryTerm::EditorOverlay => (14, 'E', 'i', 'y'),
        GlossaryTerm::Effect => (6, 'E', 'f', 't'),
        GlossaryTerm::FitMode => (8, 'F', 't', 'e'),
        GlossaryTerm::MaskFeather => (12, 'M', 's', 'r'),
        GlossaryTerm::GridDetail => (11, 'G', 'i', 'l'),
        GlossaryTerm::Opacity => (7, 'O', 'a', 'y'),
        GlossaryTerm::DisplayOverride => (16, 'D', 's', 'e'),
        GlossaryTerm::FxLayer => (8, 'F', ' ', 'r'),
        GlossaryTerm::NdiSource => (10, 'N', 'I', 'e'),
        GlossaryTerm::EdgeBlendRegion => (17, 'E', 'g', 'n'),
        GlossaryTerm::RgbMatrix => (10, 'R', 'B', 'x'),
        GlossaryTerm::MidiLearn => (10, 'M', 'D', 'n'),
        GlossaryTerm::DroppedFrames => (14, 'D', 'o', 's'),
        GlossaryTerm::Treatment => (9, 'T', 'e', 't'),
        GlossaryTerm::ToneMap => (8, 'T', 'n', 'p'),
        GlossaryTerm::BlurMask => (9, 'B', 'u', 'k'),
        GlossaryTerm::LuminanceReveal => (16, 'L', 'm', 'l'),
        GlossaryTerm::TextureOverlay => (15, 'T', 'x', 'y'),
        GlossaryTerm::PaletteExtract => (15, 'P', 'l', 't'),
        GlossaryTerm::Collage => (7, 'C', 'l', 'e'),
        GlossaryTerm::FocalPoint => (11, 'F', 'c', 't'),
        GlossaryTerm::InOutPoints => (15, 'I', ' ', 's'),
        GlossaryTerm::LoopMode => (9, 'L', 'o', 'e'),
        GlossaryTerm::BpmLockedPlayback => (19, 'B', 'M', 'k'),
        GlossaryTerm::ReversePlayback => (16, 'R', 'v', 'k'),
        GlossaryTerm::ThumbnailScrub => (15, 'T', 'u', 'b'),
        GlossaryTerm::Particle => (8, 'P', 'r', 'e'),
        GlossaryTerm::ForceField => (11, 'F', 'r', 'd'),
        GlossaryTerm::FluidSim => (9, 'F', 'u', 'm'),
        GlossaryTerm::PresetLibrary => (14, 'P', 'e', 'y'),
        GlossaryTerm::MaskConstrained => (16, 'M', 's', 'd'),
        GlossaryTerm::EmitterMasking => (15, 'E', 'i', 'g'),
        GlossaryTerm::SdfNormal => (10, 'S', 'F', 'l'),
        GlossaryTerm::DisplacementPreset => (19, 'D', 's', 't'),
        GlossaryTerm::RefractionPreset => (17, 'R', 'f', 't'),
        GlossaryTerm::WavePreset => (11, 'W', 'v', 't'),
        GlossaryTerm::ParticleBudget => (15, 'P', 'r', 't'),
        GlossaryTerm::SeedDeterminism => (18, 'S', 'e', ')'),
        GlossaryTerm::EffectChainReorder => (20, 'E', 'f', 'r'),
        GlossaryTerm::UserPreset => (11, 'U', 'e', 't'),
        GlossaryTerm::BuiltInPreset => (15, 'B', 'i', 't'),
        GlossaryTerm::MaskEdgeRippleWash => (21, 'M', 's', 'h'),
        GlossaryTerm::MaskEdgeWaveWash => (19, 'M', 's', 'h'),
        GlossaryTerm::MaskConstrainedDrift => (22, 'M', 's', 't'),
        GlossaryTerm::MaskEdgeEmission => (18, 'M', 's', 'n'),
        GlossaryTerm::MaskFieldFlow => (15, 'M', 's', 'w'),
        GlossaryTerm::MaskCollisionReflection => (25, 'M', 's', 'n'),
        GlossaryTerm::MaskBoundedFluid => (18, 'M', 's', 'd'),
        GlossaryTerm::DisplacementRipple => (19, 'D', 's', 'e'),
        GlossaryTerm::Refraction => (10, 'R', 'f', 'n'),
        GlossaryTerm::ZoneRoleWindow => (17, 'Z', 'n', 'w'),
        GlossaryTerm::ZoneRolePortal => (17, 'Z', 'n', 'l'),
        GlossaryTerm::ZoneRoleVoid => (15, 'Z', 'n', 'd'),
        GlossaryTerm::ZoneRoleSpill => (16, 'Z', 'n', 'l'),
        GlossaryTerm::ZoneRoleEdge => (15, 'Z', 'n', 'e'),
        GlossaryTerm::ZoneRoleHighlight => (20, 'Z', 'n', 't'),
        GlossaryTerm::ZoneRoleLightSource => (23, 'Z', 'n', 'e'),
        GlossaryTerm::ZoneAwareShader => (17, 'Z', 'n', 'r'),
        GlossaryTerm::ZoneTag => (8, 'Z', 'n', 'g'),
        GlossaryTerm::SceneTemplate => (14, 'S', 'e', 'e'),
        GlossaryTerm::SceneGrammar => (13, 'S', 'e', 'r'),
        GlossaryTerm::Wizard => (12, 'S', 'e', 'd'),
        GlossaryTerm::PaletteMood => (7, 'P', 'l', 'e'),
        GlossaryTerm::Mood => (4, 'M', 'o', 'd'),
        GlossaryTerm::TempoSync => (10, 'T', 'm', 'c'),
        GlossaryTerm::BezierHandles => (14, 'B', 'z', 's'),
        GlossaryTerm::WindowReveal => (13, 'W', 'n', 'l'),
        GlossaryTerm::PixelDrift => (11, 'P', 'x', 't'),
        GlossaryTerm::CollagBloom => (13, 'C', 'l', 'm'),
        GlossaryTerm::GlowBehindOpenings => (20, 'G', 'o', 's'),
        GlossaryTerm::FragmentedPortrait => (19, 'F', 'a', 't'),
        GlossaryTerm::ArchitecturalWash => (18, 'A', 'c', 'h'),
        GlossaryTerm::MaskEdgeRippleWashScene => (29, 'M', 's', ')'),
        GlossaryTerm::LightSpillFromWindows => (24, 'L', 'g', 's'),
        GlossaryTerm::DmxUniverse => (12, 'D', 'X', 'e'),
        GlossaryTerm::FixtureGroup => (13, 'F', 'x', 'p'),
        GlossaryTerm::PixelMap => (9, 'P', 'x', 'p'),
        GlossaryTerm::DmxTransport => (13, 'D', 'X', 't'),
        GlossaryTerm::ArtNetTransport => (17, 'A', 't', 't'),
        GlossaryTerm::ChannelRole => (12, 'C', 'a', 'e'),
        GlossaryTerm::ColorStrategy => (15, 'C', 'l', 'y'),
        GlossaryTerm::LightingTap => (12, 'L', 'g', 'p'),
        GlossaryTerm::OutputStrategy => (15, 'O', 't', 'y'),
        GlossaryTerm::Cue => (3, 'C', 'e', 'e'),
        GlossaryTerm::Cuelist => (7, 'C', 'e', 't'),
        GlossaryTerm::ArmedNext => (10, 'A', 'm', 't'),
        GlossaryTerm::LiveCue => (8, 'L', 'v', 'e'),
        GlossaryTerm::FollowChain => (12, 'F', 'l', 'n'),
        GlossaryTerm::GoOnTrigger => (13, 'G', '-', 'r'),
        GlossaryTerm::FollowMode => (17, 'F', 'l', ')'),
        GlossaryTerm::InTime => (7, 'I', '-', 'e'),
        GlossaryTerm::HoldTime => (9, 'H', 'l', 'e'),
        GlossaryTerm::OutTime => (8, 'O', 't', 'e'),
        GlossaryTerm::BpmQuantize => (12, 'B', 'M', 'e'),
        GlossaryTerm::TimecodePosition => (17, 'T', 'm', 'n'),
        GlossaryTerm::TransportHud => (13, 'T', 'a', 'D'),
        GlossaryTerm::Ltc => (21, 'L', 'C', ')'),
        GlossaryTerm::Mtc => (19, 'M', 'C', ')'),
        GlossaryTerm::MidiClock => (10, 'M', 'D', 'k'),
        GlossaryTerm::Syphon => (6, 'S', 'p', 'n'),
        GlossaryTerm::SyphonOutput => (13, 'S', 'p', 't'),
        GlossaryTerm::CalibrationFile => (16, 'C', 'l', 'e'),
        GlossaryTerm::SurfaceSlot => (12, 'S', 'r', 't'),
        GlossaryTerm::VenueCalibration => (17, 'V', 'n', 'n'),
        GlossaryTerm::BezierWarp => (11, 'B', 'z', 'p'),
        GlossaryTerm::Anchor => (6, 'A', 'c', 'r'),
        GlossaryTerm::TangentHandle => (14, 'T', 'n', 'e'),
        GlossaryTerm::InverseMask => (12, 'I', 'v', 'k'),
        GlossaryTerm::LumaKey => (8, 'L', 'm', 'y'),
        GlossaryTerm::ChromaKey => (10, 'C', 'r', 'y'),
        GlossaryTerm::Rgbw => (4, 'R', 'B', 'W'),
        GlossaryTerm::ColourTemperature => (18, 'C', 'l', 'e'),
        GlossaryTerm::Cct => (35, 'C', 'T', ')'),
        GlossaryTerm::ScenePack => (10, 'S', 'e', 'k'),
        GlossaryTerm::EdgeBlendGradient => (19, 'E', 'g', 't'),
        GlossaryTerm::CalibrationVerify => (18, 'C', 'l', 'y'),
        GlossaryTerm::FxFamilySourceModifier => (19, 'S', 'u', 'X'),
        GlossaryTerm::EffectTreatment => (21, 'T', 'e', ')'),
        GlossaryTerm::EffectFeedback => (17, 'F', 'e', 's'),
        GlossaryTerm::EffectTint => (4, 'T', 'n', 't'),
        GlossaryTerm::MaskNodeUnion => (10, 'M', 's', 'n'),
        GlossaryTerm::MaskNodeSubtract => (13, 'M', 's', 't'),
        GlossaryTerm::FluidWarp => (10, 'F', 'u', 'p'),
        GlossaryTerm::RippleLens => (11, 'R', 'p', 's'),
        GlossaryTerm::EdgeLens => (9, 'E', 'g', 's'),
        GlossaryTerm::FluidWarpFull => (17, 'F', 'u', ')'),
        GlossaryTerm::Spotlights => (10, 'S', 'o', 's'),
        GlossaryTerm::DriftPinholes => (14, 'D', 'i', 's'),
        GlossaryTerm::EdgeSparks => (11, 'E', 'g', 's'),
        GlossaryTerm::FieldAdvectSource => (19, 'F', 'e', 'e'),
        GlossaryTerm::CollisionRipples => (17, 'C', 'l', 's'),
        GlossaryTerm::ZoneBrighten => (13, 'Z', 'n', 'n'),
        GlossaryTerm::ZoneLens => (9, 'Z', 'n', 's'),
        GlossaryTerm::PortalWarp => (11, 'P', 'r', 'p'),
    }
}

/// The term whose headline has fingerprint `f`.
spec fn term_of_fingerprint(f: (nat, char, char, char)) -> GlossaryTerm {
    if f == (4nat, 'W', 'r', 'p') {
        GlossaryTerm::Warp
    } else if f == (12nat, 'M', 's', 'n') {
        GlossaryTerm::MaskPolygon
    } else if f == (9nat, 'M', 'd', 'r') {
        GlossaryTerm::Modulator
    } else if f == (5nat, 'G', 'm', 'a') {
        GlossaryTerm::Gamma
    } else if f == (10nat, 'B', 'i', 's') {
        GlossaryTerm::Brightness
    } else if f == (8nat, 'C', 'n', 't') {
        GlossaryTerm::Contrast
    } else if f == (10nat, 'B', 'e', 'e') {
        GlossaryTerm::BlendMode
    } else if f == (9nat, 'C', 'o', 'e') {
        GlossaryTerm::Crossfade
    } else if f == (5nat, 'S', 'e', 'e') {
        GlossaryTerm::Scene
    } else if f == (13nat, 'Z', 'n', 'e') {
        GlossaryTerm::ZoneTemplate
    } else if f == (8nat, 'B', 'a', 't') {
        GlossaryTerm::Blackout
    } else if f == (6nat, 'F', 'e', 'e') {
        GlossaryTerm::Freeze
    } else if f == (12nat, 'T', 's', 'n') {
        GlossaryTerm::TestPattern
    } else if f == (14nat, 'E', 'i', 'y') {
        GlossaryTerm::EditorOverlay
    } else if f == (6nat, 'E', 'f', 't') {
        GlossaryTerm::Effect
    } else if f == (8nat, 'F', 't', 'e') {
        GlossaryTerm::FitMode
    } else if f == (12nat, 'M', 's', 'r') {
        GlossaryTerm::MaskFeather
    } else if f == (11nat, 'G', 'i', 'l') {
        GlossaryTerm::GridDetail
    } else if f == (7nat, 'O', 'a', 'y') {
        GlossaryTerm::Opacity
    } else if f == (16nat, 'D', 's', 'e') {
        GlossaryTerm::DisplayOverride
    } else if f == (8nat, 'F', ' ', 'r') {
        GlossaryTerm::FxLayer
    } else if f == (10nat, 'N', 'I', 'e') {
        GlossaryTerm::NdiSource
    } else if f == (17nat, 'E', 'g', 'n') {
        GlossaryTerm::EdgeBlendRegion
    } else if f == (10nat, 'R', 'B', 'x') {
        GlossaryTerm::RgbMatrix
    } else if f == (10nat, 'M', 'D', 'n') {
        GlossaryTerm::MidiLearn
    } else if f == (14nat, 'D', 'o', 's') {
        GlossaryTerm::DroppedFrames
    } else if f == (9nat, 'T', 'e', 't') {
        GlossaryTerm::Treatment
    } else if f == (8nat, 'T', 'n', 'p') {
        GlossaryTerm::ToneMap
    } else if f == (9nat, 'B', 'u', 'k') {
        GlossaryTerm::BlurMask
    } else if f == (16nat, 'L', 'm', 'l') {
        GlossaryTerm::LuminanceReveal
    } else if f == (15nat, 'T', 'x', 'y') {
        GlossaryTerm::TextureOverlay
    } else if f == (15nat, 'P', 'l', 't') {
        GlossaryTerm::PaletteExtract
    } else if f == (7nat, 'C', 'l', 'e') {
        GlossaryTerm::Collage
    } else if f == (11nat, 'F', 'c', 't') {
        GlossaryTerm::FocalPoint
    } else if f == (15nat, 'I', ' ', 's') {
        GlossaryTerm::InOutPoints
    } else if f == (9nat, 'L', 'o', 'e') {
        GlossaryTerm::LoopMode
    } else if f == (19nat, 'B', 'M', 'k') {
        GlossaryTerm::BpmLockedPlayback
    } else if f == (16nat, 'R', 'v', 'k') {
        GlossaryTerm::ReversePlayback
    } else if f == (15nat, 'T', 'u', 'b') {
        GlossaryTerm::ThumbnailScrub
    } else if f == (8nat, 'P', 'r', 'e') {
        GlossaryTerm::Particle
    } else if f == (11nat, 'F', 'r', 'd') {
        GlossaryTerm::ForceField
    } else if f == (9nat, 'F', 'u', 'm') {
        GlossaryTerm::FluidSim
    } else if f == (14nat, 'P', 'e', 'y') {
        GlossaryTerm::PresetLibrary
    } else if f == (16nat, 'M', 's', 'd') {
        GlossaryTerm::MaskConstrained
    } else if f == (15nat, 'E', 'i', 'g') {
        GlossaryTerm::EmitterMasking
    } else if f == (10nat, 'S', 'F', 'l') {
        GlossaryTerm::SdfNormal
    } else if f == (19nat, 'D', 's', 't') {
        GlossaryTerm::DisplacementPreset
    } else if f == (17nat, 'R', 'f', 't') {
        GlossaryTerm::RefractionPreset
    } else if f == (11nat, 'W', 'v', 't') {
        GlossaryTerm::WavePreset
    } else if f == (15nat, 'P', 'r', 't') {
        GlossaryTerm::ParticleBudget
    } else if f == (18nat, 'S', 'e', ')') {
        GlossaryTerm::SeedDeterminism
    } else if f == (20nat, 'E', 'f', 'r') {
        GlossaryTerm::EffectChainReorder
    } else if f == (11nat, 'U', 'e', 't') {
        GlossaryTerm::UserPreset
    } else if f == (15nat, 'B', 'i', 't') {
        GlossaryTerm::BuiltInPreset
    } else if f == (21nat, 'M', 's', 'h') {
        GlossaryTerm::MaskEdgeRippleWash
    } else if f == (19nat, 'M', 's', 'h') {
        GlossaryTerm::MaskEdgeWaveWash
    } else if f == (22nat, 'M', 's', 't') {
        GlossaryTerm::MaskConstrainedDrift
    } else if f == (18nat, 'M', 's', 'n') {
        GlossaryTerm::MaskEdgeEmission
    } else if f == (15nat, 'M', 's', 'w') {
        GlossaryTerm::MaskFieldFlow
    } else if f == (25nat, 'M', 's', 'n') {
        GlossaryTerm::MaskCollisionReflection
    } else if f == (18nat, 'M', 's', 'd') {
        GlossaryTerm::MaskBoundedFluid
    } else if f == (19nat, 'D', 's', 'e') {
        GlossaryTerm::DisplacementRipple
    } else if f == (10nat, 'R', 'f', 'n') {
        GlossaryTerm::Refraction
    } else if f == (17nat, 'Z', 'n', 'w') {
        GlossaryTerm::ZoneRoleWindow
    } else if f == (17nat, 'Z', 'n', 'l') {
        GlossaryTerm::ZoneRolePortal
    } else if f == (15nat, 'Z', 'n', 'd') {
        GlossaryTerm::ZoneRoleVoid
    } else if f == (16nat, 'Z', 'n', 'l') {
        GlossaryTerm::ZoneRoleSpill
    } else if f == (15nat, 'Z', 'n', 'e') {
        GlossaryTerm::ZoneRoleEdge
    } else if f == (20nat, 'Z', 'n', 't') {
        GlossaryTerm::ZoneRoleHighlight
    } else if f == (23nat, 'Z', 'n', 'e') {
        GlossaryTerm::ZoneRoleLightSource
    } else if f == (17nat, 'Z', 'n', 'r') {
        GlossaryTerm::ZoneAwareShader
    } else if f == (8nat, 'Z', 'n', 'g') {
        GlossaryTerm::ZoneTag
    } else if f == (14nat, 'S', 'e', 'e') {
        GlossaryTerm::SceneTemplate
    } else if f == (13nat, 'S', 'e', 'r') {
        GlossaryTerm::SceneGrammar
    } else if f == (12nat, 'S', 'e', 'd') {
        GlossaryTerm::Wizard
    } else if f == (7nat, 'P', 'l', 'e') {
        GlossaryTerm::PaletteMood
    } else if f == (4nat, 'M', 'o', 'd') {
        GlossaryTerm::Mood
    } else if f == (10nat, 'T', 'm', 'c') {
        GlossaryTerm::TempoSync
    } else if f == (14nat, 'B', 'z', 's') {
        GlossaryTerm::BezierHandles
    } else if f == (13nat, 'W', 'n', 'l') {
        GlossaryTerm::WindowReveal
    } else if f == (11nat, 'P', 'x', 't') {
        GlossaryTerm::PixelDrift
    } else if f == (13nat, 'C', 'l', 'm') {
        GlossaryTerm::CollagBloom
    } else if f == (20nat, 'G', 'o', 's') {
        GlossaryTerm::GlowBehindOpenings
    } else if f == (19nat, 'F', 'a', 't') {
        GlossaryTerm::FragmentedPortrait
    } else if f == (18nat, 'A', 'c', 'h') {
        GlossaryTerm::ArchitecturalWash
    } else if f == (29nat, 'M', 's', ')') {
        GlossaryTerm::MaskEdgeRippleWashScene
    } else if f == (24nat, 'L', 'g', 's') {
        GlossaryTerm::LightSpillFromWindows
    } else if f == (12nat, 'D', 'X', 'e') {
        GlossaryTerm::DmxUniverse
    } else if f == (13nat, 'F', 'x', 'p') {
        GlossaryTerm::FixtureGroup
    } else if f == (9nat, 'P', 'x', 'p') {
        GlossaryTerm::PixelMap
    } else if f == (13nat, 'D', 'X', 't') {
        GlossaryTerm::DmxTransport
    } else if f == (17nat, 'A', 't', 't') {
        GlossaryTerm::ArtNetTransport
    } else if f == (12nat, 'C', 'a', 'e') {
        GlossaryTerm::ChannelRole
    } else if f == (15nat, 'C', 'l', 'y') {
        GlossaryTerm::ColorStrategy
    } else if f == (12nat, 'L', 'g', 'p') {
        GlossaryTerm::LightingTap
    } else if f == (15nat, 'O', 't', 'y') {
        GlossaryTerm::OutputStrategy
    } else if f == (3nat, 'C', 'e', 'e') {
        GlossaryTerm::Cue
    } else if f == (7nat, 'C', 'e', 't') {
        GlossaryTerm::Cuelist
    } else if f == (10nat, 'A', 'm', 't') {
        GlossaryTerm::ArmedNext
    } else if f == (8nat, 'L', 'v', 'e') {
        GlossaryTerm::LiveCue
    } else if f == (12nat, 'F', 'l', 'n') {
        GlossaryTerm::FollowChain
    } else if f == (13nat, 'G', '-', 'r') {
        GlossaryTerm::GoOnTrigger
    } else if f == (17nat, 'F', 'l', ')') {
        GlossaryTerm::FollowMode
    } else if f == (7nat, 'I', '-', 'e') {
        GlossaryTerm::InTime
    } else if f == (9nat, 'H', 'l', 'e') {
        GlossaryTerm::HoldTime
    } else if f == (8nat, 'O', 't', 'e') {
        GlossaryTerm::OutTime
    } else if f == (12nat, 'B', 'M', 'e') {
        GlossaryTerm::BpmQuantize
    } else if f == (17nat, 'T', 'm', 'n') {
        GlossaryTerm::TimecodePosition
    } else if f == (13nat, 'T', 'a', 'D') {
        GlossaryTerm::TransportHud
    } else if f == (21nat, 'L', 'C', ')') {
        GlossaryTerm::Ltc
    } else if f == (19nat, 'M', 'C', ')') {
        GlossaryTerm::Mtc
    } else if f == (10nat, 'M', 'D', 'k') {
        GlossaryTerm::MidiClock
    } else if f == (6nat, 'S', 'p', 'n') {
        GlossaryTerm::Syphon
    } else if f == (13nat, 'S', 'p', 't') {
        GlossaryTerm::SyphonOutput
    } else if f == (16nat, 'C', 'l', 'e') {
        GlossaryTerm::CalibrationFile
    } else if f == (12nat, 'S', 'r', 't') {
        GlossaryTerm::SurfaceSlot
    } else if f == (17nat, 'V', 'n', 'n') {
        GlossaryTerm::VenueCalibration
    } else if f == (11nat, 'B', 'z', 'p') {
        GlossaryTerm::BezierWarp
    } else if f == (6nat, 'A', 'c', 'r') {
        GlossaryTerm::Anchor
    } else if f == (14nat, 'T', 'n', 'e') {
        GlossaryTerm::TangentHandle
    } else if f == (12nat, 'I', 'v', 'k') {
        GlossaryTerm::InverseMask
    } else if f == (8nat, 'L', 'm', 'y') {
        GlossaryTerm::LumaKey
    } else if f == (10nat, 'C', 'r', 'y') {
        GlossaryTerm::ChromaKey
    } else if f == (4nat, 'R', 'B', 'W') {
        GlossaryTerm::Rgbw
    } else if f == (18nat, 'C', 'l', 'e') {
        GlossaryTerm::ColourTemperature
    } else if f == (35nat, 'C', 'T', ')') {
        GlossaryTerm::Cct
    } else if f == (10nat, 'S', 'e', 'k') {
        GlossaryTerm::ScenePack
    } else if f == (19nat, 'E', 'g', 't') {
        GlossaryTerm::EdgeBlendGradient
    } else if f == (18nat, 'C', 'l', 'y') {
        GlossaryTerm::CalibrationVerify
    } else if f == (19nat, 'S', 'u', 'X') {
        GlossaryTerm::FxFamilySourceModifier
    } else if f == (21nat, 'T', 'e', ')') {
        GlossaryTerm::EffectTreatment
    } else if f == (17nat, 'F', 'e', 's') {
        GlossaryTerm::EffectFeedback
    } else if f == (4nat, 'T', 'n', 't') {
        GlossaryTerm::EffectTint
    } else if f == (10nat, 'M', 's', 'n') {
        GlossaryTerm::MaskNodeUnion
    } else if f == (13nat, 'M', 's', 't') {
        GlossaryTerm::MaskNodeSubtract
    } else if f == (10nat, 'F', 'u', 'p') {
        GlossaryTerm::FluidWarp
    } else if f == (11nat, 'R', 'p', 's') {
        GlossaryTerm::RippleLens
    } else if f == (9nat, 'E', 'g', 's') {
        GlossaryTerm::EdgeLens
    } else if f == (17nat, 'F', 'u', ')') {
        GlossaryTerm::FluidWarpFull
    } else if f == (10nat, 'S', 'o', 's') {
        GlossaryTerm::Spotlights
    } else if f == (14nat, 'D', 'i', 's') {
        GlossaryTerm::DriftPinholes
    } else if f == (11nat, 'E', 'g', 's') {
        GlossaryTerm::EdgeSparks
    } else if f == (19nat, 'F', 'e', 'e') {
        GlossaryTerm::FieldAdvectSource
    } else if f == (17nat, 'C', 'l', 's') {
        GlossaryTerm::CollisionRipples
    } else if f == (13nat, 'Z', 'n', 'n') {
        GlossaryTerm::ZoneBrighten
    } else if f == (9nat, 'Z', 'n', 's') {
        GlossaryTerm::ZoneLens
    } else {
        GlossaryTerm::PortalWarp
    }
}

proof fn lemma_headline_fingerprint(t: GlossaryTerm)
    ensures
        glossary_headline(t).len() >= 3,
        headline_fingerprint(t) == (
            glossary_headline(t).len(),
            glossary_headline(t)[0],
            glossary_headline(t)[2],
            glossary_headline(t)[glossary_headline(t).len() - 1],
        ),
{
    match t {
        GlossaryTerm::Warp => {
            reveal_strlit("Warp");
        },
        GlossaryTerm::MaskPolygon => {
            reveal_strlit("Mask Polygon");
        },
        GlossaryTerm::Modulator => {
            reveal_strlit("Modulator");
        },
        GlossaryTerm::Gamma => {
            reveal_strlit("Gamma");
        },
        GlossaryTerm::Brightness => {
            reveal_strlit("Brightness");
        },
        GlossaryTerm::Contrast => {
            reveal_strlit("Contrast");
        },
        GlossaryTerm::BlendMode => {
            reveal_strlit("Blend Mode");
        },
        GlossaryTerm::Crossfade => {
            reveal_strlit("Crossfade");
        },
        GlossaryTerm::Scene => {
            reveal_strlit("Scene");
        },
        GlossaryTerm::ZoneTemplate => {
            reveal_strlit("Zone Template");
        },
        GlossaryTerm::Blackout => {
            reveal_strlit("Blackout");
        },
        GlossaryTerm::Freeze => {
            reveal_strlit("Freeze");
        },
        GlossaryTerm::TestPattern => {
            reveal_strlit("Test Pattern");
        },
        GlossaryTerm::EditorOverlay => {
            reveal_strlit("Editor Overlay");
        },
        GlossaryTerm::Effect => {
            reveal_strlit("Effect");
        },
        GlossaryTerm::FitMode => {
            reveal_strlit("Fit Mode");
        },
        GlossaryTerm::MaskFeather => {
            reveal_strlit("Mask Feather");
        },
        GlossaryTerm::GridDetail => {
            reveal_strlit("Grid Detail");
        },
        GlossaryTerm::Opacity => {
            reveal_strlit("Opacity");
        },
        GlossaryTerm::DisplayOverride => {
            reveal_strlit("Display Override");
        },
        GlossaryTerm::FxLayer => {
            reveal_strlit("FX Layer");
        },
        GlossaryTerm::NdiSource => {
            reveal_strlit("NDI Source");
        },
        GlossaryTerm::EdgeBlendRegion => {
            reveal_strlit("Edge-Blend Region");
        },
        GlossaryTerm::RgbMatrix => {
            reveal_strlit("RGB Matrix");
        },
        GlossaryTerm::MidiLearn => {
            reveal_strlit("MIDI Learn");
        },
        GlossaryTerm::DroppedFrames => {
            reveal_strlit("Dropped Frames");
        },
        GlossaryTerm::Treatment => {
            reveal_strlit("Treatment");
        },
        GlossaryTerm::ToneMap => {
            reveal_strlit("Tone Map");
        },
        GlossaryTerm::BlurMask => {
            reveal_strlit("Blur Mask");
        },
        GlossaryTerm::LuminanceReveal => {
            reveal_strlit("Luminance Reveal");
        },
        GlossaryTerm::TextureOverlay => {
            reveal_strlit("Texture Overlay");
        },
        GlossaryTerm::PaletteExtract => {
            reveal_strlit("Palette Extract");
        },
        GlossaryTerm::Collage => {
            reveal_strlit("Collage");
        },
        GlossaryTerm::FocalPoint => {
            reveal_strlit("Focal Point");
        },
        GlossaryTerm::InOutPoints => {
            reveal_strlit("In / Out Points");
        },
        GlossaryTerm::LoopMode => {
            reveal_strlit("Loop Mode");
        },
        GlossaryTerm::BpmLockedPlayback => {
            reveal_strlit("BPM-Locked Playback");
        },
        GlossaryTerm::ReversePlayback => {
            reveal_strlit("Reverse Playback");
        },
        GlossaryTerm::ThumbnailScrub => {
            reveal_strlit("Thumbnail Scrub");
        },
        GlossaryTerm::Particle => {
            reveal_strlit("Particle");
        },
        GlossaryTerm::ForceField => {
            reveal_strlit("Force Field");
        },
        GlossaryTerm::FluidSim => {
            reveal_strlit("Fluid Sim");
        },
        GlossaryTerm::PresetLibrary => {
            reveal_strlit("Preset Library");
        },
        GlossaryTerm::MaskConstrained => {
            reveal_strlit("Mask-Constrained");
        },
        GlossaryTerm::EmitterMasking => {
            reveal_strlit("Emitter Masking");
        },
        GlossaryTerm::SdfNormal => {
            reveal_strlit("SDF Normal");
        },
        GlossaryTerm::DisplacementPreset => {
            reveal_strlit("Displacement Preset");
        },
        GlossaryTerm::RefractionPreset => {
            reveal_strlit("Refraction Preset");
        },
        GlossaryTerm::WavePreset => {
            reveal_strlit("Wave Preset");
        },
        GlossaryTerm::ParticleBudget => {
            reveal_strlit("Particle Budget");
        },
        GlossaryTerm::SeedDeterminism => {
            reveal_strlit("Seed (Determinism)");
        },
        GlossaryTerm::EffectChainReorder => {
            reveal_strlit("Effect-Chain Reorder");
        },
        GlossaryTerm::UserPreset => {
            reveal_strlit("User Preset");
        },
        GlossaryTerm::BuiltInPreset => {
            reveal_strlit("Built-In Preset");
        },
        GlossaryTerm::MaskEdgeRippleWash => {
            reveal_strlit("Mask-Edge Ripple Wash");
        },
        GlossaryTerm::MaskEdgeWaveWash => {
            reveal_strlit("Mask-Edge Wave Wash");
        },
        GlossaryTerm::MaskConstrainedDrift => {
            reveal_strlit("Mask-Constrained Drift");
        },
        GlossaryTerm::MaskEdgeEmission => {
            reveal_strlit("Mask-Edge Emission");
        },
        GlossaryTerm::MaskFieldFlow => {
            reveal_strlit("Mask Field Flow");
        },
        GlossaryTerm::MaskCollisionReflection => {
            reveal_strlit("Mask Collision Reflection");
        },
        GlossaryTerm::MaskBoundedFluid => {
            reveal_strlit("Mask-Bounded Fluid");
        },
        GlossaryTerm::DisplacementRipple => {
            reveal_strlit("Displacement Ripple");
        },
        GlossaryTerm::Refraction => {
            reveal_strlit("Refraction");
        },
        GlossaryTerm::ZoneRoleWindow => {
            reveal_strlit("Zone Role: Window");
        },
        GlossaryTerm::ZoneRolePortal => {
            reveal_strlit("Zone Role: Portal");
        },
        GlossaryTerm::ZoneRoleVoid => {
            reveal_strlit("Zone Role: Void");
        },
        GlossaryTerm::ZoneRoleSpill => {
            reveal_strlit("Zone Role: Spill");
        },
        GlossaryTerm::ZoneRoleEdge => {
            reveal_strlit("Zone Role: Edge");
        },
        GlossaryTerm::ZoneRoleHighlight => {
            reveal_strlit("Zone Role: Highlight");
        },
        GlossaryTerm::ZoneRoleLightSource => {
            reveal_strlit("Zone Role: Light Source");
        },
        GlossaryTerm::ZoneAwareShader => {
            reveal_strlit("Zone-Aware Shader");
        },
        GlossaryTerm::ZoneTag => {
            reveal_strlit("Zone Tag");
        },
        GlossaryTerm::SceneTemplate => {
            reveal_strlit("Scene Template");
        },
        GlossaryTerm::SceneGrammar => {
            reveal_strlit("Scene Grammar");
        },
        GlossaryTerm::Wizard => {
            reveal_strlit("Scene Wizard");
        },
        GlossaryTerm::PaletteMood => {
            reveal_strlit("Palette");
        },
        GlossaryTerm::Mood => {
            reveal_strlit("Mood");
        },
        GlossaryTerm::TempoSync => {
            reveal_strlit("Tempo Sync");
        },
        GlossaryTerm::BezierHandles => {
            reveal_strlit("Bezier Handles");
        },
        GlossaryTerm::WindowReveal => {
            reveal_strlit("Window Reveal");
        },
        GlossaryTerm::PixelDrift => {
            reveal_strlit("Pixel Drift");
        },
        GlossaryTerm::CollagBloom => {
            reveal_strlit("Collage Bloom");
        },
        GlossaryTerm::GlowBehindOpenings => {
            reveal_strlit("Glow Behind Openings");
        },
        GlossaryTerm::FragmentedPortrait => {
            reveal_strlit("Fragmented Portrait");
        },
        GlossaryTerm::ArchitecturalWash => {
            reveal_strlit("Architectural Wash");
        },
        GlossaryTerm::MaskEdgeRippleWashScene => {
            reveal_strlit("Mask-Edge Ripple Wash (Scene)");
        },
        GlossaryTerm::LightSpillFromWindows => {
            reveal_strlit("Light Spill from Windows");
        },
        GlossaryTerm::DmxUniverse => {
            reveal_strlit("DMX Universe");
        },
        GlossaryTerm::FixtureGroup => {
            reveal_strlit("Fixture Group");
        },
        GlossaryTerm::PixelMap => {
            reveal_strlit("Pixel Map");
        },
        GlossaryTerm::DmxTransport => {
            reveal_strlit("DMX Transport");
        },
        GlossaryTerm::ArtNetTransport => {
            reveal_strlit("Art-Net Transport");
        },
        GlossaryTerm::ChannelRole => {
            reveal_strlit("Channel Role");
        },
        GlossaryTerm::ColorStrategy => {
            reveal_strlit("Colour Strategy");
        },
        GlossaryTerm::LightingTap => {
            reveal_strlit("Lighting Tap");
        },
        GlossaryTerm::OutputStrategy => {
            reveal_strlit("Output Strategy");
        },
        GlossaryTerm::Cue => {
            reveal_strlit("Cue");
        },
        GlossaryTerm::Cuelist => {
            reveal_strlit("Cuelist");
        },
        GlossaryTerm::ArmedNext => {
            reveal_strlit("Armed Next");
        },
        GlossaryTerm::LiveCue => {
            reveal_strlit("Live Cue");
        },
        GlossaryTerm::FollowChain => {
            reveal_strlit("Follow Chain");
        },
        GlossaryTerm::GoOnTrigger => {
            reveal_strlit("Go-on-trigger");
        },
        GlossaryTerm::FollowMode => {
            reveal_strlit("Follow (cue mode)");
        },
        GlossaryTerm::InTime => {
            reveal_strlit("In-time");
        },
        GlossaryTerm::HoldTime => {
            reveal_strlit("Hold time");
        },
        GlossaryTerm::OutTime => {
            reveal_strlit("Out-time");
        },
        GlossaryTerm::BpmQuantize => {
            reveal_strlit("BPM Quantize");
        },
        GlossaryTerm::TimecodePosition => {
            reveal_strlit("Timecode Position");
        },
        GlossaryTerm::TransportHud => {
            reveal_strlit("Transport HUD");
        },
        GlossaryTerm::Ltc => {
            reveal_strlit("LTC (Linear Timecode)");
        },
        GlossaryTerm::Mtc => {
            reveal_strlit("MTC (MIDI Timecode)");
        },
        GlossaryTerm::MidiClock => {
            reveal_strlit("MIDI Clock");
        },
        GlossaryTerm::Syphon => {
            reveal_strlit("Syphon");
        },
        GlossaryTerm::SyphonOutput => {
            reveal_strlit("Syphon Output");
        },
        GlossaryTerm::CalibrationFile => {
            reveal_strlit("Calibration File");
        },
        GlossaryTerm::SurfaceSlot => {
            reveal_strlit("Surface Slot");
        },
        GlossaryTerm::VenueCalibration => {
            reveal_strlit("Venue Calibration");
        },
        GlossaryTerm::BezierWarp => {
            reveal_strlit("Bezier Warp");
        },
        GlossaryTerm::Anchor => {
            reveal_strlit("Anchor");
        },
        GlossaryTerm::TangentHandle => {
            reveal_strlit("Tangent Handle");
        },
        GlossaryTerm::InverseMask => {
            reveal_strlit("Inverse Mask");
        },
        GlossaryTerm::LumaKey => {
            reveal_strlit("Luma Key");
        },
        GlossaryTerm::ChromaKey => {
            reveal_strlit("Chroma Key");
        },
        GlossaryTerm::Rgbw => {
            reveal_strlit("RGBW");
        },
        GlossaryTerm::ColourTemperature => {
            reveal_strlit("Colour Temperature");
        },
        GlossaryTerm::Cct => {
            reveal_strlit("CCT (Correlated Colour Temperature)");
        },
        GlossaryTerm::ScenePack => {
            reveal_strlit("Scene Pack");
        },
        GlossaryTerm::EdgeBlendGradient => {
            reveal_strlit("Edge-Blend Gradient");
        },
        GlossaryTerm::CalibrationVerify => {
            reveal_strlit("Calibration Verify");
        },
        GlossaryTerm::FxFamilySourceModifier => {
            reveal_strlit("Source-Modifying FX");
        },
        GlossaryTerm::EffectTreatment => {
            reveal_strlit("Treatment (per-layer)");
        },
        GlossaryTerm::EffectFeedback => {
            reveal_strlit("Feedback / Trails");
        },
        GlossaryTerm::EffectTint => {
            reveal_strlit("Tint");
        },
        GlossaryTerm::MaskNodeUnion => {
            reveal_strlit("Mask Union");
        },
        GlossaryTerm::MaskNodeSubtract => {
            reveal_strlit("Mask Subtract");
        },
        GlossaryTerm::FluidWarp => {
            reveal_strlit("Fluid Warp");
        },
        GlossaryTerm::RippleLens => {
            reveal_strlit("Ripple Lens");
        },
        GlossaryTerm::EdgeLens => {
            reveal_strlit("Edge Lens");
        },
        GlossaryTerm::FluidWarpFull => {
            reveal_strlit("Fluid Warp (Full)");
        },
        GlossaryTerm::Spotlights => {
            reveal_strlit("Spotlights");
        },
        GlossaryTerm::DriftPinholes => {
            reveal_strlit("Drift Pinholes");
        },
        GlossaryTerm::EdgeSparks => {
            reveal_strlit("Edge Sparks");
        },
        GlossaryTerm::FieldAdvectSource => {
            reveal_strlit("Field Advect Source");
        },
        GlossaryTerm::CollisionRipples => {
            reveal_strlit("Collision Ripples");
        },
        GlossaryTerm::ZoneBrighten => {
            reveal_strlit("Zone Brighten");
        },
        GlossaryTerm::ZoneLens => {
            reveal_strlit("Zone Lens");
        },
        GlossaryTerm::PortalWarp => {
            reveal_strlit("Portal Warp");
        },
    }
}

#[verifier::rlimit(50)]
proof fn lemma_fingerprint_decodes(t: GlossaryTerm)
    ensures
        term_of_fingerprint(headline_fingerprint(t)) == t,
{
}

/// No two terms share a headline, so every entry of the glossary window
/// and every tooltip names its term unambiguously.
pub proof fn lemma_headlines_distinct(a: GlossaryTerm, b: GlossaryTerm)
    requires
        a != b,
    ensures
        glossary_headline(a) != glossary_headline(b),
{
    lemma_headline_fingerprint(a);
    lemma_headline_fingerprint(b);
    lemma_fingerprint_decodes(a);
    lemma_fingerprint_decodes(b);
}

} // verus!

verus! {

/// Length and eleventh character of a body: together they tell every
/// body apart.
spec fn body_fingerprint(t: GlossaryTerm) -> (nat, char) {
    match t {
        GlossaryTerm::Warp => (243, 'c'),
        GlossaryTerm::MaskPolygon => (182, 'd'),
        GlossaryTerm::Modulator => (150, 'm'),
        GlossaryTerm::Gamma => (181, 'i'),
        GlossaryTerm::Brightness => (157, 'f'),
        GlossaryTerm::Contrast => (129, 't'),
        GlossaryTerm::BlendMode => (211, 'r'),
        GlossaryTerm::Crossfade => (106, 'n'),
        GlossaryTerm::Scene => (119, 'a'),
        GlossaryTerm::ZoneTemplate => (151, 'a'),
        GlossaryTerm::Blackout => (116, 'r'),
        GlossaryTerm::Freeze => (154, 'l'),
        GlossaryTerm::TestPattern => (226, 'h'),
        GlossaryTerm::EditorOverlay => (148, '-'),
        GlossaryTerm::Effect => (141, 'e'),
        GlossaryTerm::FitMode => (143, 'y'),
        GlossaryTerm::MaskFeather => (136, 'a'),
        GlossaryTerm::GridDetail => (139, 'e'),
        GlossaryTerm::Opacity => (135, 'a'),
        GlossaryTerm::DisplayOverride => (225, 'e'),
        GlossaryTerm::FxLayer => (214, 'o'),
        GlossaryTerm::NdiSource => (180, 'e'),
        GlossaryTerm::EdgeBlendRegion => (181, 'p'),
        GlossaryTerm::RgbMatrix => (216, 'u'),
        GlossaryTerm::MidiLearn => (164, 'k'),
        GlossaryTerm::DroppedFrames => (234, 'u'),
        GlossaryTerm::Treatment => (234, 'a'),
        GlossaryTerm::ToneMap => (205, 'p'),
        GlossaryTerm::BlurMask => (205, 'l'),
        GlossaryTerm::LuminanceReveal => (207, 'g'),
        GlossaryTerm::TextureOverlay => (203, 'm'),
        GlossaryTerm::PaletteExtract => (223, ' '),
        GlossaryTerm::Collage => (188, ' '),
        GlossaryTerm::FocalPoint => (220, 'a'),
        GlossaryTerm::InOutPoints => (187, 'e'),
        GlossaryTerm::LoopMode => (165, 'n'),
        GlossaryTerm::BpmLockedPlayback => (173, 'c'),
        GlossaryTerm::ReversePlayback => (186, 'p'),
        GlossaryTerm::ThumbnailScrub => (165, ' '),
        GlossaryTerm::Particle => (199, 'P'),
        GlossaryTerm::ForceField => (196, 'n'),
        GlossaryTerm::FluidSim => (181, '-'),
        GlossaryTerm::PresetLibrary => (159, 'b'),
        GlossaryTerm::MaskConstrained => (181, 'o'),
        GlossaryTerm::EmitterMasking => (173, 'a'),
        GlossaryTerm::SdfNormal => (216, 'd'),
        GlossaryTerm::DisplacementPreset => (190, 'a'),
        GlossaryTerm::RefractionPreset => (165, 'a'),
        GlossaryTerm::WavePreset => (179, 'a'),
        GlossaryTerm::ParticleBudget => (214, 'm'),
        GlossaryTerm::SeedDeterminism => (198, 'v'),
        GlossaryTerm::EffectChainReorder => (182, 'f'),
        GlossaryTerm::UserPreset => (165, 'e'),
        GlossaryTerm::BuiltInPreset => (158, 'p'),
        GlossaryTerm::MaskEdgeRippleWash => (160, 'o'),
        GlossaryTerm::MaskEdgeWaveWash => (173, 's'),
        GlossaryTerm::MaskConstrainedDrift => (187, 'm'),
        GlossaryTerm::MaskEdgeEmission => (168, 'r'),
        GlossaryTerm::MaskFieldFlow => (177, 'e'),
        GlossaryTerm::MaskCollisionReflection => (185, 'f'),
        GlossaryTerm::MaskBoundedFluid => (183, 'm'),
        GlossaryTerm::DisplacementRipple => (215, 'e'),
        GlossaryTerm::Refraction => (200, 'l'),
        GlossaryTerm::ZoneRoleWindow => (271, 'k'),
        GlossaryTerm::ZoneRolePortal => (257, 'k'),
        GlossaryTerm::ZoneRoleVoid => (228, 'k'),
        GlossaryTerm::ZoneRoleSpill => (254, 'k'),
        GlossaryTerm::ZoneRoleEdge => (294, 'k'),
        GlossaryTerm::ZoneRoleHighlight => (243, 'k'),
        GlossaryTerm::ZoneRoleLightSource => (266, 'k'),
        GlossaryTerm::ZoneAwareShader => (276, 'e'),
        GlossaryTerm::ZoneTag => (345, 'i'),
        GlossaryTerm::SceneTemplate => (204, 'a'),
        GlossaryTerm::SceneGrammar => (217, 'u'),
        GlossaryTerm::Wizard => (219, 'u'),
        GlossaryTerm::PaletteMood => (202, 'c'),
        GlossaryTerm::Mood => (207, 'n'),
        GlossaryTerm::TempoSync => (209, 'm'),
        GlossaryTerm::BezierHandles => (230, 'v'),
        GlossaryTerm::WindowReveal => (219, 'h'),
        GlossaryTerm::PixelDrift => (164, 'c'),
        GlossaryTerm::CollagBloom => (169, ' '),
        GlossaryTerm::GlowBehindOpenings => (190, 't'),
        GlossaryTerm::FragmentedPortrait => (155, ' '),
        GlossaryTerm::ArchitecturalWash => (257, 'i'),
        GlossaryTerm::MaskEdgeRippleWashScene => (190, 'c'),
        GlossaryTerm::LightSpillFromWindows => (222, 'a'),
        GlossaryTerm::DmxUniverse => (212, 'n'),
        GlossaryTerm::FixtureGroup => (217, 'l'),
        GlossaryTerm::PixelMap => (230, 'U'),
        GlossaryTerm::DmxTransport => (219, 'k'),
        GlossaryTerm::ArtNetTransport => (229, '5'),
        GlossaryTerm::ChannelRole => (251, 'o'),
        GlossaryTerm::ColorStrategy => (265, 'm'),
        GlossaryTerm::LightingTap => (231, 'w'),
        GlossaryTerm::OutputStrategy => (243, 'x'),
        GlossaryTerm::Cue => (198, 'n'),
        GlossaryTerm::Cuelist => (212, 'd'),
        GlossaryTerm::ArmedNext => (199, 'u'),
        GlossaryTerm::LiveCue => (235, 'r'),
        GlossaryTerm::FollowChain => (240, ' '),
        GlossaryTerm::GoOnTrigger => (226, ' '),
        GlossaryTerm::FollowMode => (247, ' '),
        GlossaryTerm::InTime => (224, 'a'),
        GlossaryTerm::HoldTime => (244, 'h'),
        GlossaryTerm::OutTime => (252, 'a'),
        GlossaryTerm::BpmQuantize => (267, 'u'),
        GlossaryTerm::TimecodePosition => (246, 'S'),
        GlossaryTerm::TransportHud => (243, 't'),
        GlossaryTerm::Ltc => (270, 't'),
        GlossaryTerm::Mtc => (250, 'o'),
        GlossaryTerm::MidiClock => (230, 'g'),
        GlossaryTerm::Syphon => (230, 'r'),
        GlossaryTerm::SyphonOutput => (217, 'e'),
        GlossaryTerm::CalibrationFile => (249, 'a'),
        GlossaryTerm::SurfaceSlot => (238, 'p'),
        GlossaryTerm::VenueCalibration => (242, 't'),
        GlossaryTerm::BezierWarp => (237, 'h'),
        GlossaryTerm::Anchor => (224, 'o'),
        GlossaryTerm::TangentHandle => (249, 'p'),
        GlossaryTerm::InverseMask => (184, 'm'),
        GlossaryTerm::LumaKey => (248, 'e'),
        GlossaryTerm::ChromaKey => (253, 's'),
        GlossaryTerm::Rgbw => (304, 'n'),
        GlossaryTerm::ColourTemperature => (291, ' '),
        GlossaryTerm::Cct => (288, 'C'),
        GlossaryTerm::ScenePack => (280, ' '),
        GlossaryTerm::EdgeBlendGradient => (237, 'i'),
        GlossaryTerm::CalibrationVerify => (288, 'e'),
        GlossaryTerm::FxFamilySourceModifier => (259, ' '),
        GlossaryTerm::EffectTreatment => (275, 'c'),
        GlossaryTerm::EffectFeedback => (266, 't'),
        GlossaryTerm::EffectTint => (232, 'i'),
        GlossaryTerm::MaskNodeUnion => (209, 'p'),
        GlossaryTerm::MaskNodeSubtract => (221, 'p'),
        GlossaryTerm::FluidWarp => (238, 'i'),
        GlossaryTerm::RippleLens => (211, 'i'),
        GlossaryTerm::EdgeLens => (201, 'i'),
        GlossaryTerm::FluidWarpFull => (222, 'i'),
        GlossaryTerm::Spotlights => (221, 'i'),
        GlossaryTerm::DriftPinholes => (219, 'i'),
        GlossaryTerm::EdgeSparks => (210, 'i'),
        GlossaryTerm::FieldAdvectSource => (187, 'i'),
        GlossaryTerm::CollisionRipples => (217, 'i'),
        GlossaryTerm::ZoneBrighten => (207, 'i'),
        GlossaryTerm::ZoneLens => (193, 'i'),
        GlossaryTerm::PortalWarp => (209, 'i'),
    }
}

/// The term whose body has fingerprint `f`.
spec fn term_of_body_fingerprint(f: (nat, char)) -> GlossaryTerm {
    if f == (243nat, 'c') {
        GlossaryTerm::Warp
    } else if f == (182nat, 'd') {
        GlossaryTerm::MaskPolygon
    } else if f == (150nat, 'm') {
        GlossaryTerm::Modulator
    } else if f == (181nat, 'i') {
        GlossaryTerm::Gamma
    } else if f == (157nat, 'f') {
        GlossaryTerm::Brightness
    } else if f == (129nat, 't') {
        GlossaryTerm::Contrast
    } else if f == (211nat, 'r') {
        GlossaryTerm::BlendMode
    } else if f == (106nat, 'n') {
        GlossaryTerm::Crossfade
    } else if f == (119nat, 'a') {
        GlossaryTerm::Scene
    } else if f == (151nat, 'a') {
        GlossaryTerm::ZoneTemplate
    } else if f == (116nat, 'r') {
        GlossaryTerm::Blackout
    } else if f == (154nat, 'l') {
        GlossaryTerm::Freeze
    } else if f == (226nat, 'h') {
        GlossaryTerm::TestPattern
    } else if f == (148nat, '-') {
        GlossaryTerm::EditorOverlay
    } else if f == (141nat, 'e') {
        GlossaryTerm::Effect
    } else if f == (143nat, 'y') {
        GlossaryTerm::FitMode
    } else if f == (136nat, 'a') {
        GlossaryTerm::MaskFeather
    } else if f == (139nat, 'e') {
        GlossaryTerm::GridDetail
    } else if f == (135nat, 'a') {
        GlossaryTerm::Opacity
    } else if f == (225nat, 'e') {
        GlossaryTerm::DisplayOverride
    } else if f == (214nat, 'o') {
        GlossaryTerm::FxLayer
    } else if f == (180nat, 'e') {
        GlossaryTerm::NdiSource
    } else if f == (181nat, 'p') {
        GlossaryTerm::EdgeBlendRegion
    } else if f == (216nat, 'u') {
        GlossaryTerm::RgbMatrix
    } else if f == (164nat, 'k') {
        GlossaryTerm::MidiLearn
    } else if f == (234nat, 'u') {
        GlossaryTerm::DroppedFrames
    } else if f == (234nat, 'a') {
        GlossaryTerm::Treatment
    } else if f == (205nat, 'p') {
        GlossaryTerm::ToneMap
    } else if f == (205nat, 'l') {
        GlossaryTerm::BlurMask
    } else if f == (207nat, 'g') {
        GlossaryTerm::LuminanceReveal
    } else if f == (203nat, 'm') {
        GlossaryTerm::TextureOverlay
    } else if f == (223nat, ' ') {
        GlossaryTerm::PaletteExtract
    } else if f == (188nat, ' ') {
        GlossaryTerm::Collage
    } else if f == (220nat, 'a') {
        GlossaryTerm::FocalPoint
    } else if f == (187nat, 'e') {
        GlossaryTerm::InOutPoints
    } else if f == (165nat, 'n') {
        GlossaryTerm::LoopMode
    } else if f == (173nat, 'c') {
        GlossaryTerm::BpmLockedPlayback
    } else if f == (186nat, 'p') {
        GlossaryTerm::ReversePlayback
    } else if f == (165nat, ' ') {
        GlossaryTerm::ThumbnailScrub
    } else if f == (199nat, 'P') {
        GlossaryTerm::Particle
    } else if f == (196nat, 'n') {
        GlossaryTerm::ForceField
    } else if f == (181nat, '-') {
        GlossaryTerm::FluidSim
    } else if f == (159nat, 'b') {
        GlossaryTerm::PresetLibrary
    } else if f == (181nat, 'o') {
        GlossaryTerm::MaskConstrained
    } else if f == (173nat, 'a') {
        GlossaryTerm::EmitterMasking
    } else if f == (216nat, 'd') {
        GlossaryTerm::SdfNormal
    } else if f == (190nat, 'a') {
        GlossaryTerm::DisplacementPreset
    } else if f == (165nat, 'a') {
        GlossaryTerm::RefractionPreset
    } else if f == (179nat, 'a') {
        GlossaryTerm::WavePreset
    } else if f == (214nat, 'm') {
        GlossaryTerm::ParticleBudget
    } else if f == (198nat, 'v') {
        GlossaryTerm::SeedDeterminism
    } else if f == (182nat, 'f') {
        GlossaryTerm::EffectChainReorder
    } else if f == (165nat, 'e') {
        GlossaryTerm::UserPreset
    } else if f == (158nat, 'p') {
        GlossaryTerm::BuiltInPreset
    } else if f == (160nat, 'o') {
        GlossaryTerm::MaskEdgeRippleWash
    } else if f == (173nat, 's') {
        GlossaryTerm::MaskEdgeWaveWash
    } else if f == (187nat, 'm') {
        GlossaryTerm::MaskConstrainedDrift
    } else if f == (168nat, 'r') {
        GlossaryTerm::MaskEdgeEmission
    } else if f == (177nat, 'e') {
        GlossaryTerm::MaskFieldFlow
    } else if f == (185nat, 'f') {
        GlossaryTerm::MaskCollisionReflection
    } else if f == (183nat, 'm') {
        GlossaryTerm::MaskBoundedFluid
    } else if f == (215nat, 'e') {
        GlossaryTerm::DisplacementRipple
    } else if f == (200nat, 'l') {
        GlossaryTerm::Refraction
    } else if f == (271nat, 'k') {
        GlossaryTerm::ZoneRoleWindow
    } else if f == (257nat, 'k') {
        GlossaryTerm::ZoneRolePortal
    } else if f == (228nat, 'k') {
        GlossaryTerm::ZoneRoleVoid
    } else if f == (254nat, 'k') {
        GlossaryTerm::ZoneRoleSpill
    } else if f == (294nat, 'k') {
        GlossaryTerm::ZoneRoleEdge
    } else if f == (243nat, 'k') {
        GlossaryTerm::ZoneRoleHighlight
    } else if f == (266nat, 'k') {
        GlossaryTerm::ZoneRoleLightSource
    } else if f == (276nat, 'e') {
        GlossaryTerm::ZoneAwareShader
    } else if f == (345nat, 'i') {
        GlossaryTerm::ZoneTag
    } else if f == (204nat, 'a') {
        GlossaryTerm::SceneTemplate
    } else if f == (217nat, 'u') {
        GlossaryTerm::SceneGrammar
    } else if f == (219nat, 'u') {
        GlossaryTerm::Wizard
    } else if f == (202nat, 'c') {
        GlossaryTerm::PaletteMood
    } else if f == (207nat, 'n') {
        GlossaryTerm::Mood
    } else if f == (209nat, 'm') {
        GlossaryTerm::TempoSync
    } else if f == (230nat, 'v') {
        GlossaryTerm::BezierHandles
    } else if f == (219nat, 'h') {
        GlossaryTerm::WindowReveal
    } else if f == (164nat, 'c') {
        GlossaryTerm::PixelDrift
    } else if f == (169nat, ' ') {
        GlossaryTerm::CollagBloom
    } else if f == (190nat, 't') {
        GlossaryTerm::GlowBehindOpenings
    } else if f == (155nat, ' ') {
        GlossaryTerm::FragmentedPortrait
    } else if f == (257nat, 'i') {
        GlossaryTerm::ArchitecturalWash
    } else if f == (190nat, 'c') {
        GlossaryTerm::MaskEdgeRippleWashScene
    } else if f == (222nat, 'a') {
        GlossaryTerm::LightSpillFromWindows
    } else if f == (212nat, 'n') {
        GlossaryTerm::DmxUniverse
    } else if f == (217nat, 'l') {
        GlossaryTerm::FixtureGroup
    } else if f == (230nat, 'U') {
        GlossaryTerm::PixelMap
    } else if f == (219nat, 'k') {
        GlossaryTerm::DmxTransport
    } else if f == (229nat, '5') {
        GlossaryTerm::ArtNetTransport
    } else if f == (251nat, 'o') {
        GlossaryTerm::ChannelRole
    } else if f == (265nat, 'm') {
        GlossaryTerm::ColorStrategy
    } else if f == (231nat, 'w') {
        GlossaryTerm::LightingTap
    } else if f == (243nat, 'x') {
        GlossaryTerm::OutputStrategy
    } else if f == (198nat, 'n') {
        GlossaryTerm::Cue
    } else if f == (212nat, 'd') {
        GlossaryTerm::Cuelist
    } else if f == (199nat, 'u') {
        GlossaryTerm::ArmedNext
    } else if f == (235nat, 'r') {
        GlossaryTerm::LiveCue
    } else if f == (240nat, ' ') {
        GlossaryTerm::FollowChain
    } else if f == (226nat, ' ') {
        GlossaryTerm::GoOnTrigger
    } else if f == (247nat, ' ') {
        GlossaryTerm::FollowMode
    } else if f == (224nat, 'a') {
        GlossaryTerm::InTime
    } else if f == (244nat, 'h') {
        GlossaryTerm::HoldTime
    } else if f == (252nat, 'a') {
        GlossaryTerm::OutTime
    } else if f == (267nat, 'u') {
        GlossaryTerm::BpmQuantize
    } else if f == (246nat, 'S') {
        GlossaryTerm::TimecodePosition
    } else if f == (243nat, 't') {
        GlossaryTerm::TransportHud
    } else if f == (270nat, 't') {
        GlossaryTerm::Ltc
    } else if f == (250nat, 'o') {
        GlossaryTerm::Mtc
    } else if f == (230nat, 'g') {
        GlossaryTerm::MidiClock
    } else if f == (230nat, 'r') {
        GlossaryTerm::Syphon
    } else if f == (217nat, 'e') {
        GlossaryTerm::SyphonOutput
    } else if f == (249nat, 'a') {
        GlossaryTerm::CalibrationFile
    } else if f == (238nat, 'p') {
        GlossaryTerm::SurfaceSlot
    } else if f == (242nat, 't') {
        GlossaryTerm::VenueCalibration
    } else if f == (237nat, 'h') {
        GlossaryTerm::BezierWarp
    } else if f == (224nat, 'o') {
        GlossaryTerm::Anchor
    } else if f == (249nat, 'p') {
        GlossaryTerm::TangentHandle
    } else if f == (184nat, 'm') {
        GlossaryTerm::InverseMask
    } else if f == (248nat, 'e') {
        GlossaryTerm::LumaKey
    } else if f == (253nat, 's') {
        GlossaryTerm::ChromaKey
    } else if f == (304nat, 'n') {
        GlossaryTerm::Rgbw
    } else if f == (291nat, ' ') {
        GlossaryTerm::ColourTemperature
    } else if f == (288nat, 'C') {
        GlossaryTerm::Cct
    } else if f == (280nat, ' ') {
        GlossaryTerm::ScenePack
    } else if f == (237nat, 'i') {
        GlossaryTerm::EdgeBlendGradient
    } else if f == (288nat, 'e') {
        GlossaryTerm::CalibrationVerify
    } else if f == (259nat, ' ') {
        GlossaryTerm::FxFamilySourceModifier
    } else if f == (275nat, 'c') {
        GlossaryTerm::EffectTreatment
    } else if f == (266nat, 't') {
        GlossaryTerm::EffectFeedback
    } else if f == (232nat, 'i') {
        GlossaryTerm::EffectTint
    } else if f == (209nat, 'p') {
        GlossaryTerm::MaskNodeUnion
    } else if f == (221nat, 'p') {
        GlossaryTerm::MaskNodeSubtract
    } else if f == (238nat, 'i') {
        GlossaryTerm::FluidWarp
    } else if f == (211nat, 'i') {
        GlossaryTerm::RippleLens
    } else if f == (201nat, 'i') {
        GlossaryTerm::EdgeLens
    } else if f == (222nat, 'i') {
        GlossaryTerm::FluidWarpFull
    } else if f == (221nat, 'i') {
        GlossaryTerm::Spotlights
    } else if f == (219nat, 'i') {
        GlossaryTerm::DriftPinholes
    } else if f == (210nat, 'i') {
        GlossaryTerm::EdgeSparks
    } else if f == (187nat, 'i') {
        GlossaryTerm::FieldAdvectSource
    } else if f == (217nat, 'i') {
        GlossaryTerm::CollisionRipples
    } else if f == (207nat, 'i') {
        GlossaryTerm::ZoneBrighten
    } else if f == (193nat, 'i') {
        GlossaryTerm::ZoneLens
    } else {
        GlossaryTerm::PortalWarp
    }
}

proof fn lemma_body_fingerprint(t: GlossaryTerm)
    ensures
        glossary_body(t).len() > 10,
        body_fingerprint(t) == (glossary_body(t).len(), glossary_body(t)[10]),
{
    match t {
        GlossaryTerm::Warp => {
            reveal_strlit("Per-layer corner-pin quad that places the layer on the projector. \
                   Each corner is a point in projector space; drag a corner to \
                   move/resize/distort the layer on the wall directly. Increase \
                   rows × cols (Advanced → Mapping) for finer mesh control.");
        },
        GlossaryTerm::MaskPolygon => {
            reveal_strlit("A polygon drawn over the layer that blocks the image outside its \
                   boundary.  Use it to hide parts of the projection that fall on \
                   surfaces you don't want lit (doors, windows, pillars).");
        },
        GlossaryTerm::Modulator => {
            reveal_strlit("How a parameter changes over time.  \
                   `Static` holds a fixed value; `Sine`, `Sawtooth`, `Square`, \
                   `Random`, and `Bound` animate it on a repeating cycle.");
        },
        GlossaryTerm::Gamma => {
            reveal_strlit("Overall brightness curve of the output.  \
                   Values above 1.0 lift the midtones (brighter); \
                   below 1.0 they darken.  Start at 1.0 and nudge if \
                   the projector looks washed-out or too dark.");
        },
        GlossaryTerm::Brightness => {
            reveal_strlit("Additive offset applied to every pixel after gamma.  \
                   Positive values push towards white; negative values \
                   push towards black.  0.0 leaves the image unchanged.");
        },
        GlossaryTerm::Contrast => {
            reveal_strlit("Stretches the range between dark and bright.  \
                   1.0 is unchanged; higher values increase separation \
                   between shadows and highlights.");
        },
        GlossaryTerm::BlendMode => {
            reveal_strlit("How a layer's pixels combine with the layers below it.  \
                   Normal overwrites; Add makes bright areas brighter (good for \
                   fire / glow); Multiply darkens; Screen is similar to Add but \
                   gentler with very bright content.");
        },
        GlossaryTerm::Crossfade => {
            reveal_strlit("Smooth transition between two scenes.  The duration controls \
                   how many seconds the blend takes to complete.");
        },
        GlossaryTerm::Scene => {
            reveal_strlit("A saved snapshot of all layer content, positions, and settings.  \
                   Switch scenes mid-show to jump between prepared looks.");
        },
        GlossaryTerm::ZoneTemplate => {
            reveal_strlit("A preset mask polygon shape (full, left half, right half, \
                   top/bottom split, etc.) that you can apply in one click instead \
                   of drawing vertices manually.");
        },
        GlossaryTerm::Blackout => {
            reveal_strlit("Cuts the projector output to black instantly.  \
                   The show continues running in the background; \
                   press again to restore.");
        },
        GlossaryTerm::Freeze => {
            reveal_strlit("Holds the last rendered frame on the projector while the \
                   control window keeps updating.  Useful for swapping content \
                   without the audience seeing the edit.");
        },
        GlossaryTerm::TestPattern => {
            reveal_strlit("Replaces the projector output with a calibration source.  \
                   Cycle through patterns to check focus, geometry, corner \
                   alignment, and (P0.7.4) two-projector edge-blend overlap \
                   via the alignment cross + edge-blend gradient patterns.");
        },
        GlossaryTerm::EditorOverlay => {
            reveal_strlit("Draws warp-grid handles and mask-polygon vertices on the \
                   projector output.  Toggle off during a live show so the \
                   audience never sees editing chrome.");
        },
        GlossaryTerm::Effect => {
            reveal_strlit("A real-time filter applied to a single layer \
                   (e.g. Transform moves/scales, others tint or distort).  \
                   Effects stack in order; drag to reorder.");
        },
        GlossaryTerm::FitMode => {
            reveal_strlit("How the layer's source image fills its bounding rectangle.  \
                   `Stretch` fills exactly; `Contain` letterboxes; \
                   `Cover` crops to fill with no bars.");
        },
        GlossaryTerm::MaskFeather => {
            reveal_strlit("Soft fade at the edge of the mask polygon.  \
                   0 = hard edge; values up to about 0.5 produce a \
                   useful graduated blend between lit and dark.");
        },
        GlossaryTerm::GridDetail => {
            reveal_strlit("How many cells make up the warp mesh (rows × columns).  \
                   More cells allow finer local warps but add more control \
                   points to align (see Warp).");
        },
        GlossaryTerm::Opacity => {
            reveal_strlit("Overall transparency of the layer: 1.0 is fully opaque, \
                   0.0 is invisible.  Useful for subtle overlays or \
                   for fading content in and out.");
        },
        GlossaryTerm::DisplayOverride => {
            reveal_strlit("Optional per-projector gamma / brightness / contrast that \
                   replaces the master values for the projector output only.  \
                   Tune the master for what looks right on your laptop, then \
                   set the override for what looks right on the wall.");
        },
        GlossaryTerm::FxLayer => {
            reveal_strlit("A layer whose visual content is generated from its mask \
                   rather than from media.  v0.4 ships a single proof-point \
                   preset (mask-edge ripple wash); the full library of \
                   particle / wave / fluid presets lands in Phase 2.");
        },
        GlossaryTerm::NdiSource => {
            reveal_strlit("A live video stream received over the network from another \
                   machine (e.g. an OBS instance).  v0.4 supports NDI as input \
                   only; output (Phase 7) lets other apps consume rmap's render.");
        },
        GlossaryTerm::EdgeBlendRegion => {
            reveal_strlit("The overlap zone between two projectors where image \
                   brightness is feathered so the seam between the two beams \
                   becomes invisible.  Configure overlap width and falloff \
                   curve per edge.");
        },
        GlossaryTerm::RgbMatrix => {
            reveal_strlit("A 3×3 colour-correction matrix applied per-projector at \
                   present time, after gamma / brightness / contrast.  Use it \
                   to compensate for differences in projector colour response \
                   when two projectors share the same canvas.");
        },
        GlossaryTerm::MidiLearn => {
            reveal_strlit("Right-click any parameter and pick \"Learn next MIDI CC\".  \
                   The next incoming control-change message binds to that \
                   parameter; press ESC to cancel before a CC arrives.");
        },
        GlossaryTerm::DroppedFrames => {
            reveal_strlit("How many audio / video / NDI frames the renderer had to \
                   discard because a bounded queue was full.  A non-zero \
                   value during a show means a producer is outpacing the \
                   render thread; investigate before it becomes visible \
                   on the projector.");
        },
        GlossaryTerm::Treatment => {
            reveal_strlit("A named image-grammar preset applied to an Image or Video \
                   layer before the per-pixel effect chain.  Picks one preset \
                   per layer (tone map, blur mask, luminance reveal, etc.); \
                   parameters tune the look without exposing dozens of \
                   sliders.");
        },
        GlossaryTerm::ToneMap => {
            reveal_strlit("S-curve exposure + contrast + highlight-rolloff applied \
                   per layer.  Lifts shadows and softens blown highlights so \
                   mixed-light footage matches the rest of the scene without \
                   touching the master gamma slider.");
        },
        GlossaryTerm::BlurMask => {
            reveal_strlit("Gaussian blur gated by the layer's mask SDF: pixels near \
                   the mask edge get heavy blur, pixels deep inside stay \
                   sharp.  Feathers a photo's silhouette into the background \
                   without losing detail in the centre.");
        },
        GlossaryTerm::LuminanceReveal => {
            reveal_strlit("Pixels brighter than the threshold show; everything else \
                   becomes transparent.  A soft band around the threshold \
                   smooths the cut.  Useful for keying out dark backgrounds \
                   without a proper chroma key (Phase 7).");
        },
        GlossaryTerm::TextureOverlay => {
            reveal_strlit("A second image multiplies into the source — paper grain, \
                   noise, film texture, sky gradient.  Pick the overlay file \
                   via the preset; opacity + tint tune how much of the \
                   overlay's colour reaches the result.");
        },
        GlossaryTerm::PaletteExtract => {
            reveal_strlit("Posterises the source down to a few colours derived from \
                   the image itself (median-cut at layer load; video uses \
                   the first decoded frame).  Dither smooths transitions; \
                   vibrance exaggerates the extracted palette's saturation.");
        },
        GlossaryTerm::Collage => {
            reveal_strlit("Composites up to four images on one layer in a grid \
                   (1×2, 2×1, or 2×2).  Spacing creates visible gaps between \
                   cells.  Richer authored compositions land alongside scene \
                   grammars in Phase 4.");
        },
        GlossaryTerm::FocalPoint => {
            reveal_strlit("When the layer's fit mode is Cover, the focal point is \
                   the normalised position the crop centres on.  Click the \
                   preview thumbnail to anchor it on the subject (e.g. a \
                   face) so resizing the layer keeps the subject in frame.");
        },
        GlossaryTerm::InOutPoints => {
            reveal_strlit("Trim a video clip to play only between two timestamps. \
                   Seamless-loop wraps from the out-point back to the in-\
                   point instead of clip 0 → end.  Drag the markers on the \
                   scrub bar to set them.");
        },
        GlossaryTerm::LoopMode => {
            reveal_strlit("What happens when a video clip reaches its out-point.  \
                   Once stops on the last frame; Loop wraps to the in-point; \
                   PingPong alternates forward and reverse on each end.");
        },
        GlossaryTerm::BpmLockedPlayback => {
            reveal_strlit("Locks the clip's playback rate to the current BPM so the \
                   clip plays exactly N beats per loop.  Tap-tempo changes \
                   propagate to the rate on the next frame without re-\
                   encoding.");
        },
        GlossaryTerm::ReversePlayback => {
            reveal_strlit("Negative speed plays the clip backwards.  v0.5 uses a \
                   pre-decoded keyframe cache (capped at 30-second clips); \
                   longer clips fall back to forward playback at the \
                   absolute rate with a hint.");
        },
        GlossaryTerm::ThumbnailScrub => {
            reveal_strlit("A timeline strip showing pre-decoded mini-frames from the \
                   clip.  Hover to preview a position; click to seek the \
                   playhead there.  Drag the edges to set in/out points.");
        },
        GlossaryTerm::Particle => {
            reveal_strlit("A single GPU-simulated sprite that moves, fades, and \
                   disappears over its lifetime.  Hundreds of thousands run \
                   in parallel on the GPU; the Particle Budget slider caps \
                   the count to match your hardware.");
        },
        GlossaryTerm::ForceField => {
            reveal_strlit("A directional volume that pushes or pulls particles passing \
                   through it.  Combine several overlapping fields to build \
                   wind, vortex, or gravity effects without touching individual \
                   particle settings.");
        },
        GlossaryTerm::FluidSim => {
            reveal_strlit("A velocity-field simulation that makes particles swirl and \
                   flow like smoke or ink.  Viscosity and diffusion sliders \
                   control whether the motion looks like water, fog, or thick \
                   paint.");
        },
        GlossaryTerm::PresetLibrary => {
            reveal_strlit("The browsable panel showing all built-in and saved FX \
                   presets.  Click a preset to apply it to the selected FX \
                   Layer; use the star to pin favourites to the top.");
        },
        GlossaryTerm::MaskConstrained => {
            reveal_strlit("An effect or emitter whose output is clipped to the layer's \
                   mask polygon.  Particles or distortions that cross the \
                   boundary are removed, keeping the look tidy on irregular \
                   surfaces.");
        },
        GlossaryTerm::EmitterMasking => {
            reveal_strlit("Uses the layer's mask polygon as the spawn surface for \
                   particles.  New particles appear along the mask edge or \
                   inside its filled area depending on the preset's emitter \
                   mode.");
        },
        GlossaryTerm::SdfNormal => {
            reveal_strlit("The outward-pointing direction at any point on the mask \
                   boundary, computed from its signed-distance field.  Presets \
                   use this to shoot particles or waves perpendicular to the \
                   mask edge without manual direction tuning.");
        },
        GlossaryTerm::DisplacementPreset => {
            reveal_strlit("A preset family that pushes pixels outward from the mask \
                   boundary using a wave or ripple offset.  Strength and \
                   frequency sliders control how far pixels shift and how \
                   quickly the wave cycles.");
        },
        GlossaryTerm::RefractionPreset => {
            reveal_strlit("A preset family that bends the layer image at the mask \
                   boundary as if viewed through glass or water.  Index and \
                   blur sliders control the strength of the lens effect.");
        },
        GlossaryTerm::WavePreset => {
            reveal_strlit("A preset family that propagates oscillating patterns outward \
                   from the mask edge.  Speed, amplitude, and wavelength \
                   sliders let you tune it from a gentle shimmer to a heavy \
                   ripple.");
        },
        GlossaryTerm::ParticleBudget => {
            reveal_strlit("The maximum number of live particles allowed on this layer \
                   at once.  Lower the budget if you see dropped frames; raise \
                   it for denser effects when headroom is available.  Changes \
                   take effect on the next spawn cycle.");
        },
        GlossaryTerm::SeedDeterminism => {
            reveal_strlit("A numeric value that locks a preset's random noise to a \
                   fixed sequence.  Two shows with the same seed look \
                   identical.  Change the seed to get a different-but-\
                   repeatable variation of the same preset.");
        },
        GlossaryTerm::EffectChainReorder => {
            reveal_strlit("Drag an effect card up or down in the effect chain to change \
                   the order effects are applied.  Order matters: a blur before \
                   a colour shift produces a different result than the reverse.");
        },
        GlossaryTerm::UserPreset => {
            reveal_strlit("An FX preset you saved from your own parameter tweaks.  \
                   User presets appear in the Preset Library alongside built-in \
                   ones; export them to share with other operators.");
        },
        GlossaryTerm::BuiltInPreset => {
            reveal_strlit("A factory preset shipped with the application that cannot be \
                   deleted.  Built-in presets are a starting point; duplicate \
                   one to create an editable user preset.");
        },
        GlossaryTerm::MaskEdgeRippleWash => {
            reveal_strlit("Spawns a continuous wash of particles along the mask \
                   boundary, flowing outward as a ripple.  Speed and density \
                   sliders tune how fast and thick the wash appears.");
        },
        GlossaryTerm::MaskEdgeWaveWash => {
            reveal_strlit("Emits an oscillating wave wash from the mask edge that \
                   crests and fades across the layer surface.  Amplitude and \
                   frequency control the height and spacing of each wave crest.");
        },
        GlossaryTerm::MaskConstrainedDrift => {
            reveal_strlit("Fills the mask interior with slowly drifting particles that \
                   stay within the boundary.  A gentle effect for giving a \
                   still image a sense of quiet movement without visible \
                   directional flow.");
        },
        GlossaryTerm::MaskEdgeEmission => {
            reveal_strlit("Shoots sparks outward from the mask perimeter, following \
                   the SDF normal direction.  Burst rate and spread angle let \
                   you scale from occasional glints to a constant halo.");
        },
        GlossaryTerm::MaskFieldFlow => {
            reveal_strlit("A force-field preset whose flow lines follow the mask \
                   boundary shape, carrying particles along the contour.  \
                   Works well on text or logo masks to trace their outline \
                   with motion.");
        },
        GlossaryTerm::MaskCollisionReflection => {
            reveal_strlit("Particles fill the layer and bounce elastically off the \
                   mask boundary as if the edge were a solid wall.  \
                   Restitution and particle size sliders control how \
                   energetic the collisions look.");
        },
        GlossaryTerm::MaskBoundedFluid => {
            reveal_strlit("A fluid simulation that treats the mask polygon as a \
                   container: the velocity field swirls inside but cannot \
                   escape the boundary.  Viscosity sets the feel from \
                   thin water to heavy oil.");
        },
        GlossaryTerm::DisplacementRipple => {
            reveal_strlit("Pushes pixels in a radial ripple pattern emanating from the \
                   mask edge, distorting the layer image as if a stone were \
                   dropped into the surface.  Speed sets the ring expansion \
                   rate; strength sets maximum pixel offset.");
        },
        GlossaryTerm::Refraction => {
            reveal_strlit("Bends the layer image at the mask boundary using a \
                   lens-distortion pass, creating a glass-edge or water-\
                   surface appearance.  Index controls how strongly light \
                   bends; blur softens the distorted region.");
        },
        GlossaryTerm::ZoneRoleWindow => {
            reveal_strlit("Tags a mask as a transparent opening (window pane, glass \
                   facade).  Zone-aware presets such as \"light spill from \
                   window zones\" read this tag and activate their effect only \
                   on layers with this role.  Unlike Zone Template, this is a \
                   semantic label — not a geometry shortcut.");
        },
        GlossaryTerm::ZoneRolePortal => {
            reveal_strlit("Tags a mask as a visual passageway or threshold (archway, \
                   doorway, gap in a surface).  Presets such as \"particle drift \
                   through portal zones\" spawn their effect inside this \
                   boundary.  Apply to any region where you want through-the-\
                   surface-style visual depth.");
        },
        GlossaryTerm::ZoneRoleVoid => {
            reveal_strlit("Tags a mask as a non-emitting blank region intended to stay \
                   dark — a recessed area, shadow pocket, or unlit surface.  \
                   Zone-aware presets skip or invert their effect for Void-tagged \
                   layers so the dark region stays visually quiet.");
        },
        GlossaryTerm::ZoneRoleSpill => {
            reveal_strlit("Tags a mask as a surface that catches stray light from a \
                   nearby bright zone — the wall beside a lit window, or a \
                   floor below a lantern.  Presets respond with a softer, \
                   indirect-light treatment rather than the full brightness \
                   reserved for the source zone.");
        },
        GlossaryTerm::ZoneRoleEdge => {
            reveal_strlit("Tags a mask as the perimeter or boundary of a surface feature \
                   (window sill, door reveal, architectural trim).  The \
                   \"ripple at edge zones\" preset amplifies its wave effect \
                   specifically at Edge-tagged layers.  Distinct from the mask \
                   feather, which is a render setting rather than a semantic role.");
        },
        GlossaryTerm::ZoneRoleHighlight => {
            reveal_strlit("Tags a mask as a surface intended to catch a key light or \
                   colour accent — a ceiling cove, decorative panel, or any \
                   area you want to pop.  Zone-aware presets can use this tag \
                   to brighten or saturate the region relative to the rest of \
                   the scene.");
        },
        GlossaryTerm::ZoneRoleLightSource => {
            reveal_strlit("Tags a mask as a practical luminaire or architectural \
                   element that emits light in the scene — a sconce, lantern, \
                   or ceiling fixture.  Phase 5 will let fixtures bind to \
                   Light Source zone activity; in Phase 3 this tag acts as a \
                   semantic label FX presets can branch on.");
        },
        GlossaryTerm::ZoneAwareShader => {
            reveal_strlit("An FX preset whose behaviour adapts based on the zone tag \
                   of the layer it is applied to.  A zone-aware preset reads \
                   the tag at runtime and activates its effect only when the \
                   tag matches its target role; applying it to an untagged layer \
                   produces a neutral (transparent) output.");
        },
        GlossaryTerm::ZoneTag => {
            reveal_strlit("The semantic role attached to a mask polygon, chosen from \
                   the closed seven-role palette: Window, Portal, Void, Spill, \
                   Edge, Highlight, or Light Source.  Set the tag in the zone \
                   palette inside Mask mode.  Unlike Zone Template (a geometry \
                   shortcut for common polygon shapes), a Zone Tag is purely \
                   semantic — it does not change the polygon's shape.");
        },
        GlossaryTerm::SceneTemplate => {
            reveal_strlit("A named, parameterised recipe that assembles media, zones, \
                   and FX presets into a ready-to-run scene.  Pick a template \
                   in the wizard, assign a few assets, and confirm — the scene \
                   is live in under a minute.");
        },
        GlossaryTerm::SceneGrammar => {
            reveal_strlit("The structural vocabulary of a scene: which zone roles it \
                   binds, which media slots it accepts, and which FX presets it \
                   activates.  Every built-in template documents its grammar so \
                   the zone-mapping step is unambiguous.");
        },
        GlossaryTerm::Wizard => {
            reveal_strlit("A guided multi-step flow for creating a scene from a \
                   template: template select → media → zone binding → palette \
                   → tempo → confirm.  Cancel at any step to return to the \
                   previous state; one Cmd-Z undoes the entire commit.");
        },
        GlossaryTerm::PaletteMood => {
            reveal_strlit("A curated colour accent set (Warm, Cool, or Neutral) that \
                   templates apply to tint their output.  Warm leans amber and \
                   gold; Cool leans blue and cyan; Neutral leaves the source \
                   colours largely unchanged.");
        },
        GlossaryTerm::Mood => {
            reveal_strlit("The emotional character of a scene template: Calm (gentle, \
                   slow motion), Energetic (fast, punchy), or Ethereal (soft, \
                   dreamy).  Templates use this to pre-select animation speed \
                   and particle density defaults.");
        },
        GlossaryTerm::TempoSync => {
            reveal_strlit("Locks a template's animation speed to the project BPM so \
                   particle bursts, wave cycles, and wipe timings all fall on \
                   the beat.  Requires the BPM clock to be running; toggle \
                   off for freeform, non-musical scenes.");
        },
        GlossaryTerm::BezierHandles => {
            reveal_strlit("Smooth-curve control handles for mask polygon edges that \
                   let operators draw arched window reveals and organic shapes \
                   without lots of vertices.  Bezier handles are planned for \
                   Phase 7; current masks use straight-edge polygons only.");
        },
        GlossaryTerm::WindowReveal => {
            reveal_strlit("A soft wash of light that flows through masks tagged as \
                   Window zones, evoking daylight filtering through a glass \
                   facade.  Assign a background image and tag your window \
                   masks to see the reveal animate across the surface.");
        },
        GlossaryTerm::PixelDrift => {
            reveal_strlit("Fine particles drift slowly and quietly across the source \
                   media, giving a still photograph the feeling of faint \
                   movement without any visible direction or narrative.");
        },
        GlossaryTerm::CollagBloom => {
            reveal_strlit("Composites four images in a 2×2 grid with particles \
                   blooming outward from each image edge.  Assign a different \
                   photo to each slot for maximum contrast between the cells.");
        },
        GlossaryTerm::GlowBehindOpenings => {
            reveal_strlit("Fluid light pools inside masks tagged as Portal zones, \
                   suggesting that warm interior light is spilling through \
                   archways or doorways.  Intensity follows the fluid \
                   simulation viscosity slider.");
        },
        GlossaryTerm::FragmentedPortrait => {
            reveal_strlit("A portrait image that shatters into fragment-like particles \
                   bouncing off the mask boundary.  Works best with a \
                   high-contrast portrait on a dark background.");
        },
        GlossaryTerm::ArchitecturalWash => {
            reveal_strlit("A gentle ripple-wave wash that traces the edges of surfaces \
                   tagged as Edge zones — sills, reveals, and trims.  \
                   Upgrade of the v3 Architectural Wash FX preset; the \
                   underlying effect is unchanged, but this scene template \
                   adds media input and zone composition.");
        },
        GlossaryTerm::MaskEdgeRippleWashScene => {
            reveal_strlit("The classic ripple-wash FX preset promoted to a full scene \
                   template for one-click setup.  No source media required — \
                   the effect generates its own visual content from the mask \
                   boundary alone.");
        },
        GlossaryTerm::LightSpillFromWindows => {
            reveal_strlit("Light appears to leak outward from masks tagged as Window \
                   zones, as if an interior lamp is casting through the \
                   aperture onto the surrounding wall.  Assign an interior-\
                   light image to the media slot for the strongest effect.");
        },
        GlossaryTerm::DmxUniverse => {
            reveal_strlit("A 512-channel DMX data packet, the fundamental unit of \
                   lighting network traffic.  Each Art-Net or sACN packet \
                   carries one universe; fixtures are addressed by universe \
                   number + channel offset within that universe.");
        },
        GlossaryTerm::FixtureGroup => {
            reveal_strlit("A named collection of fixtures that share a personality \
                   (channel layout), DMX universe, and canvas sampling region.  \
                   rmap sends one DMX value per fixture in the group each \
                   frame, derived from the assigned canvas area.");
        },
        GlossaryTerm::PixelMap => {
            reveal_strlit("A grid of UV sample points spread across a canvas region.  \
                   rmap averages the pixel colours at each grid point and maps \
                   the result to the fixture group's DMX channels, letting \
                   physical lights chase the projected image in real time.");
        },
        GlossaryTerm::DmxTransport => {
            reveal_strlit("The network protocol used to carry DMX universe packets to \
                   fixtures.  Phase 5 ships Art-Net (UDP, port 6454); the \
                   transport abstraction lets Phase 7 add sACN (E1.31) without \
                   changing the fixture or canvas-sampling code.");
        },
        GlossaryTerm::ArtNetTransport => {
            reveal_strlit("The Phase 5 implementation of the DMX Transport that sends \
                   Art-Net ArtDmx PDUs over UDP to a configurable unicast or \
                   subnet-broadcast address on port 6454.  Compatible with \
                   Enttec, Artistic Licence, and most budget Art-Net nodes.");
        },
        GlossaryTerm::ChannelRole => {
            reveal_strlit("The function of a single DMX channel within a fixture's \
                   footprint — Red, Green, or Blue in Phase 5.  rmap uses the \
                   channel map to write the correct colour byte to the correct \
                   DMX address; unknown roles are left at zero and will be \
                   extended in Phase 7.");
        },
        GlossaryTerm::ColorStrategy => {
            reveal_strlit("How the sampled canvas pixel colour is converted to DMX byte \
                   values.  RGB Direct copies the pixel bytes unchanged.  HSV \
                   Intensity Gate dims all channels by the pixel's brightness \
                   so dark canvas areas fade the fixture toward black.  \
                   RGBW Fill is planned for Phase 7.");
        },
        GlossaryTerm::LightingTap => {
            reveal_strlit("A 64×36 downsampled copy of the composited canvas rendered \
                   once per frame on the GPU and read back by the lighting \
                   thread.  The low resolution keeps readback bandwidth to \
                   under 10 KB per frame, leaving the render thread unaffected.");
        },
        GlossaryTerm::OutputStrategy => {
            reveal_strlit("The per-fixture-group setting that controls how canvas colour \
                   is translated to DMX values: RGB Direct for accurate colour \
                   reproduction, HSV Intensity Gate for brightness-following \
                   wash behaviour.  Additional strategies are planned for Phase 7.");
        },
        GlossaryTerm::Cue => {
            reveal_strlit("A single entry in the cuelist: a saved scene snapshot plus \
                   per-cue timing (in-time, hold, out-time), fire mode (Follow \
                   or Go-on-trigger), BPM-bar quantize, and an optional timecode \
                   trigger position.");
        },
        GlossaryTerm::Cuelist => {
            reveal_strlit("The ordered list of cues the operator steps through during a \
                   live show.  Navigate with ←/→ to arm the next cue and Space \
                   (or MIDI 60) to fire it.  Cues in Follow mode advance \
                   automatically without operator input.");
        },
        GlossaryTerm::ArmedNext => {
            reveal_strlit("The next cue in the cuelist, highlighted with an amber ring in \
                   the cue strip and ready to fire on the next go command (Space / \
                   MIDI Note 60 / OSC /rmap/cue/go).  Move the arm with ←/→ \
                   without firing.");
        },
        GlossaryTerm::LiveCue => {
            reveal_strlit("The cue currently playing or crossfading on the projector.  \
                   Shown with a \"LIVE\" badge on its tile and a progress ring \
                   during the in-time crossfade.  The live cue advances to the \
                   next cue on a go command or automatically in Follow mode.");
        },
        GlossaryTerm::FollowChain => {
            reveal_strlit("A sequence of cues whose fire mode is set to Follow — they \
                   advance automatically from one to the next after each cue's \
                   hold time expires, without operator input.  The chain halts \
                   at the first Go-on-trigger cue or when the list is exhausted.");
        },
        GlossaryTerm::GoOnTrigger => {
            reveal_strlit("A cue fire mode that pauses the follow chain and waits for an \
                   explicit go command (Space / MIDI Note 60 / OSC /rmap/cue/go) \
                   before advancing to the next cue.  Use this for cues that \
                   require the operator to confirm timing live.");
        },
        GlossaryTerm::FollowMode => {
            reveal_strlit("A cue fire mode that fires the next cue automatically after the \
                   current cue's hold time expires, with no operator input required.  \
                   Chain multiple Follow-mode cues to build an auto-advancing \
                   sequence; the chain halts at the first Go-on-trigger cue.");
        },
        GlossaryTerm::InTime => {
            reveal_strlit("The crossfade duration (seconds) from the previous cue's state \
                   into this cue's scene snapshot.  0.0 snaps instantly; values up \
                   to 60 s create a slow dissolve.  The progress ring on the live \
                   cue tile shows in-time completion.");
        },
        GlossaryTerm::HoldTime => {
            reveal_strlit("How long the cue stays fully live after its in-time completes \
                   before the transport can advance (seconds).  \"∞\" (no value) \
                   means hold indefinitely until a go command or timecode trigger \
                   fires.  Used with Follow mode to create timed auto-advance.");
        },
        GlossaryTerm::OutTime => {
            reveal_strlit("The crossfade duration (seconds) from this cue's scene as the \
                   next cue's in-time begins.  In most workflows this is 0 because \
                   the next cue's in-time handles the blend; set it non-zero when \
                   you want the outgoing cue to fade before the next one fades in.");
        },
        GlossaryTerm::BpmQuantize => {
            reveal_strlit("Defers a cue's fire to the next 1 / 2 / 4 / 8-bar boundary at \
                   the current BPM instead of firing immediately on the go command.  \
                   The armed cue ring stays visible during the wait so the operator \
                   can see the pending fire.  Set to Off to fire on the exact \
                   trigger moment.");
        },
        GlossaryTerm::TimecodePosition => {
            reveal_strlit("An HH:MM:SS:FF timestamp (hours, minutes, seconds, frames) used \
                   as a cue trigger: when the incoming LTC or MTC timecode signal \
                   reaches this position the transport fires the cue automatically.  \
                   Requires a timecode source (LTC or MTC) to be active.");
        },
        GlossaryTerm::TransportHud => {
            reveal_strlit("The persistent on-screen panel showing live BPM value, the \
                   current tap source (Space / MIDI / OSC / MIDI Clock), the \
                   armed-next cue name and index, and a global BPM quantize \
                   override selector.  Always visible during Editing and Go-live \
                   states.");
        },
        GlossaryTerm::Ltc => {
            reveal_strlit("SMPTE 12M timecode carried as an audio-rate biphase-mark \
                   signal on a standard audio cable.  rmap decodes it via the \
                   `ltc` cargo feature (requires libltc) and uses the decoded \
                   HH:MM:SS:FF position to fire timecode-triggered cues within \
                   ±1 frame of the specified position.");
        },
        GlossaryTerm::Mtc => {
            reveal_strlit("MIDI Timecode: eight quarter-frame MIDI messages (status 0xF1) \
                   sent by a DAW or hardware sequencer that assemble into a full \
                   HH:MM:SS:FF timecode position.  Decoded inside the MIDI bus \
                   (no extra feature gate) and used to fire timecode-triggered \
                   cues.");
        },
        GlossaryTerm::MidiClock => {
            reveal_strlit("MIDI timing clock: 24 pulses per quarter note sent as status \
                   0xF8 messages.  rmap derives a rolling BPM average from the \
                   inter-pulse timing and uses it as an alternative tap source \
                   alongside Space, MIDI Note 60, and OSC /rmap/tap.");
        },
        GlossaryTerm::Syphon => {
            reveal_strlit("macOS inter-application video sharing protocol.  A Syphon \
                   server publishes a texture by name; any Syphon client on the \
                   same machine — OBS, VDMX, Resolume Arena, Millumin — can \
                   subscribe to it without a capture card or network hop.");
        },
        GlossaryTerm::SyphonOutput => {
            reveal_strlit("When enabled, rmap publishes its composited projector output \
                   as a Syphon source named \"rmap – <project name>\".  Toggle \
                   it in the Output panel; OBS or another Syphon client will see \
                   it in its source picker immediately.");
        },
        GlossaryTerm::CalibrationFile => {
            reveal_strlit("A `.rmap-calibration.json` file that stores the warp mesh, \
                   mask polygon, gamma curve, and display identity for a physical \
                   venue.  Saved once per venue; loaded alongside any show file so \
                   the geometry is always correct without editing the show itself.");
        },
        GlossaryTerm::SurfaceSlot => {
            reveal_strlit("A logical projector output identified by a stable UUID inside \
                   the calibration file.  The show file's OutputTarget binds to \
                   a surface slot at load time; if the IDs don't match rmap falls \
                   back to an identity warp and shows an audit warning.");
        },
        GlossaryTerm::VenueCalibration => {
            reveal_strlit("The complete set of per-surface geometric and colour corrections \
                   (warp, mask, gamma) for a physical installation.  Venue \
                   calibration travels with the room, not the show: one calibration \
                   file works with every show file designed for that venue.");
        },
        GlossaryTerm::BezierWarp => {
            reveal_strlit("A warp mesh whose row and column edges are cubic Bezier curves \
                   rather than straight lines.  Pull the tangent handles on any \
                   anchor point to bow a single edge, enabling smooth wrapping on \
                   columns, arches, and organic architectural shapes.");
        },
        GlossaryTerm::Anchor => {
            reveal_strlit("A corner point of the Bezier warp mesh that lies exactly on the \
                   projection surface.  Drag an anchor in Anchor mode to reposition \
                   it and its attached tangent handles together; the corner point \
                   itself is always on the surface.");
        },
        GlossaryTerm::TangentHandle => {
            reveal_strlit("A control point connected to an anchor by a thin line.  Dragging \
                   the handle bows the adjacent Bezier edge without moving the \
                   anchor.  In Tangent mode the two handles of a smooth pair mirror \
                   each other; hold Shift to break symmetry for a cusp corner.");
        },
        GlossaryTerm::InverseMask => {
            reveal_strlit("Flips the mask so the region that was blocked becomes revealed \
                   and the region that was visible becomes blocked.  Toggle \
                   \"Inverse\" in the Mask sub-row; undo restores the previous \
                   state.");
        },
        GlossaryTerm::LumaKey => {
            reveal_strlit("Derives the mask alpha from the brightness of the rendered \
                   output: pixels above the threshold become opaque; pixels below \
                   become transparent (or the reverse when Inverse is also active).  \
                   Adjust the Threshold and Softness sliders in the Mask panel.");
        },
        GlossaryTerm::ChromaKey => {
            reveal_strlit("Removes a specific hue range from the rendered output by setting \
                   those pixels to transparent — the classic green-screen technique.  \
                   Set the Hue Centre, Hue Range, Saturation Threshold, and Softness \
                   in the Mask panel; works on any colour, not just green.");
        },
        GlossaryTerm::Rgbw => {
            reveal_strlit("A four-channel DMX colour model (Red, Green, Blue, White) \
                   used by warm-white architectural LED fixtures.  rmap extracts \
                   the white component from the sampled canvas colour using the \
                   fixture group's CCT, reducing colour noise at high intensities \
                   compared with driving the white channel from raw pixel data.");
        },
        GlossaryTerm::ColourTemperature => {
            reveal_strlit("The Kelvin value describing the warmth or coolness of a light \
                   source.  2700 K is warm amber (like an incandescent lamp); \
                   6500 K is cool blue-white (like daylight).  Set the colour \
                   temperature of an RGBW fixture group to match the physical \
                   fixture spec so the White channel renders correctly.");
        },
        GlossaryTerm::Cct => {
            reveal_strlit("Short for Correlated Colour Temperature: the Kelvin value that \
                   best describes the white point of a light source.  rmap uses the \
                   CCT setting on an RGBW fixture group to compute how much of the \
                   sampled canvas colour flows into the White DMX channel versus \
                   the Red, Green, and Blue channels.");
        },
        GlossaryTerm::ScenePack => {
            reveal_strlit("A portable `.rmap-scene-pack.zip` archive containing one or more \
                   scene templates and their referenced assets (images, SVGs, FX \
                   presets).  Export a scene pack from the layer context menu; \
                   import it via File > Import Scene Pack to make its templates \
                   available in the Preset Browser.");
        },
        GlossaryTerm::EdgeBlendGradient => {
            reveal_strlit("A calibration verify pattern that fades from fully opaque to \
                   transparent across a configurable screen edge and blend width.  \
                   Used to set up and verify the overlap zone between two adjacent \
                   projectors; deactivate when the show is running.");
        },
        GlossaryTerm::CalibrationVerify => {
            reveal_strlit("A full-screen test pattern (alignment cross, dot grid, colour \
                   bars, edge-blend gradient, focus chart, or geometry grid) \
                   rendered over the projector output to verify warp accuracy, \
                   colour, and focus.  Select a pattern in the Output panel's \
                   Verify section; deactivate to return to the show.");
        },
        GlossaryTerm::FxFamilySourceModifier => {
            reveal_strlit("A class of FX preset that reads the underlying layer image \
                   and writes a modified version — warping, lensing, brightening, \
                   or smearing the photo — rather than painting its own pixels on \
                   top.  Distinct from generative overlays like ripple wash or \
                   edge emission.");
        },
        GlossaryTerm::EffectTreatment => {
            reveal_strlit("An effect-chain variant that runs a single treatment preset \
                   (tone map, displacement ripple, refraction, palette extract, \
                   collage, etc.) on one layer only, rather than as a global \
                   pass over the composited frame.  Lets you grade or warp one \
                   layer while others remain untouched.");
        },
        GlossaryTerm::EffectFeedback => {
            reveal_strlit("An effect that blends the previous frame's layer output back \
                   into the current frame, producing trails, echoes, and motion \
                   smear.  Decay controls trail length; offset adds directional \
                   motion-trail.  Decay is modulator-driven so the trail can \
                   pulse with audio or MIDI.");
        },
        GlossaryTerm::EffectTint => {
            reveal_strlit("A colour-mixing effect with three modes: multiply (proper tint \
                   that darkens toward the chosen colour), additive (wash that \
                   lightens), and screen.  The amount slider is modulator-driven \
                   so the tint can pulse with audio or MIDI input.");
        },
        GlossaryTerm::MaskNodeUnion => {
            reveal_strlit("A mask-graph operation that combines two mask polygons so the \
                   result covers either region — the Boolean union of overlapping \
                   shapes.  Use it when you want one logical mask out of two \
                   separately drawn polygons.");
        },
        GlossaryTerm::MaskNodeSubtract => {
            reveal_strlit("A mask-graph operation that cuts the second polygon out of the \
                   first, leaving the area the first mask covers minus the area \
                   the second mask covers.  Useful for window-with-mullion shapes \
                   and other 'hole through' geometry.");
        },
        GlossaryTerm::FluidWarp => {
            reveal_strlit("Source-modifying preset: runs a 2D fluid simulation inside \
                   the mask, displacing the underlying photo by the velocity \
                   field.  The image flows like water; amplitude scales the \
                   distortion.  Mask-bounded — fluid never leaks outside the \
                   shape.");
        },
        GlossaryTerm::RippleLens => {
            reveal_strlit("Source-modifying preset: concentric rings from the mask edge \
                   act as refraction lenses, bulging and contracting the \
                   underlying image in bands.  Optional chromatic split per ring \
                   gives a chromatic-aberration look.");
        },
        GlossaryTerm::EdgeLens => {
            reveal_strlit("Source-modifying preset: four traveling refraction bumps orbit \
                   the mask edge, distorting the image at each crest and letting \
                   it recover between them — a 'force field' look without any \
                   overlay geometry.");
        },
        GlossaryTerm::FluidWarpFull => {
            reveal_strlit("Source-modifying preset: like Fluid Warp but unbounded — the \
                   underlying photo flows across the entire layer, not just \
                   inside the mask.  Pair with Fluid Warp on a sibling layer for \
                   'fluid inside, calm outside' compositions.");
        },
        GlossaryTerm::Spotlights => {
            reveal_strlit("Source-modifying preset: each particle becomes a soft Gaussian \
                   brightener that lifts source-pixel luminance in its radius.  \
                   The underlying photo stays visible everywhere; particles light \
                   it up rather than painting on top.");
        },
        GlossaryTerm::DriftPinholes => {
            reveal_strlit("Source-modifying preset: white-dot particles drift inside the \
                   mask, but instead of being opaque dots each one is a pinhole \
                   through which the underlying photo is visible.  The layer \
                   becomes a moving stencil of the image.");
        },
        GlossaryTerm::EdgeSparks => {
            reveal_strlit("Source-modifying preset: particles fly outward from the mask \
                   edge and each one additively lifts the underlying source's \
                   luminance in a soft radius — sparks light up the photo rather \
                   than overlaying opaque dots.");
        },
        GlossaryTerm::FieldAdvectSource => {
            reveal_strlit("Source-modifying preset: uses the mask SDF gradient field to \
                   advect the underlying photo along the mask normals over time.  \
                   No visible particles — the gradient acts on the image \
                   directly.");
        },
        GlossaryTerm::CollisionRipples => {
            reveal_strlit("Source-modifying preset: particles bounce inside the mask, and \
                   each collision event injects a small ripple into a \
                   displacement field that warps the underlying photo — physical \
                   interaction between simulation and image.");
        },
        GlossaryTerm::ZoneBrighten => {
            reveal_strlit("Source-modifying preset: like Zone Light Spill but instead of \
                   adding a warm colour overlay, multiplicatively lifts the \
                   luminance of source pixels in the spill region.  Same falloff \
                   curve, more grounded look.");
        },
        GlossaryTerm::ZoneLens => {
            reveal_strlit("Source-modifying preset: displaces the underlying photo's UV \
                   in a thin band at the zone edge, so the image warps when you \
                   cross through the zone perimeter.  Rest of the layer remains \
                   untouched.");
        },
        GlossaryTerm::PortalWarp => {
            reveal_strlit("Source-modifying preset: particles drift through portal zones \
                   (doorways, openings) and each one displaces source pixels in \
                   its radius — produces a 'ghost moving through the room' \
                   effect on a photo of the room.");
        },
    }
}

#[verifier::rlimit(50)]
proof fn lemma_body_fingerprint_decodes(t: GlossaryTerm)
    ensures
        term_of_body_fingerprint(body_fingerprint(t)) == t,
{
}

/// No two terms share a body: each entry explains its own term, so no
/// entry can carry another term's explanation.
pub proof fn lemma_bodies_distinct(a: GlossaryTerm, b: GlossaryTerm)
    requires
        a != b,
    ensures
        glossary_body(a) != glossary_body(b),
{
    lemma_body_fingerprint(a);
    lemma_body_fingerprint(b);
    lemma_body_fingerprint_decodes(a);
    lemma_body_fingerprint_decodes(b);
}

} // verus!
