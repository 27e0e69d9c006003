//! Pure logic behind rmap's control windows: labels, glossary copy,
//! binding vocabulary, id generation, thumbnail maths and preset helpers.

pub mod anim;
pub mod binding;
pub mod glossary;
pub mod text;
pub mod layers;
pub mod file_names;
pub mod labels;
pub mod look_chain;
pub mod sections;
pub mod output;
pub mod selection;
pub mod parameter_row;
pub mod cue_strip;
pub mod presets;
pub mod browser;
pub mod edits;
pub mod control_panel;
pub mod zones;
