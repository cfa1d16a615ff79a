//! Settings that a front end edits and hands to the engine.

pub mod quirks_presets;
pub mod quirks_settings;

pub use quirks_presets::QuirksPreset;
pub use quirks_presets::QuirksPresetHandler;
pub use quirks_settings::Quirk;
pub use quirks_settings::QuirksSettings;
