pub mod presets;
pub mod voice;
