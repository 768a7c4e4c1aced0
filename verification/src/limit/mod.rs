pub mod presets;
pub mod ui;
