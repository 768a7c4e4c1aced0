pub mod presets;
pub mod ui;
pub mod params;
pub mod preset_shapes;
