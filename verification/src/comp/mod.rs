pub mod presets;
pub mod preset_shapes;
