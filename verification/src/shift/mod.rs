pub mod presets;
pub mod grain;
pub mod preset_shapes;
