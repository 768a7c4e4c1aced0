pub mod presets;
