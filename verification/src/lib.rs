pub mod comp;
pub mod deess;
pub mod delay;
pub mod drive;
pub mod dsp;
pub mod eq;
pub mod formatting;
pub mod limit;
pub mod presets;
pub mod pump;
pub mod punch;
pub mod shift;
pub mod synth;
pub mod text;
