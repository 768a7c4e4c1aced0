pub mod delay;
