pub mod generator;
pub mod presets;
pub mod precedence;
pub mod secondary;
