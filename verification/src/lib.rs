pub mod laws;
pub mod meter;
