pub mod laws;
pub mod types;
