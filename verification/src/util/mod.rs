pub mod constants;
pub mod types;
