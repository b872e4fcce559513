pub mod signal;
pub mod transform;
