pub mod base;
pub mod traits;
