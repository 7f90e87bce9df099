pub mod memory;
pub mod strings;
