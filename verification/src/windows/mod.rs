pub mod utils;
pub mod winspool;
