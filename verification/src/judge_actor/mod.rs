pub mod handler;
pub mod utils;
