pub mod base;
pub mod common;
pub mod errors;
pub mod role;
pub mod user;
