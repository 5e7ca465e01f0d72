pub mod base;
pub mod errors;
pub mod role;
pub mod store;
pub mod user;
