pub mod errors;
pub mod login;
pub mod middlewares;
pub mod response;
