pub mod error;
pub mod handlers;
pub mod json;
pub mod laws;
pub mod response;
pub mod store;
pub mod user;
