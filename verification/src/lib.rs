pub mod json;
pub mod protocol;
pub mod listing;
pub mod handlers;
pub mod codec;
pub mod connection;
pub mod session;
pub mod laws;
pub mod state;
