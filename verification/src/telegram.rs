pub mod chat;
pub mod client;
pub mod models;
pub mod user_message;
