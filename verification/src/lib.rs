pub mod db;
pub mod handlers;
pub mod server;
pub mod telegram;
