pub mod client;
pub mod completer;
pub mod notification_handler;
pub mod payload;
pub mod response;
pub mod server;
