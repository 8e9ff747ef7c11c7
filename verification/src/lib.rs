pub mod command;
pub mod config;
pub mod db_client;
pub mod error;
pub mod json;
pub mod logging;
pub mod lsp;
pub mod readline;
pub mod state;
pub mod task;
pub mod text;
