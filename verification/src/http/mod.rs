pub mod client;
pub mod http_messages;
