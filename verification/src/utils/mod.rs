pub mod config;
pub mod message_body_builder;
