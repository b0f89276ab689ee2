pub mod messages;
pub mod request;
