pub mod decoder;
pub mod record_message;
