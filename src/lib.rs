pub mod error;
pub mod message;
pub mod placeholder;
pub mod image;
pub mod job;
pub mod worker;
