//! The actions a message can carry, decoded from its attributes.
pub mod http;
pub mod log;
pub mod sns;
