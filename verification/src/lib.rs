pub mod buffer;
pub mod channel;
pub mod error;
pub mod server;
pub mod set;
