pub mod channel;
pub mod consistency;
pub mod names;
pub mod session;
pub mod state;
