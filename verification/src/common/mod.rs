pub mod communication;
pub mod config;
pub mod message;
