pub mod config;
pub mod events;
pub mod types;
pub mod manager;
pub mod pump;
pub mod session;
