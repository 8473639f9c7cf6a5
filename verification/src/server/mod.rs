pub mod config;
pub mod controllers;
pub mod nats;
pub mod stream_manager;
