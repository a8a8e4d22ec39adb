//! A system-wide text refiner: configuration, key protection, prompt
//! plumbing and response handling, with their contracts.
pub mod text;
pub mod api;
pub mod config;
pub mod secret;
pub mod notify;
pub mod about;
pub mod clipboard;
pub mod instructions;
pub mod hotkey;
pub mod workflow;
