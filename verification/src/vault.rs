pub mod api;
pub mod client;
pub mod decryption;
pub mod encryption;
pub mod keys;
pub mod service;
pub mod transit;
