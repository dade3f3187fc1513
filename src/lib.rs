//! Core of a minimal transformer inference engine: checkpoint header
//! decoding, hyperparameter validation, the tensor layout of a weight file,
//! scratch-buffer sizing and key/value cache addressing.
pub mod attention;
pub mod config;
pub mod error;
pub mod layout;
pub mod loader;
pub mod state;
pub mod transformer;
