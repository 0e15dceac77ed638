//! Model cache resolution and daemon supervision for a background
//! puzzle-solving service.
//!
//! The library holds the decisions; the program around it performs the
//! file, network and process work that each decision asks for.
pub mod checksum;
pub mod daemon;
pub mod predictor;
pub mod store;
