//! Speech-to-text models: the catalogue and its on-disk management.
pub mod registry;
pub mod manager;
