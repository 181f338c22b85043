//! A NationStates API wrapper: request builders, response models and their conversions.
pub mod text;
pub mod shards;
pub mod client;
pub mod models;
pub mod parsers;
