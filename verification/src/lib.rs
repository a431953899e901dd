//! Maps the commands of a search-cluster client onto HTTP request descriptors.

pub mod arguments;
pub mod client;
pub mod configuration;
pub mod decimal;
pub mod laws;
pub mod request;
pub mod text;
pub mod tunnel;
