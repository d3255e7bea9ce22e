//! Data the web front end is served: reference-section and aggregate DTOs,
//! and the adapters that project session data into them.

pub mod adapter;
pub mod diff;
pub mod aggregate;
pub mod content_key;
pub mod fleet;
pub mod fleet_laws;
pub mod grouping;
pub mod upload;
pub mod view;
pub mod web_types;
