//! A forms service: form definitions, their rendering inputs, typed
//! submissions and the decisions of its request layer.
pub mod models;
pub mod error;
pub mod ids;
pub mod coerce;
pub mod store;
pub mod api;
pub mod render;
