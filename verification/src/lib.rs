//! Client-side core for a local smart-light bridge: JSON values, response
//! normalisation, request building and the slider update scheduler.

pub mod api;
pub mod delegate;
pub mod error;
pub mod json;
pub mod light_controller;
pub mod menu;
pub mod normalize;
pub mod transport;
