//! Derives the metadata descriptor of a callable entry point from its signature.

pub mod model;
pub mod classify;
pub mod schema;
pub mod record;
pub mod descriptor;
pub mod laws;
