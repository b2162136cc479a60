//! Resolution of board resource schemas against a board configuration
//! table, and emission of the type aliases, record, capability checks and
//! constructor template that bind a resource to concrete peripherals.

pub mod model;
pub mod outside;
pub mod resolve;
pub mod emit;
pub mod laws;
pub mod paths;
pub mod loader;
pub mod schema;
