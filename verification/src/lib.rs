//! Upload lifecycle and content-addressed storage engine of a self-hosted
//! content store.
//!
//! Every function here carries a contract over a mathematical model of the
//! data it touches, and the verifier proves each body against its contract.

pub mod background_worker;
pub mod config;
pub mod db;
pub mod digest;
pub mod json;
pub mod lists;
pub mod routes;
pub mod state;
pub mod utils;
