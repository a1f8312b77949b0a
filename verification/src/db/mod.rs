//! Record stores: one table of records per kind of artifact.

pub mod file;
pub mod table;
pub mod user;
pub mod video;
