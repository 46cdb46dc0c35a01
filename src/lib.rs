//! Ingestion of a cycling broadcast's feeds and the ride analytics derived from its focus
//! feed, with contracts proved by Verus.
pub mod athlete;
pub mod facade;
pub mod payload;
pub mod ride;
pub mod tpvbc;

pub use facade::{BcastMethod, Facade};
