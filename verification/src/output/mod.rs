//! Output types produced by the negotiation pipeline.

pub mod config;
pub mod rejection;
pub mod trace;
pub mod warning;
