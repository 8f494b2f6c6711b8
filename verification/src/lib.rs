//! Pure-data compositor backend boundary: event adapters, runtime probe,
//! surface admission pipeline and nested client session bridging.

pub mod core_model;
pub mod text;
pub mod smithay_backend;
