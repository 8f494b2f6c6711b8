pub mod backend_driver;
pub mod laws;
pub mod runtime;
pub mod runtime_bridge;
pub mod state;
pub mod types;
