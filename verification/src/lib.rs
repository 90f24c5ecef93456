//! Native inference-engine bridge: opaque-handle lifecycle, round-robin
//! dispatch over a pool of backend sessions, and the staged session/runtime
//! construction that must succeed atomically before a handle is usable.
//!
//! The model-execution library itself (forward pass, tensor math) is out of
//! scope; it is reached through a small set of trusted wrappers, and the
//! decisions around it — argument guards, instance selection, buffer
//! finishing, resource release — are verified here.

pub mod errors;
pub mod config;
pub mod pool;
pub mod bridge;
pub mod engine;
pub mod registry;
pub mod session;
pub mod ort_base;
pub mod boundary;
