//! Probabilistic world-model support: terrain and object classes,
//! spatial cells, pooling, bounded logs and tracing.

pub mod terrain;
pub mod objects;
pub mod h3_optimization;
pub mod memory_pool;
pub mod observability;
pub mod fusion;
pub mod passage;
pub mod store;
