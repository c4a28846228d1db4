//! An embeddable execution core: interchangeable, versioned algorithms run
//! against raw byte buffers, with working memory split into a shared region
//! set and a lock-guarded protected region set.

pub mod algorithm;
pub mod engine;
pub mod memory;
pub mod region;
pub mod registry;

pub use engine::CoreEngine;
