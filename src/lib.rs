//! Shared-ownership handles that remember where each live instance was
//! created, so that leaks and reference cycles can be traced back to their
//! call sites.

pub mod handle;
pub mod lineage;
pub mod registry;
pub mod tracer;
