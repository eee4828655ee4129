//! The magma component.

pub mod component;
pub mod context;
