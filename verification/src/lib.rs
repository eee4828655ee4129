//! Host-side virtio-gpu components: the cross-domain context that bridges a
//! guest to a host stream socket, the software 2D backend, and the data they
//! share.
//!
//! Everything here is plain data and decisions. Sockets, pipes, futexes,
//! threads and guest memory stay with the caller, which performs the actions
//! this library returns and reports their outcome back.

pub mod context_common;
pub mod cross_domain;
pub mod handle;
pub mod magma;
pub mod rutabaga_2d;
pub mod rutabaga_2d_laws;
pub mod rutabaga_core;
pub mod rutabaga_utils;
pub mod virgl_renderer;
