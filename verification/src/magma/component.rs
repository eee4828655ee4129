//! The magma component: it reports no capabilities and makes contexts that
//! keep track of guest resources.

use crate::magma::context::MagmaVirtioGpuContext;
use crate::rutabaga_utils::RutabagaResult;
use vstd::prelude::*;

verus! {

/// The magma component.
pub struct MagmaVirtioGpu {}

impl MagmaVirtioGpu {
    /// Initializes the magma component.
    pub fn init() -> (r: RutabagaResult<MagmaVirtioGpu>)
        ensures
            r is Ok,
    {
        Ok(MagmaVirtioGpu {  })
    }

    /// The version and the size of the capability set: both zero.
    pub fn get_capset_info(&self, _capset_id: u32) -> (r: (u32, u32))
        ensures
            r == (0u32, 0u32),
    {
        (0u32, 0u32)
    }

    /// The capability set: empty.
    pub fn get_capset(&self, _capset_id: u32, _version: u32) -> (r: Vec<u8>)
        ensures
            r@.len() == 0,
    {
        Vec::new()
    }

    /// Makes a context that knows no resource.
    pub fn create_context(&self, _ctx_id: u32, _context_init: u32, _context_name: Option<&str>) -> (r:
        RutabagaResult<MagmaVirtioGpuContext>)
        ensures
            r is Ok,
            r.unwrap().spec_resources() == Map::<u32, crate::context_common::ContextResource>::empty(),
    {
        Ok(MagmaVirtioGpuContext::new())
    }
}

} // verus!
