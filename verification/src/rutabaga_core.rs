//! Resources as every component sees them.

use crate::handle::RutabagaHandle;
use crate::rutabaga_utils::Resource3DInfo;
use crate::rutabaga_utils::RutabagaIovec;
use crate::rutabaga_utils::VulkanInfo;
use vstd::prelude::*;

verus! {

/// What the 2D backend keeps for a resource: its extent, the host copy of its
/// pixels where it has one, and the stride a scanout gave it.
#[derive(Debug, PartialEq, Eq)]
pub struct Rutabaga2DInfo {
    pub width: u32,
    pub height: u32,
    pub host_mem: Option<Vec<u8>>,
    pub scanout_stride: Option<u32>,
}

/// A resource: what it is made of and which components know it.
#[derive(Debug, PartialEq, Eq)]
pub struct RutabagaResource {
    pub resource_id: u32,
    pub handle: Option<RutabagaHandle>,
    pub blob: bool,
    pub blob_mem: u32,
    pub blob_flags: u32,
    pub map_info: Option<u32>,
    pub info_2d: Option<Rutabaga2DInfo>,
    pub info_3d: Option<Resource3DInfo>,
    pub vulkan_info: Option<VulkanInfo>,
    pub backing_iovecs: Option<Vec<RutabagaIovec>>,
    pub component_mask: u8,
    pub size: u64,
    pub guest_cpu_mappable: bool,
}

} // verus!
