//! The accelerated 3D backend, as far as it decides anything itself: what
//! the renderer's status codes, descriptor types and queries mean for
//! resources, fences and command buffers. The renderer is a library of its
//! own, which the caller drives.

use crate::handle::MesaHandle;
use crate::handle::RutabagaHandle;
use crate::rutabaga_core::RutabagaResource;
use crate::rutabaga_utils::MesaError;
use crate::rutabaga_utils::RawDescriptor;
use crate::rutabaga_utils::Resource3DInfo;
use crate::rutabaga_utils::ResourceCreateBlob;
use crate::rutabaga_utils::RutabagaComponentType;
use crate::rutabaga_utils::RutabagaError;
use crate::rutabaga_utils::RutabagaFence;
use crate::rutabaga_utils::RutabagaIovec;
use crate::rutabaga_utils::RutabagaPath;
use crate::rutabaga_utils::RutabagaResult;
use crate::rutabaga_utils::RUTABAGA_FLAG_FENCE;
use crate::rutabaga_utils::RUTABAGA_FLAG_INFO_RING_IDX;
use crate::rutabaga_utils::RUTABAGA_HANDLE_TYPE_MEM_DMABUF;
use crate::rutabaga_utils::RUTABAGA_HANDLE_TYPE_MEM_OPAQUE_FD;
use crate::rutabaga_utils::RUTABAGA_HANDLE_TYPE_MEM_SHM;
use crate::rutabaga_utils::RUTABAGA_MAP_ACCESS_RW;
use crate::rutabaga_utils::RUTABAGA_PATH_TYPE_GPU;
use vstd::prelude::*;

verus! {

/// The renderer exported a dma-buf.
pub const VIRGL_RENDERER_BLOB_FD_TYPE_DMABUF: u32 = 1;
/// The renderer exported an opaque descriptor.
pub const VIRGL_RENDERER_BLOB_FD_TYPE_OPAQUE: u32 = 2;
/// The renderer exported shared memory.
pub const VIRGL_RENDERER_BLOB_FD_TYPE_SHM: u32 = 3;
/// Fences on one timeline may be merged.
pub const VIRGL_RENDERER_FENCE_FLAG_MERGEABLE: u32 = 1;
/// The descriptor that tells the renderer to find a GPU itself.
pub const DEFAULT_DRM_FD: i32 = -1;

/// The virtio-gpu backend state tracker which supports accelerated
/// rendering.
pub struct VirglRenderer {}

/// The status of a renderer call as a result: zero is success.
pub fn ret_to_res(ret: i32) -> (r: RutabagaResult<()>)
    ensures
        r == if ret == 0 {
            Ok::<(), RutabagaError>(())
        } else {
            Err::<(), RutabagaError>(RutabagaError::ComponentError(ret))
        },
{
    if ret == 0 {
        Ok(())
    } else {
        Err(RutabagaError::ComponentError(ret))
    }
}

/// Whether a path is of the type of a GPU render node. Whether it leads to
/// one is for the caller to find out.
pub fn is_gpu_path_type(rpath: &RutabagaPath) -> (b: bool)
    ensures
        b == (rpath.path_type == RUTABAGA_PATH_TYPE_GPU),
{
    rpath.path_type == RUTABAGA_PATH_TYPE_GPU
}

/// The handle type of a descriptor that the renderer exported; a type that
/// is not known is not supported.
pub fn blob_handle_type(fd_type: u32) -> (r: RutabagaResult<u32>)
    ensures
        r == if fd_type == VIRGL_RENDERER_BLOB_FD_TYPE_DMABUF {
            Ok::<u32, RutabagaError>(RUTABAGA_HANDLE_TYPE_MEM_DMABUF)
        } else if fd_type == VIRGL_RENDERER_BLOB_FD_TYPE_SHM {
            Ok::<u32, RutabagaError>(RUTABAGA_HANDLE_TYPE_MEM_SHM)
        } else if fd_type == VIRGL_RENDERER_BLOB_FD_TYPE_OPAQUE {
            Ok::<u32, RutabagaError>(RUTABAGA_HANDLE_TYPE_MEM_OPAQUE_FD)
        } else {
            Err::<u32, RutabagaError>(RutabagaError::MesaError(MesaError::Unsupported))
        },
{
    if fd_type == VIRGL_RENDERER_BLOB_FD_TYPE_DMABUF {
        Ok(RUTABAGA_HANDLE_TYPE_MEM_DMABUF)
    } else if fd_type == VIRGL_RENDERER_BLOB_FD_TYPE_SHM {
        Ok(RUTABAGA_HANDLE_TYPE_MEM_SHM)
    } else if fd_type == VIRGL_RENDERER_BLOB_FD_TYPE_OPAQUE {
        Ok(RUTABAGA_HANDLE_TYPE_MEM_OPAQUE_FD)
    } else {
        Err(RutabagaError::MesaError(MesaError::Unsupported))
    }
}

/// The descriptor of a resource that the renderer has yet to import: the
/// dma-buf of a resource that the renderer does not know.
pub open spec fn spec_import_descriptor(resource: RutabagaResource) -> Option<RawDescriptor> {
    if resource.component_mask & RutabagaComponentType::VirglRenderer.spec_mask() != 0 {
        None
    } else {
        match resource.handle {
            Some(RutabagaHandle::MesaHandle(handle)) => if handle.handle_type
                == RUTABAGA_HANDLE_TYPE_MEM_DMABUF {
                Some(handle.os_handle)
            } else {
                None
            },
            _ => None,
        }
    }
}

impl VirglRenderer {
    /// How many 32-bit words a command buffer holds, for the renderer.
    /// Fence identifiers with the commands are not supported, and the
    /// buffer must be made of whole words.
    pub fn submit_cmd(commands_len: usize, fence_ids_len: usize) -> (r: RutabagaResult<usize>)
        ensures
            r == if fence_ids_len != 0 {
                Err::<usize, RutabagaError>(RutabagaError::MesaError(MesaError::Unsupported))
            } else if commands_len % 4 != 0 {
                Err::<usize, RutabagaError>(RutabagaError::InvalidCommandSize(commands_len))
            } else {
                Ok::<usize, RutabagaError>((commands_len / 4) as usize)
            },
    {
        if fence_ids_len != 0 {
            return Err(RutabagaError::MesaError(MesaError::Unsupported));
        }
        if commands_len % 4 != 0 {
            return Err(RutabagaError::InvalidCommandSize(commands_len));
        }
        Ok(commands_len / 4)
    }

    /// The descriptor to duplicate and hand to the renderer before a
    /// resource is attached to a context, if there is one.
    pub fn import_resource(resource: &RutabagaResource) -> (r: Option<RawDescriptor>)
        ensures
            r == spec_import_descriptor(*resource),
    {
        if (resource.component_mask & RutabagaComponentType::VirglRenderer.mask()) != 0 {
            return None;
        }
        match &resource.handle {
            Some(RutabagaHandle::MesaHandle(handle)) => {
                if handle.handle_type == RUTABAGA_HANDLE_TYPE_MEM_DMABUF {
                    Some(handle.os_handle)
                } else {
                    None
                }
            },
            _ => None,
        }
    }

    /// Takes note of an import: if the renderer accepted it, it knows the
    /// resource from now on. A refusal is no error; the resource may have
    /// been imported before.
    pub fn resource_imported(resource: &mut RutabagaResource, ret: i32)
        ensures
            *final(resource) == if ret == 0 {
                RutabagaResource {
                    component_mask: old(resource).component_mask
                        | RutabagaComponentType::VirglRenderer.spec_mask(),
                    ..*old(resource)
                }
            } else {
                *old(resource)
            },
    {
        if ret == 0 {
            resource.component_mask |= RutabagaComponentType::VirglRenderer.mask();
        }
    }

    /// The fence that the renderer reports on the global timeline.
    pub fn write_fence(fence: u32) -> (r: RutabagaFence)
        ensures
            r == (RutabagaFence {
                flags: RUTABAGA_FLAG_FENCE,
                fence_id: fence as u64,
                ctx_id: 0,
                ring_idx: 0,
            }),
    {
        RutabagaFence { flags: RUTABAGA_FLAG_FENCE, fence_id: fence as u64, ctx_id: 0, ring_idx: 0 }
    }

    /// The fence that the renderer reports on the timeline of a context.
    /// The ring is named by the low eight bits of its number.
    pub fn write_context_fence(ctx_id: u32, ring_idx: u32, fence_id: u64) -> (r: RutabagaFence)
        ensures
            r == (RutabagaFence {
                flags: RUTABAGA_FLAG_FENCE | RUTABAGA_FLAG_INFO_RING_IDX,
                fence_id,
                ctx_id,
                ring_idx: (ring_idx % 256) as u8,
            }),
    {
        RutabagaFence {
            flags: RUTABAGA_FLAG_FENCE | RUTABAGA_FLAG_INFO_RING_IDX,
            fence_id,
            ctx_id,
            ring_idx: (ring_idx % 256) as u8,
        }
    }

    /// The descriptor of the render server for the renderer, which takes
    /// it over: there is one for version 0, once; -1 says that there is
    /// none.
    pub fn get_server_fd(render_server_fd: &mut Option<RawDescriptor>, version: u32) -> (fd: i32)
        ensures
            fd == if version != 0 {
                -1i32
            } else {
                match *old(render_server_fd) {
                    Some(fd) => fd,
                    None => -1i32,
                }
            },
            *final(render_server_fd) == if version != 0 {
                *old(render_server_fd)
            } else {
                None
            },
    {
        if version != 0 {
            return -1;
        }
        match render_server_fd.take() {
            Some(fd) => fd,
            None => -1,
        }
    }

    /// How a resource may be mapped, from what the renderer says: always
    /// for reading and writing.
    pub fn map_info(map_info: u32) -> (r: u32)
        ensures
            r == map_info | RUTABAGA_MAP_ACCESS_RW,
    {
        map_info | RUTABAGA_MAP_ACCESS_RW
    }

    /// The layout of a resource from what an export query returned. A
    /// resource without descriptors to export is not supported. The
    /// renderer does not tell width and height, which are zero.
    pub fn query(
        out_num_fds: u32,
        out_fourcc: u32,
        out_strides: [u32; 4],
        out_offsets: [u32; 4],
        out_modifier: u64,
    ) -> (r: RutabagaResult<Resource3DInfo>)
        ensures
            r == if out_num_fds == 0 {
                Err::<Resource3DInfo, RutabagaError>(
                    RutabagaError::MesaError(MesaError::Unsupported),
                )
            } else {
                Ok::<Resource3DInfo, RutabagaError>(
                    Resource3DInfo {
                        width: 0,
                        height: 0,
                        drm_fourcc: out_fourcc,
                        strides: out_strides,
                        offsets: out_offsets,
                        modifier: out_modifier,
                    },
                )
            },
    {
        if out_num_fds == 0 {
            return Err(RutabagaError::MesaError(MesaError::Unsupported));
        }
        Ok(
            Resource3DInfo {
                width: 0,
                height: 0,
                drm_fourcc: out_fourcc,
                strides: out_strides,
                offsets: out_offsets,
                modifier: out_modifier,
            },
        )
    }

    /// The layout of a resource with a single plane, for a texture whose
    /// dma-buf the renderer handed out when neither export nor query
    /// worked.
    pub fn texture_info(width: u32, height: u32, drm_fourcc: u32, stride: u32, modifier: u64) -> (r:
        Resource3DInfo)
        ensures
            r == (Resource3DInfo {
                width,
                height,
                drm_fourcc,
                strides: [stride, 0, 0, 0],
                offsets: [0, 0, 0, 0],
                modifier,
            }),
    {
        let r = Resource3DInfo {
            width,
            height,
            drm_fourcc,
            strides: [stride, 0, 0, 0],
            offsets: [0, 0, 0, 0],
            modifier,
        };
        assert(r.strides =~= [stride, 0, 0, 0]);
        assert(r.offsets =~= [0, 0, 0, 0]);
        r
    }

    /// The resource for what the renderer created: a classic 3D resource
    /// with the handle and the layout that could be had for it.
    pub fn create_3d(
        resource_id: u32,
        handle: Option<MesaHandle>,
        info_3d: Option<Resource3DInfo>,
    ) -> (r: RutabagaResource)
        ensures
            r == (RutabagaResource {
                resource_id,
                handle: match handle {
                    Some(h) => Some(RutabagaHandle::MesaHandle(h)),
                    None => None,
                },
                blob: false,
                blob_mem: 0,
                blob_flags: 0,
                map_info: None,
                info_2d: None,
                info_3d,
                vulkan_info: None,
                backing_iovecs: None,
                component_mask: RutabagaComponentType::VirglRenderer.spec_mask(),
                size: 0,
                guest_cpu_mappable: false,
            }),
    {
        RutabagaResource {
            resource_id,
            handle: match handle {
                Some(h) => Some(RutabagaHandle::MesaHandle(h)),
                None => None,
            },
            blob: false,
            blob_mem: 0,
            blob_flags: 0,
            map_info: None,
            info_2d: None,
            info_3d,
            vulkan_info: None,
            backing_iovecs: None,
            component_mask: RutabagaComponentType::VirglRenderer.mask(),
            size: 0,
            guest_cpu_mappable: false,
        }
    }

    /// The resource for a blob that the renderer created, with what could
    /// be had for it: its exported handle, how it may be mapped, and its
    /// layout.
    pub fn create_blob(
        resource_id: u32,
        resource_create_blob: ResourceCreateBlob,
        iovec_opt: Option<Vec<RutabagaIovec>>,
        handle: Option<MesaHandle>,
        map_info: Option<u32>,
        info_3d: Option<Resource3DInfo>,
    ) -> (r: RutabagaResource)
        ensures
            r == (RutabagaResource {
                resource_id,
                handle: match handle {
                    Some(h) => Some(RutabagaHandle::MesaHandle(h)),
                    None => None,
                },
                blob: true,
                blob_mem: resource_create_blob.blob_mem,
                blob_flags: resource_create_blob.blob_flags,
                map_info,
                info_2d: None,
                info_3d,
                vulkan_info: None,
                backing_iovecs: iovec_opt,
                component_mask: RutabagaComponentType::VirglRenderer.spec_mask(),
                size: resource_create_blob.size,
                guest_cpu_mappable: false,
            }),
    {
        RutabagaResource {
            resource_id,
            handle: match handle {
                Some(h) => Some(RutabagaHandle::MesaHandle(h)),
                None => None,
            },
            blob: true,
            blob_mem: resource_create_blob.blob_mem,
            blob_flags: resource_create_blob.blob_flags,
            map_info,
            info_2d: None,
            info_3d,
            vulkan_info: None,
            backing_iovecs: iovec_opt,
            component_mask: RutabagaComponentType::VirglRenderer.mask(),
            size: resource_create_blob.size,
            guest_cpu_mappable: false,
        }
    }

    /// The name under which a context is made known to the renderer: the
    /// caller's, unless it is missing or empty.
    pub fn context_name<'a>(context_name: Option<&'a str>) -> (name: &'a str)
        ensures
            name@ == match context_name {
                Some(name_string) => if name_string@.len() != 0 {
                    name_string@
                } else {
                    "gpu_renderer"@
                },
                None => "gpu_renderer"@,
            },
    {
        match context_name {
            Some(name_string) => {
                if name_string.unicode_len() != 0 {
                    name_string
                } else {
                    "gpu_renderer"
                }
            },
            None => "gpu_renderer",
        }
    }
}

} // verus!
