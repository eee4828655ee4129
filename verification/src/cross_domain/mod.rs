//! The cross-domain component: allocating and sharing resources across the
//! boundary between a guest and its host.

pub mod blob;
pub mod commands;
pub mod context;
pub mod cross_domain_protocol;
pub mod dispatch;
pub mod futex;
pub mod items;
pub mod laws;
pub mod ring;
pub mod worker;

use crate::cross_domain::context::CrossDomainContext;
use crate::cross_domain::context::CrossDomainContextView;
use crate::cross_domain::context::FenceAction;
use crate::cross_domain::cross_domain_protocol::CrossDomainCapabilities;
use crate::cross_domain::cross_domain_protocol::CROSS_DOMAIN_CAPABILITIES_SIZE;
use crate::cross_domain::cross_domain_protocol::CROSS_DOMAIN_PIPE_READ_START;
use crate::cross_domain::items::CrossDomainItemsView;
use crate::rutabaga_core::RutabagaResource;
use crate::rutabaga_utils::MesaError;
use crate::rutabaga_utils::ResourceCreateBlob;
use crate::rutabaga_utils::RutabagaComponentType;
use crate::rutabaga_utils::RutabagaError;
use crate::rutabaga_utils::RutabagaFence;
use crate::rutabaga_utils::RutabagaIovec;
use crate::rutabaga_utils::RutabagaPath;
use crate::rutabaga_utils::RutabagaResult;
use crate::rutabaga_utils::RUTABAGA_BLOB_MEM_GUEST;
use vstd::prelude::*;

verus! {

/// What the component needs to know of the allocator.
#[derive(Clone, Copy, Debug, PartialEq, Eq, Structural)]
pub struct GrallocCapabilities {
    pub supports_dmabuf: bool,
    pub supports_external_gpu_memory: bool,
}

/// The cross-domain component: the paths that the guest may connect to and
/// what the allocator can do.
pub struct CrossDomain {
    paths: Option<Vec<RutabagaPath>>,
    gralloc: GrallocCapabilities,
    virtiofs_table: bool,
}

/// The bit of a channel type in the mask of supported channels. Types from
/// 32 on have no bit.
pub open spec fn spec_channel_bit(path_type: u32) -> u32 {
    if path_type < 32 {
        1u32 << path_type
    } else {
        0
    }
}

/// The bits of the channel types of the first `n` paths.
pub open spec fn spec_supported_channels(paths: Seq<RutabagaPath>, n: int) -> u32
    decreases n,
{
    if n <= 0 || n > paths.len() {
        0
    } else {
        spec_supported_channels(paths, n - 1) | spec_channel_bit(paths[n - 1].path_type)
    }
}

/// Two lists of paths say the same.
pub open spec fn spec_same_paths(a: Option<Vec<RutabagaPath>>, b: Option<Vec<RutabagaPath>>) -> bool {
    match (a, b) {
        (None, None) => true,
        (Some(a), Some(b)) => a@.len() == b@.len() && forall|i: int|
            0 <= i < a@.len() ==> (#[trigger] a@[i]).path_type == b@[i].path_type && a@[i].path@
                == b@[i].path@,
        _ => false,
    }
}

impl CrossDomain {
    /// The paths that the guest may connect to.
    pub closed spec fn spec_paths(&self) -> Option<Vec<RutabagaPath>> {
        self.paths
    }

    /// What the allocator can do.
    pub closed spec fn spec_gralloc(&self) -> GrallocCapabilities {
        self.gralloc
    }

    /// Whether there is a table that resolves the files behind futexes.
    pub closed spec fn spec_virtiofs_table(&self) -> bool {
        self.virtiofs_table
    }

    /// The capabilities that the component reports: version 1, which covers
    /// all commands up to WRITE, one bit for each channel type that has a
    /// path, and the allocator's two flags.
    pub open spec fn spec_capabilities(&self) -> CrossDomainCapabilities {
        CrossDomainCapabilities {
            version: 1,
            supported_channels: match self.spec_paths() {
                Some(paths) => spec_supported_channels(paths@, paths@.len() as int),
                None => 0,
            },
            supports_dmabuf: if self.spec_gralloc().supports_dmabuf {
                1
            } else {
                0
            },
            supports_external_gpu_memory: if self.spec_gralloc().supports_external_gpu_memory {
                1
            } else {
                0
            },
        }
    }

    /// Makes the component from the paths, if any, and from what the
    /// allocator can do.
    pub fn init(paths: Option<Vec<RutabagaPath>>, gralloc: GrallocCapabilities, virtiofs_table: bool)
        -> (r: RutabagaResult<CrossDomain>)
        ensures
            r is Ok,
            r.unwrap().spec_paths() == paths,
            r.unwrap().spec_gralloc() == gralloc,
            r.unwrap().spec_virtiofs_table() == virtiofs_table,
    {
        Ok(CrossDomain { paths, gralloc, virtiofs_table })
    }

    /// The version and the size in bytes of the capability set.
    pub fn get_capset_info(&self, _capset_id: u32) -> (r: (u32, u32))
        ensures
            r == (0u32, CROSS_DOMAIN_CAPABILITIES_SIZE as u32),
    {
        (0u32, CROSS_DOMAIN_CAPABILITIES_SIZE as u32)
    }

    /// The capability set, encoded. It depends on nothing but how the
    /// component was made.
    pub fn get_capset(&self, _capset_id: u32, _version: u32) -> (r: Vec<u8>)
        ensures
            r@ == self.spec_capabilities().spec_encode(),
            r@.len() == CROSS_DOMAIN_CAPABILITIES_SIZE,
    {
        let mut caps = CrossDomainCapabilities {
            version: 0,
            supported_channels: 0,
            supports_dmabuf: 0,
            supports_external_gpu_memory: 0,
        };
        if let Some(paths) = &self.paths {
            let n: usize = paths.len();
            let mut i: usize = 0;
            while i < n
                invariant
                    n == paths@.len(),
                    i <= n,
                    caps.supported_channels == spec_supported_channels(paths@, i as int),
                    caps.version == 0,
                    caps.supports_dmabuf == 0,
                    caps.supports_external_gpu_memory == 0,
                decreases n - i,
            {
                let path_type: u32 = paths[i].path_type;
                if path_type < 32 {
                    caps.supported_channels |= 1u32 << path_type;
                } else {
                    assert(caps.supported_channels | 0u32 == caps.supported_channels)
                        by (bit_vector);
                }
                i += 1;
            }
        }
        if self.gralloc.supports_dmabuf {
            caps.supports_dmabuf = 1;
        }
        if self.gralloc.supports_external_gpu_memory {
            caps.supports_external_gpu_memory = 1;
        }
        // Version 1 supports all commands up to and including WRITE.
        caps.version = 1;
        caps.encode()
    }

    /// Makes a blob resource of guest memory: the resource holds the
    /// regions that came with the call. Any other kind of blob is an error.
    pub fn create_blob(
        &self,
        _ctx_id: u32,
        resource_id: u32,
        resource_create_blob: ResourceCreateBlob,
        iovec_opt: Option<Vec<RutabagaIovec>>,
    ) -> (r: RutabagaResult<RutabagaResource>)
        ensures
            r == if resource_create_blob.blob_mem != RUTABAGA_BLOB_MEM_GUEST {
                Err::<RutabagaResource, RutabagaError>(
                    RutabagaError::MesaError(
                        MesaError::WithContext("expected only guest memory blobs"),
                    ),
                )
            } else {
                Ok::<RutabagaResource, RutabagaError>(
                    RutabagaResource {
                        resource_id,
                        handle: None,
                        blob: true,
                        blob_mem: resource_create_blob.blob_mem,
                        blob_flags: resource_create_blob.blob_flags,
                        map_info: None,
                        info_2d: None,
                        info_3d: None,
                        vulkan_info: None,
                        backing_iovecs: iovec_opt,
                        component_mask: RutabagaComponentType::CrossDomain.spec_mask(),
                        size: resource_create_blob.size,
                        guest_cpu_mappable: false,
                    },
                )
            },
    {
        if resource_create_blob.blob_mem != RUTABAGA_BLOB_MEM_GUEST {
            return Err(
                RutabagaError::MesaError(MesaError::WithContext("expected only guest memory blobs")),
            );
        }
        Ok(
            RutabagaResource {
                resource_id,
                handle: None,
                blob: true,
                blob_mem: resource_create_blob.blob_mem,
                blob_flags: resource_create_blob.blob_flags,
                map_info: None,
                info_2d: None,
                info_3d: None,
                vulkan_info: None,
                backing_iovecs: iovec_opt,
                component_mask: RutabagaComponentType::CrossDomain.mask(),
                size: resource_create_blob.size,
                guest_cpu_mappable: false,
            },
        )
    }

    /// Makes a context for a guest client: not initialized, with nothing in
    /// its tables, and with the component's paths.
    pub fn create_context(&self, _ctx_id: u32, _context_init: u32, _context_name: Option<&str>) -> (r:
        RutabagaResult<CrossDomainContext>)
        ensures
            r is Ok,
            spec_same_paths(r.unwrap()@.paths, self.spec_paths()),
            r.unwrap()@ == (CrossDomainContextView {
                paths: r.unwrap()@.paths,
                state: None,
                context_resources: Map::empty(),
                items: CrossDomainItemsView {
                    descriptor_id: 1,
                    read_pipe_id: CROSS_DOMAIN_PIPE_READ_START,
                    table: Map::empty(),
                },
                futexes: Map::empty(),
                worker_thread: false,
                resample_evt: None,
                kill_evt: None,
                virtiofs_table: self.spec_virtiofs_table(),
            }),
    {
        let paths = match &self.paths {
            None => None,
            Some(paths) => {
                let mut copy: Vec<RutabagaPath> = Vec::new();
                let n: usize = paths.len();
                let mut i: usize = 0;
                while i < n
                    invariant
                        n == paths@.len(),
                        i <= n,
                        copy@.len() == i,
                        forall|j: int|
                            0 <= j < i ==> (#[trigger] copy@[j]).path_type == paths@[j].path_type
                                && copy@[j].path@ == paths@[j].path@,
                    decreases n - i,
                {
                    copy.push(
                        RutabagaPath { path: paths[i].path.clone(), path_type: paths[i].path_type },
                    );
                    i += 1;
                }
                Some(copy)
            },
        };
        Ok(CrossDomainContext::new(paths, self.virtiofs_table))
    }

    /// A fence of the component is signaled at once.
    pub fn create_fence(&self, fence: RutabagaFence) -> (r: RutabagaResult<FenceAction>)
        ensures
            r == Ok::<FenceAction, RutabagaError>(FenceAction::Signal(fence)),
    {
        Ok(FenceAction::Signal(fence))
    }
}

/// Whether bit `t` of `mask` is set.
pub open spec fn spec_bit_set(mask: u32, t: u32) -> bool {
    (mask >> t) & 1 == 1
}

/// A channel type below 32 is reported as supported exactly if one of the
/// paths is of that type.
pub proof fn lemma_supported_channels(paths: Seq<RutabagaPath>, n: int, t: u32)
    requires
        0 <= n <= paths.len(),
        t < 32,
    ensures
        spec_bit_set(spec_supported_channels(paths, n), t) <==> exists|i: int|
            0 <= i < n && (#[trigger] paths[i]).path_type == t,
    decreases n,
{
    if n > 0 {
        lemma_supported_channels(paths, n - 1, t);
        let rest = spec_supported_channels(paths, n - 1);
        let last = paths[n - 1].path_type;
        let bit = spec_channel_bit(last);
        if last < 32 {
            assert(((rest | (1u32 << last)) >> t) & 1 == 1 <==> ((rest >> t) & 1 == 1 || last == t))
                by (bit_vector)
                requires
                    last < 32,
                    t < 32,
            ;
        } else {
            assert(rest | 0u32 == rest) by (bit_vector);
        }
        if spec_bit_set(spec_supported_channels(paths, n), t) {
            if last == t {
                assert(paths[n - 1].path_type == t);
            } else {
                let i = choose|i: int| 0 <= i < n - 1 && (#[trigger] paths[i]).path_type == t;
                assert(paths[i].path_type == t);
            }
        }
    } else {
        assert((0u32 >> t) & 1 == 0) by (bit_vector);
    }
}

} // verus!
