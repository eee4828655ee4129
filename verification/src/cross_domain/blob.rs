//! Blobs from items, and the end of a context.

use crate::cross_domain::context::CrossDomainContext;
use crate::cross_domain::context::CrossDomainContextView;
use crate::cross_domain::context::CrossDomainFutex;
use crate::cross_domain::context::CrossDomainJob;
use crate::cross_domain::items::CrossDomainItem;
use crate::handle::RutabagaHandle;
use crate::rutabaga_core::RutabagaResource;
use crate::rutabaga_utils::ImageMemoryRequirements;
use crate::rutabaga_utils::MesaError;
use crate::rutabaga_utils::RawDescriptor;
use crate::rutabaga_utils::Resource3DInfo;
use crate::rutabaga_utils::ResourceCreateBlob;
use crate::rutabaga_utils::RutabagaComponentType;
use crate::rutabaga_utils::RutabagaError;
use crate::rutabaga_utils::RutabagaResult;
use crate::rutabaga_utils::RUTABAGA_HANDLE_TYPE_MEM_DMABUF;
use crate::rutabaga_utils::RUTABAGA_MAP_ACCESS_READ;
use crate::rutabaga_utils::RUTABAGA_MAP_ACCESS_RW;
use crate::rutabaga_utils::RUTABAGA_MAP_CACHE_CACHED;
use std::collections::BTreeMap;
use vstd::prelude::*;

verus! {

/// The item that a blob identifier names: its low thirty-two bits.
pub open spec fn spec_item_id(blob_id: u64) -> u32 {
    (blob_id % 0x1_0000_0000) as u32
}

/// How memory received from the host server may be mapped: dma-bufs for
/// reading and writing, shared memory and anything else for reading.
pub open spec fn spec_blob_map_info(handle_type: u32) -> u32 {
    if handle_type == RUTABAGA_HANDLE_TYPE_MEM_DMABUF {
        RUTABAGA_MAP_CACHE_CACHED | RUTABAGA_MAP_ACCESS_RW
    } else {
        RUTABAGA_MAP_CACHE_CACHED | RUTABAGA_MAP_ACCESS_READ
    }
}

/// The resource made from stored image requirements and a handle for the
/// memory.
pub open spec fn spec_resource_from_requirements(
    resource_id: u32,
    resource_create_blob: ResourceCreateBlob,
    reqs: ImageMemoryRequirements,
    handle: RutabagaHandle,
) -> RutabagaResource {
    RutabagaResource {
        resource_id,
        handle: Some(handle),
        blob: true,
        blob_mem: resource_create_blob.blob_mem,
        blob_flags: resource_create_blob.blob_flags,
        map_info: Some(reqs.map_info | RUTABAGA_MAP_ACCESS_RW),
        info_2d: None,
        info_3d: Some(
            Resource3DInfo {
                width: reqs.info.width,
                height: reqs.info.height,
                drm_fourcc: reqs.info.drm_format,
                strides: reqs.strides,
                offsets: reqs.offsets,
                modifier: reqs.modifier,
            },
        ),
        vulkan_info: reqs.vulkan_info,
        backing_iovecs: None,
        component_mask: RutabagaComponentType::CrossDomain.spec_mask(),
        size: resource_create_blob.size,
        guest_cpu_mappable: false,
    }
}

/// The resource made from memory received from the host server.
pub open spec fn spec_resource_from_blob(
    resource_id: u32,
    resource_create_blob: ResourceCreateBlob,
    handle: crate::handle::MesaHandle,
) -> RutabagaResource {
    RutabagaResource {
        resource_id,
        handle: Some(RutabagaHandle::MesaHandle(handle)),
        blob: true,
        blob_mem: resource_create_blob.blob_mem,
        blob_flags: resource_create_blob.blob_flags,
        map_info: Some(spec_blob_map_info(handle.handle_type)),
        info_2d: None,
        info_3d: None,
        vulkan_info: None,
        backing_iovecs: None,
        component_mask: RutabagaComponentType::CrossDomain.spec_mask(),
        size: resource_create_blob.size,
        guest_cpu_mappable: false,
    }
}

/// What is left of a context when it ends, for the caller to release.
pub struct ContextTeardown {
    /// Every futex that was bound. Those not yet shut down are to be shut
    /// down first.
    pub futexes: BTreeMap<u32, CrossDomainFutex>,
    /// Every item that was in the table. Their descriptors and pipes are to
    /// be closed.
    pub items: BTreeMap<u32, CrossDomainItem>,
}

impl CrossDomainContextView {
    /// The requirements that a blob would be made from, if its identifier
    /// names stored requirements of the blob's size.
    pub open spec fn blob_allocation(self, resource_create_blob: ResourceCreateBlob) -> Option<
        ImageMemoryRequirements,
    > {
        let item_id = spec_item_id(resource_create_blob.blob_id);
        if !self.items.table.contains_key(item_id) {
            None
        } else {
            match self.items.table[item_id] {
                CrossDomainItem::ImageRequirements(reqs) => if reqs.size
                    == resource_create_blob.size {
                    Some(reqs)
                } else {
                    None
                },
                _ => None,
            }
        }
    }

    /// What creating a blob comes to.
    ///
    /// No item under the identifier is `InvalidCrossDomainItemId`. Stored
    /// requirements give a resource with the image's layout around the
    /// handle that came with the call; they must be of the blob's size, and
    /// there must be a handle (`InvalidMesaHandle`). Received memory gives a
    /// resource around itself. A pipe is `InvalidCrossDomainItemType`.
    pub open spec fn create_blob_result(
        self,
        resource_id: u32,
        resource_create_blob: ResourceCreateBlob,
        handle_opt: Option<RutabagaHandle>,
    ) -> Result<RutabagaResource, RutabagaError> {
        let item_id = spec_item_id(resource_create_blob.blob_id);
        if !self.items.table.contains_key(item_id) {
            Err(RutabagaError::InvalidCrossDomainItemId)
        } else {
            match self.items.table[item_id] {
                CrossDomainItem::ImageRequirements(reqs) => if reqs.size
                    != resource_create_blob.size {
                    Err(RutabagaError::MesaError(MesaError::WithContext("blob size mismatch")))
                } else {
                    match handle_opt {
                        Some(handle) => Ok(
                            spec_resource_from_requirements(
                                resource_id,
                                resource_create_blob,
                                reqs,
                                handle,
                            ),
                        ),
                        None => Err(RutabagaError::MesaError(MesaError::InvalidMesaHandle)),
                    }
                },
                CrossDomainItem::Blob(handle) => Ok(
                    spec_resource_from_blob(resource_id, resource_create_blob, handle),
                ),
                _ => Err(RutabagaError::InvalidCrossDomainItemType),
            }
        }
    }

    /// Where creating a blob leaves the context: stored requirements stay
    /// for further blobs; any other item is used up, also a pipe, from which
    /// no blob comes.
    pub open spec fn after_create_blob(self, resource_create_blob: ResourceCreateBlob)
        -> CrossDomainContextView {
        let item_id = spec_item_id(resource_create_blob.blob_id);
        if self.items.table.contains_key(item_id) && !(
        self.items.table[item_id] is ImageRequirements) {
            self.without_item(item_id)
        } else {
            self
        }
    }

    /// Where the start of the end leaves the context: the worker has been
    /// told to finish, and the kill event has been handed out.
    pub open spec fn after_shutdown(self) -> CrossDomainContextView {
        CrossDomainContextView {
            kill_evt: None,
            worker_thread: if self.kill_evt is Some {
                false
            } else {
                self.worker_thread
            },
            ..self.with_job(CrossDomainJob::Finish)
        }
    }
}

impl CrossDomainContext {
    /// The requirements for which the allocator has to provide memory before
    /// `context_create_blob` is called without a handle of the caller's own.
    pub fn blob_allocation(&self, resource_create_blob: &ResourceCreateBlob) -> (r: Option<
        ImageMemoryRequirements,
    >)
        ensures
            r == self@.blob_allocation(*resource_create_blob),
    {
        broadcast use vstd::std_specs::btree::group_btree_axioms;

        let item_id: u32 = (resource_create_blob.blob_id % 0x1_0000_0000) as u32;
        match self.item_state.get(item_id) {
            Some(CrossDomainItem::ImageRequirements(reqs)) => {
                if reqs.size == resource_create_blob.size {
                    Some(reqs)
                } else {
                    None
                }
            },
            _ => None,
        }
    }

    /// Creates a blob resource from the item that `blob_id` names.
    ///
    /// `handle_opt` is the memory for a blob made from stored requirements:
    /// the caller's own, or what the allocator gave for `blob_allocation`.
    /// Memory received from the host server takes the place of any handle
    /// given here, and leaves the table with the call.
    pub fn context_create_blob(
        &mut self,
        resource_id: u32,
        resource_create_blob: ResourceCreateBlob,
        handle_opt: Option<RutabagaHandle>,
    ) -> (r: RutabagaResult<RutabagaResource>)
        ensures
            final(self)@ == old(self)@.after_create_blob(resource_create_blob),
            r == old(self)@.create_blob_result(resource_id, resource_create_blob, handle_opt),
    {
        broadcast use vstd::std_specs::btree::group_btree_axioms;

        let item_id: u32 = (resource_create_blob.blob_id % 0x1_0000_0000) as u32;
        let item = match self.item_state.get(item_id) {
            Some(item) => item,
            None => {
                return Err(RutabagaError::InvalidCrossDomainItemId);
            },
        };

        // Items that are kept in the table after usage.
        if let CrossDomainItem::ImageRequirements(reqs) = item {
            if reqs.size != resource_create_blob.size {
                return Err(RutabagaError::MesaError(MesaError::WithContext("blob size mismatch")));
            }
            let hnd = match handle_opt {
                Some(handle) => handle,
                None => {
                    return Err(RutabagaError::MesaError(MesaError::InvalidMesaHandle));
                },
            };
            let info_3d = Resource3DInfo {
                width: reqs.info.width,
                height: reqs.info.height,
                drm_fourcc: reqs.info.drm_format,
                strides: reqs.strides,
                offsets: reqs.offsets,
                modifier: reqs.modifier,
            };
            return Ok(
                RutabagaResource {
                    resource_id,
                    handle: Some(hnd),
                    blob: true,
                    blob_mem: resource_create_blob.blob_mem,
                    blob_flags: resource_create_blob.blob_flags,
                    map_info: Some(reqs.map_info | RUTABAGA_MAP_ACCESS_RW),
                    info_2d: None,
                    info_3d: Some(info_3d),
                    vulkan_info: reqs.vulkan_info,
                    backing_iovecs: None,
                    component_mask: RutabagaComponentType::CrossDomain.mask(),
                    size: resource_create_blob.size,
                    guest_cpu_mappable: false,
                },
            );
        }
        self.item_state.remove(item_id);

        // Items that are removed from the table after one usage.
        match item {
            CrossDomainItem::Blob(hnd) => {
                let map_access = if hnd.handle_type == RUTABAGA_HANDLE_TYPE_MEM_DMABUF {
                    RUTABAGA_MAP_ACCESS_RW
                } else {
                    RUTABAGA_MAP_ACCESS_READ
                };
                Ok(
                    RutabagaResource {
                        resource_id,
                        handle: Some(RutabagaHandle::MesaHandle(hnd)),
                        blob: true,
                        blob_mem: resource_create_blob.blob_mem,
                        blob_flags: resource_create_blob.blob_flags,
                        map_info: Some(RUTABAGA_MAP_CACHE_CACHED | map_access),
                        info_2d: None,
                        info_3d: None,
                        vulkan_info: None,
                        backing_iovecs: None,
                        component_mask: RutabagaComponentType::CrossDomain.mask(),
                        size: resource_create_blob.size,
                        guest_cpu_mappable: false,
                    },
                )
            },
            _ => Err(RutabagaError::InvalidCrossDomainItemType),
        }
    }

    /// Starts the end of the context: tells the worker to finish and hands
    /// out the kill event. The caller signals the event and, if the second
    /// result says so, joins the worker; then it calls `release`.
    pub fn shutdown(&mut self) -> (r: (Option<RawDescriptor>, bool))
        ensures
            final(self)@ == old(self)@.after_shutdown(),
            r.0 == old(self)@.kill_evt,
            r.1 == (old(self)@.kill_evt is Some && old(self)@.worker_thread),
    {
        self.add_job(CrossDomainJob::Finish);
        let kill_evt = self.kill_evt.take();
        let mut join: bool = false;
        if kill_evt.is_some() {
            join = self.worker_thread;
            self.worker_thread = false;
        }
        (kill_evt, join)
    }

    /// Ends the context and hands everything that it still holds to the
    /// caller: no futex and no item is left behind.
    pub fn release(self) -> (teardown: ContextTeardown)
        ensures
            teardown.futexes@ == self@.futexes,
            teardown.items@ == self@.items.table,
    {
        let mut this = self;
        let items = this.item_state.take_all();
        ContextTeardown { futexes: this.futexes, items }
    }
}

} // verus!
