//! A magma context: the table of guest resources that it has been shown.

use crate::context_common::attach_resource;
use crate::context_common::detach_resource;
use crate::context_common::spec_attached;
use crate::context_common::ContextResource;
use crate::context_common::ContextResources;
use crate::handle::MesaHandle;
use crate::rutabaga_core::RutabagaResource;
use crate::rutabaga_utils::MesaError;
use crate::rutabaga_utils::ResourceCreateBlob;
use crate::rutabaga_utils::RutabagaComponentType;
use crate::rutabaga_utils::RutabagaError;
use crate::rutabaga_utils::RutabagaFence;
use crate::rutabaga_utils::RutabagaResult;
use crate::rutabaga_utils::RUTABAGA_BLOB_MEM_GUEST;
use std::collections::BTreeMap;
use vstd::prelude::*;

verus! {

/// A magma context.
pub struct MagmaVirtioGpuContext {
    context_resources: ContextResources,
}

impl MagmaVirtioGpuContext {
    /// The resources that the context knows.
    pub closed spec fn spec_resources(&self) -> Map<u32, ContextResource> {
        self.context_resources@
    }

    /// A context that knows no resource.
    pub fn new() -> (ctx: MagmaVirtioGpuContext)
        ensures
            ctx.spec_resources() == Map::<u32, ContextResource>::empty(),
    {
        MagmaVirtioGpuContext { context_resources: BTreeMap::new() }
    }

    /// Blobs are not supported.
    pub fn context_create_blob(
        &mut self,
        _resource_id: u32,
        _resource_create_blob: ResourceCreateBlob,
        _handle_opt: Option<MesaHandle>,
    ) -> (r: RutabagaResult<RutabagaResource>)
        ensures
            r == Err::<RutabagaResource, RutabagaError>(
                RutabagaError::MesaError(MesaError::Unsupported),
            ),
            final(self).spec_resources() == old(self).spec_resources(),
    {
        Err(RutabagaError::MesaError(MesaError::Unsupported))
    }

    /// Commands are accepted and do nothing.
    pub fn submit_cmd(&mut self, _commands: &[u8], _fence_ids: &[u64]) -> (r: RutabagaResult<()>)
        ensures
            r == Ok::<(), RutabagaError>(()),
            final(self).spec_resources() == old(self).spec_resources(),
    {
        Ok(())
    }

    /// Makes a guest resource known to the context: a guest-memory blob by
    /// its memory, which the context takes over, any other resource by its
    /// handle.
    pub fn attach(&mut self, resource: &mut RutabagaResource)
        ensures
            spec_attached(old(self).spec_resources(), final(self).spec_resources(), *old(resource)),
            old(resource).blob_mem == RUTABAGA_BLOB_MEM_GUEST ==> *final(resource) == (
            RutabagaResource { backing_iovecs: None, ..*old(resource) }),
            old(resource).blob_mem != RUTABAGA_BLOB_MEM_GUEST ==> *final(resource) == *old(
                resource,
            ),
    {
        attach_resource(&mut self.context_resources, resource);
    }

    /// Makes the context forget a guest resource.
    pub fn detach(&mut self, resource: &RutabagaResource)
        ensures
            final(self).spec_resources() == old(self).spec_resources().remove(
                resource.resource_id,
            ),
    {
        detach_resource(&mut self.context_resources, resource.resource_id);
    }

    /// Fences are accepted; none is exported.
    pub fn context_create_fence(&mut self, _fence: RutabagaFence) -> (r: RutabagaResult<
        Option<MesaHandle>,
    >)
        ensures
            r == Ok::<Option<MesaHandle>, RutabagaError>(None),
            final(self).spec_resources() == old(self).spec_resources(),
    {
        Ok(None)
    }

    /// The kind of component that this context belongs to.
    pub fn component_type(&self) -> (t: RutabagaComponentType)
        ensures
            t == RutabagaComponentType::Magma,
    {
        RutabagaComponentType::Magma
    }
}

} // verus!
