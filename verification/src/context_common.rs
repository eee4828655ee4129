//! The table of guest resources that a context has been shown.

use crate::handle::RutabagaHandle;
use crate::rutabaga_core::RutabagaResource;
use crate::rutabaga_utils::RutabagaIovec;
use crate::rutabaga_utils::RUTABAGA_BLOB_MEM_GUEST;
use std::collections::BTreeMap;
use vstd::prelude::*;

verus! {

/// A resource as a context knows it: by its guest memory or by its handle.
#[derive(Debug, PartialEq, Eq)]
pub struct ContextResource {
    pub handle: Option<RutabagaHandle>,
    pub backing_iovecs: Option<Vec<RutabagaIovec>>,
}

/// Resources by identifier.
pub type ContextResources = BTreeMap<u32, ContextResource>;

/// What attaching `resource` leaves in the table under its identifier, given
/// what was there before: guest-memory blobs are known by their memory,
/// which the table takes over; other resources by their handle, which they
/// share with the table; a resource with neither changes nothing.
pub open spec fn spec_attached(
    before: Map<u32, ContextResource>,
    after: Map<u32, ContextResource>,
    resource: RutabagaResource,
) -> bool {
    if resource.blob_mem == RUTABAGA_BLOB_MEM_GUEST {
        after == before.insert(
            resource.resource_id,
            ContextResource { handle: None, backing_iovecs: resource.backing_iovecs },
        )
    } else if resource.handle is Some {
        &&& after.dom() == before.dom().insert(resource.resource_id)
        &&& forall|k: u32| k != resource.resource_id && before.contains_key(k) ==> after[k] == before[k]
        &&& after[resource.resource_id].backing_iovecs is None
        &&& after[resource.resource_id].handle is Some
        &&& after[resource.resource_id].handle.unwrap().spec_same(&resource.handle.unwrap())
    } else {
        after == before
    }
}

/// Makes `resource` known to a context. A guest-memory blob hands its memory
/// over to the table and keeps none; any other resource is left as it was.
pub fn attach_resource(resources: &mut ContextResources, resource: &mut RutabagaResource)
    ensures
        spec_attached(old(resources)@, final(resources)@, *old(resource)),
        old(resource).blob_mem == RUTABAGA_BLOB_MEM_GUEST ==> *final(resource) == (RutabagaResource {
            backing_iovecs: None,
            ..*old(resource)
        }),
        old(resource).blob_mem != RUTABAGA_BLOB_MEM_GUEST ==> *final(resource) == *old(resource),
{
    broadcast use vstd::std_specs::btree::group_btree_axioms;

    if resource.blob_mem == RUTABAGA_BLOB_MEM_GUEST {
        let backing_iovecs = resource.backing_iovecs.take();
        resources.insert(resource.resource_id, ContextResource { handle: None, backing_iovecs });
    } else {
        match &resource.handle {
            Some(handle) => {
                let shared = handle.share();
                resources.insert(
                    resource.resource_id,
                    ContextResource { handle: Some(shared), backing_iovecs: None },
                );
            },
            None => {},
        }
    }
}

/// Makes a context forget the resource with this identifier.
pub fn detach_resource(resources: &mut ContextResources, resource_id: u32)
    ensures
        final(resources)@ == old(resources)@.remove(resource_id),
{
    broadcast use vstd::std_specs::btree::group_btree_axioms;

    resources.remove(&resource_id);
}

} // verus!
