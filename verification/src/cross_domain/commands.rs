//! The commands that move data: image requirements, SEND and WRITE.

use crate::context_common::ContextResource;
use crate::cross_domain::context::CrossDomainContext;
use crate::cross_domain::context::CrossDomainContextView;
use crate::cross_domain::context::CrossDomainJob;
use crate::cross_domain::cross_domain_protocol::CrossDomainGetImageRequirements;
use crate::cross_domain::cross_domain_protocol::CrossDomainImageRequirements;
use crate::cross_domain::cross_domain_protocol::CrossDomainReadWrite;
use crate::cross_domain::cross_domain_protocol::CrossDomainSendReceive;
use crate::cross_domain::cross_domain_protocol::CROSS_DOMAIN_ID_TYPE_READ_PIPE;
use crate::cross_domain::cross_domain_protocol::CROSS_DOMAIN_ID_TYPE_VIRTGPU_BLOB;
use crate::cross_domain::cross_domain_protocol::CROSS_DOMAIN_MAX_IDENTIFIERS;
use crate::cross_domain::items::CrossDomainItem;
use crate::cross_domain::items::CrossDomainItemsView;
use crate::cross_domain::ring::spec_update_view;
use crate::cross_domain::ring::write_to_ring;
use crate::cross_domain::ring::RingUpdate;
use crate::cross_domain::ring::RingUpdateView;
use crate::cross_domain::ring::RingWrite;
use crate::handle::RutabagaHandle;
use crate::rutabaga_utils::ImageAllocationInfo;
use crate::rutabaga_utils::ImageMemoryRequirements;
use crate::rutabaga_utils::MesaError;
use crate::rutabaga_utils::RawDescriptor;
use crate::rutabaga_utils::RutabagaError;
use crate::rutabaga_utils::RutabagaResult;
use crate::rutabaga_utils::VulkanInfo;
use vstd::prelude::*;

verus! {

/// What the allocator is asked for a GET_IMAGE_REQUIREMENTS command.
pub fn image_allocation_info(cmd_get_reqs: &CrossDomainGetImageRequirements) -> (info:
    ImageAllocationInfo)
    ensures
        info == (ImageAllocationInfo {
            width: cmd_get_reqs.width,
            height: cmd_get_reqs.height,
            drm_format: cmd_get_reqs.drm_format,
            flags: cmd_get_reqs.flags,
        }),
{
    ImageAllocationInfo {
        width: cmd_get_reqs.width,
        height: cmd_get_reqs.height,
        drm_format: cmd_get_reqs.drm_format,
        flags: cmd_get_reqs.flags,
    }
}

/// The memory type to report: the allocator's, or -1 when it names none.
pub open spec fn spec_memory_idx(vulkan_info: Option<VulkanInfo>) -> i32 {
    match vulkan_info {
        Some(vk_info) => vk_info.memory_idx as i32,
        None => -1i32,
    }
}

/// The answer to the guest for requirements kept under `blob_id`.
pub open spec fn spec_image_response(reqs: ImageMemoryRequirements, blob_id: u32)
    -> CrossDomainImageRequirements {
    CrossDomainImageRequirements {
        strides: reqs.strides,
        offsets: reqs.offsets,
        modifier: reqs.modifier,
        size: reqs.size,
        blob_id,
        map_info: reqs.map_info,
        memory_idx: spec_memory_idx(reqs.vulkan_info),
        physical_device_idx: -1i32,
    }
}

/// One thing that goes out with a message.
#[derive(Clone, Copy, Debug, PartialEq, Eq, Structural)]
pub enum SendAttachment {
    /// A duplicate of this descriptor, which backs a guest resource.
    Descriptor(RawDescriptor),
    /// The write end of the pipe pair that the caller creates for this
    /// message. The read end stays with the caller, under the identifier
    /// that the plan names.
    WritePipe,
}

/// What SEND asks of the caller: send the command's payload on
/// `connection` with the attachments in this order.
#[derive(Debug, PartialEq, Eq)]
pub struct SendPlan {
    pub connection: RawDescriptor,
    pub attachments: Vec<SendAttachment>,
    /// The item under which the read end of the new pipe is kept, if the
    /// message carries a pipe.
    pub read_pipe_id: Option<u32>,
}

/// A [`SendPlan`] as plain values.
pub struct SendPlanView {
    pub connection: RawDescriptor,
    pub attachments: Seq<SendAttachment>,
    pub read_pipe_id: Option<u32>,
}

impl View for SendPlan {
    type V = SendPlanView;

    open spec fn view(&self) -> SendPlanView {
        SendPlanView {
            connection: self.connection,
            attachments: self.attachments@,
            read_pipe_id: self.read_pipe_id,
        }
    }
}

/// How far the walk over a message's identifiers has come.
pub struct SendWalk {
    pub items: CrossDomainItemsView,
    pub attachments: Seq<SendAttachment>,
    pub read_pipe_id: Option<u32>,
    /// The error that stopped the walk, if one did.
    pub error: Option<RutabagaError>,
}

/// One identifier further.
///
/// A guest resource is attached by the descriptor of its handle; it has to
/// be known (`InvalidResourceId`) and to have such a handle
/// (`InvalidMesaHandle`). A read pipe makes a new item, whose identifier the
/// guest must have named (`InvalidCrossDomainItemId`, with the item in
/// place); a second one in the same message is an error. Any other type is
/// `InvalidCrossDomainItemType`.
pub open spec fn spec_send_step(
    resources: Map<u32, ContextResource>,
    walk: SendWalk,
    identifier: u32,
    identifier_type: u32,
) -> SendWalk {
    if walk.error is Some {
        walk
    } else if identifier_type == CROSS_DOMAIN_ID_TYPE_VIRTGPU_BLOB {
        if !resources.contains_key(identifier) {
            SendWalk { error: Some(RutabagaError::InvalidResourceId), ..walk }
        } else {
            match resources[identifier].handle {
                Some(RutabagaHandle::MesaHandle(handle)) => SendWalk {
                    attachments: walk.attachments.push(SendAttachment::Descriptor(handle.os_handle)),
                    ..walk
                },
                _ => SendWalk {
                    error: Some(RutabagaError::MesaError(MesaError::InvalidMesaHandle)),
                    ..walk
                },
            }
        }
    } else if identifier_type == CROSS_DOMAIN_ID_TYPE_READ_PIPE {
        if walk.read_pipe_id is Some {
            SendWalk {
                error: Some(
                    RutabagaError::MesaError(MesaError::WithContext("expected just one pipe pair")),
                ),
                ..walk
            }
        } else if walk.items.exhausted(CrossDomainItem::WaylandReadPipe) {
            SendWalk { error: Some(RutabagaError::InvalidCrossDomainItemId), ..walk }
        } else if walk.items.next_id(CrossDomainItem::WaylandReadPipe) != identifier {
            SendWalk {
                items: walk.items.with_item(CrossDomainItem::WaylandReadPipe),
                error: Some(RutabagaError::InvalidCrossDomainItemId),
                ..walk
            }
        } else {
            SendWalk {
                items: walk.items.with_item(CrossDomainItem::WaylandReadPipe),
                attachments: walk.attachments.push(SendAttachment::WritePipe),
                read_pipe_id: Some(identifier),
                ..walk
            }
        }
    } else {
        SendWalk { error: Some(RutabagaError::InvalidCrossDomainItemType), ..walk }
    }
}

/// The walk from identifier `i` to identifier `n`.
pub open spec fn spec_send_walk(
    resources: Map<u32, ContextResource>,
    cmd_send: CrossDomainSendReceive,
    walk: SendWalk,
    i: int,
    n: int,
) -> SendWalk
    decreases n - i,
{
    if i >= n || i < 0 || i >= 4 {
        walk
    } else {
        spec_send_walk(
            resources,
            cmd_send,
            spec_send_step(
                resources,
                walk,
                cmd_send.identifiers[i],
                cmd_send.identifier_types[i],
            ),
            i + 1,
            n,
        )
    }
}

/// What WRITE asks of the caller: write the command's payload to
/// `descriptor` unless it is empty, then report with `write_complete`.
#[derive(Clone, Copy, Debug, PartialEq, Eq, Structural)]
pub struct WritePlan {
    pub identifier: u32,
    pub descriptor: RawDescriptor,
    /// Whether there is anything to write.
    pub write: bool,
    /// Whether the pipe ends with this command.
    pub hang_up: bool,
}

impl CrossDomainContextView {
    /// Where GET_IMAGE_REQUIREMENTS leaves the context: the requirements are
    /// kept as a new item when the context is initialized and an identifier
    /// is left, also when the answer then cannot be written.
    pub open spec fn after_image_requirements(self, reqs: ImageMemoryRequirements)
        -> CrossDomainContextView {
        let item = CrossDomainItem::ImageRequirements(reqs);
        if self.state is None || self.items.exhausted(item) {
            self
        } else {
            CrossDomainContextView { items: self.items.with_item(item), ..self }
        }
    }

    /// What GET_IMAGE_REQUIREMENTS comes to: the answer for the query ring,
    /// or the error. A context that is not initialized is
    /// `InvalidCrossDomainState`.
    pub open spec fn image_requirements_result(self, reqs: ImageMemoryRequirements) -> Result<
        RingUpdateView,
        RutabagaError,
    > {
        let item = CrossDomainItem::ImageRequirements(reqs);
        if self.state is None {
            Err(RutabagaError::InvalidCrossDomainState)
        } else if self.items.exhausted(item) {
            Err(RutabagaError::InvalidCrossDomainItemId)
        } else {
            crate::cross_domain::ring::spec_ring_record(
                self.context_resources,
                self.state.unwrap().query_ring_id,
                spec_image_response(reqs, self.items.next_id(item)).spec_encode(),
                None,
            )
        }
    }

    /// The walk over all identifiers of a message. More than the maximum
    /// stops it before the first.
    pub open spec fn send_walk(self, cmd_send: CrossDomainSendReceive) -> SendWalk {
        let start = SendWalk {
            items: self.items,
            attachments: Seq::empty(),
            read_pipe_id: None,
            error: None,
        };
        if cmd_send.num_identifiers > CROSS_DOMAIN_MAX_IDENTIFIERS {
            SendWalk {
                error: Some(
                    RutabagaError::MesaError(
                        MesaError::WithContext("max cross domain identifiers exceeded"),
                    ),
                ),
                ..start
            }
        } else {
            spec_send_walk(
                self.context_resources,
                cmd_send,
                start,
                0,
                cmd_send.num_identifiers as int,
            )
        }
    }

    /// Where SEND leaves the context: with the read pipe that the walk has
    /// made, if it made one, and otherwise as it was.
    pub open spec fn after_send(self, cmd_send: CrossDomainSendReceive) -> CrossDomainContextView {
        CrossDomainContextView { items: self.send_walk(cmd_send).items, ..self }
    }

    /// What SEND comes to: the plan for the message, or the error of the
    /// walk, or, after a walk without error, `InvalidCrossDomainState` for a
    /// context without a channel.
    pub open spec fn send_result(self, cmd_send: CrossDomainSendReceive) -> Result<
        SendPlanView,
        RutabagaError,
    > {
        let walk = self.send_walk(cmd_send);
        if walk.error is Some {
            Err(walk.error.unwrap())
        } else if self.state is None || self.resample_evt is None {
            Err(RutabagaError::InvalidCrossDomainState)
        } else if self.state.unwrap().connection is None {
            Err(RutabagaError::InvalidCrossDomainChannel)
        } else {
            Ok(
                SendPlanView {
                    connection: self.state.unwrap().connection.unwrap(),
                    attachments: walk.attachments,
                    read_pipe_id: walk.read_pipe_id,
                },
            )
        }
    }

    /// Where the outcome of sending leaves the context: after a message
    /// with a pipe has gone out, the worker is told to watch the pipe;
    /// a message that has not gone out changes nothing.
    pub open spec fn after_send_complete(
        self,
        read_pipe_id: Option<u32>,
        sent: RutabagaResult<usize>,
    ) -> CrossDomainContextView {
        if sent is Ok && read_pipe_id is Some && self.resample_evt is Some {
            self.with_job(CrossDomainJob::AddReadPipe(read_pipe_id.unwrap()))
        } else {
            self
        }
    }

    /// What the outcome of sending comes to: the event to signal so that
    /// the worker looks at its wait set again, if a pipe went out.
    pub open spec fn send_complete_result(
        self,
        read_pipe_id: Option<u32>,
        sent: RutabagaResult<usize>,
    ) -> Result<Option<RawDescriptor>, RutabagaError> {
        match sent {
            Err(e) => Err(e),
            Ok(_) => if read_pipe_id is Some {
                Ok(self.resample_evt)
            } else {
                Ok(None)
            },
        }
    }

    /// What WRITE comes to: the plan for the pipe under the command's
    /// identifier. No item there is `InvalidCrossDomainItemId`; an item that
    /// is no such pipe is `InvalidCrossDomainItemType`.
    pub open spec fn write_result(self, cmd_write: CrossDomainReadWrite) -> Result<
        WritePlan,
        RutabagaError,
    > {
        if !self.items.table.contains_key(cmd_write.identifier) {
            Err(RutabagaError::InvalidCrossDomainItemId)
        } else {
            match self.items.table[cmd_write.identifier] {
                CrossDomainItem::WaylandWritePipe(descriptor) => Ok(
                    WritePlan {
                        identifier: cmd_write.identifier,
                        descriptor,
                        write: cmd_write.opaque_data_size != 0,
                        hang_up: cmd_write.hang_up != 0,
                    },
                ),
                _ => Err(RutabagaError::InvalidCrossDomainItemType),
            }
        }
    }

    /// Where WRITE leaves the context: an item that is no pipe for writing
    /// is gone; a pipe stays until the write has been done.
    pub open spec fn after_write(self, cmd_write: CrossDomainReadWrite) -> CrossDomainContextView {
        if self.items.table.contains_key(cmd_write.identifier) && !(
        self.items.table[cmd_write.identifier] is WaylandWritePipe) {
            self.without_item(cmd_write.identifier)
        } else {
            self
        }
    }

    /// The context without the item under `identifier`.
    pub open spec fn without_item(self, identifier: u32) -> CrossDomainContextView {
        CrossDomainContextView {
            items: CrossDomainItemsView {
                table: self.items.table.remove(identifier),
                ..self.items
            },
            ..self
        }
    }

    /// Where the outcome of writing leaves the context: the pipe stays only
    /// if the write went well and the command did not hang up.
    pub open spec fn after_write_complete(self, plan: WritePlan, written: RutabagaResult<usize>)
        -> CrossDomainContextView {
        if written is Ok && !plan.hang_up {
            self
        } else {
            self.without_item(plan.identifier)
        }
    }
}

impl CrossDomainContext {
    /// GET_IMAGE_REQUIREMENTS, once the allocator has answered: keeps the
    /// requirements as an item and prepares the answer for the query ring.
    pub fn get_image_requirements(&mut self, reqs: ImageMemoryRequirements) -> (r: RutabagaResult<
        RingUpdate,
    >)
        ensures
            final(self)@ == old(self)@.after_image_requirements(reqs),
            spec_update_view(r) == old(self)@.image_requirements_result(reqs),
    {
        let mut response = CrossDomainImageRequirements {
            strides: reqs.strides,
            offsets: reqs.offsets,
            modifier: reqs.modifier,
            size: reqs.size,
            blob_id: 0,
            map_info: reqs.map_info,
            memory_idx: -1,
            physical_device_idx: -1,
        };
        if let Some(vk_info) = reqs.vulkan_info {
            response.memory_idx = #[verifier::truncate]
            (vk_info.memory_idx as i32);
        }
        let query_ring_id = match &self.state {
            Some(state) => state.query_ring_id,
            None => {
                return Err(RutabagaError::InvalidCrossDomainState);
            },
        };
        response.blob_id = self.item_state.add_item(CrossDomainItem::ImageRequirements(reqs))?;
        assert(response == spec_image_response(reqs, response.blob_id));
        let record = response.encode();
        match write_to_ring(
            &self.context_resources,
            RingWrite::Write(record.as_slice(), None),
            query_ring_id,
        ) {
            Ok((update, _)) => Ok(update),
            Err(e) => Err(e),
        }
    }

    /// SEND, first step: walks the identifiers and plans the message.
    ///
    /// Nothing has been sent when this returns. The only change is the item
    /// for the read end of a new pipe, made when the walk reaches a read
    /// pipe.
    pub fn send(&mut self, cmd_send: &CrossDomainSendReceive) -> (r: RutabagaResult<SendPlan>)
        ensures
            final(self)@ == old(self)@.after_send(*cmd_send),
            match old(self)@.send_result(*cmd_send) {
                Err(e) => r == Err::<SendPlan, RutabagaError>(e),
                Ok(plan) => r.is_ok() && r.unwrap()@ == plan,
            },
    {
        broadcast use vstd::std_specs::btree::group_btree_axioms;

        let mut attachments: Vec<SendAttachment> = Vec::new();
        let mut read_pipe_id_opt: Option<u32> = None;

        if cmd_send.num_identifiers as usize > CROSS_DOMAIN_MAX_IDENTIFIERS {
            return Err(
                RutabagaError::MesaError(
                    MesaError::WithContext("max cross domain identifiers exceeded"),
                ),
            );
        }
        let num_identifiers: usize = cmd_send.num_identifiers as usize;
        let ghost start = SendWalk {
            items: old(self)@.items,
            attachments: Seq::empty(),
            read_pipe_id: None,
            error: None,
        };
        let ghost resources = old(self)@.context_resources;
        let mut i: usize = 0;
        while i < num_identifiers
            invariant
                i <= num_identifiers <= 4,
                num_identifiers == cmd_send.num_identifiers,
                start == (SendWalk {
                    items: old(self)@.items,
                    attachments: Seq::empty(),
                    read_pipe_id: None,
                    error: None,
                }),
                self@ == (CrossDomainContextView { items: self@.items, ..old(self)@ }),
                resources == old(self)@.context_resources,
                spec_send_walk(resources, *cmd_send, start, 0, num_identifiers as int)
                    == spec_send_walk(
                    resources,
                    *cmd_send,
                    SendWalk {
                        items: self@.items,
                        attachments: attachments@,
                        read_pipe_id: read_pipe_id_opt,
                        error: None,
                    },
                    i as int,
                    num_identifiers as int,
                ),
            decreases num_identifiers - i,
        {
            let identifier: u32 = cmd_send.identifiers[i];
            let identifier_type: u32 = cmd_send.identifier_types[i];
            let ghost before = SendWalk {
                items: self@.items,
                attachments: attachments@,
                read_pipe_id: read_pipe_id_opt,
                error: None,
            };
            let ghost after = spec_send_step(resources, before, identifier, identifier_type);
            proof {
                assert(spec_send_walk(
                    resources,
                    *cmd_send,
                    before,
                    i as int,
                    num_identifiers as int,
                ) == spec_send_walk(
                    resources,
                    *cmd_send,
                    after,
                    i as int + 1,
                    num_identifiers as int,
                ));
                if after.error is Some {
                    lemma_send_walk_stops(
                        resources,
                        *cmd_send,
                        after,
                        i as int + 1,
                        num_identifiers as int,
                    );
                }
            }
            if identifier_type == CROSS_DOMAIN_ID_TYPE_VIRTGPU_BLOB {
                let context_resource = match self.context_resources.get(&identifier) {
                    Some(context_resource) => context_resource,
                    None => {
                        return Err(RutabagaError::InvalidResourceId);
                    },
                };
                match &context_resource.handle {
                    Some(RutabagaHandle::MesaHandle(mesa_handle)) => {
                        attachments.push(SendAttachment::Descriptor(mesa_handle.os_handle));
                    },
                    _ => {
                        return Err(RutabagaError::MesaError(MesaError::InvalidMesaHandle));
                    },
                }
            } else if identifier_type == CROSS_DOMAIN_ID_TYPE_READ_PIPE {
                // In practice, just 1 pipe pair per send is observed.
                if read_pipe_id_opt.is_some() {
                    return Err(
                        RutabagaError::MesaError(
                            MesaError::WithContext("expected just one pipe pair"),
                        ),
                    );
                }
                let read_pipe_id: u32 = self.item_state.add_item(CrossDomainItem::WaylandReadPipe)?;

                // The guest guesses which identifier the host will use, so
                // that it does not have to wait for the answer.
                if read_pipe_id != identifier {
                    return Err(RutabagaError::InvalidCrossDomainItemId);
                }
                attachments.push(SendAttachment::WritePipe);
                read_pipe_id_opt = Some(read_pipe_id);
            } else {
                // Don't know how to handle anything else yet.
                return Err(RutabagaError::InvalidCrossDomainItemType);
            }
            i += 1;
        }

        let connection = match (&self.state, &self.resample_evt) {
            (Some(state), Some(_)) => state.send_msg()?,
            _ => {
                return Err(RutabagaError::InvalidCrossDomainState);
            },
        };
        Ok(SendPlan { connection, attachments, read_pipe_id: read_pipe_id_opt })
    }

    /// SEND, second step: takes note of how sending went.
    ///
    /// After a message with a pipe has gone out, the worker is told to watch
    /// the pipe and the result names the resample event, which the caller
    /// signals. A message that did not go out leaves the context as the
    /// first step left it, and its error is the result.
    pub fn send_complete(&mut self, read_pipe_id: Option<u32>, sent: RutabagaResult<usize>) -> (r:
        RutabagaResult<Option<RawDescriptor>>)
        ensures
            final(self)@ == old(self)@.after_send_complete(read_pipe_id, sent),
            r == old(self)@.send_complete_result(read_pipe_id, sent),
    {
        match sent {
            Err(e) => Err(e),
            Ok(_) => match read_pipe_id {
                Some(id) => {
                    if self.resample_evt.is_some() {
                        self.add_job(CrossDomainJob::AddReadPipe(id));
                    }
                    Ok(self.resample_evt)
                },
                None => Ok(None),
            },
        }
    }

    /// WRITE, first step: finds the pipe.
    pub fn write(&mut self, cmd_write: &CrossDomainReadWrite) -> (r: RutabagaResult<WritePlan>)
        ensures
            final(self)@ == old(self)@.after_write(*cmd_write),
            r == old(self)@.write_result(*cmd_write),
    {
        broadcast use vstd::std_specs::btree::group_btree_axioms;

        let item = match self.item_state.get(cmd_write.identifier) {
            Some(item) => item,
            None => {
                return Err(RutabagaError::InvalidCrossDomainItemId);
            },
        };
        match item {
            CrossDomainItem::WaylandWritePipe(descriptor) => Ok(
                WritePlan {
                    identifier: cmd_write.identifier,
                    descriptor,
                    write: cmd_write.opaque_data_size != 0,
                    hang_up: cmd_write.hang_up != 0,
                },
            ),
            _ => {
                self.item_state.remove(cmd_write.identifier);
                Err(RutabagaError::InvalidCrossDomainItemType)
            },
        }
    }

    /// WRITE, second step: takes note of how writing went. The pipe stays in
    /// the table only if the write went well and the command did not hang
    /// up. The result is that of the write.
    pub fn write_complete(&mut self, plan: &WritePlan, written: RutabagaResult<usize>) -> (r:
        RutabagaResult<()>)
        ensures
            final(self)@ == old(self)@.after_write_complete(*plan, written),
            r == match written {
                Ok(_) => Ok::<(), RutabagaError>(()),
                Err(e) => Err::<(), RutabagaError>(e),
            },
    {
        broadcast use vstd::std_specs::btree::group_btree_axioms;

        match written {
            Ok(_) => {
                if plan.hang_up {
                    self.item_state.remove(plan.identifier);
                }
                Ok(())
            },
            Err(e) => {
                self.item_state.remove(plan.identifier);
                Err(e)
            },
        }
    }
}

/// A walk that has met its error stays as it is.
pub proof fn lemma_send_walk_stops(
    resources: Map<u32, ContextResource>,
    cmd_send: CrossDomainSendReceive,
    walk: SendWalk,
    i: int,
    n: int,
)
    requires
        walk.error is Some,
    ensures
        spec_send_walk(resources, cmd_send, walk, i, n) == walk,
    decreases n - i,
{
    if i >= n || i < 0 || i >= 4 {
    } else {
        lemma_send_walk_stops(resources, cmd_send, walk, i + 1, n);
    }
}

} // verus!
