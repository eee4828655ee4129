//! What holds of the context whatever the guest does.

use crate::cross_domain::commands::spec_send_step;
use crate::cross_domain::commands::spec_send_walk;
use crate::cross_domain::commands::SendWalk;
use crate::cross_domain::commands::WritePlan;
use crate::cross_domain::context::CrossDomainContextView;
use crate::cross_domain::cross_domain_protocol::CrossDomainReadWrite;
use crate::cross_domain::cross_domain_protocol::CrossDomainSendReceive;
use crate::cross_domain::cross_domain_protocol::CROSS_DOMAIN_ID_TYPE_READ_PIPE;
use crate::cross_domain::cross_domain_protocol::CROSS_DOMAIN_MAX_IDENTIFIERS;
use crate::cross_domain::items::CrossDomainItem;
use crate::cross_domain::ring::spec_read_record;
use crate::cross_domain::ring::spec_ring_record;
use crate::cross_domain::worker::spec_classify_event;
use crate::cross_domain::worker::spec_read_record_start;
use crate::cross_domain::worker::EventSource;
use crate::cross_domain::worker::FenceStepView;
use crate::cross_domain::worker::ReceivedDescriptor;
use crate::cross_domain::worker::WaitEvent;
use crate::handle::MesaHandle;
use crate::handle::RutabagaHandle;
use crate::rutabaga_utils::MesaError;
use crate::rutabaga_utils::ResourceCreateBlob;
use crate::rutabaga_utils::RutabagaError;
use crate::rutabaga_utils::RutabagaFence;
use crate::rutabaga_utils::RutabagaResult;
use crate::cross_domain::context::CrossDomainJob;
use crate::cross_domain::cross_domain_protocol::CrossDomainFutexNew;
use crate::cross_domain::cross_domain_protocol::CrossDomainFutexSignal;
use crate::cross_domain::cross_domain_protocol::CROSS_DOMAIN_FUTEX_START;
use crate::cross_domain::cross_domain_protocol::CROSS_DOMAIN_HEADER_SIZE;
use crate::cross_domain::cross_domain_protocol::CROSS_DOMAIN_PIPE_READ_START;
use crate::cross_domain::dispatch::spec_next_commands;
use crate::cross_domain::dispatch::spec_parse_command;
use crate::cross_domain::dispatch::CommandActionView;
use crate::cross_domain::dispatch::CrossDomainCommand;
use crate::cross_domain::futex::FUTEX_WATCHER_BITSET;
use crate::cross_domain::worker::lemma_event_names_disjoint;
use crate::cross_domain::worker::spec_futex_name;
use crate::cross_domain::worker::spec_futex_signal_record;
use crate::cross_domain::worker::FenceOutcomeView;
use crate::cross_domain::worker::WaitSetEntry;
use crate::cross_domain::worker::WorkerAction;
use crate::cross_domain::worker::CROSS_DOMAIN_CONTEXT_CHANNEL_ID;
use crate::cross_domain::worker::CROSS_DOMAIN_KILL_ID;
use crate::cross_domain::worker::CROSS_DOMAIN_RESAMPLE_ID;
use vstd::prelude::*;

verus! {

/// Memory received from the host server does not leak: creating a blob
/// under its identifier succeeds, hands the memory on in the resource, and
/// takes the item out of the table. Until then the item is in the table,
/// all of which `release` hands to the caller.
pub proof fn lemma_blob_is_consumed(
    ctx: CrossDomainContextView,
    id: u32,
    handle: MesaHandle,
    resource_id: u32,
    resource_create_blob: ResourceCreateBlob,
    handle_opt: Option<RutabagaHandle>,
)
    requires
        ctx.items.table.contains_key(id),
        ctx.items.table[id] == CrossDomainItem::Blob(handle),
        resource_create_blob.blob_id == id,
    ensures
        ctx.create_blob_result(resource_id, resource_create_blob, handle_opt) is Ok,
        ctx.create_blob_result(resource_id, resource_create_blob, handle_opt).unwrap().handle
            == Some(RutabagaHandle::MesaHandle(handle)),
        !ctx.after_create_blob(resource_create_blob).items.table.contains_key(id),
        ctx.after_create_blob(resource_create_blob).items.table == ctx.items.table.remove(id),
{
}

/// SEND changes the item table by one read pipe at most, whether or not it
/// comes to an error.
pub proof fn lemma_send_adds_at_most_a_read_pipe(
    ctx: CrossDomainContextView,
    cmd_send: CrossDomainSendReceive,
)
    ensures
        ctx.after_send(cmd_send).items == ctx.items || ctx.after_send(cmd_send).items
            == ctx.items.with_item(CrossDomainItem::WaylandReadPipe),
        ctx.after_send(cmd_send) == (CrossDomainContextView {
            items: ctx.after_send(cmd_send).items,
            ..ctx
        }),
{
    let start = SendWalk {
        items: ctx.items,
        attachments: Seq::empty(),
        read_pipe_id: None,
        error: None,
    };
    if cmd_send.num_identifiers <= CROSS_DOMAIN_MAX_IDENTIFIERS {
        lemma_walk_adds_at_most_a_read_pipe(
            ctx,
            cmd_send,
            start,
            0,
            cmd_send.num_identifiers as int,
        );
    }
}

/// The part of a walk from `i` on adds one read pipe at most, and none if
/// the walk has made one before.
pub proof fn lemma_walk_adds_at_most_a_read_pipe(
    ctx: CrossDomainContextView,
    cmd_send: CrossDomainSendReceive,
    walk: SendWalk,
    i: int,
    n: int,
)
    requires
        walk.items == ctx.items && walk.read_pipe_id is None || walk.items == ctx.items.with_item(
            CrossDomainItem::WaylandReadPipe,
        ) && (walk.read_pipe_id is Some || walk.error is Some),
    ensures
        ({
            let end = spec_send_walk(ctx.context_resources, cmd_send, walk, i, n);
            end.items == ctx.items || end.items == ctx.items.with_item(
                CrossDomainItem::WaylandReadPipe,
            )
        }),
    decreases n - i,
{
    if i >= n || i < 0 || i >= 4 {
    } else {
        let next = spec_send_step(
            ctx.context_resources,
            walk,
            cmd_send.identifiers[i],
            cmd_send.identifier_types[i],
        );
        lemma_walk_adds_at_most_a_read_pipe(ctx, cmd_send, next, i + 1, n);
    }
}

/// A message that did not go out changes nothing: the context is left as
/// planning the message left it, and the error of the socket comes back.
pub proof fn lemma_failed_send_changes_nothing(
    ctx: CrossDomainContextView,
    read_pipe_id: Option<u32>,
    e: RutabagaError,
)
    ensures
        ctx.after_send_complete(read_pipe_id, Err::<usize, RutabagaError>(e)) == ctx,
        ctx.send_complete_result(read_pipe_id, Err::<usize, RutabagaError>(e)) == Err::<
            Option<i32>,
            RutabagaError,
        >(e),
{
}

/// More identifiers than a message can carry: SEND is an error, plans no
/// message, and leaves the context as it was.
pub proof fn lemma_send_too_many_identifiers(
    ctx: CrossDomainContextView,
    cmd_send: CrossDomainSendReceive,
)
    requires
        cmd_send.num_identifiers > CROSS_DOMAIN_MAX_IDENTIFIERS,
    ensures
        ctx.send_result(cmd_send) is Err,
        ctx.send_result(cmd_send)->Err_0 == RutabagaError::MesaError(
            MesaError::WithContext("max cross domain identifiers exceeded"),
        ),
        ctx.after_send(cmd_send) == ctx,
{
}

/// Two read pipes in one message: SEND is an error and plans no message.
pub proof fn lemma_send_two_pipes(
    ctx: CrossDomainContextView,
    cmd_send: CrossDomainSendReceive,
    i: int,
    j: int,
)
    requires
        0 <= i < j < cmd_send.num_identifiers <= CROSS_DOMAIN_MAX_IDENTIFIERS,
        cmd_send.identifier_types[i] == CROSS_DOMAIN_ID_TYPE_READ_PIPE,
        cmd_send.identifier_types[j] == CROSS_DOMAIN_ID_TYPE_READ_PIPE,
    ensures
        ctx.send_result(cmd_send) is Err,
{
    reveal_with_fuel(spec_send_walk, 5);
}

/// A payload that is larger than the ring: the write is `InvalidIovec`, and
/// no update for the ring exists.
pub proof fn lemma_payload_larger_than_ring(
    ctx: CrossDomainContextView,
    ring_id: u32,
    cmd: Seq<u8>,
    opaque: Seq<u8>,
)
    requires
        crate::cross_domain::ring::spec_ring_iovec(ctx.context_resources, ring_id) is Ok,
        opaque.len() > crate::cross_domain::ring::spec_ring_iovec(
            ctx.context_resources,
            ring_id,
        ).unwrap().len,
    ensures
        spec_ring_record(ctx.context_resources, ring_id, cmd, Some(opaque)) == Err::<
            crate::cross_domain::ring::RingUpdateView,
            RutabagaError,
        >(RutabagaError::InvalidIovec),
{
}

/// After a WRITE that hangs up, the identifier names nothing: a further
/// WRITE, a blob made from it and an event under its name all come to
/// `InvalidCrossDomainItemId`.
pub proof fn lemma_hang_up_forgets(
    ctx: CrossDomainContextView,
    cmd_write: CrossDomainReadWrite,
    written: RutabagaResult<usize>,
    next_write: CrossDomainReadWrite,
    resource_id: u32,
    resource_create_blob: ResourceCreateBlob,
    handle_opt: Option<RutabagaHandle>,
    fence: RutabagaFence,
    event: WaitEvent,
)
    requires
        cmd_write.hang_up != 0,
        ctx.write_result(cmd_write) is Ok,
        next_write.identifier == cmd_write.identifier,
        resource_create_blob.blob_id == cmd_write.identifier,
        spec_classify_event(event.connection_id) == EventSource::Item(cmd_write.identifier),
    ensures
        ({
            let plan: WritePlan = ctx.write_result(cmd_write).unwrap();
            let after = ctx.after_write(cmd_write).after_write_complete(plan, written);
            &&& !after.items.table.contains_key(cmd_write.identifier)
            &&& after.write_result(next_write) == Err::<WritePlan, RutabagaError>(
                RutabagaError::InvalidCrossDomainItemId,
            )
            &&& after.create_blob_result(resource_id, resource_create_blob, handle_opt) is Err
            &&& after.create_blob_result(resource_id, resource_create_blob, handle_opt)->Err_0
                == RutabagaError::InvalidCrossDomainItemId
            &&& after.fence_step_result(fence, Some(event)) is Err
            &&& after.fence_step_result(fence, Some(event))->Err_0
                == RutabagaError::InvalidCrossDomainItemId
        }),
{
}

/// A READ that marks the hang-up is the last one for its identifier: the
/// record marks the hang-up exactly if the pipe has left the table with it,
/// and then a further event under the pipe's name comes to
/// `InvalidCrossDomainItemId` and writes nothing.
pub proof fn lemma_hang_up_is_last_read(
    ctx: CrossDomainContextView,
    fence: RutabagaFence,
    pipe_id: u32,
    hung_up: bool,
    data: Option<Seq<u8>>,
    next_fence: RutabagaFence,
    next_event: WaitEvent,
    next_data: Option<Seq<u8>>,
)
    requires
        ctx.pipe_read_result(fence, pipe_id, hung_up, data) is Ok,
        next_event.connection_id == pipe_id,
        spec_classify_event(pipe_id as u64) == EventSource::Item(pipe_id),
    ensures
        ({
            let record = spec_read_record(
                spec_read_record_start(pipe_id, hung_up, data),
                data,
            );
            let after = ctx.after_pipe_read(fence, pipe_id, hung_up, data);
            &&& record.hang_up == 1 <==> !after.items.table.contains_key(pipe_id)
            &&& record.hang_up == 1 ==> {
                &&& after.fence_step_result(next_fence, Some(next_event)) is Err
                &&& after.fence_step_result(next_fence, Some(next_event))->Err_0
                    == RutabagaError::InvalidCrossDomainItemId
                &&& after.pipe_read_result(next_fence, pipe_id, next_event.hung_up, next_data)
                    is Err
            }
        }),
{
}

/// One event, one fence: whatever event the wait set reports for a fence,
/// serving it signals the fence or puts it back, never both and never
/// neither, and writes to the ring once at most, and only under the signal.
/// A fence that is put back is the last job in the queue afterwards.
/// The connection, a read pipe and a futex that was woken each come to
/// exactly one ring update and one signal.
pub proof fn lemma_one_event_one_fence(
    ctx: CrossDomainContextView,
    fence: RutabagaFence,
    event: WaitEvent,
    payload: Seq<u8>,
    files: Seq<ReceivedDescriptor>,
    data: Option<Seq<u8>>,
)
    ensures
        match ctx.fence_step_result(fence, Some(event)) {
            Ok(FenceStepView::Done(outcome)) => outcome.one_fence(fence) && (spec_classify_event(
                event.connection_id,
            ) is Futex && ctx.futex_live(spec_classify_event(event.connection_id)->Futex_0)
                ==> outcome.ring_update is Some && outcome.signal == Some(fence)) && (
            outcome.requeued ==> ctx.after_fence_step(fence, Some(event)).last_job() == Some(
                CrossDomainJob::HandleFence(fence),
            )),
            Ok(FenceStepView::Receive(_)) => match ctx.channel_received_result(
                fence,
                payload,
                files,
            ) {
                Ok(outcome) => outcome.one_fence(fence) && outcome.ring_update is Some
                    && outcome.signal == Some(fence),
                Err(_) => true,
            },
            Ok(FenceStepView::ReadPipe { pipe_id, capacity, readable, hung_up }) => match ctx.pipe_read_result(
                fence,
                pipe_id,
                hung_up,
                data,
            ) {
                Ok(outcome) => outcome.one_fence(fence) && outcome.ring_update is Some
                    && outcome.signal == Some(fence),
                Err(_) => true,
            },
            Err(_) => true,
        },
{
}

/// Every futex that FUTEX_NEW accepts is told by its name: the worker is
/// asked to watch the futex's event under a name in the futex range, that
/// name is read as an event of this futex and of nothing else, it is none
/// of the three fixed names, and no item sits under it.
pub proof fn lemma_accepted_futex_has_its_own_name(
    ctx: CrossDomainContextView,
    cmd_futex_new: CrossDomainFutexNew,
    evt: i32,
    other: u32,
)
    requires
        ctx.items.wf(),
        ctx.futex_new_result(cmd_futex_new) is Ok,
    ensures
        ({
            let id = cmd_futex_new.id;
            let name = (CROSS_DOMAIN_FUTEX_START + id) as u64;
            &&& spec_futex_name(id) == Some(name)
            &&& CROSS_DOMAIN_FUTEX_START <= name < CROSS_DOMAIN_PIPE_READ_START
            &&& ctx.job_result(CrossDomainJob::AddFutex(id, evt)) == Ok::<
                WorkerAction,
                RutabagaError,
            >(WorkerAction::Watch(name, WaitSetEntry::Futex(id, evt)))
            &&& spec_classify_event(name) == EventSource::Futex(id)
            &&& name != CROSS_DOMAIN_CONTEXT_CHANNEL_ID
            &&& name != CROSS_DOMAIN_RESAMPLE_ID
            &&& name != CROSS_DOMAIN_KILL_ID
            &&& !ctx.items.table.contains_key(name as u32)
            &&& other != id ==> spec_futex_name(other) != Some(name)
        }),
{
    lemma_event_names_disjoint(ctx.items, cmd_futex_new.id);
}

/// An event under the name of a bound futex is served as the event of that
/// futex. If the futex is live, its record goes to the channel ring with
/// the futex's identifier, the watcher's event is drained, the fence is
/// signaled and not put back, and the futex stays bound. If the futex has
/// been shut down, its event leaves the wait set and its entry the table,
/// nothing is written or signaled, and the fence is put back.
pub proof fn lemma_futex_event_is_served(
    ctx: CrossDomainContextView,
    id: u32,
    fence: RutabagaFence,
    event: WaitEvent,
)
    requires
        spec_futex_name(id) == Some(event.connection_id),
        ctx.futexes.contains_key(id),
        ctx.state is Some,
    ensures
        ctx.futexes[id].shutdown ==> {
            &&& ctx.fence_step_result(fence, Some(event)) == Ok::<FenceStepView, RutabagaError>(
                FenceStepView::Done(
                    FenceOutcomeView {
                        deregister: Some(WaitSetEntry::Futex(id, ctx.futexes[id].evt)),
                        requeued: true,
                        ..FenceOutcomeView::nothing()
                    },
                ),
            )
            &&& ctx.after_fence_step(fence, Some(event)).futexes == ctx.futexes.remove(id)
            &&& ctx.after_fence_step(fence, Some(event)).last_job() == Some(
                CrossDomainJob::HandleFence(fence),
            )
        },
        !ctx.futexes[id].shutdown ==> {
            &&& ctx.after_fence_step(fence, Some(event)) == ctx
            &&& match spec_ring_record(
                ctx.context_resources,
                ctx.state.unwrap().channel_ring_id,
                spec_futex_signal_record(id).spec_encode(),
                None,
            ) {
                Err(e) => ctx.fence_step_result(fence, Some(event)) == Err::<
                    FenceStepView,
                    RutabagaError,
                >(e),
                Ok(update) => update.data == spec_futex_signal_record(id).spec_encode()
                    && ctx.fence_step_result(fence, Some(event)) == Ok::<
                    FenceStepView,
                    RutabagaError,
                >(
                    FenceStepView::Done(
                        FenceOutcomeView {
                            drain: Some(ctx.futexes[id].evt),
                            ring_update: Some(update),
                            signal: Some(fence),
                            ..FenceOutcomeView::nothing()
                        },
                    ),
                ),
            }
        },
{
}

/// FUTEX_SIGNAL is `Ok` exactly if the identifier is bound; a wake that it
/// asks for never reaches the watcher; and it changes nothing.
pub proof fn lemma_futex_signal_is_ok_if_bound(
    ctx: CrossDomainContextView,
    cmd_futex_signal: CrossDomainFutexSignal,
    commands: Seq<u8>,
)
    requires
        spec_parse_command(commands) == Ok::<CrossDomainCommand, RutabagaError>(
            CrossDomainCommand::FutexSignal(cmd_futex_signal),
        ),
    ensures
        ctx.futex_signal_result(cmd_futex_signal) is Ok <==> ctx.futexes.contains_key(
            cmd_futex_signal.id,
        ),
        ctx.futex_signal_result(cmd_futex_signal) is Err ==> ctx.futex_signal_result(
            cmd_futex_signal,
        )->Err_0 == RutabagaError::InvalidCrossDomainItemId,
        ctx.futex_signal_result(cmd_futex_signal) is Ok ==> (ctx.futex_signal_result(
            cmd_futex_signal,
        )->Ok_0 is Some <==> ctx.futex_live(cmd_futex_signal.id)),
        ctx.futex_signal_result(cmd_futex_signal) is Ok && ctx.futex_signal_result(
            cmd_futex_signal,
        )->Ok_0 is Some ==> ctx.futex_signal_result(cmd_futex_signal)->Ok_0->Some_0.bitset
            & FUTEX_WATCHER_BITSET == 0,
        ctx.after_submit(commands) == ctx,
{
    assert(0xffff_fffeu32 & 0x0000_0001u32 == 0) by (bit_vector);
}

/// The dispatcher at the ends of a buffer. An empty buffer is no error and
/// changes nothing. A buffer that is not empty but too short for a header
/// is `InvalidCommandBuffer`; it and a buffer with a tag that is not known
/// change nothing. POLL changes nothing. What is left after a command is
/// shorter than the buffer, so that going through a buffer comes to an end.
pub proof fn lemma_dispatcher_ends(ctx: CrossDomainContextView, commands: Seq<u8>)
    ensures
        commands.len() == 0 ==> ctx.submit_result(commands) == Ok::<
            CommandActionView,
            RutabagaError,
        >(CommandActionView::Done) && ctx.after_submit(commands) == ctx,
        0 < commands.len() < CROSS_DOMAIN_HEADER_SIZE ==> ctx.submit_result(commands) == Err::<
            CommandActionView,
            RutabagaError,
        >(RutabagaError::InvalidCommandBuffer) && ctx.after_submit(commands) == ctx,
        spec_parse_command(commands) is Err ==> ctx.after_submit(commands) == ctx && (
        commands.len() > 0 ==> ctx.submit_result(commands) is Err && ctx.submit_result(
            commands,
        )->Err_0 == spec_parse_command(commands)->Err_0),
        spec_parse_command(commands) == Ok::<CrossDomainCommand, RutabagaError>(
            CrossDomainCommand::Poll,
        ) ==> ctx.submit_result(commands) == Ok::<CommandActionView, RutabagaError>(
            CommandActionView::Poll,
        ) && ctx.after_submit(commands) == ctx,
        spec_next_commands(commands) is Ok ==> spec_next_commands(commands)->Ok_0.len()
            < commands.len(),
{
}

} // verus!
