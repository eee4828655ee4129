//! The worker: what happens when the wait set reports an event.
//!
//! The worker takes jobs from the queue in order. For a fence it waits on
//! the wait set once and serves the first event: one event for one fence,
//! so that the guest sees every ring update under a fence of its own. The
//! waiting, reading and signaling are the caller's; what they mean for the
//! tables, the ring and the fence is decided here.

use crate::context_common::ContextResources;
use crate::cross_domain::context::CrossDomainContext;
use crate::cross_domain::context::CrossDomainContextView;
use crate::cross_domain::context::CrossDomainJob;
use crate::cross_domain::cross_domain_protocol::CrossDomainFutexSignal;
use crate::cross_domain::cross_domain_protocol::CrossDomainHeader;
use crate::cross_domain::context::CrossDomainStateView;
use crate::cross_domain::cross_domain_protocol::CrossDomainReadWrite;
use crate::cross_domain::cross_domain_protocol::CrossDomainSendReceive;
use crate::cross_domain::cross_domain_protocol::CROSS_DOMAIN_CMD_RECEIVE;
use crate::cross_domain::cross_domain_protocol::CROSS_DOMAIN_ID_TYPE_VIRTGPU_BLOB;
use crate::cross_domain::cross_domain_protocol::CROSS_DOMAIN_ID_TYPE_WRITE_PIPE;
use crate::cross_domain::cross_domain_protocol::CROSS_DOMAIN_MAX_IDENTIFIERS;
use crate::handle::MesaHandle;
use crate::cross_domain::cross_domain_protocol::CROSS_DOMAIN_CMD_FUTEX_SIGNAL;
use crate::cross_domain::cross_domain_protocol::CROSS_DOMAIN_CMD_READ;
use crate::cross_domain::cross_domain_protocol::CROSS_DOMAIN_FUTEX_START;
use crate::cross_domain::cross_domain_protocol::CROSS_DOMAIN_PIPE_READ_START;
use crate::cross_domain::cross_domain_protocol::CROSS_DOMAIN_READ_WRITE_SIZE;
use crate::cross_domain::items::CrossDomainItem;
use crate::cross_domain::items::CrossDomainItems;
use crate::cross_domain::items::CrossDomainItemsView;
use crate::cross_domain::ring::pipe_read_capacity;
use crate::cross_domain::ring::spec_ring_iovec;
use crate::cross_domain::ring::spec_bytes_read;
use crate::cross_domain::ring::spec_ring_pipe_record;
use crate::cross_domain::ring::spec_ring_record;
use crate::cross_domain::ring::write_to_ring;
use crate::cross_domain::ring::RingUpdate;
use crate::cross_domain::ring::RingUpdateView;
use crate::cross_domain::ring::RingWrite;
use crate::rutabaga_utils::MesaError;
use crate::rutabaga_utils::RawDescriptor;
use crate::rutabaga_utils::RutabagaError;
use crate::rutabaga_utils::RutabagaFence;
use crate::rutabaga_utils::RutabagaResult;
use vstd::prelude::*;

verus! {

/// The wait set's name for the connection to the host server.
pub const CROSS_DOMAIN_CONTEXT_CHANNEL_ID: u64 = 1;
/// The wait set's name for the resample event.
pub const CROSS_DOMAIN_RESAMPLE_ID: u64 = 2;
/// The wait set's name for the kill event.
pub const CROSS_DOMAIN_KILL_ID: u64 = 3;

/// The size of the buffer that messages are received into.
pub const CROSS_DOMAIN_DEFAULT_BUFFER_SIZE: usize = 4096;
/// The longest payload that is received at once: a buffer less the record
/// that precedes the payload in the ring.
pub const CROSS_DOMAIN_MAX_SEND_RECV_SIZE: usize = 4032;

/// What the wait set reports.
#[derive(Clone, Copy, Debug, PartialEq, Eq, Structural)]
pub struct WaitEvent {
    pub connection_id: u64,
    pub hung_up: bool,
    pub readable: bool,
}

/// Where an event comes from, told by its name in the wait set alone.
#[derive(Clone, Copy, Debug, PartialEq, Eq, Structural)]
pub enum EventSource {
    /// The connection to the host server.
    Channel,
    /// The resample event.
    Resample,
    /// The kill event.
    Kill,
    /// The event of the futex with this identifier.
    Futex(u32),
    /// The item with this identifier, which should be a read pipe.
    Item(u32),
    /// A name too large to be an identifier.
    Unknown,
}

/// How many futexes can have a name in the wait set: the names lie from
/// `CROSS_DOMAIN_FUTEX_START` up to, and not including,
/// `CROSS_DOMAIN_PIPE_READ_START`.
pub const CROSS_DOMAIN_FUTEX_COUNT: u32 = 0x4000_0000;

/// The name under which the event of the futex with this identifier is
/// watched: the identifier counted from `CROSS_DOMAIN_FUTEX_START` on.
/// Identifiers from `CROSS_DOMAIN_FUTEX_COUNT` on have no name.
pub open spec fn spec_futex_name(id: u32) -> Option<u64> {
    if id < CROSS_DOMAIN_FUTEX_COUNT {
        Some((CROSS_DOMAIN_FUTEX_START + id) as u64)
    } else {
        None
    }
}

/// The name under which the event of the futex with this identifier is
/// watched, if it has one.
pub fn futex_name(id: u32) -> (name: Option<u64>)
    ensures
        name == spec_futex_name(id),
{
    if id < CROSS_DOMAIN_FUTEX_COUNT {
        Some(CROSS_DOMAIN_FUTEX_START as u64 + id as u64)
    } else {
        None
    }
}

/// Where an event with this name comes from. A name in the futex range is
/// that of the futex whose identifier is as far from the start of the
/// range.
pub open spec fn spec_classify_event(connection_id: u64) -> EventSource {
    if connection_id == CROSS_DOMAIN_CONTEXT_CHANNEL_ID {
        EventSource::Channel
    } else if connection_id == CROSS_DOMAIN_RESAMPLE_ID {
        EventSource::Resample
    } else if connection_id == CROSS_DOMAIN_KILL_ID {
        EventSource::Kill
    } else if CROSS_DOMAIN_FUTEX_START <= connection_id < CROSS_DOMAIN_PIPE_READ_START {
        EventSource::Futex((connection_id - CROSS_DOMAIN_FUTEX_START) as u32)
    } else if connection_id <= u32::MAX {
        EventSource::Item(connection_id as u32)
    } else {
        EventSource::Unknown
    }
}

/// Tells where an event comes from.
pub fn classify_event(connection_id: u64) -> (source: EventSource)
    ensures
        source == spec_classify_event(connection_id),
{
    if connection_id == CROSS_DOMAIN_CONTEXT_CHANNEL_ID {
        EventSource::Channel
    } else if connection_id == CROSS_DOMAIN_RESAMPLE_ID {
        EventSource::Resample
    } else if connection_id == CROSS_DOMAIN_KILL_ID {
        EventSource::Kill
    } else if connection_id >= CROSS_DOMAIN_FUTEX_START as u64 && connection_id
        < CROSS_DOMAIN_PIPE_READ_START as u64 {
        EventSource::Futex((connection_id - CROSS_DOMAIN_FUTEX_START as u64) as u32)
    } else if connection_id <= u32::MAX as u64 {
        EventSource::Item(connection_id as u32)
    } else {
        EventSource::Unknown
    }
}

/// The names under which the worker watches read pipes, futexes and its
/// three fixed sources never meet. Every futex that has a name is told
/// apart by it: the name is read as that futex, it is none of the three
/// fixed names, and no item of a well-formed table sits under it. Every
/// read pipe of a well-formed table is told to be an item, and is none of
/// the three fixed names either.
pub proof fn lemma_event_names_disjoint(items: CrossDomainItemsView, id: u32)
    requires
        items.wf(),
    ensures
        spec_futex_name(id) is Some ==> {
            let name = spec_futex_name(id).unwrap();
            &&& spec_classify_event(name) == EventSource::Futex(id)
            &&& name != CROSS_DOMAIN_CONTEXT_CHANNEL_ID
            &&& name != CROSS_DOMAIN_RESAMPLE_ID
            &&& name != CROSS_DOMAIN_KILL_ID
            &&& !items.table.contains_key(name as u32)
        },
        items.table.contains_key(id) && items.table[id].spec_is_read_pipe() ==> {
            &&& spec_classify_event(id as u64) == EventSource::Item(id)
            &&& forall|futex_id: u32| spec_futex_name(futex_id) != Some(id as u64)
        },
        CROSS_DOMAIN_KILL_ID < CROSS_DOMAIN_FUTEX_START,
        CROSS_DOMAIN_FUTEX_START + CROSS_DOMAIN_FUTEX_COUNT == CROSS_DOMAIN_PIPE_READ_START,
{
    if spec_futex_name(id) is Some {
        let name = spec_futex_name(id).unwrap();
        if items.table.contains_key(name as u32) {
            assert(false);
        }
    }
}

/// Something that the worker watches besides its three fixed sources.
#[derive(Clone, Copy, Debug, PartialEq, Eq, Structural)]
pub enum WaitSetEntry {
    /// The event of the futex with this identifier.
    Futex(u32, RawDescriptor),
    /// The read pipe with this identifier.
    ReadPipe(u32),
}

/// What serving an event asks of the caller. The steps that are present
/// are done in the order of the fields; if one fails, the worker ends with
/// its error and the rest is not done.
#[derive(Debug, PartialEq, Eq)]
pub struct FenceOutcome {
    /// Wait on this event, which is signaled, to reset it.
    pub drain: Option<RawDescriptor>,
    /// Put this into the ring.
    pub ring_update: Option<RingUpdate>,
    /// Take this out of the wait set. The item or futex behind it has left
    /// its table.
    pub deregister: Option<WaitSetEntry>,
    /// Signal this fence.
    pub signal: Option<RutabagaFence>,
    /// Whether the fence has gone back into the queue, to be served by
    /// the next event. A fence that has gone back is in the queue: it is
    /// the last job there.
    pub requeued: bool,
}

/// A [`FenceOutcome`] as plain values.
pub struct FenceOutcomeView {
    pub drain: Option<RawDescriptor>,
    pub deregister: Option<WaitSetEntry>,
    pub ring_update: Option<RingUpdateView>,
    pub signal: Option<RutabagaFence>,
    pub requeued: bool,
}

impl View for FenceOutcome {
    type V = FenceOutcomeView;

    open spec fn view(&self) -> FenceOutcomeView {
        FenceOutcomeView {
            drain: self.drain,
            deregister: self.deregister,
            ring_update: match self.ring_update {
                Some(update) => Some(update@),
                None => None,
            },
            signal: self.signal,
            requeued: self.requeued,
        }
    }
}

impl FenceOutcomeView {
    /// Nothing to do.
    pub open spec fn nothing() -> FenceOutcomeView {
        FenceOutcomeView {
            drain: None,
            deregister: None,
            ring_update: None,
            signal: None,
            requeued: false,
        }
    }

    /// One event, one fence: the fence is either signaled or put back, never
    /// both; there is at most one ring update, and none without the signal
    /// that makes it visible.
    pub open spec fn one_fence(self, fence: RutabagaFence) -> bool {
        &&& (self.signal == Some(fence)) != self.requeued
        &&& self.signal is Some ==> self.signal == Some(fence)
        &&& self.ring_update is Some ==> self.signal == Some(fence)
    }
}

/// The first step of serving an event.
#[derive(Debug, PartialEq, Eq)]
pub enum FenceStep {
    /// The event has been served as far as the tables go; the outcome says
    /// what is left to do.
    Done(FenceOutcome),
    /// Receive one message from this connection, with a payload of up to
    /// `CROSS_DOMAIN_MAX_SEND_RECV_SIZE` bytes, tell what kind each of its
    /// descriptors is, and report with `channel_received`.
    Receive(RawDescriptor),
    /// If `readable`, read up to `capacity` bytes from the read pipe with
    /// this identifier; then report with `pipe_read`.
    ReadPipe { pipe_id: u32, capacity: usize, readable: bool, hung_up: bool },
}

/// A [`FenceStep`] as plain values.
pub enum FenceStepView {
    Done(FenceOutcomeView),
    Receive(RawDescriptor),
    ReadPipe { pipe_id: u32, capacity: usize, readable: bool, hung_up: bool },
}

impl View for FenceStep {
    type V = FenceStepView;

    open spec fn view(&self) -> FenceStepView {
        match self {
            FenceStep::Done(outcome) => FenceStepView::Done(outcome@),
            FenceStep::Receive(connection) => FenceStepView::Receive(*connection),
            FenceStep::ReadPipe { pipe_id, capacity, readable, hung_up } => FenceStepView::ReadPipe {
                pipe_id: *pipe_id,
                capacity: *capacity,
                readable: *readable,
                hung_up: *hung_up,
            },
        }
    }
}

/// The result of a first step, as plain values.
pub open spec fn spec_step_view(r: RutabagaResult<FenceStep>) -> Result<
    FenceStepView,
    RutabagaError,
> {
    match r {
        Ok(step) => Ok(step@),
        Err(e) => Err(e),
    }
}

/// The result of serving an event, as plain values.
pub open spec fn spec_outcome_view(r: RutabagaResult<FenceOutcome>) -> Result<
    FenceOutcomeView,
    RutabagaError,
> {
    match r {
        Ok(outcome) => Ok(outcome@),
        Err(e) => Err(e),
    }
}

/// The notice that the futex with this identifier was woken.
pub open spec fn spec_futex_signal_record(id: u32) -> CrossDomainFutexSignal {
    CrossDomainFutexSignal {
        hdr: CrossDomainHeader { cmd: CROSS_DOMAIN_CMD_FUTEX_SIGNAL, cmd_size: 0 },
        id,
    }
}

/// Whether a pipe has come to its end: it has hung up, and nothing was left
/// to read.
pub open spec fn spec_pipe_ended(hung_up: bool, data: Option<Seq<u8>>) -> bool {
    hung_up && spec_bytes_read(data) == 0
}

/// The READ record for the pipe with this identifier, before the size of
/// what was read is filled in. The record marks the hang-up exactly if the
/// pipe has come to its end.
pub open spec fn spec_read_record_start(pipe_id: u32, hung_up: bool, data: Option<Seq<u8>>)
    -> CrossDomainReadWrite {
    CrossDomainReadWrite {
        hdr: CrossDomainHeader { cmd: CROSS_DOMAIN_CMD_READ, cmd_size: 0 },
        identifier: pipe_id,
        hang_up: if spec_pipe_ended(hung_up, data) {
            1
        } else {
            0
        },
        opaque_data_size: 0,
    }
}

impl CrossDomainContextView {
    /// The error that keeps an event of the item with this identifier from
    /// being served, if one does: no item is `InvalidCrossDomainItemId`, an
    /// item that is no read pipe `InvalidCrossDomainItemType`, a context
    /// that is not initialized `InvalidCrossDomainState`.
    pub open spec fn read_pipe_error(self, pipe_id: u32) -> Option<RutabagaError> {
        if !self.items.table.contains_key(pipe_id) {
            Some(RutabagaError::InvalidCrossDomainItemId)
        } else if !self.items.table[pipe_id].spec_is_read_pipe() {
            Some(RutabagaError::InvalidCrossDomainItemType)
        } else if self.state is None {
            Some(RutabagaError::InvalidCrossDomainState)
        } else {
            None
        }
    }

    /// What the first step of serving an event comes to.
    pub open spec fn fence_step_result(self, fence: RutabagaFence, event: Option<WaitEvent>)
        -> Result<FenceStepView, RutabagaError> {
        match event {
            None => Ok(FenceStepView::Done(FenceOutcomeView::nothing())),
            Some(event) => match spec_classify_event(event.connection_id) {
                EventSource::Channel => match self.state {
                    None => Err(RutabagaError::InvalidCrossDomainState),
                    Some(state) => match state.connection {
                        None => Err(RutabagaError::InvalidCrossDomainChannel),
                        Some(connection) => Ok(FenceStepView::Receive(connection)),
                    },
                },
                EventSource::Resample => if self.state is None {
                    Err(RutabagaError::InvalidCrossDomainState)
                } else {
                    Ok(
                        FenceStepView::Done(
                            FenceOutcomeView {
                                drain: self.resample_evt,
                                requeued: true,
                                ..FenceOutcomeView::nothing()
                            },
                        ),
                    )
                },
                EventSource::Kill => Ok(
                    FenceStepView::Done(
                        FenceOutcomeView { signal: Some(fence), ..FenceOutcomeView::nothing() },
                    ),
                ),
                EventSource::Futex(id) => if self.state is None {
                    Err(RutabagaError::InvalidCrossDomainState)
                } else if !self.futexes.contains_key(id) {
                    Ok(
                        FenceStepView::Done(
                            FenceOutcomeView { requeued: true, ..FenceOutcomeView::nothing() },
                        ),
                    )
                } else if self.futexes[id].shutdown {
                    Ok(
                        FenceStepView::Done(
                            FenceOutcomeView {
                                deregister: Some(WaitSetEntry::Futex(id, self.futexes[id].evt)),
                                requeued: true,
                                ..FenceOutcomeView::nothing()
                            },
                        ),
                    )
                } else {
                    match spec_ring_record(
                        self.context_resources,
                        self.state.unwrap().channel_ring_id,
                        spec_futex_signal_record(id).spec_encode(),
                        None,
                    ) {
                        Err(e) => Err(e),
                        Ok(update) => Ok(
                            FenceStepView::Done(
                                FenceOutcomeView {
                                    drain: Some(self.futexes[id].evt),
                                    ring_update: Some(update),
                                    signal: Some(fence),
                                    ..FenceOutcomeView::nothing()
                                },
                            ),
                        ),
                    }
                },
                EventSource::Item(pipe_id) => match self.read_pipe_error(pipe_id) {
                    Some(e) => Err(e),
                    None => match spec_ring_iovec(
                        self.context_resources,
                        self.state.unwrap().channel_ring_id,
                    ) {
                        Err(e) => Err(e),
                        Ok(iovec) => if iovec.len < CROSS_DOMAIN_READ_WRITE_SIZE {
                            Err(RutabagaError::InvalidIovec)
                        } else {
                            Ok(
                                FenceStepView::ReadPipe {
                                    pipe_id,
                                    capacity: (iovec.len - CROSS_DOMAIN_READ_WRITE_SIZE) as usize,
                                    readable: event.readable,
                                    hung_up: event.hung_up,
                                },
                            )
                        },
                    },
                },
                EventSource::Unknown => Err(RutabagaError::MesaError(MesaError::TryFromIntError)),
            },
        }
    }

    /// Where the first step of serving an event leaves the context: the
    /// resample event and a futex that is gone or shut down put the fence
    /// back into the queue; a futex that is shut down leaves the table.
    pub open spec fn after_fence_step(self, fence: RutabagaFence, event: Option<WaitEvent>)
        -> CrossDomainContextView {
        match event {
            None => self,
            Some(event) => match spec_classify_event(event.connection_id) {
                EventSource::Resample => self.with_job(CrossDomainJob::HandleFence(fence)),
                EventSource::Futex(id) => if self.state is None {
                    self
                } else if !self.futexes.contains_key(id) {
                    self.with_job(CrossDomainJob::HandleFence(fence))
                } else if self.futexes[id].shutdown {
                    CrossDomainContextView {
                        futexes: self.futexes.remove(id),
                        ..self.with_job(CrossDomainJob::HandleFence(fence))
                    }
                } else {
                    self
                },
                _ => self,
            },
        }
    }

    /// What serving a read pipe comes to once the caller has read from it:
    /// a READ record with what was read goes to the channel ring, and the
    /// fence is signaled. A pipe that has hung up with nothing left to read
    /// has come to its end: the record marks the hang-up, and the pipe
    /// leaves the wait set.
    pub open spec fn pipe_read_result(
        self,
        fence: RutabagaFence,
        pipe_id: u32,
        hung_up: bool,
        data: Option<Seq<u8>>,
    ) -> Result<FenceOutcomeView, RutabagaError> {
        match self.read_pipe_error(pipe_id) {
            Some(e) => Err(e),
            None => match spec_ring_pipe_record(
                self.context_resources,
                self.state.unwrap().channel_ring_id,
                spec_read_record_start(pipe_id, hung_up, data),
                data,
            ) {
                Err(e) => Err(e),
                Ok(update) => Ok(
                    FenceOutcomeView {
                        deregister: if spec_pipe_ended(hung_up, data) {
                            Some(WaitSetEntry::ReadPipe(pipe_id))
                        } else {
                            None
                        },
                        ring_update: Some(update),
                        signal: Some(fence),
                        ..FenceOutcomeView::nothing()
                    },
                ),
            },
        }
    }

    /// Where serving a read pipe leaves the context: a pipe that has hung
    /// up with nothing left to read leaves the table.
    pub open spec fn after_pipe_read(
        self,
        fence: RutabagaFence,
        pipe_id: u32,
        hung_up: bool,
        data: Option<Seq<u8>>,
    ) -> CrossDomainContextView {
        match self.pipe_read_result(fence, pipe_id, hung_up, data) {
            Ok(outcome) => if outcome.deregister is Some {
                self.without_item(pipe_id)
            } else {
                self
            },
            Err(_) => self,
        }
    }
}

impl CrossDomainContext {
    /// Serves the first event that the wait set reported for `fence`, as
    /// far as that can be done without reading anything.
    ///
    /// No event means nothing to do. The kill event signals the fence. The
    /// resample event puts the fence back, so that it is served by what
    /// the wait set reports next. A futex that was woken is announced in
    /// the channel ring; one that has been shut down leaves its table and
    /// the wait set, and the fence goes back. The connection and a read pipe
    /// have to be read first.
    pub fn handle_fence(&mut self, fence: RutabagaFence, event: Option<WaitEvent>) -> (r:
        RutabagaResult<FenceStep>)
        ensures
            final(self)@ == old(self)@.after_fence_step(fence, event),
            spec_step_view(r) == old(self)@.fence_step_result(fence, event),
            r is Ok && r.unwrap() is Done && event is Some ==> r.unwrap()->Done_0@.one_fence(fence),
            r is Ok && r.unwrap() is Done && r.unwrap()->Done_0.requeued ==> old(
                self,
            )@.after_fence_step(fence, event).last_job() == Some(
                CrossDomainJob::HandleFence(fence),
            ),
    {
        broadcast use vstd::std_specs::btree::group_btree_axioms;

        let event = match event {
            Some(event) => event,
            None => {
                return Ok(
                    FenceStep::Done(
                        FenceOutcome {
                            drain: None,
                            deregister: None,
                            ring_update: None,
                            signal: None,
                            requeued: false,
                        },
                    ),
                );
            },
        };
        match classify_event(event.connection_id) {
            EventSource::Channel => match &self.state {
                None => Err(RutabagaError::InvalidCrossDomainState),
                Some(state) => {
                    let connection = state.receive_msg()?;
                    Ok(FenceStep::Receive(connection))
                },
            },
            EventSource::Resample => {
                // Fence handling is tied to some new data transfer across
                // a pollable descriptor. While new descriptors are being
                // added, polling stops.
                if self.state.is_none() {
                    return Err(RutabagaError::InvalidCrossDomainState);
                }
                self.add_job(CrossDomainJob::HandleFence(fence));
                Ok(
                    FenceStep::Done(
                        FenceOutcome {
                            drain: self.resample_evt,
                            deregister: None,
                            ring_update: None,
                            signal: None,
                            requeued: true,
                        },
                    ),
                )
            },
            EventSource::Kill => Ok(
                FenceStep::Done(
                    FenceOutcome {
                        drain: None,
                        deregister: None,
                        ring_update: None,
                        signal: Some(fence),
                        requeued: false,
                    },
                ),
            ),
            EventSource::Futex(futex_id) => {
                let channel_ring_id = match &self.state {
                    Some(state) => state.channel_ring_id,
                    None => {
                        return Err(RutabagaError::InvalidCrossDomainState);
                    },
                };
                let ftx = match self.futexes.get(&futex_id) {
                    Some(ftx) => *ftx,
                    None => {
                        self.add_job(CrossDomainJob::HandleFence(fence));
                        return Ok(
                            FenceStep::Done(
                                FenceOutcome {
                                    drain: None,
                                    deregister: None,
                                    ring_update: None,
                                    signal: None,
                                    requeued: true,
                                },
                            ),
                        );
                    },
                };
                if ftx.shutdown {
                    self.add_job(CrossDomainJob::HandleFence(fence));
                    self.futexes.remove(&futex_id);
                    Ok(
                        FenceStep::Done(
                            FenceOutcome {
                                drain: None,
                                deregister: Some(WaitSetEntry::Futex(futex_id, ftx.evt)),
                                ring_update: None,
                                signal: None,
                                requeued: true,
                            },
                        ),
                    )
                } else {
                    let cmd_ftx = CrossDomainFutexSignal {
                        hdr: CrossDomainHeader { cmd: CROSS_DOMAIN_CMD_FUTEX_SIGNAL, cmd_size: 0 },
                        id: futex_id,
                    };
                    let record = cmd_ftx.encode();
                    let (update, _) = write_to_ring(
                        &self.context_resources,
                        RingWrite::Write(record.as_slice(), None),
                        channel_ring_id,
                    )?;
                    Ok(
                        FenceStep::Done(
                            FenceOutcome {
                                drain: Some(ftx.evt),
                                deregister: None,
                                ring_update: Some(update),
                                signal: Some(fence),
                                requeued: false,
                            },
                        ),
                    )
                }
            },
            EventSource::Item(pipe_id) => {
                let channel_ring_id = self.read_pipe_ring(pipe_id)?;
                let capacity = pipe_read_capacity(&self.context_resources, channel_ring_id)?;
                Ok(
                    FenceStep::ReadPipe {
                        pipe_id,
                        capacity,
                        readable: event.readable,
                        hung_up: event.hung_up,
                    },
                )
            },
            EventSource::Unknown => Err(RutabagaError::MesaError(MesaError::TryFromIntError)),
        }
    }

    /// The ring that what is read from the pipe with this identifier goes
    /// to, if there is such a pipe.
    pub fn read_pipe_ring(&self, pipe_id: u32) -> (r: RutabagaResult<u32>)
        ensures
            r == match self@.read_pipe_error(pipe_id) {
                Some(e) => Err::<u32, RutabagaError>(e),
                None => Ok::<u32, RutabagaError>(self@.state.unwrap().channel_ring_id),
            },
    {
        broadcast use vstd::std_specs::btree::group_btree_axioms;

        match self.item_state.get(pipe_id) {
            None => Err(RutabagaError::InvalidCrossDomainItemId),
            Some(item) => {
                if !item.is_read_pipe() {
                    return Err(RutabagaError::InvalidCrossDomainItemType);
                }
                match &self.state {
                    Some(state) => Ok(state.channel_ring_id),
                    None => Err(RutabagaError::InvalidCrossDomainState),
                }
            },
        }
    }

    /// Serves a read pipe, second step: `data` is what the caller has read
    /// from the pipe, or `None` if the pipe was not readable and nothing
    /// was read.
    pub fn pipe_read(
        &mut self,
        fence: RutabagaFence,
        pipe_id: u32,
        hung_up: bool,
        data: Option<&[u8]>,
    ) -> (r: RutabagaResult<FenceOutcome>)
        ensures
            final(self)@ == old(self)@.after_pipe_read(
                fence,
                pipe_id,
                hung_up,
                match data {
                    None => None,
                    Some(bytes) => Some(bytes@),
                },
            ),
            spec_outcome_view(r) == old(self)@.pipe_read_result(
                fence,
                pipe_id,
                hung_up,
                match data {
                    None => None,
                    Some(bytes) => Some(bytes@),
                },
            ),
            r is Ok ==> r.unwrap()@.one_fence(fence) && r.unwrap().ring_update is Some,
    {
        broadcast use vstd::std_specs::btree::group_btree_axioms;

        let channel_ring_id = self.read_pipe_ring(pipe_id)?;
        // Zero bytes read indicates end-of-file on POSIX.
        let ended = hung_up && match data {
            Some(bytes) => bytes.len() == 0,
            None => true,
        };
        let cmd_read = CrossDomainReadWrite {
            hdr: CrossDomainHeader { cmd: CROSS_DOMAIN_CMD_READ, cmd_size: 0 },
            identifier: pipe_id,
            hang_up: if ended {
                1
            } else {
                0
            },
            opaque_data_size: 0,
        };
        let (update, bytes_read) = write_to_ring(
            &self.context_resources,
            RingWrite::WriteFromPipe(cmd_read, data),
            channel_ring_id,
        )?;

        let mut deregister: Option<WaitSetEntry> = None;
        if ended {
            self.item_state.remove(pipe_id);
            deregister = Some(WaitSetEntry::ReadPipe(pipe_id));
        }
        Ok(
            FenceOutcome {
                drain: None,
                deregister,
                ring_update: Some(update),
                signal: Some(fence),
                requeued: false,
            },
        )
    }
}

/// What a descriptor that came with a message turns out to be.
#[derive(Clone, Copy, Debug, PartialEq, Eq, Structural)]
pub enum DescriptorType {
    /// Neither of the others.
    Unknown,
    /// Memory that can be sought in, of this size in bytes, with this
    /// handle type.
    Memory(u32, u32),
    /// The end of a pipe that can be written to.
    WritePipe,
}

/// A descriptor that came with a message, and what the caller found it to
/// be, or why it could not tell.
#[derive(Clone, Copy, Debug, PartialEq, Eq)]
pub struct ReceivedDescriptor {
    pub descriptor: RawDescriptor,
    pub descriptor_type: RutabagaResult<DescriptorType>,
}

/// How far the walk over the descriptors of a message has come.
pub struct ReceiveWalk {
    pub items: CrossDomainItemsView,
    pub identifiers: Seq<u32>,
    pub identifier_types: Seq<u32>,
    pub identifier_sizes: Seq<u32>,
    /// How many descriptors have become items.
    pub installed: nat,
    /// The error that stopped the walk, if one did.
    pub error: Option<RutabagaError>,
}

/// The item that a received descriptor becomes, if it becomes one.
pub open spec fn spec_received_item(file: ReceivedDescriptor) -> Result<
    CrossDomainItem,
    RutabagaError,
> {
    match file.descriptor_type {
        Err(e) => Err(e),
        Ok(DescriptorType::Memory(size, handle_type)) => if size == 0 {
            Err(RutabagaError::InvalidCrossDomainItemType)
        } else {
            Ok(CrossDomainItem::Blob(MesaHandle { os_handle: file.descriptor, handle_type }))
        },
        Ok(DescriptorType::WritePipe) => Ok(CrossDomainItem::WaylandWritePipe(file.descriptor)),
        Ok(DescriptorType::Unknown) => Err(RutabagaError::InvalidCrossDomainItemType),
    }
}

/// What the RECEIVE record says of a received descriptor: its identifier
/// type and its size.
pub open spec fn spec_received_entry(descriptor_type: DescriptorType) -> (u32, u32) {
    match descriptor_type {
        DescriptorType::Memory(size, _) => (CROSS_DOMAIN_ID_TYPE_VIRTGPU_BLOB, size),
        _ => (CROSS_DOMAIN_ID_TYPE_WRITE_PIPE, 0),
    }
}

/// One descriptor further: memory that is not empty becomes a blob item
/// and a pipe for writing a pipe item, each under a new identifier; empty
/// memory and a descriptor of unknown kind are
/// `InvalidCrossDomainItemType`, and a descriptor whose kind could not be
/// told passes that error on.
pub open spec fn spec_receive_step(walk: ReceiveWalk, i: int, file: ReceivedDescriptor)
    -> ReceiveWalk {
    if walk.error is Some {
        walk
    } else {
        match spec_received_item(file) {
            Err(e) => ReceiveWalk { error: Some(e), ..walk },
            Ok(item) => if walk.items.exhausted(item) {
                ReceiveWalk { error: Some(RutabagaError::InvalidCrossDomainItemId), ..walk }
            } else {
                let entry = spec_received_entry(file.descriptor_type.unwrap());
                ReceiveWalk {
                    items: walk.items.with_item(item),
                    identifiers: walk.identifiers.update(i, walk.items.next_id(item)),
                    identifier_types: walk.identifier_types.update(i, entry.0),
                    identifier_sizes: walk.identifier_sizes.update(i, entry.1),
                    installed: walk.installed + 1,
                    error: None,
                }
            },
        }
    }
}

/// The walk from descriptor `i` to descriptor `n`.
#[verifier::opaque]
pub open spec fn spec_receive_walk(files: Seq<ReceivedDescriptor>, walk: ReceiveWalk, i: int, n: int)
    -> ReceiveWalk
    decreases n - i,
{
    if i >= n || i < 0 || i >= files.len() {
        walk
    } else {
        spec_receive_walk(files, spec_receive_step(walk, i, files[i]), i + 1, n)
    }
}

/// A walk that has met its error stays as it is.
pub proof fn lemma_receive_walk_stops(
    files: Seq<ReceivedDescriptor>,
    walk: ReceiveWalk,
    i: int,
    n: int,
)
    requires
        walk.error is Some,
    ensures
        spec_receive_walk(files, walk, i, n) == walk,
    decreases n - i,
{
    reveal_with_fuel(spec_receive_walk, 2);
    if i >= n || i < 0 || i >= files.len() {
    } else {
        lemma_receive_walk_stops(files, walk, i + 1, n);
    }
}

/// How many of the descriptors of a message are looked at: as many as a
/// record has room for.
pub open spec fn spec_received_count(files: Seq<ReceivedDescriptor>) -> int {
    if files.len() < CROSS_DOMAIN_MAX_IDENTIFIERS {
        files.len() as int
    } else {
        CROSS_DOMAIN_MAX_IDENTIFIERS as int
    }
}

/// The walk before the first descriptor.
pub open spec fn spec_receive_start(items: CrossDomainItemsView) -> ReceiveWalk {
    ReceiveWalk {
        items,
        identifiers: seq![0u32, 0u32, 0u32, 0u32],
        identifier_types: seq![0u32, 0u32, 0u32, 0u32],
        identifier_sizes: seq![0u32, 0u32, 0u32, 0u32],
        installed: 0,
        error: None,
    }
}

/// The walk over the descriptors of a message, from a table as given.
pub open spec fn spec_receive_all(items: CrossDomainItemsView, files: Seq<ReceivedDescriptor>)
    -> ReceiveWalk {
    spec_receive_walk(files, spec_receive_start(items), 0, spec_received_count(files))
}

/// What a received message leaves with the caller.
#[derive(Debug, PartialEq, Eq)]
pub struct ChannelReceipt {
    /// How many of the descriptors, from the first on, have become items.
    /// The others are the caller's to close.
    pub installed: usize,
    /// What is left to do, or the error that ends the worker.
    pub result: RutabagaResult<FenceOutcome>,
}

impl CrossDomainContextView {
    /// The error that stops a received message before its descriptors are
    /// looked at, if one does: a count or a length that a record cannot say
    /// is `InvalidCommandSize`.
    pub open spec fn receive_error(self, payload: Seq<u8>, files: Seq<ReceivedDescriptor>)
        -> Option<RutabagaError> {
        if files.len() > u32::MAX {
            Some(RutabagaError::InvalidCommandSize(files.len() as usize))
        } else if payload.len() > u32::MAX {
            Some(RutabagaError::InvalidCommandSize(payload.len() as usize))
        } else if self.state is None {
            Some(RutabagaError::InvalidCrossDomainState)
        } else {
            None
        }
    }

    /// The walk over the descriptors of a received message.
    pub open spec fn receive_walk(self, files: Seq<ReceivedDescriptor>) -> ReceiveWalk {
        spec_receive_all(self.items, files)
    }

    /// The RECEIVE record for a message.
    pub open spec fn receive_record(self, payload: Seq<u8>, files: Seq<ReceivedDescriptor>)
        -> CrossDomainSendReceive {
        let walk = self.receive_walk(files);
        CrossDomainSendReceive {
            hdr: CrossDomainHeader { cmd: CROSS_DOMAIN_CMD_RECEIVE, cmd_size: 0 },
            num_identifiers: files.len() as u32,
            opaque_data_size: payload.len() as u32,
            identifiers: [
                walk.identifiers[0],
                walk.identifiers[1],
                walk.identifiers[2],
                walk.identifiers[3],
            ],
            identifier_types: [
                walk.identifier_types[0],
                walk.identifier_types[1],
                walk.identifier_types[2],
                walk.identifier_types[3],
            ],
            identifier_sizes: [
                walk.identifier_sizes[0],
                walk.identifier_sizes[1],
                walk.identifier_sizes[2],
                walk.identifier_sizes[3],
            ],
        }
    }

    /// How many descriptors of a received message become items.
    pub open spec fn received_installed(self, payload: Seq<u8>, files: Seq<ReceivedDescriptor>)
        -> nat {
        if self.receive_error(payload, files) is Some {
            0
        } else {
            self.receive_walk(files).installed
        }
    }

    /// What a received message comes to: the RECEIVE record and the payload
    /// go to the channel ring, and the fence is signaled.
    pub open spec fn channel_received_result(
        self,
        fence: RutabagaFence,
        payload: Seq<u8>,
        files: Seq<ReceivedDescriptor>,
    ) -> Result<FenceOutcomeView, RutabagaError> {
        match self.receive_error(payload, files) {
            Some(e) => Err(e),
            None => {
                let walk = self.receive_walk(files);
                if walk.error is Some {
                    Err(walk.error.unwrap())
                } else {
                    match spec_ring_record(
                        self.context_resources,
                        self.state.unwrap().channel_ring_id,
                        self.receive_record(payload, files).spec_encode(),
                        Some(payload),
                    ) {
                        Err(e) => Err(e),
                        Ok(update) => Ok(
                            FenceOutcomeView {
                                ring_update: Some(update),
                                signal: Some(fence),
                                ..FenceOutcomeView::nothing()
                            },
                        ),
                    }
                }
            },
        }
    }

    /// Where a received message leaves the context: with the items that
    /// the walk has made, also when the message then comes to an error.
    pub open spec fn after_channel_received(
        self,
        payload: Seq<u8>,
        files: Seq<ReceivedDescriptor>,
    ) -> CrossDomainContextView {
        if self.receive_error(payload, files) is Some {
            self
        } else {
            CrossDomainContextView { items: self.receive_walk(files).items, ..self }
        }
    }

    /// What a job asks of the worker. A job to watch a read pipe needs the
    /// pipe to be in the table, and has it watched under its identifier. A
    /// job to watch a futex has its event watched under the futex's name,
    /// and needs the futex to have one.
    pub open spec fn job_result(self, job: CrossDomainJob) -> Result<WorkerAction, RutabagaError> {
        match job {
            CrossDomainJob::HandleFence(fence) => Ok(WorkerAction::Wait(fence)),
            CrossDomainJob::AddReadPipe(read_pipe_id) => if !self.items.table.contains_key(
                read_pipe_id,
            ) {
                Err(RutabagaError::InvalidCrossDomainItemId)
            } else if !self.items.table[read_pipe_id].spec_is_read_pipe() {
                Err(RutabagaError::InvalidCrossDomainItemType)
            } else {
                Ok(WorkerAction::Watch(read_pipe_id as u64, WaitSetEntry::ReadPipe(read_pipe_id)))
            },
            CrossDomainJob::AddFutex(id, evt) => match spec_futex_name(id) {
                Some(name) => Ok(WorkerAction::Watch(name, WaitSetEntry::Futex(id, evt))),
                None => Err(RutabagaError::InvalidCrossDomainItemId),
            },
            CrossDomainJob::Finish => Ok(WorkerAction::Stop),
        }
    }
}

/// What the worker does for a job.
#[derive(Clone, Copy, Debug, PartialEq, Eq, Structural)]
pub enum WorkerAction {
    /// Wait on the wait set once, without a time limit, and serve the first
    /// event with `handle_fence` for this fence.
    Wait(RutabagaFence),
    /// Add the entry to the wait set under this name.
    Watch(u64, WaitSetEntry),
    /// End.
    Stop,
}

/// Prepares the RECEIVE record and the payload for the channel ring.
pub fn receive_update(
    resources: &ContextResources,
    channel_ring_id: u32,
    fence: RutabagaFence,
    cmd_receive: &CrossDomainSendReceive,
    payload: &[u8],
) -> (r: RutabagaResult<FenceOutcome>)
    ensures
        spec_outcome_view(r) == match spec_ring_record(
            resources@,
            channel_ring_id,
            cmd_receive.spec_encode(),
            Some(payload@),
        ) {
            Err(e) => Err::<FenceOutcomeView, RutabagaError>(e),
            Ok(update) => Ok::<FenceOutcomeView, RutabagaError>(
                FenceOutcomeView {
                    ring_update: Some(update),
                    signal: Some(fence),
                    ..FenceOutcomeView::nothing()
                },
            ),
        },
        r is Ok ==> r.unwrap()@.one_fence(fence) && r.unwrap().ring_update is Some,
{
    let record = cmd_receive.encode();
    match write_to_ring(
        resources,
        RingWrite::Write(record.as_slice(), Some(payload)),
        channel_ring_id,
    ) {
        Err(e) => Err(e),
        Ok((update, _)) => Ok(
            FenceOutcome {
                drain: None,
                deregister: None,
                ring_update: Some(update),
                signal: Some(fence),
                requeued: false,
            },
        ),
    }
}

/// Makes an item of a received descriptor and says what the RECEIVE record
/// holds for it: its identifier, its identifier type and its size.
pub fn receive_descriptor(items: &mut CrossDomainItems, file: &ReceivedDescriptor) -> (r:
    RutabagaResult<(u32, u32, u32)>)
    ensures
        match spec_received_item(*file) {
            Err(e) => r == Err::<(u32, u32, u32), RutabagaError>(e) && final(items)@ == old(items)@,
            Ok(item) => if old(items)@.exhausted(item) {
                r == Err::<(u32, u32, u32), RutabagaError>(RutabagaError::InvalidCrossDomainItemId)
                    && final(items)@ == old(items)@
            } else {
                r == Ok::<(u32, u32, u32), RutabagaError>(
                    (
                        old(items)@.next_id(item),
                        spec_received_entry(file.descriptor_type.unwrap()).0,
                        spec_received_entry(file.descriptor_type.unwrap()).1,
                    ),
                ) && final(items)@ == old(items)@.with_item(item)
            },
        },
{
    let desc_type = match file.descriptor_type {
        Ok(desc_type) => desc_type,
        Err(e) => {
            return Err(e);
        },
    };
    match desc_type {
        DescriptorType::Memory(size, handle_type) => {
            if size == 0 {
                return Err(RutabagaError::InvalidCrossDomainItemType);
            }
            let identifier = items.add_item(
                CrossDomainItem::Blob(MesaHandle { os_handle: file.descriptor, handle_type }),
            )?;
            Ok((identifier, CROSS_DOMAIN_ID_TYPE_VIRTGPU_BLOB, size))
        },
        DescriptorType::WritePipe => {
            let identifier = items.add_item(CrossDomainItem::WaylandWritePipe(file.descriptor))?;
            Ok((identifier, CROSS_DOMAIN_ID_TYPE_WRITE_PIPE, 0))
        },
        DescriptorType::Unknown => Err(RutabagaError::InvalidCrossDomainItemType),
    }
}

/// Walks over the descriptors of a message and makes items of them. The
/// first result says how many became items; the second holds what the
/// RECEIVE record says of them, or the error that stopped the walk.
pub fn receive_files(items: &mut CrossDomainItems, files: &Vec<ReceivedDescriptor>) -> (r: (
    usize,
    RutabagaResult<([u32; 4], [u32; 4], [u32; 4])>,
))
    ensures
        final(items)@ == spec_receive_all(old(items)@, files@).items,
        r.0 == spec_receive_all(old(items)@, files@).installed,
        match spec_receive_all(old(items)@, files@).error {
            Some(e) => r.1 == Err::<([u32; 4], [u32; 4], [u32; 4]), RutabagaError>(e),
            None => r.1 is Ok && r.1.unwrap().0@ == spec_receive_all(
                old(items)@,
                files@,
            ).identifiers && r.1.unwrap().1@ == spec_receive_all(
                old(items)@,
                files@,
            ).identifier_types && r.1.unwrap().2@ == spec_receive_all(
                old(items)@,
                files@,
            ).identifier_sizes,
        },
{
    let num_files: usize = files.len();
    let mut identifiers: [u32; 4] = [0, 0, 0, 0];
    let mut identifier_types: [u32; 4] = [0, 0, 0, 0];
    let mut identifier_sizes: [u32; 4] = [0, 0, 0, 0];
    let count: usize = if num_files < CROSS_DOMAIN_MAX_IDENTIFIERS {
        num_files
    } else {
        CROSS_DOMAIN_MAX_IDENTIFIERS
    };
    let ghost start = spec_receive_start(old(items)@);
    assert(identifiers@ =~= start.identifiers);
    assert(identifier_types@ =~= start.identifier_types);
    assert(identifier_sizes@ =~= start.identifier_sizes);
    let mut i: usize = 0;
    while i < count
        invariant
            i <= count <= 4,
            count == spec_received_count(files@),
            count <= files@.len(),
            start == spec_receive_start(old(items)@),
            spec_receive_walk(files@, start, 0, count as int) == spec_receive_walk(
                files@,
                ReceiveWalk {
                    items: items@,
                    identifiers: identifiers@,
                    identifier_types: identifier_types@,
                    identifier_sizes: identifier_sizes@,
                    installed: i as nat,
                    error: None,
                },
                i as int,
                count as int,
            ),
        decreases count - i,
    {
        let file = files[i];
        let ghost before = ReceiveWalk {
            items: items@,
            identifiers: identifiers@,
            identifier_types: identifier_types@,
            identifier_sizes: identifier_sizes@,
            installed: i as nat,
            error: None,
        };
        let ghost after = spec_receive_step(before, i as int, file);
        proof {
            assert(spec_receive_walk(files@, before, i as int, count as int) == spec_receive_walk(
                files@,
                after,
                i as int + 1,
                count as int,
            )) by {
                reveal_with_fuel(spec_receive_walk, 2);
            }
            if after.error is Some {
                lemma_receive_walk_stops(files@, after, i as int + 1, count as int);
            }
        }
        match receive_descriptor(items, &file) {
            Ok((identifier, identifier_type, identifier_size)) => {
                identifiers[i] = identifier;
                identifier_types[i] = identifier_type;
                identifier_sizes[i] = identifier_size;
            },
            Err(e) => {
                return (i, Err(e));
            },
        }
        i += 1;
    }
    let ghost done = ReceiveWalk {
        items: items@,
        identifiers: identifiers@,
        identifier_types: identifier_types@,
        identifier_sizes: identifier_sizes@,
        installed: count as nat,
        error: None,
    };
    assert(spec_receive_walk(files@, done, count as int, count as int) == done) by {
        reveal_with_fuel(spec_receive_walk, 2);
    }
    (count, Ok((identifiers, identifier_types, identifier_sizes)))
}

impl CrossDomainContext {
    /// Serves the connection, second step: installs what came with the
    /// message and prepares the RECEIVE record.
    ///
    /// `payload` is what was received and `files` the descriptors that came
    /// with it, in order. Only as many descriptors as a record has room for
    /// are looked at; the record still says how many came.
    pub fn channel_received(
        &mut self,
        fence: RutabagaFence,
        payload: &[u8],
        files: &Vec<ReceivedDescriptor>,
    ) -> (receipt: ChannelReceipt)
        ensures
            final(self)@ == old(self)@.after_channel_received(payload@, files@),
            receipt.installed == old(self)@.received_installed(payload@, files@),
            spec_outcome_view(receipt.result) == old(self)@.channel_received_result(
                fence,
                payload@,
                files@,
            ),
            receipt.result is Ok ==> receipt.result.unwrap()@.one_fence(fence)
                && receipt.result.unwrap().ring_update is Some,
    {
        let num_files: usize = files.len();
        let len: usize = payload.len();
        if num_files > u32::MAX as usize {
            return ChannelReceipt {
                installed: 0,
                result: Err(RutabagaError::InvalidCommandSize(num_files)),
            };
        }
        if len > u32::MAX as usize {
            return ChannelReceipt { installed: 0, result: Err(RutabagaError::InvalidCommandSize(len)) };
        }
        let channel_ring_id = match &self.state {
            Some(state) => state.channel_ring_id,
            None => {
                return ChannelReceipt {
                    installed: 0,
                    result: Err(RutabagaError::InvalidCrossDomainState),
                };
            },
        };
        let (installed, walked) = receive_files(&mut self.item_state, files);
        let (identifiers, identifier_types, identifier_sizes) = match walked {
            Ok(arrays) => arrays,
            Err(e) => {
                return ChannelReceipt { installed, result: Err(e) };
            },
        };
        let cmd_receive = CrossDomainSendReceive {
            hdr: CrossDomainHeader { cmd: CROSS_DOMAIN_CMD_RECEIVE, cmd_size: 0 },
            num_identifiers: num_files as u32,
            opaque_data_size: len as u32,
            identifiers,
            identifier_types,
            identifier_sizes,
        };
        proof {
            let expected = old(self)@.receive_record(payload@, files@);
            assert(cmd_receive.identifiers =~= expected.identifiers);
            assert(cmd_receive.identifier_types =~= expected.identifier_types);
            assert(cmd_receive.identifier_sizes =~= expected.identifier_sizes);
            assert(cmd_receive.hdr == expected.hdr);
            assert(cmd_receive.num_identifiers == expected.num_identifiers);
            assert(cmd_receive.opaque_data_size == expected.opaque_data_size);
            assert(cmd_receive == expected);
        }
        ChannelReceipt {
            installed,
            result: receive_update(
                &self.context_resources,
                channel_ring_id,
                fence,
                &cmd_receive,
                payload,
            ),
        }
    }

    /// Takes the next job from the queue, if there is one. With none, the
    /// worker sleeps until one is added.
    pub fn wait_for_job(&mut self) -> (job: Option<CrossDomainJob>)
        ensures
            job == match old(self)@.state {
                Some(state) => if state.jobs.len() == 0 {
                    None::<CrossDomainJob>
                } else {
                    Some(state.jobs[0])
                },
                None => None::<CrossDomainJob>,
            },
            final(self)@ == match old(self)@.state {
                Some(state) => if state.jobs.len() == 0 {
                    old(self)@
                } else {
                    CrossDomainContextView {
                        state: Some(CrossDomainStateView { jobs: state.jobs.skip(1), ..state }),
                        ..old(self)@
                    }
                },
                None => old(self)@,
            },
    {
        match &mut self.state {
            Some(state) => state.wait_for_job(),
            None => None,
        }
    }

    /// Says what the worker does for a job.
    pub fn run(&self, job: CrossDomainJob) -> (r: RutabagaResult<WorkerAction>)
        ensures
            r == self@.job_result(job),
    {
        broadcast use vstd::std_specs::btree::group_btree_axioms;

        match job {
            CrossDomainJob::HandleFence(fence) => Ok(WorkerAction::Wait(fence)),
            CrossDomainJob::AddReadPipe(read_pipe_id) => {
                match self.item_state.get(read_pipe_id) {
                    None => Err(RutabagaError::InvalidCrossDomainItemId),
                    Some(item) => {
                        if item.is_read_pipe() {
                            Ok(
                                WorkerAction::Watch(
                                    read_pipe_id as u64,
                                    WaitSetEntry::ReadPipe(read_pipe_id),
                                ),
                            )
                        } else {
                            Err(RutabagaError::InvalidCrossDomainItemType)
                        }
                    },
                }
            },
            CrossDomainJob::AddFutex(id, evt) => match futex_name(id) {
                Some(name) => Ok(WorkerAction::Watch(name, WaitSetEntry::Futex(id, evt))),
                None => Err(RutabagaError::InvalidCrossDomainItemId),
            },
            CrossDomainJob::Finish => Ok(WorkerAction::Stop),
        }
    }
}

} // verus!
