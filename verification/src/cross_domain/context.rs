//! The cross-domain context: the state kept for one guest client and the
//! commands that change it.
//!
//! A command is handled in steps. A step decides, changes the state and says
//! what outside work is due: opening a socket, sending a message, writing to
//! a pipe. The caller does that work and, where the command goes on, reports
//! how it went to the step that follows.

use crate::context_common::attach_resource;
use crate::context_common::detach_resource;
use crate::context_common::spec_attached;
use crate::context_common::ContextResource;
use crate::context_common::ContextResources;
use crate::cross_domain::cross_domain_protocol::CrossDomainInit;
use crate::cross_domain::cross_domain_protocol::CROSS_DOMAIN_CHANNEL_RING;
use crate::cross_domain::cross_domain_protocol::CROSS_DOMAIN_QUERY_RING;
use crate::cross_domain::items::CrossDomainItems;
use crate::cross_domain::items::CrossDomainItemsView;
use crate::rutabaga_core::RutabagaResource;
use crate::rutabaga_utils::MesaError;
use crate::rutabaga_utils::RawDescriptor;
use crate::rutabaga_utils::RutabagaComponentType;
use crate::rutabaga_utils::RutabagaError;
use crate::rutabaga_utils::RutabagaFence;
use crate::rutabaga_utils::RutabagaPath;
use crate::rutabaga_utils::RutabagaResult;
use crate::rutabaga_utils::RUTABAGA_BLOB_MEM_GUEST;
use std::collections::BTreeMap;
use std::collections::VecDeque;
use vstd::prelude::*;

verus! {

/// Work for the worker, taken in the order in which it was added.
#[derive(Clone, Copy, Debug, PartialEq, Eq, Structural)]
pub enum CrossDomainJob {
    /// Serve one event of the wait set, then signal this fence.
    HandleFence(RutabagaFence),
    /// Watch the read pipe with this identifier.
    AddReadPipe(u32),
    /// Stop.
    Finish,
    /// Watch the event of the futex with this identifier.
    AddFutex(u32, RawDescriptor),
}

/// What a context has once it is initialized: its rings, its connection to
/// the host server if it has one, and the work that waits for the worker.
pub struct CrossDomainState {
    pub query_ring_id: u32,
    pub channel_ring_id: u32,
    pub connection: Option<RawDescriptor>,
    pub jobs: VecDeque<CrossDomainJob>,
}

/// A [`CrossDomainState`] as plain values.
pub struct CrossDomainStateView {
    pub query_ring_id: u32,
    pub channel_ring_id: u32,
    pub connection: Option<RawDescriptor>,
    pub jobs: Seq<CrossDomainJob>,
}

impl View for CrossDomainState {
    type V = CrossDomainStateView;

    open spec fn view(&self) -> CrossDomainStateView {
        CrossDomainStateView {
            query_ring_id: self.query_ring_id,
            channel_ring_id: self.channel_ring_id,
            connection: self.connection,
            jobs: self.jobs@,
        }
    }
}

impl CrossDomainStateView {
    /// The state with one more job at the end of the queue.
    pub open spec fn with_job(self, job: CrossDomainJob) -> CrossDomainStateView {
        CrossDomainStateView { jobs: self.jobs.push(job), ..self }
    }
}

impl CrossDomainState {
    /// A state with no work waiting.
    pub fn new(query_ring_id: u32, channel_ring_id: u32, connection: Option<RawDescriptor>) -> (state:
        CrossDomainState)
        ensures
            state@ == (CrossDomainStateView {
                query_ring_id,
                channel_ring_id,
                connection,
                jobs: Seq::empty(),
            }),
    {
        CrossDomainState { query_ring_id, channel_ring_id, connection, jobs: VecDeque::new() }
    }

    /// The connection that messages go out on; none is
    /// `InvalidCrossDomainChannel`.
    pub fn send_msg(&self) -> (r: RutabagaResult<RawDescriptor>)
        ensures
            r == match self.connection {
                Some(connection) => Ok::<RawDescriptor, RutabagaError>(connection),
                None => Err::<RawDescriptor, RutabagaError>(
                    RutabagaError::InvalidCrossDomainChannel,
                ),
            },
    {
        match self.connection {
            Some(connection) => Ok(connection),
            None => Err(RutabagaError::InvalidCrossDomainChannel),
        }
    }

    /// The connection that messages come in on; none is
    /// `InvalidCrossDomainChannel`.
    pub fn receive_msg(&self) -> (r: RutabagaResult<RawDescriptor>)
        ensures
            r == match self.connection {
                Some(connection) => Ok::<RawDescriptor, RutabagaError>(connection),
                None => Err::<RawDescriptor, RutabagaError>(
                    RutabagaError::InvalidCrossDomainChannel,
                ),
            },
    {
        match self.connection {
            Some(connection) => Ok(connection),
            None => Err(RutabagaError::InvalidCrossDomainChannel),
        }
    }

    /// Adds a job at the end of the queue.
    pub fn add_job(&mut self, job: CrossDomainJob)
        ensures
            final(self)@ == old(self)@.with_job(job),
    {
        self.jobs.push_back(job);
    }

    /// Takes the job at the front of the queue, if there is one.
    pub fn wait_for_job(&mut self) -> (job: Option<CrossDomainJob>)
        ensures
            job == if old(self)@.jobs.len() == 0 {
                None::<CrossDomainJob>
            } else {
                Some(old(self)@.jobs[0])
            },
            final(self)@ == if old(self)@.jobs.len() == 0 {
                old(self)@
            } else {
                CrossDomainStateView { jobs: old(self)@.jobs.skip(1), ..old(self)@ }
            },
    {
        let job = self.jobs.pop_front();
        proof {
            if old(self)@.jobs.len() != 0 {
                assert(self.jobs@ =~= old(self)@.jobs.skip(1));
            }
        }
        job
    }
}

/// A futex that the guest has bound: the descriptor of the file behind the
/// shared word, the event that its watcher signals, and whether it has been
/// shut down. A futex that is shut down has had its watcher joined and its
/// mapping released; only its entry is left, for the worker to remove.
#[derive(Clone, Copy, Debug, PartialEq, Eq, Structural)]
pub struct CrossDomainFutex {
    pub handle: RawDescriptor,
    pub evt: RawDescriptor,
    pub shutdown: bool,
}

/// The state kept for one guest client.
pub struct CrossDomainContext {
    /// The sockets that the guest may be connected to; taken when a channel
    /// is opened.
    pub paths: Option<Vec<RutabagaPath>>,
    /// Present once the context is initialized.
    pub state: Option<CrossDomainState>,
    /// The guest resources that the context has been shown.
    pub context_resources: ContextResources,
    /// The item table.
    pub item_state: CrossDomainItems,
    /// The futexes that the guest has bound, by identifier.
    pub futexes: BTreeMap<u32, CrossDomainFutex>,
    /// Whether a worker was started and has not been joined.
    pub worker_thread: bool,
    /// The event that makes the worker look at its wait set again.
    pub resample_evt: Option<RawDescriptor>,
    /// The event that wakes the worker for the last time.
    pub kill_evt: Option<RawDescriptor>,
    /// Whether there is a table that resolves the files behind futexes.
    pub virtiofs_table: bool,
}

/// A [`CrossDomainContext`] as plain values.
pub struct CrossDomainContextView {
    pub paths: Option<Vec<RutabagaPath>>,
    pub state: Option<CrossDomainStateView>,
    pub context_resources: Map<u32, ContextResource>,
    pub items: CrossDomainItemsView,
    pub futexes: Map<u32, CrossDomainFutex>,
    pub worker_thread: bool,
    pub resample_evt: Option<RawDescriptor>,
    pub kill_evt: Option<RawDescriptor>,
    pub virtiofs_table: bool,
}

impl View for CrossDomainContext {
    type V = CrossDomainContextView;

    open spec fn view(&self) -> CrossDomainContextView {
        CrossDomainContextView {
            paths: self.paths,
            state: match self.state {
                Some(state) => Some(state@),
                None => None,
            },
            context_resources: self.context_resources@,
            items: self.item_state@,
            futexes: self.futexes@,
            worker_thread: self.worker_thread,
            resample_evt: self.resample_evt,
            kill_evt: self.kill_evt,
            virtiofs_table: self.virtiofs_table,
        }
    }
}

/// The position of the first path of type `path_type` at or after `from`.
pub open spec fn spec_first_path(paths: Seq<RutabagaPath>, path_type: u32, from: int) -> Option<int>
    decreases paths.len() - from,
{
    if from < 0 || from >= paths.len() {
        None
    } else if paths[from].path_type == path_type {
        Some(from)
    } else {
        spec_first_path(paths, path_type, from + 1)
    }
}

/// What INIT asks of the caller.
#[derive(Debug, PartialEq, Eq)]
pub enum InitAction {
    /// Nothing: the context is initialized without a channel.
    Local,
    /// Open a stream connection to this socket, create the kill and resample
    /// events and a wait set that watches the connection, start the worker,
    /// and report them with `channel_connected`.
    Connect(String),
}

impl CrossDomainContextView {
    /// The job that was queued last and is still waiting, if there is one.
    pub open spec fn last_job(self) -> Option<CrossDomainJob> {
        match self.state {
            Some(state) => if state.jobs.len() > 0 {
                Some(state.jobs.last())
            } else {
                None
            },
            None => None,
        }
    }

    /// The context with one more job queued, if it is initialized; else
    /// unchanged.
    pub open spec fn with_job(self, job: CrossDomainJob) -> CrossDomainContextView {
        match self.state {
            Some(state) => CrossDomainContextView { state: Some(state.with_job(job)), ..self },
            None => self,
        }
    }

    /// The error that stops INIT, if one does: a ring that is not a known
    /// resource is `InvalidResourceId`; a channel type for which no path is
    /// at hand is `InvalidCrossDomainChannel`.
    pub open spec fn init_error(self, cmd_init: CrossDomainInit) -> Option<RutabagaError> {
        if !self.context_resources.contains_key(cmd_init.query_ring_id) {
            Some(RutabagaError::InvalidResourceId)
        } else if cmd_init.channel_type == 0 {
            None
        } else if !self.context_resources.contains_key(cmd_init.channel_ring_id) {
            Some(RutabagaError::InvalidResourceId)
        } else if self.paths is None || spec_first_path(
            self.paths.unwrap()@,
            cmd_init.channel_type,
            0,
        ) is None {
            Some(RutabagaError::InvalidCrossDomainChannel)
        } else {
            None
        }
    }

    /// The context after INIT has been decided: without a channel it is
    /// initialized at once; with one, the paths are used up, also when none
    /// of them fits, and the rest waits for the connection.
    pub open spec fn after_init(self, cmd_init: CrossDomainInit) -> CrossDomainContextView {
        if !self.context_resources.contains_key(cmd_init.query_ring_id) {
            self
        } else if cmd_init.channel_type == 0 {
            CrossDomainContextView {
                state: Some(
                    CrossDomainStateView {
                        query_ring_id: cmd_init.query_ring_id,
                        channel_ring_id: cmd_init.channel_ring_id,
                        connection: None,
                        jobs: Seq::empty(),
                    },
                ),
                ..self
            }
        } else if !self.context_resources.contains_key(cmd_init.channel_ring_id) {
            self
        } else {
            CrossDomainContextView { paths: None, ..self }
        }
    }

    /// The context once the channel that INIT asked for is open.
    pub open spec fn connected(
        self,
        cmd_init: CrossDomainInit,
        connection: RawDescriptor,
        kill_evt: RawDescriptor,
        resample_evt: RawDescriptor,
    ) -> CrossDomainContextView {
        CrossDomainContextView {
            state: Some(
                CrossDomainStateView {
                    query_ring_id: cmd_init.query_ring_id,
                    channel_ring_id: cmd_init.channel_ring_id,
                    connection: Some(connection),
                    jobs: Seq::empty(),
                },
            ),
            worker_thread: true,
            resample_evt: Some(resample_evt),
            kill_evt: Some(kill_evt),
            ..self
        }
    }
}

/// What a fence asks of the caller.
#[derive(Clone, Copy, Debug, PartialEq, Eq, Structural)]
pub enum FenceAction {
    /// Signal the fence now.
    Signal(RutabagaFence),
    /// Nothing now: the fence waits for the worker, or is dropped because
    /// the context has no state to queue it in.
    Deferred,
}

impl CrossDomainContext {
    /// A context that has not been initialized.
    pub fn new(paths: Option<Vec<RutabagaPath>>, virtiofs_table: bool) -> (ctx: CrossDomainContext)
        ensures
            ctx@ == (CrossDomainContextView {
                paths,
                state: None,
                context_resources: Map::empty(),
                items: CrossDomainItemsView {
                    descriptor_id: 1,
                    read_pipe_id: crate::cross_domain::cross_domain_protocol::CROSS_DOMAIN_PIPE_READ_START,
                    table: Map::empty(),
                },
                futexes: Map::empty(),
                worker_thread: false,
                resample_evt: None,
                kill_evt: None,
                virtiofs_table,
            }),
    {
        CrossDomainContext {
            paths,
            state: None,
            context_resources: BTreeMap::new(),
            item_state: CrossDomainItems::new(),
            futexes: BTreeMap::new(),
            worker_thread: false,
            resample_evt: None,
            kill_evt: None,
            virtiofs_table,
        }
    }

    /// Queues a job for the worker. A context that is not initialized has no
    /// queue, and the job is dropped.
    pub fn add_job(&mut self, job: CrossDomainJob)
        ensures
            final(self)@ == old(self)@.with_job(job),
    {
        match &mut self.state {
            Some(state) => {
                state.add_job(job);
            },
            None => {},
        }
    }

    /// Takes the path that a channel of the given type connects to: the
    /// first one of that type. The paths are used up by this, also when
    /// none of them fits.
    #[verifier::loop_isolation(false)]
    pub fn get_connection(&mut self, cmd_init: &CrossDomainInit) -> (r: RutabagaResult<String>)
        ensures
            final(self)@ == (CrossDomainContextView { paths: None, ..old(self)@ }),
            r.is_ok() <==> old(self)@.paths is Some && spec_first_path(
                old(self)@.paths.unwrap()@,
                cmd_init.channel_type,
                0,
            ) is Some,
            r.is_ok() ==> r.unwrap() == old(self)@.paths.unwrap()@[spec_first_path(
                old(self)@.paths.unwrap()@,
                cmd_init.channel_type,
                0,
            ).unwrap()].path,
            r.is_err() ==> r == Err::<String, RutabagaError>(
                RutabagaError::InvalidCrossDomainChannel,
            ),
    {
        let mut paths = match self.paths.take() {
            Some(paths) => paths,
            None => {
                return Err(RutabagaError::InvalidCrossDomainChannel);
            },
        };
        let ghost all = paths@;
        let n: usize = paths.len();
        let mut i: usize = 0;
        while i < n && paths[i].path_type != cmd_init.channel_type
            invariant
                n == paths@.len(),
                paths@ == all,
                i <= n,
                spec_first_path(all, cmd_init.channel_type, 0) == spec_first_path(
                    all,
                    cmd_init.channel_type,
                    i as int,
                ),
            decreases n - i,
        {
            i += 1;
        }
        if i < n {
            let found = paths.remove(i);
            Ok(found.path)
        } else {
            Err(RutabagaError::InvalidCrossDomainChannel)
        }
    }

    /// INIT, first step: checks the rings and decides whether a channel is
    /// to be opened.
    ///
    /// Without a channel the context is initialized when this returns. With
    /// one, the result names the socket; the state is set by
    /// `channel_connected` once the caller has opened the connection.
    pub fn initialize(&mut self, cmd_init: &CrossDomainInit) -> (r: RutabagaResult<InitAction>)
        ensures
            final(self)@ == old(self)@.after_init(*cmd_init),
            match old(self)@.init_error(*cmd_init) {
                Some(e) => r == Err::<InitAction, RutabagaError>(e),
                None => r == Ok::<InitAction, RutabagaError>(
                    if cmd_init.channel_type == 0 {
                        InitAction::Local
                    } else {
                        InitAction::Connect(
                            old(self)@.paths.unwrap()@[spec_first_path(
                                old(self)@.paths.unwrap()@,
                                cmd_init.channel_type,
                                0,
                            ).unwrap()].path,
                        )
                    },
                ),
            },
    {
        broadcast use vstd::std_specs::btree::group_btree_axioms;

        if !self.context_resources.contains_key(&cmd_init.query_ring_id) {
            return Err(RutabagaError::InvalidResourceId);
        }
        let query_ring_id = cmd_init.query_ring_id;
        let channel_ring_id = cmd_init.channel_ring_id;

        // Zero means no requested channel.
        if cmd_init.channel_type != 0 {
            if !self.context_resources.contains_key(&cmd_init.channel_ring_id) {
                return Err(RutabagaError::InvalidResourceId);
            }
            let path = self.get_connection(cmd_init)?;
            Ok(InitAction::Connect(path))
        } else {
            self.state = Some(CrossDomainState::new(query_ring_id, channel_ring_id, None));
            Ok(InitAction::Local)
        }
    }

    /// INIT, second step: records the channel that the caller has opened as
    /// `initialize` asked, and that a worker now serves.
    pub fn channel_connected(
        &mut self,
        cmd_init: &CrossDomainInit,
        connection: RawDescriptor,
        kill_evt: RawDescriptor,
        resample_evt: RawDescriptor,
    )
        ensures
            final(self)@ == old(self)@.connected(*cmd_init, connection, kill_evt, resample_evt),
    {
        self.state = Some(
            CrossDomainState::new(
                cmd_init.query_ring_id,
                cmd_init.channel_ring_id,
                Some(connection),
            ),
        );
        self.worker_thread = true;
        self.resample_evt = Some(resample_evt);
        self.kill_evt = Some(kill_evt);
    }

    /// Makes a guest resource known to the context: a guest-memory blob by
    /// its memory, which the context takes over, any other resource by its
    /// handle.
    pub fn attach(&mut self, resource: &mut RutabagaResource)
        ensures
            spec_attached(
                old(self)@.context_resources,
                final(self)@.context_resources,
                *old(resource),
            ),
            final(self)@ == (CrossDomainContextView {
                context_resources: final(self)@.context_resources,
                ..old(self)@
            }),
            old(resource).blob_mem == RUTABAGA_BLOB_MEM_GUEST ==> *final(resource) == (
            RutabagaResource { backing_iovecs: None, ..*old(resource) }),
            old(resource).blob_mem != RUTABAGA_BLOB_MEM_GUEST ==> *final(resource) == *old(
                resource,
            ),
    {
        attach_resource(&mut self.context_resources, resource);
    }

    /// Makes the context forget a guest resource.
    pub fn detach(&mut self, resource: &RutabagaResource)
        ensures
            final(self)@ == (CrossDomainContextView {
                context_resources: old(self)@.context_resources.remove(resource.resource_id),
                ..old(self)@
            }),
    {
        detach_resource(&mut self.context_resources, resource.resource_id);
    }

    /// Routes a fence by its ring: one for the query ring is to be signaled
    /// at once; one for the channel ring waits in the queue until the worker
    /// has served an event; any other ring is an error.
    pub fn context_create_fence(&mut self, fence: RutabagaFence) -> (r: RutabagaResult<FenceAction>)
        ensures
            r == if fence.ring_idx as u32 == CROSS_DOMAIN_QUERY_RING {
                Ok::<FenceAction, RutabagaError>(FenceAction::Signal(fence))
            } else if fence.ring_idx as u32 == CROSS_DOMAIN_CHANNEL_RING {
                Ok::<FenceAction, RutabagaError>(FenceAction::Deferred)
            } else {
                Err::<FenceAction, RutabagaError>(
                    RutabagaError::MesaError(MesaError::WithContext("unexpected ring type")),
                )
            },
            final(self)@ == if fence.ring_idx as u32 == CROSS_DOMAIN_CHANNEL_RING {
                old(self)@.with_job(CrossDomainJob::HandleFence(fence))
            } else {
                old(self)@
            },
    {
        let ring: u32 = fence.ring_idx as u32;
        if ring == CROSS_DOMAIN_QUERY_RING {
            Ok(FenceAction::Signal(fence))
        } else if ring == CROSS_DOMAIN_CHANNEL_RING {
            self.add_job(CrossDomainJob::HandleFence(fence));
            Ok(FenceAction::Deferred)
        } else {
            Err(RutabagaError::MesaError(MesaError::WithContext("unexpected ring type")))
        }
    }

    /// The kind of component that this context belongs to.
    pub fn component_type(&self) -> (t: RutabagaComponentType)
        ensures
            t == RutabagaComponentType::CrossDomain,
    {
        RutabagaComponentType::CrossDomain
    }
}

} // verus!
