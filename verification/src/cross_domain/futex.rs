//! The futex bridge: a word of memory that guest and host share, on which
//! either side can wait and wake.
//!
//! The word, its mapping and the thread that watches it belong to the
//! caller. Here are the table of bound futexes, the commands that change it,
//! and the few decisions that the watcher makes.

use crate::cross_domain::context::CrossDomainContext;
use crate::cross_domain::context::CrossDomainContextView;
use crate::cross_domain::context::CrossDomainFutex;
use crate::cross_domain::context::CrossDomainJob;
use crate::cross_domain::cross_domain_protocol::CrossDomainFutexDestroy;
use crate::cross_domain::cross_domain_protocol::CrossDomainFutexNew;
use crate::cross_domain::cross_domain_protocol::CrossDomainFutexSignal;
use crate::cross_domain::worker::futex_name;
use crate::cross_domain::worker::spec_futex_name;
use crate::rutabaga_utils::RawDescriptor;
use crate::rutabaga_utils::RutabagaError;
use crate::rutabaga_utils::RutabagaResult;
use vstd::prelude::*;

verus! {

/// The bit that the watcher waits with. A wake reaches the watcher only if
/// its bits include this one.
pub const FUTEX_WATCHER_BITSET: u32 = 0x0000_0001;
/// The bits that a wake from the guest carries: all but the watcher's, so
/// that the watcher sleeps through it.
pub const FUTEX_SIGNAL_BITSET: u32 = 0xffff_fffe;
/// How many waiters a wake from the guest may wake.
pub const FUTEX_SIGNAL_WAITERS: i32 = 0x7fff_ffff;

/// What FUTEX_NEW asks of the caller: find the file that `fs_id` and
/// `handle` name, duplicate its descriptor, map four bytes of it shared for
/// reading and writing, create the event for the watcher, and report with
/// `futex_new_complete`.
#[derive(Clone, Copy, Debug, PartialEq, Eq, Structural)]
pub struct FutexRequest {
    pub id: u32,
    pub fs_id: u64,
    pub handle: u64,
}

/// What the caller has opened for a new futex.
#[derive(Clone, Copy, Debug, PartialEq, Eq, Structural)]
pub struct FutexResources {
    /// The duplicated descriptor, which keeps the mapping alive.
    pub handle: RawDescriptor,
    /// The event that the watcher signals.
    pub evt: RawDescriptor,
}

/// What FUTEX_SIGNAL asks of the caller for a live futex: wake up to
/// `waiters` waiters on the word behind `handle` whose wait bits meet
/// `bitset`.
#[derive(Clone, Copy, Debug, PartialEq, Eq, Structural)]
pub struct FutexWake {
    pub handle: RawDescriptor,
    pub waiters: i32,
    pub bitset: u32,
}

/// What FUTEX_DESTROY asks of the caller, in this order: tell the watcher
/// to stop, replace the word by `shutdown_value` of what it holds, wake all
/// waiters whatever their bits, join the watcher, and only then release the
/// mapping.
#[derive(Clone, Copy, Debug, PartialEq, Eq, Structural)]
pub struct FutexShutdown {
    pub id: u32,
    pub handle: RawDescriptor,
    pub evt: RawDescriptor,
}

/// The value that shutting down puts in place of `value`: one that differs
/// from it in every bit, so that a watcher about to wait on `value` does not
/// block.
pub fn shutdown_value(value: u32) -> (flipped: u32)
    ensures
        flipped == !value,
        flipped != value,
{
    assert(!value != value) by (bit_vector);
    !value
}

/// A wake from the guest does not reach the watcher; a wake with all bits
/// does.
pub proof fn lemma_wake_bitsets()
    ensures
        FUTEX_SIGNAL_BITSET == !FUTEX_WATCHER_BITSET,
        FUTEX_SIGNAL_BITSET & FUTEX_WATCHER_BITSET == 0,
        0xffff_ffffu32 & FUTEX_WATCHER_BITSET != 0,
{
    assert(0xffff_fffeu32 == !0x0000_0001u32) by (bit_vector);
    assert(0xffff_fffeu32 & 0x0000_0001u32 == 0) by (bit_vector);
    assert(0xffff_ffffu32 & 0x0000_0001u32 != 0) by (bit_vector);
}

/// What the watcher does after a wait has returned and it has loaded the
/// word again.
#[derive(Clone, Copy, Debug, PartialEq, Eq, Structural)]
pub enum WatcherStep {
    /// Signal the event, then wait on the value just loaded.
    SignalAndWait,
    /// Signal the event, then end.
    SignalAndExit,
}

/// The watcher's decision after a wait: it signals in either case, and
/// ends if it has been told to stop.
pub fn watcher_after_wait(shutdown: bool) -> (step: WatcherStep)
    ensures
        step == if shutdown {
            WatcherStep::SignalAndExit
        } else {
            WatcherStep::SignalAndWait
        },
{
    if shutdown {
        WatcherStep::SignalAndExit
    } else {
        WatcherStep::SignalAndWait
    }
}

/// Whether the watcher waits again after `step`: not after its last step,
/// and not when the event could not be signaled.
pub fn watcher_goes_on(step: WatcherStep, signaled: bool) -> (go_on: bool)
    ensures
        go_on == (step == WatcherStep::SignalAndWait && signaled),
{
    match step {
        WatcherStep::SignalAndWait => signaled,
        WatcherStep::SignalAndExit => false,
    }
}

impl CrossDomainContextView {
    /// What FUTEX_NEW comes to. Without a table of files no file can be
    /// named (`InvalidCrossDomainItemId`); an identifier under which no
    /// event can be watched, because it has no name in the wait set, is
    /// `InvalidCrossDomainItemId` too; an identifier that is bound is
    /// `AlreadyInUse`.
    pub open spec fn futex_new_result(self, cmd_futex_new: CrossDomainFutexNew) -> Result<
        FutexRequest,
        RutabagaError,
    > {
        if !self.virtiofs_table {
            Err(RutabagaError::InvalidCrossDomainItemId)
        } else if spec_futex_name(cmd_futex_new.id) is None {
            Err(RutabagaError::InvalidCrossDomainItemId)
        } else if self.futexes.contains_key(cmd_futex_new.id) {
            Err(RutabagaError::AlreadyInUse)
        } else {
            Ok(
                FutexRequest {
                    id: cmd_futex_new.id,
                    fs_id: cmd_futex_new.fs_id,
                    handle: cmd_futex_new.handle,
                },
            )
        }
    }

    /// What binding the futex comes to once the caller has tried to open
    /// what it needs: the caller's error if it failed;
    /// `InvalidCrossDomainItemId` for an identifier without a name in the
    /// wait set; `AlreadyInUse` if the identifier has been bound meanwhile;
    /// `InvalidCrossDomainState` if the context is not initialized.
    pub open spec fn futex_new_complete_result(
        self,
        id: u32,
        opened: RutabagaResult<FutexResources>,
    ) -> Result<(), RutabagaError> {
        match opened {
            Err(e) => Err(e),
            Ok(_) => if spec_futex_name(id) is None {
                Err(RutabagaError::InvalidCrossDomainItemId)
            } else if self.futexes.contains_key(id) {
                Err(RutabagaError::AlreadyInUse)
            } else if self.state is None {
                Err(RutabagaError::InvalidCrossDomainState)
            } else {
                Ok(())
            },
        }
    }

    /// Where binding the futex leaves the context: on success the futex is
    /// in the table, live, and the worker is told to watch its event.
    pub open spec fn after_futex_new_complete(
        self,
        id: u32,
        opened: RutabagaResult<FutexResources>,
    ) -> CrossDomainContextView {
        if self.futex_new_complete_result(id, opened) is Ok {
            let resources = opened.unwrap();
            CrossDomainContextView {
                futexes: self.futexes.insert(
                    id,
                    CrossDomainFutex {
                        handle: resources.handle,
                        evt: resources.evt,
                        shutdown: false,
                    },
                ),
                ..self.with_job(CrossDomainJob::AddFutex(id, resources.evt))
            }
        } else {
            self
        }
    }

    /// Whether a futex with this identifier is bound and has not been shut
    /// down.
    pub open spec fn futex_live(self, id: u32) -> bool {
        self.futexes.contains_key(id) && !self.futexes[id].shutdown
    }

    /// What FUTEX_SIGNAL comes to: `Ok` exactly if the identifier is bound,
    /// else `InvalidCrossDomainItemId`. The wake is for a live futex; one
    /// that has been shut down has no word left to wake on, and nobody is
    /// woken.
    pub open spec fn futex_signal_result(self, cmd_futex_signal: CrossDomainFutexSignal) -> Result<
        Option<FutexWake>,
        RutabagaError,
    > {
        if !self.futexes.contains_key(cmd_futex_signal.id) {
            Err(RutabagaError::InvalidCrossDomainItemId)
        } else if self.futexes[cmd_futex_signal.id].shutdown {
            Ok(None)
        } else {
            Ok(
                Some(
                    FutexWake {
                        handle: self.futexes[cmd_futex_signal.id].handle,
                        waiters: FUTEX_SIGNAL_WAITERS,
                        bitset: FUTEX_SIGNAL_BITSET,
                    },
                ),
            )
        }
    }

    /// What FUTEX_DESTROY comes to: the shutdown of a live futex; anything
    /// else is `InvalidCrossDomainItemId`.
    pub open spec fn futex_destroy_result(self, cmd_futex_destroy: CrossDomainFutexDestroy)
        -> Result<FutexShutdown, RutabagaError> {
        if self.futex_live(cmd_futex_destroy.id) {
            Ok(
                FutexShutdown {
                    id: cmd_futex_destroy.id,
                    handle: self.futexes[cmd_futex_destroy.id].handle,
                    evt: self.futexes[cmd_futex_destroy.id].evt,
                },
            )
        } else {
            Err(RutabagaError::InvalidCrossDomainItemId)
        }
    }

    /// Where FUTEX_DESTROY leaves the context: a live futex is marked as
    /// shut down and keeps its entry, which the worker removes when it
    /// next hears from the futex's event.
    pub open spec fn after_futex_destroy(self, cmd_futex_destroy: CrossDomainFutexDestroy)
        -> CrossDomainContextView {
        if self.futex_live(cmd_futex_destroy.id) {
            CrossDomainContextView {
                futexes: self.futexes.insert(
                    cmd_futex_destroy.id,
                    CrossDomainFutex { shutdown: true, ..self.futexes[cmd_futex_destroy.id] },
                ),
                ..self
            }
        } else {
            self
        }
    }
}

impl CrossDomainContext {
    /// FUTEX_NEW, first step: checks that the identifier is free.
    pub fn futex_new(&self, cmd_futex_new: &CrossDomainFutexNew) -> (r: RutabagaResult<
        FutexRequest,
    >)
        ensures
            r == self@.futex_new_result(*cmd_futex_new),
    {
        broadcast use vstd::std_specs::btree::group_btree_axioms;

        if !self.virtiofs_table {
            return Err(RutabagaError::InvalidCrossDomainItemId);
        }
        if futex_name(cmd_futex_new.id).is_none() {
            return Err(RutabagaError::InvalidCrossDomainItemId);
        }
        if self.futexes.contains_key(&cmd_futex_new.id) {
            return Err(RutabagaError::AlreadyInUse);
        }
        Ok(
            FutexRequest {
                id: cmd_futex_new.id,
                fs_id: cmd_futex_new.fs_id,
                handle: cmd_futex_new.handle,
            },
        )
    }

    /// FUTEX_NEW, second step: binds the futex to what the caller has
    /// opened, or passes on why it could not. On success the caller starts
    /// the watcher.
    pub fn futex_new_complete(&mut self, id: u32, opened: RutabagaResult<FutexResources>) -> (r:
        RutabagaResult<()>)
        ensures
            r == old(self)@.futex_new_complete_result(id, opened),
            final(self)@ == old(self)@.after_futex_new_complete(id, opened),
    {
        broadcast use vstd::std_specs::btree::group_btree_axioms;

        let resources = opened?;
        if futex_name(id).is_none() {
            return Err(RutabagaError::InvalidCrossDomainItemId);
        }
        if self.futexes.contains_key(&id) {
            return Err(RutabagaError::AlreadyInUse);
        }
        if self.state.is_none() {
            return Err(RutabagaError::InvalidCrossDomainState);
        }
        self.add_job(CrossDomainJob::AddFutex(id, resources.evt));
        self.futexes.insert(
            id,
            CrossDomainFutex { handle: resources.handle, evt: resources.evt, shutdown: false },
        );
        Ok(())
    }

    /// FUTEX_SIGNAL: the wake that the guest asks for, if there is a word
    /// to wake on. The context does not change.
    pub fn futex_signal(&self, cmd_futex_signal: &CrossDomainFutexSignal) -> (r: RutabagaResult<
        Option<FutexWake>,
    >)
        ensures
            r == self@.futex_signal_result(*cmd_futex_signal),
    {
        broadcast use vstd::std_specs::btree::group_btree_axioms;

        match self.futexes.get(&cmd_futex_signal.id) {
            Some(ftx) => {
                if ftx.shutdown {
                    Ok(None)
                } else {
                    Ok(
                        Some(
                            FutexWake {
                                handle: ftx.handle,
                                waiters: FUTEX_SIGNAL_WAITERS,
                                bitset: FUTEX_SIGNAL_BITSET,
                            },
                        ),
                    )
                }
            },
            None => Err(RutabagaError::InvalidCrossDomainItemId),
        }
    }

    /// FUTEX_DESTROY: marks the futex as shut down and says what the caller
    /// has to do before the command returns to the guest.
    pub fn futex_destroy(&mut self, cmd_futex_destroy: &CrossDomainFutexDestroy) -> (r:
        RutabagaResult<FutexShutdown>)
        ensures
            r == old(self)@.futex_destroy_result(*cmd_futex_destroy),
            final(self)@ == old(self)@.after_futex_destroy(*cmd_futex_destroy),
    {
        broadcast use vstd::std_specs::btree::group_btree_axioms;

        let ftx = match self.futexes.get(&cmd_futex_destroy.id) {
            Some(ftx) => *ftx,
            None => {
                return Err(RutabagaError::InvalidCrossDomainItemId);
            },
        };
        if ftx.shutdown {
            return Err(RutabagaError::InvalidCrossDomainItemId);
        }
        self.futexes.insert(
            cmd_futex_destroy.id,
            CrossDomainFutex { handle: ftx.handle, evt: ftx.evt, shutdown: true },
        );
        Ok(FutexShutdown { id: cmd_futex_destroy.id, handle: ftx.handle, evt: ftx.evt })
    }
}

} // verus!
