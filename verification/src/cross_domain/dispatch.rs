//! The command dispatcher: from the bytes that the guest submits to the
//! command to run and on to the next command.
//!
//! A buffer holds commands one after the other. Each begins with a header
//! that says what the command is and how many bytes it takes. The caller
//! hands the buffer to `submit_cmd`, does what the result asks for, and goes
//! on with what `next_commands` leaves, until `submit_cmd` says that nothing
//! is left.

use crate::cross_domain::commands::image_allocation_info;
use crate::cross_domain::commands::SendPlan;
use crate::cross_domain::commands::SendPlanView;
use crate::cross_domain::commands::WritePlan;
use crate::cross_domain::context::CrossDomainContext;
use crate::cross_domain::context::CrossDomainContextView;
use crate::cross_domain::context::InitAction;
use crate::cross_domain::cross_domain_protocol::spec_u32_at;
use crate::cross_domain::cross_domain_protocol::CrossDomainFutexDestroy;
use crate::cross_domain::cross_domain_protocol::CrossDomainFutexNew;
use crate::cross_domain::cross_domain_protocol::CrossDomainFutexSignal;
use crate::cross_domain::cross_domain_protocol::CrossDomainGetImageRequirements;
use crate::cross_domain::cross_domain_protocol::CrossDomainHeader;
use crate::cross_domain::cross_domain_protocol::CrossDomainInit;
use crate::cross_domain::cross_domain_protocol::CrossDomainReadWrite;
use crate::cross_domain::cross_domain_protocol::CrossDomainSendReceive;
use crate::cross_domain::cross_domain_protocol::CROSS_DOMAIN_CMD_FUTEX_DESTROY;
use crate::cross_domain::cross_domain_protocol::CROSS_DOMAIN_CMD_FUTEX_NEW;
use crate::cross_domain::cross_domain_protocol::CROSS_DOMAIN_CMD_FUTEX_SIGNAL;
use crate::cross_domain::cross_domain_protocol::CROSS_DOMAIN_CMD_GET_IMAGE_REQUIREMENTS;
use crate::cross_domain::cross_domain_protocol::CROSS_DOMAIN_CMD_INIT;
use crate::cross_domain::cross_domain_protocol::CROSS_DOMAIN_CMD_POLL;
use crate::cross_domain::cross_domain_protocol::CROSS_DOMAIN_CMD_SEND;
use crate::cross_domain::cross_domain_protocol::CROSS_DOMAIN_CMD_WRITE;
use crate::cross_domain::cross_domain_protocol::CROSS_DOMAIN_READ_WRITE_SIZE;
use crate::cross_domain::cross_domain_protocol::CROSS_DOMAIN_SEND_RECEIVE_SIZE;
use crate::cross_domain::futex::FutexRequest;
use crate::cross_domain::futex::FutexShutdown;
use crate::cross_domain::futex::FutexWake;
use crate::rutabaga_utils::ImageAllocationInfo;
use crate::rutabaga_utils::MesaError;
use crate::rutabaga_utils::RutabagaError;
use crate::rutabaga_utils::RutabagaResult;
use vstd::prelude::*;
use vstd::slice::slice_subrange;

verus! {

/// A command of the guest, decoded.
#[derive(Clone, Copy, Debug, PartialEq, Eq)]
pub enum CrossDomainCommand {
    Init(CrossDomainInit),
    GetImageRequirements(CrossDomainGetImageRequirements),
    Poll,
    Send(CrossDomainSendReceive),
    Write(CrossDomainReadWrite),
    FutexNew(CrossDomainFutexNew),
    FutexSignal(CrossDomainFutexSignal),
    FutexDestroy(CrossDomainFutexDestroy),
}

/// The command that a buffer begins with.
///
/// A buffer too short for the header, or for the record that the header's
/// tag announces, is `InvalidCommandBuffer`. A payload that is declared
/// longer than what follows the record is `InvalidCommandSize` with the
/// declared length. A tag that is not known is an error of its own.
pub open spec fn spec_parse_command(b: Seq<u8>) -> Result<CrossDomainCommand, RutabagaError> {
    match CrossDomainHeader::spec_decode(b) {
        None => Err(RutabagaError::InvalidCommandBuffer),
        Some(hdr) => if hdr.cmd == CROSS_DOMAIN_CMD_INIT {
            match CrossDomainInit::spec_parse(b) {
                Some(cmd_init) => Ok(CrossDomainCommand::Init(cmd_init)),
                None => Err(RutabagaError::InvalidCommandBuffer),
            }
        } else if hdr.cmd == CROSS_DOMAIN_CMD_GET_IMAGE_REQUIREMENTS {
            match CrossDomainGetImageRequirements::spec_decode(b) {
                Some(cmd_get_reqs) => Ok(CrossDomainCommand::GetImageRequirements(cmd_get_reqs)),
                None => Err(RutabagaError::InvalidCommandBuffer),
            }
        } else if hdr.cmd == CROSS_DOMAIN_CMD_SEND {
            match CrossDomainSendReceive::spec_decode(b) {
                Some(cmd_send) => if b.len() - CROSS_DOMAIN_SEND_RECEIVE_SIZE
                    < cmd_send.opaque_data_size {
                    Err(RutabagaError::InvalidCommandSize(cmd_send.opaque_data_size as usize))
                } else {
                    Ok(CrossDomainCommand::Send(cmd_send))
                },
                None => Err(RutabagaError::InvalidCommandBuffer),
            }
        } else if hdr.cmd == CROSS_DOMAIN_CMD_POLL {
            Ok(CrossDomainCommand::Poll)
        } else if hdr.cmd == CROSS_DOMAIN_CMD_WRITE {
            match CrossDomainReadWrite::spec_decode(b) {
                Some(cmd_write) => if b.len() - CROSS_DOMAIN_READ_WRITE_SIZE
                    < cmd_write.opaque_data_size {
                    Err(RutabagaError::InvalidCommandSize(cmd_write.opaque_data_size as usize))
                } else {
                    Ok(CrossDomainCommand::Write(cmd_write))
                },
                None => Err(RutabagaError::InvalidCommandBuffer),
            }
        } else if hdr.cmd == CROSS_DOMAIN_CMD_FUTEX_NEW {
            match CrossDomainFutexNew::spec_decode(b) {
                Some(cmd_futex_new) => Ok(CrossDomainCommand::FutexNew(cmd_futex_new)),
                None => Err(RutabagaError::InvalidCommandBuffer),
            }
        } else if hdr.cmd == CROSS_DOMAIN_CMD_FUTEX_SIGNAL {
            match CrossDomainFutexSignal::spec_decode(b) {
                Some(cmd_futex_signal) => Ok(CrossDomainCommand::FutexSignal(cmd_futex_signal)),
                None => Err(RutabagaError::InvalidCommandBuffer),
            }
        } else if hdr.cmd == CROSS_DOMAIN_CMD_FUTEX_DESTROY {
            match CrossDomainFutexDestroy::spec_decode(b) {
                Some(cmd_futex_destroy) => Ok(CrossDomainCommand::FutexDestroy(cmd_futex_destroy)),
                None => Err(RutabagaError::InvalidCommandBuffer),
            }
        } else {
            Err(RutabagaError::MesaError(MesaError::WithContext("invalid cross domain command")))
        },
    }
}

/// The payload of a command in the buffer that begins with it: the bytes
/// that follow the record of a SEND or a WRITE, as many as the record
/// declares; nothing if the buffer does not hold as many.
pub open spec fn spec_opaque_data(b: Seq<u8>, cmd: CrossDomainCommand) -> Seq<u8> {
    match cmd {
        CrossDomainCommand::Send(cmd_send) => if CROSS_DOMAIN_SEND_RECEIVE_SIZE
            + cmd_send.opaque_data_size <= b.len() {
            b.subrange(
                CROSS_DOMAIN_SEND_RECEIVE_SIZE as int,
                CROSS_DOMAIN_SEND_RECEIVE_SIZE + cmd_send.opaque_data_size,
            )
        } else {
            Seq::empty()
        },
        CrossDomainCommand::Write(cmd_write) => if CROSS_DOMAIN_READ_WRITE_SIZE
            + cmd_write.opaque_data_size <= b.len() {
            b.subrange(
                CROSS_DOMAIN_READ_WRITE_SIZE as int,
                CROSS_DOMAIN_READ_WRITE_SIZE + cmd_write.opaque_data_size,
            )
        } else {
            Seq::empty()
        },
        _ => Seq::empty(),
    }
}

/// What is left of a buffer after its first command: the header's size
/// says where the next command begins. A size beyond the buffer is
/// `InvalidCommandSize`, and so is a size of zero, with which the
/// dispatcher would never get on.
pub open spec fn spec_next_commands(b: Seq<u8>) -> Result<Seq<u8>, RutabagaError> {
    match CrossDomainHeader::spec_decode(b) {
        None => Err(RutabagaError::InvalidCommandBuffer),
        Some(hdr) => if hdr.cmd_size > b.len() || hdr.cmd_size == 0 {
            Err(RutabagaError::InvalidCommandSize(hdr.cmd_size as usize))
        } else {
            Ok(b.skip(hdr.cmd_size as int))
        },
    }
}

/// Decodes the command that `commands` begins with.
pub fn parse_command(commands: &[u8]) -> (r: RutabagaResult<CrossDomainCommand>)
    ensures
        r == spec_parse_command(commands@),
{
    let hdr = match CrossDomainHeader::decode(commands) {
        Some(hdr) => hdr,
        None => {
            return Err(RutabagaError::InvalidCommandBuffer);
        },
    };
    if hdr.cmd == CROSS_DOMAIN_CMD_INIT {
        match CrossDomainInit::parse(commands) {
            Some(cmd_init) => Ok(CrossDomainCommand::Init(cmd_init)),
            None => Err(RutabagaError::InvalidCommandBuffer),
        }
    } else if hdr.cmd == CROSS_DOMAIN_CMD_GET_IMAGE_REQUIREMENTS {
        match CrossDomainGetImageRequirements::decode(commands) {
            Some(cmd_get_reqs) => Ok(CrossDomainCommand::GetImageRequirements(cmd_get_reqs)),
            None => Err(RutabagaError::InvalidCommandBuffer),
        }
    } else if hdr.cmd == CROSS_DOMAIN_CMD_SEND {
        match CrossDomainSendReceive::decode(commands) {
            Some(cmd_send) => {
                if commands.len() - CROSS_DOMAIN_SEND_RECEIVE_SIZE
                    < cmd_send.opaque_data_size as usize {
                    Err(RutabagaError::InvalidCommandSize(cmd_send.opaque_data_size as usize))
                } else {
                    Ok(CrossDomainCommand::Send(cmd_send))
                }
            },
            None => Err(RutabagaError::InvalidCommandBuffer),
        }
    } else if hdr.cmd == CROSS_DOMAIN_CMD_POLL {
        // Actual polling is done when the fence that follows is created.
        Ok(CrossDomainCommand::Poll)
    } else if hdr.cmd == CROSS_DOMAIN_CMD_WRITE {
        match CrossDomainReadWrite::decode(commands) {
            Some(cmd_write) => {
                if commands.len() - CROSS_DOMAIN_READ_WRITE_SIZE
                    < cmd_write.opaque_data_size as usize {
                    Err(RutabagaError::InvalidCommandSize(cmd_write.opaque_data_size as usize))
                } else {
                    Ok(CrossDomainCommand::Write(cmd_write))
                }
            },
            None => Err(RutabagaError::InvalidCommandBuffer),
        }
    } else if hdr.cmd == CROSS_DOMAIN_CMD_FUTEX_NEW {
        match CrossDomainFutexNew::decode(commands) {
            Some(cmd_futex_new) => Ok(CrossDomainCommand::FutexNew(cmd_futex_new)),
            None => Err(RutabagaError::InvalidCommandBuffer),
        }
    } else if hdr.cmd == CROSS_DOMAIN_CMD_FUTEX_SIGNAL {
        match CrossDomainFutexSignal::decode(commands) {
            Some(cmd_futex_signal) => Ok(CrossDomainCommand::FutexSignal(cmd_futex_signal)),
            None => Err(RutabagaError::InvalidCommandBuffer),
        }
    } else if hdr.cmd == CROSS_DOMAIN_CMD_FUTEX_DESTROY {
        match CrossDomainFutexDestroy::decode(commands) {
            Some(cmd_futex_destroy) => Ok(CrossDomainCommand::FutexDestroy(cmd_futex_destroy)),
            None => Err(RutabagaError::InvalidCommandBuffer),
        }
    } else {
        Err(RutabagaError::MesaError(MesaError::WithContext("invalid cross domain command")))
    }
}

/// The payload of the command `cmd` that `commands` begins with.
pub fn opaque_data<'a>(commands: &'a [u8], cmd: &CrossDomainCommand) -> (data: &'a [u8])
    ensures
        data@ == spec_opaque_data(commands@, *cmd),
{
    let len: usize = commands.len();
    let (offset, size): (usize, usize) = match cmd {
        CrossDomainCommand::Send(cmd_send) => (
            CROSS_DOMAIN_SEND_RECEIVE_SIZE,
            cmd_send.opaque_data_size as usize,
        ),
        CrossDomainCommand::Write(cmd_write) => (
            CROSS_DOMAIN_READ_WRITE_SIZE,
            cmd_write.opaque_data_size as usize,
        ),
        _ => (0, 0),
    };
    if offset <= len && size <= len - offset {
        let data = slice_subrange(commands, offset, offset + size);
        assert(size == 0 ==> data@ =~= Seq::<u8>::empty());
        data
    } else {
        let empty = slice_subrange(commands, 0, 0);
        assert(empty@ =~= Seq::<u8>::empty());
        empty
    }
}

/// Steps over the command that `commands` begins with.
pub fn next_commands<'a>(commands: &'a [u8]) -> (r: RutabagaResult<&'a [u8]>)
    ensures
        match spec_next_commands(commands@) {
            Err(e) => r == Err::<&'a [u8], RutabagaError>(e),
            Ok(rest) => r.is_ok() && r.unwrap()@ == rest,
        },
        r.is_ok() ==> r.unwrap()@.len() < commands@.len(),
{
    let hdr = match CrossDomainHeader::decode(commands) {
        Some(hdr) => hdr,
        None => {
            return Err(RutabagaError::InvalidCommandBuffer);
        },
    };
    let cmd_size: usize = hdr.cmd_size as usize;
    if cmd_size > commands.len() || cmd_size == 0 {
        return Err(RutabagaError::InvalidCommandSize(cmd_size));
    }
    Ok(slice_subrange(commands, cmd_size, commands.len()))
}

/// What a command asks of the caller.
#[derive(Debug, PartialEq, Eq)]
pub enum CommandAction<'a> {
    /// INIT: open the channel if the action says so.
    Init(CrossDomainInit, InitAction),
    /// GET_IMAGE_REQUIREMENTS: ask the allocator, then call
    /// `get_image_requirements` with its answer and put the resulting
    /// update into the query ring.
    GetImageRequirements(ImageAllocationInfo),
    /// POLL: nothing.
    Poll,
    /// SEND: send the payload as planned, then call `send_complete`.
    Send(SendPlan, &'a [u8]),
    /// WRITE: write the payload as planned, then call `write_complete`.
    Write(WritePlan, &'a [u8]),
    /// FUTEX_NEW: open what the futex needs, then call
    /// `futex_new_complete`.
    FutexNew(FutexRequest),
    /// FUTEX_SIGNAL: wake the waiters, if there is a wake.
    FutexSignal(Option<FutexWake>),
    /// FUTEX_DESTROY: shut the futex down.
    FutexDestroy(FutexShutdown),
    /// The buffer is empty: every command has been run, and nothing is
    /// left to do.
    Done,
}

/// A [`CommandAction`] as plain values.
pub enum CommandActionView {
    Init(CrossDomainInit, InitAction),
    GetImageRequirements(ImageAllocationInfo),
    Poll,
    Send(SendPlanView, Seq<u8>),
    Write(WritePlan, Seq<u8>),
    FutexNew(FutexRequest),
    FutexSignal(Option<FutexWake>),
    FutexDestroy(FutexShutdown),
    Done,
}

impl<'a> View for CommandAction<'a> {
    type V = CommandActionView;

    open spec fn view(&self) -> CommandActionView {
        match self {
            CommandAction::Init(cmd_init, action) => CommandActionView::Init(*cmd_init, *action),
            CommandAction::GetImageRequirements(info) => CommandActionView::GetImageRequirements(
                *info,
            ),
            CommandAction::Poll => CommandActionView::Poll,
            CommandAction::Send(plan, data) => CommandActionView::Send(plan@, data@),
            CommandAction::Write(plan, data) => CommandActionView::Write(*plan, data@),
            CommandAction::FutexNew(request) => CommandActionView::FutexNew(*request),
            CommandAction::FutexSignal(wake) => CommandActionView::FutexSignal(*wake),
            CommandAction::FutexDestroy(shutdown) => CommandActionView::FutexDestroy(*shutdown),
            CommandAction::Done => CommandActionView::Done,
        }
    }
}

/// The result of a command, as plain values.
pub open spec fn spec_action_view(r: RutabagaResult<CommandAction>) -> Result<
    CommandActionView,
    RutabagaError,
> {
    match r {
        Ok(action) => Ok(action@),
        Err(e) => Err(e),
    }
}

impl CrossDomainContextView {
    /// What a buffer comes to: nothing is left to do if it is empty; else
    /// what the handler of its first command comes to, once the command has
    /// been decoded.
    pub open spec fn submit_result(self, b: Seq<u8>) -> Result<CommandActionView, RutabagaError> {
        if b.len() == 0 {
            Ok(CommandActionView::Done)
        } else {
            self.first_command_result(b)
        }
    }

    /// What the first command of a buffer comes to: what its handler comes
    /// to, once the command has been decoded.
    pub open spec fn first_command_result(self, b: Seq<u8>) -> Result<
        CommandActionView,
        RutabagaError,
    > {
        match spec_parse_command(b) {
            Err(e) => Err(e),
            Ok(cmd) => match cmd {
                CrossDomainCommand::Init(cmd_init) => match self.init_error(cmd_init) {
                    Some(e) => Err(e),
                    None => Ok(
                        CommandActionView::Init(
                            cmd_init,
                            if cmd_init.channel_type == 0 {
                                InitAction::Local
                            } else {
                                InitAction::Connect(
                                    self.paths.unwrap()@[crate::cross_domain::context::spec_first_path(
                                        self.paths.unwrap()@,
                                        cmd_init.channel_type,
                                        0,
                                    ).unwrap()].path,
                                )
                            },
                        ),
                    ),
                },
                CrossDomainCommand::GetImageRequirements(cmd_get_reqs) => Ok(
                    CommandActionView::GetImageRequirements(
                        ImageAllocationInfo {
                            width: cmd_get_reqs.width,
                            height: cmd_get_reqs.height,
                            drm_format: cmd_get_reqs.drm_format,
                            flags: cmd_get_reqs.flags,
                        },
                    ),
                ),
                CrossDomainCommand::Poll => Ok(CommandActionView::Poll),
                CrossDomainCommand::Send(cmd_send) => match self.send_result(cmd_send) {
                    Err(e) => Err(e),
                    Ok(plan) => Ok(CommandActionView::Send(plan, spec_opaque_data(b, cmd))),
                },
                CrossDomainCommand::Write(cmd_write) => match self.write_result(cmd_write) {
                    Err(e) => Err(e),
                    Ok(plan) => Ok(CommandActionView::Write(plan, spec_opaque_data(b, cmd))),
                },
                CrossDomainCommand::FutexNew(cmd_futex_new) => match self.futex_new_result(
                    cmd_futex_new,
                ) {
                    Err(e) => Err(e),
                    Ok(request) => Ok(CommandActionView::FutexNew(request)),
                },
                CrossDomainCommand::FutexSignal(cmd_futex_signal) => match self.futex_signal_result(
                    cmd_futex_signal,
                ) {
                    Err(e) => Err(e),
                    Ok(wake) => Ok(CommandActionView::FutexSignal(wake)),
                },
                CrossDomainCommand::FutexDestroy(cmd_futex_destroy) => match self.futex_destroy_result(
                    cmd_futex_destroy,
                ) {
                    Err(e) => Err(e),
                    Ok(shutdown) => Ok(CommandActionView::FutexDestroy(shutdown)),
                },
            },
        }
    }

    /// Where the first command of a buffer leaves the context: where its
    /// handler leaves it; a buffer that is empty or does not decode changes
    /// nothing.
    pub open spec fn after_submit(self, b: Seq<u8>) -> CrossDomainContextView {
        match spec_parse_command(b) {
            Err(_) => self,
            Ok(cmd) => match cmd {
                CrossDomainCommand::Init(cmd_init) => self.after_init(cmd_init),
                CrossDomainCommand::Send(cmd_send) => self.after_send(cmd_send),
                CrossDomainCommand::Write(cmd_write) => self.after_write(cmd_write),
                CrossDomainCommand::FutexDestroy(cmd_futex_destroy) => self.after_futex_destroy(
                    cmd_futex_destroy,
                ),
                _ => self,
            },
        }
    }
}

impl CrossDomainContext {
    /// Decodes the command that `commands` begins with and runs its first
    /// step. The result says what the command asks of the caller. An empty
    /// buffer holds no command: nothing is left to do, which is no error,
    /// and the context stays as it is.
    pub fn submit_cmd<'a>(&mut self, commands: &'a [u8]) -> (r: RutabagaResult<CommandAction<'a>>)
        ensures
            final(self)@ == old(self)@.after_submit(commands@),
            spec_action_view(r) == old(self)@.submit_result(commands@),
    {
        if commands.len() == 0 {
            return Ok(CommandAction::Done);
        }
        let cmd = parse_command(commands)?;
        match cmd {
            CrossDomainCommand::Init(cmd_init) => {
                let action = self.initialize(&cmd_init)?;
                Ok(CommandAction::Init(cmd_init, action))
            },
            CrossDomainCommand::GetImageRequirements(cmd_get_reqs) => Ok(
                CommandAction::GetImageRequirements(image_allocation_info(&cmd_get_reqs)),
            ),
            CrossDomainCommand::Poll => Ok(CommandAction::Poll),
            CrossDomainCommand::Send(cmd_send) => {
                let data = opaque_data(commands, &cmd);
                let plan = self.send(&cmd_send)?;
                Ok(CommandAction::Send(plan, data))
            },
            CrossDomainCommand::Write(cmd_write) => {
                let data = opaque_data(commands, &cmd);
                let plan = self.write(&cmd_write)?;
                Ok(CommandAction::Write(plan, data))
            },
            CrossDomainCommand::FutexNew(cmd_futex_new) => {
                let request = self.futex_new(&cmd_futex_new)?;
                Ok(CommandAction::FutexNew(request))
            },
            CrossDomainCommand::FutexSignal(cmd_futex_signal) => {
                let wake = self.futex_signal(&cmd_futex_signal)?;
                Ok(CommandAction::FutexSignal(wake))
            },
            CrossDomainCommand::FutexDestroy(cmd_futex_destroy) => {
                let shutdown = self.futex_destroy(&cmd_futex_destroy)?;
                Ok(CommandAction::FutexDestroy(shutdown))
            },
        }
    }
}

/// A legacy INIT means what the full INIT with the query ring in both
/// places means: the two leave the context in the same state, fail with the
/// same error or ask the same of the caller, and the commands that they
/// decode to name the same rings and the same channel type.
pub proof fn lemma_legacy_init_equivalent(
    ctx: CrossDomainContextView,
    legacy: Seq<u8>,
    full: Seq<u8>,
)
    requires
        16 <= legacy.len() < 20,
        full.len() >= 20,
        spec_u32_at(legacy, 0) == CROSS_DOMAIN_CMD_INIT,
        spec_u32_at(full, 0) == CROSS_DOMAIN_CMD_INIT,
        spec_u32_at(full, 8) == spec_u32_at(legacy, 8),
        spec_u32_at(full, 12) == spec_u32_at(legacy, 8),
        spec_u32_at(full, 16) == spec_u32_at(legacy, 12),
    ensures
        ctx.after_submit(legacy) == ctx.after_submit(full),
        match (ctx.submit_result(legacy), ctx.submit_result(full)) {
            (Err(a), Err(b)) => a == b,
            (
                Ok(CommandActionView::Init(cmd_legacy, action_legacy)),
                Ok(CommandActionView::Init(cmd_full, action_full)),
            ) => action_legacy == action_full && cmd_legacy.query_ring_id == cmd_full.query_ring_id
                && cmd_legacy.channel_ring_id == cmd_full.channel_ring_id
                && cmd_legacy.channel_type == cmd_full.channel_type && cmd_legacy.channel_ring_id
                == cmd_legacy.query_ring_id,
            _ => false,
        },
{
}

} // verus!
