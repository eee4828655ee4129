//! Ring output: what the host places into guest-visible memory.
//!
//! A ring is a guest resource with memory attached. A record goes to the
//! start of the first region of that memory and must fit there whole, its
//! payload included. Nothing is written here: the result says which bytes
//! belong where, and the caller, who can reach guest memory, puts them there.

use crate::context_common::ContextResource;
use crate::context_common::ContextResources;
use crate::cross_domain::cross_domain_protocol::CrossDomainReadWrite;
use crate::cross_domain::cross_domain_protocol::CROSS_DOMAIN_READ_WRITE_SIZE;
use crate::rutabaga_utils::MesaError;
use crate::rutabaga_utils::RutabagaError;
use crate::rutabaga_utils::RutabagaIovec;
use crate::rutabaga_utils::RutabagaResult;
use vstd::prelude::*;

verus! {

/// Bytes for the start of a region of guest memory.
#[derive(Debug, PartialEq, Eq)]
pub struct RingUpdate {
    /// The ring's resource.
    pub resource_id: u32,
    /// The region: the first one of the resource's memory.
    pub iovec: RutabagaIovec,
    /// What goes to the start of the region. It is no longer than the region.
    pub data: Vec<u8>,
}

/// A [`RingUpdate`] as plain values.
pub struct RingUpdateView {
    pub resource_id: u32,
    pub iovec: RutabagaIovec,
    pub data: Seq<u8>,
}

impl View for RingUpdate {
    type V = RingUpdateView;

    open spec fn view(&self) -> RingUpdateView {
        RingUpdateView { resource_id: self.resource_id, iovec: self.iovec, data: self.data@ }
    }
}

/// The result of preparing a ring write, as plain values.
pub open spec fn spec_update_view(r: RutabagaResult<RingUpdate>) -> Result<
    RingUpdateView,
    RutabagaError,
> {
    match r {
        Ok(update) => Ok(update@),
        Err(e) => Err(e),
    }
}

/// What is to be written to a ring.
pub enum RingWrite<'a> {
    /// An encoded record and the payload that follows it, if any.
    Write(&'a [u8], Option<&'a [u8]>),
    /// A READ record and what was read from the pipe: `None` when the pipe
    /// was not readable and nothing was read.
    WriteFromPipe(CrossDomainReadWrite, Option<&'a [u8]>),
}

/// Where a ring's records go: the first region of the resource's memory.
/// A resource that is not known is `InvalidResourceId`; one without memory,
/// or with an empty list of regions, is `InvalidIovec`.
pub open spec fn spec_ring_iovec(resources: Map<u32, ContextResource>, ring_id: u32) -> Result<
    RutabagaIovec,
    RutabagaError,
> {
    if !resources.contains_key(ring_id) {
        Err(RutabagaError::InvalidResourceId)
    } else {
        match resources[ring_id].backing_iovecs {
            None => Err(RutabagaError::InvalidIovec),
            Some(iovecs) => if iovecs@.len() == 0 {
                Err(RutabagaError::InvalidIovec)
            } else {
                Ok(iovecs@[0])
            },
        }
    }
}

/// The bytes that a record and its payload put into a region of `len` bytes:
/// the record, then the payload. Either one not fitting is `InvalidIovec`.
pub open spec fn spec_record_bytes(len: usize, cmd: Seq<u8>, opaque: Option<Seq<u8>>) -> Result<
    Seq<u8>,
    RutabagaError,
> {
    if len < cmd.len() {
        Err(RutabagaError::InvalidIovec)
    } else {
        match opaque {
            None => Ok(cmd),
            Some(data) => if len - cmd.len() < data.len() {
                Err(RutabagaError::InvalidIovec)
            } else {
                Ok(cmd + data)
            },
        }
    }
}

/// How many bytes were read from a pipe.
pub open spec fn spec_bytes_read(data: Option<Seq<u8>>) -> nat {
    match data {
        None => 0,
        Some(bytes) => bytes.len(),
    }
}

/// The READ record for what was read from a pipe: the size is the number of
/// bytes read.
pub open spec fn spec_read_record(cmd_read: CrossDomainReadWrite, data: Option<Seq<u8>>)
    -> CrossDomainReadWrite {
    CrossDomainReadWrite { opaque_data_size: spec_bytes_read(data) as u32, ..cmd_read }
}

/// The bytes that a READ record and what was read put into a region of `len`
/// bytes. A region too small for the record or for what was read is
/// `InvalidIovec`; more bytes than a 32-bit size can say is `TryFromIntError`.
pub open spec fn spec_pipe_record_bytes(
    len: usize,
    cmd_read: CrossDomainReadWrite,
    data: Option<Seq<u8>>,
) -> Result<Seq<u8>, RutabagaError> {
    if len < CROSS_DOMAIN_READ_WRITE_SIZE {
        Err(RutabagaError::InvalidIovec)
    } else if len - CROSS_DOMAIN_READ_WRITE_SIZE < spec_bytes_read(data) {
        Err(RutabagaError::InvalidIovec)
    } else if spec_bytes_read(data) > u32::MAX {
        Err(RutabagaError::MesaError(MesaError::TryFromIntError))
    } else {
        Ok(
            spec_read_record(cmd_read, data).spec_encode() + match data {
                None => Seq::<u8>::empty(),
                Some(bytes) => bytes,
            },
        )
    }
}

impl<'a> RingWrite<'a> {
    /// The bytes that this write puts into a region of `len` bytes.
    pub open spec fn spec_bytes(self, len: usize) -> Result<Seq<u8>, RutabagaError> {
        match self {
            RingWrite::Write(cmd, opaque) => spec_record_bytes(
                len,
                cmd@,
                match opaque {
                    None => None,
                    Some(data) => Some(data@),
                },
            ),
            RingWrite::WriteFromPipe(cmd_read, data) => spec_pipe_record_bytes(
                len,
                cmd_read,
                match data {
                    None => None,
                    Some(bytes) => Some(bytes@),
                },
            ),
        }
    }

    /// How many bytes from a pipe this write carries.
    pub open spec fn spec_bytes_read(self) -> nat {
        match self {
            RingWrite::Write(_, _) => 0,
            RingWrite::WriteFromPipe(_, None) => 0,
            RingWrite::WriteFromPipe(_, Some(bytes)) => bytes@.len(),
        }
    }
}

/// What writing to ring `ring_id` comes to: the update for the ring's first
/// region and the number of bytes that came from a pipe, or the error that
/// stops the write before anything is written.
pub open spec fn spec_write_to_ring(
    resources: Map<u32, ContextResource>,
    ring_write: RingWrite,
    ring_id: u32,
) -> Result<(RingUpdateView, nat), RutabagaError> {
    match spec_ring_iovec(resources, ring_id) {
        Err(e) => Err(e),
        Ok(iovec) => match ring_write.spec_bytes(iovec.len) {
            Err(e) => Err(e),
            Ok(data) => Ok(
                (
                    RingUpdateView { resource_id: ring_id, iovec, data },
                    ring_write.spec_bytes_read(),
                ),
            ),
        },
    }
}

/// What writing a record and its payload to ring `ring_id` comes to.
pub open spec fn spec_ring_record(
    resources: Map<u32, ContextResource>,
    ring_id: u32,
    cmd: Seq<u8>,
    opaque: Option<Seq<u8>>,
) -> Result<RingUpdateView, RutabagaError> {
    match spec_ring_iovec(resources, ring_id) {
        Err(e) => Err(e),
        Ok(iovec) => match spec_record_bytes(iovec.len, cmd, opaque) {
            Err(e) => Err(e),
            Ok(data) => Ok(RingUpdateView { resource_id: ring_id, iovec, data }),
        },
    }
}

/// What writing a READ record and what was read from the pipe to ring
/// `ring_id` comes to.
pub open spec fn spec_ring_pipe_record(
    resources: Map<u32, ContextResource>,
    ring_id: u32,
    cmd_read: CrossDomainReadWrite,
    data: Option<Seq<u8>>,
) -> Result<RingUpdateView, RutabagaError> {
    match spec_ring_iovec(resources, ring_id) {
        Err(e) => Err(e),
        Ok(iovec) => match spec_pipe_record_bytes(iovec.len, cmd_read, data) {
            Err(e) => Err(e),
            Ok(bytes) => Ok(RingUpdateView { resource_id: ring_id, iovec, data: bytes }),
        },
    }
}

/// Appends `bytes` to `out`.
pub fn append_bytes(out: &mut Vec<u8>, bytes: &[u8])
    ensures
        final(out)@ == old(out)@ + bytes@,
{
    let n: usize = bytes.len();
    let mut i: usize = 0;
    while i < n
        invariant
            n == bytes@.len(),
            i <= n,
            out@ == old(out)@ + bytes@.take(i as int),
        decreases n - i,
    {
        out.push(bytes[i]);
        i += 1;
        assert(out@ =~= old(out)@ + bytes@.take(i as int));
    }
    assert(bytes@.take(n as int) =~= bytes@);
}

/// Finds the first region of the memory of ring `ring_id`.
pub fn ring_iovec(resources: &ContextResources, ring_id: u32) -> (r: RutabagaResult<RutabagaIovec>)
    ensures
        r == spec_ring_iovec(resources@, ring_id),
{
    broadcast use vstd::std_specs::btree::group_btree_axioms;

    match resources.get(&ring_id) {
        None => Err(RutabagaError::InvalidResourceId),
        Some(resource) => match &resource.backing_iovecs {
            None => Err(RutabagaError::InvalidIovec),
            Some(iovecs) => {
                if iovecs.len() == 0 {
                    Err(RutabagaError::InvalidIovec)
                } else {
                    Ok(iovecs[0])
                }
            },
        },
    }
}

/// How many bytes a READ record for ring `ring_id` can carry: what the
/// ring's first region has left after the record itself.
pub fn pipe_read_capacity(resources: &ContextResources, ring_id: u32) -> (r: RutabagaResult<usize>)
    ensures
        r == match spec_ring_iovec(resources@, ring_id) {
            Err(e) => Err::<usize, RutabagaError>(e),
            Ok(iovec) => if iovec.len < CROSS_DOMAIN_READ_WRITE_SIZE {
                Err::<usize, RutabagaError>(RutabagaError::InvalidIovec)
            } else {
                Ok::<usize, RutabagaError>((iovec.len - CROSS_DOMAIN_READ_WRITE_SIZE) as usize)
            },
        },
{
    match ring_iovec(resources, ring_id) {
        Err(e) => Err(e),
        Ok(iovec) => {
            if iovec.len < CROSS_DOMAIN_READ_WRITE_SIZE {
                Err(RutabagaError::InvalidIovec)
            } else {
                Ok(iovec.len - CROSS_DOMAIN_READ_WRITE_SIZE)
            }
        },
    }
}

/// Prepares a write to ring `ring_id`.
///
/// On success the update holds the record followed by its payload, for the
/// start of the ring's first region, and the second result is the number of
/// bytes that came from a pipe. Every check is made before the update
/// exists: an error means that the ring is to be left untouched.
pub fn write_to_ring(resources: &ContextResources, ring_write: RingWrite, ring_id: u32) -> (r:
    RutabagaResult<(RingUpdate, usize)>)
    ensures
        match spec_write_to_ring(resources@, ring_write, ring_id) {
            Err(e) => r == Err::<(RingUpdate, usize), RutabagaError>(e),
            Ok((update, bytes_read)) => r.is_ok() && r.unwrap().0@ == update && r.unwrap().1
                == bytes_read && update.data.len() <= update.iovec.len,
        },
{
    let iovec = match ring_iovec(resources, ring_id) {
        Err(e) => {
            return Err(e);
        },
        Ok(iovec) => iovec,
    };
    let mut data: Vec<u8> = Vec::new();
    let mut bytes_read: usize = 0;
    match ring_write {
        RingWrite::Write(cmd, opaque_data_opt) => {
            if iovec.len < cmd.len() {
                return Err(RutabagaError::InvalidIovec);
            }
            if let Some(opaque_data) = opaque_data_opt {
                if iovec.len - cmd.len() < opaque_data.len() {
                    return Err(RutabagaError::InvalidIovec);
                }
            }
            append_bytes(&mut data, cmd);
            if let Some(opaque_data) = opaque_data_opt {
                append_bytes(&mut data, opaque_data);
            }
            assert(data@ =~= spec_record_bytes(
                iovec.len,
                cmd@,
                match opaque_data_opt {
                    None => None,
                    Some(d) => Some(d@),
                },
            ).unwrap());
        },
        RingWrite::WriteFromPipe(cmd_read, read_opt) => {
            let mut cmd_read = cmd_read;
            if iovec.len < CROSS_DOMAIN_READ_WRITE_SIZE {
                return Err(RutabagaError::InvalidIovec);
            }
            if let Some(bytes) = read_opt {
                bytes_read = bytes.len();
            }
            if iovec.len - CROSS_DOMAIN_READ_WRITE_SIZE < bytes_read {
                return Err(RutabagaError::InvalidIovec);
            }
            if bytes_read > u32::MAX as usize {
                return Err(RutabagaError::MesaError(MesaError::TryFromIntError));
            }
            cmd_read.opaque_data_size = bytes_read as u32;
            let ghost read_view: Option<Seq<u8>> = match read_opt {
                None => None,
                Some(b) => Some(b@),
            };
            assert(cmd_read == spec_read_record(ring_write->WriteFromPipe_0, read_view));
            let record = cmd_read.encode();
            append_bytes(&mut data, record.as_slice());
            if let Some(bytes) = read_opt {
                append_bytes(&mut data, bytes);
            }
            assert(data@ =~= spec_pipe_record_bytes(
                iovec.len,
                ring_write->WriteFromPipe_0,
                read_view,
            ).unwrap());
        },
    }
    Ok((RingUpdate { resource_id: ring_id, iovec, data }, bytes_read))
}

impl RingUpdate {
    /// A region after the update has been applied to it: the update's bytes,
    /// then what the region held beyond them.
    pub open spec fn spec_applied(data: Seq<u8>, region: Seq<u8>) -> Seq<u8> {
        data + region.skip(data.len() as int)
    }

    /// Applies the update to the region that it is meant for. A region
    /// shorter than the update is left as it is, and the result is `false`.
    pub fn apply(&self, region: &mut [u8]) -> (applied: bool)
        ensures
            applied == (self.data@.len() <= old(region)@.len()),
            final(region)@ == if applied {
                Self::spec_applied(self.data@, old(region)@)
            } else {
                old(region)@
            },
    {
        let n: usize = self.data.len();
        if n > region.len() {
            return false;
        }
        let mut i: usize = 0;
        while i < n
            invariant
                n == self.data@.len(),
                i <= n,
                n <= region@.len(),
                region@.len() == old(region)@.len(),
                region@ == self.data@.take(i as int) + old(region)@.skip(i as int),
            decreases n - i,
        {
            region[i] = self.data[i];
            i += 1;
            assert(region@ =~= self.data@.take(i as int) + old(region)@.skip(i as int));
        }
        assert(self.data@.take(n as int) =~= self.data@);
        true
    }
}

} // verus!
