//! The wire format that guest and host share: command tags, identifier
//! types, and the fixed-layout records that precede every payload.
//!
//! All integers are little-endian. A record is the concatenation of its
//! fields in declaration order, without gaps other than the padding fields
//! that are named here.

use vstd::prelude::*;

verus! {

/// Initialize the context.
pub const CROSS_DOMAIN_CMD_INIT: u32 = 1;
/// Ask the allocator what an image needs.
pub const CROSS_DOMAIN_CMD_GET_IMAGE_REQUIREMENTS: u32 = 2;
/// Produce a fence and nothing else.
pub const CROSS_DOMAIN_CMD_POLL: u32 = 3;
/// Guest to host: payload and identifiers for the stream socket.
pub const CROSS_DOMAIN_CMD_SEND: u32 = 4;
/// Host to guest: payload and identifiers from the stream socket.
pub const CROSS_DOMAIN_CMD_RECEIVE: u32 = 5;
/// Host to guest: bytes read from a pipe.
pub const CROSS_DOMAIN_CMD_READ: u32 = 6;
/// Guest to host: bytes to write to a pipe.
pub const CROSS_DOMAIN_CMD_WRITE: u32 = 7;
/// Bind a futex.
pub const CROSS_DOMAIN_CMD_FUTEX_NEW: u32 = 8;
/// Wake the waiters of a futex; also the host's notice that one was woken.
pub const CROSS_DOMAIN_CMD_FUTEX_SIGNAL: u32 = 9;
/// Unbind a futex.
pub const CROSS_DOMAIN_CMD_FUTEX_DESTROY: u32 = 10;

/// Channel to a Wayland compositor.
pub const CROSS_DOMAIN_CHANNEL_TYPE_WAYLAND: u32 = 0x0001;
/// Channel to a camera service.
pub const CROSS_DOMAIN_CHANNEL_TYPE_CAMERA: u32 = 0x0002;

/// How many identifiers one message can carry.
pub const CROSS_DOMAIN_MAX_IDENTIFIERS: usize = 4;

/// The identifier names a guest resource backed by memory.
pub const CROSS_DOMAIN_ID_TYPE_VIRTGPU_BLOB: u32 = 1;
/// The identifier names a guest synchronization resource.
pub const CROSS_DOMAIN_ID_TYPE_VIRTGPU_SYNC: u32 = 2;
/// The identifier names a pipe whose guest side reads.
pub const CROSS_DOMAIN_ID_TYPE_READ_PIPE: u32 = 3;
/// The identifier names a pipe whose guest side writes.
pub const CROSS_DOMAIN_ID_TYPE_WRITE_PIPE: u32 = 4;

/// No ring.
pub const CROSS_DOMAIN_RING_NONE: u32 = 0xffff_ffff;
/// The ring for synchronous queries.
pub const CROSS_DOMAIN_QUERY_RING: u32 = 0;
/// The ring for traffic the host starts.
pub const CROSS_DOMAIN_CHANNEL_RING: u32 = 1;

/// The names under which the events of futexes are watched lie from here
/// up to, and not including, `CROSS_DOMAIN_PIPE_READ_START`. Identifiers
/// of items that are no read pipes stay below.
pub const CROSS_DOMAIN_FUTEX_START: u32 = 0x4000_0000;
/// Read-pipe identifiers lie above this value.
pub const CROSS_DOMAIN_PIPE_READ_START: u32 = 0x8000_0000;

/// Size in bytes of an encoded [`CrossDomainHeader`].
pub const CROSS_DOMAIN_HEADER_SIZE: usize = 8;
/// Size in bytes of an encoded [`CrossDomainInit`].
pub const CROSS_DOMAIN_INIT_SIZE: usize = 20;
/// Size in bytes of an encoded [`CrossDomainInitLegacy`].
pub const CROSS_DOMAIN_INIT_LEGACY_SIZE: usize = 16;
/// Size in bytes of an encoded [`CrossDomainGetImageRequirements`].
pub const CROSS_DOMAIN_GET_IMAGE_REQUIREMENTS_SIZE: usize = 24;
/// Size in bytes of an encoded [`CrossDomainImageRequirements`].
pub const CROSS_DOMAIN_IMAGE_REQUIREMENTS_SIZE: usize = 64;
/// Size in bytes of an encoded [`CrossDomainSendReceive`].
pub const CROSS_DOMAIN_SEND_RECEIVE_SIZE: usize = 64;
/// Size in bytes of an encoded [`CrossDomainReadWrite`].
pub const CROSS_DOMAIN_READ_WRITE_SIZE: usize = 20;
/// Size in bytes of an encoded [`CrossDomainFutexNew`].
pub const CROSS_DOMAIN_FUTEX_NEW_SIZE: usize = 32;
/// Size in bytes of an encoded [`CrossDomainFutexSignal`].
pub const CROSS_DOMAIN_FUTEX_SIGNAL_SIZE: usize = 12;
/// Size in bytes of an encoded [`CrossDomainFutexDestroy`].
pub const CROSS_DOMAIN_FUTEX_DESTROY_SIZE: usize = 12;
/// Size in bytes of an encoded [`CrossDomainCapabilities`].
pub const CROSS_DOMAIN_CAPABILITIES_SIZE: usize = 12;

/// The 32-bit integer whose little-endian encoding starts at `off` in `b`.
pub open spec fn spec_u32_at(b: Seq<u8>, off: int) -> u32 {
    (b[off] as int + 256 * (b[off + 1] as int) + 65536 * (b[off + 2] as int) + 16777216 * (b[off
        + 3] as int)) as u32
}

/// The 64-bit integer whose little-endian encoding starts at `off` in `b`.
pub open spec fn spec_u64_at(b: Seq<u8>, off: int) -> u64 {
    (spec_u32_at(b, off) as int + 4294967296 * (spec_u32_at(b, off + 4) as int)) as u64
}

/// The little-endian encoding of a 32-bit integer.
pub open spec fn spec_u32_le(x: u32) -> Seq<u8> {
    seq![
        (x % 256) as u8,
        ((x / 256) % 256) as u8,
        ((x / 65536) % 256) as u8,
        ((x / 16777216) % 256) as u8,
    ]
}

/// The little-endian encoding of a 64-bit integer.
pub open spec fn spec_u64_le(x: u64) -> Seq<u8> {
    spec_u32_le((x % 4294967296) as u32) + spec_u32_le((x / 4294967296) as u32)
}

/// The little-endian encoding of four 32-bit integers in a row.
pub open spec fn spec_u32x4_le(a: [u32; 4]) -> Seq<u8> {
    spec_u32_le(a[0]) + spec_u32_le(a[1]) + spec_u32_le(a[2]) + spec_u32_le(a[3])
}

/// The four 32-bit integers encoded in a row from `off` on in `b`.
pub open spec fn spec_u32x4_at(b: Seq<u8>, off: int) -> [u32; 4] {
    [spec_u32_at(b, off), spec_u32_at(b, off + 4), spec_u32_at(b, off + 8), spec_u32_at(b, off + 12)]
}

/// Reads a little-endian 32-bit integer at `off`.
pub fn read_u32(bytes: &[u8], off: usize) -> (x: u32)
    requires
        off + 4 <= bytes@.len(),
    ensures
        x == spec_u32_at(bytes@, off as int),
{
    let b0: u32 = bytes[off] as u32;
    let b1: u32 = bytes[off + 1] as u32;
    let b2: u32 = bytes[off + 2] as u32;
    let b3: u32 = bytes[off + 3] as u32;
    b0 + 256 * b1 + 65536 * b2 + 16777216 * b3
}

/// Reads a little-endian 64-bit integer at `off`.
pub fn read_u64(bytes: &[u8], off: usize) -> (x: u64)
    requires
        off + 8 <= bytes@.len(),
    ensures
        x == spec_u64_at(bytes@, off as int),
{
    let n: usize = bytes.len();
    let lo: u64 = read_u32(bytes, off) as u64;
    let hi: u64 = read_u32(bytes, off + 4) as u64;
    lo + 4294967296 * hi
}

/// Reads four little-endian 32-bit integers in a row from `off` on.
pub fn read_u32x4(bytes: &[u8], off: usize) -> (a: [u32; 4])
    requires
        off + 16 <= bytes@.len(),
    ensures
        a == spec_u32x4_at(bytes@, off as int),
{
    let n: usize = bytes.len();
    let a = [
        read_u32(bytes, off),
        read_u32(bytes, off + 4),
        read_u32(bytes, off + 8),
        read_u32(bytes, off + 12),
    ];
    assert(a@ =~= spec_u32x4_at(bytes@, off as int)@);
    a
}

/// Appends the little-endian encoding of a 32-bit integer.
pub fn push_u32(out: &mut Vec<u8>, x: u32)
    ensures
        final(out)@ == old(out)@ + spec_u32_le(x),
{
    out.push((x % 256) as u8);
    out.push(((x / 256) % 256) as u8);
    out.push(((x / 65536) % 256) as u8);
    out.push(((x / 16777216) % 256) as u8);
    assert(out@ =~= old(out)@ + spec_u32_le(x));
}

/// Appends the little-endian encoding of a 64-bit integer.
pub fn push_u64(out: &mut Vec<u8>, x: u64)
    ensures
        final(out)@ == old(out)@ + spec_u64_le(x),
{
    push_u32(out, (x % 4294967296) as u32);
    push_u32(out, (x / 4294967296) as u32);
    assert(out@ =~= old(out)@ + spec_u64_le(x));
}

/// Appends the little-endian encoding of four 32-bit integers.
pub fn push_u32x4(out: &mut Vec<u8>, a: &[u32; 4])
    ensures
        final(out)@ == old(out)@ + spec_u32x4_le(*a),
{
    push_u32(out, a[0]);
    push_u32(out, a[1]);
    push_u32(out, a[2]);
    push_u32(out, a[3]);
    assert(out@ =~= old(out)@ + spec_u32x4_le(*a));
}

/// What every command begins with: its tag and its length in bytes, payload
/// included.
#[derive(Clone, Copy, Debug, PartialEq, Eq, Structural)]
pub struct CrossDomainHeader {
    pub cmd: u32,
    pub cmd_size: u32,
}

impl CrossDomainHeader {
    /// The header that `b` begins with, if `b` is long enough to hold one.
    pub open spec fn spec_decode(b: Seq<u8>) -> Option<CrossDomainHeader> {
        if b.len() >= CROSS_DOMAIN_HEADER_SIZE {
            Some(CrossDomainHeader { cmd: spec_u32_at(b, 0), cmd_size: spec_u32_at(b, 4) })
        } else {
            None
        }
    }

    /// The eight bytes of the header.
    pub open spec fn spec_encode(self) -> Seq<u8> {
        Seq::<u8>::empty() + spec_u32_le(self.cmd) + spec_u32_le(self.cmd_size)
    }

    /// Decodes the header at the start of `bytes`.
    pub fn decode(bytes: &[u8]) -> (r: Option<CrossDomainHeader>)
        ensures
            r == Self::spec_decode(bytes@),
    {
        if bytes.len() < CROSS_DOMAIN_HEADER_SIZE {
            return None;
        }
        Some(CrossDomainHeader { cmd: read_u32(bytes, 0), cmd_size: read_u32(bytes, 4) })
    }

    /// Appends the header to `out`.
    pub fn encode_into(&self, out: &mut Vec<u8>)
        ensures
            final(out)@ == old(out)@ + self.spec_encode(),
    {
        push_u32(out, self.cmd);
        push_u32(out, self.cmd_size);
        assert(out@ =~= old(out)@ + self.spec_encode());
    }
}

/// INIT: which resources serve as rings and which channel to open.
#[derive(Clone, Copy, Debug, PartialEq, Eq, Structural)]
pub struct CrossDomainInit {
    pub hdr: CrossDomainHeader,
    pub query_ring_id: u32,
    pub channel_ring_id: u32,
    pub channel_type: u32,
}

/// INIT as older guests send it: one ring serves both purposes.
#[derive(Clone, Copy, Debug, PartialEq, Eq, Structural)]
pub struct CrossDomainInitLegacy {
    pub hdr: CrossDomainHeader,
    pub query_ring_id: u32,
    pub channel_type: u32,
}

impl CrossDomainInitLegacy {
    /// The legacy form that `b` begins with, if `b` is long enough.
    pub open spec fn spec_decode(b: Seq<u8>) -> Option<CrossDomainInitLegacy> {
        if b.len() >= CROSS_DOMAIN_INIT_LEGACY_SIZE {
            Some(
                CrossDomainInitLegacy {
                    hdr: CrossDomainHeader::spec_decode(b).unwrap(),
                    query_ring_id: spec_u32_at(b, 8),
                    channel_type: spec_u32_at(b, 12),
                },
            )
        } else {
            None
        }
    }

    /// The full form that means the same: the query ring doubles as the
    /// channel ring.
    pub open spec fn spec_upgrade(self) -> CrossDomainInit {
        CrossDomainInit {
            hdr: self.hdr,
            query_ring_id: self.query_ring_id,
            channel_ring_id: self.query_ring_id,
            channel_type: self.channel_type,
        }
    }

    /// The sixteen bytes of the record.
    pub open spec fn spec_encode(self) -> Seq<u8> {
        self.hdr.spec_encode() + spec_u32_le(self.query_ring_id) + spec_u32_le(self.channel_type)
    }

    /// Decodes the legacy form at the start of `bytes`.
    pub fn decode(bytes: &[u8]) -> (r: Option<CrossDomainInitLegacy>)
        ensures
            r == Self::spec_decode(bytes@),
    {
        if bytes.len() < CROSS_DOMAIN_INIT_LEGACY_SIZE {
            return None;
        }
        Some(
            CrossDomainInitLegacy {
                hdr: CrossDomainHeader { cmd: read_u32(bytes, 0), cmd_size: read_u32(bytes, 4) },
                query_ring_id: read_u32(bytes, 8),
                channel_type: read_u32(bytes, 12),
            },
        )
    }

    /// The full form that means the same.
    pub fn upgrade(self) -> (r: CrossDomainInit)
        ensures
            r == self.spec_upgrade(),
    {
        CrossDomainInit {
            hdr: self.hdr,
            query_ring_id: self.query_ring_id,
            channel_ring_id: self.query_ring_id,
            channel_type: self.channel_type,
        }
    }
}

impl CrossDomainInit {
    /// The full form that `b` begins with, if `b` is long enough.
    pub open spec fn spec_decode(b: Seq<u8>) -> Option<CrossDomainInit> {
        if b.len() >= CROSS_DOMAIN_INIT_SIZE {
            Some(
                CrossDomainInit {
                    hdr: CrossDomainHeader::spec_decode(b).unwrap(),
                    query_ring_id: spec_u32_at(b, 8),
                    channel_ring_id: spec_u32_at(b, 12),
                    channel_type: spec_u32_at(b, 16),
                },
            )
        } else {
            None
        }
    }

    /// What an INIT command means: the full form where the buffer holds one,
    /// else the legacy form upgraded, else nothing.
    pub open spec fn spec_parse(b: Seq<u8>) -> Option<CrossDomainInit> {
        if b.len() >= CROSS_DOMAIN_INIT_SIZE {
            Self::spec_decode(b)
        } else {
            match CrossDomainInitLegacy::spec_decode(b) {
                Some(legacy) => Some(legacy.spec_upgrade()),
                None => None,
            }
        }
    }

    /// The twenty bytes of the record.
    pub open spec fn spec_encode(self) -> Seq<u8> {
        self.hdr.spec_encode() + spec_u32_le(self.query_ring_id) + spec_u32_le(
            self.channel_ring_id,
        ) + spec_u32_le(self.channel_type)
    }

    /// Decodes the full form at the start of `bytes`.
    pub fn decode(bytes: &[u8]) -> (r: Option<CrossDomainInit>)
        ensures
            r == Self::spec_decode(bytes@),
    {
        if bytes.len() < CROSS_DOMAIN_INIT_SIZE {
            return None;
        }
        Some(
            CrossDomainInit {
                hdr: CrossDomainHeader { cmd: read_u32(bytes, 0), cmd_size: read_u32(bytes, 4) },
                query_ring_id: read_u32(bytes, 8),
                channel_ring_id: read_u32(bytes, 12),
                channel_type: read_u32(bytes, 16),
            },
        )
    }

    /// Reads an INIT command in either form, preferring the full one.
    pub fn parse(bytes: &[u8]) -> (r: Option<CrossDomainInit>)
        ensures
            r == Self::spec_parse(bytes@),
    {
        match CrossDomainInit::decode(bytes) {
            Some(cmd_init) => Some(cmd_init),
            None => match CrossDomainInitLegacy::decode(bytes) {
                Some(legacy) => Some(legacy.upgrade()),
                None => None,
            },
        }
    }
}

/// GET_IMAGE_REQUIREMENTS: the image the guest wants laid out.
#[derive(Clone, Copy, Debug, PartialEq, Eq, Structural)]
pub struct CrossDomainGetImageRequirements {
    pub hdr: CrossDomainHeader,
    pub width: u32,
    pub height: u32,
    pub drm_format: u32,
    pub flags: u32,
}

impl CrossDomainGetImageRequirements {
    /// The record that `b` begins with, if `b` is long enough.
    pub open spec fn spec_decode(b: Seq<u8>) -> Option<CrossDomainGetImageRequirements> {
        if b.len() >= CROSS_DOMAIN_GET_IMAGE_REQUIREMENTS_SIZE {
            Some(
                CrossDomainGetImageRequirements {
                    hdr: CrossDomainHeader::spec_decode(b).unwrap(),
                    width: spec_u32_at(b, 8),
                    height: spec_u32_at(b, 12),
                    drm_format: spec_u32_at(b, 16),
                    flags: spec_u32_at(b, 20),
                },
            )
        } else {
            None
        }
    }

    /// Decodes the record at the start of `bytes`.
    pub fn decode(bytes: &[u8]) -> (r: Option<CrossDomainGetImageRequirements>)
        ensures
            r == Self::spec_decode(bytes@),
    {
        if bytes.len() < CROSS_DOMAIN_GET_IMAGE_REQUIREMENTS_SIZE {
            return None;
        }
        Some(
            CrossDomainGetImageRequirements {
                hdr: CrossDomainHeader { cmd: read_u32(bytes, 0), cmd_size: read_u32(bytes, 4) },
                width: read_u32(bytes, 8),
                height: read_u32(bytes, 12),
                drm_format: read_u32(bytes, 16),
                flags: read_u32(bytes, 20),
            },
        )
    }
}

/// The answer to GET_IMAGE_REQUIREMENTS, written to the query ring. It has
/// no header. `blob_id` names the item under which the requirements are kept.
#[derive(Clone, Copy, Debug, PartialEq, Eq)]
pub struct CrossDomainImageRequirements {
    pub strides: [u32; 4],
    pub offsets: [u32; 4],
    pub modifier: u64,
    pub size: u64,
    pub blob_id: u32,
    pub map_info: u32,
    pub memory_idx: i32,
    pub physical_device_idx: i32,
}

impl CrossDomainImageRequirements {
    /// The sixty-four bytes of the record.
    pub open spec fn spec_encode(self) -> Seq<u8> {
        Seq::<u8>::empty() + spec_u32x4_le(self.strides) + spec_u32x4_le(self.offsets)
            + spec_u64_le(self.modifier) + spec_u64_le(self.size) + spec_u32_le(self.blob_id)
            + spec_u32_le(self.map_info) + spec_u32_le(self.memory_idx as u32) + spec_u32_le(
            self.physical_device_idx as u32,
        )
    }

    /// Encodes the record.
    pub fn encode(&self) -> (out: Vec<u8>)
        ensures
            out@ == self.spec_encode(),
            out@.len() == CROSS_DOMAIN_IMAGE_REQUIREMENTS_SIZE,
    {
        let mut out: Vec<u8> = Vec::new();
        assert(out@ =~= Seq::<u8>::empty());
        push_u32x4(&mut out, &self.strides);
        push_u32x4(&mut out, &self.offsets);
        push_u64(&mut out, self.modifier);
        push_u64(&mut out, self.size);
        push_u32(&mut out, self.blob_id);
        push_u32(&mut out, self.map_info);
        push_u32(&mut out, self.memory_idx as u32);
        push_u32(&mut out, self.physical_device_idx as u32);
        out
    }
}

/// SEND and RECEIVE: a payload of `opaque_data_size` bytes follows the
/// record; the first `num_identifiers` entries of the three arrays describe
/// what is attached to it.
#[derive(Clone, Copy, Debug, PartialEq, Eq)]
pub struct CrossDomainSendReceive {
    pub hdr: CrossDomainHeader,
    pub num_identifiers: u32,
    pub opaque_data_size: u32,
    pub identifiers: [u32; 4],
    pub identifier_types: [u32; 4],
    pub identifier_sizes: [u32; 4],
}

impl CrossDomainSendReceive {
    /// The record that `b` begins with, if `b` is long enough.
    pub open spec fn spec_decode(b: Seq<u8>) -> Option<CrossDomainSendReceive> {
        if b.len() >= CROSS_DOMAIN_SEND_RECEIVE_SIZE {
            Some(
                CrossDomainSendReceive {
                    hdr: CrossDomainHeader::spec_decode(b).unwrap(),
                    num_identifiers: spec_u32_at(b, 8),
                    opaque_data_size: spec_u32_at(b, 12),
                    identifiers: spec_u32x4_at(b, 16),
                    identifier_types: spec_u32x4_at(b, 32),
                    identifier_sizes: spec_u32x4_at(b, 48),
                },
            )
        } else {
            None
        }
    }

    /// The sixty-four bytes of the record.
    pub open spec fn spec_encode(self) -> Seq<u8> {
        self.hdr.spec_encode() + spec_u32_le(self.num_identifiers) + spec_u32_le(
            self.opaque_data_size,
        ) + spec_u32x4_le(self.identifiers) + spec_u32x4_le(self.identifier_types) + spec_u32x4_le(
            self.identifier_sizes,
        )
    }

    /// Decodes the record at the start of `bytes`.
    pub fn decode(bytes: &[u8]) -> (r: Option<CrossDomainSendReceive>)
        ensures
            r == Self::spec_decode(bytes@),
    {
        if bytes.len() < CROSS_DOMAIN_SEND_RECEIVE_SIZE {
            return None;
        }
        Some(
            CrossDomainSendReceive {
                hdr: CrossDomainHeader { cmd: read_u32(bytes, 0), cmd_size: read_u32(bytes, 4) },
                num_identifiers: read_u32(bytes, 8),
                opaque_data_size: read_u32(bytes, 12),
                identifiers: read_u32x4(bytes, 16),
                identifier_types: read_u32x4(bytes, 32),
                identifier_sizes: read_u32x4(bytes, 48),
            },
        )
    }

    /// Encodes the record.
    pub fn encode(&self) -> (out: Vec<u8>)
        ensures
            out@ == self.spec_encode(),
            out@.len() == CROSS_DOMAIN_SEND_RECEIVE_SIZE,
    {
        let mut out: Vec<u8> = Vec::new();
        self.hdr.encode_into(&mut out);
        assert(out@ =~= self.hdr.spec_encode());
        push_u32(&mut out, self.num_identifiers);
        push_u32(&mut out, self.opaque_data_size);
        push_u32x4(&mut out, &self.identifiers);
        push_u32x4(&mut out, &self.identifier_types);
        push_u32x4(&mut out, &self.identifier_sizes);
        out
    }
}

/// READ and WRITE: a payload of `opaque_data_size` bytes for or from the
/// pipe named by `identifier` follows the record; a nonzero `hang_up` ends
/// the pipe.
#[derive(Clone, Copy, Debug, PartialEq, Eq, Structural)]
pub struct CrossDomainReadWrite {
    pub hdr: CrossDomainHeader,
    pub identifier: u32,
    pub hang_up: u32,
    pub opaque_data_size: u32,
}

impl CrossDomainReadWrite {
    /// The record that `b` begins with, if `b` is long enough.
    pub open spec fn spec_decode(b: Seq<u8>) -> Option<CrossDomainReadWrite> {
        if b.len() >= CROSS_DOMAIN_READ_WRITE_SIZE {
            Some(
                CrossDomainReadWrite {
                    hdr: CrossDomainHeader::spec_decode(b).unwrap(),
                    identifier: spec_u32_at(b, 8),
                    hang_up: spec_u32_at(b, 12),
                    opaque_data_size: spec_u32_at(b, 16),
                },
            )
        } else {
            None
        }
    }

    /// The twenty bytes of the record.
    pub open spec fn spec_encode(self) -> Seq<u8> {
        self.hdr.spec_encode() + spec_u32_le(self.identifier) + spec_u32_le(self.hang_up)
            + spec_u32_le(self.opaque_data_size)
    }

    /// Decodes the record at the start of `bytes`.
    pub fn decode(bytes: &[u8]) -> (r: Option<CrossDomainReadWrite>)
        ensures
            r == Self::spec_decode(bytes@),
    {
        if bytes.len() < CROSS_DOMAIN_READ_WRITE_SIZE {
            return None;
        }
        Some(
            CrossDomainReadWrite {
                hdr: CrossDomainHeader { cmd: read_u32(bytes, 0), cmd_size: read_u32(bytes, 4) },
                identifier: read_u32(bytes, 8),
                hang_up: read_u32(bytes, 12),
                opaque_data_size: read_u32(bytes, 16),
            },
        )
    }

    /// Encodes the record.
    pub fn encode(&self) -> (out: Vec<u8>)
        ensures
            out@ == self.spec_encode(),
            out@.len() == CROSS_DOMAIN_READ_WRITE_SIZE,
    {
        let mut out: Vec<u8> = Vec::new();
        self.hdr.encode_into(&mut out);
        assert(out@ =~= self.hdr.spec_encode());
        push_u32(&mut out, self.identifier);
        push_u32(&mut out, self.hang_up);
        push_u32(&mut out, self.opaque_data_size);
        out
    }
}

/// FUTEX_NEW: bind futex `id` to the file that `fs_id` and `handle` name.
#[derive(Clone, Copy, Debug, PartialEq, Eq, Structural)]
pub struct CrossDomainFutexNew {
    pub hdr: CrossDomainHeader,
    pub id: u32,
    pub pad: u32,
    pub fs_id: u64,
    pub handle: u64,
}

impl CrossDomainFutexNew {
    /// The record that `b` begins with, if `b` is long enough.
    pub open spec fn spec_decode(b: Seq<u8>) -> Option<CrossDomainFutexNew> {
        if b.len() >= CROSS_DOMAIN_FUTEX_NEW_SIZE {
            Some(
                CrossDomainFutexNew {
                    hdr: CrossDomainHeader::spec_decode(b).unwrap(),
                    id: spec_u32_at(b, 8),
                    pad: spec_u32_at(b, 12),
                    fs_id: spec_u64_at(b, 16),
                    handle: spec_u64_at(b, 24),
                },
            )
        } else {
            None
        }
    }

    /// Decodes the record at the start of `bytes`.
    pub fn decode(bytes: &[u8]) -> (r: Option<CrossDomainFutexNew>)
        ensures
            r == Self::spec_decode(bytes@),
    {
        if bytes.len() < CROSS_DOMAIN_FUTEX_NEW_SIZE {
            return None;
        }
        Some(
            CrossDomainFutexNew {
                hdr: CrossDomainHeader { cmd: read_u32(bytes, 0), cmd_size: read_u32(bytes, 4) },
                id: read_u32(bytes, 8),
                pad: read_u32(bytes, 12),
                fs_id: read_u64(bytes, 16),
                handle: read_u64(bytes, 24),
            },
        )
    }
}

/// FUTEX_SIGNAL: from the guest, wake the waiters of futex `id`; from the
/// host, futex `id` was woken.
#[derive(Clone, Copy, Debug, PartialEq, Eq, Structural)]
pub struct CrossDomainFutexSignal {
    pub hdr: CrossDomainHeader,
    pub id: u32,
}

impl CrossDomainFutexSignal {
    /// The record that `b` begins with, if `b` is long enough.
    pub open spec fn spec_decode(b: Seq<u8>) -> Option<CrossDomainFutexSignal> {
        if b.len() >= CROSS_DOMAIN_FUTEX_SIGNAL_SIZE {
            Some(
                CrossDomainFutexSignal {
                    hdr: CrossDomainHeader::spec_decode(b).unwrap(),
                    id: spec_u32_at(b, 8),
                },
            )
        } else {
            None
        }
    }

    /// The twelve bytes of the record.
    pub open spec fn spec_encode(self) -> Seq<u8> {
        self.hdr.spec_encode() + spec_u32_le(self.id)
    }

    /// Decodes the record at the start of `bytes`.
    pub fn decode(bytes: &[u8]) -> (r: Option<CrossDomainFutexSignal>)
        ensures
            r == Self::spec_decode(bytes@),
    {
        if bytes.len() < CROSS_DOMAIN_FUTEX_SIGNAL_SIZE {
            return None;
        }
        Some(
            CrossDomainFutexSignal {
                hdr: CrossDomainHeader { cmd: read_u32(bytes, 0), cmd_size: read_u32(bytes, 4) },
                id: read_u32(bytes, 8),
            },
        )
    }

    /// Encodes the record.
    pub fn encode(&self) -> (out: Vec<u8>)
        ensures
            out@ == self.spec_encode(),
            out@.len() == CROSS_DOMAIN_FUTEX_SIGNAL_SIZE,
    {
        let mut out: Vec<u8> = Vec::new();
        self.hdr.encode_into(&mut out);
        assert(out@ =~= self.hdr.spec_encode());
        push_u32(&mut out, self.id);
        out
    }
}

/// FUTEX_DESTROY: unbind futex `id`.
#[derive(Clone, Copy, Debug, PartialEq, Eq, Structural)]
pub struct CrossDomainFutexDestroy {
    pub hdr: CrossDomainHeader,
    pub id: u32,
}

impl CrossDomainFutexDestroy {
    /// The record that `b` begins with, if `b` is long enough.
    pub open spec fn spec_decode(b: Seq<u8>) -> Option<CrossDomainFutexDestroy> {
        if b.len() >= CROSS_DOMAIN_FUTEX_DESTROY_SIZE {
            Some(
                CrossDomainFutexDestroy {
                    hdr: CrossDomainHeader::spec_decode(b).unwrap(),
                    id: spec_u32_at(b, 8),
                },
            )
        } else {
            None
        }
    }

    /// Decodes the record at the start of `bytes`.
    pub fn decode(bytes: &[u8]) -> (r: Option<CrossDomainFutexDestroy>)
        ensures
            r == Self::spec_decode(bytes@),
    {
        if bytes.len() < CROSS_DOMAIN_FUTEX_DESTROY_SIZE {
            return None;
        }
        Some(
            CrossDomainFutexDestroy {
                hdr: CrossDomainHeader { cmd: read_u32(bytes, 0), cmd_size: read_u32(bytes, 4) },
                id: read_u32(bytes, 8),
            },
        )
    }
}

/// What the component can do: the protocol version, one bit per channel type
/// it can connect to, and two flags of the allocator. Two zero bytes pad the
/// record to a multiple of four.
#[derive(Clone, Copy, Debug, PartialEq, Eq, Structural)]
pub struct CrossDomainCapabilities {
    pub version: u32,
    pub supported_channels: u32,
    pub supports_dmabuf: u8,
    pub supports_external_gpu_memory: u8,
}

impl CrossDomainCapabilities {
    /// The twelve bytes of the record.
    pub open spec fn spec_encode(self) -> Seq<u8> {
        Seq::<u8>::empty() + spec_u32_le(self.version) + spec_u32_le(self.supported_channels)
            + seq![self.supports_dmabuf, self.supports_external_gpu_memory, 0u8, 0u8]
    }

    /// Encodes the record.
    pub fn encode(&self) -> (out: Vec<u8>)
        ensures
            out@ == self.spec_encode(),
            out@.len() == CROSS_DOMAIN_CAPABILITIES_SIZE,
    {
        let mut out: Vec<u8> = Vec::new();
        assert(out@ =~= Seq::<u8>::empty());
        push_u32(&mut out, self.version);
        push_u32(&mut out, self.supported_channels);
        let ghost before = out@;
        out.push(self.supports_dmabuf);
        out.push(self.supports_external_gpu_memory);
        out.push(0);
        out.push(0);
        assert(out@ =~= before + seq![
            self.supports_dmabuf,
            self.supports_external_gpu_memory,
            0u8,
            0u8,
        ]);
        out
    }
}

/// A 32-bit integer is read back from where its encoding stands in a
/// buffer: if the four bytes from `off` on are the encoding of `x`, then
/// `x` is what is read there.
pub proof fn lemma_u32_read_back(b: Seq<u8>, off: int, x: u32)
    requires
        0 <= off,
        off + 4 <= b.len(),
        b.subrange(off, off + 4) == spec_u32_le(x),
    ensures
        spec_u32_at(b, off) == x,
{
    let e = spec_u32_le(x);
    assert(b[off] == b.subrange(off, off + 4)[0]);
    assert(b[off + 1] == b.subrange(off, off + 4)[1]);
    assert(b[off + 2] == b.subrange(off, off + 4)[2]);
    assert(b[off + 3] == b.subrange(off, off + 4)[3]);
}

/// A header is decoded from its encoding, whatever follows it.
pub proof fn lemma_header_round_trip(hdr: CrossDomainHeader, tail: Seq<u8>)
    ensures
        CrossDomainHeader::spec_decode(hdr.spec_encode() + tail) == Some(hdr),
{
    let b = hdr.spec_encode() + tail;
    assert(b.subrange(0, 4) =~= spec_u32_le(hdr.cmd));
    assert(b.subrange(4, 8) =~= spec_u32_le(hdr.cmd_size));
    lemma_u32_read_back(b, 0, hdr.cmd);
    lemma_u32_read_back(b, 4, hdr.cmd_size);
}

/// READ mirrors WRITE: a record that the host encodes is decoded to the
/// same record, whatever payload follows it.
pub proof fn lemma_read_write_round_trip(record: CrossDomainReadWrite, tail: Seq<u8>)
    ensures
        CrossDomainReadWrite::spec_decode(record.spec_encode() + tail) == Some(record),
{
    let b = record.spec_encode() + tail;
    assert(b.subrange(0, 4) =~= spec_u32_le(record.hdr.cmd));
    assert(b.subrange(4, 8) =~= spec_u32_le(record.hdr.cmd_size));
    assert(b.subrange(8, 12) =~= spec_u32_le(record.identifier));
    assert(b.subrange(12, 16) =~= spec_u32_le(record.hang_up));
    assert(b.subrange(16, 20) =~= spec_u32_le(record.opaque_data_size));
    lemma_u32_read_back(b, 0, record.hdr.cmd);
    lemma_u32_read_back(b, 4, record.hdr.cmd_size);
    lemma_u32_read_back(b, 8, record.identifier);
    lemma_u32_read_back(b, 12, record.hang_up);
    lemma_u32_read_back(b, 16, record.opaque_data_size);
}

/// The notice of a futex wake is decoded to the record that was encoded.
pub proof fn lemma_futex_signal_round_trip(record: CrossDomainFutexSignal, tail: Seq<u8>)
    ensures
        CrossDomainFutexSignal::spec_decode(record.spec_encode() + tail) == Some(record),
{
    let b = record.spec_encode() + tail;
    assert(b.subrange(0, 4) =~= spec_u32_le(record.hdr.cmd));
    assert(b.subrange(4, 8) =~= spec_u32_le(record.hdr.cmd_size));
    assert(b.subrange(8, 12) =~= spec_u32_le(record.id));
    lemma_u32_read_back(b, 0, record.hdr.cmd);
    lemma_u32_read_back(b, 4, record.hdr.cmd_size);
    lemma_u32_read_back(b, 8, record.id);
}

/// What stands at the end of a buffer stays where it is when the buffer is
/// extended.
pub proof fn lemma_field_at_end(prefix: Seq<u8>, field: Seq<u8>, rest: Seq<u8>)
    ensures
        ((prefix + field) + rest).subrange(
            prefix.len() as int,
            (prefix.len() + field.len()) as int,
        ) == field,
{
    assert(((prefix + field) + rest).subrange(
        prefix.len() as int,
        (prefix.len() + field.len()) as int,
    ) =~= field);
}

/// A part of a buffer stays what it is when the buffer is extended.
pub proof fn lemma_part_stays(b: Seq<u8>, rest: Seq<u8>, from: int, to: int)
    requires
        0 <= from <= to <= b.len(),
    ensures
        (b + rest).subrange(from, to) == b.subrange(from, to),
{
    assert((b + rest).subrange(from, to) =~= b.subrange(from, to));
}

/// Four 32-bit integers are read back from where their encoding stands.
pub proof fn lemma_u32x4_read_back(b: Seq<u8>, off: int, a: [u32; 4])
    requires
        0 <= off,
        off + 16 <= b.len(),
        b.subrange(off, off + 16) == spec_u32x4_le(a),
    ensures
        spec_u32x4_at(b, off) == a,
{
    let e = b.subrange(off, off + 16);
    let e1 = spec_u32_le(a[0]);
    let e2 = e1 + spec_u32_le(a[1]);
    let e3 = e2 + spec_u32_le(a[2]);
    assert(e == e3 + spec_u32_le(a[3]));
    lemma_field_at_end(e3, spec_u32_le(a[3]), Seq::empty());
    assert(e3 + spec_u32_le(a[3]) + Seq::<u8>::empty() =~= e);
    lemma_field_at_end(e2, spec_u32_le(a[2]), spec_u32_le(a[3]));
    lemma_field_at_end(e1, spec_u32_le(a[1]), spec_u32_le(a[2]));
    lemma_part_stays(e3, spec_u32_le(a[3]), 4, 8);
    lemma_part_stays(e2, spec_u32_le(a[2]), 0, 4);
    lemma_part_stays(e3, spec_u32_le(a[3]), 0, 4);
    assert(e.subrange(0, 4) == e1) by {
        assert(e2.subrange(0, 4) =~= e1);
    }
    assert(e.subrange(4, 8) == spec_u32_le(a[1]));
    assert(e.subrange(8, 12) == spec_u32_le(a[2]));
    assert(e.subrange(12, 16) == spec_u32_le(a[3]));
    assert(b.subrange(off, off + 4) =~= e.subrange(0, 4));
    assert(b.subrange(off + 4, off + 8) =~= e.subrange(4, 8));
    assert(b.subrange(off + 8, off + 12) =~= e.subrange(8, 12));
    assert(b.subrange(off + 12, off + 16) =~= e.subrange(12, 16));
    lemma_u32_read_back(b, off, a[0]);
    lemma_u32_read_back(b, off + 4, a[1]);
    lemma_u32_read_back(b, off + 8, a[2]);
    lemma_u32_read_back(b, off + 12, a[3]);
    assert(spec_u32x4_at(b, off) =~= a);
}

/// Where the parts of a buffer stand that is made of a header, two sizes,
/// three arrays and a payload.
pub proof fn lemma_send_receive_layout(
    hdr: Seq<u8>,
    count: Seq<u8>,
    size: Seq<u8>,
    ids: Seq<u8>,
    types: Seq<u8>,
    sizes: Seq<u8>,
    tail: Seq<u8>,
)
    requires
        hdr.len() == 8,
        count.len() == 4,
        size.len() == 4,
        ids.len() == 16,
        types.len() == 16,
        sizes.len() == 16,
    ensures
        ({
            let b = hdr + count + size + ids + types + sizes + tail;
            &&& b.len() == 64 + tail.len()
            &&& b.subrange(0, 8) == hdr
            &&& b.subrange(8, 12) == count
            &&& b.subrange(12, 16) == size
            &&& b.subrange(16, 32) == ids
            &&& b.subrange(32, 48) == types
            &&& b.subrange(48, 64) == sizes
        }),
{
    let b = hdr + count + size + ids + types + sizes + tail;
    assert(b.subrange(0, 8) =~= hdr);
    assert(b.subrange(8, 12) =~= count);
    assert(b.subrange(12, 16) =~= size);
    assert(b.subrange(16, 32) =~= ids);
    assert(b.subrange(32, 48) =~= types);
    assert(b.subrange(48, 64) =~= sizes);
}

/// A header is read back from the first eight bytes of a buffer that
/// begins with its encoding.
pub proof fn lemma_header_read_back(b: Seq<u8>, hdr: CrossDomainHeader)
    requires
        b.len() >= 8,
        b.subrange(0, 8) == hdr.spec_encode(),
    ensures
        CrossDomainHeader::spec_decode(b) == Some(hdr),
{
    let e = hdr.spec_encode();
    assert(e.subrange(0, 4) =~= spec_u32_le(hdr.cmd));
    assert(e.subrange(4, 8) =~= spec_u32_le(hdr.cmd_size));
    assert(b.subrange(0, 4) =~= b.subrange(0, 8).subrange(0, 4));
    assert(b.subrange(4, 8) =~= b.subrange(0, 8).subrange(4, 8));
    lemma_u32_read_back(b, 0, hdr.cmd);
    lemma_u32_read_back(b, 4, hdr.cmd_size);
}

/// A record is decoded from a buffer whose parts are the encodings of
/// its fields.
pub proof fn lemma_send_receive_read_back(b: Seq<u8>, record: CrossDomainSendReceive)
    requires
        b.len() >= 64,
        b.subrange(0, 8) == record.hdr.spec_encode(),
        b.subrange(8, 12) == spec_u32_le(record.num_identifiers),
        b.subrange(12, 16) == spec_u32_le(record.opaque_data_size),
        b.subrange(16, 32) == spec_u32x4_le(record.identifiers),
        b.subrange(32, 48) == spec_u32x4_le(record.identifier_types),
        b.subrange(48, 64) == spec_u32x4_le(record.identifier_sizes),
    ensures
        CrossDomainSendReceive::spec_decode(b) == Some(record),
{
    assert(CrossDomainHeader::spec_decode(b) == Some(record.hdr)) by {
        lemma_header_read_back(b, record.hdr);
    }
    assert(spec_u32_at(b, 8) == record.num_identifiers) by {
        lemma_u32_read_back(b, 8, record.num_identifiers);
    }
    assert(spec_u32_at(b, 12) == record.opaque_data_size) by {
        lemma_u32_read_back(b, 12, record.opaque_data_size);
    }
    assert(spec_u32x4_at(b, 16) == record.identifiers) by {
        lemma_u32x4_read_back(b, 16, record.identifiers);
    }
    assert(spec_u32x4_at(b, 32) == record.identifier_types) by {
        lemma_u32x4_read_back(b, 32, record.identifier_types);
    }
    assert(spec_u32x4_at(b, 48) == record.identifier_sizes) by {
        lemma_u32x4_read_back(b, 48, record.identifier_sizes);
    }
}

/// The encoding of four 32-bit integers takes sixteen bytes.
pub proof fn lemma_u32x4_le_len(a: [u32; 4])
    ensures
        spec_u32x4_le(a).len() == 16,
{
}

/// The encoding of a header takes eight bytes, that of a 32-bit integer
/// four.
pub proof fn lemma_encoding_lengths(hdr: CrossDomainHeader, x: u32)
    ensures
        hdr.spec_encode().len() == 8,
        spec_u32_le(x).len() == 4,
{
}

/// RECEIVE mirrors SEND: a record that the host encodes is decoded to the
/// same record, whatever payload follows it.
pub proof fn lemma_send_receive_round_trip(record: CrossDomainSendReceive, tail: Seq<u8>)
    ensures
        CrossDomainSendReceive::spec_decode(record.spec_encode() + tail) == Some(record),
{
    let hdr = record.hdr.spec_encode();
    let count = spec_u32_le(record.num_identifiers);
    let size = spec_u32_le(record.opaque_data_size);
    let ids = spec_u32x4_le(record.identifiers);
    let types = spec_u32x4_le(record.identifier_types);
    let sizes = spec_u32x4_le(record.identifier_sizes);
    let b = hdr + count + size + ids + types + sizes + tail;
    lemma_encoding_lengths(record.hdr, record.num_identifiers);
    lemma_encoding_lengths(record.hdr, record.opaque_data_size);
    lemma_u32x4_le_len(record.identifiers);
    lemma_u32x4_le_len(record.identifier_types);
    lemma_u32x4_le_len(record.identifier_sizes);
    lemma_send_receive_layout(hdr, count, size, ids, types, sizes, tail);
    lemma_send_receive_read_back(b, record);
}

} // verus!
