//! Constants, errors and plain records shared by every component.

use vstd::prelude::*;

verus! {

/// Blob memory lives in guest pages.
pub const RUTABAGA_BLOB_MEM_GUEST: u32 = 0x0001;
/// Blob memory lives in host 3D memory.
pub const RUTABAGA_BLOB_MEM_HOST3D: u32 = 0x0002;
/// Blob memory is host 3D memory shadowed by guest pages.
pub const RUTABAGA_BLOB_MEM_HOST3D_GUEST: u32 = 0x0003;

/// The blob can be mapped by the guest.
pub const RUTABAGA_BLOB_FLAG_USE_MAPPABLE: u32 = 0x0001;
/// The blob can be shared with other contexts.
pub const RUTABAGA_BLOB_FLAG_USE_SHAREABLE: u32 = 0x0002;
/// The blob can be shared with other devices.
pub const RUTABAGA_BLOB_FLAG_USE_CROSS_DEVICE: u32 = 0x0004;

/// Mapping cache mode: cached.
pub const RUTABAGA_MAP_CACHE_CACHED: u32 = 0x01;
/// Mapping cache mode: uncached.
pub const RUTABAGA_MAP_CACHE_UNCACHED: u32 = 0x02;
/// Mapping cache mode: write-combined.
pub const RUTABAGA_MAP_CACHE_WC: u32 = 0x03;
/// Mapping access: read.
pub const RUTABAGA_MAP_ACCESS_READ: u32 = 0x10;
/// Mapping access: write.
pub const RUTABAGA_MAP_ACCESS_WRITE: u32 = 0x20;
/// Mapping access: read and write.
pub const RUTABAGA_MAP_ACCESS_RW: u32 = 0x30;

/// The fence flag every fence carries.
pub const RUTABAGA_FLAG_FENCE: u32 = 0x01;
/// The fence names a ring through `ring_idx`.
pub const RUTABAGA_FLAG_INFO_RING_IDX: u32 = 0x02;

/// Handle type: opaque file descriptor memory.
pub const RUTABAGA_HANDLE_TYPE_MEM_OPAQUE_FD: u32 = 0x0001;
/// Handle type: dma-buf memory.
pub const RUTABAGA_HANDLE_TYPE_MEM_DMABUF: u32 = 0x0002;
/// Handle type: shared memory.
pub const RUTABAGA_HANDLE_TYPE_MEM_SHM: u32 = 0x0004;
/// Handle type: sync file descriptor.
pub const RUTABAGA_HANDLE_TYPE_SIGNAL_SYNC_FD: u32 = 0x0020;

/// Path type of a Wayland socket.
pub const RUTABAGA_PATH_TYPE_WAYLAND: u32 = 0x0001;
/// Path type of a GPU render node.
pub const RUTABAGA_PATH_TYPE_GPU: u32 = 0x0002;

/// An operating-system descriptor, named by its number. The caller owns the
/// descriptor; the library only says where it belongs.
pub type RawDescriptor = i32;

/// Errors of the utility layer that are passed through unchanged.
#[derive(Clone, Copy, Debug, PartialEq, Eq)]
pub enum MesaError {
    /// A handle was missing or of the wrong kind.
    InvalidMesaHandle,
    /// The operating system refused an operation; the payload is its error number.
    IoError(i32),
    /// An integer did not fit its destination.
    TryFromIntError,
    /// The operation is not implemented.
    Unsupported,
    /// A failure described by a fixed message.
    WithContext(&'static str),
}

/// Everything that can go wrong in a component.
#[derive(Clone, Copy, Debug, PartialEq, Eq)]
pub enum RutabagaError {
    /// The resource is already taken.
    AlreadyInUse,
    /// A renderer reported this status.
    ComponentError(i32),
    /// An offset or length computation left the 64-bit range.
    CheckedArithmetic,
    /// A rectangle does not lie within its resource.
    CheckedRange,
    /// A command did not decode.
    InvalidCommandBuffer,
    /// A declared size runs past the end of its buffer.
    InvalidCommandSize(usize),
    /// No stream connection is available for the request.
    InvalidCrossDomainChannel,
    /// No item, or no futex, has the given identifier.
    InvalidCrossDomainItemId,
    /// The item or descriptor is of the wrong kind.
    InvalidCrossDomainItemType,
    /// The context has not been initialized as the command needs.
    InvalidCrossDomainState,
    /// A guest memory region is missing or too small.
    InvalidIovec,
    /// No resource has the given identifier.
    InvalidResourceId,
    /// The resource carries no 2D information.
    Invalid2DInfo,
    /// A renderer could not map a resource and reported this status.
    MappingFailed(i32),
    /// An error of the utility layer.
    MesaError(MesaError),
}

/// The kinds of component.
#[derive(Clone, Copy, Debug, PartialEq, Eq, Structural)]
pub enum RutabagaComponentType {
    /// Software 2D.
    Rutabaga2D,
    /// Accelerated 3D through virglrenderer.
    VirglRenderer,
    /// Accelerated 3D through gfxstream.
    Gfxstream,
    /// Cross-domain bridging.
    CrossDomain,
    /// Magma.
    Magma,
}

impl RutabagaComponentType {
    /// The position of the component's bit in a resource's component mask.
    pub open spec fn spec_index(self) -> u8 {
        match self {
            RutabagaComponentType::Rutabaga2D => 0,
            RutabagaComponentType::VirglRenderer => 1,
            RutabagaComponentType::Gfxstream => 2,
            RutabagaComponentType::CrossDomain => 3,
            RutabagaComponentType::Magma => 4,
        }
    }

    /// The component's bit in a resource's component mask.
    pub open spec fn spec_mask(self) -> u8 {
        match self {
            RutabagaComponentType::Rutabaga2D => 1,
            RutabagaComponentType::VirglRenderer => 2,
            RutabagaComponentType::Gfxstream => 4,
            RutabagaComponentType::CrossDomain => 8,
            RutabagaComponentType::Magma => 16,
        }
    }

    /// The component's bit in a resource's component mask: one shifted left
    /// by the component's position.
    pub fn mask(self) -> (m: u8)
        ensures
            m == self.spec_mask(),
            m == 1u8 << self.spec_index(),
    {
        assert(1u8 << 0u8 == 1 && 1u8 << 1u8 == 2 && 1u8 << 2u8 == 4 && 1u8 << 3u8 == 8 && 1u8
            << 4u8 == 16) by (bit_vector);
        match self {
            RutabagaComponentType::Rutabaga2D => 1,
            RutabagaComponentType::VirglRenderer => 2,
            RutabagaComponentType::Gfxstream => 4,
            RutabagaComponentType::CrossDomain => 8,
            RutabagaComponentType::Magma => 16,
        }
    }
}

/// A fence: a token the guest waits on, tagged with the ring it belongs to.
#[derive(Clone, Copy, Debug, PartialEq, Eq, Structural)]
pub struct RutabagaFence {
    pub flags: u32,
    pub fence_id: u64,
    pub ctx_id: u32,
    pub ring_idx: u8,
}

/// One region of guest memory: where it starts and how long it is.
#[derive(Clone, Copy, Debug, PartialEq, Eq, Structural)]
pub struct RutabagaIovec {
    pub base: usize,
    pub len: usize,
}

/// A socket or device path the guest may be connected to.
#[derive(Clone, Debug, PartialEq, Eq)]
pub struct RutabagaPath {
    pub path: String,
    pub path_type: u32,
}

/// Parameters of a blob resource.
#[derive(Clone, Copy, Debug, PartialEq, Eq, Structural)]
pub struct ResourceCreateBlob {
    pub blob_mem: u32,
    pub blob_flags: u32,
    pub blob_id: u64,
    pub size: u64,
}

/// Parameters of a classic 3D (or 2D) resource.
#[derive(Clone, Copy, Debug, PartialEq, Eq, Structural)]
pub struct ResourceCreate3D {
    pub target: u32,
    pub format: u32,
    pub bind: u32,
    pub width: u32,
    pub height: u32,
    pub depth: u32,
    pub array_size: u32,
    pub last_level: u32,
    pub nr_samples: u32,
    pub flags: u32,
}

/// A box within a resource and where its bytes go.
#[derive(Clone, Copy, Debug, PartialEq, Eq, Structural)]
pub struct Transfer3D {
    pub x: u32,
    pub y: u32,
    pub z: u32,
    pub w: u32,
    pub h: u32,
    pub d: u32,
    pub level: u32,
    pub stride: u32,
    pub layer_stride: u32,
    pub offset: u64,
}

impl Transfer3D {
    /// A transfer is empty when its box has no volume.
    pub open spec fn spec_is_empty(&self) -> bool {
        self.w == 0 || self.h == 0 || self.d == 0
    }

    /// Whether the box has no volume.
    #[verifier::when_used_as_spec(spec_is_empty)]
    pub fn is_empty(&self) -> (b: bool)
        ensures
            b == self.spec_is_empty(),
    {
        self.w == 0 || self.h == 0 || self.d == 0
    }

    /// A transfer of a flat rectangle at depth zero.
    pub fn new_2d(x: u32, y: u32, w: u32, h: u32, offset: u64) -> (t: Transfer3D)
        ensures
            t == (Transfer3D {
                x,
                y,
                z: 0,
                w,
                h,
                d: 1,
                level: 0,
                stride: 0,
                layer_stride: 0,
                offset,
            }),
    {
        Transfer3D { x, y, z: 0, w, h, d: 1, level: 0, stride: 0, layer_stride: 0, offset }
    }
}

/// Layout of an image that lives in host memory.
#[derive(Clone, Copy, Debug, PartialEq, Eq)]
pub struct Resource3DInfo {
    pub width: u32,
    pub height: u32,
    pub drm_fourcc: u32,
    pub strides: [u32; 4],
    pub offsets: [u32; 4],
    pub modifier: u64,
}

/// Which Vulkan device and memory type back an allocation.
#[derive(Clone, Copy, Debug, PartialEq, Eq)]
pub struct VulkanInfo {
    pub memory_idx: u32,
    pub device_uuid: [u8; 16],
    pub driver_uuid: [u8; 16],
}

/// What the guest asks the allocator for.
#[derive(Clone, Copy, Debug, PartialEq, Eq, Structural)]
pub struct ImageAllocationInfo {
    pub width: u32,
    pub height: u32,
    pub drm_format: u32,
    pub flags: u32,
}

/// What the allocator answers: the layout and size an image needs.
#[derive(Clone, Copy, Debug, PartialEq, Eq)]
pub struct ImageMemoryRequirements {
    pub info: ImageAllocationInfo,
    pub map_info: u32,
    pub strides: [u32; 4],
    pub offsets: [u32; 4],
    pub modifier: u64,
    pub size: u64,
    pub vulkan_info: Option<VulkanInfo>,
}

/// The result type of every fallible operation.
pub type RutabagaResult<T> = Result<T, RutabagaError>;

} // verus!
