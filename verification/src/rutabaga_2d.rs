//! The software 2D backend: resources whose pixels live in host memory, and
//! the copy of a rectangle between chunked memory and a flat buffer.

use crate::rutabaga_core::Rutabaga2DInfo;
use crate::rutabaga_core::RutabagaResource;
use crate::rutabaga_utils::MesaError;
use crate::rutabaga_utils::ResourceCreate3D;
use crate::rutabaga_utils::ResourceCreateBlob;
use crate::rutabaga_utils::RutabagaComponentType;
use crate::rutabaga_utils::RutabagaError;
use crate::rutabaga_utils::RutabagaFence;
use crate::rutabaga_utils::RutabagaIovec;
use crate::rutabaga_utils::RutabagaResult;
use crate::rutabaga_utils::Transfer3D;
use crate::rutabaga_utils::RUTABAGA_BLOB_MEM_GUEST;
use vstd::array::array_as_slice;
use vstd::prelude::*;

verus! {

/// All formats take four bytes per pixel.
pub const BYTES_PER_PIXEL: u64 = 4;

/// Where the rows of a rectangle lie in the source and in the destination.
pub struct TransferLayout {
    /// Bytes in a row of the rectangle.
    pub row_bytes: int,
    /// Rows in the rectangle.
    pub rows: int,
    /// From one row to the next in the destination.
    pub dst_stride: int,
    /// Where the first row begins in the destination.
    pub dst_start: int,
    /// From one row to the next in the source.
    pub src_stride: int,
    /// Where the first row begins in the source, counted through all chunks.
    pub src_start: int,
}

/// How far a transfer has come.
pub struct TransferProgress {
    /// The destination as it stands.
    pub dst: Seq<u8>,
    /// The row that is being copied.
    pub current_height: int,
    /// The chunk that is being read.
    pub src_index: int,
    /// Where that chunk begins, counted through all chunks.
    pub src_start_offset: int,
}

/// The layout of a transfer, or what is wrong with its rectangle: a corner
/// beyond the 32-bit range or an offset beyond the 64-bit range is
/// `CheckedArithmetic`; a rectangle that reaches out of the resource is
/// `CheckedRange`.
pub open spec fn spec_transfer_layout(
    resource_w: u32,
    resource_h: u32,
    rect_x: u32,
    rect_y: u32,
    rect_w: u32,
    rect_h: u32,
    dst_stride: u32,
    dst_offset: u64,
    src_stride: u32,
    src_offset: u64,
) -> Result<TransferLayout, RutabagaError> {
    if rect_x + rect_w > u32::MAX {
        Err(RutabagaError::CheckedArithmetic)
    } else if rect_x + rect_w > resource_w {
        Err(RutabagaError::CheckedRange)
    } else if rect_y + rect_h > u32::MAX {
        Err(RutabagaError::CheckedArithmetic)
    } else if rect_y + rect_h > resource_h {
        Err(RutabagaError::CheckedRange)
    } else if dst_offset + rect_y * dst_stride + rect_x * BYTES_PER_PIXEL > u64::MAX {
        Err(RutabagaError::CheckedArithmetic)
    } else if src_offset + rect_y * src_stride + rect_x * BYTES_PER_PIXEL > u64::MAX {
        Err(RutabagaError::CheckedArithmetic)
    } else {
        Ok(
            TransferLayout {
                row_bytes: rect_w * BYTES_PER_PIXEL,
                rows: rect_h as int,
                dst_stride: dst_stride as int,
                dst_start: dst_offset + rect_y * dst_stride + rect_x * BYTES_PER_PIXEL,
                src_stride: src_stride as int,
                src_start: src_offset + rect_y * src_stride + rect_x * BYTES_PER_PIXEL,
            },
        )
    }
}

/// `dst` with `size` bytes from `at` on replaced by those of `src` from
/// `from` on.
pub open spec fn spec_copy(dst: Seq<u8>, at: int, src: Seq<u8>, from: int, size: int) -> Seq<u8> {
    dst.subrange(0, at) + src.subrange(from, from + size) + dst.subrange(at + size, dst.len() as int)
}

/// One step of a transfer: the part of the current row that lies in the
/// current chunk is copied, and the transfer moves on to the next chunk,
/// the next row, or both.
///
/// A row that ends beyond the chunk goes on in the next chunk. A row that
/// lies wholly before the chunk is left out. An offset beyond the 64-bit
/// range is `CheckedArithmetic`; a part that does not fit into the
/// destination is `InvalidIovec`.
pub open spec fn spec_transfer_step(layout: TransferLayout, srcs: Seq<Seq<u8>>, p: TransferProgress)
    -> Result<TransferProgress, RutabagaError> {
    let src = srcs[p.src_index];
    let src_end_offset = p.src_start_offset + src.len();
    let src_line_start_offset = layout.src_start + p.current_height * layout.src_stride;
    let src_line_end_offset = src_line_start_offset + layout.row_bytes;
    let src_copyable_start_offset = if src_line_start_offset > p.src_start_offset {
        src_line_start_offset
    } else {
        p.src_start_offset
    };
    let src_copyable_end_offset = if src_line_end_offset < src_end_offset {
        src_line_end_offset
    } else {
        src_end_offset
    };
    let next_src = if src_copyable_start_offset < src_copyable_end_offset {
        src_line_end_offset >= src_end_offset
    } else {
        src_line_start_offset >= p.src_start_offset
    };
    let next_line = if src_copyable_start_offset < src_copyable_end_offset {
        src_line_end_offset <= src_end_offset
    } else {
        src_line_start_offset < p.src_start_offset
    };
    let copyable_size = src_copyable_end_offset - src_copyable_start_offset;
    let dst_start_offset = layout.dst_start + p.current_height * layout.dst_stride + (
    src_copyable_start_offset - src_line_start_offset);
    if src_end_offset > u64::MAX || src_line_end_offset > u64::MAX {
        Err(RutabagaError::CheckedArithmetic)
    } else if src_copyable_start_offset < src_copyable_end_offset && dst_start_offset
        + copyable_size > u64::MAX {
        Err(RutabagaError::CheckedArithmetic)
    } else if src_copyable_start_offset < src_copyable_end_offset && dst_start_offset
        + copyable_size > p.dst.len() {
        Err(RutabagaError::InvalidIovec)
    } else {
        Ok(
            TransferProgress {
                dst: if src_copyable_start_offset < src_copyable_end_offset {
                    spec_copy(
                        p.dst,
                        dst_start_offset,
                        src,
                        src_copyable_start_offset - p.src_start_offset,
                        copyable_size,
                    )
                } else {
                    p.dst
                },
                current_height: if next_line {
                    p.current_height + 1
                } else {
                    p.current_height
                },
                src_index: if next_src {
                    p.src_index + 1
                } else {
                    p.src_index
                },
                src_start_offset: if next_src {
                    src_end_offset
                } else {
                    p.src_start_offset
                },
            },
        )
    }
}

/// Whether a transfer is over: no chunk or no row is left.
pub open spec fn spec_transfer_over(layout: TransferLayout, srcs: Seq<Seq<u8>>, p: TransferProgress)
    -> bool {
    p.src_index >= srcs.len() || p.current_height >= layout.rows || p.src_index < 0
        || p.current_height < 0
}

/// The transfer from `p` on: the destination in the end, and the error that
/// stopped the transfer, if one did.
pub open spec fn spec_transfer_run(
    layout: TransferLayout,
    srcs: Seq<Seq<u8>>,
    p: TransferProgress,
    steps: nat,
) -> (Seq<u8>, Result<(), RutabagaError>)
    decreases steps,
{
    if spec_transfer_over(layout, srcs, p) || steps == 0 {
        (p.dst, Ok(()))
    } else {
        match spec_transfer_step(layout, srcs, p) {
            Err(e) => (p.dst, Err(e)),
            Ok(next) => spec_transfer_run(layout, srcs, next, (steps - 1) as nat),
        }
    }
}

/// How many steps a transfer takes at most from `p` on: each step uses up a
/// chunk or a row.
pub open spec fn spec_transfer_steps(layout: TransferLayout, srcs: Seq<Seq<u8>>, p: TransferProgress)
    -> nat {
    if spec_transfer_over(layout, srcs, p) {
        0
    } else {
        ((srcs.len() - p.src_index) + (layout.rows - p.current_height)) as nat
    }
}

/// What a transfer comes to: the destination in the end, and the result.
/// An empty rectangle changes nothing and is no error, wherever it lies.
pub open spec fn spec_transfer_2d(
    resource_w: u32,
    resource_h: u32,
    rect_x: u32,
    rect_y: u32,
    rect_w: u32,
    rect_h: u32,
    dst_stride: u32,
    dst_offset: u64,
    dst: Seq<u8>,
    src_stride: u32,
    src_offset: u64,
    srcs: Seq<Seq<u8>>,
) -> (Seq<u8>, Result<(), RutabagaError>) {
    if rect_w == 0 || rect_h == 0 {
        (dst, Ok(()))
    } else {
        match spec_transfer_layout(
            resource_w,
            resource_h,
            rect_x,
            rect_y,
            rect_w,
            rect_h,
            dst_stride,
            dst_offset,
            src_stride,
            src_offset,
        ) {
            Err(e) => (dst, Err(e)),
            Ok(layout) => {
                let start = TransferProgress {
                    dst,
                    current_height: 0,
                    src_index: 0,
                    src_start_offset: 0,
                };
                spec_transfer_run(layout, srcs, start, spec_transfer_steps(layout, srcs, start))
            },
        }
    }
}

/// Chunks of memory as plain values.
pub open spec fn spec_chunks(srcs: Seq<&[u8]>) -> Seq<Seq<u8>> {
    Seq::new(srcs.len(), |i: int| srcs[i]@)
}

/// Copies `size` bytes of `src` from `from` on to `dst` from `at` on.
pub fn copy_part(dst: &mut [u8], at: usize, src: &[u8], from: usize, size: usize)
    requires
        at + size <= old(dst)@.len(),
        from + size <= src@.len(),
    ensures
        final(dst)@ == spec_copy(old(dst)@, at as int, src@, from as int, size as int),
{
    let dst_len: usize = dst.len();
    let src_len: usize = src.len();
    let mut k: usize = 0;
    assert(dst@ =~= spec_copy(old(dst)@, at as int, src@, from as int, 0));
    while k < size
        invariant
            k <= size,
            at + size <= dst_len,
            from + size <= src_len,
            dst_len == dst@.len(),
            src_len == src@.len(),
            dst@.len() == old(dst)@.len(),
            dst@ == spec_copy(old(dst)@, at as int, src@, from as int, k as int),
        decreases size - k,
    {
        dst[at + k] = src[from + k];
        k += 1;
        assert(dst@ =~= spec_copy(old(dst)@, at as int, src@, from as int, k as int));
    }
}

/// With steps to spare a transfer comes to the same.
pub proof fn lemma_transfer_steps_suffice(
    layout: TransferLayout,
    srcs: Seq<Seq<u8>>,
    p: TransferProgress,
    steps: nat,
)
    requires
        steps >= spec_transfer_steps(layout, srcs, p),
    ensures
        spec_transfer_run(layout, srcs, p, steps) == spec_transfer_run(
            layout,
            srcs,
            p,
            spec_transfer_steps(layout, srcs, p),
        ),
    decreases steps,
{
    if spec_transfer_over(layout, srcs, p) {
    } else {
        match spec_transfer_step(layout, srcs, p) {
            Err(_) => {},
            Ok(next) => {
                lemma_transfer_steps_suffice(layout, srcs, next, (steps - 1) as nat);
                lemma_transfer_steps_suffice(
                    layout,
                    srcs,
                    next,
                    (spec_transfer_steps(layout, srcs, p) - 1) as nat,
                );
            },
        }
    }
}

/// Transfers a rectangle of a resource from potentially many chunked
/// source slices to a destination slice.
///
/// The rows of the rectangle are `src_stride` bytes apart in the source,
/// counted through all chunks from `src_offset` on, and `dst_stride` bytes
/// apart in the destination from `dst_offset` on. Rows and chunks are gone
/// through once, from first to last; what lies beyond the last chunk is
/// not copied, which is no error. On an error the destination keeps what
/// has been copied up to then.
pub fn transfer_2d(
    resource_w: u32,
    resource_h: u32,
    rect_x: u32,
    rect_y: u32,
    rect_w: u32,
    rect_h: u32,
    dst_stride: u32,
    dst_offset: u64,
    dst: &mut [u8],
    src_stride: u32,
    src_offset: u64,
    srcs: &[&[u8]],
) -> (r: RutabagaResult<()>)
    ensures
        (final(dst)@, r) == spec_transfer_2d(
            resource_w,
            resource_h,
            rect_x,
            rect_y,
            rect_w,
            rect_h,
            dst_stride,
            dst_offset,
            old(dst)@,
            src_stride,
            src_offset,
            spec_chunks(srcs@),
        ),
        final(dst)@.len() == old(dst)@.len(),
{
    if rect_w == 0 || rect_h == 0 {
        return Ok(());
    }
    match rect_x.checked_add(rect_w) {
        None => {
            return Err(RutabagaError::CheckedArithmetic);
        },
        Some(right) => {
            if right > resource_w {
                return Err(RutabagaError::CheckedRange);
            }
        },
    }
    match rect_y.checked_add(rect_h) {
        None => {
            return Err(RutabagaError::CheckedArithmetic);
        },
        Some(bottom) => {
            if bottom > resource_h {
                return Err(RutabagaError::CheckedRange);
            }
        },
    }
    let rows: u64 = rect_h as u64;
    let dst_pitch: u64 = dst_stride as u64;
    let src_pitch: u64 = src_stride as u64;
    let row_x: u64 = rect_x as u64 * BYTES_PER_PIXEL;
    let row_bytes: u64 = rect_w as u64 * BYTES_PER_PIXEL;

    let dst_resource_offset: u64 = match offset_of(dst_offset, rect_y as u64, dst_pitch, row_x) {
        Some(offset) => offset,
        None => {
            return Err(RutabagaError::CheckedArithmetic);
        },
    };
    let src_resource_offset: u64 = match offset_of(src_offset, rect_y as u64, src_pitch, row_x) {
        Some(offset) => offset,
        None => {
            return Err(RutabagaError::CheckedArithmetic);
        },
    };
    let ghost layout = TransferLayout {
        row_bytes: row_bytes as int,
        rows: rows as int,
        dst_stride: dst_pitch as int,
        dst_start: dst_resource_offset as int,
        src_stride: src_pitch as int,
        src_start: src_resource_offset as int,
    };
    let ghost start = TransferProgress {
        dst: old(dst)@,
        current_height: 0,
        src_index: 0,
        src_start_offset: 0,
    };
    let ghost chunks = spec_chunks(srcs@);
    let ghost goal = spec_transfer_run(
        layout,
        chunks,
        start,
        spec_transfer_steps(layout, chunks, start),
    );

    let num_srcs: usize = srcs.len();
    let dst_len: usize = dst.len();
    let mut current_height: u64 = 0;
    let mut src_index: usize = 0;
    // Cumulative start offset of the current src.
    let mut src_start_offset: u64 = 0;
    while src_index < num_srcs && current_height < rows
        invariant
            num_srcs == srcs@.len(),
            dst_len == dst@.len(),
            dst@.len() == old(dst)@.len(),
            src_index <= num_srcs,
            current_height <= rows,
            goal == spec_transfer_2d(
                resource_w,
                resource_h,
                rect_x,
                rect_y,
                rect_w,
                rect_h,
                dst_stride,
                dst_offset,
                old(dst)@,
                src_stride,
                src_offset,
                chunks,
            ),
            chunks == spec_chunks(srcs@),
            layout == (TransferLayout {
                row_bytes: row_bytes as int,
                rows: rows as int,
                dst_stride: dst_pitch as int,
                dst_start: dst_resource_offset as int,
                src_stride: src_pitch as int,
                src_start: src_resource_offset as int,
            }),
            goal == ({
                let p = TransferProgress {
                    dst: dst@,
                    current_height: current_height as int,
                    src_index: src_index as int,
                    src_start_offset: src_start_offset as int,
                };
                spec_transfer_run(layout, chunks, p, spec_transfer_steps(layout, chunks, p))
            }),
        decreases (num_srcs - src_index) + (rows - current_height),
    {
        let src: &[u8] = srcs[src_index];
        let src_size: u64 = src.len() as u64;
        let ghost p = TransferProgress {
            dst: dst@,
            current_height: current_height as int,
            src_index: src_index as int,
            src_start_offset: src_start_offset as int,
        };
        proof {
            assert(chunks[src_index as int] == src@);
            match spec_transfer_step(layout, chunks, p) {
                Err(_) => {},
                Ok(next) => {
                    lemma_transfer_steps_suffice(
                        layout,
                        chunks,
                        next,
                        (spec_transfer_steps(layout, chunks, p) - 1) as nat,
                    );
                },
            }
        }

        // Cumulative end offset of the current src.
        let src_end_offset: u64 = match src_start_offset.checked_add(src_size) {
            Some(v) => v,
            None => {
                return Err(RutabagaError::CheckedArithmetic);
            },
        };
        // Cumulative start/end offsets of the next line to copy within all srcs.
        let src_line_start_offset: u64 = match offset_of(
            src_resource_offset,
            current_height,
            src_pitch,
            0,
        ) {
            Some(v) => v,
            None => {
                return Err(RutabagaError::CheckedArithmetic);
            },
        };
        let src_line_end_offset: u64 = match src_line_start_offset.checked_add(row_bytes) {
            Some(v) => v,
            None => {
                return Err(RutabagaError::CheckedArithmetic);
            },
        };

        // Clamp the line start/end offset to be inside the current src.
        let src_copyable_start_offset: u64 = if src_line_start_offset > src_start_offset {
            src_line_start_offset
        } else {
            src_start_offset
        };
        let src_copyable_end_offset: u64 = if src_line_end_offset < src_end_offset {
            src_line_end_offset
        } else {
            src_end_offset
        };
        let next_src: bool;
        let next_line: bool;
        if src_copyable_start_offset < src_copyable_end_offset {
            let copyable_size: u64 = src_copyable_end_offset - src_copyable_start_offset;
            let offset_within_src: u64 = src_copyable_start_offset - src_start_offset;
            next_src = src_line_end_offset >= src_end_offset;
            next_line = src_line_end_offset <= src_end_offset;

            let dst_line_horizontal_offset: u64 = src_copyable_start_offset
                - src_line_start_offset;
            let dst_start_offset: u64 = match offset_of(
                dst_resource_offset,
                current_height,
                dst_pitch,
                dst_line_horizontal_offset,
            ) {
                Some(v) => v,
                None => {
                    return Err(RutabagaError::CheckedArithmetic);
                },
            };
            let dst_end_offset: u64 = match dst_start_offset.checked_add(copyable_size) {
                Some(v) => v,
                None => {
                    return Err(RutabagaError::CheckedArithmetic);
                },
            };
            if dst_end_offset > dst_len as u64 {
                return Err(RutabagaError::InvalidIovec);
            }
            copy_part(
                dst,
                dst_start_offset as usize,
                src,
                offset_within_src as usize,
                copyable_size as usize,
            );
        } else if src_line_start_offset >= src_start_offset {
            next_src = true;
            next_line = false;
        } else {
            next_src = false;
            next_line = true;
        }
        if next_src {
            src_start_offset = src_end_offset;
            src_index += 1;
        }
        if next_line {
            current_height += 1;
        }
    }
    Ok(())
}

/// `base + row * stride + within`, if it is within the 64-bit range.
pub fn offset_of(base: u64, row: u64, stride: u64, within: u64) -> (r: Option<u64>)
    ensures
        r == if base + row * stride + within > u64::MAX {
            None::<u64>
        } else {
            Some((base + row * stride + within) as u64)
        },
{
    assert(row * stride >= 0) by (nonlinear_arith)
        requires
            row >= 0,
            stride >= 0,
    ;
    let vertical: u64 = match row.checked_mul(stride) {
        Some(v) => v,
        None => {
            return None;
        },
    };
    let line: u64 = match base.checked_add(vertical) {
        Some(v) => v,
        None => {
            return None;
        },
    };
    line.checked_add(within)
}

/// The software 2D component.
pub struct Rutabaga2D {}

/// Two resources differ in nothing but the host copy of their pixels.
pub open spec fn spec_same_but_host_mem(a: RutabagaResource, b: RutabagaResource) -> bool {
    &&& a.info_2d is Some
    &&& b.info_2d is Some
    &&& a.info_2d.unwrap().width == b.info_2d.unwrap().width
    &&& a.info_2d.unwrap().height == b.info_2d.unwrap().height
    &&& a.info_2d.unwrap().scanout_stride == b.info_2d.unwrap().scanout_stride
    &&& a.info_2d.unwrap().host_mem is Some
    &&& b.info_2d.unwrap().host_mem is Some
    &&& a == (RutabagaResource { info_2d: a.info_2d, ..b })
}

/// What keeps a write to a 2D resource from being a copy, if anything:
/// `Ok(false)` says that there is nothing to do, `Ok(true)` that the copy
/// goes ahead.
///
/// An empty box is nothing to do. A buffer of the caller's own is not
/// supported. A resource without 2D information is `Invalid2DInfo`. A
/// guest-only blob has no host copy to write to, which is nothing to do;
/// any other resource without a host copy is `Invalid2DInfo`. A resource
/// without guest memory is `InvalidIovec`. A row length beyond the 32-bit
/// range is `CheckedArithmetic`.
pub open spec fn spec_transfer_write_check(
    resource: RutabagaResource,
    transfer: Transfer3D,
    has_buf: bool,
) -> Result<bool, RutabagaError> {
    if transfer.spec_is_empty() {
        Ok(false)
    } else if has_buf {
        Err(RutabagaError::MesaError(MesaError::Unsupported))
    } else if resource.info_2d is None {
        Err(RutabagaError::Invalid2DInfo)
    } else if resource.info_2d.unwrap().host_mem is None {
        if resource.blob_mem == RUTABAGA_BLOB_MEM_GUEST {
            Ok(false)
        } else {
            Err(RutabagaError::Invalid2DInfo)
        }
    } else if resource.backing_iovecs is None {
        Err(RutabagaError::InvalidIovec)
    } else if 4 * resource.info_2d.unwrap().width > u32::MAX {
        Err(RutabagaError::CheckedArithmetic)
    } else {
        Ok(true)
    }
}

/// Where the source of a read from a 2D resource lies, if the read can go
/// ahead: `true` for the host copy, `false` for the guest memory of a
/// guest-only blob.
///
/// Without a destination there is nothing to read into. A resource without
/// 2D information is `Invalid2DInfo`. A guest-only blob needs the stride
/// that a scanout gave it (`InvalidResourceId`) and guest memory
/// (`InvalidIovec`). A row length beyond the 32-bit range is
/// `CheckedArithmetic`.
pub open spec fn spec_transfer_read_check(resource: RutabagaResource, has_buf: bool) -> Result<
    bool,
    RutabagaError,
> {
    if !has_buf {
        Err(
            RutabagaError::MesaError(
                MesaError::WithContext("need a destination slice for transfer read"),
            ),
        )
    } else if resource.info_2d is None {
        Err(RutabagaError::Invalid2DInfo)
    } else if resource.info_2d.unwrap().host_mem is None {
        if resource.info_2d.unwrap().scanout_stride is None {
            Err(RutabagaError::InvalidResourceId)
        } else if resource.backing_iovecs is None {
            Err(RutabagaError::InvalidIovec)
        } else {
            Ok(false)
        }
    } else if 4 * resource.info_2d.unwrap().width > u32::MAX {
        Err(RutabagaError::CheckedArithmetic)
    } else {
        Ok(true)
    }
}

impl Rutabaga2D {
    /// Makes the component.
    pub fn init() -> (r: RutabagaResult<Rutabaga2D>)
        ensures
            r is Ok,
    {
        Ok(Rutabaga2D {  })
    }

    /// A fence of the component is to be signaled at once: the result is
    /// the fence to signal.
    pub fn create_fence(&self, fence: RutabagaFence) -> (r: RutabagaResult<RutabagaFence>)
        ensures
            r == Ok::<RutabagaFence, RutabagaError>(fence),
    {
        Ok(fence)
    }

    /// Makes a resource of `width` by `height` pixels with a host copy of
    /// zeros, four bytes to the pixel and rows without gaps. A size beyond
    /// what the machine can address is `CheckedArithmetic`.
    pub fn create_3d(&self, resource_id: u32, resource_create_3d: ResourceCreate3D) -> (r:
        RutabagaResult<RutabagaResource>)
        ensures
            r is Ok <==> 4 * resource_create_3d.width <= u32::MAX && 4 * resource_create_3d.width
                * resource_create_3d.height <= usize::MAX,
            r is Err ==> r == Err::<RutabagaResource, RutabagaError>(
                RutabagaError::CheckedArithmetic,
            ),
            r is Ok ==> {
                let res = r.unwrap();
                &&& res.info_2d is Some
                &&& res.info_2d.unwrap().width == resource_create_3d.width
                &&& res.info_2d.unwrap().height == resource_create_3d.height
                &&& res.info_2d.unwrap().scanout_stride is None
                &&& res.info_2d.unwrap().host_mem is Some
                &&& res.info_2d.unwrap().host_mem.unwrap()@ == Seq::new(
                    (4 * resource_create_3d.width * resource_create_3d.height) as nat,
                    |i: int| 0u8,
                )
                &&& res == (RutabagaResource {
                    resource_id,
                    handle: None,
                    blob: false,
                    blob_mem: 0,
                    blob_flags: 0,
                    map_info: None,
                    info_2d: res.info_2d,
                    info_3d: None,
                    vulkan_info: None,
                    backing_iovecs: None,
                    component_mask: RutabagaComponentType::Rutabaga2D.spec_mask(),
                    size: (4 * resource_create_3d.width * resource_create_3d.height) as u64,
                    guest_cpu_mappable: false,
                })
            },
    {
        // All virtio formats are 4 bytes per pixel.
        let resource_stride: u32 = match resource_create_3d.width.checked_mul(4) {
            Some(stride) => stride,
            None => {
                return Err(RutabagaError::CheckedArithmetic);
            },
        };
        let resource_size: usize = match (resource_stride as usize).checked_mul(
            resource_create_3d.height as usize,
        ) {
            Some(size) => size,
            None => {
                return Err(RutabagaError::CheckedArithmetic);
            },
        };
        let host_mem: Vec<u8> = vec![0u8; resource_size];
        assert(host_mem@ =~= Seq::new(resource_size as nat, |i: int| 0u8));
        let info_2d = Rutabaga2DInfo {
            width: resource_create_3d.width,
            height: resource_create_3d.height,
            host_mem: Some(host_mem),
            scanout_stride: None,
        };
        Ok(
            RutabagaResource {
                resource_id,
                handle: None,
                blob: false,
                blob_mem: 0,
                blob_flags: 0,
                map_info: None,
                info_2d: Some(info_2d),
                info_3d: None,
                vulkan_info: None,
                backing_iovecs: None,
                component_mask: RutabagaComponentType::Rutabaga2D.mask(),
                size: resource_size as u64,
                guest_cpu_mappable: false,
            },
        )
    }

    /// Makes a blob resource of guest memory, which may serve as a scanout
    /// of images with rows that have gaps. Any other kind of blob is not
    /// supported.
    pub fn create_blob(
        &self,
        _ctx_id: u32,
        resource_id: u32,
        resource_create_blob: ResourceCreateBlob,
        iovec_opt: Option<Vec<RutabagaIovec>>,
    ) -> (r: RutabagaResult<RutabagaResource>)
        ensures
            r == if resource_create_blob.blob_mem != RUTABAGA_BLOB_MEM_GUEST {
                Err::<RutabagaResource, RutabagaError>(
                    RutabagaError::MesaError(MesaError::Unsupported),
                )
            } else {
                Ok::<RutabagaResource, RutabagaError>(
                    RutabagaResource {
                        resource_id,
                        handle: None,
                        blob: true,
                        blob_mem: resource_create_blob.blob_mem,
                        blob_flags: resource_create_blob.blob_flags,
                        map_info: None,
                        info_2d: Some(
                            Rutabaga2DInfo {
                                width: 0,
                                height: 0,
                                host_mem: None,
                                scanout_stride: None,
                            },
                        ),
                        info_3d: None,
                        vulkan_info: None,
                        backing_iovecs: iovec_opt,
                        component_mask: RutabagaComponentType::Rutabaga2D.spec_mask(),
                        size: resource_create_blob.size,
                        guest_cpu_mappable: false,
                    },
                )
            },
    {
        if resource_create_blob.blob_mem != RUTABAGA_BLOB_MEM_GUEST {
            return Err(RutabagaError::MesaError(MesaError::Unsupported));
        }
        let info_2d = Rutabaga2DInfo { width: 0, height: 0, host_mem: None, scanout_stride: None };
        Ok(
            RutabagaResource {
                resource_id,
                handle: None,
                blob: true,
                blob_mem: resource_create_blob.blob_mem,
                blob_flags: resource_create_blob.blob_flags,
                map_info: None,
                info_2d: Some(info_2d),
                info_3d: None,
                vulkan_info: None,
                backing_iovecs: iovec_opt,
                component_mask: RutabagaComponentType::Rutabaga2D.mask(),
                size: resource_create_blob.size,
                guest_cpu_mappable: false,
            },
        )
    }

    /// Copies a rectangle from the guest memory of a resource to its host
    /// copy. `srcs` is the guest memory, region by region; the rectangle's
    /// rows lie in it from `transfer.offset` on, one resource row apart.
    pub fn transfer_write(
        &self,
        _ctx_id: u32,
        resource: &mut RutabagaResource,
        transfer: Transfer3D,
        buf: Option<&[u8]>,
        srcs: &[&[u8]],
    ) -> (r: RutabagaResult<()>)
        ensures
            match spec_transfer_write_check(*old(resource), transfer, buf is Some) {
                Err(e) => r == Err::<(), RutabagaError>(e) && *final(resource) == *old(resource),
                Ok(false) => r == Ok::<(), RutabagaError>(()) && *final(resource) == *old(
                    resource,
                ),
                Ok(true) => spec_same_but_host_mem(*final(resource), *old(resource)) && (
                    final(resource).info_2d.unwrap().host_mem.unwrap()@,
                    r,
                ) == spec_transfer_2d(
                    old(resource).info_2d.unwrap().width,
                    old(resource).info_2d.unwrap().height,
                    transfer.x,
                    transfer.y,
                    transfer.w,
                    transfer.h,
                    (4 * old(resource).info_2d.unwrap().width) as u32,
                    0,
                    old(resource).info_2d.unwrap().host_mem.unwrap()@,
                    (4 * old(resource).info_2d.unwrap().width) as u32,
                    transfer.offset,
                    spec_chunks(srcs@),
                ),
            },
    {
        if transfer.is_empty() {
            return Ok(());
        }
        if buf.is_some() {
            return Err(RutabagaError::MesaError(MesaError::Unsupported));
        }
        let mut info_2d = match resource.info_2d.take() {
            Some(info_2d) => info_2d,
            None => {
                return Err(RutabagaError::Invalid2DInfo);
            },
        };
        let mut host_mem = match info_2d.host_mem.take() {
            Some(host_mem) => host_mem,
            None => {
                // For guest-only blobs, a write to the host copy is a no-op.
                let guest_only = resource.blob_mem == RUTABAGA_BLOB_MEM_GUEST;
                resource.info_2d = Some(info_2d);
                return if guest_only {
                    Ok(())
                } else {
                    Err(RutabagaError::Invalid2DInfo)
                };
            },
        };
        if resource.backing_iovecs.is_none() {
            info_2d.host_mem = Some(host_mem);
            resource.info_2d = Some(info_2d);
            return Err(RutabagaError::InvalidIovec);
        }
        // All official virtio_gpu formats are 4 bytes per pixel.
        let stride: u32 = match info_2d.width.checked_mul(4) {
            Some(stride) => stride,
            None => {
                info_2d.host_mem = Some(host_mem);
                resource.info_2d = Some(info_2d);
                return Err(RutabagaError::CheckedArithmetic);
            },
        };
        let r = transfer_2d(
            info_2d.width,
            info_2d.height,
            transfer.x,
            transfer.y,
            transfer.w,
            transfer.h,
            stride,
            0,
            host_mem.as_mut_slice(),
            stride,
            transfer.offset,
            srcs,
        );
        info_2d.host_mem = Some(host_mem);
        resource.info_2d = Some(info_2d);
        r
    }

    /// Copies a rectangle of a resource to `buf`, where its rows lie
    /// `transfer.stride` bytes apart from the start on. The source is the
    /// host copy if there is one; for a guest-only blob it is `srcs`, the
    /// guest memory region by region, with rows as far apart as the scanout
    /// said. The resource itself does not change.
    pub fn transfer_read(
        &self,
        _ctx_id: u32,
        resource: &RutabagaResource,
        transfer: Transfer3D,
        buf: &mut [u8],
        srcs: &[&[u8]],
    ) -> (r: RutabagaResult<()>)
        ensures
            match spec_transfer_read_check(*resource, true) {
                Err(e) => r == Err::<(), RutabagaError>(e) && final(buf)@ == old(buf)@,
                Ok(from_host) => (final(buf)@, r) == if from_host {
                    spec_transfer_2d(
                        resource.info_2d.unwrap().width,
                        resource.info_2d.unwrap().height,
                        transfer.x,
                        transfer.y,
                        transfer.w,
                        transfer.h,
                        transfer.stride,
                        0,
                        old(buf)@,
                        (4 * resource.info_2d.unwrap().width) as u32,
                        0,
                        seq![resource.info_2d.unwrap().host_mem.unwrap()@],
                    )
                } else {
                    spec_transfer_2d(
                        transfer.w,
                        transfer.h,
                        transfer.x,
                        transfer.y,
                        transfer.w,
                        transfer.h,
                        transfer.stride,
                        0,
                        old(buf)@,
                        resource.info_2d.unwrap().scanout_stride.unwrap(),
                        0,
                        spec_chunks(srcs@),
                    )
                },
            },
    {
        let info_2d = match &resource.info_2d {
            Some(info_2d) => info_2d,
            None => {
                return Err(RutabagaError::Invalid2DInfo);
            },
        };
        match &info_2d.host_mem {
            None => {
                // Blob (guest only) provides stride in the scanout command.
                let scanout_stride = match info_2d.scanout_stride {
                    Some(scanout_stride) => scanout_stride,
                    None => {
                        return Err(RutabagaError::InvalidResourceId);
                    },
                };
                if resource.backing_iovecs.is_none() {
                    return Err(RutabagaError::InvalidIovec);
                }
                transfer_2d(
                    transfer.w,
                    transfer.h,
                    transfer.x,
                    transfer.y,
                    transfer.w,
                    transfer.h,
                    transfer.stride,
                    0,
                    buf,
                    scanout_stride,
                    0,
                    srcs,
                )
            },
            Some(host_mem) => {
                // All official virtio_gpu formats are 4 bytes per pixel.
                let src_stride: u32 = match info_2d.width.checked_mul(4) {
                    Some(stride) => stride,
                    None => {
                        return Err(RutabagaError::CheckedArithmetic);
                    },
                };
                let host: [&[u8]; 1] = [host_mem.as_slice()];
                let host_srcs: &[&[u8]] = array_as_slice(&host);
                assert(spec_chunks(host_srcs@) =~= seq![host_mem@]);
                transfer_2d(
                    info_2d.width,
                    info_2d.height,
                    transfer.x,
                    transfer.y,
                    transfer.w,
                    transfer.h,
                    transfer.stride,
                    0,
                    buf,
                    src_stride,
                    0,
                    host_srcs,
                )
            },
        }
    }

    /// A read without a destination has nothing to read into.
    pub fn transfer_read_without_buffer(&self) -> (r: RutabagaResult<()>)
        ensures
            r == Err::<(), RutabagaError>(
                RutabagaError::MesaError(
                    MesaError::WithContext("need a destination slice for transfer read"),
                ),
            ),
    {
        Err(
            RutabagaError::MesaError(
                MesaError::WithContext("need a destination slice for transfer read"),
            ),
        )
    }
}

} // verus!
