//! What a transfer comes to when its rows lie in order: each row is copied
//! as far as the source reaches.

use crate::rutabaga_2d::spec_copy;
use crate::rutabaga_2d::spec_transfer_2d;
use crate::rutabaga_2d::spec_transfer_layout;
use crate::rutabaga_2d::spec_transfer_over;
use crate::rutabaga_2d::spec_transfer_run;
use crate::rutabaga_2d::spec_transfer_step;
use crate::rutabaga_2d::spec_transfer_steps;
use crate::rutabaga_2d::TransferLayout;
use crate::rutabaga_2d::TransferProgress;
use crate::rutabaga_utils::RutabagaError;
use vstd::prelude::*;

verus! {

/// The first `n` chunks as one run of bytes.
pub open spec fn spec_flat(chunks: Seq<Seq<u8>>, n: int) -> Seq<u8>
    decreases n,
{
    if n <= 0 {
        Seq::empty()
    } else {
        spec_flat(chunks, n - 1) + chunks[n - 1]
    }
}

/// Where row `h` begins in the source.
pub open spec fn spec_src_row(layout: TransferLayout, h: int) -> int {
    layout.src_start + h * layout.src_stride
}

/// Where row `h` begins in the destination.
pub open spec fn spec_dst_row(layout: TransferLayout, h: int) -> int {
    layout.dst_start + h * layout.dst_stride
}

/// How many bytes of row `h` lie in the first `reach` bytes of the source.
pub open spec fn spec_row_reach(layout: TransferLayout, reach: int, h: int) -> int {
    if reach <= spec_src_row(layout, h) {
        0
    } else if reach >= spec_src_row(layout, h) + layout.row_bytes {
        layout.row_bytes
    } else {
        reach - spec_src_row(layout, h)
    }
}

/// `dst` after row `h` has been copied as far as the first `reach` bytes
/// of the source go.
pub open spec fn spec_row_copied(
    layout: TransferLayout,
    flat: Seq<u8>,
    dst: Seq<u8>,
    h: int,
    reach: int,
) -> Seq<u8> {
    if spec_row_reach(layout, reach, h) <= 0 {
        dst
    } else {
        spec_copy(
            dst,
            spec_dst_row(layout, h),
            flat,
            spec_src_row(layout, h),
            spec_row_reach(layout, reach, h),
        )
    }
}

/// `dst` after the first `rows` rows have been copied, one after the other,
/// each as far as the source reaches.
pub open spec fn spec_rows_copied(layout: TransferLayout, flat: Seq<u8>, dst: Seq<u8>, rows: int)
    -> Seq<u8>
    decreases rows,
{
    if rows <= 0 {
        dst
    } else {
        spec_row_copied(
            layout,
            flat,
            spec_rows_copied(layout, flat, dst, rows - 1),
            rows - 1,
            flat.len() as int,
        )
    }
}

/// A transfer whose rows lie in order and within bounds: the rows are at
/// least a row apart in the source, no chunk is empty, nothing leaves the
/// 64-bit range, and every row fits into the destination.
pub open spec fn spec_rows_in_order(layout: TransferLayout, chunks: Seq<Seq<u8>>, dst: Seq<u8>)
    -> bool {
    &&& layout.row_bytes > 0
    &&& layout.rows > 0
    &&& layout.src_stride >= layout.row_bytes
    &&& layout.src_start >= 0
    &&& layout.dst_start >= 0
    &&& layout.dst_stride >= 0
    &&& forall|i: int| 0 <= i < chunks.len() ==> (#[trigger] chunks[i]).len() > 0
    &&& spec_flat(chunks, chunks.len() as int).len() <= u64::MAX
    &&& spec_src_row(layout, layout.rows - 1) + layout.row_bytes <= u64::MAX
    &&& spec_dst_row(layout, layout.rows - 1) + layout.row_bytes <= dst.len()
    &&& dst.len() <= u64::MAX
}

/// Rows follow each other at the distance of the stride.
pub proof fn lemma_row_step(layout: TransferLayout, h: int)
    ensures
        spec_src_row(layout, h + 1) == spec_src_row(layout, h) + layout.src_stride,
        spec_dst_row(layout, h + 1) == spec_dst_row(layout, h) + layout.dst_stride,
{
    assert((h + 1) * layout.src_stride == h * layout.src_stride + layout.src_stride)
        by (nonlinear_arith);
    assert((h + 1) * layout.dst_stride == h * layout.dst_stride + layout.dst_stride)
        by (nonlinear_arith);
}

/// Later rows begin later.
pub proof fn lemma_rows_ascend(layout: TransferLayout, h: int, k: int)
    requires
        layout.src_stride >= 0,
        layout.dst_stride >= 0,
        0 <= h <= k,
    ensures
        spec_src_row(layout, h) <= spec_src_row(layout, k),
        spec_dst_row(layout, h) <= spec_dst_row(layout, k),
        spec_src_row(layout, k) - spec_src_row(layout, h) >= (k - h) * layout.src_stride,
{
    assert(h * layout.src_stride <= k * layout.src_stride) by (nonlinear_arith)
        requires
            layout.src_stride >= 0,
            h <= k,
    ;
    assert(h * layout.dst_stride <= k * layout.dst_stride) by (nonlinear_arith)
        requires
            layout.dst_stride >= 0,
            h <= k,
    ;
    assert(k * layout.src_stride - h * layout.src_stride == (k - h) * layout.src_stride)
        by (nonlinear_arith);
}

/// The length of the first `n` chunks grows with `n`.
pub proof fn lemma_flat_grows(chunks: Seq<Seq<u8>>, m: int, n: int)
    requires
        0 <= m <= n <= chunks.len(),
    ensures
        spec_flat(chunks, m).len() <= spec_flat(chunks, n).len(),
    decreases n - m,
{
    if m < n {
        lemma_flat_grows(chunks, m, n - 1);
    }
}

/// Chunk `i` lies in the run of the first `n` chunks where the first `i`
/// chunks end.
pub proof fn lemma_flat_holds_chunk(chunks: Seq<Seq<u8>>, i: int, n: int, j: int)
    requires
        0 <= i < n <= chunks.len(),
        0 <= j < chunks[i].len(),
    ensures
        spec_flat(chunks, i).len() + j < spec_flat(chunks, n).len(),
        spec_flat(chunks, n)[spec_flat(chunks, i).len() + j] == chunks[i][j],
    decreases n - i,
{
    if n == i + 1 {
    } else {
        lemma_flat_holds_chunk(chunks, i, n - 1, j);
    }
}

/// Copying the next piece of a row after its first `a` bytes gives the same
/// as copying its first `a + b` bytes at once, whether the piece is taken
/// from the chunk or from the run of all chunks.
pub proof fn lemma_copy_extends(
    dst: Seq<u8>,
    at: int,
    flat: Seq<u8>,
    from: int,
    a: int,
    chunk: Seq<u8>,
    off: int,
    b: int,
)
    requires
        0 <= at,
        0 <= from,
        0 <= a,
        0 < b,
        0 <= off,
        at + a + b <= dst.len(),
        from + a + b <= flat.len(),
        off + b <= chunk.len(),
        chunk.subrange(off, off + b) == flat.subrange(from + a, from + a + b),
    ensures
        spec_copy(
            if a > 0 {
                spec_copy(dst, at, flat, from, a)
            } else {
                dst
            },
            at + a,
            chunk,
            off,
            b,
        ) =~= spec_copy(dst, at, flat, from, a + b),
{
    let piece = chunk.subrange(off, off + b);
    let whole = flat.subrange(from, from + a + b);
    assert forall|j: int| 0 <= j < b implies piece[j] == whole[a + j] by {
        assert(piece[j] == flat.subrange(from + a, from + a + b)[j]);
    }
}

/// The progress of a transfer whose rows lie in order: the rows before the
/// current one are copied, and the current one as far as the chunks before
/// the current one reach.
pub open spec fn spec_progress_in_order(
    layout: TransferLayout,
    chunks: Seq<Seq<u8>>,
    dst: Seq<u8>,
    p: TransferProgress,
) -> bool {
    let flat = spec_flat(chunks, chunks.len() as int);
    &&& 0 <= p.current_height <= layout.rows
    &&& 0 <= p.src_index <= chunks.len()
    &&& p.src_start_offset == spec_flat(chunks, p.src_index).len()
    &&& p.current_height < layout.rows ==> p.src_start_offset <= spec_src_row(
        layout,
        p.current_height,
    ) + layout.row_bytes
    &&& p.current_height > 0 ==> spec_src_row(layout, p.current_height - 1) + layout.row_bytes
        <= flat.len()
    &&& p.current_height > 0 ==> spec_src_row(layout, p.current_height - 1) + layout.row_bytes
        <= p.src_start_offset + if p.src_index < chunks.len() {
        chunks[p.src_index].len()
    } else {
        0
    }
    &&& p.dst.len() == dst.len()
    &&& p.dst == if p.current_height < layout.rows {
        spec_row_copied(
            layout,
            flat,
            spec_rows_copied(layout, flat, dst, p.current_height),
            p.current_height,
            p.src_start_offset,
        )
    } else {
        spec_rows_copied(layout, flat, dst, p.current_height)
    }
}

/// Copying rows keeps the length of the destination.
pub proof fn lemma_rows_copied_len(layout: TransferLayout, flat: Seq<u8>, dst: Seq<u8>, rows: int)
    requires
        layout.row_bytes > 0,
        layout.src_start >= 0,
        layout.src_stride >= 0,
        layout.dst_start >= 0,
        layout.dst_stride >= 0,
        0 <= rows,
        rows > 0 ==> spec_dst_row(layout, rows - 1) + layout.row_bytes <= dst.len(),
    ensures
        spec_rows_copied(layout, flat, dst, rows).len() == dst.len(),
    decreases rows,
{
    if rows > 0 {
        if rows > 1 {
            lemma_rows_ascend(layout, rows - 2, rows - 1);
        }
        lemma_rows_copied_len(layout, flat, dst, rows - 1);
        lemma_rows_ascend(layout, 0, rows - 1);
    }
}

/// Rows that begin where the source has ended copy nothing.
pub proof fn lemma_rows_beyond_the_source(
    layout: TransferLayout,
    flat: Seq<u8>,
    dst: Seq<u8>,
    from: int,
    rows: int,
)
    requires
        layout.src_stride >= 0,
        layout.dst_stride >= 0,
        0 <= from <= rows,
        from < rows ==> flat.len() <= spec_src_row(layout, from),
    ensures
        spec_rows_copied(layout, flat, dst, rows) == spec_rows_copied(layout, flat, dst, from),
    decreases rows - from,
{
    if from < rows {
        lemma_rows_beyond_the_source(layout, flat, dst, from, rows - 1);
        lemma_rows_ascend(layout, from, rows - 1);
    }
}

/// A piece of chunk `i` is the piece of the run of all chunks that lies as
/// far behind the end of the first `i` chunks.
pub proof fn lemma_flat_holds_piece(chunks: Seq<Seq<u8>>, i: int, off: int, b: int)
    requires
        0 <= i < chunks.len(),
        0 <= off,
        0 <= b,
        off + b <= chunks[i].len(),
    ensures
        spec_flat(chunks, i).len() + chunks[i].len() <= spec_flat(
            chunks,
            chunks.len() as int,
        ).len(),
        chunks[i].subrange(off, off + b) =~= spec_flat(chunks, chunks.len() as int).subrange(
            spec_flat(chunks, i).len() + off,
            spec_flat(chunks, i).len() + off + b,
        ),
{
    let n = chunks.len() as int;
    lemma_flat_grows(chunks, i + 1, n);
    let start = spec_flat(chunks, i).len() as int + off;
    let piece = chunks[i].subrange(off, off + b);
    let in_flat = spec_flat(chunks, n).subrange(start, start + b);
    assert forall|j: int| 0 <= j < b implies #[trigger] piece[j] == in_flat[j] by {
        lemma_flat_holds_chunk(chunks, i, n, off + j);
    }
}

/// The part of row `h` that lies in chunk `i` extends what has been copied
/// of the row: with the chunks before `i` done, copying that part gives the
/// row as far as chunk `i` reaches.
pub proof fn lemma_piece_copied(
    layout: TransferLayout,
    chunks: Seq<Seq<u8>>,
    before: Seq<u8>,
    h: int,
    i: int,
)
    requires
        layout.row_bytes > 0,
        0 <= i < chunks.len(),
        0 <= spec_src_row(layout, h),
        0 <= spec_dst_row(layout, h),
        spec_dst_row(layout, h) + layout.row_bytes <= before.len(),
        spec_flat(chunks, i).len() <= spec_src_row(layout, h) + layout.row_bytes,
        spec_src_row(layout, h) < spec_flat(chunks, i).len() + chunks[i].len(),
        spec_flat(chunks, i).len() < spec_flat(chunks, i).len() + chunks[i].len(),
    ensures
        ({
            let flat = spec_flat(chunks, chunks.len() as int);
            let so = spec_flat(chunks, i).len() as int;
            let se = so + chunks[i].len();
            let ls = spec_src_row(layout, h);
            let le = ls + layout.row_bytes;
            let cs = if ls > so {
                ls
            } else {
                so
            };
            let ce = if le < se {
                le
            } else {
                se
            };
            cs < ce ==> spec_copy(
                spec_row_copied(layout, flat, before, h, so),
                spec_dst_row(layout, h) + (cs - ls),
                chunks[i],
                cs - so,
                ce - cs,
            ) == spec_row_copied(layout, flat, before, h, se)
        }),
{
    let flat = spec_flat(chunks, chunks.len() as int);
    let so = spec_flat(chunks, i).len() as int;
    let se = so + chunks[i].len();
    let ls = spec_src_row(layout, h);
    let le = ls + layout.row_bytes;
    let cs = if ls > so {
        ls
    } else {
        so
    };
    let ce = if le < se {
        le
    } else {
        se
    };
    if cs < ce {
        lemma_flat_holds_piece(chunks, i, cs - so, ce - cs);
        lemma_copy_extends(
            before,
            spec_dst_row(layout, h),
            flat,
            ls,
            cs - ls,
            chunks[i],
            cs - so,
            ce - cs,
        );
        assert(spec_row_reach(layout, so, h) == cs - ls);
        assert(spec_row_reach(layout, se, h) == ce - ls);
    }
}

/// One step of a transfer whose rows lie in order is no error, keeps the
/// rows in order, and uses up a chunk or a row.
pub proof fn lemma_step_in_order(
    layout: TransferLayout,
    chunks: Seq<Seq<u8>>,
    dst: Seq<u8>,
    p: TransferProgress,
)
    requires
        spec_rows_in_order(layout, chunks, dst),
        spec_progress_in_order(layout, chunks, dst, p),
        !spec_transfer_over(layout, chunks, p),
    ensures
        spec_transfer_step(layout, chunks, p) is Ok,
        spec_progress_in_order(layout, chunks, dst, spec_transfer_step(layout, chunks, p)->Ok_0),
        spec_transfer_steps(layout, chunks, spec_transfer_step(layout, chunks, p)->Ok_0)
            < spec_transfer_steps(layout, chunks, p),
{
    let n = chunks.len() as int;
    let flat = spec_flat(chunks, n);
    let hh = p.current_height;
    let so = p.src_start_offset;
    let ci = p.src_index;
    let chunk = chunks[ci];
    let se = so + chunk.len();
    let ls = spec_src_row(layout, hh);
    let le = ls + layout.row_bytes;
    let before = spec_rows_copied(layout, flat, dst, hh);
    lemma_flat_grows(chunks, ci + 1, n);
    lemma_rows_ascend(layout, hh, layout.rows - 1);
    lemma_rows_ascend(layout, 0, hh);
    lemma_row_step(layout, hh);
    if hh > 0 {
        lemma_rows_ascend(layout, hh - 1, layout.rows - 1);
    }
    lemma_rows_copied_len(layout, flat, dst, hh);
    assert(chunk.len() > 0);
    assert(se == spec_flat(chunks, ci + 1).len());
    assert(se <= flat.len());
    let cs = if ls > so {
        ls
    } else {
        so
    };
    let ce = if le < se {
        le
    } else {
        se
    };
    let next = spec_transfer_step(layout, chunks, p)->Ok_0;
    assert(p.dst == spec_row_copied(layout, flat, before, hh, so));
    if cs < ce {
        lemma_piece_copied(layout, chunks, before, hh, ci);
        assert(spec_transfer_step(layout, chunks, p) is Ok);
        assert(next.dst == spec_row_copied(layout, flat, before, hh, se));
        assert(next.dst.len() == dst.len());
        if le <= se {
            assert(next.current_height == hh + 1);
            assert(spec_row_reach(layout, se, hh) == spec_row_reach(
                layout,
                flat.len() as int,
                hh,
            ));
            assert(next.dst == spec_rows_copied(layout, flat, dst, hh + 1));
            assert(spec_row_reach(layout, next.src_start_offset, hh + 1) <= 0);
        } else {
            assert(next.current_height == hh);
            assert(next.src_start_offset == se);
        }
    } else if ls >= so {
        assert(se <= ls);
        assert(spec_row_reach(layout, so, hh) <= 0);
        assert(spec_row_reach(layout, se, hh) <= 0);
        assert(next.dst == before);
        assert(next.current_height == hh);
        assert(next.src_start_offset == se);
    } else {
        assert(le == so);
        assert(spec_row_reach(layout, so, hh) == layout.row_bytes);
        assert(spec_row_reach(layout, flat.len() as int, hh) == layout.row_bytes);
        assert(next.dst == spec_rows_copied(layout, flat, dst, hh + 1));
        assert(next.current_height == hh + 1);
        assert(next.src_start_offset == so);
        assert(spec_row_reach(layout, so, hh + 1) <= 0);
    }
}

/// From any point of a transfer whose rows lie in order, the transfer ends
/// without error with every row copied as far as the source reaches.
pub proof fn lemma_transfer_in_order(
    layout: TransferLayout,
    chunks: Seq<Seq<u8>>,
    dst: Seq<u8>,
    p: TransferProgress,
    steps: nat,
)
    requires
        spec_rows_in_order(layout, chunks, dst),
        spec_progress_in_order(layout, chunks, dst, p),
        steps >= spec_transfer_steps(layout, chunks, p),
    ensures
        spec_transfer_run(layout, chunks, p, steps) == (
            spec_rows_copied(
                layout,
                spec_flat(chunks, chunks.len() as int),
                dst,
                layout.rows,
            ),
            Ok::<(), RutabagaError>(()),
        ),
    decreases steps,
{
    let n = chunks.len() as int;
    let flat = spec_flat(chunks, n);
    let hh = p.current_height;
    if spec_transfer_over(layout, chunks, p) {
        if hh < layout.rows {
            lemma_row_step(layout, hh);
            lemma_rows_beyond_the_source(layout, flat, dst, hh + 1, layout.rows);
        }
    } else {
        lemma_step_in_order(layout, chunks, dst, p);
        let next = spec_transfer_step(layout, chunks, p)->Ok_0;
        lemma_transfer_in_order(layout, chunks, dst, next, (steps - 1) as nat);
    }
}

/// A transfer whose rows lie in order copies each row as far as the source
/// reaches, and is no error: the destination in the end is the destination
/// with the rows of the rectangle copied into it one after the other.
pub proof fn lemma_transfer_copies_rows(layout: TransferLayout, chunks: Seq<Seq<u8>>, dst: Seq<u8>)
    requires
        spec_rows_in_order(layout, chunks, dst),
    ensures
        ({
            let start = TransferProgress {
                dst,
                current_height: 0,
                src_index: 0,
                src_start_offset: 0,
            };
            spec_transfer_run(layout, chunks, start, spec_transfer_steps(layout, chunks, start))
        }) == (
            spec_rows_copied(
                layout,
                spec_flat(chunks, chunks.len() as int),
                dst,
                layout.rows,
            ),
            Ok::<(), RutabagaError>(()),
        ),
{
    let start = TransferProgress { dst, current_height: 0, src_index: 0, src_start_offset: 0 };
    lemma_transfer_in_order(
        layout,
        chunks,
        dst,
        start,
        spec_transfer_steps(layout, chunks, start),
    );
}

/// The same of a transfer as it is called: a rectangle that is not empty
/// and lies in its resource, with rows in order, is copied row by row as
/// far as the source reaches, and the result is `Ok`.
pub proof fn lemma_transfer_2d_copies_rows(
    resource_w: u32,
    resource_h: u32,
    rect_x: u32,
    rect_y: u32,
    rect_w: u32,
    rect_h: u32,
    dst_stride: u32,
    dst_offset: u64,
    dst: Seq<u8>,
    src_stride: u32,
    src_offset: u64,
    srcs: Seq<Seq<u8>>,
)
    requires
        rect_w > 0,
        rect_h > 0,
        spec_transfer_layout(
            resource_w,
            resource_h,
            rect_x,
            rect_y,
            rect_w,
            rect_h,
            dst_stride,
            dst_offset,
            src_stride,
            src_offset,
        ) is Ok,
        spec_rows_in_order(
            spec_transfer_layout(
                resource_w,
                resource_h,
                rect_x,
                rect_y,
                rect_w,
                rect_h,
                dst_stride,
                dst_offset,
                src_stride,
                src_offset,
            )->Ok_0,
            srcs,
            dst,
        ),
    ensures
        spec_transfer_2d(
            resource_w,
            resource_h,
            rect_x,
            rect_y,
            rect_w,
            rect_h,
            dst_stride,
            dst_offset,
            dst,
            src_stride,
            src_offset,
            srcs,
        ) == (
            spec_rows_copied(
                spec_transfer_layout(
                    resource_w,
                    resource_h,
                    rect_x,
                    rect_y,
                    rect_w,
                    rect_h,
                    dst_stride,
                    dst_offset,
                    src_stride,
                    src_offset,
                )->Ok_0,
                spec_flat(srcs, srcs.len() as int),
                dst,
                rect_h as int,
            ),
            Ok::<(), RutabagaError>(()),
        ),
{
    let layout = spec_transfer_layout(
        resource_w,
        resource_h,
        rect_x,
        rect_y,
        rect_w,
        rect_h,
        dst_stride,
        dst_offset,
        src_stride,
        src_offset,
    )->Ok_0;
    lemma_transfer_copies_rows(layout, srcs, dst);
}

/// Rows that are at least a row apart in the destination: later rows begin
/// at least as many strides later.
pub proof fn lemma_dst_rows_apart(layout: TransferLayout, h: int, k: int)
    requires
        layout.dst_stride >= 0,
        0 <= h <= k,
    ensures
        spec_dst_row(layout, k) - spec_dst_row(layout, h) == (k - h) * layout.dst_stride,
        h < k ==> spec_dst_row(layout, k) - spec_dst_row(layout, h) >= layout.dst_stride,
{
    assert(k * layout.dst_stride - h * layout.dst_stride == (k - h) * layout.dst_stride)
        by (nonlinear_arith);
    if h < k {
        assert((k - h) * layout.dst_stride >= layout.dst_stride) by (nonlinear_arith)
            requires
                k - h >= 1,
                layout.dst_stride >= 0,
        ;
    }
}

/// Where byte `k` of row `h` stands in the destination.
pub open spec fn spec_dst_byte(layout: TransferLayout, h: int, k: int) -> int {
    spec_dst_row(layout, h) + k
}

/// Where byte `k` of row `h` stands in the source, counted through all
/// chunks.
pub open spec fn spec_src_byte(layout: TransferLayout, h: int, k: int) -> int {
    spec_src_row(layout, h) + k
}

/// Whether byte `k` of row `h` is copied: the row is one of the
/// rectangle's, the byte lies in the row, and the source reaches it.
pub open spec fn spec_byte_copied(layout: TransferLayout, total: int, h: int, k: int) -> bool {
    0 <= h < layout.rows && 0 <= k < spec_row_reach(layout, total, h)
}

/// Whether place `i` of the destination lies in none of the first `rows`
/// rows as far as they are copied.
pub open spec fn spec_outside_rows(layout: TransferLayout, total: int, rows: int, i: int) -> bool {
    forall|h: int|
        0 <= h < rows ==> !(#[trigger] spec_dst_row(layout, h) <= i < spec_dst_row(layout, h)
            + spec_row_reach(layout, total, h))
}

/// What the layout of a transfer must be for its rows to be told apart in
/// the destination too: they fit into the destination, and they are at
/// least a row apart there.
pub open spec fn spec_rows_apart(layout: TransferLayout, dst: Seq<u8>) -> bool {
    &&& layout.row_bytes > 0
    &&& layout.rows > 0
    &&& layout.src_start >= 0
    &&& layout.src_stride >= 0
    &&& layout.dst_start >= 0
    &&& layout.dst_stride >= layout.row_bytes
    &&& spec_dst_row(layout, layout.rows - 1) + layout.row_bytes <= dst.len()
}

/// After the first `n` rows have been copied, byte `k` of row `h` among
/// them is the byte of the source at its place there.
pub proof fn lemma_copied_byte(
    layout: TransferLayout,
    flat: Seq<u8>,
    dst: Seq<u8>,
    n: int,
    h: int,
    k: int,
)
    requires
        spec_rows_apart(layout, dst),
        0 <= h < n <= layout.rows,
        0 <= k < spec_row_reach(layout, flat.len() as int, h),
    ensures
        0 <= spec_dst_byte(layout, h, k) < dst.len(),
        0 <= spec_src_byte(layout, h, k) < flat.len(),
        spec_rows_copied(layout, flat, dst, n).len() == dst.len(),
        spec_rows_copied(layout, flat, dst, n)[spec_dst_byte(layout, h, k)] == flat[spec_src_byte(
            layout,
            h,
            k,
        )],
    decreases n,
{
    let last = n - 1;
    let before = spec_rows_copied(layout, flat, dst, last);
    lemma_rows_ascend(layout, 0, h);
    lemma_rows_ascend(layout, h, layout.rows - 1);
    lemma_rows_ascend(layout, 0, last);
    lemma_rows_ascend(layout, last, layout.rows - 1);
    if last > 0 {
        lemma_rows_ascend(layout, last - 1, layout.rows - 1);
    }
    lemma_rows_copied_len(layout, flat, dst, last);
    lemma_rows_copied_len(layout, flat, dst, n);
    if h < last {
        lemma_copied_byte(layout, flat, dst, last, h, k);
        lemma_dst_rows_apart(layout, h, last);
        assert(spec_dst_byte(layout, h, k) < spec_dst_row(layout, last));
    }
}

/// After the first `n` rows have been copied, a place of the destination
/// that lies in none of them holds what it held before.
pub proof fn lemma_other_byte(layout: TransferLayout, flat: Seq<u8>, dst: Seq<u8>, n: int, i: int)
    requires
        spec_rows_apart(layout, dst),
        0 <= n <= layout.rows,
        0 <= i < dst.len(),
        spec_outside_rows(layout, flat.len() as int, n, i),
    ensures
        spec_rows_copied(layout, flat, dst, n)[i] == dst[i],
    decreases n,
{
    if n > 0 {
        let last = n - 1;
        lemma_rows_ascend(layout, 0, last);
        lemma_rows_ascend(layout, last, layout.rows - 1);
        if last > 0 {
            lemma_rows_ascend(layout, last - 1, layout.rows - 1);
        }
        lemma_rows_copied_len(layout, flat, dst, last);
        assert(spec_outside_rows(layout, flat.len() as int, last, i));
        lemma_other_byte(layout, flat, dst, last, i);
        assert(!(spec_dst_row(layout, last) <= i < spec_dst_row(layout, last) + spec_row_reach(
            layout,
            flat.len() as int,
            last,
        )));
    }
}

/// A transfer byte by byte. When the rows of the rectangle lie in order in
/// the source and at least a row apart in the destination, the transfer is
/// no error, the destination keeps its length, every byte of every row
/// that the source reaches holds the byte of the source at its place, and
/// every other place of the destination holds what it held before.
pub proof fn lemma_transfer_copies_bytes(
    layout: TransferLayout,
    chunks: Seq<Seq<u8>>,
    dst: Seq<u8>,
)
    requires
        spec_rows_in_order(layout, chunks, dst),
        layout.dst_stride >= layout.row_bytes,
    ensures
        ({
            let start = TransferProgress {
                dst,
                current_height: 0,
                src_index: 0,
                src_start_offset: 0,
            };
            let end = spec_transfer_run(
                layout,
                chunks,
                start,
                spec_transfer_steps(layout, chunks, start),
            );
            let flat = spec_flat(chunks, chunks.len() as int);
            &&& end.1 == Ok::<(), RutabagaError>(())
            &&& end.0.len() == dst.len()
            &&& forall|h: int, k: int|
                spec_byte_copied(layout, flat.len() as int, h, k) ==> 0 <= #[trigger] spec_dst_byte(
                    layout,
                    h,
                    k,
                ) < dst.len() && 0 <= spec_src_byte(layout, h, k) < flat.len()
                    && end.0[spec_dst_byte(layout, h, k)] == flat[spec_src_byte(layout, h, k)]
            &&& forall|i: int|
                0 <= i < dst.len() && #[trigger] spec_outside_rows(
                    layout,
                    flat.len() as int,
                    layout.rows,
                    i,
                ) ==> end.0[i] == dst[i]
        }),
{
    let flat = spec_flat(chunks, chunks.len() as int);
    let result = spec_rows_copied(layout, flat, dst, layout.rows);
    lemma_transfer_copies_rows(layout, chunks, dst);
    lemma_rows_ascend(layout, 0, layout.rows - 1);
    lemma_rows_copied_len(layout, flat, dst, layout.rows);
    assert forall|h: int, k: int| spec_byte_copied(layout, flat.len() as int, h, k) implies 0
        <= #[trigger] spec_dst_byte(layout, h, k) < dst.len() && 0 <= spec_src_byte(layout, h, k)
        < flat.len() && result[spec_dst_byte(layout, h, k)] == flat[spec_src_byte(layout, h, k)] by {
        lemma_copied_byte(layout, flat, dst, layout.rows, h, k);
    }
    assert forall|i: int|
        0 <= i < dst.len() && #[trigger] spec_outside_rows(
            layout,
            flat.len() as int,
            layout.rows,
            i,
        ) implies result[i] == dst[i] by {
        lemma_other_byte(layout, flat, dst, layout.rows, i);
    }
}

/// The same of a transfer as it is called: for a rectangle that is not
/// empty and lies in its resource, with rows in order in the source and at
/// least a row apart in the destination, the result is `Ok`, every byte of
/// the rectangle that the source reaches is in its place in the
/// destination, and the rest of the destination is as it was.
pub proof fn lemma_transfer_2d_copies_bytes(
    resource_w: u32,
    resource_h: u32,
    rect_x: u32,
    rect_y: u32,
    rect_w: u32,
    rect_h: u32,
    dst_stride: u32,
    dst_offset: u64,
    dst: Seq<u8>,
    src_stride: u32,
    src_offset: u64,
    srcs: Seq<Seq<u8>>,
    layout: TransferLayout,
)
    requires
        rect_w > 0,
        rect_h > 0,
        spec_transfer_layout(
            resource_w,
            resource_h,
            rect_x,
            rect_y,
            rect_w,
            rect_h,
            dst_stride,
            dst_offset,
            src_stride,
            src_offset,
        ) == Ok::<TransferLayout, RutabagaError>(layout),
        spec_rows_in_order(layout, srcs, dst),
        dst_stride >= 4 * rect_w,
    ensures
        ({
            let end = spec_transfer_2d(
                resource_w,
                resource_h,
                rect_x,
                rect_y,
                rect_w,
                rect_h,
                dst_stride,
                dst_offset,
                dst,
                src_stride,
                src_offset,
                srcs,
            );
            let flat = spec_flat(srcs, srcs.len() as int);
            &&& end.1 == Ok::<(), RutabagaError>(())
            &&& end.0.len() == dst.len()
            &&& forall|h: int, k: int|
                spec_byte_copied(layout, flat.len() as int, h, k) ==> 0 <= #[trigger] spec_dst_byte(
                    layout,
                    h,
                    k,
                ) < dst.len() && 0 <= spec_src_byte(layout, h, k) < flat.len()
                    && end.0[spec_dst_byte(layout, h, k)] == flat[spec_src_byte(layout, h, k)]
            &&& forall|i: int|
                0 <= i < dst.len() && #[trigger] spec_outside_rows(
                    layout,
                    flat.len() as int,
                    layout.rows,
                    i,
                ) ==> end.0[i] == dst[i]
        }),
{
    lemma_transfer_copies_bytes(layout, srcs, dst);
}

} // verus!
