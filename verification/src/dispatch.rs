use vstd::prelude::*;

use crate::error::GpuError;
use crate::gpu;
use crate::gpu::StagingBuffer;
use crate::matrix::{Matrix, MatrixModel, multiply_feasible, spec_multiply_buffer_length};
use crate::pipeline::MultiplyPipeline;
use crate::readback::{MapState, ReadbackChannel};

verus! {

/// Workgroups needed to cover `size` invocations at `local` invocations per
/// workgroup: the quotient, rounded up.
pub open spec fn spec_ceil_div(size: int, local: int) -> int
    recommends
        local >= 1,
{
    if size % local == 0 {
        size / local
    } else {
        size / local + 1
    }
}

/// The dispatch grid covers every output element: `ceil(size / local)`
/// workgroups of `local` invocations reach at least `size` elements, and
/// not a whole workgroup past the end (so nothing is silently dropped, and
/// over-dispatch is bounded by one workgroup per axis).
pub proof fn lemma_ceil_div_covers(size: int, local: int)
    requires
        0 <= size,
        1 <= local,
    ensures
        0 <= spec_ceil_div(size, local) <= size,
        spec_ceil_div(size, local) * local >= size,
        spec_ceil_div(size, local) * local < size + local,
{
    let d = size / local;
    let m = size % local;
    vstd::arithmetic::div_mod::lemma_fundamental_div_mod(size, local);
    vstd::arithmetic::div_mod::lemma_mod_bound(size, local);
    let c = spec_ceil_div(size, local);
    assert(0 <= c <= size && c * local >= size && c * local < size + local) by (nonlinear_arith)
        requires
            size == local * d + m,
            0 <= m < local,
            1 <= local,
            0 <= size,
            c == (if m == 0 { d } else { d + 1 }),
    ;
}

/// Every output element lies under the dispatch grid: for an output of
/// `rows` by `columns` elements and workgroups of `local_x` by `local_y`
/// invocations, each cell `(r, c)` of the output is reached by some
/// invocation of the `ceil`-sized grid. Under-dispatch would silently drop
/// output rows or columns; this rules it out for every shape and cell.
pub proof fn lemma_grid_covers_output(
    rows: int,
    columns: int,
    local_x: int,
    local_y: int,
    r: int,
    c: int,
)
    requires
        0 <= r < rows,
        0 <= c < columns,
        1 <= local_x,
        1 <= local_y,
    ensures
        r < spec_ceil_div(rows, local_y) * local_y,
        c < spec_ceil_div(columns, local_x) * local_x,
{
    lemma_ceil_div_covers(rows, local_y);
    lemma_ceil_div_covers(columns, local_x);
}

/// Workgroup count along one axis: `size` invocations at `local` per
/// workgroup, rounded up so the grid covers every element.
pub fn workgroup_count(size: u32, local: u32) -> (r: u32)
    requires
        1 <= local,
    ensures
        r == spec_ceil_div(size as int, local as int),
        r * local >= size,
        r * local < size + local,
{
    proof {
        lemma_ceil_div_covers(size as int, local as int);
    }
    if size % local == 0 {
        size / local
    } else {
        size / local + 1
    }
}

/// A multiplication can be dispatched when the shapes fit together and the
/// output dimensions fit the device's 32-bit workgroup grid.
pub open spec fn spec_dispatchable(a: MatrixModel, b: MatrixModel) -> bool {
    &&& multiply_feasible(a, b)
    &&& a.rows <= u32::MAX
    &&& b.columns <= u32::MAX
}

/// Everything one recorded multiplication needs: the workgroup grid sized
/// to the output matrix, the output shape, and the result byte length.
pub struct DispatchPlan {
    pub grid_x: u32,
    pub grid_y: u32,
    pub grid_z: u32,
    pub out_rows: usize,
    pub out_columns: usize,
    pub result_bytes: u64,
}

/// Plans one multiplication `A * B`: checks the shapes, sizes the result
/// buffer at `rows(A) * columns(B) * 4` bytes, and derives the workgroup
/// grid as `ceil(output dimension / workgroup size)` per axis, so the grid
/// covers every output element. Fails with `DimensionMismatch` (before any
/// device resource is created) when the inner dimensions differ or the
/// output does not fit the device's size types.
pub fn plan_multiply(a: &Matrix<'_>, b: &Matrix<'_>, local_x: u32, local_y: u32) -> (r: Result<
    DispatchPlan,
    GpuError,
>)
    requires
        1 <= local_x,
        1 <= local_y,
    ensures
        r is Ok <==> spec_dispatchable(a@, b@),
        r is Err ==> r->Err_0 == GpuError::DimensionMismatch,
        r is Ok ==> ({
            let p = r->Ok_0;
            &&& p.out_rows == a@.rows
            &&& p.out_columns == b@.columns
            &&& p.result_bytes == spec_multiply_buffer_length(a@, b@)
            &&& p.grid_x == spec_ceil_div(b@.columns, local_x as int)
            &&& p.grid_y == spec_ceil_div(a@.rows, local_y as int)
            &&& p.grid_z == 1
            &&& p.grid_x * local_x >= b@.columns
            &&& p.grid_y * local_y >= a@.rows
            &&& p.grid_x * local_x < b@.columns + local_x
            &&& p.grid_y * local_y < a@.rows + local_y
        }),
{
    let result_bytes = match a.multiply_buffer_length(b) {
        Ok(n) => n,
        Err(e) => {
            return Err(e);
        },
    };
    let rows = a.rows();
    let columns = b.columns();
    if rows > u32::MAX as usize || columns > u32::MAX as usize {
        return Err(GpuError::DimensionMismatch);
    }
    let grid_x = workgroup_count(columns as u32, local_x);
    let grid_y = workgroup_count(rows as u32, local_y);
    Ok(
        DispatchPlan {
            grid_x,
            grid_y,
            grid_z: 1,
            out_rows: rows,
            out_columns: columns,
            result_bytes,
        },
    )
}

/// One submitted multiplication awaiting readback: the host-visible staging
/// buffer the result was copied into, the output shape, and the map-state
/// machine that gates the readback.
pub struct PendingReadback {
    pub staging: StagingBuffer,
    pub out_rows: usize,
    pub out_columns: usize,
    pub channel: ReadbackChannel,
}

/// Records and submits one multiplication `A * B`, in the required order:
/// create the device buffers for A (upload), B (upload) and C
/// (uninitialized, `rows(A) * columns(B) * 4` bytes); bind exactly those
/// three buffers at indices 0/1/2; record the compute pass with the grid
/// sized to the output; record the copy from C into a fresh staging buffer
/// of identical byte length; and submit the recording to the queue as a
/// single unit. Submission is fire-and-forget: completion is observed only
/// through the readback protocol on the returned `PendingReadback`, whose
/// state machine starts out `Unmapped`. Fails with `DimensionMismatch`
/// before any device allocation when the shapes do not fit together.
pub fn dispatch_multiply(
    device: &wgpu::Device,
    queue: &wgpu::Queue,
    pipe: &MultiplyPipeline,
    a: &Matrix<'_>,
    b: &Matrix<'_>,
    local_x: u32,
    local_y: u32,
) -> (r: Result<PendingReadback, GpuError>)
    requires
        a.wf(),
        b.wf(),
        1 <= local_x,
        1 <= local_y,
    ensures
        r is Ok <==> spec_dispatchable(a@, b@),
        r is Err ==> r->Err_0 == GpuError::DimensionMismatch,
        r is Ok ==> ({
            let p = r->Ok_0;
            &&& p.staging.bytes == spec_multiply_buffer_length(a@, b@)
            &&& p.out_rows == a@.rows
            &&& p.out_columns == b@.columns
            &&& p.channel.state() == MapState::Unmapped
        }),
{
    let plan = match plan_multiply(a, b, local_x, local_y) {
        Ok(p) => p,
        Err(e) => {
            return Err(e);
        },
    };
    let buffer_a = a.as_buffer(device);
    let buffer_b = b.as_buffer(device);
    let buffer_c = gpu::result_buffer(device, plan.result_bytes);
    let bind_group = gpu::create_multiply_bind_group(
        device,
        &pipe.layout,
        &buffer_a,
        &buffer_b,
        &buffer_c,
    );
    let mut encoder = gpu::create_command_encoder(device);
    {
        let mut pass = gpu::begin_compute_pass(&mut encoder);
        gpu::pass_set_pipeline(&mut pass, &pipe.pipeline);
        gpu::pass_set_bind_group(&mut pass, 0, &bind_group);
        gpu::pass_dispatch_workgroups(&mut pass, plan.grid_x, plan.grid_y, plan.grid_z);
    }
    let staging = gpu::staging_buffer(device, plan.result_bytes);
    proof {
        let ghost rb = plan.result_bytes as int;
        let ghost prod = a@.rows * b@.columns;
        assert(rb == prod * 4) by (nonlinear_arith)
            requires
                rb == 4 * a@.rows * b@.columns,
                prod == a@.rows * b@.columns,
        ;
        vstd::arithmetic::div_mod::lemma_mod_multiples_basic(prod, 4);
    }
    gpu::copy_to_staging(&mut encoder, &buffer_c, &staging, plan.result_bytes);
    let commands = gpu::finish_encoder(encoder);
    gpu::submit_commands(queue, commands);
    Ok(
        PendingReadback {
            staging,
            out_rows: plan.out_rows,
            out_columns: plan.out_columns,
            channel: ReadbackChannel::new(),
        },
    )
}

} // verus!
