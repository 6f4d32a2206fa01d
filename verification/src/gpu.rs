use vstd::prelude::*;

use wgpu::util::DeviceExt;

verus! {

// The device-side handles the pipeline works with. They are opaque here:
// everything the contracts say about them is carried in the library's own
// wrapper types below.

#[verifier::external_type_specification]
#[verifier::external_body]
pub struct ExDevice(wgpu::Device);

#[verifier::external_type_specification]
#[verifier::external_body]
pub struct ExQueue(wgpu::Queue);

#[verifier::external_type_specification]
#[verifier::external_body]
pub struct ExBuffer(wgpu::Buffer);

#[verifier::external_type_specification]
#[verifier::external_body]
pub struct ExBindGroupLayoutEntry(wgpu::BindGroupLayoutEntry);

#[verifier::external_type_specification]
#[verifier::external_body]
pub struct ExBindGroupLayout(wgpu::BindGroupLayout);

#[verifier::external_type_specification]
#[verifier::external_body]
pub struct ExPipelineLayout(wgpu::PipelineLayout);

#[verifier::external_type_specification]
#[verifier::external_body]
pub struct ExShaderModule(wgpu::ShaderModule);

#[verifier::external_type_specification]
#[verifier::external_body]
pub struct ExComputePipeline(wgpu::ComputePipeline);

#[verifier::external_type_specification]
#[verifier::external_body]
pub struct ExBindGroup(wgpu::BindGroup);

#[verifier::external_type_specification]
#[verifier::external_body]
pub struct ExCommandEncoder(wgpu::CommandEncoder);

#[verifier::external_type_specification]
#[verifier::external_body]
pub struct ExCommandBuffer(wgpu::CommandBuffer);

#[verifier::external_type_specification]
#[verifier::external_body]
pub struct ExComputePass<'a>(wgpu::ComputePass<'a>);

/// A device-resident storage buffer together with the byte length it was
/// created with. `bytes` is the library's model of the buffer's size; the
/// constructors below establish it.
pub struct StorageBuffer {
    pub raw: wgpu::Buffer,
    pub bytes: u64,
}

/// A host-visible staging buffer together with the byte length it was
/// created with; used solely to transfer results back to host memory.
pub struct StagingBuffer {
    pub raw: wgpu::Buffer,
    pub bytes: u64,
}

/// Relies on wgpu's `DeviceExt::create_buffer_init`: creates a read-only
/// storage buffer initialized with the words' bytes (four per word, in
/// order, via `bytemuck::cast_slice`), so its size is `4 * words.len()`.
#[verifier::external_body]
pub(crate) fn upload_storage_raw(device: &wgpu::Device, words: &[u32]) -> wgpu::Buffer {
    device.create_buffer_init(&wgpu::util::BufferInitDescriptor {
        label: None,
        contents: bytemuck::cast_slice(words),
        usage: wgpu::BufferUsages::STORAGE,
    })
}

/// Relies on wgpu's `Device::create_buffer`: creates an uninitialized
/// storage buffer of exactly `bytes` bytes that a compute kernel may write
/// and a copy may read as its source.
#[verifier::external_body]
fn result_buffer_raw(device: &wgpu::Device, bytes: u64) -> wgpu::Buffer {
    device.create_buffer(&wgpu::BufferDescriptor {
        label: None,
        size: bytes,
        usage: wgpu::BufferUsages::STORAGE | wgpu::BufferUsages::COPY_SRC,
        mapped_at_creation: false,
    })
}

/// Relies on wgpu's `Device::create_buffer`: creates a host-mappable
/// staging buffer of exactly `bytes` bytes that a copy may fill.
#[verifier::external_body]
fn staging_buffer_raw(device: &wgpu::Device, bytes: u64) -> wgpu::Buffer {
    device.create_buffer(&wgpu::BufferDescriptor {
        label: None,
        size: bytes,
        usage: wgpu::BufferUsages::MAP_READ | wgpu::BufferUsages::COPY_DST,
        mapped_at_creation: false,
    })
}

/// Allocates the uninitialized result buffer for one dispatch.
pub fn result_buffer(device: &wgpu::Device, buffer_length: u64) -> (r: StorageBuffer)
    ensures
        r.bytes == buffer_length,
{
    StorageBuffer { raw: result_buffer_raw(device, buffer_length), bytes: buffer_length }
}

/// Allocates the host-visible staging buffer for one readback.
pub fn staging_buffer(device: &wgpu::Device, buffer_length: u64) -> (r: StagingBuffer)
    ensures
        r.bytes == buffer_length,
{
    StagingBuffer { raw: staging_buffer_raw(device, buffer_length), bytes: buffer_length }
}

/// Relies on the `wgpu::BindGroupLayoutEntry` shape: a storage-buffer
/// binding at index `binding`, visible to the compute stage only, read-only
/// as given, with no dynamic offset and no minimum binding size.
#[verifier::external_body]
pub(crate) fn bind_group_layout_entry(binding: u32, read_only: bool) -> wgpu::BindGroupLayoutEntry {
    wgpu::BindGroupLayoutEntry {
        binding,
        visibility: wgpu::ShaderStages::COMPUTE,
        ty: wgpu::BindingType::Buffer {
            ty: wgpu::BufferBindingType::Storage { read_only },
            has_dynamic_offset: false,
            min_binding_size: None,
        },
        count: None,
    }
}

/// Relies on wgpu's `Device::create_bind_group_layout` over the given
/// entries.
#[verifier::external_body]
pub(crate) fn create_bind_group_layout(
    device: &wgpu::Device,
    entries: &Vec<wgpu::BindGroupLayoutEntry>,
) -> wgpu::BindGroupLayout {
    device.create_bind_group_layout(&wgpu::BindGroupLayoutDescriptor {
        label: None,
        entries: entries.as_slice(),
    })
}

/// Relies on wgpu's `Device::create_pipeline_layout`: a layout over the
/// single bind-group layout, with no push constants.
#[verifier::external_body]
pub(crate) fn create_pipeline_layout(
    device: &wgpu::Device,
    layout: &wgpu::BindGroupLayout,
) -> wgpu::PipelineLayout {
    device.create_pipeline_layout(&wgpu::PipelineLayoutDescriptor {
        label: None,
        bind_group_layouts: &[layout],
        push_constant_ranges: &[],
    })
}

/// Relies on wgpu's `Device::create_compute_pipeline`: a compute pipeline
/// over the given layout, kernel module and entry point name.
#[verifier::external_body]
pub(crate) fn create_compute_pipeline(
    device: &wgpu::Device,
    layout: &wgpu::PipelineLayout,
    module: &wgpu::ShaderModule,
    entry_point: &str,
) -> wgpu::ComputePipeline {
    device.create_compute_pipeline(&wgpu::ComputePipelineDescriptor {
        label: None,
        layout: Some(layout),
        module,
        entry_point,
    })
}

/// Relies on wgpu's `Device::create_bind_group`: binds the three buffers of
/// one multiplication at indices 0 (A), 1 (B) and 2 (C), each over its
/// entire extent.
#[verifier::external_body]
pub(crate) fn create_multiply_bind_group(
    device: &wgpu::Device,
    layout: &wgpu::BindGroupLayout,
    buffer_a: &StorageBuffer,
    buffer_b: &StorageBuffer,
    buffer_c: &StorageBuffer,
) -> wgpu::BindGroup {
    device.create_bind_group(&wgpu::BindGroupDescriptor {
        layout,
        entries: &[
            wgpu::BindGroupEntry { binding: 0, resource: buffer_a.raw.as_entire_binding() },
            wgpu::BindGroupEntry { binding: 1, resource: buffer_b.raw.as_entire_binding() },
            wgpu::BindGroupEntry { binding: 2, resource: buffer_c.raw.as_entire_binding() },
        ],
        label: None,
    })
}

/// Relies on wgpu's `Device::create_command_encoder`.
#[verifier::external_body]
pub(crate) fn create_command_encoder(device: &wgpu::Device) -> wgpu::CommandEncoder {
    device.create_command_encoder(&wgpu::CommandEncoderDescriptor { label: None })
}

/// Relies on wgpu's `CommandEncoder::begin_compute_pass`: the pass borrows
/// the encoder until it is dropped.
#[verifier::external_body]
pub(crate) fn begin_compute_pass<'e>(encoder: &'e mut wgpu::CommandEncoder) -> wgpu::ComputePass<
    'e,
> {
    encoder.begin_compute_pass(&wgpu::ComputePassDescriptor { label: None })
}

/// Relies on wgpu's `ComputePass::set_pipeline`.
#[verifier::external_body]
pub(crate) fn pass_set_pipeline<'a>(
    pass: &mut wgpu::ComputePass<'a>,
    pipeline: &'a wgpu::ComputePipeline,
) {
    pass.set_pipeline(pipeline);
}

/// Relies on wgpu's `ComputePass::set_bind_group`, with no dynamic offsets.
#[verifier::external_body]
pub(crate) fn pass_set_bind_group<'a>(
    pass: &mut wgpu::ComputePass<'a>,
    index: u32,
    group: &'a wgpu::BindGroup,
) {
    pass.set_bind_group(index, group, &[]);
}

/// Relies on wgpu's `ComputePass::dispatch_workgroups` with the given grid.
#[verifier::external_body]
pub(crate) fn pass_dispatch_workgroups(
    pass: &mut wgpu::ComputePass<'_>,
    x: u32,
    y: u32,
    z: u32,
) {
    pass.dispatch_workgroups(x, y, z);
}

/// Relies on wgpu's `CommandEncoder::copy_buffer_to_buffer`: a
/// device-to-device copy of `bytes` bytes from the start of the result
/// buffer to the start of the staging buffer. wgpu requires the copy size
/// to be 4-byte aligned and within both buffers.
#[verifier::external_body]
pub(crate) fn copy_to_staging(
    encoder: &mut wgpu::CommandEncoder,
    source: &StorageBuffer,
    destination: &StagingBuffer,
    bytes: u64,
)
    requires
        bytes % 4 == 0,
        bytes <= source.bytes,
        bytes <= destination.bytes,
{
    encoder.copy_buffer_to_buffer(&source.raw, 0, &destination.raw, 0, bytes);
}

/// Relies on wgpu's `CommandEncoder::finish`: closes the recording into a
/// command buffer.
#[verifier::external_body]
pub(crate) fn finish_encoder(encoder: wgpu::CommandEncoder) -> wgpu::CommandBuffer {
    encoder.finish()
}

/// Relies on wgpu's `Queue::submit`: submits the single recorded command
/// buffer to the queue as one unit. Fire-and-forget: completion is observed
/// only through the buffer-mapping protocol.
#[verifier::external_body]
pub(crate) fn submit_commands(queue: &wgpu::Queue, commands: wgpu::CommandBuffer) {
    queue.submit(std::iter::once(commands));
}

/// Relies on wgpu's `Device::poll` with `Maintain::Wait`: blocks the calling
/// thread until pending device work completes, which also fires any pending
/// buffer-mapping callbacks.
#[verifier::external_body]
pub fn poll_device_wait(device: &wgpu::Device) {
    device.poll(wgpu::Maintain::Wait);
}

} // verus!
