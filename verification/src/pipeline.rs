use vstd::prelude::*;

use crate::gpu;

verus! {

/// One slot of the kernel's fixed binding contract: a storage buffer bound
/// at `binding`, read-only or read-write.
#[derive(Clone, Copy, Debug, PartialEq, Eq, Structural)]
pub struct BindingSlot {
    pub binding: u32,
    pub read_only: bool,
}

/// The multiplication kernel's binding contract: binding 0 is matrix A
/// (read-only), binding 1 is matrix B (read-only), binding 2 is matrix C
/// (read-write).
pub open spec fn spec_multiply_bindings() -> Seq<BindingSlot> {
    seq![
        BindingSlot { binding: 0, read_only: true },
        BindingSlot { binding: 1, read_only: true },
        BindingSlot { binding: 2, read_only: false },
    ]
}

/// The binding contract as a value: three entries, bound at consecutive
/// indices, with exactly the output slot writable.
pub fn multiply_binding_contract() -> (r: Vec<BindingSlot>)
    ensures
        r@ == spec_multiply_bindings(),
{
    let mut slots: Vec<BindingSlot> = Vec::new();
    slots.push(BindingSlot { binding: 0, read_only: true });
    slots.push(BindingSlot { binding: 1, read_only: true });
    slots.push(BindingSlot { binding: 2, read_only: false });
    proof {
        assert(slots@ =~= spec_multiply_bindings());
    }
    slots
}

/// Each slot of the multiplication binding contract sits at its own index,
/// compute-visible, and exactly the last slot (the output, C) is writable.
pub proof fn lemma_multiply_bindings_shape()
    ensures
        spec_multiply_bindings().len() == 3,
        forall|i: int|
            0 <= i < 3 ==> spec_multiply_bindings()[i].binding == i as u32,
        forall|i: int|
            0 <= i < 3 ==> (spec_multiply_bindings()[i].read_only <==> i != 2),
{
}

/// The compute pipeline for one kernel, with the bind-group layout it was
/// built from. Immutable once built; reusable across dispatches with
/// identical binding shapes.
pub struct MultiplyPipeline {
    pub layout: wgpu::BindGroupLayout,
    pub pipeline: wgpu::ComputePipeline,
}

/// Builds, in order: the bind-group layout from the multiplication binding
/// contract, the pipeline layout over that single bind-group layout, and
/// the compute pipeline from the externally supplied kernel module with the
/// fixed entry point name `main`. The kernel program is consumed opaquely:
/// only its binding shape is this component's concern.
pub fn build_multiply_pipeline(
    device: &wgpu::Device,
    module: &wgpu::ShaderModule,
) -> MultiplyPipeline {
    let slots = multiply_binding_contract();
    let mut entries: Vec<wgpu::BindGroupLayoutEntry> = Vec::new();
    let mut i: usize = 0;
    while i < slots.len()
        invariant
            i <= slots@.len(),
        decreases slots@.len() - i,
    {
        let slot = slots[i];
        entries.push(gpu::bind_group_layout_entry(slot.binding, slot.read_only));
        i = i + 1;
    }
    let layout = gpu::create_bind_group_layout(device, &entries);
    let pipeline_layout = gpu::create_pipeline_layout(device, &layout);
    let pipeline = gpu::create_compute_pipeline(device, &pipeline_layout, module, "main");
    MultiplyPipeline { layout, pipeline }
}

} // verus!
