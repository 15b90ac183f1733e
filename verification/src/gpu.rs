//! The trusted boundary to the graphics device. Every item here either
//! declares a wgpu handle type or wraps exactly one device-level operation;
//! nothing in this module is verified beyond its stated contract.

use vstd::prelude::*;

verus! {

/// wgpu's handle to the compute/graphics device.
#[verifier::external_type_specification]
#[verifier::external_body]
pub struct ExDevice(wgpu::Device);

/// wgpu's handle to the single submission queue of a device.
#[verifier::external_type_specification]
#[verifier::external_body]
pub struct ExQueue(wgpu::Queue);

/// wgpu's handle to a device-resident buffer.
#[verifier::external_type_specification]
#[verifier::external_body]
pub struct ExBuffer(wgpu::Buffer);

/// wgpu's handle to a compiled shader module.
#[verifier::external_type_specification]
#[verifier::external_body]
pub struct ExShaderModule(wgpu::ShaderModule);

/// wgpu's handle to a compiled compute pipeline.
#[verifier::external_type_specification]
#[verifier::external_body]
pub struct ExComputePipeline(wgpu::ComputePipeline);

/// wgpu's handle to a compiled render pipeline.
#[verifier::external_type_specification]
#[verifier::external_body]
pub struct ExRenderPipeline(wgpu::RenderPipeline);

/// wgpu's handle to a bind group: an ordered set of resources bound to a
/// pipeline's slots.
#[verifier::external_type_specification]
#[verifier::external_body]
pub struct ExBindGroup(wgpu::BindGroup);

/// wgpu's handle to a bind-group layout.
#[verifier::external_type_specification]
#[verifier::external_body]
pub struct ExBindGroupLayout(wgpu::BindGroupLayout);

/// wgpu's handle to a pipeline layout.
#[verifier::external_type_specification]
#[verifier::external_body]
pub struct ExPipelineLayout(wgpu::PipelineLayout);

/// wgpu's command recorder: commands recorded into it execute in recording
/// order once submitted.
#[verifier::external_type_specification]
#[verifier::external_body]
pub struct ExCommandEncoder(wgpu::CommandEncoder);

/// wgpu's finished command recording, ready for submission.
#[verifier::external_type_specification]
#[verifier::external_body]
pub struct ExCommandBuffer(wgpu::CommandBuffer);

/// wgpu's view of a presentable color target.
#[verifier::external_type_specification]
#[verifier::external_body]
pub struct ExTextureView(wgpu::TextureView);

/// Relies on wgpu::Device::create_buffer with STORAGE usage and
/// `mapped_at_creation: false`: allocates a zero-initialized storage buffer
/// of `size_bytes` bytes.
#[verifier::external_body]
pub(crate) fn create_storage_buffer(
    device: &wgpu::Device,
    size_bytes: u64,
    label: Option<&str>,
) -> (r: wgpu::Buffer)
{
    device.create_buffer(&wgpu::BufferDescriptor {
        label,
        size: size_bytes,
        usage: wgpu::BufferUsages::STORAGE,
        mapped_at_creation: false,
    })
}

/// Relies on wgpu::Device::create_buffer with `mapped_at_creation: true`, the
/// mapped-range write, Buffer::unmap, and bytemuck::cast_slice: allocates a
/// storage buffer holding exactly the bytes of `data`, in element order.
/// The size precondition keeps the mapped-range copy from panicking.
#[verifier::external_body]
pub(crate) fn create_storage_buffer_init(
    device: &wgpu::Device,
    data: &Vec<i32>,
    size_bytes: u64,
    label: Option<&str>,
) -> (r: wgpu::Buffer)
    requires
        size_bytes == data@.len() * 4,
{
    let buffer = device.create_buffer(&wgpu::BufferDescriptor {
        label,
        size: size_bytes,
        usage: wgpu::BufferUsages::STORAGE,
        mapped_at_creation: true,
    });
    buffer.slice(..).get_mapped_range_mut().copy_from_slice(bytemuck::cast_slice(data.as_slice()));
    buffer.unmap();
    buffer
}

/// Relies on wgpu::Device::create_buffer with UNIFORM usage and
/// `mapped_at_creation: true`, the mapped-range write, Buffer::unmap, and
/// bytemuck::bytes_of: allocates a 4-byte uniform buffer holding the
/// native-endian bytes of `word`.
#[verifier::external_body]
pub(crate) fn create_uniform_buffer_u32(
    device: &wgpu::Device,
    word: u32,
    label: Option<&str>,
) -> (r: wgpu::Buffer)
{
    let buffer = device.create_buffer(&wgpu::BufferDescriptor {
        label,
        size: 4,
        usage: wgpu::BufferUsages::UNIFORM,
        mapped_at_creation: true,
    });
    buffer.slice(..).get_mapped_range_mut().copy_from_slice(bytemuck::bytes_of(&word));
    buffer.unmap();
    buffer
}

/// Relies on wgpu::Device::create_bind_group and Buffer::as_entire_binding:
/// binds `buffers[i]` at binding index `i` under `layout`.
#[verifier::external_body]
pub(crate) fn create_bind_group(
    device: &wgpu::Device,
    layout: &wgpu::BindGroupLayout,
    buffers: &Vec<&wgpu::Buffer>,
) -> (r: wgpu::BindGroup)
{
    let entries: Vec<wgpu::BindGroupEntry> = buffers
        .iter()
        .enumerate()
        .map(|(i, b)| wgpu::BindGroupEntry { binding: i as u32, resource: b.as_entire_binding() })
        .collect();
    device.create_bind_group(&wgpu::BindGroupDescriptor { label: None, layout, entries: &entries })
}

/// Relies on wgpu::ComputePipeline::get_bind_group_layout: returns the layout
/// that the pipeline derived from the shader's declared resources.
#[verifier::external_body]
pub(crate) fn pipeline_bind_group_layout(
    pipeline: &wgpu::ComputePipeline,
    index: u32,
) -> (r: wgpu::BindGroupLayout)
{
    pipeline.get_bind_group_layout(index)
}

/// Relies on wgpu::Device::create_command_encoder.
#[verifier::external_body]
pub(crate) fn create_command_encoder(
    device: &wgpu::Device,
    label: Option<&str>,
) -> (r: wgpu::CommandEncoder)
{
    device.create_command_encoder(&wgpu::CommandEncoderDescriptor { label })
}

/// Relies on wgpu::CommandEncoder::begin_compute_pass, ComputePass::set_pipeline,
/// ComputePass::set_bind_group and ComputePass::dispatch_workgroups: records one
/// dispatch of `x` by `y` by `z` workgroups into `encoder`.
#[verifier::external_body]
pub(crate) fn record_compute_dispatch(
    encoder: &mut wgpu::CommandEncoder,
    pipeline: &wgpu::ComputePipeline,
    bind_group: &wgpu::BindGroup,
    x: u32,
    y: u32,
    z: u32,
)
{
    let mut pass = encoder.begin_compute_pass(&wgpu::ComputePassDescriptor {
        label: None,
        timestamp_writes: None,
    });
    pass.set_pipeline(pipeline);
    pass.set_bind_group(0, bind_group, &[]);
    pass.dispatch_workgroups(x, y, z);
}

/// Relies on wgpu::CommandEncoder::begin_render_pass (clearing the target to
/// opaque black), RenderPass::set_pipeline, RenderPass::set_bind_group and
/// RenderPass::draw: records one pass drawing `vertices` vertices instanced
/// `instances` times.
#[verifier::external_body]
pub(crate) fn record_display_pass(
    encoder: &mut wgpu::CommandEncoder,
    target: &wgpu::TextureView,
    pipeline: &wgpu::RenderPipeline,
    bind_group: &wgpu::BindGroup,
    vertices: u32,
    instances: u32,
)
{
    let ops = wgpu::Operations {
        load: wgpu::LoadOp::Clear(wgpu::Color::BLACK),
        store: wgpu::StoreOp::Store,
    };
    let attachment = wgpu::RenderPassColorAttachment { view: target, resolve_target: None, ops };
    let mut pass = encoder.begin_render_pass(&wgpu::RenderPassDescriptor {
        label: Some("display pass"),
        color_attachments: &[Some(attachment)],
        ..Default::default()
    });
    pass.set_pipeline(pipeline);
    pass.set_bind_group(0, bind_group, &[]);
    pass.draw(0..vertices, 0..instances);
}

/// Relies on wgpu::CommandEncoder::finish.
#[verifier::external_body]
pub(crate) fn finish_encoder(encoder: wgpu::CommandEncoder) -> (r: wgpu::CommandBuffer)
{
    encoder.finish()
}

/// Relies on wgpu::Queue::submit: hands one finished recording to the device
/// queue; recordings submitted in order execute in order.
#[verifier::external_body]
pub(crate) fn submit_command_buffer(queue: &wgpu::Queue, commands: wgpu::CommandBuffer)
{
    queue.submit(Some(commands));
}

/// Relies on wgpu::Device::create_bind_group_layout: a uniform-buffer
/// binding at index 0 and a read-only storage binding at index 1, both
/// visible to the vertex and fragment stages.
#[verifier::external_body]
pub(crate) fn create_display_bind_group_layout(device: &wgpu::Device) -> (r: wgpu::BindGroupLayout)
{
    let uniform_ty = wgpu::BufferBindingType::Uniform;
    let storage_ty = wgpu::BufferBindingType::Storage { read_only: true };
    let uniform = wgpu::BindingType::Buffer { ty: uniform_ty, has_dynamic_offset: false, min_binding_size: None };
    let storage = wgpu::BindingType::Buffer { ty: storage_ty, has_dynamic_offset: false, min_binding_size: None };
    let visibility = wgpu::ShaderStages::FRAGMENT | wgpu::ShaderStages::VERTEX;
    let entries = [
        wgpu::BindGroupLayoutEntry { binding: 0, visibility, ty: uniform, count: None },
        wgpu::BindGroupLayoutEntry { binding: 1, visibility, ty: storage, count: None },
    ];
    device.create_bind_group_layout(&wgpu::BindGroupLayoutDescriptor { label: None, entries: &entries })
}

/// Relies on wgpu::Device::create_pipeline_layout.
#[verifier::external_body]
pub(crate) fn create_pipeline_layout(
    device: &wgpu::Device,
    bind_group_layout: &wgpu::BindGroupLayout,
) -> (r: wgpu::PipelineLayout)
{
    device.create_pipeline_layout(&wgpu::PipelineLayoutDescriptor {
        label: None,
        bind_group_layouts: &[bind_group_layout],
        push_constant_ranges: &[],
    })
}

/// Relies on wgpu::Device::create_render_pipeline: a triangle-list pipeline
/// with no vertex buffers, entry points `vs` and `fs`, and one Bgra8Unorm
/// color target.
#[verifier::external_body]
pub(crate) fn create_display_render_pipeline(
    device: &wgpu::Device,
    module: &wgpu::ShaderModule,
    layout: &wgpu::PipelineLayout,
    vs: &str,
    fs: &str,
) -> (r: wgpu::RenderPipeline)
{
    let targets = [Some(wgpu::TextureFormat::Bgra8Unorm.into())];
    let primitive = wgpu::PrimitiveState {
        topology: wgpu::PrimitiveTopology::TriangleList,
        ..Default::default()
    };
    device.create_render_pipeline(&wgpu::RenderPipelineDescriptor {
        label: Some("display"),
        layout: Some(layout),
        primitive,
        vertex: wgpu::VertexState { module, entry_point: vs, buffers: &[] },
        fragment: Some(wgpu::FragmentState { module, entry_point: fs, targets: &targets }),
        depth_stencil: None,
        multisample: Default::default(),
        multiview: None,
    })
}

} // verus!
