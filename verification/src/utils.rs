//! Shader-compilation helpers and small sizing utilities.

use vstd::prelude::*;

verus! {

/// Relies on wgpu::Device::create_shader_module: compiles WGSL source into a
/// shader module; a compilation failure is reported through the device's
/// error handler and is fatal to the pipeline under construction.
#[verifier::external_body]
pub fn compile_shader_module(device: &wgpu::Device, code: &str) -> (r: wgpu::ShaderModule)
{
    device.create_shader_module(wgpu::ShaderModuleDescriptor {
        label: Some("render"),
        source: wgpu::ShaderSource::Wgsl(std::borrow::Cow::Borrowed(code)),
    })
}

/// Relies on wgpu::Device::create_compute_pipeline with `layout: None`: the
/// bind-group layout is derived from the resource slots the shader declares,
/// and the entry point is the kernel protocol's fixed `main`.
#[verifier::external_body]
pub fn create_auto_layout_compute_pipeline(
    device: &wgpu::Device,
    shader_module: &wgpu::ShaderModule,
) -> (r: wgpu::ComputePipeline)
{
    device.create_compute_pipeline(&wgpu::ComputePipelineDescriptor {
        label: Some("add source"),
        layout: None,
        module: shader_module,
        entry_point: "main",
    })
}

/// Bytes occupied by the items of a vector.
pub fn vec_items_mem_size<T>(vector: &Vec<T>) -> (r: usize)
    requires
        vector@.len() * vstd::layout::size_of::<T>() <= usize::MAX,
    ensures
        r == vector@.len() * vstd::layout::size_of::<T>(),
{
    vector.len() * std::mem::size_of::<T>()
}

} // verus!
