//! Trusted boundary to the GPU backend.
//!
//! Every item here either declares a `wgpu` type so that verified code can
//! hold values of it, or wraps exactly one backend call.  The wrappers claim
//! nothing about the GPU's behaviour: all decisions (sizes, binding indices,
//! push-constant words, workgroup counts) are made by verified callers and
//! handed over as plain values.

use vstd::prelude::*;

verus! {

#[verifier::external_type_specification]
#[verifier::external_body]
pub struct ExSurface<'a>(wgpu::Surface<'a>);

#[verifier::external_type_specification]
#[verifier::external_body]
pub struct ExDevice(wgpu::Device);

#[verifier::external_type_specification]
#[verifier::external_body]
pub struct ExQueue(wgpu::Queue);

#[verifier::external_type_specification]
#[verifier::external_body]
pub struct ExBindGroupLayout(wgpu::BindGroupLayout);

#[verifier::external_type_specification]
#[verifier::external_body]
pub struct ExBindGroup(wgpu::BindGroup);

#[verifier::external_type_specification]
#[verifier::external_body]
pub struct ExBindGroupLayoutEntry(wgpu::BindGroupLayoutEntry);

#[verifier::external_type_specification]
#[verifier::external_body]
pub struct ExBindGroupEntry<'a>(wgpu::BindGroupEntry<'a>);

#[verifier::external_type_specification]
#[verifier::external_body]
pub struct ExBuffer(wgpu::Buffer);

#[verifier::external_type_specification]
#[verifier::external_body]
pub struct ExTexture(wgpu::Texture);

#[verifier::external_type_specification]
#[verifier::external_body]
pub struct ExTextureView(wgpu::TextureView);

#[verifier::external_type_specification]
#[verifier::external_body]
pub struct ExSampler(wgpu::Sampler);

#[verifier::external_type_specification]
#[verifier::external_body]
pub struct ExShaderModule(wgpu::ShaderModule);

#[verifier::external_type_specification]
#[verifier::external_body]
pub struct ExPipelineLayout(wgpu::PipelineLayout);

#[verifier::external_type_specification]
#[verifier::external_body]
pub struct ExComputePipeline(wgpu::ComputePipeline);

#[verifier::external_type_specification]
#[verifier::external_body]
pub struct ExCommandEncoder(wgpu::CommandEncoder);

#[verifier::external_type_specification]
#[verifier::external_body]
pub struct ExComputePass<'a>(wgpu::ComputePass<'a>);

/// Relies on `wgpu::Surface::configure`: (re)configures the presentation
/// surface for the given device at the given size.  It panics on a zero
/// width or height, so both are required to be at least one.  The other
/// configuration fields are this renderer's fixed policy: an 8-bit BGRA
/// sRGB format for overlay-compositing compatibility, no-vsync auto
/// presentation, and a maximum frame latency of two.
#[verifier::external_body]
pub(crate) fn configure_surface(surface: &wgpu::Surface, device: &wgpu::Device, width: u32, height: u32)
    requires
        width >= 1,
        height >= 1,
{
    let config = wgpu::SurfaceConfiguration {
        usage: wgpu::TextureUsages::RENDER_ATTACHMENT,
        format: wgpu::TextureFormat::Bgra8UnormSrgb,
        width,
        height,
        present_mode: wgpu::PresentMode::AutoNoVsync,
        alpha_mode: wgpu::CompositeAlphaMode::Auto,
        view_formats: Vec::new(),
        desired_maximum_frame_latency: 2,
    };
    surface.configure(device, &config);
}

/// Builds the layout entry for the storage-texture output image binding.
#[verifier::external_body]
pub(crate) fn layout_entry_storage_texture(binding: u32) -> wgpu::BindGroupLayoutEntry {
    wgpu::BindGroupLayoutEntry {
        binding,
        visibility: wgpu::ShaderStages::COMPUTE,
        ty: wgpu::BindingType::StorageTexture {
            access: wgpu::StorageTextureAccess::ReadWrite,
            format: wgpu::TextureFormat::Rgba32Float,
            view_dimension: wgpu::TextureViewDimension::D2,
        },
        count: None,
    }
}

/// Builds the layout entry for a uniform-buffer binding.
#[verifier::external_body]
pub(crate) fn layout_entry_uniform_buffer(binding: u32) -> wgpu::BindGroupLayoutEntry {
    wgpu::BindGroupLayoutEntry {
        binding,
        visibility: wgpu::ShaderStages::COMPUTE,
        ty: wgpu::BindingType::Buffer {
            ty: wgpu::BufferBindingType::Uniform,
            has_dynamic_offset: false,
            min_binding_size: None,
        },
        count: None,
    }
}

/// Builds the layout entry for a read-only storage-buffer binding.
#[verifier::external_body]
pub(crate) fn layout_entry_storage_buffer(binding: u32) -> wgpu::BindGroupLayoutEntry {
    wgpu::BindGroupLayoutEntry {
        binding,
        visibility: wgpu::ShaderStages::COMPUTE,
        ty: wgpu::BindingType::Buffer {
            ty: wgpu::BufferBindingType::Storage { read_only: true },
            has_dynamic_offset: false,
            min_binding_size: None,
        },
        count: None,
    }
}

/// Builds the layout entry for the environment cubemap binding.
#[verifier::external_body]
pub(crate) fn layout_entry_cube_texture(binding: u32) -> wgpu::BindGroupLayoutEntry {
    wgpu::BindGroupLayoutEntry {
        binding,
        visibility: wgpu::ShaderStages::COMPUTE,
        ty: wgpu::BindingType::Texture {
            sample_type: wgpu::TextureSampleType::Float { filterable: true },
            view_dimension: wgpu::TextureViewDimension::Cube,
            multisampled: false,
        },
        count: None,
    }
}

/// Builds the layout entry for a filtering-sampler binding.
#[verifier::external_body]
pub(crate) fn layout_entry_sampler(binding: u32) -> wgpu::BindGroupLayoutEntry {
    wgpu::BindGroupLayoutEntry {
        binding,
        visibility: wgpu::ShaderStages::COMPUTE,
        ty: wgpu::BindingType::Sampler(wgpu::SamplerBindingType::Filtering),
        count: None,
    }
}

/// Relies on `wgpu::Device::create_bind_group_layout`.
#[verifier::external_body]
pub(crate) fn create_bind_group_layout(device: &wgpu::Device, entries: &Vec<wgpu::BindGroupLayoutEntry>) -> wgpu::BindGroupLayout {
    device.create_bind_group_layout(&wgpu::BindGroupLayoutDescriptor {
        label: Some("Raytracer Output Layout"),
        entries: entries.as_slice(),
    })
}

/// Builds the bind-group entry for a texture view.
#[verifier::external_body]
pub(crate) fn bind_entry_texture_view<'a>(binding: u32, view: &'a wgpu::TextureView) -> wgpu::BindGroupEntry<'a> {
    wgpu::BindGroupEntry {
        binding,
        resource: wgpu::BindingResource::TextureView(view),
    }
}

/// Builds the bind-group entry for a whole buffer.
#[verifier::external_body]
pub(crate) fn bind_entry_buffer<'a>(binding: u32, buffer: &'a wgpu::Buffer) -> wgpu::BindGroupEntry<'a> {
    wgpu::BindGroupEntry {
        binding,
        resource: buffer.as_entire_binding(),
    }
}

/// Builds the bind-group entry for a sampler.
#[verifier::external_body]
pub(crate) fn bind_entry_sampler<'a>(binding: u32, sampler: &'a wgpu::Sampler) -> wgpu::BindGroupEntry<'a> {
    wgpu::BindGroupEntry {
        binding,
        resource: wgpu::BindingResource::Sampler(sampler),
    }
}

/// Relies on `wgpu::Device::create_bind_group`.
#[verifier::external_body]
pub(crate) fn create_bind_group(device: &wgpu::Device, layout: &wgpu::BindGroupLayout, entries: &Vec<wgpu::BindGroupEntry>) -> wgpu::BindGroup {
    device.create_bind_group(&wgpu::BindGroupDescriptor {
        label: Some("Raytracer Output Bind Group"),
        layout,
        entries: entries.as_slice(),
    })
}

/// Relies on `wgpu::util::DeviceExt::create_buffer_init`: a read-only
/// storage buffer holding exactly the given words.
#[verifier::external_body]
pub(crate) fn create_storage_buffer(device: &wgpu::Device, words: &Vec<u32>) -> wgpu::Buffer {
    wgpu::util::DeviceExt::create_buffer_init(device, &wgpu::util::BufferInitDescriptor {
        label: Some("Pathtracer LDS"),
        contents: bytemuck::cast_slice(words.as_slice()),
        usage: wgpu::BufferUsages::STORAGE,
    })
}

/// Relies on `wgpu::Device::create_pipeline_layout`: two bind-group slots
/// plus one compute-stage push-constant range of the given size in bytes.
#[verifier::external_body]
pub(crate) fn create_pipeline_layout(device: &wgpu::Device, globals: &wgpu::BindGroupLayout, scene: &wgpu::BindGroupLayout, push_constant_bytes: u32) -> wgpu::PipelineLayout {
    device.create_pipeline_layout(&wgpu::PipelineLayoutDescriptor {
        label: Some("Raytracer Pipeline Layout"),
        bind_group_layouts: &[globals, scene],
        push_constant_ranges: &[wgpu::PushConstantRange {
            stages: wgpu::ShaderStages::COMPUTE,
            range: 0..push_constant_bytes,
        }],
    })
}

/// Relies on `wgpu::Device::create_shader_module`: compiles WGSL source.
#[verifier::external_body]
pub(crate) fn create_shader_module(device: &wgpu::Device, source: &str) -> wgpu::ShaderModule {
    device.create_shader_module(wgpu::ShaderModuleDescriptor {
        label: Some("Pathtracer"),
        source: wgpu::ShaderSource::Wgsl(source.into()),
    })
}

/// Relies on `wgpu::Device::create_compute_pipeline`: the kernel's entry
/// point is the shader function named `main`.
#[verifier::external_body]
pub(crate) fn create_compute_pipeline(device: &wgpu::Device, layout: &wgpu::PipelineLayout, module: &wgpu::ShaderModule) -> wgpu::ComputePipeline {
    device.create_compute_pipeline(&wgpu::ComputePipelineDescriptor {
        label: Some("Raytracer Compute"),
        layout: Some(layout),
        module,
        entry_point: "main",
        compilation_options: Default::default(),
        cache: None,
    })
}

/// Relies on `wgpu::Device::create_texture`: a 2D RGBA 32-bit float texture
/// of the given size, usable as a storage image and for sampling.  A zero
/// width or height is a validation error that aborts under the default
/// error handler, so both are required to be at least one.
#[verifier::external_body]
pub(crate) fn create_storage_texture(device: &wgpu::Device, width: u32, height: u32) -> wgpu::Texture
    requires
        width >= 1,
        height >= 1,
{
    device.create_texture(&wgpu::TextureDescriptor {
        label: Some("Raytracer Output"),
        size: wgpu::Extent3d { width, height, depth_or_array_layers: 1 },
        mip_level_count: 1,
        sample_count: 1,
        dimension: wgpu::TextureDimension::D2,
        format: wgpu::TextureFormat::Rgba32Float,
        usage: wgpu::TextureUsages::STORAGE_BINDING | wgpu::TextureUsages::TEXTURE_BINDING,
        view_formats: &[],
    })
}

/// Relies on `wgpu::Texture::create_view` with default settings.
#[verifier::external_body]
pub(crate) fn create_texture_view(texture: &wgpu::Texture) -> wgpu::TextureView {
    texture.create_view(&Default::default())
}

/// Relies on `wgpu::CommandEncoder::begin_compute_pass`: starts recording
/// one compute pass.
#[verifier::external_body]
pub(crate) fn begin_compute_pass<'e>(encoder: &'e mut wgpu::CommandEncoder) -> wgpu::ComputePass<'e> {
    encoder.begin_compute_pass(&wgpu::ComputePassDescriptor {
        label: Some("Raytracer Compute Pass"),
        timestamp_writes: None,
    })
}

/// Relies on `wgpu::ComputePass::set_pipeline`.
#[verifier::external_body]
pub(crate) fn pass_set_pipeline(pass: &mut wgpu::ComputePass, pipeline: &wgpu::ComputePipeline) {
    pass.set_pipeline(pipeline);
}

/// Relies on `wgpu::ComputePass::set_bind_group` with no dynamic offsets.
#[verifier::external_body]
pub(crate) fn pass_set_bind_group(pass: &mut wgpu::ComputePass, index: u32, group: &wgpu::BindGroup) {
    pass.set_bind_group(index, group, &[]);
}

/// Relies on `wgpu::ComputePass::set_push_constants`: uploads the given
/// words as the pass's push-constant data at the given byte offset.  The
/// offset must be four-byte aligned (a misaligned one is a deferred
/// validation error); whole words keep the data length aligned by type.
#[verifier::external_body]
pub(crate) fn pass_set_push_constants(pass: &mut wgpu::ComputePass, offset: u32, words: &Vec<u32>)
    requires
        offset % 4 == 0,
{
    pass.set_push_constants(offset, bytemuck::cast_slice(words.as_slice()));
}

/// Relies on `wgpu::ComputePass::dispatch_workgroups`.
#[verifier::external_body]
pub(crate) fn pass_dispatch_workgroups(pass: &mut wgpu::ComputePass, x: u32, y: u32, z: u32) {
    pass.dispatch_workgroups(x, y, z);
}

} // verus!
