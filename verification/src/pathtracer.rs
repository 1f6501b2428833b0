//! The progressive path tracer: a compute kernel, its resource bindings and
//! the accumulation state.
//!
//! Each dispatch below the sample budget advances the sample index by one and
//! recomputes the blend weight `1/sample_index`, so the kernel folds the new
//! sample into an unweighted running mean; at the budget a dispatch changes
//! nothing.  Invalidation resets the index to zero, after which the dispatch
//! sequence reproduces a fresh renderer's weights exactly.

use vstd::prelude::*;
use vstd::math::min;
use vstd::arithmetic::mul::lemma_mul_inequality;
use vstd::arithmetic::div_mod::{lemma_div_is_ordered, lemma_div_multiples_vanish, lemma_fundamental_div_mod, lemma_mod_multiples_basic};
use crate::context::WGPUContext;
use crate::gpu;
use crate::sampling;
use crate::weight::{f32_recip_bits, recip_weight_bits};

verus! {

/// Side, in pixels, of the square tile one compute workgroup covers; output
/// dimensions are rounded down to a multiple of it.
pub const COMPUTE_SIZE: u32 = 8;

/// Dimension sets consumed per light-transport bounce (plus one shared set).
pub const LDS_PER_BOUNCE: u32 = 2;

/// Default number of light-transport bounces.
pub const DEFAULT_BOUNCES: u32 = 8;

/// Default sample budget: accumulation saturates here.
pub const DEFAULT_MAX_SAMPLES: u32 = 1024;

/// Default clamp on one sample's radiance contribution, as the binary32 bit
/// pattern of 4.0 (fireflies control).
pub const DEFAULT_CONTRIBUTION_BITS: u32 = 0x4080_0000;

/// Default resolution factor, as the exact rational 3/10 of the window size.
pub const DEFAULT_RESOLUTION_NUM: u32 = 3;
pub const DEFAULT_RESOLUTION_DEN: u32 = 10;

/// Size in bytes of the per-dispatch push-constant block: the four words of
/// `Globals`.
pub const GLOBALS_BYTES: u32 = 16;

/// Per-dispatch kernel constants.  `weight_bits` and `contribution_bits`
/// hold binary32 bit patterns; the weight is exactly the bit pattern of
/// `1 / sample` whenever at least one sample has been dispatched.
#[derive(Clone, Copy, PartialEq, Eq, Structural, Debug)]
pub struct Globals {
    pub sample: u32,
    pub weight_bits: u32,
    pub bounces: u32,
    pub contribution_bits: u32,
}

/// The accumulation state a freshly created renderer starts from.
pub open spec fn default_globals() -> Globals {
    Globals {
        sample: 0,
        weight_bits: 0,
        bounces: DEFAULT_BOUNCES,
        contribution_bits: DEFAULT_CONTRIBUTION_BITS,
    }
}

impl Globals {
    /// The blend weight is consistent with the sample index.
    pub open spec fn wf(self) -> bool {
        self.sample >= 1 ==> self.weight_bits == f32_recip_bits(self.sample)
    }

    /// Advances the accumulation state by one dispatch and reports whether a
    /// sample was actually taken: below the budget the sample index
    /// increments and the weight becomes exactly `1/sample_index`; at or
    /// above it, the state saturates and nothing changes.
    pub fn advance(&mut self, max_sample_count: u32) -> (dispatched: bool)
        requires
            old(self).wf(),
        ensures
            final(self).wf(),
            *final(self) == dispatch_step(*old(self), max_sample_count),
            dispatched == (old(self).sample < max_sample_count),
            !dispatched ==> *final(self) == *old(self),
    {
        if self.sample >= max_sample_count {
            return false;
        }
        self.sample = self.sample + 1;
        self.weight_bits = recip_weight_bits(self.sample);
        true
    }
}

impl Default for Globals {
    fn default() -> (r: Self)
        ensures
            r == default_globals(),
    {
        Globals {
            sample: 0,
            weight_bits: 0,
            bounces: DEFAULT_BOUNCES,
            contribution_bits: DEFAULT_CONTRIBUTION_BITS,
        }
    }
}

/// What one `dispatch` call does to the accumulation state: below the budget
/// the sample index advances and the weight becomes `1/sample`; at or above
/// it, nothing changes.
pub open spec fn dispatch_step(g: Globals, max_sample_count: u32) -> Globals {
    if g.sample >= max_sample_count {
        g
    } else {
        Globals {
            sample: (g.sample + 1) as u32,
            weight_bits: f32_recip_bits((g.sample + 1) as u32),
            ..g
        }
    }
}

/// The accumulation state after `n` further dispatches.
pub open spec fn dispatch_steps(g: Globals, max_sample_count: u32, n: nat) -> Globals
    decreases n,
{
    if n == 0 {
        g
    } else {
        dispatch_step(dispatch_steps(g, max_sample_count, (n - 1) as nat), max_sample_count)
    }
}

/// What `invalidate` does: the sample index returns to zero and accumulation
/// restarts; nothing else changes.
pub open spec fn invalidated(g: Globals) -> Globals {
    Globals { sample: 0, ..g }
}

/// From sample index zero, `n` dispatches raise the index to
/// `min(n, budget)`, and the weight is exactly `1/index` as soon as any
/// sample has been dispatched.
pub proof fn lemma_weights_from_zero(g: Globals, max_sample_count: u32, n: nat)
    requires
        g.sample == 0,
    ensures
        dispatch_steps(g, max_sample_count, n).sample == min(n as int, max_sample_count as int),
        dispatch_steps(g, max_sample_count, n).sample >= 1 ==> dispatch_steps(g, max_sample_count, n).weight_bits
            == f32_recip_bits(dispatch_steps(g, max_sample_count, n).sample),
        dispatch_steps(g, max_sample_count, n).sample == 0 ==> dispatch_steps(g, max_sample_count, n).weight_bits
            == g.weight_bits,
        dispatch_steps(g, max_sample_count, n).bounces == g.bounces,
        dispatch_steps(g, max_sample_count, n).contribution_bits == g.contribution_bits,
    decreases n,
{
    if n > 0 {
        lemma_weights_from_zero(g, max_sample_count, (n - 1) as nat);
    }
}

/// Invalidation restarts accumulation exactly: after `invalidate`, any
/// number of dispatches reproduces the sample indices and blend weights of a
/// fresh renderer with the same bounce count and contribution clamp.
pub proof fn lemma_invalidate_restarts(stale: Globals, fresh: Globals, max_sample_count: u32, n: nat)
    requires
        fresh.sample == 0,
        fresh.bounces == stale.bounces,
        fresh.contribution_bits == stale.contribution_bits,
    ensures
        dispatch_steps(invalidated(stale), max_sample_count, n).sample == dispatch_steps(
            fresh,
            max_sample_count,
            n,
        ).sample,
        dispatch_steps(invalidated(stale), max_sample_count, n).sample >= 1 ==> dispatch_steps(
            invalidated(stale),
            max_sample_count,
            n,
        ).weight_bits == dispatch_steps(fresh, max_sample_count, n).weight_bits,
{
    lemma_weights_from_zero(invalidated(stale), max_sample_count, n);
    lemma_weights_from_zero(fresh, max_sample_count, n);
}

/// The render-target size along one axis: the window size scaled by the
/// resolution factor `num/den`, rounded down to a whole multiple of the
/// compute tile size.
pub open spec fn scaled_dim(x: u32, num: u32, den: u32) -> int
    recommends
        den >= 1,
{
    x as int * num as int / den as int / (COMPUTE_SIZE as int) * (COMPUTE_SIZE as int)
}

/// Computes `scaled_dim` in 64-bit arithmetic.
pub fn render_target_dim(x: u32, num: u32, den: u32) -> (r: u32)
    requires
        den >= 1,
        num <= den,
    ensures
        r == scaled_dim(x, num, den),
        r % COMPUTE_SIZE == 0,
        r <= x,
{
    proof {
        assert((x as int) * (num as int) <= 0xffff_ffff * 0xffff_ffff) by (nonlinear_arith)
            requires
                x <= 0xffff_ffff,
                num <= 0xffff_ffff,
        ;
    }
    let scaled: u64 = (x as u64) * (num as u64) / (den as u64);
    proof {
        lemma_mul_inequality(num as int, den as int, x as int);
        lemma_div_is_ordered((num * x) as int, (den * x) as int, den as int);
        lemma_div_multiples_vanish(x as int, den as int);
        assert(scaled <= x);
    }
    let aligned: u64 = scaled / (COMPUTE_SIZE as u64) * (COMPUTE_SIZE as u64);
    proof {
        lemma_fundamental_div_mod(scaled as int, COMPUTE_SIZE as int);
        lemma_mod_multiples_basic((scaled as int) / (COMPUTE_SIZE as int), COMPUTE_SIZE as int);
    }
    aligned as u32
}

/// The actual size of the output image along one axis: `scaled_dim`, raised
/// to one full tile where that rounds to zero.  A zero-area image is illegal
/// to create, so a window whose scaled size falls below one tile gets a
/// single-tile target; this resolves a latent gap rather than following a
/// stated policy, since the sizing rule alone would demand zero.
pub open spec fn clamped_dim(x: u32, num: u32, den: u32) -> int {
    if scaled_dim(x, num, den) == 0 {
        COMPUTE_SIZE as int
    } else {
        scaled_dim(x, num, den)
    }
}

/// Computes `clamped_dim`: the tile-aligned target size, at least one tile.
pub fn output_dim(x: u32, num: u32, den: u32) -> (r: u32)
    requires
        den >= 1,
        num <= den,
    ensures
        r == clamped_dim(x, num, den),
        r % COMPUTE_SIZE == 0,
        r >= COMPUTE_SIZE,
{
    let d = render_target_dim(x, num, den);
    if d == 0 {
        COMPUTE_SIZE
    } else {
        d
    }
}

/// The renderer-owned output image: the accumulated radiance target, sized
/// to the window scaled by the resolution factor and tile-aligned.
pub struct OutputTexture {
    pub texture: wgpu::Texture,
    pub view: wgpu::TextureView,
    pub width: u32,
    pub height: u32,
}

impl OutputTexture {
    /// Both dimensions are whole, nonzero multiples of the compute tile
    /// size.
    pub open spec fn wf(self) -> bool {
        &&& self.width % COMPUTE_SIZE == 0
        &&& self.height % COMPUTE_SIZE == 0
        &&& self.width >= COMPUTE_SIZE
        &&& self.height >= COMPUTE_SIZE
    }
}

/// Creates the output image for the current window size and resolution
/// factor.
fn create_output_texture(context: &WGPUContext, num: u32, den: u32) -> (r: OutputTexture)
    requires
        den >= 1,
        num <= den,
    ensures
        r.wf(),
        r.width == clamped_dim(context.config.width, num, den),
        r.height == clamped_dim(context.config.height, num, den),
{
    let width = output_dim(context.config.width, num, den);
    let height = output_dim(context.config.height, num, den);
    let texture = gpu::create_storage_texture(&context.device, width, height);
    let view = gpu::create_texture_view(&texture);
    OutputTexture { texture, view, width, height }
}

/// The progressive renderer: compute kernel, resource bindings, sampling
/// table and accumulation state.
pub struct Pathtracer {
    pub pipeline: wgpu::ComputePipeline,
    pub global_layout: wgpu::BindGroupLayout,
    pub global_group: wgpu::BindGroup,
    pub output: OutputTexture,
    pub lds_buffer: wgpu::Buffer,
    pub globals: Globals,
    pub resolution_num: u32,
    pub resolution_den: u32,
    pub max_sample_count: u32,
}

impl Pathtracer {
    /// The accumulation weight matches the sample index, the index never
    /// exceeds the sample budget, the output image is tile-aligned and
    /// nonzero, and the resolution factor is a rational in `(0, 1]`.
    pub open spec fn wf(self) -> bool {
        &&& self.globals.wf()
        &&& self.globals.sample <= self.max_sample_count
        &&& self.output.wf()
        &&& self.resolution_den >= 1
        &&& self.resolution_num <= self.resolution_den
    }

    /// Builds the bind group wiring the output image, camera buffer,
    /// sampling table, environment cubemap and sampler to the kernel.
    fn create_global_group(
        context: &WGPUContext,
        global_layout: &wgpu::BindGroupLayout,
        output: &OutputTexture,
        camera_buffer: &wgpu::Buffer,
        lds_buffer: &wgpu::Buffer,
        envmap_view: &wgpu::TextureView,
        envmap_sampler: &wgpu::Sampler,
    ) -> wgpu::BindGroup {
        let mut entries: Vec<wgpu::BindGroupEntry> = Vec::new();
        entries.push(gpu::bind_entry_texture_view(0, &output.view));
        entries.push(gpu::bind_entry_buffer(1, camera_buffer));
        entries.push(gpu::bind_entry_buffer(2, lds_buffer));
        entries.push(gpu::bind_entry_texture_view(3, envmap_view));
        entries.push(gpu::bind_entry_sampler(4, envmap_sampler));
        gpu::create_bind_group(&context.device, global_layout, &entries)
    }

    /// Creates the renderer: kernel, binding layout, initial render target
    /// at the default resolution factor, the sampling table for the default
    /// bounce count and sample budget, and the initial binding set.
    pub fn new(
        context: &WGPUContext,
        scene_layout: &wgpu::BindGroupLayout,
        camera_buffer: &wgpu::Buffer,
        envmap_view: &wgpu::TextureView,
        envmap_sampler: &wgpu::Sampler,
        shader_source: &str,
    ) -> (r: Self)
        ensures
            r.wf(),
            r.globals == default_globals(),
            r.max_sample_count == DEFAULT_MAX_SAMPLES,
            r.resolution_num == DEFAULT_RESOLUTION_NUM,
            r.resolution_den == DEFAULT_RESOLUTION_DEN,
            r.output.width == clamped_dim(context.config.width, DEFAULT_RESOLUTION_NUM, DEFAULT_RESOLUTION_DEN),
            r.output.height == clamped_dim(context.config.height, DEFAULT_RESOLUTION_NUM, DEFAULT_RESOLUTION_DEN),
    {
        let output = create_output_texture(context, DEFAULT_RESOLUTION_NUM, DEFAULT_RESOLUTION_DEN);
        let globals = Globals::default();
        let dims = globals.bounces * LDS_PER_BOUNCE + 1;
        let lds = sampling::generate_sample_table(DEFAULT_MAX_SAMPLES, dims, 0);
        let lds_buffer = gpu::create_storage_buffer(&context.device, &lds);

        let mut entries: Vec<wgpu::BindGroupLayoutEntry> = Vec::new();
        entries.push(gpu::layout_entry_storage_texture(0));
        entries.push(gpu::layout_entry_uniform_buffer(1));
        entries.push(gpu::layout_entry_storage_buffer(2));
        entries.push(gpu::layout_entry_cube_texture(3));
        entries.push(gpu::layout_entry_sampler(4));
        let global_layout = gpu::create_bind_group_layout(&context.device, &entries);

        let global_group = Self::create_global_group(
            context,
            &global_layout,
            &output,
            camera_buffer,
            &lds_buffer,
            envmap_view,
            envmap_sampler,
        );
        let layout = gpu::create_pipeline_layout(&context.device, &global_layout, scene_layout, GLOBALS_BYTES);
        let module = gpu::create_shader_module(&context.device, shader_source);
        let pipeline = gpu::create_compute_pipeline(&context.device, &layout, &module);

        Pathtracer {
            pipeline,
            global_layout,
            global_group,
            output,
            lds_buffer,
            globals,
            resolution_num: DEFAULT_RESOLUTION_NUM,
            resolution_den: DEFAULT_RESOLUTION_DEN,
            max_sample_count: DEFAULT_MAX_SAMPLES,
        }
    }

    /// The accumulated radiance image.
    pub fn output_texture(&self) -> (r: &OutputTexture)
        ensures
            r == self.output,
    {
        &self.output
    }

    /// Recreates the render target from the current window size and
    /// resolution factor.  Accumulation state is deliberately kept: under
    /// this design only scene/camera/environment changes invalidate it.
    /// Note that the binding set still points at the previous image until
    /// the next `update` rebuilds it.
    pub fn resize(&mut self, context: &WGPUContext)
        requires
            old(self).wf(),
        ensures
            final(self).wf(),
            final(self).output.width == clamped_dim(context.config.width, old(self).resolution_num, old(self).resolution_den),
            final(self).output.height == clamped_dim(context.config.height, old(self).resolution_num, old(self).resolution_den),
            final(self).globals == old(self).globals,
            final(self).max_sample_count == old(self).max_sample_count,
            final(self).resolution_num == old(self).resolution_num,
            final(self).resolution_den == old(self).resolution_den,
            final(self).pipeline == old(self).pipeline,
            final(self).global_layout == old(self).global_layout,
            final(self).global_group == old(self).global_group,
            final(self).lds_buffer == old(self).lds_buffer,
    {
        self.output = create_output_texture(context, self.resolution_num, self.resolution_den);
    }

    /// Rebuilds the binding set against the (possibly changed) camera buffer
    /// and environment map, then invalidates accumulation.  Must be called
    /// by the owner whenever camera or environment identity changes; the
    /// renderer cannot detect that itself.
    pub fn update(
        &mut self,
        context: &WGPUContext,
        camera_buffer: &wgpu::Buffer,
        envmap_view: &wgpu::TextureView,
        envmap_sampler: &wgpu::Sampler,
    )
        requires
            old(self).wf(),
        ensures
            final(self).wf(),
            final(self).globals == invalidated(old(self).globals),
            final(self).max_sample_count == old(self).max_sample_count,
            final(self).resolution_num == old(self).resolution_num,
            final(self).resolution_den == old(self).resolution_den,
            final(self).output == old(self).output,
            final(self).pipeline == old(self).pipeline,
            final(self).global_layout == old(self).global_layout,
            final(self).lds_buffer == old(self).lds_buffer,
    {
        self.global_group = Self::create_global_group(
            context,
            &self.global_layout,
            &self.output,
            camera_buffer,
            &self.lds_buffer,
            envmap_view,
            envmap_sampler,
        );
        self.invalidate();
    }

    /// The number of samples accumulated so far.
    pub fn sample_count(&self) -> (r: u32)
        ensures
            r == self.globals.sample,
    {
        self.globals.sample
    }

    /// Resets the sample index to zero, restarting accumulation.  Pure state
    /// mutation: no GPU calls.
    pub fn invalidate(&mut self)
        requires
            old(self).wf(),
        ensures
            final(self).wf(),
            final(self).globals == invalidated(old(self).globals),
            final(self).max_sample_count == old(self).max_sample_count,
            final(self).resolution_num == old(self).resolution_num,
            final(self).resolution_den == old(self).resolution_den,
            final(self).output == old(self).output,
            final(self).pipeline == old(self).pipeline,
            final(self).global_layout == old(self).global_layout,
            final(self).global_group == old(self).global_group,
            final(self).lds_buffer == old(self).lds_buffer,
    {
        self.globals.sample = 0;
    }

    /// Records one accumulation step.  At or above the sample budget this is
    /// a complete no-op: the state is untouched and no pass is recorded.
    /// Below it, the sample index advances, the weight becomes exactly
    /// `1/sample_index`, and one compute pass is recorded with the full
    /// state as push constants and one workgroup per output tile.
    pub fn dispatch(&mut self, encoder: &mut wgpu::CommandEncoder, scene_group: &wgpu::BindGroup)
        requires
            old(self).wf(),
        ensures
            final(self).wf(),
            final(self).globals == dispatch_step(old(self).globals, old(self).max_sample_count),
            final(self).max_sample_count == old(self).max_sample_count,
            final(self).resolution_num == old(self).resolution_num,
            final(self).resolution_den == old(self).resolution_den,
            final(self).output == old(self).output,
            final(self).pipeline == old(self).pipeline,
            final(self).global_layout == old(self).global_layout,
            final(self).global_group == old(self).global_group,
            final(self).lds_buffer == old(self).lds_buffer,
            old(self).globals.sample >= old(self).max_sample_count ==> *final(self) == *old(self),
    {
        let dispatched = self.globals.advance(self.max_sample_count);
        if !dispatched {
            return ;
        }

        let mut words: Vec<u32> = Vec::new();
        words.push(self.globals.sample);
        words.push(self.globals.weight_bits);
        words.push(self.globals.bounces);
        words.push(self.globals.contribution_bits);

        let groups_x = self.output.width / COMPUTE_SIZE;
        let groups_y = self.output.height / COMPUTE_SIZE;

        let mut cpass = gpu::begin_compute_pass(encoder);
        gpu::pass_set_pipeline(&mut cpass, &self.pipeline);
        gpu::pass_set_bind_group(&mut cpass, 0, &self.global_group);
        gpu::pass_set_bind_group(&mut cpass, 1, scene_group);
        gpu::pass_set_push_constants(&mut cpass, 0, &words);
        gpu::pass_dispatch_workgroups(&mut cpass, groups_x, groups_y, 1);
    }
}

} // verus!
