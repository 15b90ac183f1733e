//! Field storage and presentation: double-channel storage buffers with
//! ghost-cell sizing, current/previous role bookkeeping, and the renderer
//! that turns the final field state into a frame.

use vstd::prelude::*;

use crate::config::{lemma_padded_square_bounds, Config};
use crate::gpu;
use crate::programs::velocity::Velocity;
use crate::recorder::{CommandRecorder, RecordedCommand};

verus! {

/// An initial-state array's length disagrees with the element count the
/// configuration prescribes.
#[derive(Clone, Copy, Debug, PartialEq, Eq, Structural)]
pub struct SizeMismatchError {
    /// The element count every channel buffer must have.
    pub expected: usize,
    /// The length of the offending initial-state array.
    pub got: usize,
}

/// One 2-channel grid-valued quantity: two equal-length device buffers, one
/// per scalar channel, each holding one 32-bit element per padded grid cell.
pub struct StorageBuffer2D {
    /// Rows and columns, each the padded dimension of the grid.
    pub dim: (u64, u64),
    pub x: wgpu::Buffer,
    pub y: wgpu::Buffer,
    /// The element contents uploaded to the x channel at construction.
    pub init_x: Ghost<Seq<i32>>,
    /// The element contents uploaded to the y channel at construction.
    pub init_y: Ghost<Seq<i32>>,
}

/// Length check of an optional initial-state array against the element count.
pub open spec fn spec_initial_fits(opt: Option<Vec<i32>>, count: int) -> bool {
    match opt {
        Some(v) => v@.len() == count,
        None => true,
    }
}

/// The contents a channel starts with: the supplied array, or all zeroes.
pub open spec fn spec_initial_contents(opt: Option<Vec<i32>>, count: int) -> Seq<i32> {
    match opt {
        Some(v) => v@,
        None => Seq::new(count as nat, |i: int| 0i32),
    }
}

/// Checks one optional initial-state array against the element count every
/// channel buffer must have: a supplied array of any other length is
/// rejected with the size-mismatch error naming both lengths.
pub fn validate_initial_state(expected: usize, initial: Option<&Vec<i32>>) -> (r: Result<
    (),
    SizeMismatchError,
>)
    ensures
        r is Ok <==> (initial matches Some(v) ==> v@.len() == expected),
        r matches Err(e) ==> {
            &&& e.expected == expected
            &&& initial matches Some(v) && e.got == v@.len()
        },
{
    match initial {
        Some(v) => {
            if v.len() != expected {
                Err(SizeMismatchError { expected, got: v.len() })
            } else {
                Ok(())
            }
        },
        None => Ok(()),
    }
}

impl StorageBuffer2D {
    pub closed spec fn spec_dim(&self) -> (u64, u64) {
        self.dim
    }

    /// The recorded initial contents of the x channel.
    pub closed spec fn spec_init_x(&self) -> Seq<i32> {
        self.init_x@
    }

    /// The recorded initial contents of the y channel.
    pub closed spec fn spec_init_y(&self) -> Seq<i32> {
        self.init_y@
    }

    /// Elements per channel buffer.
    pub open spec fn spec_element_count(&self) -> int {
        self.spec_dim().0 * self.spec_dim().1
    }

    /// Both channels hold exactly one element per cell of the dimension.
    pub open spec fn wf(&self) -> bool {
        &&& self.spec_init_x().len() == self.spec_element_count()
        &&& self.spec_init_y().len() == self.spec_element_count()
    }

    /// Allocates the two channel buffers, each of `dim.0 * dim.1` elements,
    /// uploading a supplied initial array or zero-filling. An initial array
    /// of the wrong length is rejected before any buffer is created.
    pub fn new(
        device: &wgpu::Device,
        dim: (u64, u64),
        label: Option<&str>,
        initial_state_x: Option<Vec<i32>>,
        initial_state_y: Option<Vec<i32>>,
    ) -> (r: Result<StorageBuffer2D, SizeMismatchError>)
        requires
            dim.0 * dim.1 * 4 <= u64::MAX,
            dim.0 * dim.1 <= usize::MAX,
        ensures
            r is Ok <==> spec_initial_fits(initial_state_x, dim.0 * dim.1)
                && spec_initial_fits(initial_state_y, dim.0 * dim.1),
            r matches Ok(b) ==> {
                &&& b.wf()
                &&& b.spec_dim() == dim
                &&& b.spec_init_x() == spec_initial_contents(initial_state_x, dim.0 * dim.1)
                &&& b.spec_init_y() == spec_initial_contents(initial_state_y, dim.0 * dim.1)
            },
            r matches Err(e) ==> e.expected == dim.0 * dim.1
                && e.got == (if !spec_initial_fits(initial_state_x, dim.0 * dim.1) {
                    initial_state_x.unwrap()@.len()
                } else {
                    initial_state_y.unwrap()@.len()
                }),
    {
        proof {
            assert(dim.0 * dim.1 >= 0) by (nonlinear_arith);
        }
        let count_u64: u64 = dim.0 * dim.1;
        let count: usize = count_u64 as usize;
        let size_bytes: u64 = count_u64 * 4;

        match validate_initial_state(count, initial_state_x.as_ref()) {
            Err(e) => {
                return Err(e);
            },
            Ok(()) => {},
        }
        match validate_initial_state(count, initial_state_y.as_ref()) {
            Err(e) => {
                return Err(e);
            },
            Ok(()) => {},
        }

        let (x, init_x) = match initial_state_x {
            Some(v) => {
                let b = gpu::create_storage_buffer_init(device, &v, size_bytes, label);
                (b, Ghost(v@))
            },
            None => {
                let b = gpu::create_storage_buffer(device, size_bytes, label);
                (b, Ghost(Seq::new(count_u64 as nat, |i: int| 0i32)))
            },
        };
        let (y, init_y) = match initial_state_y {
            Some(v) => {
                let b = gpu::create_storage_buffer_init(device, &v, size_bytes, label);
                (b, Ghost(v@))
            },
            None => {
                let b = gpu::create_storage_buffer(device, size_bytes, label);
                (b, Ghost(Seq::new(count_u64 as nat, |i: int| 0i32)))
            },
        };

        Ok(StorageBuffer2D { dim, x, y, init_x, init_y })
    }
}

/// The current/previous role assignment of a two-slot buffer pair: pure
/// bookkeeping, no device state. Slot 0 starts in the "current" role; a swap
/// relabels without copying.
#[derive(Clone, Copy, Debug, PartialEq, Eq, Structural)]
pub struct BufferRoles {
    current_is_slot1: bool,
}

impl BufferRoles {
    /// Index of the slot currently labeled "current" (the step's write target).
    pub closed spec fn spec_current_index(&self) -> int {
        if self.current_is_slot1 {
            1
        } else {
            0
        }
    }

    /// Index of the slot currently labeled "previous" (the step's read source).
    pub open spec fn spec_previous_index(&self) -> int {
        1 - self.spec_current_index()
    }

    /// Fresh roles: slot 0 is current, slot 1 is previous.
    pub fn new() -> (r: BufferRoles)
        ensures
            r.spec_current_index() == 0,
    {
        BufferRoles { current_is_slot1: false }
    }

    pub fn current_index(&self) -> (r: usize)
        ensures
            r == self.spec_current_index(),
    {
        if self.current_is_slot1 {
            1
        } else {
            0
        }
    }

    pub fn previous_index(&self) -> (r: usize)
        ensures
            r == self.spec_previous_index(),
    {
        if self.current_is_slot1 {
            0
        } else {
            1
        }
    }

    /// Relabels the two slots: the write target of the finished step becomes
    /// the read source of the next one.
    pub fn swap(&mut self)
        ensures
            final(self).spec_current_index() == old(self).spec_previous_index(),
    {
        self.current_is_slot1 = !self.current_is_slot1;
    }
}

/// A double-buffered quantity: two physical buffer slots plus the role labels
/// that say which is read and which is written this step.
pub struct FieldPair {
    slot0: StorageBuffer2D,
    slot1: StorageBuffer2D,
    roles: BufferRoles,
}

impl FieldPair {
    pub closed spec fn spec_slot0(&self) -> StorageBuffer2D {
        self.slot0
    }

    pub closed spec fn spec_slot1(&self) -> StorageBuffer2D {
        self.slot1
    }

    pub closed spec fn spec_roles(&self) -> BufferRoles {
        self.roles
    }

    pub open spec fn spec_current_index(&self) -> int {
        self.spec_roles().spec_current_index()
    }

    pub open spec fn wf(&self) -> bool {
        &&& self.spec_slot0().wf()
        &&& self.spec_slot1().wf()
    }

    /// Both slots sized to `count` elements.
    pub open spec fn sized_to(&self, count: int) -> bool {
        &&& self.spec_slot0().spec_element_count() == count
        &&& self.spec_slot1().spec_element_count() == count
    }

    /// Pairs two equal-sized slots; slot 0 starts as "current".
    pub fn new(slot0: StorageBuffer2D, slot1: StorageBuffer2D) -> (r: FieldPair)
        ensures
            r.spec_slot0() == slot0,
            r.spec_slot1() == slot1,
            r.spec_current_index() == 0,
    {
        FieldPair { slot0, slot1, roles: BufferRoles::new() }
    }

    /// The slot with index `index` (0 or false picks slot 0).
    pub fn slot(&self, index: bool) -> (r: &StorageBuffer2D)
        ensures
            *r == if index { self.spec_slot1() } else { self.spec_slot0() },
    {
        if index {
            &self.slot1
        } else {
            &self.slot0
        }
    }

    /// The buffer currently labeled "current": this step's write target.
    pub fn current(&self) -> (r: &StorageBuffer2D)
        ensures
            *r == if self.spec_current_index() == 1 { self.spec_slot1() } else { self.spec_slot0() },
    {
        if self.roles.current_index() == 1 {
            &self.slot1
        } else {
            &self.slot0
        }
    }

    /// The buffer currently labeled "previous": this step's read source.
    pub fn previous(&self) -> (r: &StorageBuffer2D)
        ensures
            *r == if self.spec_current_index() == 1 { self.spec_slot0() } else { self.spec_slot1() },
    {
        if self.roles.current_index() == 1 {
            &self.slot0
        } else {
            &self.slot1
        }
    }

    /// A pure relabeling: both physical slots are untouched, only the
    /// current/previous labels trade places.
    pub fn swap_roles(&mut self)
        ensures
            final(self).spec_slot0() == old(self).spec_slot0(),
            final(self).spec_slot1() == old(self).spec_slot1(),
            final(self).spec_current_index() == old(self).spec_roles().spec_previous_index(),
    {
        self.roles.swap();
    }
}

/// Allocates one zero-filled field whose channels each hold one element per
/// padded grid cell of the configuration.
pub fn allocate_zero_field(device: &wgpu::Device, config: &Config, label: Option<&str>) -> (r:
    StorageBuffer2D)
    requires
        config.wf(),
    ensures
        r.wf(),
        r.spec_element_count() == config.spec_buffer_size(),
        r.spec_init_x() == spec_initial_contents(None, config.spec_buffer_size()),
        r.spec_init_y() == spec_initial_contents(None, config.spec_buffer_size()),
{
    let padded: u64 = (config.grid_size() as u64) + 2;
    proof {
        lemma_padded_square_bounds(padded as int);
    }
    match StorageBuffer2D::new(device, (padded, padded), label, None, None) {
        Ok(b) => b,
        Err(_) => unreached(),
    }
}

/// Optional initial contents for the seedable fields, each array one
/// element per padded cell: the constant source field's two channels, the
/// velocity components (u into the x channel, v into the y), and the density
/// pair's two channels. Whatever is not supplied starts zero-filled.
pub struct InitialState {
    pub source_x: Option<Vec<i32>>,
    pub source_y: Option<Vec<i32>>,
    pub velocity_u: Option<Vec<i32>>,
    pub velocity_v: Option<Vec<i32>>,
    pub density_x: Option<Vec<i32>>,
    pub density_y: Option<Vec<i32>>,
}

impl InitialState {
    /// Every supplied array holds exactly `count` elements.
    pub open spec fn spec_fits_all(&self, count: int) -> bool {
        &&& spec_initial_fits(self.source_x, count)
        &&& spec_initial_fits(self.source_y, count)
        &&& spec_initial_fits(self.velocity_u, count)
        &&& spec_initial_fits(self.velocity_v, count)
        &&& spec_initial_fits(self.density_x, count)
        &&& spec_initial_fits(self.density_y, count)
    }

    /// The length of the first supplied array, in field order, that does not
    /// hold `count` elements; `count` itself when all fit.
    pub open spec fn spec_offending_len(&self, count: int) -> int {
        if !spec_initial_fits(self.source_x, count) {
            self.source_x.unwrap()@.len() as int
        } else if !spec_initial_fits(self.source_y, count) {
            self.source_y.unwrap()@.len() as int
        } else if !spec_initial_fits(self.velocity_u, count) {
            self.velocity_u.unwrap()@.len() as int
        } else if !spec_initial_fits(self.velocity_v, count) {
            self.velocity_v.unwrap()@.len() as int
        } else if !spec_initial_fits(self.density_x, count) {
            self.density_x.unwrap()@.len() as int
        } else if !spec_initial_fits(self.density_y, count) {
            self.density_y.unwrap()@.len() as int
        } else {
            count
        }
    }
}

impl Default for InitialState {
    /// No initial arrays: every field starts zero-filled.
    fn default() -> (r: Self)
        ensures
            r.source_x is None && r.source_y is None,
            r.velocity_u is None && r.velocity_v is None,
            r.density_x is None && r.density_y is None,
    {
        InitialState {
            source_x: None,
            source_y: None,
            velocity_u: None,
            velocity_v: None,
            density_x: None,
            density_y: None,
        }
    }
}

/// The full buffer set a pipeline owns: the constant source field and the
/// double-buffered velocity and density quantities.
pub struct StorageBuffers {
    pub source: StorageBuffer2D,
    pub velocity: Velocity,
    pub density: FieldPair,
}

impl StorageBuffers {
    /// Every channel buffer of every field holds exactly
    /// `config.spec_buffer_size()` elements.
    pub open spec fn wf(&self, config: Config) -> bool {
        &&& self.source.wf()
        &&& self.source.spec_element_count() == config.spec_buffer_size()
        &&& self.velocity.wf()
        &&& self.velocity.sized_to(config.spec_buffer_size())
        &&& self.density.wf()
        &&& self.density.sized_to(config.spec_buffer_size())
    }

    /// The recorded initial contents agree with the supplied arrays: the
    /// source field and the slot-0 halves of both pairs hold them (or
    /// zeroes), channel by channel.
    pub open spec fn matches_initial(&self, initial: InitialState, count: int) -> bool {
        &&& self.source.spec_init_x() == spec_initial_contents(initial.source_x, count)
        &&& self.source.spec_init_y() == spec_initial_contents(initial.source_y, count)
        &&& self.velocity.spec_pair().spec_slot0().spec_init_x() == spec_initial_contents(
            initial.velocity_u,
            count,
        )
        &&& self.velocity.spec_pair().spec_slot0().spec_init_y() == spec_initial_contents(
            initial.velocity_v,
            count,
        )
        &&& self.density.spec_slot0().spec_init_x() == spec_initial_contents(
            initial.density_x,
            count,
        )
        &&& self.density.spec_slot0().spec_init_y() == spec_initial_contents(
            initial.density_y,
            count,
        )
    }

    /// The physical buffer slots of `self` and `other` coincide: only role
    /// labels may differ.
    pub open spec fn same_slots(&self, other: &StorageBuffers) -> bool {
        &&& self.source == other.source
        &&& self.velocity.spec_pair().spec_slot0() == other.velocity.spec_pair().spec_slot0()
        &&& self.velocity.spec_pair().spec_slot1() == other.velocity.spec_pair().spec_slot1()
        &&& self.density.spec_slot0() == other.density.spec_slot0()
        &&& self.density.spec_slot1() == other.density.spec_slot1()
    }
}

/// Allocates the pipeline's full buffer set, zero-filled: the source field
/// and both slots of the velocity and density pairs, every buffer sized by
/// the configuration; both pairs start with slot 0 in the "current" role.
pub fn create_buffers(device: &wgpu::Device, config: &Config) -> (r: StorageBuffers)
    requires
        config.wf(),
    ensures
        r.wf(*config),
        r.velocity.spec_current_index() == 0,
        r.density.spec_current_index() == 0,
        r.source.spec_init_x() == spec_initial_contents(None, config.spec_buffer_size()),
        r.source.spec_init_y() == spec_initial_contents(None, config.spec_buffer_size()),
{
    let source = allocate_zero_field(device, config, Some("source buffer"));
    let velocity = match Velocity::new(device, config, None, None) {
        Ok(v) => v,
        Err(_) => unreached(),
    };
    let density = FieldPair::new(
        allocate_zero_field(device, config, Some("density buffer")),
        allocate_zero_field(device, config, Some("density_prvs buffer")),
    );
    StorageBuffers { source, velocity, density }
}

/// One presentation instance per logical (unpadded) grid cell.
pub open spec fn spec_instance_count(config: Config) -> int {
    config.spec_grid_size() * config.spec_grid_size()
}

/// How many instances of the 6-vertex quad template the presentation draw
/// issues: `grid_size` squared, the padded border cells excluded.
pub fn presentation_instance_count(config: &Config) -> (r: u32)
    requires
        config.wf(),
    ensures
        r == spec_instance_count(*config),
{
    proof {
        let g = config.spec_grid_size();
        assert(g * g <= 65533 * 65533) by (nonlinear_arith)
            requires 0 <= g <= 65533;
    }
    config.grid_size() * config.grid_size()
}

/// Vertices of the quad template each presentation instance draws.
pub const QUAD_VERTICES: u32 = 6;

/// The full renderer: the device pair, the simulation pipeline, and the
/// presentation objects that rasterize the final density state. The display
/// pass samples the current density field, so one bind group per step
/// parity is prebuilt, each holding the grid-size uniform and that parity's
/// density channel.
pub struct Renderer {
    device: wgpu::Device,
    queue: wgpu::Queue,
    config: Config,
    uniform_buffer: wgpu::Buffer,
    display_pipeline: wgpu::RenderPipeline,
    display_bind_group_even: wgpu::BindGroup,
    display_bind_group_odd: wgpu::BindGroup,
    display_bindings_even: Ghost<Seq<wgpu::Buffer>>,
    display_bindings_odd: Ghost<Seq<wgpu::Buffer>>,
    pipeline: crate::pipeline::SimulationPipeline,
    submitted: Ghost<Seq<Seq<RecordedCommand>>>,
}

/// Creates the display pipeline and the bind-group layout it binds its
/// uniform block and density channel with.
fn create_display_pipeline(device: &wgpu::Device, shader_module: &wgpu::ShaderModule) -> (r: (
    wgpu::RenderPipeline,
    wgpu::BindGroupLayout,
))
{
    let bind_group_layout = gpu::create_display_bind_group_layout(device);
    let layout = gpu::create_pipeline_layout(device, &bind_group_layout);
    let pipeline = gpu::create_display_render_pipeline(
        device,
        shader_module,
        &layout,
        "display_vs",
        "display_fs",
    );
    (pipeline, bind_group_layout)
}

impl Renderer {
    pub closed spec fn spec_config(&self) -> Config {
        self.config
    }

    pub closed spec fn spec_pipeline(&self) -> crate::pipeline::SimulationPipeline {
        self.pipeline
    }

    /// The grid-size uniform buffer the display pass binds at slot 0.
    pub closed spec fn spec_uniform_buffer(&self) -> wgpu::Buffer {
        self.uniform_buffer
    }

    pub closed spec fn spec_display_pipeline(&self) -> wgpu::RenderPipeline {
        self.display_pipeline
    }

    pub closed spec fn spec_display_bind_group_even(&self) -> wgpu::BindGroup {
        self.display_bind_group_even
    }

    pub closed spec fn spec_display_bind_group_odd(&self) -> wgpu::BindGroup {
        self.display_bind_group_odd
    }

    /// The buffers of the even-parity display bind group, in slot order.
    pub closed spec fn spec_display_bindings_even(&self) -> Seq<wgpu::Buffer> {
        self.display_bindings_even@
    }

    /// The buffers of the odd-parity display bind group, in slot order.
    pub closed spec fn spec_display_bindings_odd(&self) -> Seq<wgpu::Buffer> {
        self.display_bindings_odd@
    }

    /// The recordings submitted to the queue so far, oldest first, one entry
    /// per frame.
    pub closed spec fn spec_submitted(&self) -> Seq<Seq<RecordedCommand>> {
        self.submitted@
    }

    /// Validity: the configuration and pipeline are sound, and each
    /// parity's display bind group holds the grid-size uniform and that
    /// parity's density channel, so presentation reads the density slot the
    /// role labels call "current".
    pub open spec fn wf(&self) -> bool {
        &&& self.spec_config().wf()
        &&& self.spec_pipeline().wf()
        &&& self.spec_pipeline().spec_config() == self.spec_config()
        &&& self.spec_display_bindings_even() == seq![
            self.spec_uniform_buffer(),
            self.spec_pipeline().spec_buffers().density.spec_slot0().x,
        ]
        &&& self.spec_display_bindings_odd() == seq![
            self.spec_uniform_buffer(),
            self.spec_pipeline().spec_buffers().density.spec_slot1().x,
        ]
    }

    /// The one presentation command a frame records after its steps: a
    /// clear-and-draw of the quad template, instanced once per logical grid
    /// cell (the vertex stage decodes each instance index to its row-major
    /// cell as `instance_cell` states), bound to the display bind group of
    /// the current step parity.
    pub open spec fn spec_display_command(&self, target: wgpu::TextureView) -> RecordedCommand {
        RecordedCommand::DisplayPass {
            target,
            render_pipeline: self.spec_display_pipeline(),
            bind_group: if self.spec_pipeline().spec_steps() as int % 2 == 1 {
                self.spec_display_bind_group_odd()
            } else {
                self.spec_display_bind_group_even()
            },
            vertices: QUAD_VERTICES,
            instances: spec_instance_count(self.spec_config()) as u32,
        }
    }

    /// Builds the renderer: constructs the simulation pipeline (validating
    /// any supplied initial state first), compiles the display shader,
    /// creates the presentation pipeline and its uniform block (the grid
    /// size, read by the vertex stage to place each instance's cell), and
    /// prebuilds one display bind group per parity, each enumerating
    /// [uniform, that parity's density channel].
    pub fn new(
        device: wgpu::Device,
        queue: wgpu::Queue,
        config: Config,
        display_code: &str,
        kernels: &crate::pipeline::KernelSources,
        initial: InitialState,
    ) -> (r: Result<Renderer, SizeMismatchError>)
        requires
            config.wf(),
        ensures
            r is Ok <==> initial.spec_fits_all(config.spec_buffer_size()),
            r matches Ok(rr) ==> {
                &&& rr.wf()
                &&& rr.spec_config() == config
                &&& rr.spec_pipeline().spec_steps() == 0
                &&& rr.spec_pipeline().spec_buffers().matches_initial(
                    initial,
                    config.spec_buffer_size(),
                )
                &&& rr.spec_submitted() == Seq::<Seq<RecordedCommand>>::empty()
            },
            r matches Err(e) ==> e.expected == config.spec_buffer_size()
                && e.got == initial.spec_offending_len(config.spec_buffer_size()),
    {
        let pipeline = match crate::pipeline::SimulationPipeline::new(
            &device,
            config,
            kernels,
            initial,
        ) {
            Ok(p) => p,
            Err(e) => {
                return Err(e);
            },
        };
        let shader_module = crate::utils::compile_shader_module(&device, display_code);
        let (display_pipeline, display_layout) = create_display_pipeline(&device, &shader_module);
        let uniform_buffer = gpu::create_uniform_buffer_u32(
            &device,
            config.grid_size(),
            Some("uniforms"),
        );
        let mut even_binding: Vec<&wgpu::Buffer> = Vec::new();
        even_binding.push(&uniform_buffer);
        even_binding.push(&pipeline.buffers().density.slot(false).x);
        let display_bind_group_even = gpu::create_bind_group(
            &device,
            &display_layout,
            &even_binding,
        );
        let mut odd_binding: Vec<&wgpu::Buffer> = Vec::new();
        odd_binding.push(&uniform_buffer);
        odd_binding.push(&pipeline.buffers().density.slot(true).x);
        let display_bind_group_odd = gpu::create_bind_group(&device, &display_layout, &odd_binding);
        let display_bindings_even: Ghost<Seq<wgpu::Buffer>> = Ghost(
            even_binding@.map_values(|b: &wgpu::Buffer| *b),
        );
        let display_bindings_odd: Ghost<Seq<wgpu::Buffer>> = Ghost(
            odd_binding@.map_values(|b: &wgpu::Buffer| *b),
        );
        proof {
            assert(display_bindings_even@ =~= seq![
                uniform_buffer,
                pipeline.spec_buffers().density.spec_slot0().x,
            ]);
            assert(display_bindings_odd@ =~= seq![
                uniform_buffer,
                pipeline.spec_buffers().density.spec_slot1().x,
            ]);
        }
        Ok(
            Renderer {
                device,
                queue,
                config,
                uniform_buffer,
                display_pipeline,
                display_bind_group_even,
                display_bind_group_odd,
                display_bindings_even,
                display_bindings_odd,
                pipeline,
                submitted: Ghost(Seq::empty()),
            },
        )
    }

    /// Completed simulation steps since construction.
    pub fn completed_steps(&self) -> (r: u64)
        ensures
            r == self.spec_pipeline().spec_steps(),
    {
        self.pipeline.steps()
    }

    /// Renders one frame: opens one command recording, records `steps` full
    /// simulation steps (each ending in its role swap, so the parity state
    /// stays well defined), then records one presentation pass over the
    /// resulting field state — a clear-and-draw of the quad template,
    /// instanced once per logical grid cell, bound to the current parity's
    /// density channel — and submits exactly that recording, once. The
    /// submitted log is the steps' dispatches in order followed by the one
    /// display pass, so presentation reads only what every stage of the
    /// frame has already written; with zero steps nothing but the display
    /// pass is recorded.
    pub fn render_frame(&mut self, target: &wgpu::TextureView, steps: u32)
        requires
            old(self).wf(),
            old(self).spec_pipeline().spec_steps() + steps <= u64::MAX,
        ensures
            final(self).wf(),
            final(self).spec_config() == old(self).spec_config(),
            final(self).spec_pipeline().spec_steps() == old(self).spec_pipeline().spec_steps()
                + steps,
            final(self).spec_pipeline().spec_buffers().same_slots(
                &old(self).spec_pipeline().spec_buffers(),
            ),
            final(self).spec_submitted() == old(self).spec_submitted().push(
                old(self).spec_pipeline().spec_commands_for_steps(
                    old(self).spec_pipeline().spec_steps() as int,
                    steps as int,
                ) + seq![final(self).spec_display_command(*target)],
            ),
    {
        let mut recorder = CommandRecorder::new(&self.device, Some("render frame"));
        let mut i: u32 = 0;
        while i < steps
            invariant
                i <= steps,
                self.wf(),
                self.spec_config() == old(self).spec_config(),
                old(self).spec_pipeline().spec_steps() + steps <= u64::MAX,
                self.spec_pipeline().spec_steps() == old(self).spec_pipeline().spec_steps()
                    + i,
                self.spec_pipeline().spec_buffers().same_slots(
                    &old(self).spec_pipeline().spec_buffers(),
                ),
                self.spec_pipeline().spec_stages_even() == old(
                    self,
                ).spec_pipeline().spec_stages_even(),
                self.spec_pipeline().spec_stages_odd() == old(
                    self,
                ).spec_pipeline().spec_stages_odd(),
                self.spec_uniform_buffer() == old(self).spec_uniform_buffer(),
                self.spec_display_pipeline() == old(self).spec_display_pipeline(),
                self.spec_display_bind_group_even() == old(self).spec_display_bind_group_even(),
                self.spec_display_bind_group_odd() == old(self).spec_display_bind_group_odd(),
                self.spec_display_bindings_even() == old(self).spec_display_bindings_even(),
                self.spec_display_bindings_odd() == old(self).spec_display_bindings_odd(),
                self.spec_submitted() == old(self).spec_submitted(),
                recorder.spec_log() == old(self).spec_pipeline().spec_commands_for_steps(
                    old(self).spec_pipeline().spec_steps() as int,
                    i as int,
                ),
            decreases steps - i,
        {
            proof {
                old(self).spec_pipeline().lemma_commands_for_steps_snoc(
                    old(self).spec_pipeline().spec_steps() as int,
                    i as int,
                );
                assert(self.spec_pipeline().spec_commands_for_step(
                    self.spec_pipeline().spec_steps() as int,
                ) == old(self).spec_pipeline().spec_commands_for_step(
                    old(self).spec_pipeline().spec_steps() as int + i as int,
                ));
            }
            self.pipeline.step(&mut recorder);
            i = i + 1;
        }
        let instances = presentation_instance_count(&self.config);
        proof {
            assert(instances == spec_instance_count(self.spec_config()) as u32);
        }
        if self.pipeline.steps() % 2 == 1 {
            gpu::record_display_pass(
                &mut recorder.encoder,
                target,
                &self.display_pipeline,
                &self.display_bind_group_odd,
                QUAD_VERTICES,
                instances,
            );
        } else {
            gpu::record_display_pass(
                &mut recorder.encoder,
                target,
                &self.display_pipeline,
                &self.display_bind_group_even,
                QUAD_VERTICES,
                instances,
            );
        }
        recorder.log = Ghost(recorder.log@.push(self.spec_display_command(*target)));
        proof {
            assert(recorder.log@ =~= old(self).spec_pipeline().spec_commands_for_steps(
                old(self).spec_pipeline().spec_steps() as int,
                steps as int,
            ) + seq![self.spec_display_command(*target)]);
        }
        let CommandRecorder { encoder, log } = recorder;
        let commands = gpu::finish_encoder(encoder);
        gpu::submit_command_buffer(&self.queue, commands);
        self.submitted = Ghost(self.submitted@.push(log@));
    }
}

/// The row-major grid cell a presentation instance index denotes.
pub fn instance_cell(instance: u32, grid_size: u32) -> (r: (u32, u32))
    requires
        grid_size > 0,
        instance < grid_size * grid_size,
    ensures
        r.0 == instance / grid_size,
        r.1 == instance % grid_size,
        r.0 < grid_size,
        r.1 < grid_size,
        r.0 * grid_size + r.1 == instance,
{
    proof {
        assert(instance / grid_size < grid_size && instance % grid_size < grid_size
            && (instance / grid_size) * grid_size + instance % grid_size == instance)
            by (nonlinear_arith)
            requires grid_size > 0, instance < grid_size * grid_size;
    }
    (instance / grid_size, instance % grid_size)
}

} // verus!
