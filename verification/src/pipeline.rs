//! The simulation pipeline: it owns the full buffer set and, per step
//! parity, one prebuilt ordered list of compute stages wired per the staged
//! double-buffer discipline; each step dispatches the list for the current
//! parity and then swaps the current/previous roles of both field pairs.

use vstd::prelude::*;

use crate::config::{lemma_padded_square_bounds, Config};
use crate::recorder::{CommandRecorder, RecordedCommand};
use crate::render::{
    allocate_zero_field, validate_initial_state, FieldPair, InitialState, SizeMismatchError,
    StorageBuffer2D, StorageBuffers,
};
use crate::programs::velocity::Velocity;
use crate::stage::{ComputeStage, Kernel};

verus! {

/// Slots of the pipeline's source-injection kernel: uniform, the source
/// field and the previous field in, the current field out.
pub const ADD_SOURCE_STAGE_SLOTS: usize = 7;

/// Slots of the diffusion kernel: uniform, the current field in, the
/// previous slot out (the previous slot serves as iteration scratch).
pub const DIFFUSE_STAGE_SLOTS: usize = 5;

/// Slots of the advection kernel: uniform, the diffused field and the
/// advecting velocity in, the current field out.
pub const ADVECT_STAGE_SLOTS: usize = 7;

/// Slots of the projection set-up kernel: uniform, the advected velocity in,
/// the scratch slot (pressure and divergence channels) out.
pub const PROJECT_INIT_STAGE_SLOTS: usize = 5;

/// Slots of the projection relaxation kernel: uniform, the scratch slot
/// read and written in place.
pub const PROJECT_SOLVE_STAGE_SLOTS: usize = 3;

/// Slots of the projection gradient-subtraction kernel: uniform, the scratch
/// slot in, the corrected velocity out.
pub const PROJECT_APPLY_STAGE_SLOTS: usize = 5;

/// Stages dispatched per simulation step, in fixed order.
pub const STAGES_PER_STEP: usize = 9;

/// The WGSL sources of the simulation kernels, supplied by the host.
pub struct KernelSources<'a> {
    pub add_source: &'a str,
    pub diffuse: &'a str,
    pub advect: &'a str,
    pub project_init: &'a str,
    pub project_solve: &'a str,
    pub project_apply: &'a str,
}

/// The compiled simulation kernels with their declared slot counts.
struct Kernels {
    add_source: Kernel,
    diffuse: Kernel,
    advect: Kernel,
    project_init: Kernel,
    project_solve: Kernel,
    project_apply: Kernel,
}

impl Kernels {
    spec fn wf(&self) -> bool {
        &&& self.add_source.spec_declared_slots() == ADD_SOURCE_STAGE_SLOTS
        &&& self.diffuse.spec_declared_slots() == DIFFUSE_STAGE_SLOTS
        &&& self.advect.spec_declared_slots() == ADVECT_STAGE_SLOTS
        &&& self.project_init.spec_declared_slots() == PROJECT_INIT_STAGE_SLOTS
        &&& self.project_solve.spec_declared_slots() == PROJECT_SOLVE_STAGE_SLOTS
        &&& self.project_apply.spec_declared_slots() == PROJECT_APPLY_STAGE_SLOTS
    }

    fn compile(device: &wgpu::Device, sources: &KernelSources) -> (r: Kernels)
        ensures
            r.wf(),
    {
        Kernels {
            add_source: Kernel::compile(device, sources.add_source, ADD_SOURCE_STAGE_SLOTS),
            diffuse: Kernel::compile(device, sources.diffuse, DIFFUSE_STAGE_SLOTS),
            advect: Kernel::compile(device, sources.advect, ADVECT_STAGE_SLOTS),
            project_init: Kernel::compile(device, sources.project_init, PROJECT_INIT_STAGE_SLOTS),
            project_solve: Kernel::compile(
                device,
                sources.project_solve,
                PROJECT_SOLVE_STAGE_SLOTS,
            ),
            project_apply: Kernel::compile(
                device,
                sources.project_apply,
                PROJECT_APPLY_STAGE_SLOTS,
            ),
        }
    }
}

/// Builds a stage whose binding list matches the kernel's declared slots by
/// construction.
fn build_fixed_stage(
    device: &wgpu::Device,
    kernel: &Kernel,
    uniform_word: u32,
    inputs: Vec<&wgpu::Buffer>,
    outputs: Vec<&wgpu::Buffer>,
    config: &Config,
) -> (s: ComputeStage)
    requires
        config.wf(),
        kernel.spec_declared_slots() == 1 + inputs@.len() + outputs@.len(),
        1 + inputs@.len() + outputs@.len() <= usize::MAX,
    ensures
        s.dims_match(*config),
        s.spec_uniform_word() == uniform_word,
{
    match ComputeStage::build(device, kernel, uniform_word, inputs, outputs, config) {
        Ok(s) => s,
        Err(_) => unreached(),
    }
}

/// The two channel buffers of one field, in channel order.
fn two_channels<'a>(a: &'a StorageBuffer2D) -> (r: Vec<&'a wgpu::Buffer>)
    ensures
        r@.len() == 2,
{
    let mut v: Vec<&'a wgpu::Buffer> = Vec::new();
    v.push(&a.x);
    v.push(&a.y);
    v
}

/// The channel buffers of two fields, in declared field order.
fn four_channels<'a>(a: &'a StorageBuffer2D, b: &'a StorageBuffer2D) -> (r: Vec<
    &'a wgpu::Buffer,
>)
    ensures
        r@.len() == 4,
{
    let mut v: Vec<&'a wgpu::Buffer> = Vec::new();
    v.push(&a.x);
    v.push(&a.y);
    v.push(&b.x);
    v.push(&b.y);
    v
}

/// Builds the ordered stage list for one step parity. With `parity` false
/// the pair slots with index 0 are in the "current" role. Per step, for the
/// velocity and then the density quantity: source injection reads the source
/// field and the previous slot and writes the current slot; diffusion reads
/// the current slot and writes the previous slot as scratch; advection reads
/// the diffused (previous) slot and the advecting velocity and writes the
/// current slot; projection (velocity only) then corrects the current slot
/// through the scratch slot.
fn build_parity_stages(
    device: &wgpu::Device,
    kernels: &Kernels,
    buffers: &StorageBuffers,
    config: &Config,
    parity: bool,
) -> (r: Vec<ComputeStage>)
    requires
        config.wf(),
        kernels.wf(),
    ensures
        r@.len() == STAGES_PER_STEP,
        forall|i: int| 0 <= i < r@.len() ==> (#[trigger] r@[i]).dims_match(*config),
        forall|i: int| 0 <= i < r@.len() ==> (#[trigger] r@[i]).spec_uniform_word()
            == config.spec_grid_size(),
{
    let u = config.grid_size();
    let src = &buffers.source;
    let vcur = buffers.velocity.slot(parity);
    let vprv = buffers.velocity.slot(!parity);
    let dcur = buffers.density.slot(parity);
    let dprv = buffers.density.slot(!parity);
    let mut stages: Vec<ComputeStage> = Vec::new();
    // Velocity: inject sources, diffuse, self-advect, project.
    stages.push(
        build_fixed_stage(
            device,
            &kernels.add_source,
            u,
            four_channels(src, vprv),
            two_channels(vcur),
            config,
        ),
    );
    stages.push(
        build_fixed_stage(
            device,
            &kernels.diffuse,
            u,
            two_channels(vcur),
            two_channels(vprv),
            config,
        ),
    );
    stages.push(
        build_fixed_stage(
            device,
            &kernels.advect,
            u,
            four_channels(vprv, vprv),
            two_channels(vcur),
            config,
        ),
    );
    stages.push(
        build_fixed_stage(
            device,
            &kernels.project_init,
            u,
            two_channels(vcur),
            two_channels(vprv),
            config,
        ),
    );
    stages.push(
        build_fixed_stage(
            device,
            &kernels.project_solve,
            u,
            Vec::new(),
            two_channels(vprv),
            config,
        ),
    );
    stages.push(
        build_fixed_stage(
            device,
            &kernels.project_apply,
            u,
            two_channels(vprv),
            two_channels(vcur),
            config,
        ),
    );
    // Density: inject sources, diffuse, advect by the corrected velocity.
    stages.push(
        build_fixed_stage(
            device,
            &kernels.add_source,
            u,
            four_channels(src, dprv),
            two_channels(dcur),
            config,
        ),
    );
    stages.push(
        build_fixed_stage(
            device,
            &kernels.diffuse,
            u,
            two_channels(dcur),
            two_channels(dprv),
            config,
        ),
    );
    stages.push(
        build_fixed_stage(
            device,
            &kernels.advect,
            u,
            four_channels(dprv, vcur),
            two_channels(dcur),
            config,
        ),
    );
    stages
}

/// The full simulation: buffer set, prebuilt per-parity stage lists, and the
/// count of completed steps, which decides which slots are "current".
pub struct SimulationPipeline {
    config: Config,
    buffers: StorageBuffers,
    stages_even: Vec<ComputeStage>,
    stages_odd: Vec<ComputeStage>,
    steps: u64,
}

impl SimulationPipeline {
    pub closed spec fn spec_config(&self) -> Config {
        self.config
    }

    pub closed spec fn spec_buffers(&self) -> StorageBuffers {
        self.buffers
    }

    /// Completed simulation steps since construction.
    pub closed spec fn spec_steps(&self) -> u64 {
        self.steps
    }

    pub closed spec fn spec_stages_even(&self) -> Seq<ComputeStage> {
        self.stages_even@
    }

    pub closed spec fn spec_stages_odd(&self) -> Seq<ComputeStage> {
        self.stages_odd@
    }

    /// The pipeline invariant: the configuration is valid, every buffer is
    /// sized by it, both stage lists are complete with the derived dispatch
    /// dimensions, and the "current" role of both pairs sits on the slot
    /// whose index is the step-count parity.
    pub open spec fn wf(&self) -> bool {
        &&& self.spec_config().wf()
        &&& self.spec_buffers().wf(self.spec_config())
        &&& self.spec_buffers().velocity.spec_current_index() == self.spec_steps() as int % 2
        &&& self.spec_buffers().density.spec_current_index() == self.spec_steps() as int % 2
        &&& self.spec_stages_even().len() == STAGES_PER_STEP
        &&& self.spec_stages_odd().len() == STAGES_PER_STEP
        &&& forall|i: int| 0 <= i < self.spec_stages_even().len()
            ==> (#[trigger] self.spec_stages_even()[i]).dims_match(self.spec_config())
        &&& forall|i: int| 0 <= i < self.spec_stages_odd().len()
            ==> (#[trigger] self.spec_stages_odd()[i]).dims_match(self.spec_config())
        &&& forall|i: int| 0 <= i < self.spec_stages_even().len()
            ==> (#[trigger] self.spec_stages_even()[i]).spec_uniform_word()
                == self.spec_config().spec_grid_size()
        &&& forall|i: int| 0 <= i < self.spec_stages_odd().len()
            ==> (#[trigger] self.spec_stages_odd()[i]).spec_uniform_word()
                == self.spec_config().spec_grid_size()
    }

    /// Builds the pipeline: validates every supplied initial array against
    /// the configured element count before any buffer is created, then
    /// allocates the source field and the slot-0 halves of the velocity and
    /// density pairs from those arrays (zero-filling what was not supplied,
    /// and both slot-1 halves), compiles the kernels once, and prebuilds the
    /// stage list for each step parity.
    pub fn new(
        device: &wgpu::Device,
        config: Config,
        sources: &KernelSources,
        initial: InitialState,
    ) -> (r: Result<SimulationPipeline, SizeMismatchError>)
        requires
            config.wf(),
        ensures
            r is Ok <==> initial.spec_fits_all(config.spec_buffer_size()),
            r matches Ok(p) ==> {
                &&& p.wf()
                &&& p.spec_steps() == 0
                &&& p.spec_config() == config
                &&& p.spec_buffers().matches_initial(initial, config.spec_buffer_size())
            },
            r matches Err(e) ==> e.expected == config.spec_buffer_size()
                && e.got == initial.spec_offending_len(config.spec_buffer_size()),
    {
        let count = config.buffer_size();
        match validate_initial_state(count, initial.source_x.as_ref()) {
            Err(e) => { return Err(e); },
            Ok(()) => {},
        }
        match validate_initial_state(count, initial.source_y.as_ref()) {
            Err(e) => { return Err(e); },
            Ok(()) => {},
        }
        match validate_initial_state(count, initial.velocity_u.as_ref()) {
            Err(e) => { return Err(e); },
            Ok(()) => {},
        }
        match validate_initial_state(count, initial.velocity_v.as_ref()) {
            Err(e) => { return Err(e); },
            Ok(()) => {},
        }
        match validate_initial_state(count, initial.density_x.as_ref()) {
            Err(e) => { return Err(e); },
            Ok(()) => {},
        }
        match validate_initial_state(count, initial.density_y.as_ref()) {
            Err(e) => { return Err(e); },
            Ok(()) => {},
        }
        let InitialState { source_x, source_y, velocity_u, velocity_v, density_x, density_y } =
            initial;
        let padded: u64 = (config.grid_size() as u64) + 2;
        proof {
            lemma_padded_square_bounds(padded as int);
            assert(padded * padded == config.spec_buffer_size());
        }
        let source = match StorageBuffer2D::new(
            device,
            (padded, padded),
            Some("source buffer"),
            source_x,
            source_y,
        ) {
            Ok(b) => b,
            Err(_) => unreached(),
        };
        let velocity = match Velocity::new(device, &config, velocity_u, velocity_v) {
            Ok(v) => v,
            Err(_) => unreached(),
        };
        let density_slot0 = match StorageBuffer2D::new(
            device,
            (padded, padded),
            Some("density buffer"),
            density_x,
            density_y,
        ) {
            Ok(b) => b,
            Err(_) => unreached(),
        };
        let density = FieldPair::new(
            density_slot0,
            allocate_zero_field(device, &config, Some("density_prvs buffer")),
        );
        let buffers = StorageBuffers { source, velocity, density };
        let kernels = Kernels::compile(device, sources);
        let stages_even = build_parity_stages(device, &kernels, &buffers, &config, false);
        let stages_odd = build_parity_stages(device, &kernels, &buffers, &config, true);
        Ok(SimulationPipeline { config, buffers, stages_even, stages_odd, steps: 0 })
    }

    /// The commands one step records when the completed-step count is `n`:
    /// the stage list for that parity, each stage as its one dispatch.
    pub open spec fn spec_commands_for_step(&self, n: int) -> Seq<RecordedCommand> {
        if n % 2 == 1 {
            self.spec_stages_odd().map_values(|s: ComputeStage| s.spec_command())
        } else {
            self.spec_stages_even().map_values(|s: ComputeStage| s.spec_command())
        }
    }

    /// The commands `count` consecutive steps record, the first at
    /// completed-step count `from`.
    pub open spec fn spec_commands_for_steps(&self, from: int, count: int) -> Seq<RecordedCommand>
        decreases count,
    {
        if count <= 0 {
            Seq::empty()
        } else {
            self.spec_commands_for_step(from) + self.spec_commands_for_steps(from + 1, count - 1)
        }
    }

    /// Splitting one step off the end of a run of recorded steps.
    pub proof fn lemma_commands_for_steps_snoc(&self, from: int, count: int)
        requires
            count >= 0,
        ensures
            self.spec_commands_for_steps(from, count + 1) == self.spec_commands_for_steps(
                from,
                count,
            ) + self.spec_commands_for_step(from + count),
        decreases count,
    {
        if count == 0 {
            assert(self.spec_commands_for_steps(from + 1, 0) =~= Seq::<RecordedCommand>::empty());
            assert(self.spec_commands_for_steps(from, 0) =~= Seq::<RecordedCommand>::empty());
            assert(self.spec_commands_for_steps(from, 1) =~= self.spec_commands_for_steps(
                from,
                0,
            ) + self.spec_commands_for_step(from));
        } else {
            self.lemma_commands_for_steps_snoc(from + 1, count - 1);
            assert(self.spec_commands_for_steps(from, count + 1)
                =~= self.spec_commands_for_steps(from, count) + self.spec_commands_for_step(
                from + count,
            ));
        }
    }

    /// Read-only access to the buffer set, for wiring presentation objects.
    pub fn buffers(&self) -> (r: &StorageBuffers)
        ensures
            *r == self.spec_buffers(),
    {
        &self.buffers
    }

    /// Records one full simulation step: the fixed nine-stage sequence for
    /// the current parity is appended to the recording, in order and nothing
    /// else, then the roles of both pairs swap. The swap is a pure
    /// relabeling: the physical buffer slots of the final state are those of
    /// the initial state, and the prebuilt stage lists are untouched.
    pub fn step(&mut self, recorder: &mut CommandRecorder)
        requires
            old(self).wf(),
            old(self).spec_steps() < u64::MAX,
        ensures
            final(self).wf(),
            final(self).spec_steps() == old(self).spec_steps() + 1,
            final(self).spec_config() == old(self).spec_config(),
            final(self).spec_buffers().same_slots(&old(self).spec_buffers()),
            final(self).spec_stages_even() == old(self).spec_stages_even(),
            final(self).spec_stages_odd() == old(self).spec_stages_odd(),
            final(recorder).spec_log() == old(recorder).spec_log() + old(
                self,
            ).spec_commands_for_step(old(self).spec_steps() as int),
    {
        if self.steps % 2 == 1 {
            let n = self.stages_odd.len();
            let ghost cmds = self.spec_stages_odd().map_values(|s: ComputeStage| s.spec_command());
            let mut i: usize = 0;
            while i < n
                invariant
                    n == self.stages_odd@.len(),
                    i <= n,
                    cmds == self.spec_stages_odd().map_values(
                        |s: ComputeStage| s.spec_command(),
                    ),
                    recorder.spec_log() == old(recorder).spec_log() + cmds.take(i as int),
                decreases n - i,
            {
                self.stages_odd[i].dispatch(recorder);
                proof {
                    assert(cmds.take(i as int).push(cmds[i as int]) =~= cmds.take(i as int + 1));
                }
                i = i + 1;
            }
            proof {
                assert(cmds.take(n as int) =~= cmds);
            }
        } else {
            let n = self.stages_even.len();
            let ghost cmds = self.spec_stages_even().map_values(
                |s: ComputeStage| s.spec_command(),
            );
            let mut i: usize = 0;
            while i < n
                invariant
                    n == self.stages_even@.len(),
                    i <= n,
                    cmds == self.spec_stages_even().map_values(
                        |s: ComputeStage| s.spec_command(),
                    ),
                    recorder.spec_log() == old(recorder).spec_log() + cmds.take(i as int),
                decreases n - i,
            {
                self.stages_even[i].dispatch(recorder);
                proof {
                    assert(cmds.take(i as int).push(cmds[i as int]) =~= cmds.take(i as int + 1));
                }
                i = i + 1;
            }
            proof {
                assert(cmds.take(n as int) =~= cmds);
            }
        }
        self.buffers.velocity.swap_roles();
        self.buffers.density.swap_roles();
        proof {
            assert((old(self).spec_steps() + 1) as int % 2 == 1 - old(self).spec_steps() as int
                % 2);
        }
        self.steps = self.steps + 1;
    }

    /// Completed simulation steps since construction.
    pub fn steps(&self) -> (r: u64)
        ensures
            r == self.spec_steps(),
    {
        self.steps
    }

    /// Law: the double-buffer swap is a pure relabeling. The slot written by
    /// the first step is slot 0 of each pair; after any number of completed
    /// steps it carries the "current" label exactly when that number is even
    /// and the "previous" label exactly when it is odd, for the velocity and
    /// density pairs independently.
    pub proof fn lemma_first_step_slot_label(&self)
        requires
            self.wf(),
        ensures
            self.spec_buffers().velocity.spec_current_index() == if self.spec_steps() % 2 == 0 {
                0int
            } else {
                1int
            },
            self.spec_buffers().density.spec_current_index() == if self.spec_steps() % 2 == 0 {
                0int
            } else {
                1int
            },
    {
    }
}

} // verus!
