//! The reusable compute-stage abstraction: a kernel with a declared slot
//! count, bound in a fixed order to one uniform block, the input buffers and
//! the output buffers, and dispatched with workgroup counts derived from the
//! configuration.

use vstd::prelude::*;

use crate::config::Config;
use crate::gpu;
use crate::recorder::{CommandRecorder, RecordedCommand};
use crate::utils;

verus! {

/// The buffer list handed to a stage disagrees with the slot count its
/// kernel declares.
#[derive(Clone, Copy, Debug, PartialEq, Eq, Structural)]
pub struct BindingArityError {
    /// Slots the kernel declares.
    pub declared: usize,
    /// Bindings supplied: the uniform block plus every input and output buffer.
    pub supplied: usize,
}

/// A compiled kernel together with the resource-slot count it declares:
/// slot 0 is the uniform block, the following slots are the input buffers and
/// then the output buffers, in declared order.
pub struct Kernel {
    pub module: wgpu::ShaderModule,
    declared_slots: usize,
}

impl Kernel {
    pub closed spec fn spec_declared_slots(&self) -> usize {
        self.declared_slots
    }

    /// Compiles `code` and records the slot count its binding protocol
    /// declares.
    pub fn compile(device: &wgpu::Device, code: &str, declared_slots: usize) -> (r: Kernel)
        ensures
            r.spec_declared_slots() == declared_slots,
    {
        Kernel { module: utils::compile_shader_module(device, code), declared_slots }
    }

    pub fn declared_slots(&self) -> (r: usize)
        ensures
            r == self.spec_declared_slots(),
    {
        self.declared_slots
    }
}

/// Decides at construction time whether a supplied binding list matches a
/// kernel's declared slot count: one uniform slot plus one slot per input
/// buffer and one per output buffer, never truncated or padded.
pub fn binding_arity_check(
    declared_slots: usize,
    supplied_inputs: usize,
    supplied_outputs: usize,
) -> (r: Result<(), BindingArityError>)
    requires
        1 + supplied_inputs + supplied_outputs <= usize::MAX,
    ensures
        r is Ok <==> declared_slots == 1 + supplied_inputs + supplied_outputs,
        r matches Err(e) ==> e.declared == declared_slots
            && e.supplied == 1 + supplied_inputs + supplied_outputs,
{
    let supplied = 1 + supplied_inputs + supplied_outputs;
    if supplied == declared_slots {
        Ok(())
    } else {
        Err(BindingArityError { declared: declared_slots, supplied })
    }
}

/// One dispatchable unit: a compiled pipeline, its bind group enumerating
/// [uniform, inputs.., outputs..] in that fixed order, and the workgroup
/// counts it is dispatched with. Built once per pipeline, reused every step.
pub struct ComputeStage {
    pipeline: wgpu::ComputePipeline,
    bind_group: wgpu::BindGroup,
    uniform_buffer: wgpu::Buffer,
    dispatch_dims: (u32, u32, u32),
    n_inputs: usize,
    n_outputs: usize,
    uniform_word: Ghost<u32>,
    bindings: Ghost<Seq<wgpu::Buffer>>,
}

impl ComputeStage {
    pub closed spec fn spec_pipeline(&self) -> wgpu::ComputePipeline {
        self.pipeline
    }

    pub closed spec fn spec_bind_group(&self) -> wgpu::BindGroup {
        self.bind_group
    }

    pub closed spec fn spec_uniform_buffer(&self) -> wgpu::Buffer {
        self.uniform_buffer
    }

    pub closed spec fn spec_dispatch_dims(&self) -> (u32, u32, u32) {
        self.dispatch_dims
    }

    pub closed spec fn spec_n_inputs(&self) -> usize {
        self.n_inputs
    }

    pub closed spec fn spec_n_outputs(&self) -> usize {
        self.n_outputs
    }

    /// The word held by the stage's uniform buffer, uploaded once at
    /// construction and never rewritten.
    pub closed spec fn spec_uniform_word(&self) -> u32 {
        self.uniform_word@
    }

    /// The buffers of the stage's bind group, in slot order.
    pub closed spec fn spec_bindings(&self) -> Seq<wgpu::Buffer> {
        self.bindings@
    }

    /// The stage's workgroup counts are the ones the configuration derives:
    /// enough workgroups to cover the padded grid along each axis.
    pub open spec fn dims_match(&self, config: Config) -> bool {
        &&& self.spec_dispatch_dims().0 == config.spec_dispatch_dimensions().0
        &&& self.spec_dispatch_dims().1 == config.spec_dispatch_dimensions().1
        &&& self.spec_dispatch_dims().2 == config.spec_dispatch_dimensions().2
    }

    /// The one command a dispatch of this stage records.
    pub open spec fn spec_command(&self) -> RecordedCommand {
        RecordedCommand::ComputeDispatch {
            compute_pipeline: self.spec_pipeline(),
            bind_group: self.spec_bind_group(),
            workgroups: self.spec_dispatch_dims(),
        }
    }

    /// Validates the binding list against the kernel's declared slots, and
    /// only on success creates the device-side objects: the pipeline with its
    /// derived layout, the uniform buffer holding `uniform_word`, and one
    /// bind group enumerating the uniform and then `inputs` and `outputs` in
    /// slot order. On a mismatch nothing device-side is created.
    pub fn build(
        device: &wgpu::Device,
        kernel: &Kernel,
        uniform_word: u32,
        inputs: Vec<&wgpu::Buffer>,
        outputs: Vec<&wgpu::Buffer>,
        config: &Config,
    ) -> (r: Result<ComputeStage, BindingArityError>)
        requires
            config.wf(),
            1 + inputs@.len() + outputs@.len() <= usize::MAX,
        ensures
            r is Ok <==> kernel.spec_declared_slots() == 1 + inputs@.len() + outputs@.len(),
            r matches Ok(s) ==> {
                &&& s.dims_match(*config)
                &&& s.spec_n_inputs() == inputs@.len()
                &&& s.spec_n_outputs() == outputs@.len()
                &&& s.spec_uniform_word() == uniform_word
                &&& s.spec_bindings() == seq![s.spec_uniform_buffer()]
                    + inputs@.map_values(|b: &wgpu::Buffer| *b)
                    + outputs@.map_values(|b: &wgpu::Buffer| *b)
            },
            r matches Err(e) ==> e.declared == kernel.spec_declared_slots()
                && e.supplied == 1 + inputs@.len() + outputs@.len(),
    {
        match binding_arity_check(kernel.declared_slots(), inputs.len(), outputs.len()) {
            Err(e) => Err(e),
            Ok(()) => {
                let pipeline = utils::create_auto_layout_compute_pipeline(device, &kernel.module);
                let layout = gpu::pipeline_bind_group_layout(&pipeline, 0);
                let uniform_buffer = gpu::create_uniform_buffer_u32(device, uniform_word, None);
                let mut all: Vec<&wgpu::Buffer> = Vec::new();
                all.push(&uniform_buffer);
                let mut i: usize = 0;
                while i < inputs.len()
                    invariant
                        i <= inputs@.len(),
                        all@.len() == 1 + i,
                        *all@[0] == uniform_buffer,
                        forall|k: int| 1 <= k < 1 + i ==> *(#[trigger] all@[k])
                            == *inputs@[k - 1],
                    decreases inputs@.len() - i,
                {
                    all.push(inputs[i]);
                    i = i + 1;
                }
                let mut j: usize = 0;
                while j < outputs.len()
                    invariant
                        j <= outputs@.len(),
                        all@.len() == 1 + inputs@.len() + j,
                        *all@[0] == uniform_buffer,
                        forall|k: int| 1 <= k < 1 + inputs@.len() ==> *(#[trigger] all@[k])
                            == *inputs@[k - 1],
                        forall|k: int| 1 + inputs@.len() <= k < 1 + inputs@.len() + j
                            ==> *(#[trigger] all@[k]) == *outputs@[k - 1 - inputs@.len()],
                    decreases outputs@.len() - j,
                {
                    all.push(outputs[j]);
                    j = j + 1;
                }
                let bind_group = gpu::create_bind_group(device, &layout, &all);
                let dispatch_dims = config.dispatch_dimensions();
                let bindings: Ghost<Seq<wgpu::Buffer>> = Ghost(
                    all@.map_values(|b: &wgpu::Buffer| *b),
                );
                proof {
                    assert(bindings@ =~= seq![uniform_buffer]
                        + inputs@.map_values(|b: &wgpu::Buffer| *b)
                        + outputs@.map_values(|b: &wgpu::Buffer| *b));
                }
                Ok(ComputeStage {
                    pipeline,
                    bind_group,
                    uniform_buffer,
                    dispatch_dims,
                    n_inputs: inputs.len(),
                    n_outputs: outputs.len(),
                    uniform_word: Ghost(uniform_word),
                    bindings,
                })
            },
        }
    }

    /// Records exactly one dispatch of this stage: its pipeline and bind
    /// group, with the workgroup counts fixed at construction, appended to
    /// the recording and nothing else. Bindings never change between calls;
    /// only the pipeline's role swap decides which prebuilt stage runs.
    pub fn dispatch(&self, recorder: &mut CommandRecorder)
        ensures
            final(recorder).spec_log() == old(recorder).spec_log().push(self.spec_command()),
    {
        gpu::record_compute_dispatch(
            &mut recorder.encoder,
            &self.pipeline,
            &self.bind_group,
            self.dispatch_dims.0,
            self.dispatch_dims.1,
            self.dispatch_dims.2,
        );
        recorder.log = Ghost(recorder.log@.push(self.spec_command()));
    }
}

} // verus!
