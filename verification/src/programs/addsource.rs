//! The standalone source-injection program: one compute stage that reads a
//! source field and adds it into a target field in place.

use vstd::prelude::*;

use crate::config::Config;
use crate::recorder::CommandRecorder;
use crate::render::StorageBuffer2D;
use crate::stage::{ComputeStage, Kernel};

verus! {

/// Slots the add-source kernel declares: the uniform block, the two source
/// channels as inputs, and the two target channels as outputs.
pub const ADD_SOURCE_SLOTS: usize = 5;

/// A prebuilt dispatchable unit adding a source field into a target field.
pub struct AddSourceProgram {
    stage: ComputeStage,
}

impl AddSourceProgram {
    pub closed spec fn spec_stage(&self) -> ComputeStage {
        self.stage
    }

    /// The stage dispatches with the workgroup counts the configuration
    /// derives.
    pub open spec fn wf(&self, config: Config) -> bool {
        self.spec_stage().dims_match(config)
    }

    /// Compiles the add-source kernel and binds, in slot order, the uniform
    /// block holding the grid size, `source`'s two channels and `target`'s
    /// two channels. The supplied buffer list matches the kernel's five
    /// declared slots by construction, so building cannot fail.
    pub fn new(
        device: &wgpu::Device,
        code: &str,
        source: &StorageBuffer2D,
        target: &StorageBuffer2D,
        config: &Config,
    ) -> (r: AddSourceProgram)
        requires
            config.wf(),
        ensures
            r.wf(*config),
            r.spec_stage().spec_uniform_word() == config.spec_grid_size(),
            r.spec_stage().spec_bindings() == seq![
                r.spec_stage().spec_uniform_buffer(),
                source.x,
                source.y,
                target.x,
                target.y,
            ],
    {
        let kernel = Kernel::compile(device, code, ADD_SOURCE_SLOTS);
        let mut inputs: Vec<&wgpu::Buffer> = Vec::new();
        inputs.push(&source.x);
        inputs.push(&source.y);
        let mut outputs: Vec<&wgpu::Buffer> = Vec::new();
        outputs.push(&target.x);
        outputs.push(&target.y);
        proof {
            assert(inputs@.map_values(|b: &wgpu::Buffer| *b) =~= seq![source.x, source.y]);
            assert(outputs@.map_values(|b: &wgpu::Buffer| *b) =~= seq![target.x, target.y]);
        }
        match ComputeStage::build(device, &kernel, config.grid_size(), inputs, outputs, config) {
            Ok(stage) => {
                proof {
                    assert(stage.spec_bindings() =~= seq![
                        stage.spec_uniform_buffer(),
                        source.x,
                        source.y,
                        target.x,
                        target.y,
                    ]);
                }
                AddSourceProgram { stage }
            },
            Err(_) => unreached(),
        }
    }

    /// Records exactly one dispatch of the program: its stage's pipeline,
    /// bind group and workgroup counts appended to the recording, and
    /// nothing else.
    pub fn dispatch(&self, recorder: &mut CommandRecorder)
        ensures
            final(recorder).spec_log() == old(recorder).spec_log().push(
                self.spec_stage().spec_command(),
            ),
    {
        self.stage.dispatch(recorder);
    }
}

} // verus!
