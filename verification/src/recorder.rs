//! The recording model: a command encoder paired with a ghost log of the
//! commands the library has recorded into it, in order. Every verified
//! recording path extends the log around its trusted call, so contracts can
//! state exactly what a step or a frame appends and submits.

use vstd::prelude::*;

use crate::gpu;

verus! {

/// One device command as the library records it.
pub enum RecordedCommand {
    /// One compute dispatch: the bound pipeline, its bind group, and the
    /// workgroup counts along each axis.
    ComputeDispatch {
        compute_pipeline: wgpu::ComputePipeline,
        bind_group: wgpu::BindGroup,
        workgroups: (u32, u32, u32),
    },
    /// One clear-and-draw presentation pass: the target view, the display
    /// pipeline and bind group, and the vertex and instance counts drawn.
    DisplayPass {
        target: wgpu::TextureView,
        render_pipeline: wgpu::RenderPipeline,
        bind_group: wgpu::BindGroup,
        vertices: u32,
        instances: u32,
    },
}

/// A command recording in progress: commands appended here execute in this
/// order once the recording is submitted.
pub struct CommandRecorder {
    pub encoder: wgpu::CommandEncoder,
    /// The commands recorded so far, oldest first.
    pub log: Ghost<Seq<RecordedCommand>>,
}

impl CommandRecorder {
    pub open spec fn spec_log(&self) -> Seq<RecordedCommand> {
        self.log@
    }

    /// Opens a fresh recording with an empty log.
    pub fn new(device: &wgpu::Device, label: Option<&str>) -> (r: CommandRecorder)
        ensures
            r.spec_log() == Seq::<RecordedCommand>::empty(),
    {
        CommandRecorder {
            encoder: gpu::create_command_encoder(device, label),
            log: Ghost(Seq::empty()),
        }
    }
}

} // verus!
