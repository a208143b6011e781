//! The compute pipeline and the shader stage it is built from.
use vstd::prelude::*;

use crate::renderer::resource::Resource;

verus! {

/// Stage bit of the compute stage.
pub const SHADER_STAGE_COMPUTE: u32 = 0x20;

/// Raw code of the bind point of compute pipelines.
pub const PIPELINE_BIND_POINT_COMPUTE: i32 = 1;

/// The handle that stands for "none".
pub const NULL_HANDLE: u64 = 0;

/// The description from which the device creates one compute pipeline.
#[derive(Clone, Copy, Debug, PartialEq, Eq, Structural)]
pub struct ComputePipelineCreateInfo {
    /// The shader module that holds the stage.
    pub module: u64,
    /// The stage bits of the shader stage.
    pub stage: u32,
    /// The layout the pipeline is built against.
    pub layout: u64,
    /// The pipeline cache to draw on; [`NULL_HANDLE`] for none.
    pub pipeline_cache: u64,
}

/// A compute pipeline together with the layout it was built against.
#[derive(Clone, Copy, Debug, PartialEq, Eq, Structural)]
pub struct Pipeline {
    pub handle: u64,
    pub layout: u64,
}

impl Pipeline {
    /// Describes the one pipeline to build for a shader module against a
    /// layout. No pipeline cache is used.
    pub fn compute_create_info(module: u64, layout: u64) -> (info: ComputePipelineCreateInfo)
        ensures
            info == (ComputePipelineCreateInfo {
                module,
                stage: SHADER_STAGE_COMPUTE,
                layout,
                pipeline_cache: NULL_HANDLE,
            }),
    {
        ComputePipelineCreateInfo {
            module,
            stage: SHADER_STAGE_COMPUTE,
            layout,
            pipeline_cache: NULL_HANDLE,
        }
    }

    /// Records the pipeline the device built against `layout`. The device
    /// answers with a list of pipelines, of which the first is the one asked
    /// for.
    pub fn new_compute(layout: u64, created: &[u64]) -> (pipeline: Self)
        requires
            created@.len() > 0,
        ensures
            pipeline == (Pipeline { handle: created@[0], layout }),
    {
        Pipeline { handle: created[0], layout }
    }

    /// What to destroy when the pipeline goes away: the pipeline, then the
    /// layout it refers to.
    pub fn destroy(&self) -> (teardown: Vec<Resource>)
        ensures
            teardown@ == pipeline_teardown(*self),
    {
        let mut teardown: Vec<Resource> = Vec::new();
        teardown.push(Resource::Pipeline(self.handle));
        teardown.push(Resource::PipelineLayout(self.layout));
        assert(teardown@ =~= pipeline_teardown(*self));
        teardown
    }
}

/// The teardown of a pipeline: the pipeline before its layout.
pub open spec fn pipeline_teardown(pipeline: Pipeline) -> Seq<Resource> {
    seq![Resource::Pipeline(pipeline.handle), Resource::PipelineLayout(pipeline.layout)]
}

} // verus!
