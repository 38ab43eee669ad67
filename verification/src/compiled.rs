//! The compiled pipeline: the description it was made from, and the tables
//! that resolve its labels.

use vstd::prelude::*;
use crate::compile::CompiledPass;
use crate::descriptor::{ScheduledPipelineDescription, SurfaceContext, TextureUsage};
use crate::error::PipelineError;
use crate::pipeline::{usage_of, DeviceReport};

verus! {

/// An ordered list of passes over the resources of a description. A pass
/// holds no resource: it holds indices into `source`.
#[derive(Debug)]
pub struct CompiledPipeline {
    /// The buffer groups, bind groups and textures, addressed by index.
    pub source: ScheduledPipelineDescription,
    /// The passes in execution order: pass `i` is `source.shader_nodes[i]`.
    pub passes: Vec<CompiledPass>,
    /// For each bind group, the declared texture that it samples.
    pub sampled: Vec<Option<usize>>,
    /// For each texture, what it may be used for.
    pub usages: Vec<TextureUsage>,
}

impl CompiledPipeline {
    /// The tables agree with the description: no label occurs twice in its
    /// namespace, and every index is the one that its label resolves to.
    pub open spec fn wf(&self) -> bool {
        &&& self.source.duplicate_namespace() is None
        &&& self.source.passes_resolve(self.passes@)
        &&& self.source.sources_resolve(self.sampled@)
        &&& self.usages@.len() == self.source.textures@.len()
        &&& forall|t: int|
            0 <= t < self.usages@.len() ==> #[trigger] self.usages@[t] == usage_of(
                self.source.textures@[t].kind,
            )
    }

    /// The number of passes.
    pub fn pass_count(&self) -> (count: usize)
        ensures
            count == self.passes@.len(),
    {
        self.passes.len()
    }
}

impl ScheduledPipelineDescription {
    /// Compiles the description. The passes keep their declared order, which
    /// is the order of execution. A description that does not pass its checks
    /// fails with the reason whatever the device answered; one that does
    /// fails only where the device did not create everything asked of it.
    pub fn finalize(self, surface: &SurfaceContext, device: &DeviceReport) -> (outcome: Result<
        CompiledPipeline,
        PipelineError,
    >)
        ensures
            match outcome {
                Ok(compiled) => {
                    &&& self.verdict(*surface) is None
                    &&& device.fulfils(self)
                    &&& compiled.source == self
                    &&& compiled.wf()
                },
                Err(e) => match self.verdict(*surface) {
                    Some(fault) => e == fault,
                    None => e == PipelineError::DeviceResourceFailure && !device.fulfils(self),
                },
            },
    {
        let resolution = match self.resolve(surface) {
            Ok(resolution) => resolution,
            Err(e) => {
                return Err(e);
            },
        };
        if !device.complete_for(&self) {
            return Err(PipelineError::DeviceResourceFailure);
        }
        let usages = self.texture_usages();
        Ok(
            CompiledPipeline {
                source: self,
                passes: resolution.passes,
                sampled: resolution.sampled,
                usages,
            },
        )
    }
}

} // verus!
