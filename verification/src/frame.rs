//! The step that goes before the passes of each frame: every registration is
//! fed the live data of the moment, in registration order.

use vstd::prelude::*;
use crate::compiled::CompiledPipeline;
use crate::descriptor::{ScheduledBindGroup, ScheduledBindGroupType};
use crate::dynamic::{DynamicBinding, DynamicRenderPipeline};
use crate::error::PipelineError;
use crate::feed::{lemma_uploaded_shape, payloads_fit, payloads_match, slots_uniform};
use crate::rebuild::LiveMesh;

verus! {

/// What one registration is fed in a frame: the live instances of its
/// component type, and one payload for each of its uniform bind groups.
#[derive(Debug)]
pub struct FrameInput {
    pub live: Vec<LiveMesh>,
    pub payloads: Vec<Vec<u8>>,
}

/// The bind groups of `after` are those of `before` but for the contents of
/// uniform blocks, whose lengths are kept.
pub open spec fn same_lengths(before: Seq<ScheduledBindGroup>, after: Seq<ScheduledBindGroup>) -> bool {
    &&& after.len() == before.len()
    &&& forall|g: int|
        0 <= g < before.len() ==> {
            &&& ((#[trigger] after[g]).form is Uniform) == (before[g].form is Uniform)
            &&& (after[g].form matches ScheduledBindGroupType::Uniform { contents: new }
                ==> (before[g].form matches ScheduledBindGroupType::Uniform { contents: old }
                && new@.len() == old@.len()))
        }
}

/// `states` holds the pipeline before any registration has been fed, and
/// after each of the first `n`: each state is the one before it with the next
/// registration fed its input.
pub open spec fn is_frame_trace(
    bindings: Seq<DynamicBinding>,
    inputs: Seq<FrameInput>,
    states: Seq<CompiledPipeline>,
    n: int,
) -> bool {
    &&& states.len() == n + 1
    &&& forall|k: int|
        0 <= k < n ==> (#[trigger] states[k + 1]).fed_from(
            states[k],
            bindings[k].buffer_group as int,
            bindings[k].uniforms@,
            inputs[k].live@,
            inputs[k].payloads@,
        )
}

/// `end` is `start` after the first `n` registrations have been fed their
/// inputs, one after the other.
pub open spec fn fed_through(
    bindings: Seq<DynamicBinding>,
    start: CompiledPipeline,
    end: CompiledPipeline,
    inputs: Seq<FrameInput>,
    n: int,
) -> bool {
    exists|states: Seq<CompiledPipeline>|
        {
            &&& #[trigger] is_frame_trace(bindings, inputs, states, n)
            &&& states[0] == start
            &&& states[n] == end
        }
}

/// Payloads that fit a list of bind groups fit every list with uniform
/// blocks of the same lengths.
pub proof fn lemma_fit_carries(
    before: Seq<ScheduledBindGroup>,
    after: Seq<ScheduledBindGroup>,
    uniforms: Seq<usize>,
    payloads: Seq<Vec<u8>>,
)
    requires
        same_lengths(before, after),
        slots_uniform(before, uniforms),
        payloads_fit(before, uniforms, payloads),
    ensures
        slots_uniform(after, uniforms),
        payloads_fit(after, uniforms, payloads),
{
    assert forall|k: int| 0 <= k < uniforms.len() implies {
        &&& (#[trigger] uniforms[k] as int) < after.len()
        &&& after[uniforms[k] as int].form is Uniform
        &&& (after[uniforms[k] as int].form matches ScheduledBindGroupType::Uniform { contents }
            ==> payloads[k]@.len() == contents@.len())
    } by {
        let g = uniforms[k] as int;
        assert(g < before.len() && before[g].form is Uniform);
        assert((after[g].form is Uniform) == (before[g].form is Uniform));
    }
}

impl DynamicRenderPipeline {
    /// There is one input for each registration, and each fits.
    pub open spec fn frame_fits(&self, inputs: Seq<FrameInput>) -> bool {
        &&& inputs.len() == self.bindings@.len()
        &&& forall|i: int|
            0 <= i < inputs.len() ==> self.pipeline.takes(
                self.bindings@[i].uniforms@,
                self.bindings@[i].rebuild,
                (#[trigger] inputs[i]).live@,
                inputs[i].payloads@,
            )
    }

    /// Whether there is one input for each registration, each of which fits.
    pub fn frame_ready(&self, inputs: &Vec<FrameInput>) -> (ready: bool)
        requires
            self.wf(),
        ensures
            ready == self.frame_fits(inputs@),
    {
        if inputs.len() != self.bindings.len() {
            return false;
        }
        let mut i: usize = 0;
        while i < inputs.len()
            invariant
                i <= inputs.len(),
                self.wf(),
                inputs@.len() == self.bindings@.len(),
                forall|j: int|
                    0 <= j < i ==> self.pipeline.takes(
                        self.bindings@[j].uniforms@,
                        self.bindings@[j].rebuild,
                        (#[trigger] inputs@[j]).live@,
                        inputs@[j].payloads@,
                    ),
            decreases inputs.len() - i,
        {
            let binding = &self.bindings[i];
            assert(self.pipeline.feedable(binding.buffer_group as int, binding.uniforms@));
            if !binding.rebuild.fits(&inputs[i].live) {
                return false;
            }
            if !payloads_match(
                &self.pipeline.source.bind_groups,
                &binding.uniforms,
                &inputs[i].payloads,
            ) {
                return false;
            }
            i += 1;
        }
        true
    }

    /// Feeds every registration its input, in registration order; input `i`
    /// is for registration `i`. The passes are not touched. Where an input is
    /// missing or does not fit, nothing is changed.
    pub fn frame(&mut self, inputs: Vec<FrameInput>) -> (outcome: Result<(), PipelineError>)
        requires
            old(self).wf(),
        ensures
            final(self).bindings == old(self).bindings,
            match outcome {
                Ok(_) => {
                    &&& old(self).frame_fits(inputs@)
                    &&& fed_through(
                        old(self).bindings@,
                        old(self).pipeline,
                        final(self).pipeline,
                        inputs@,
                        inputs@.len() as int,
                    )
                    &&& final(self).pipeline.passes == old(self).pipeline.passes
                    &&& final(self).wf()
                },
                Err(e) => {
                    &&& e == PipelineError::LayoutMismatch
                    &&& !old(self).frame_fits(inputs@)
                    &&& *final(self) == *old(self)
                },
            },
    {
        if !self.frame_ready(&inputs) {
            return Err(PipelineError::LayoutMismatch);
        }
        let ghost start = self.pipeline;
        let ghost bindings = self.bindings@;
        let ghost mut states: Seq<CompiledPipeline> = seq![self.pipeline];
        let mut next: usize = 0;
        for input in iter: inputs.into_iter()
            invariant
                iter.seq() == inputs@,
                next == iter.index(),
                inputs@.len() == bindings.len(),
                self.bindings == old(self).bindings,
                bindings == old(self).bindings@,
                start == old(self).pipeline,
                old(self).wf(),
                old(self).frame_fits(inputs@),
                self.wf(),
                self.pipeline.passes == start.passes,
                same_lengths(start.source.bind_groups@, self.pipeline.source.bind_groups@),
                is_frame_trace(bindings, inputs@, states, next as int),
                states[0] == start,
                states[next as int] == self.pipeline,
        {
            let ghost k = next as int;
            assert(k < inputs@.len());
            assert(input == inputs@[k]);
            assert(bindings.len() == self.bindings.len());
            let rebuild = self.bindings[next].rebuild;
            let buffer_group = self.bindings[next].buffer_group;
            let ghost before = self.pipeline;
            let ghost uniforms = bindings[k].uniforms@;
            proof {
                assert(old(self).pipeline.feedable(bindings[k].buffer_group as int, uniforms));
                assert(old(self).pipeline.takes(
                    uniforms,
                    bindings[k].rebuild,
                    inputs@[k].live@,
                    inputs@[k].payloads@,
                ));
                lemma_fit_carries(
                    start.source.bind_groups@,
                    before.source.bind_groups@,
                    uniforms,
                    input.payloads@,
                );
            }
            match self.pipeline.feed(
                buffer_group,
                &self.bindings[next].uniforms,
                &rebuild,
                input.live,
                input.payloads,
            ) {
                Ok(_) => {},
                Err(e) => {
                    // Every input was found to fit before the first was fed.
                    assert(false);
                    return Err(e);
                },
            }
            proof {
                self.pipeline.lemma_fed_wf(
                    before,
                    buffer_group as int,
                    uniforms,
                    input.live@,
                    input.payloads@,
                );
                lemma_uploaded_shape(
                    before.source.bind_groups@,
                    uniforms,
                    input.payloads@,
                    input.payloads@.len() as int,
                );
                assert(same_lengths(start.source.bind_groups@, self.pipeline.source.bind_groups@));
                assert(self.pipeline.fed_from(
                    before,
                    bindings[k].buffer_group as int,
                    bindings[k].uniforms@,
                    inputs@[k].live@,
                    inputs@[k].payloads@,
                ));
                let earlier = states;
                states = states.push(self.pipeline);
                assert forall|j: int| 0 <= j < k + 1 implies (#[trigger] states[j + 1]).fed_from(
                    states[j],
                    bindings[j].buffer_group as int,
                    bindings[j].uniforms@,
                    inputs@[j].live@,
                    inputs@[j].payloads@,
                ) by {
                    if j < k {
                        assert(states[j + 1] == earlier[j + 1]);
                        assert(states[j] == earlier[j]);
                    }
                }
            }
            next += 1;
        }
        assert(is_frame_trace(old(self).bindings@, inputs@, states, inputs@.len() as int));
        Ok(())
    }
}

} // verus!
