//! A compiled pipeline together with the live data that feeds it: for each
//! registered component type, the buffer group that its instances fill and
//! the uniform bind groups that are refreshed with them.

use vstd::prelude::*;
use crate::compiled::CompiledPipeline;
use crate::descriptor::{ScheduledBindGroupType, ScheduledPipelineDescription};
use crate::error::PipelineError;
use crate::feed::slots_uniform;
use crate::label::{find_label, lemma_position_sound, names_of, position, Namespace, ShaderLabel};
use crate::rebuild::{LiveMesh, RebuildFn};
use crate::resolve::{all_known, resolve_all, resolves, slot};

verus! {

/// The identity of a component type.
#[derive(Clone, Copy, Debug, PartialEq, Eq, Structural)]
pub struct ComponentType(pub u64);

/// What a component type feeds: the buffer group named `node`, and the
/// uniform bind groups named in `bind_groups`, which take one payload each.
#[derive(Debug)]
pub struct DynamicNodeDefinition {
    pub node: ShaderLabel,
    pub bind_groups: Vec<ShaderLabel>,
}

/// A registration with its labels resolved.
#[derive(Debug)]
pub struct DynamicBinding {
    pub component: ComponentType,
    pub buffer_group: usize,
    pub uniforms: Vec<usize>,
    pub rebuild: RebuildFn,
}

/// A compiled pipeline and its registrations, in registration order.
#[derive(Debug)]
pub struct DynamicRenderPipeline {
    pub pipeline: CompiledPipeline,
    pub bindings: Vec<DynamicBinding>,
}

/// The registration at `i` is that of `component`.
pub open spec fn bound_at(bindings: Seq<DynamicBinding>, component: ComponentType, i: int) -> bool {
    0 <= i < bindings.len() && bindings[i].component == component
}

/// `component` is registered.
pub open spec fn is_bound(bindings: Seq<DynamicBinding>, component: ComponentType) -> bool {
    exists|i: int| bound_at(bindings, component, i)
}

/// No component type is registered twice.
pub open spec fn one_each(bindings: Seq<DynamicBinding>) -> bool {
    forall|i: int, j: int|
        0 <= i < j < bindings.len() ==> bindings[i].component != bindings[j].component
}

/// The registrations after `binding` has been registered: it takes the place
/// of the registration of its component type where there is one, and comes
/// last where there is none.
pub open spec fn registered_with(bindings: Seq<DynamicBinding>, binding: DynamicBinding) -> Seq<
    DynamicBinding,
> {
    if is_bound(bindings, binding.component) {
        bindings.update(choose|i: int| bound_at(bindings, binding.component, i), binding)
    } else {
        bindings.push(binding)
    }
}

impl ScheduledPipelineDescription {
    /// Each of the named bind groups holds a uniform block.
    pub open spec fn all_uniform(&self, wanted: Seq<Seq<char>>) -> bool {
        forall|k: int|
            0 <= k < wanted.len() ==> self.bind_groups@[slot(
                self.bind_group_names(),
                #[trigger] wanted[k],
            )].form is Uniform
    }

    /// Why a component type cannot be registered for what `node` names, if
    /// it cannot: an unknown buffer group first, then an unknown bind group,
    /// then a bind group that holds no uniform block.
    pub open spec fn register_fault(&self, node: DynamicNodeDefinition) -> Option<PipelineError> {
        if position(self.buffer_names(), node.node@).is_none() {
            Some(PipelineError::UnknownLabel(Namespace::BufferGroup))
        } else if !all_known(self.bind_group_names(), names_of(node.bind_groups@)) {
            Some(PipelineError::UnknownLabel(Namespace::BindGroup))
        } else if !self.all_uniform(names_of(node.bind_groups@)) {
            Some(PipelineError::LayoutMismatch)
        } else {
            None
        }
    }

    /// Whether each of the resolved bind groups holds a uniform block.
    pub(crate) fn uniform_slots(&self, wanted: &Vec<ShaderLabel>, indices: &Vec<usize>) -> (yes: bool)
        requires
            resolves(self.bind_group_names(), names_of(wanted@), indices@),
        ensures
            yes == self.all_uniform(names_of(wanted@)),
            yes ==> slots_uniform(self.bind_groups@, indices@),
    {
        let ghost names = self.bind_group_names();
        let ghost asked = names_of(wanted@);
        let mut k: usize = 0;
        while k < indices.len()
            invariant
                k <= indices.len(),
                names == self.bind_group_names(),
                asked == names_of(wanted@),
                resolves(names, asked, indices@),
                forall|m: int|
                    0 <= m < k ==> self.bind_groups@[slot(names, #[trigger] asked[m])].form is Uniform,
                forall|m: int|
                    0 <= m < k ==> {
                        &&& (#[trigger] indices@[m] as int) < self.bind_groups@.len()
                        &&& self.bind_groups@[indices@[m] as int].form is Uniform
                    },
            decreases indices.len() - k,
        {
            proof {
                assert(position(names, asked[k as int]) == Some(indices@[k as int] as int));
                lemma_position_sound(names, asked[k as int]);
            }
            match &self.bind_groups[indices[k]].form {
                ScheduledBindGroupType::Uniform { .. } => {},
                _ => {
                    return false;
                },
            }
            k += 1;
        }
        true
    }
}

impl DynamicRenderPipeline {
    /// The pipeline is well formed, no component type is registered twice,
    /// and every registration points at a buffer group and at uniform bind
    /// groups that exist.
    pub open spec fn wf(&self) -> bool {
        &&& self.pipeline.wf()
        &&& one_each(self.bindings@)
        &&& forall|i: int|
            0 <= i < self.bindings@.len() ==> self.pipeline.feedable(
                (#[trigger] self.bindings@[i]).buffer_group as int,
                self.bindings@[i].uniforms@,
            )
    }

    /// A compiled pipeline with nothing registered.
    pub fn new(pipeline: CompiledPipeline) -> (dynamic: DynamicRenderPipeline)
        requires
            pipeline.wf(),
        ensures
            dynamic.wf(),
            dynamic.pipeline == pipeline,
            dynamic.bindings@.len() == 0,
    {
        DynamicRenderPipeline { pipeline, bindings: Vec::new() }
    }

    /// Where `component` is registered.
    pub fn find_binding(&self, component: ComponentType) -> (found: Option<usize>)
        ensures
            match found {
                Some(i) => bound_at(self.bindings@, component, i as int),
                None => !is_bound(self.bindings@, component),
            },
    {
        let mut i: usize = 0;
        while i < self.bindings.len()
            invariant
                i <= self.bindings.len(),
                forall|j: int| 0 <= j < i ==> self.bindings@[j].component != component,
            decreases self.bindings.len() - i,
        {
            if self.bindings[i].component == component {
                return Some(i);
            }
            i += 1;
        }
        None
    }

    /// The registered component types, in registration order: the order in
    /// which a frame feeds them.
    pub fn registered(&self) -> (components: Vec<ComponentType>)
        ensures
            components@.len() == self.bindings@.len(),
            forall|i: int|
                0 <= i < components@.len() ==> components@[i] == self.bindings@[i].component,
    {
        let mut components: Vec<ComponentType> = Vec::new();
        let mut i: usize = 0;
        while i < self.bindings.len()
            invariant
                i <= self.bindings.len(),
                components@.len() == i,
                forall|j: int| 0 <= j < i ==> components@[j] == self.bindings@[j].component,
            decreases self.bindings.len() - i,
        {
            components.push(self.bindings[i].component);
            i += 1;
        }
        components
    }

    /// Registers `component` as what feeds the buffer group and the uniform
    /// bind groups that `node` names, and feeds them at once with `live` and
    /// `payloads`. A component type that is registered already keeps its
    /// place, and its registration is replaced. Where anything fails, nothing
    /// is changed.
    pub fn register_shader(
        &mut self,
        component: ComponentType,
        node: &DynamicNodeDefinition,
        rebuild: RebuildFn,
        live: Vec<LiveMesh>,
        payloads: Vec<Vec<u8>>,
    ) -> (outcome: Result<(), PipelineError>)
        requires
            old(self).wf(),
        ensures
            match outcome {
                Ok(_) => {
                    let source = old(self).pipeline.source;
                    let at = if is_bound(old(self).bindings@, component) {
                        choose|i: int| bound_at(old(self).bindings@, component, i)
                    } else {
                        old(self).bindings@.len() as int
                    };
                    let binding = final(self).bindings@[at];
                    &&& source.register_fault(*node) is None
                    &&& old(self).pipeline.takes(binding.uniforms@, rebuild, live@, payloads@)
                    &&& final(self).wf()
                    &&& final(self).bindings@ == registered_with(old(self).bindings@, binding)
                    &&& final(self).bindings@.len() == if is_bound(old(self).bindings@, component) {
                        old(self).bindings@.len()
                    } else {
                        old(self).bindings@.len() + 1
                    }
                    &&& forall|i: int|
                        0 <= i < old(self).bindings@.len() && i != at ==> final(self).bindings@[i]
                            == old(self).bindings@[i]
                    &&& binding.component == component
                    &&& binding.rebuild == rebuild
                    &&& position(source.buffer_names(), node.node@) == Some(
                        binding.buffer_group as int,
                    )
                    &&& resolves(
                        source.bind_group_names(),
                        names_of(node.bind_groups@),
                        binding.uniforms@,
                    )
                    &&& final(self).pipeline.fed_from(
                        old(self).pipeline,
                        binding.buffer_group as int,
                        binding.uniforms@,
                        live@,
                        payloads@,
                    )
                },
                Err(e) => {
                    &&& *final(self) == *old(self)
                    &&& match old(self).pipeline.source.register_fault(*node) {
                        Some(fault) => e == fault,
                        None => e == PipelineError::LayoutMismatch && forall|uniforms: Seq<usize>|
                            resolves(
                                old(self).pipeline.source.bind_group_names(),
                                names_of(node.bind_groups@),
                                uniforms,
                            ) ==> !old(self).pipeline.takes(uniforms, rebuild, live@, payloads@),
                    }
                },
            },
    {
        let buffer_labels = self.pipeline.source.buffer_labels();
        let buffer_group = match find_label(&buffer_labels, &node.node) {
            Some(b) => b,
            None => {
                return Err(PipelineError::UnknownLabel(Namespace::BufferGroup));
            },
        };
        let bind_group_labels = self.pipeline.source.bind_group_labels();
        let uniforms = match resolve_all(&bind_group_labels, &node.bind_groups) {
            Some(indices) => indices,
            None => {
                return Err(PipelineError::UnknownLabel(Namespace::BindGroup));
            },
        };
        let ghost names = self.pipeline.source.bind_group_names();
        let ghost wanted = names_of(node.bind_groups@);
        proof {
            assert forall|k: int| 0 <= k < wanted.len() implies position(
                names,
                #[trigger] wanted[k],
            ).is_some() by {
                assert(position(names, wanted[k]) == Some(uniforms@[k] as int));
            }
            lemma_position_sound(self.pipeline.source.buffer_names(), node.node@);
        }
        if !self.pipeline.source.uniform_slots(&node.bind_groups, &uniforms) {
            return Err(PipelineError::LayoutMismatch);
        }
        let found = self.find_binding(component);
        let ghost slots = uniforms@;
        match self.pipeline.feed(buffer_group, &uniforms, &rebuild, live, payloads) {
            Ok(_) => {},
            Err(e) => {
                proof {
                    assert forall|other: Seq<usize>| resolves(names, wanted, other) implies other
                        == slots by {
                        assert forall|k: int| 0 <= k < wanted.len() implies other[k]
                            == slots[k] by {
                            assert(position(names, wanted[k]) == Some(other[k] as int));
                            assert(position(names, wanted[k]) == Some(slots[k] as int));
                        }
                        assert(other =~= slots);
                    }
                }
                return Err(e);
            },
        }
        proof {
            self.pipeline.lemma_fed_wf(
                old(self).pipeline,
                buffer_group as int,
                slots,
                live@,
                payloads@,
            );
        }
        let binding = DynamicBinding { component, buffer_group, uniforms, rebuild };
        match found {
            Some(i) => {
                proof {
                    let c = choose|c: int| bound_at(old(self).bindings@, component, c);
                    assert(bound_at(old(self).bindings@, component, i as int));
                    if c < i {
                        assert(old(self).bindings@[c].component != old(
                            self,
                        ).bindings@[i as int].component);
                    } else if i < c {
                        assert(old(self).bindings@[i as int].component != old(
                            self,
                        ).bindings@[c].component);
                    }
                }
                self.bindings.set(i, binding);
                proof {
                    let before = old(self).bindings@;
                    let after = self.bindings@;
                    assert forall|a: int, b: int| 0 <= a < b < after.len() implies after[a].component
                        != after[b].component by {
                        assert(after[a].component == before[a].component);
                        assert(after[b].component == before[b].component);
                    }
                    assert(after =~= registered_with(before, after[i as int]));
                }
            },
            None => {
                self.bindings.push(binding);
                proof {
                    let before = old(self).bindings@;
                    let after = self.bindings@;
                    assert forall|a: int, b: int| 0 <= a < b < after.len() implies after[a].component
                        != after[b].component by {
                        if b == before.len() {
                            assert(!bound_at(before, component, a));
                        } else {
                            assert(after[a].component == before[a].component);
                            assert(after[b].component == before[b].component);
                        }
                    }
                    assert(after =~= registered_with(before, after[before.len() as int]));
                }
            },
        }
        Ok(())
    }

    /// The per-frame step for one registration: replaces the objects of its
    /// buffer group by those of `live` and writes `payloads` to its uniform
    /// bind groups. The passes are not touched. Where it fails, nothing is
    /// changed.
    pub fn rebind(
        &mut self,
        component: ComponentType,
        live: Vec<LiveMesh>,
        payloads: Vec<Vec<u8>>,
    ) -> (outcome: Result<(), PipelineError>)
        requires
            old(self).wf(),
        ensures
            final(self).bindings == old(self).bindings,
            match outcome {
                Ok(_) => {
                    let binding = old(self).bindings@[choose|i: int|
                        bound_at(old(self).bindings@, component, i)];
                    &&& is_bound(old(self).bindings@, component)
                    &&& old(self).pipeline.takes(
                        binding.uniforms@,
                        binding.rebuild,
                        live@,
                        payloads@,
                    )
                    &&& final(self).pipeline.fed_from(
                        old(self).pipeline,
                        binding.buffer_group as int,
                        binding.uniforms@,
                        live@,
                        payloads@,
                    )
                    &&& final(self).wf()
                },
                Err(e) => {
                    &&& *final(self) == *old(self)
                    &&& if is_bound(old(self).bindings@, component) {
                        let binding = old(self).bindings@[choose|i: int|
                            bound_at(old(self).bindings@, component, i)];
                        &&& e == PipelineError::LayoutMismatch
                        &&& !old(self).pipeline.takes(
                            binding.uniforms@,
                            binding.rebuild,
                            live@,
                            payloads@,
                        )
                    } else {
                        e == PipelineError::UnregisteredComponent
                    }
                },
            },
    {
        let i = match self.find_binding(component) {
            Some(i) => i,
            None => {
                return Err(PipelineError::UnregisteredComponent);
            },
        };
        proof {
            let c = choose|c: int| bound_at(old(self).bindings@, component, c);
            if c < i {
                assert(old(self).bindings@[c].component != old(self).bindings@[i as int].component);
            } else if i < c {
                assert(old(self).bindings@[i as int].component != old(self).bindings@[c].component);
            }
        }
        let rebuild = self.bindings[i].rebuild;
        let buffer_group = self.bindings[i].buffer_group;
        let outcome = self.pipeline.feed(
            buffer_group,
            &self.bindings[i].uniforms,
            &rebuild,
            live,
            payloads,
        );
        proof {
            if outcome is Ok {
                self.pipeline.lemma_fed_wf(
                    old(self).pipeline,
                    buffer_group as int,
                    self.bindings@[i as int].uniforms@,
                    live@,
                    payloads@,
                );
            }
        }
        outcome
    }
}

} // verus!
