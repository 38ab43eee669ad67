//! Compiling a description into a pipeline.

use vstd::prelude::*;
use crate::compile::CompiledPass;
use crate::descriptor::{
    ScheduledBindGroupType, ScheduledPipelineDescription, SurfaceContext, TextureKind,
    TextureSource, TextureUsage,
};
use crate::error::PipelineError;
use crate::label::{contains_duplicate, find_label, names_of, Namespace, ShaderLabel};
use crate::resolve::resolve_all;

verus! {

/// The uses of a texture of the given kind: an attachment is rendered into
/// and sampled, any other texture is sampled and copied into.
pub open spec fn usage_of(kind: TextureKind) -> TextureUsage {
    if kind.is_attachment() {
        TextureUsage { render_attachment: true, texture_binding: true, copy_dst: false }
    } else {
        TextureUsage { render_attachment: false, texture_binding: true, copy_dst: true }
    }
}

/// What the device answered to each request: one answer for each texture,
/// each bind group and each pass, `true` where the resource was created.
#[derive(Debug)]
pub struct DeviceReport {
    pub textures: Vec<bool>,
    pub bind_groups: Vec<bool>,
    pub pipelines: Vec<bool>,
}

/// There are exactly `n` answers, and each is a success.
pub open spec fn all_created(answers: Seq<bool>, n: nat) -> bool {
    &&& answers.len() == n
    &&& forall|i: int| 0 <= i < n ==> answers[i]
}

/// Whether there are exactly `n` answers, each a success.
pub fn every_created(answers: &Vec<bool>, n: usize) -> (yes: bool)
    ensures
        yes == all_created(answers@, n as nat),
{
    if answers.len() != n {
        return false;
    }
    let mut i: usize = 0;
    while i < n
        invariant
            i <= n,
            answers@.len() == n,
            forall|j: int| 0 <= j < i ==> answers@[j],
        decreases n - i,
    {
        if !answers[i] {
            return false;
        }
        i += 1;
    }
    true
}

impl DeviceReport {
    /// The device created everything that the description asks for.
    pub open spec fn fulfils(&self, desc: ScheduledPipelineDescription) -> bool {
        &&& all_created(self.textures@, desc.textures@.len())
        &&& all_created(self.bind_groups@, desc.bind_groups@.len())
        &&& all_created(self.pipelines@, desc.shader_nodes@.len())
    }

    /// Whether the device created everything that the description asks for.
    pub fn complete_for(&self, desc: &ScheduledPipelineDescription) -> (yes: bool)
        ensures
            yes == self.fulfils(*desc),
    {
        every_created(&self.textures, desc.textures.len()) && every_created(
            &self.bind_groups,
            desc.bind_groups.len(),
        ) && every_created(&self.pipelines, desc.shader_nodes.len())
    }
}

/// The passes of a description with their labels resolved, and for each bind
/// group the declared texture that it samples.
#[derive(Debug)]
pub struct Resolution {
    pub passes: Vec<CompiledPass>,
    pub sampled: Vec<Option<usize>>,
}

impl ScheduledPipelineDescription {
    /// There is one resolved pass for each pass of the description, in the
    /// same order.
    pub open spec fn passes_resolve(&self, passes: Seq<CompiledPass>) -> bool {
        &&& passes.len() == self.shader_nodes@.len()
        &&& forall|i: int| 0 <= i < passes.len() ==> self.pass_resolves(i, #[trigger] passes[i])
    }

    /// Once a pass is faulty, the first fault no longer changes.
    pub proof fn lemma_fault_stays(&self, surface: SurfaceContext, m: int, n: int)
        requires
            0 <= m <= n,
            self.first_fault(surface, m) is Some,
        ensures
            self.first_fault(surface, n) == self.first_fault(surface, m),
        decreases n - m,
    {
        if m < n {
            self.lemma_fault_stays(surface, m, n - 1);
        }
    }

    /// For each bind group the index of the declared texture that it samples;
    /// nothing where one of them samples a texture that does not exist.
    pub(crate) fn resolve_sources(&self, texture_labels: &Vec<ShaderLabel>) -> (found: Option<
        Vec<Option<usize>>,
    >)
        requires
            names_of(texture_labels@) == self.texture_names(),
        ensures
            match found {
                Some(sampled) => self.sources_known() && self.sources_resolve(sampled@),
                None => !self.sources_known(),
            },
    {
        let mut sampled: Vec<Option<usize>> = Vec::new();
        let mut g: usize = 0;
        while g < self.bind_groups.len()
            invariant
                g <= self.bind_groups.len(),
                names_of(texture_labels@) == self.texture_names(),
                sampled@.len() == g,
                forall|h: int|
                    0 <= h < g ==> match #[trigger] self.bind_groups@[h].declared_texture() {
                        Some(name) => sampled@[h] matches Some(t) && crate::label::position(
                            self.texture_names(),
                            name,
                        ) == Some(t as int),
                        None => sampled@[h] is None,
                    },
            decreases self.bind_groups.len() - g,
        {
            match &self.bind_groups[g].form {
                ScheduledBindGroupType::ReadOnlyTexture(TextureSource::Declared(label)) => {
                    match find_label(texture_labels, label) {
                        Some(t) => {
                            sampled.push(Some(t));
                        },
                        None => {
                            assert(self.bind_groups@[g as int].declared_texture() == Some(
                                label@,
                            ));
                            return None;
                        },
                    }
                },
                _ => {
                    sampled.push(None);
                },
            }
            g += 1;
        }
        Some(sampled)
    }

    /// Whether every label that a buffer group lists as a bind group of its
    /// own names a bind group.
    pub(crate) fn unique_bind_groups_listed(&self, bind_group_labels: &Vec<ShaderLabel>) -> (known: bool)
        requires
            names_of(bind_group_labels@) == self.bind_group_names(),
        ensures
            known == self.unique_bind_groups_known(),
    {
        let mut b: usize = 0;
        while b < self.buffers.len()
            invariant
                b <= self.buffers.len(),
                names_of(bind_group_labels@) == self.bind_group_names(),
                forall|c: int|
                    0 <= c < b ==> crate::resolve::all_known(
                        self.bind_group_names(),
                        names_of(#[trigger] self.buffers@[c].unique_bind_groups@),
                    ),
            decreases self.buffers.len() - b,
        {
            if resolve_all(bind_group_labels, &self.buffers[b].unique_bind_groups).is_none() {
                return false;
            }
            proof {
                let wanted = names_of(self.buffers@[b as int].unique_bind_groups@);
                assert(crate::resolve::all_known(self.bind_group_names(), wanted));
            }
            b += 1;
        }
        true
    }

    /// Checks the description and resolves its passes in declared order, or
    /// says why it cannot be compiled.
    pub fn resolve(&self, surface: &SurfaceContext) -> (outcome: Result<Resolution, PipelineError>)
        ensures
            match outcome {
                Ok(resolution) => {
                    &&& self.verdict(*surface) is None
                    &&& self.passes_resolve(resolution.passes@)
                    &&& self.sources_resolve(resolution.sampled@)
                },
                Err(e) => self.verdict(*surface) == Some(e),
            },
    {
        let buffer_labels = self.buffer_labels();
        let bind_group_labels = self.bind_group_labels();
        let texture_labels = self.texture_labels();
        if contains_duplicate(&buffer_labels) {
            return Err(PipelineError::DuplicateLabel(Namespace::BufferGroup));
        }
        if contains_duplicate(&bind_group_labels) {
            return Err(PipelineError::DuplicateLabel(Namespace::BindGroup));
        }
        if contains_duplicate(&texture_labels) {
            return Err(PipelineError::DuplicateLabel(Namespace::Texture));
        }
        let sampled = match self.resolve_sources(&texture_labels) {
            Some(sampled) => sampled,
            None => {
                return Err(PipelineError::UnknownLabel(Namespace::Texture));
            },
        };
        if !self.unique_bind_groups_listed(&bind_group_labels) {
            return Err(PipelineError::UnknownLabel(Namespace::BindGroup));
        }
        let mut written: Vec<bool> = Vec::new();
        let mut t: usize = 0;
        while t < self.textures.len()
            invariant
                t <= self.textures.len(),
                written@.len() == t,
                forall|u: int| 0 <= u < t ==> !written@[u],
            decreases self.textures.len() - t,
        {
            written.push(false);
            t += 1;
        }
        let mut passes: Vec<CompiledPass> = Vec::new();
        let mut i: usize = 0;
        while i < self.shader_nodes.len()
            invariant
                i <= self.shader_nodes.len(),
                names_of(buffer_labels@) == self.buffer_names(),
                names_of(bind_group_labels@) == self.bind_group_names(),
                names_of(texture_labels@) == self.texture_names(),
                self.duplicate_namespace() is None,
                self.sources_known(),
                self.unique_bind_groups_known(),
                self.sources_resolve(sampled@),
                self.written_tracks(i as int, written@),
                self.first_fault(*surface, i as int) is None,
                passes@.len() == i,
                forall|j: int| 0 <= j < i ==> self.pass_resolves(j, #[trigger] passes@[j]),
            decreases self.shader_nodes.len() - i,
        {
            match self.compile_node(
                surface,
                i,
                &buffer_labels,
                &bind_group_labels,
                &texture_labels,
                &sampled,
                &written,
            ) {
                Ok(pass) => {
                    self.mark_written(i, &pass, &mut written);
                    passes.push(pass);
                },
                Err(e) => {
                    proof {
                        assert(self.first_fault(*surface, i as int + 1) == Some(e));
                        self.lemma_fault_stays(
                            *surface,
                            i as int + 1,
                            self.shader_nodes@.len() as int,
                        );
                    }
                    return Err(e);
                },
            }
            i += 1;
        }
        Ok(Resolution { passes, sampled })
    }

    /// Checks the description without creating anything.
    pub fn validate(&self, surface: &SurfaceContext) -> (outcome: Result<(), PipelineError>)
        ensures
            match outcome {
                Ok(_) => self.verdict(*surface) is None,
                Err(e) => self.verdict(*surface) == Some(e),
            },
    {
        match self.resolve(surface) {
            Ok(_) => Ok(()),
            Err(e) => Err(e),
        }
    }

    /// The uses of each texture, in order.
    pub fn texture_usages(&self) -> (usages: Vec<TextureUsage>)
        ensures
            usages@.len() == self.textures@.len(),
            forall|t: int|
                0 <= t < usages@.len() ==> #[trigger] usages@[t] == usage_of(
                    self.textures@[t].kind,
                ),
    {
        let mut usages: Vec<TextureUsage> = Vec::new();
        let mut t: usize = 0;
        while t < self.textures.len()
            invariant
                t <= self.textures.len(),
                usages@.len() == t,
                forall|u: int|
                    0 <= u < t ==> #[trigger] usages@[u] == usage_of(self.textures@[u].kind),
            decreases self.textures.len() - t,
        {
            let attachment = self.textures[t].kind.attachment();
            usages.push(
                TextureUsage {
                    render_attachment: attachment,
                    texture_binding: true,
                    copy_dst: !attachment,
                },
            );
            t += 1;
        }
        usages
    }
}

} // verus!
