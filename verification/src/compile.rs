//! Checking a pipeline description and resolving it into passes.

use vstd::prelude::*;
use crate::descriptor::{
    ScheduledPipelineDescription, ScheduledShaderNodeDescription, SurfaceContext, TextureKind,
};
use crate::error::PipelineError;
use crate::label::{has_duplicate, names_of, position, Namespace, ShaderLabel};
use crate::resolve::{all_known, resolves, slot};

verus! {

/// A pass whose labels have been resolved: each field is an index into the
/// table of its namespace.
#[derive(Debug)]
pub struct CompiledPass {
    pub buffer_group: usize,
    pub bind_groups: Vec<usize>,
    pub targets: Option<Vec<usize>>,
    pub depth: Option<usize>,
}

/// Whether a pass renders into the texture of the given name.
pub open spec fn node_writes(node: ScheduledShaderNodeDescription, name: Seq<char>) -> bool {
    ||| (node.targets matches Some(ts) && names_of(ts@).contains(name))
    ||| (node.depth matches Some(d) && d@ == name)
}

impl TextureKind {
    /// Whether a pass can render into a texture of this kind.
    pub fn attachment(&self) -> (yes: bool)
        ensures
            yes == self.is_attachment(),
    {
        match self {
            TextureKind::DepthAttachment => true,
            TextureKind::RenderTarget => true,
            TextureKind::Unloaded { .. } => false,
        }
    }
}

impl ScheduledPipelineDescription {
    /// The labels of the buffer groups, in order.
    pub open spec fn buffer_names(&self) -> Seq<Seq<char>> {
        Seq::new(self.buffers@.len(), |i: int| self.buffers@[i].label@)
    }

    /// The labels of the bind groups, in order.
    pub open spec fn bind_group_names(&self) -> Seq<Seq<char>> {
        Seq::new(self.bind_groups@.len(), |i: int| self.bind_groups@[i].label@)
    }

    /// The labels of the textures, in order.
    pub open spec fn texture_names(&self) -> Seq<Seq<char>> {
        Seq::new(self.textures@.len(), |i: int| self.textures@[i].label@)
    }

    /// The first namespace, in the order buffer groups, bind groups, textures,
    /// in which a label occurs twice.
    pub open spec fn duplicate_namespace(&self) -> Option<Namespace> {
        if has_duplicate(self.buffer_names()) {
            Some(Namespace::BufferGroup)
        } else if has_duplicate(self.bind_group_names()) {
            Some(Namespace::BindGroup)
        } else if has_duplicate(self.texture_names()) {
            Some(Namespace::Texture)
        } else {
            None
        }
    }

    /// Every bind group that samples a declared texture names one that exists.
    pub open spec fn sources_known(&self) -> bool {
        forall|g: int|
            0 <= g < self.bind_groups@.len() ==> (
            #[trigger] self.bind_groups@[g].declared_texture() matches Some(name) ==> position(
                self.texture_names(),
                name,
            ).is_some())
    }

    /// Every label that a buffer group lists as a bind group of its own names
    /// a bind group.
    pub open spec fn unique_bind_groups_known(&self) -> bool {
        forall|b: int|
            0 <= b < self.buffers@.len() ==> all_known(
                self.bind_group_names(),
                names_of(#[trigger] self.buffers@[b].unique_bind_groups@),
            )
    }

    /// Some pass before pass `i` renders into the texture of the given name.
    pub open spec fn written_before(&self, i: int, name: Seq<char>) -> bool {
        exists|j: int|
            0 <= j < i && j < self.shader_nodes@.len() && node_writes(
                #[trigger] self.shader_nodes@[j],
                name,
            )
    }

    /// Each bind group of the pass has the layout that the shader expects at
    /// that binding.
    pub open spec fn layouts_agree(&self, node: ScheduledShaderNodeDescription) -> bool {
        &&& node.shader.bg_layouts@.len() == node.bind_groups@.len()
        &&& forall|k: int|
            0 <= k < node.bind_groups@.len() ==> self.bind_groups@[slot(
                self.bind_group_names(),
                #[trigger] node.bind_groups@[k]@,
            )].layout@ == node.shader.bg_layouts@[k]@
    }

    /// Each target of the pass is a declared render target, and its depth
    /// texture a declared depth attachment.
    pub open spec fn attachments_declared(&self, node: ScheduledShaderNodeDescription) -> bool {
        &&& node.targets matches Some(ts) ==> forall|k: int|
            0 <= k < ts@.len() ==> {
                &&& position(self.texture_names(), #[trigger] ts@[k]@).is_some()
                &&& self.textures@[slot(self.texture_names(), ts@[k]@)].kind is RenderTarget
            }
        &&& node.depth matches Some(d) ==> {
            &&& position(self.texture_names(), d@).is_some()
            &&& self.textures@[slot(self.texture_names(), d@)].kind is DepthAttachment
        }
    }

    /// The shader's outputs have the formats of what the pass renders into:
    /// its targets in order, or else the surface; and its depth texture.
    pub open spec fn formats_agree(
        &self,
        node: ScheduledShaderNodeDescription,
        surface: SurfaceContext,
    ) -> bool {
        &&& match node.targets {
            Some(ts) => {
                &&& node.shader.targets@.len() == ts@.len()
                &&& forall|k: int|
                    0 <= k < ts@.len() ==> self.textures@[slot(
                        self.texture_names(),
                        #[trigger] ts@[k]@,
                    )].format == node.shader.targets@[k].format
            },
            None => {
                &&& node.shader.targets@.len() == 1
                &&& node.shader.targets@[0].format == surface.format
            },
        }
        &&& match node.depth {
            Some(d) => {
                &&& node.shader.depth_stencil matches Some(state)
                &&& state.format == self.textures@[slot(self.texture_names(), d@)].format
            },
            None => node.shader.depth_stencil is None,
        }
    }

    /// Each attachment that pass `i` samples has been written by an earlier
    /// pass.
    pub open spec fn reads_follow_writes(&self, i: int) -> bool {
        let node = self.shader_nodes@[i];
        forall|k: int|
            0 <= k < node.bind_groups@.len() ==> (self.bind_groups@[slot(
                self.bind_group_names(),
                #[trigger] node.bind_groups@[k]@,
            )].declared_texture() matches Some(name) ==> (self.textures@[slot(
                self.texture_names(),
                name,
            )].kind.is_attachment() ==> self.written_before(i, name)))
    }

    /// What is wrong with pass `i`, if anything: the first of an unknown
    /// buffer group, an unknown bind group, a layout that differs, an unknown
    /// or wrongly declared attachment, a format that differs, and a read of
    /// an attachment not yet written.
    pub open spec fn node_fault(&self, surface: SurfaceContext, i: int) -> Option<PipelineError> {
        let node = self.shader_nodes@[i];
        if position(self.buffer_names(), node.buffer_group@).is_none() {
            Some(PipelineError::UnknownLabel(Namespace::BufferGroup))
        } else if !all_known(self.bind_group_names(), names_of(node.bind_groups@)) {
            Some(PipelineError::UnknownLabel(Namespace::BindGroup))
        } else if !self.layouts_agree(node) {
            Some(PipelineError::LayoutMismatch)
        } else if !self.attachments_declared(node) {
            Some(PipelineError::UnknownLabel(Namespace::Texture))
        } else if !self.formats_agree(node, surface) {
            Some(PipelineError::FormatMismatch)
        } else if !self.reads_follow_writes(i) {
            Some(PipelineError::ReadBeforeWrite)
        } else {
            None
        }
    }

    /// The fault of the first faulty pass among the first `n`.
    pub open spec fn first_fault(&self, surface: SurfaceContext, n: int) -> Option<PipelineError>
        decreases n,
    {
        if n <= 0 {
            None
        } else {
            match self.first_fault(surface, n - 1) {
                Some(e) => Some(e),
                None => self.node_fault(surface, n - 1),
            }
        }
    }

    /// Why the description cannot be compiled, if it cannot: a duplicate
    /// label first, then a bind group that samples an unknown texture, then a
    /// buffer group that lists an unknown bind group, then the first faulty
    /// pass.
    pub open spec fn verdict(&self, surface: SurfaceContext) -> Option<PipelineError> {
        if let Some(namespace) = self.duplicate_namespace() {
            Some(PipelineError::DuplicateLabel(namespace))
        } else if !self.sources_known() {
            Some(PipelineError::UnknownLabel(Namespace::Texture))
        } else if !self.unique_bind_groups_known() {
            Some(PipelineError::UnknownLabel(Namespace::BindGroup))
        } else {
            self.first_fault(surface, self.shader_nodes@.len() as int)
        }
    }

    /// `pass` is pass `i` with each label replaced by the index that it
    /// resolves to.
    pub open spec fn pass_resolves(&self, i: int, pass: CompiledPass) -> bool {
        let node = self.shader_nodes@[i];
        &&& position(self.buffer_names(), node.buffer_group@) == Some(pass.buffer_group as int)
        &&& resolves(self.bind_group_names(), names_of(node.bind_groups@), pass.bind_groups@)
        &&& match node.targets {
            Some(ts) => pass.targets matches Some(indices) && resolves(
                self.texture_names(),
                names_of(ts@),
                indices@,
            ),
            None => pass.targets is None,
        }
        &&& match node.depth {
            Some(d) => pass.depth matches Some(t) && position(self.texture_names(), d@) == Some(
                t as int,
            ),
            None => pass.depth is None,
        }
    }

    /// For each bind group, the index of the declared texture that it
    /// samples, if it samples one.
    pub open spec fn sources_resolve(&self, sources: Seq<Option<usize>>) -> bool {
        &&& sources.len() == self.bind_groups@.len()
        &&& forall|g: int|
            0 <= g < sources.len() ==> match #[trigger] self.bind_groups@[g].declared_texture() {
                Some(name) => sources[g] matches Some(t) && position(self.texture_names(), name)
                    == Some(t as int),
                None => sources[g] is None,
            }
    }

    /// For each texture, whether a pass before pass `i` renders into it.
    pub open spec fn written_tracks(&self, i: int, written: Seq<bool>) -> bool {
        &&& written.len() == self.textures@.len()
        &&& forall|t: int|
            0 <= t < written.len() ==> #[trigger] written[t] == self.written_before(
                i,
                self.texture_names()[t],
            )
    }

    /// The labels of the buffer groups.
    pub fn buffer_labels(&self) -> (labels: Vec<ShaderLabel>)
        ensures
            names_of(labels@) == self.buffer_names(),
    {
        let mut labels: Vec<ShaderLabel> = Vec::new();
        let mut i: usize = 0;
        while i < self.buffers.len()
            invariant
                i <= self.buffers.len(),
                labels@.len() == i,
                forall|j: int| 0 <= j < i ==> labels@[j]@ == self.buffers@[j].label@,
            decreases self.buffers.len() - i,
        {
            labels.push(self.buffers[i].label.clone());
            i += 1;
        }
        assert(names_of(labels@) =~= self.buffer_names());
        labels
    }

    /// The labels of the bind groups.
    pub fn bind_group_labels(&self) -> (labels: Vec<ShaderLabel>)
        ensures
            names_of(labels@) == self.bind_group_names(),
    {
        let mut labels: Vec<ShaderLabel> = Vec::new();
        let mut i: usize = 0;
        while i < self.bind_groups.len()
            invariant
                i <= self.bind_groups.len(),
                labels@.len() == i,
                forall|j: int| 0 <= j < i ==> labels@[j]@ == self.bind_groups@[j].label@,
            decreases self.bind_groups.len() - i,
        {
            labels.push(self.bind_groups[i].label.clone());
            i += 1;
        }
        assert(names_of(labels@) =~= self.bind_group_names());
        labels
    }

    /// The labels of the textures.
    pub fn texture_labels(&self) -> (labels: Vec<ShaderLabel>)
        ensures
            names_of(labels@) == self.texture_names(),
    {
        let mut labels: Vec<ShaderLabel> = Vec::new();
        let mut i: usize = 0;
        while i < self.textures.len()
            invariant
                i <= self.textures.len(),
                labels@.len() == i,
                forall|j: int| 0 <= j < i ==> labels@[j]@ == self.textures@[j].label@,
            decreases self.textures.len() - i,
        {
            labels.push(self.textures[i].label.clone());
            i += 1;
        }
        assert(names_of(labels@) =~= self.texture_names());
        labels
    }
}

} // verus!
