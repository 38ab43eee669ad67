//! The checks on a single pass, and its resolution.

use vstd::prelude::*;
use crate::compile::CompiledPass;
use crate::descriptor::{
    ScheduledPipelineDescription, ScheduledShaderNodeDescription, SurfaceContext,
};
use crate::error::PipelineError;
use crate::label::{find_label, lemma_position_sound, names_of, position, Namespace, ShaderLabel};
use crate::resolve::{resolve_all, resolves, slot};

verus! {

impl ScheduledPipelineDescription {
    /// Whether each bind group of the pass has the layout that the shader
    /// expects at that binding.
    pub(crate) fn layouts_match(
        &self,
        node: &ScheduledShaderNodeDescription,
        indices: &Vec<usize>,
    ) -> (agree: bool)
        requires
            resolves(self.bind_group_names(), names_of(node.bind_groups@), indices@),
        ensures
            agree == self.layouts_agree(*node),
    {
        if node.shader.bg_layouts.len() != node.bind_groups.len() {
            return false;
        }
        let ghost names = self.bind_group_names();
        let mut k: usize = 0;
        while k < indices.len()
            invariant
                k <= indices.len(),
                names == self.bind_group_names(),
                node.shader.bg_layouts@.len() == node.bind_groups@.len(),
                resolves(names, names_of(node.bind_groups@), indices@),
                forall|m: int|
                    0 <= m < k ==> self.bind_groups@[slot(
                        names,
                        #[trigger] node.bind_groups@[m]@,
                    )].layout@ == node.shader.bg_layouts@[m]@,
            decreases indices.len() - k,
        {
            proof {
                let name = names_of(node.bind_groups@)[k as int];
                assert(name == node.bind_groups@[k as int]@);
                assert(position(names, name) == Some(indices@[k as int] as int));
                lemma_position_sound(names, name);
            }
            if !self.bind_groups[indices[k]].layout.matches(&node.shader.bg_layouts[k]) {
                return false;
            }
            k += 1;
        }
        true
    }

    /// Whether each target of the pass is a render target and its depth
    /// texture a depth attachment, given that their labels are known.
    pub(crate) fn attachments_match(
        &self,
        node: &ScheduledShaderNodeDescription,
        targets: &Option<Vec<usize>>,
        depth: Option<usize>,
    ) -> (declared: bool)
        requires
            match node.targets {
                Some(ts) => targets matches Some(indices) && resolves(
                    self.texture_names(),
                    names_of(ts@),
                    indices@,
                ),
                None => targets is None,
            },
            match node.depth {
                Some(d) => depth matches Some(t) && position(self.texture_names(), d@) == Some(
                    t as int,
                ),
                None => depth is None,
            },
        ensures
            declared == self.attachments_declared(*node),
    {
        let ghost names = self.texture_names();
        if let Some(indices) = targets {
            let ghost ts = node.targets->Some_0;
            let mut k: usize = 0;
            while k < indices.len()
                invariant
                    k <= indices.len(),
                    names == self.texture_names(),
                    node.targets == Some(ts),
                    resolves(names, names_of(ts@), indices@),
                    forall|m: int|
                        0 <= m < k ==> {
                            &&& position(names, #[trigger] ts@[m]@).is_some()
                            &&& self.textures@[slot(names, ts@[m]@)].kind is RenderTarget
                        },
                decreases indices.len() - k,
            {
                proof {
                    let name = names_of(ts@)[k as int];
                    assert(name == ts@[k as int]@);
                    assert(position(names, name) == Some(indices@[k as int] as int));
                    lemma_position_sound(names, name);
                }
                match self.textures[indices[k]].kind {
                    crate::descriptor::TextureKind::RenderTarget => {},
                    _ => {
                        return false;
                    },
                }
                k += 1;
            }
        }
        if let Some(t) = depth {
            proof {
                lemma_position_sound(names, node.depth->Some_0@);
            }
            match self.textures[t].kind {
                crate::descriptor::TextureKind::DepthAttachment => {},
                _ => {
                    return false;
                },
            }
        }
        true
    }

    /// Whether the shader's outputs have the formats of what the pass renders
    /// into, given that its attachments are known.
    pub(crate) fn formats_match(
        &self,
        node: &ScheduledShaderNodeDescription,
        surface: &SurfaceContext,
        targets: &Option<Vec<usize>>,
        depth: Option<usize>,
    ) -> (agree: bool)
        requires
            match node.targets {
                Some(ts) => targets matches Some(indices) && resolves(
                    self.texture_names(),
                    names_of(ts@),
                    indices@,
                ),
                None => targets is None,
            },
            match node.depth {
                Some(d) => depth matches Some(t) && position(self.texture_names(), d@) == Some(
                    t as int,
                ),
                None => depth is None,
            },
        ensures
            agree == self.formats_agree(*node, *surface),
    {
        let ghost names = self.texture_names();
        match targets {
            Some(indices) => {
                let ghost ts = node.targets->Some_0;
                if node.shader.targets.len() != indices.len() {
                    return false;
                }
                let mut k: usize = 0;
                while k < indices.len()
                    invariant
                        k <= indices.len(),
                        names == self.texture_names(),
                        node.targets == Some(ts),
                        node.shader.targets@.len() == indices@.len(),
                        resolves(names, names_of(ts@), indices@),
                        forall|m: int|
                            0 <= m < k ==> self.textures@[slot(names, #[trigger] ts@[m]@)].format
                                == node.shader.targets@[m].format,
                    decreases indices.len() - k,
                {
                    proof {
                        let name = names_of(ts@)[k as int];
                        assert(name == ts@[k as int]@);
                        assert(position(names, name) == Some(indices@[k as int] as int));
                        lemma_position_sound(names, name);
                    }
                    if self.textures[indices[k]].format != node.shader.targets[k].format {
                        return false;
                    }
                    k += 1;
                }
            },
            None => {
                if node.shader.targets.len() != 1 {
                    return false;
                }
                if node.shader.targets[0].format != surface.format {
                    return false;
                }
            },
        }
        match depth {
            Some(t) => {
                proof {
                    lemma_position_sound(names, node.depth->Some_0@);
                }
                match node.shader.depth_stencil {
                    Some(state) => state.format == self.textures[t].format,
                    None => false,
                }
            },
            None => node.shader.depth_stencil.is_none(),
        }
    }

    /// Whether each attachment that pass `i` samples has been written by an
    /// earlier pass.
    pub(crate) fn reads_ready(
        &self,
        i: usize,
        indices: &Vec<usize>,
        sources: &Vec<Option<usize>>,
        written: &Vec<bool>,
    ) -> (ready: bool)
        requires
            i < self.shader_nodes@.len(),
            resolves(
                self.bind_group_names(),
                names_of(self.shader_nodes@[i as int].bind_groups@),
                indices@,
            ),
            self.sources_resolve(sources@),
            self.written_tracks(i as int, written@),
        ensures
            ready == self.reads_follow_writes(i as int),
    {
        let ghost node = self.shader_nodes@[i as int];
        let ghost names = self.bind_group_names();
        let ghost textures = self.texture_names();
        let mut k: usize = 0;
        while k < indices.len()
            invariant
                k <= indices.len(),
                i < self.shader_nodes@.len(),
                node == self.shader_nodes@[i as int],
                names == self.bind_group_names(),
                textures == self.texture_names(),
                resolves(names, names_of(node.bind_groups@), indices@),
                self.sources_resolve(sources@),
                self.written_tracks(i as int, written@),
                forall|m: int|
                    0 <= m < k ==> (self.bind_groups@[slot(
                        names,
                        #[trigger] node.bind_groups@[m]@,
                    )].declared_texture() matches Some(name) ==> (self.textures@[slot(
                        textures,
                        name,
                    )].kind.is_attachment() ==> self.written_before(i as int, name))),
            decreases indices.len() - k,
        {
            proof {
                let name = names_of(node.bind_groups@)[k as int];
                assert(name == node.bind_groups@[k as int]@);
                assert(position(names, name) == Some(indices@[k as int] as int));
                lemma_position_sound(names, name);
            }
            let g = indices[k];
            assert(g as int == slot(names, node.bind_groups@[k as int]@));
            if let Some(t) = sources[g] {
                proof {
                    let name = self.bind_groups@[g as int].declared_texture()->Some_0;
                    assert(position(textures, name) == Some(t as int));
                    lemma_position_sound(textures, name);
                    assert(textures[t as int] == name);
                    assert(written@[t as int] == self.written_before(i as int, name));
                }
                if self.textures[t].kind.attachment() && !written[t] {
                    return false;
                }
            } else {
                assert(self.bind_groups@[g as int].declared_texture() is None);
            }
            k += 1;
        }
        true
    }

    /// Resolves pass `i`, or says what is wrong with it.
    pub(crate) fn compile_node(
        &self,
        surface: &SurfaceContext,
        i: usize,
        buffer_labels: &Vec<ShaderLabel>,
        bind_group_labels: &Vec<ShaderLabel>,
        texture_labels: &Vec<ShaderLabel>,
        sources: &Vec<Option<usize>>,
        written: &Vec<bool>,
    ) -> (outcome: Result<CompiledPass, PipelineError>)
        requires
            i < self.shader_nodes@.len(),
            names_of(buffer_labels@) == self.buffer_names(),
            names_of(bind_group_labels@) == self.bind_group_names(),
            names_of(texture_labels@) == self.texture_names(),
            self.sources_resolve(sources@),
            self.written_tracks(i as int, written@),
        ensures
            match outcome {
                Ok(pass) => self.node_fault(*surface, i as int) is None && self.pass_resolves(
                    i as int,
                    pass,
                ),
                Err(e) => self.node_fault(*surface, i as int) == Some(e),
            },
    {
        let node = &self.shader_nodes[i];
        let buffer_group = match find_label(buffer_labels, &node.buffer_group) {
            Some(b) => b,
            None => {
                return Err(PipelineError::UnknownLabel(Namespace::BufferGroup));
            },
        };
        let bind_groups = match resolve_all(bind_group_labels, &node.bind_groups) {
            Some(indices) => indices,
            None => {
                return Err(PipelineError::UnknownLabel(Namespace::BindGroup));
            },
        };
        proof {
            let wanted = names_of(node.bind_groups@);
            assert forall|k: int| 0 <= k < wanted.len() implies position(
                self.bind_group_names(),
                #[trigger] wanted[k],
            ).is_some() by {
                assert(position(self.bind_group_names(), wanted[k]) == Some(
                    bind_groups@[k] as int,
                ));
            }
        }
        if !self.layouts_match(node, &bind_groups) {
            return Err(PipelineError::LayoutMismatch);
        }
        let targets = match &node.targets {
            Some(ts) => {
                match resolve_all(texture_labels, ts) {
                    Some(indices) => Some(indices),
                    None => {
                        proof {
                            let wanted = names_of(ts@);
                            let k = choose|k: int|
                                0 <= k < wanted.len() && !position(
                                    self.texture_names(),
                                    #[trigger] wanted[k],
                                ).is_some();
                            assert(wanted[k] == ts@[k]@);
                        }
                        return Err(PipelineError::UnknownLabel(Namespace::Texture));
                    },
                }
            },
            None => None,
        };
        let depth = match &node.depth {
            Some(d) => {
                match find_label(texture_labels, d) {
                    Some(t) => Some(t),
                    None => {
                        return Err(PipelineError::UnknownLabel(Namespace::Texture));
                    },
                }
            },
            None => None,
        };
        if !self.attachments_match(node, &targets, depth) {
            return Err(PipelineError::UnknownLabel(Namespace::Texture));
        }
        if !self.formats_match(node, surface, &targets, depth) {
            return Err(PipelineError::FormatMismatch);
        }
        if !self.reads_ready(i, &bind_groups, sources, written) {
            return Err(PipelineError::ReadBeforeWrite);
        }
        Ok(CompiledPass { buffer_group, bind_groups, targets, depth })
    }
}

} // verus!
