use vstd::prelude::*;
use wgpu::TextureFormat;

use crate::render::shader::{ShaderFragmentName, ShaderVertexName};

verus! {

/// The render pipelines the renderer can build.
#[derive(Clone, Copy, Debug, PartialEq, Eq, Hash, Structural)]
pub enum PipelineName {
    Pipeline1,
}

impl PipelineName {
    /// The pipeline's name as written in the source: the debug label of the
    /// pipeline.
    pub fn label(&self) -> (name: String)
        ensures
            name@ == "Pipeline1"@,
    {
        match self {
            PipelineName::Pipeline1 => "Pipeline1".to_owned(),
        }
    }
}

/// How vertices are assembled into primitives.
#[derive(Clone, Copy, Debug, PartialEq, Eq, Structural)]
pub enum PrimitiveTopology {
    /// Every three indices make one triangle.
    TriangleList,
}

/// Which winding faces the viewer.
#[derive(Clone, Copy, Debug, PartialEq, Eq, Structural)]
pub enum FrontFace {
    /// Counter-clockwise triangles face the viewer.
    Ccw,
}

/// How triangles are rasterised.
#[derive(Clone, Copy, Debug, PartialEq, Eq, Structural)]
pub enum PolygonMode {
    /// Triangles are filled.
    Fill,
}

/// How a drawn colour or alpha value combines with what the target holds.
#[derive(Clone, Copy, Debug, PartialEq, Eq, Structural)]
pub enum BlendComponent {
    /// The drawn value replaces the stored one.
    Replace,
}

/// Which colour channels a pipeline writes.
#[derive(Clone, Copy, Debug, PartialEq, Eq, Structural)]
pub enum ColorWrites {
    /// Red, green, blue and alpha.
    All,
}

/// The index format of a strip topology's restart value.
#[derive(Clone, Copy, Debug, PartialEq, Eq, Structural)]
pub enum IndexFormat {
    Uint16,
    Uint32,
}

/// The fixed state of a scene render pipeline: its debug label; a layout
/// (with its own label) that binds no groups and no push constants; the
/// vertex and fragment shaders with their entry points and the single vertex
/// buffer; how triangles are assembled and filled; how colours are written
/// into a target of `target_format`; sampling; and the options that stay
/// off (depth test, multiview, pipeline cache).
pub struct PipelineSettings {
    pub label: String,
    pub layout_label: String,
    pub bind_group_layout_count: usize,
    pub push_constant_range_count: usize,
    pub vertex_shader: ShaderVertexName,
    pub vertex_entry_point: String,
    pub vertex_buffer_count: usize,
    pub fragment_shader: ShaderFragmentName,
    pub fragment_entry_point: String,
    pub target_format: TextureFormat,
    pub topology: PrimitiveTopology,
    pub strip_index_format: Option<IndexFormat>,
    pub front_face: FrontFace,
    pub cull_back_faces: bool,
    pub unclipped_depth: bool,
    pub polygon_mode: PolygonMode,
    pub conservative_rasterization: bool,
    pub color_blend: BlendComponent,
    pub alpha_blend: BlendComponent,
    pub write_mask: ColorWrites,
    pub depth_test: bool,
    pub sample_count: u32,
    pub sample_mask: u64,
    pub alpha_to_coverage_enabled: bool,
    pub multiview_layers: Option<u32>,
    pub uses_pipeline_cache: bool,
}

/// Every setting of a scene pipeline except its label: the fixed state that
/// each pipeline drawing the scene into a `target_format` target has.
pub open spec fn scene_pipeline_state(settings: PipelineSettings, target_format: TextureFormat) -> bool {
    &&& settings.layout_label@ == "Render Pipeline Layout"@
    &&& settings.bind_group_layout_count == 0
    &&& settings.push_constant_range_count == 0
    &&& settings.vertex_shader == ShaderVertexName::Vertex1
    &&& settings.vertex_entry_point@ == "main"@
    &&& settings.vertex_buffer_count == 1
    &&& settings.fragment_shader == ShaderFragmentName::Fragment1
    &&& settings.fragment_entry_point@ == "main"@
    &&& settings.target_format == target_format
    &&& settings.topology == PrimitiveTopology::TriangleList
    &&& settings.strip_index_format is None
    &&& settings.front_face == FrontFace::Ccw
    &&& !settings.cull_back_faces
    &&& !settings.unclipped_depth
    &&& settings.polygon_mode == PolygonMode::Fill
    &&& !settings.conservative_rasterization
    &&& settings.color_blend == BlendComponent::Replace
    &&& settings.alpha_blend == BlendComponent::Replace
    &&& settings.write_mask == ColorWrites::All
    &&& !settings.depth_test
    &&& settings.sample_count == 1
    &&& settings.sample_mask == u64::MAX
    &&& !settings.alpha_to_coverage_enabled
    &&& settings.multiview_layers is None
    &&& !settings.uses_pipeline_cache
}

/// The settings of a scene pipeline labelled `label` that draws into targets
/// of `target_format`.
pub fn pipeline_settings(target_format: &TextureFormat, label: &str) -> (settings: PipelineSettings)
    ensures
        settings.label@ == label@,
        scene_pipeline_state(settings, *target_format),
{
    PipelineSettings {
        label: label.to_owned(),
        layout_label: "Render Pipeline Layout".to_owned(),
        bind_group_layout_count: 0,
        push_constant_range_count: 0,
        vertex_shader: ShaderVertexName::Vertex1,
        vertex_entry_point: "main".to_owned(),
        vertex_buffer_count: 1,
        fragment_shader: ShaderFragmentName::Fragment1,
        fragment_entry_point: "main".to_owned(),
        target_format: *target_format,
        topology: PrimitiveTopology::TriangleList,
        strip_index_format: None,
        front_face: FrontFace::Ccw,
        cull_back_faces: false,
        unclipped_depth: false,
        polygon_mode: PolygonMode::Fill,
        conservative_rasterization: false,
        color_blend: BlendComponent::Replace,
        alpha_blend: BlendComponent::Replace,
        write_mask: ColorWrites::All,
        depth_test: false,
        sample_count: 1,
        sample_mask: u64::MAX,
        alpha_to_coverage_enabled: false,
        multiview_layers: None,
        uses_pipeline_cache: false,
    }
}

/// Two scene pipelines, whatever their labels and target formats, agree on
/// every setting but those two: the target format is the one each was built
/// for, and nothing else depends on it.
pub proof fn lemma_scene_pipelines_agree(
    a: PipelineSettings,
    b: PipelineSettings,
    format_a: TextureFormat,
    format_b: TextureFormat,
)
    requires
        scene_pipeline_state(a, format_a),
        scene_pipeline_state(b, format_b),
    ensures
        a.target_format == format_a,
        b.target_format == format_b,
        format_a == format_b ==> a.target_format == b.target_format,
        a.layout_label@ == b.layout_label@,
        a.bind_group_layout_count == b.bind_group_layout_count,
        a.push_constant_range_count == b.push_constant_range_count,
        a.vertex_shader == b.vertex_shader,
        a.vertex_entry_point@ == b.vertex_entry_point@,
        a.vertex_buffer_count == b.vertex_buffer_count,
        a.fragment_shader == b.fragment_shader,
        a.fragment_entry_point@ == b.fragment_entry_point@,
        a.topology == b.topology,
        a.strip_index_format == b.strip_index_format,
        a.front_face == b.front_face,
        a.cull_back_faces == b.cull_back_faces,
        a.unclipped_depth == b.unclipped_depth,
        a.polygon_mode == b.polygon_mode,
        a.conservative_rasterization == b.conservative_rasterization,
        a.color_blend == b.color_blend,
        a.alpha_blend == b.alpha_blend,
        a.write_mask == b.write_mask,
        a.depth_test == b.depth_test,
        a.sample_count == b.sample_count,
        a.sample_mask == b.sample_mask,
        a.alpha_to_coverage_enabled == b.alpha_to_coverage_enabled,
        a.multiview_layers == b.multiview_layers,
        a.uses_pipeline_cache == b.uses_pipeline_cache,
{
}

/// A scene pipeline, for every target format, draws something: it samples
/// at least once, every one of the 64 sample-mask bits is set so no sample
/// is masked out, it writes every colour channel, it culls no face, and no
/// depth test can discard a fragment.
pub proof fn lemma_scene_pipeline_draws(settings: PipelineSettings, target_format: TextureFormat)
    requires
        scene_pipeline_state(settings, target_format),
    ensures
        settings.sample_count >= 1,
        forall|bit: u64| bit < 64 ==> #[trigger] ((settings.sample_mask >> bit) & 1u64) == 1u64,
        settings.write_mask == ColorWrites::All,
        !settings.cull_back_faces,
        !settings.depth_test,
{
    let mask = settings.sample_mask;
    assert forall|bit: u64| bit < 64 implies #[trigger] ((mask >> bit) & 1u64) == 1u64 by {
        assert(mask == u64::MAX);
        assert(bit < 64 && mask == 0xffff_ffff_ffff_ffffu64 ==> ((mask >> bit) & 1u64) == 1u64) by (bit_vector);
    }
}

/// Named entries, each name at most once when well formed.
struct Entries<P> {
    entries: Vec<(PipelineName, P)>,
}

impl<P> Entries<P> {
    /// No name is stored twice.
    closed spec fn well_formed(&self) -> bool {
        forall|i: int, j: int|
            0 <= i < j < self.entries@.len() ==> (#[trigger] self.entries@[i]).0 != (#[trigger] self.entries@[j]).0
    }

    spec fn has_at(&self, key: PipelineName, i: int) -> bool {
        0 <= i < self.entries@.len() && self.entries@[i].0 == key
    }

    /// The cached pipelines by name.
    closed spec fn contents(&self) -> Map<PipelineName, P> {
        Map::new(
            |k: PipelineName| exists|i: int| self.has_at(k, i),
            |k: PipelineName| self.entries@[choose|i: int| self.has_at(k, i)].1,
        )
    }

    proof fn lemma_lookup(&self, key: PipelineName, i: int)
        requires
            self.well_formed(),
            self.has_at(key, i),
        ensures
            self.contents().contains_key(key),
            self.contents()[key] == self.entries@[i].1,
    {
        let j = choose|j: int| self.has_at(key, j);
        assert(self.has_at(key, j));
        if j < i {
            assert(self.entries@[j].0 != self.entries@[i].0);
        } else if i < j {
            assert(self.entries@[i].0 != self.entries@[j].0);
        }
    }

    /// An empty cache.
    fn new() -> (cache: Entries<P>)
        ensures
            cache.well_formed(),
            cache.contents() == Map::<PipelineName, P>::empty(),
    {
        let cache = Entries { entries: Vec::new() };
        assert(cache.contents() =~= Map::<PipelineName, P>::empty());
        cache
    }

    fn find(&self, key: &PipelineName) -> (found: Option<usize>)
        ensures
            match found {
                Some(i) => self.has_at(*key, i as int),
                None => forall|i: int| !self.has_at(*key, i),
            },
    {
        let mut i: usize = 0;
        while i < self.entries.len()
            invariant
                i <= self.entries@.len(),
                forall|j: int| 0 <= j < i ==> !self.has_at(*key, j),
            decreases self.entries@.len() - i,
        {
            if self.entries[i].0 == *key {
                return Some(i);
            }
            i = i + 1;
        }
        None
    }

    /// Whether a pipeline of this name has been built.
    fn contains_key(&self, key: &PipelineName) -> (found: bool)
        requires
            self.well_formed(),
        ensures
            found == self.contents().contains_key(*key),
    {
        match self.find(key) {
            Some(i) => {
                proof { self.lemma_lookup(*key, i as int); }
                true
            },
            None => false,
        }
    }

    /// The pipeline built under this name, if any.
    fn get(&self, key: &PipelineName) -> (pipeline: Option<&P>)
        requires
            self.well_formed(),
        ensures
            match pipeline {
                Some(p) => self.contents().contains_key(*key) && *p == self.contents()[*key],
                None => !self.contents().contains_key(*key),
            },
    {
        match self.find(key) {
            Some(i) => {
                proof { self.lemma_lookup(*key, i as int); }
                Some(&self.entries[i].1)
            },
            None => None,
        }
    }

    /// Stores `pipeline` under `key`, replacing what was stored there.
    fn insert(&mut self, key: PipelineName, pipeline: P)
        requires
            old(self).well_formed(),
        ensures
            final(self).well_formed(),
            final(self).contents() == old(self).contents().insert(key, pipeline),
    {
        let ghost before = self.contents();
        let ghost old_self = *self;
        match self.find(&key) {
            Some(i) => {
                let ghost old_entries = self.entries@;
                self.entries.set(i, (key, pipeline));
                proof {
                    assert(self.well_formed()) by {
                        assert forall|a: int, b: int| 0 <= a < b < self.entries@.len() implies
                            (#[trigger] self.entries@[a]).0 != (#[trigger] self.entries@[b]).0 by {
                            assert(old_entries[a].0 == self.entries@[a].0);
                            assert(old_entries[b].0 == self.entries@[b].0);
                        }
                    }
                    assert forall|k: PipelineName| #![auto] self.contents().contains_key(k) == before.insert(key, pipeline).contains_key(k) by {
                        if exists|j: int| self.has_at(k, j) {
                            let j = choose|j: int| self.has_at(k, j);
                            assert(old_entries[j].0 == k);
                        }
                        if before.contains_key(k) {
                            let j = choose|j: int| 0 <= j < old_entries.len() && old_entries[j].0 == k;
                            assert(self.has_at(k, j));
                        }
                        if k == key {
                            assert(self.has_at(k, i as int));
                        }
                    }
                    assert forall|k: PipelineName| #[trigger] self.contents().contains_key(k) implies
                        self.contents()[k] == before.insert(key, pipeline)[k] by {
                        let j = choose|j: int| self.has_at(k, j);
                        self.lemma_lookup(k, j);
                        if k != key {
                            assert(old_entries[j].0 == k);
                        }
                    }
                    assert(self.contents() =~= before.insert(key, pipeline));
                }
            },
            None => {
                let ghost old_entries = self.entries@;
                self.entries.push((key, pipeline));
                proof {
                    let n = old_entries.len() as int;
                    assert(self.entries@[n].0 == key);
                    assert(self.well_formed()) by {
                        assert forall|a: int, b: int| 0 <= a < b < self.entries@.len() implies
                            (#[trigger] self.entries@[a]).0 != (#[trigger] self.entries@[b]).0 by {
                            if b == n {
                                assert(!old_self.has_at(key, a));
                            } else {
                                assert(old_entries[a].0 == self.entries@[a].0);
                                assert(old_entries[b].0 == self.entries@[b].0);
                            }
                        }
                    }
                    assert forall|k: PipelineName| #![auto] self.contents().contains_key(k) == before.insert(key, pipeline).contains_key(k) by {
                        if exists|j: int| self.has_at(k, j) {
                            let j = choose|j: int| self.has_at(k, j);
                            if j < n {
                                assert(old_entries[j].0 == k);
                            }
                        }
                        if before.contains_key(k) {
                            let j = choose|j: int| 0 <= j < old_entries.len() && old_entries[j].0 == k;
                            assert(self.has_at(k, j));
                        }
                        if k == key {
                            assert(self.has_at(k, n));
                        }
                    }
                    assert forall|k: PipelineName| #[trigger] self.contents().contains_key(k) implies
                        self.contents()[k] == before.insert(key, pipeline)[k] by {
                        let j = choose|j: int| self.has_at(k, j);
                        self.lemma_lookup(k, j);
                        if j < n {
                            assert(old_entries[j].0 == k);
                            old_self.lemma_lookup(k, j);
                        }
                    }
                    assert(self.contents() =~= before.insert(key, pipeline));
                }
            },
        }
    }
}

/// Pipelines built so far, by name, so that each is built once and then
/// shared. Its contents are a map from names to pipelines.
pub struct PipelineCache<P> {
    entries: Entries<P>,
}

impl<P> PipelineCache<P> {
    #[verifier::type_invariant]
    spec fn names_unique(&self) -> bool {
        self.entries.well_formed()
    }

    /// The cached pipelines by name.
    pub closed spec fn contents(&self) -> Map<PipelineName, P> {
        self.entries.contents()
    }

    /// An empty cache.
    pub fn new() -> (cache: PipelineCache<P>)
        ensures
            cache@ == Map::<PipelineName, P>::empty(),
    {
        PipelineCache { entries: Entries::new() }
    }

    /// Whether a pipeline of this name has been built.
    pub fn contains_key(&self, key: &PipelineName) -> (found: bool)
        ensures
            found == self@.contains_key(*key),
    {
        proof { use_type_invariant(self); }
        self.entries.contains_key(key)
    }

    /// The pipeline built under this name, if any.
    pub fn get(&self, key: &PipelineName) -> (pipeline: Option<&P>)
        ensures
            match pipeline {
                Some(p) => self@.contains_key(*key) && *p == self@[*key],
                None => !self@.contains_key(*key),
            },
    {
        proof { use_type_invariant(self); }
        self.entries.get(key)
    }

    /// Stores `pipeline` under `key`, replacing what was stored there.
    pub fn insert(&mut self, key: PipelineName, pipeline: P)
        ensures
            final(self)@ == old(self)@.insert(key, pipeline),
    {
        proof { use_type_invariant(&*self); }
        let mut entries = Entries::new();
        std::mem::swap(&mut entries, &mut self.entries);
        entries.insert(key, pipeline);
        self.entries = entries;
    }
}

impl<P: Clone> PipelineCache<P> {
    /// The pipeline stored under `key`; when the name has none yet, `create`
    /// builds it and it is stored first. Its precondition is asked for only
    /// when the name is absent, so the contract lets `create` run in that
    /// case alone: a stored pipeline is never built again.
    pub fn get_or_insert_with<F: FnOnce() -> P>(&mut self, key: PipelineName, create: F) -> (pipeline: P)
        requires
            !old(self)@.contains_key(key) ==> create.requires(()),
        ensures
            old(self)@.contains_key(key) ==> final(self)@ == old(self)@,
            !old(self)@.contains_key(key) ==> exists|built: P|
                #[trigger] create.ensures((), built) && final(self)@ == old(self)@.insert(key, built),
            final(self)@.contains_key(key),
            cloned(final(self)@[key], pipeline),
    {
        if self.contains_key(&key) {
            self.get(&key).unwrap().clone()
        } else {
            let built = create();
            let pipeline = built.clone();
            self.insert(key, built);
            pipeline
        }
    }
}

impl<P> View for PipelineCache<P> {
    type V = Map<PipelineName, P>;

    open spec fn view(&self) -> Map<PipelineName, P> {
        self.contents()
    }
}

} // verus!
