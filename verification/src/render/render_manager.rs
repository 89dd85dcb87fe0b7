use std::ops::Range;
use vstd::prelude::*;

use crate::model::{redraw_needed, visibility_after, Face, Model};
use crate::render::queue::{queue_plan, DrawBase, PassPlan};
use crate::render_queue_builder::ScreenColor;

verus! {

/// One indexed draw call: the indices in `indices_range` of the merged index
/// buffer, each offset by `base_vertex` into the merged vertex buffer.
pub struct DrawIndexedInfo {
    pub base_vertex: i32,
    pub indices_range: Range<u32>,
}

impl DrawIndexedInfo {
    pub fn new(base_vertex: i32, indices_range: Range<u32>) -> (info: DrawIndexedInfo)
        ensures
            info.base_vertex == base_vertex,
            info.indices_range == indices_range,
    {
        DrawIndexedInfo { base_vertex, indices_range }
    }
}

/// Everything a frame uploads and draws for a model: one vertex buffer, one
/// index buffer, the instances to draw and one draw call per face.
pub struct RenderData<V> {
    pub vertices: Vec<V>,
    pub indices: Vec<u16>,
    pub instances: Range<u32>,
    pub draw_info: Vec<DrawIndexedInfo>,
}

/// Whether `data` is what `RenderData::build` makes of the first two faces
/// `f0` and `f1`: their vertices and indices appended in order, a single
/// instance, and two draws, the second one offset past the first face's
/// vertices and indices. Counts are narrowed to the draw-call integer types
/// exactly as the casts do.
pub open spec fn merged_from<V>(data: RenderData<V>, f0: Face<V>, f1: Face<V>) -> bool {
    &&& data.vertices@ == f0.vertices@ + f1.vertices@
    &&& data.indices@ == f0.indices@ + f1.indices@
    &&& data.instances.start == 0u32
    &&& data.instances.end == 1u32
    &&& data.draw_info@.len() == 2
    &&& data.draw_info@[0].base_vertex == 0i32
    &&& data.draw_info@[0].indices_range.start == 0u32
    &&& data.draw_info@[0].indices_range.end == f0.indices@.len() as u32
    &&& data.draw_info@[1].base_vertex == f0.vertices@.len() as i32
    &&& data.draw_info@[1].indices_range.start == f0.indices@.len() as u32
    &&& data.draw_info@[1].indices_range.end == data.indices@.len() as u32
}

/// `data` was built from `model`, which draws its first two faces.
pub open spec fn built_from<V, C>(data: RenderData<V>, model: Model<V, C>) -> bool {
    &&& model.faces@.len() >= 2
    &&& merged_from(data, model.faces@[0], model.faces@[1])
}

/// Appends copies of `a` and then of `b` into a new vector.
fn concat_copied<T: Copy>(a: &Vec<T>, b: &Vec<T>) -> (out: Vec<T>)
    requires
        a@.len() + b@.len() <= usize::MAX,
    ensures
        out@ == a@ + b@,
{
    let mut out: Vec<T> = Vec::new();
    let mut i: usize = 0;
    while i < a.len()
        invariant
            i <= a@.len(),
            out@ == a@.subrange(0, i as int),
        decreases a@.len() - i,
    {
        out.push(a[i]);
        i = i + 1;
    }
    let mut j: usize = 0;
    while j < b.len()
        invariant
            j <= b@.len(),
            out@ == a@ + b@.subrange(0, j as int),
        decreases b@.len() - j,
    {
        out.push(b[j]);
        j = j + 1;
    }
    out
}

impl<V: Copy> RenderData<V> {
    /// Merges the first two faces of `model` into one vertex buffer and one
    /// index buffer, with a draw call per face. The second face's indices are
    /// kept as they are; its draw call starts at the first face's vertex count.
    pub fn build<C>(model: &Model<V, C>) -> (data: RenderData<V>)
        requires
            model.faces@.len() >= 2,
            model.faces@[0].vertices@.len() + model.faces@[1].vertices@.len() <= usize::MAX,
            model.faces@[0].indices@.len() + model.faces@[1].indices@.len() <= usize::MAX,
        ensures
            built_from(data, *model),
    {
        let faces = &model.faces;
        let vertices1 = &faces[0].vertices;
        let indices1 = &faces[0].indices;

        let vertices2 = &faces[1].vertices;
        let indices2 = &faces[1].indices;

        let vertices = concat_copied(vertices1, vertices2);
        let indices = concat_copied(indices1, indices2);

        let num_indices1 = indices1.len() as u32;
        let num_vertices1 = vertices1.len() as i32;
        let num_indices = indices.len() as u32;

        let mut draw_info: Vec<DrawIndexedInfo> = Vec::new();
        draw_info.push(DrawIndexedInfo::new(0, 0..num_indices1));
        draw_info.push(DrawIndexedInfo::new(num_vertices1, num_indices1..num_indices));

        let instances = 0..1;

        RenderData { vertices, indices, draw_info, instances }
    }
}

/// What building a model gives, element by element: the merged vertex
/// buffer is the first face's vertices followed by the second's, the merged
/// index buffer likewise, there is one draw per face, and exactly one
/// instance is drawn (instances `0..1`) whatever the faces hold, so each draw
/// call draws something.
pub proof fn lemma_build_merges_faces<V, C>(data: RenderData<V>, model: Model<V, C>)
    requires
        built_from(data, model),
    ensures
        data.vertices@.len() == model.faces@[0].vertices@.len() + model.faces@[1].vertices@.len(),
        forall|i: int| 0 <= i < model.faces@[0].vertices@.len() ==>
            #[trigger] data.vertices@[i] == model.faces@[0].vertices@[i],
        forall|j: int| 0 <= j < model.faces@[1].vertices@.len() ==>
            data.vertices@[model.faces@[0].vertices@.len() + j] == #[trigger] model.faces@[1].vertices@[j],
        data.indices@.len() == model.faces@[0].indices@.len() + model.faces@[1].indices@.len(),
        forall|i: int| 0 <= i < model.faces@[0].indices@.len() ==>
            #[trigger] data.indices@[i] == model.faces@[0].indices@[i],
        forall|j: int| 0 <= j < model.faces@[1].indices@.len() ==>
            data.indices@[model.faces@[0].indices@.len() + j] == #[trigger] model.faces@[1].indices@[j],
        data.draw_info@.len() == 2,
        data.instances.start == 0,
        data.instances.end == 1,
        data.instances.start < data.instances.end,
{
}

/// Two builds draw the same instances, whatever their models' faces: the
/// instance range does not depend on vertex or index counts.
pub proof fn lemma_build_instances_fixed<V, C>(
    a: RenderData<V>,
    model_a: Model<V, C>,
    b: RenderData<V>,
    model_b: Model<V, C>,
)
    requires
        built_from(a, model_a),
        built_from(b, model_b),
    ensures
        a.instances == b.instances,
        a.instances.end - a.instances.start == 1,
{
}

/// The vertex that slot `k` of the index buffer selects in draw `d`: the
/// index stored there, offset by the draw's base vertex.
pub open spec fn drawn_vertex_index<V>(data: RenderData<V>, d: int, k: int) -> int {
    data.draw_info@[d].base_vertex + data.indices@[k]
}

/// When the merged counts fit the draw-call integer types, the two draws
/// cover the merged index buffer once, in order, each over as many indices
/// as its face has.
pub proof fn lemma_draws_partition_indices<V, C>(data: RenderData<V>, model: Model<V, C>)
    requires
        built_from(data, model),
        data.indices@.len() <= u32::MAX,
    ensures
        data.draw_info@[0].indices_range.start == 0,
        data.draw_info@[0].indices_range.end == data.draw_info@[1].indices_range.start,
        data.draw_info@[1].indices_range.end == data.indices@.len(),
        data.draw_info@[0].indices_range.end - data.draw_info@[0].indices_range.start
            == model.faces@[0].indices@.len(),
        data.draw_info@[1].indices_range.end - data.draw_info@[1].indices_range.start
            == model.faces@[1].indices@.len(),
{
}

/// Drawing the merged buffers draws exactly the two faces: when both faces
/// are well formed and the merged counts fit the draw-call integer types,
/// every index slot of each draw selects a vertex inside the merged vertex
/// buffer, and that vertex is the one the face's own index names.
pub proof fn lemma_draws_reproduce_faces<V, C>(data: RenderData<V>, model: Model<V, C>)
    requires
        built_from(data, model),
        model.faces@[0].well_formed(),
        model.faces@[1].well_formed(),
        data.indices@.len() <= u32::MAX,
        data.vertices@.len() <= i32::MAX,
    ensures
        forall|d: int, k: int|
            0 <= d < 2 && data.draw_info@[d].indices_range.start <= k < data.draw_info@[d].indices_range.end
                ==> {
                    let face = model.faces@[d];
                    let local = k - data.draw_info@[d].indices_range.start;
                    &&& 0 <= #[trigger] drawn_vertex_index(data, d, k) < data.vertices@.len()
                    &&& data.vertices@[drawn_vertex_index(data, d, k)] == face.vertices@[face.indices@[local] as int]
                },
{
    let f0 = model.faces@[0];
    let f1 = model.faces@[1];
    let n0 = f0.indices@.len();
    let v0 = f0.vertices@.len();
    assert forall|d: int, k: int|
        0 <= d < 2 && data.draw_info@[d].indices_range.start <= k < data.draw_info@[d].indices_range.end
        implies {
            let face = model.faces@[d];
            let local = k - data.draw_info@[d].indices_range.start;
            &&& 0 <= #[trigger] drawn_vertex_index(data, d, k) < data.vertices@.len()
            &&& data.vertices@[drawn_vertex_index(data, d, k)] == face.vertices@[face.indices@[local] as int]
        } by {
        if d == 0 {
            assert(data.indices@[k] == f0.indices@[k]);
            assert(f0.indices@[k] < v0);
        } else {
            let local = k - n0;
            assert(data.indices@[k] == f1.indices@[local]);
            assert(f1.indices@[local] < f1.vertices@.len());
            assert(data.vertices@[v0 + f1.indices@[local]] == f1.vertices@[f1.indices@[local] as int]);
        }
    }
}

/// The pass a frame's command buffers record: the model, drawn over what the
/// target holds, when there is one and it is visible; otherwise a screen
/// cleared to black.
pub open spec fn command_plan<V, C>(model: Option<Model<V, C>>) -> PassPlan {
    match model {
        Some(m) => if m.visible { PassPlan::DrawModel(DrawBase::KeepTarget) } else { PassPlan::Clear(ScreenColor::Black) },
        None => PassPlan::Clear(ScreenColor::Black),
    }
}

/// Chooses what the frame's command buffers hold for `model`.
pub fn create_command_buffers<V, C>(model: &Option<Model<V, C>>) -> (plan: PassPlan)
    ensures
        plan == command_plan(*model),
{
    match model {
        Some(state) => {
            if state.visible {
                return PassPlan::DrawModel(DrawBase::KeepTarget);
            }
            PassPlan::Clear(ScreenColor::Black)
        },
        None => PassPlan::Clear(ScreenColor::Black),
    }
}

/// A visibility change decides the next frame: an existing model that was
/// shown is drawn and one that was hidden leaves a black screen; without a
/// model nothing is drawn.
pub proof fn lemma_visibility_decides_frame<V, C>(model: Option<Model<V, C>>, visible: bool)
    ensures
        command_plan(visibility_after(model, visible)) == (if model is Some && visible {
            PassPlan::DrawModel(DrawBase::KeepTarget)
        } else {
            PassPlan::Clear(ScreenColor::Black)
        }),
        queue_plan(visibility_after(model, visible)) == (if model is None {
            PassPlan::Clear(ScreenColor::Green)
        } else if visible {
            PassPlan::DrawModel(DrawBase::ClearToBackground)
        } else {
            PassPlan::Clear(ScreenColor::Black)
        }),
{
}

/// A redraw is requested exactly when the next frame would differ from the
/// current one.
pub proof fn lemma_redraw_iff_frame_changes<V, C>(model: Option<Model<V, C>>, visible: bool)
    ensures
        redraw_needed(model, visible) <==> command_plan(model) != command_plan(visibility_after(model, visible)),
{
}

} // verus!
