use render_scene::model::{create_indices1, create_indices2, set_visible};
use render_scene::render::queue::{add_command_queue, add_queue_for_app_state, DrawBase};
use render_scene::render::render_manager::create_command_buffers;
use render_scene::render_queue_builder::create_queue_for_app_state;
use render_scene::{
    AppState, DrawIndexedInfo, Face, Model, PassPlan, RenderData, RenderQueueBuilder, ScreenColor,
};

#[derive(Clone, Copy, Debug, PartialEq)]
struct TestVertex {
    position: [f32; 3],
    color: [f32; 4],
}

fn vertex(x: f32, y: f32) -> TestVertex {
    TestVertex { position: [x, y, 0.2], color: [0.5, 0.2, 0.1, 1.0] }
}

fn five(offset: f32) -> Vec<TestVertex> {
    (0..5).map(|i| vertex(offset + i as f32, -(i as f32))).collect()
}

fn default_model() -> Model<TestVertex, u8> {
    Model::new(
        0u8,
        vec![Face::new(five(0.0), create_indices1()), Face::new(five(10.0), create_indices2())],
    )
}

#[test]
fn draw_indexed_info_new_keeps_fields() {
    let d = DrawIndexedInfo::new(5, 9..18);
    assert_eq!(d.base_vertex, 5);
    assert_eq!(d.indices_range, 9..18);
}

#[test]
fn build_default_model_merges_buffers() {
    let m = default_model();
    let data = RenderData::build(&m);
    let mut expected_vertices = five(0.0);
    expected_vertices.extend(five(10.0));
    assert_eq!(data.vertices, expected_vertices);
    let mut expected_indices = create_indices1();
    expected_indices.extend(create_indices2());
    assert_eq!(data.indices, expected_indices);
    assert_eq!(data.instances, 0..1);
    assert_eq!(data.draw_info.len(), 2);
    assert_eq!(data.draw_info[0].base_vertex, 0);
    assert_eq!(data.draw_info[0].indices_range, 0..9);
    assert_eq!(data.draw_info[1].base_vertex, 5);
    assert_eq!(data.draw_info[1].indices_range, 9..18);
}

#[test]
fn build_uneven_faces() {
    let m = Model::new(
        1u8,
        vec![
            Face::new(vec![vertex(1.0, 0.0), vertex(2.0, 0.0), vertex(3.0, 0.0)], vec![0, 1, 2]),
            Face::new(vec![vertex(4.0, 0.0), vertex(5.0, 0.0)], vec![1, 0, 1, 1]),
        ],
    );
    let data = RenderData::build(&m);
    assert_eq!(data.vertices.len(), 5);
    assert_eq!(data.indices, vec![0, 1, 2, 1, 0, 1, 1]);
    assert_eq!(data.draw_info[0].indices_range, 0..3);
    assert_eq!(data.draw_info[1].base_vertex, 3);
    assert_eq!(data.draw_info[1].indices_range, 3..7);
}

#[test]
fn build_uses_only_the_first_two_faces() {
    let mut m = default_model();
    m.faces.push(Face::new(five(20.0), create_indices1()));
    let data = RenderData::build(&m);
    assert_eq!(data.vertices.len(), 10);
    assert_eq!(data.indices.len(), 18);
    assert_eq!(data.draw_info.len(), 2);
}

#[test]
fn build_with_empty_faces() {
    let m: Model<TestVertex, u8> =
        Model::new(0u8, vec![Face::new(vec![], vec![]), Face::new(vec![], vec![])]);
    let data = RenderData::build(&m);
    assert!(data.vertices.is_empty());
    assert!(data.indices.is_empty());
    assert_eq!(data.draw_info[0].indices_range, 0..0);
    assert_eq!(data.draw_info[1].indices_range, 0..0);
    assert_eq!(data.draw_info[1].base_vertex, 0);
}

#[test]
fn draws_partition_the_index_buffer() {
    let data = RenderData::build(&default_model());
    assert_eq!(data.draw_info[0].indices_range.start, 0);
    assert_eq!(data.draw_info[0].indices_range.end, data.draw_info[1].indices_range.start);
    assert_eq!(data.draw_info[1].indices_range.end as usize, data.indices.len());
}

#[test]
fn draws_reproduce_the_faces() {
    let m = default_model();
    let data = RenderData::build(&m);
    for (d, face) in m.faces.iter().take(2).enumerate() {
        let draw = &data.draw_info[d];
        for k in draw.indices_range.clone() {
            let merged = (draw.base_vertex + data.indices[k as usize] as i32) as usize;
            let local = (k - draw.indices_range.start) as usize;
            assert!(merged < data.vertices.len());
            assert_eq!(data.vertices[merged], face.vertices[face.indices[local] as usize]);
        }
    }
}

#[test]
fn build_queue_colors() {
    assert_eq!(RenderQueueBuilder::build_queue(&None), ScreenColor::Green);
    assert_eq!(RenderQueueBuilder::build_queue(&Some(AppState { visible: true })), ScreenColor::Blue);
    assert_eq!(RenderQueueBuilder::build_queue(&Some(AppState::new())), ScreenColor::Black);
    assert_eq!(create_queue_for_app_state(&AppState { visible: true }), ScreenColor::Blue);
    assert_eq!(create_queue_for_app_state(&AppState { visible: false }), ScreenColor::Black);
}

#[test]
fn command_queue_plans() {
    let none: Option<Model<TestVertex, u8>> = None;
    assert_eq!(add_command_queue(&none), PassPlan::Clear(ScreenColor::Green));
    let mut m = default_model();
    assert_eq!(add_queue_for_app_state(&m), PassPlan::Clear(ScreenColor::Black));
    m.visible = true;
    assert_eq!(add_queue_for_app_state(&m), PassPlan::DrawModel(DrawBase::ClearToBackground));
    assert_eq!(add_command_queue(&Some(m)), PassPlan::DrawModel(DrawBase::ClearToBackground));
}

#[test]
fn command_buffer_plans() {
    let none: Option<Model<TestVertex, u8>> = None;
    assert_eq!(create_command_buffers(&none), PassPlan::Clear(ScreenColor::Black));
    let mut m = Some(default_model());
    assert_eq!(create_command_buffers(&m), PassPlan::Clear(ScreenColor::Black));
    set_visible(&mut m, true);
    assert_eq!(create_command_buffers(&m), PassPlan::DrawModel(DrawBase::KeepTarget));
}

#[test]
fn redraw_requested_exactly_when_frame_changes() {
    for start in [None, Some(false), Some(true)] {
        for visible in [false, true] {
            let mut m = start.map(|v| {
                let mut m = default_model();
                m.visible = v;
                m
            });
            let before = create_command_buffers(&m);
            let redraw = set_visible(&mut m, visible);
            let after = create_command_buffers(&m);
            assert_eq!(redraw, before != after);
        }
    }
}
