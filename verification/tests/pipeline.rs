use std::cell::Cell;
use std::sync::Arc;

use render_scene::render::pipeline::{
    pipeline_settings, BlendComponent, ColorWrites, FrontFace, PolygonMode, PrimitiveTopology,
};
use render_scene::view::{
    configure_surface, render_view_format, SurfaceAlphaMode, SurfacePresentMode, SurfaceUsage,
};
use render_scene::vertex_layout::{desc, VertexFormat, VertexStepMode, POSITION_SIZE};
use render_scene::{PipelineCache, PipelineName, ShaderFragmentName, ShaderVertexName};

#[test]
fn labels_are_variant_names() {
    assert_eq!(PipelineName::Pipeline1.label(), "Pipeline1");
    assert_eq!(ShaderVertexName::Vertex1.label(), "Vertex1");
    assert_eq!(ShaderFragmentName::Fragment1.label(), "Fragment1");
}

#[test]
fn cache_starts_empty_and_stores() {
    let mut cache: PipelineCache<u32> = PipelineCache::new();
    assert!(!cache.contains_key(&PipelineName::Pipeline1));
    assert_eq!(cache.get(&PipelineName::Pipeline1), None);
    cache.insert(PipelineName::Pipeline1, 4);
    assert!(cache.contains_key(&PipelineName::Pipeline1));
    assert_eq!(cache.get(&PipelineName::Pipeline1), Some(&4));
    cache.insert(PipelineName::Pipeline1, 8);
    assert_eq!(cache.get(&PipelineName::Pipeline1), Some(&8));
}

#[test]
fn pipeline_is_built_once_and_shared() {
    let builds = Cell::new(0u32);
    let mut cache: PipelineCache<Arc<u32>> = PipelineCache::new();
    let first = cache.get_or_insert_with(PipelineName::Pipeline1, || {
        builds.set(builds.get() + 1);
        Arc::new(42)
    });
    let second = cache.get_or_insert_with(PipelineName::Pipeline1, || {
        builds.set(builds.get() + 1);
        Arc::new(7)
    });
    assert_eq!(builds.get(), 1);
    assert_eq!(*first, 42);
    assert_eq!(*second, 42);
    assert!(Arc::ptr_eq(&first, &second));
}

#[test]
fn vertex_layout_of_the_vertex_record() {
    let layout = desc(28);
    assert_eq!(layout.array_stride, 28);
    assert_eq!(layout.step_mode, VertexStepMode::Vertex);
    assert_eq!(layout.attributes.len(), 2);
    assert_eq!(layout.attributes[0].offset, 0);
    assert_eq!(layout.attributes[0].shader_location, 0);
    assert_eq!(layout.attributes[0].format, VertexFormat::Float32x3);
    assert_eq!(layout.attributes[1].offset, 12);
    assert_eq!(layout.attributes[1].shader_location, 1);
    assert_eq!(layout.attributes[1].format, VertexFormat::Float32x3);
    assert_eq!(POSITION_SIZE, 12);
}

#[test]
fn vertex_attributes_fit_the_record() {
    let layout = desc(28);
    for a in &layout.attributes {
        assert!(a.offset + 12 <= layout.array_stride);
    }
    assert!(layout.attributes[0].offset + 12 <= layout.attributes[1].offset);
    assert_ne!(layout.attributes[0].shader_location, layout.attributes[1].shader_location);
}

#[test]
fn surface_settings_use_the_srgb_view() {
    let settings = configure_surface(&wgpu::TextureFormat::Bgra8Unorm, 800, 600);
    assert_eq!(settings.format, wgpu::TextureFormat::Bgra8Unorm);
    assert_eq!(settings.view_formats, vec![wgpu::TextureFormat::Bgra8UnormSrgb]);
    assert_eq!(settings.width, 800);
    assert_eq!(settings.height, 600);
    assert_eq!(settings.desired_maximum_frame_latency, 2);
    assert_eq!(settings.usage, SurfaceUsage::RenderAttachment);
    assert_eq!(settings.alpha_mode, SurfaceAlphaMode::Auto);
    assert_eq!(settings.present_mode, SurfacePresentMode::AutoVsync);
    assert_eq!(render_view_format(&wgpu::TextureFormat::Rgba8Unorm), wgpu::TextureFormat::Rgba8UnormSrgb);
    assert_eq!(render_view_format(&wgpu::TextureFormat::Rgba16Float), wgpu::TextureFormat::Rgba16Float);
}

#[test]
fn frame_view_format_is_allowed_by_the_surface() {
    for format in [wgpu::TextureFormat::Bgra8Unorm, wgpu::TextureFormat::Rgba8UnormSrgb, wgpu::TextureFormat::Rgba16Float] {
        let settings = configure_surface(&format, 1, 1);
        assert!(settings.view_formats.contains(&render_view_format(&format)));
    }
}

#[test]
fn srgb_form_of_astc_and_idempotence() {
    let astc = wgpu::TextureFormat::Astc {
        block: wgpu::AstcBlock::B4x4,
        channel: wgpu::AstcChannel::Unorm,
    };
    let srgb = render_view_format(&astc);
    assert_eq!(
        srgb,
        wgpu::TextureFormat::Astc { block: wgpu::AstcBlock::B4x4, channel: wgpu::AstcChannel::UnormSrgb }
    );
    assert_eq!(render_view_format(&srgb), srgb);
    let bgra = render_view_format(&wgpu::TextureFormat::Bgra8Unorm);
    assert_eq!(render_view_format(&bgra), bgra);
}

#[test]
fn pipeline_settings_are_fixed() {
    let s = pipeline_settings(&wgpu::TextureFormat::Bgra8Unorm, "Pipeline1");
    assert_eq!(s.label, "Pipeline1");
    assert_eq!(s.layout_label, "Render Pipeline Layout");
    assert_eq!(s.bind_group_layout_count, 0);
    assert_eq!(s.push_constant_range_count, 0);
    assert_eq!(s.vertex_shader, ShaderVertexName::Vertex1);
    assert_eq!(s.vertex_entry_point, "main");
    assert_eq!(s.vertex_buffer_count, 1);
    assert_eq!(s.fragment_shader, ShaderFragmentName::Fragment1);
    assert_eq!(s.fragment_entry_point, "main");
    assert_eq!(s.target_format, wgpu::TextureFormat::Bgra8Unorm);
    assert_eq!(s.topology, PrimitiveTopology::TriangleList);
    assert_eq!(s.strip_index_format, None);
    assert_eq!(s.front_face, FrontFace::Ccw);
    assert!(!s.cull_back_faces);
    assert!(!s.unclipped_depth);
    assert_eq!(s.polygon_mode, PolygonMode::Fill);
    assert!(!s.conservative_rasterization);
    assert_eq!(s.color_blend, BlendComponent::Replace);
    assert_eq!(s.alpha_blend, BlendComponent::Replace);
    assert_eq!(s.write_mask, ColorWrites::All);
    assert!(!s.depth_test);
    assert_eq!(s.sample_count, 1);
    assert_eq!(s.sample_mask, !0u64);
    assert!(!s.alpha_to_coverage_enabled);
    assert_eq!(s.multiview_layers, None);
    assert!(!s.uses_pipeline_cache);
}

#[test]
fn scene_pipelines_differ_only_in_label() {
    let a = pipeline_settings(&wgpu::TextureFormat::Rgba8Unorm, "Pipeline1");
    let b = pipeline_settings(&wgpu::TextureFormat::Rgba8Unorm, "model render pipline");
    assert_ne!(a.label, b.label);
    assert_eq!(a.layout_label, b.layout_label);
    assert_eq!(a.vertex_shader, b.vertex_shader);
    assert_eq!(a.fragment_shader, b.fragment_shader);
    assert_eq!(a.target_format, b.target_format);
    assert_eq!(a.topology, b.topology);
    assert_eq!(a.sample_mask, b.sample_mask);
    assert_eq!(a.multiview_layers, b.multiview_layers);
}
