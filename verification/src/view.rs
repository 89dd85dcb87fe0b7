use vstd::prelude::*;
use wgpu::{AstcBlock, AstcChannel, TextureFormat};

verus! {

#[verifier::external_type_specification]
pub struct ExTextureFormat(TextureFormat);

#[verifier::external_type_specification]
pub struct ExAstcBlock(AstcBlock);

#[verifier::external_type_specification]
pub struct ExAstcChannel(AstcChannel);

/// The sRGB form of a texture format: each unorm colour format that has an
/// sRGB twin maps to that twin, every other format to itself.
pub open spec fn srgb_form(format: TextureFormat) -> TextureFormat {
    match format {
        TextureFormat::Rgba8Unorm => TextureFormat::Rgba8UnormSrgb,
        TextureFormat::Bgra8Unorm => TextureFormat::Bgra8UnormSrgb,
        TextureFormat::Bc1RgbaUnorm => TextureFormat::Bc1RgbaUnormSrgb,
        TextureFormat::Bc2RgbaUnorm => TextureFormat::Bc2RgbaUnormSrgb,
        TextureFormat::Bc3RgbaUnorm => TextureFormat::Bc3RgbaUnormSrgb,
        TextureFormat::Bc7RgbaUnorm => TextureFormat::Bc7RgbaUnormSrgb,
        TextureFormat::Etc2Rgb8Unorm => TextureFormat::Etc2Rgb8UnormSrgb,
        TextureFormat::Etc2Rgb8A1Unorm => TextureFormat::Etc2Rgb8A1UnormSrgb,
        TextureFormat::Etc2Rgba8Unorm => TextureFormat::Etc2Rgba8UnormSrgb,
        TextureFormat::Astc { block, channel: AstcChannel::Unorm } => TextureFormat::Astc {
            block,
            channel: AstcChannel::UnormSrgb,
        },
        _ => format,
    }
}

/// Calls wgpu's `TextureFormat::add_srgb_suffix`, whose source is the match
/// that `srgb_form` states.
#[verifier::external_body]
fn add_srgb_suffix(format: &TextureFormat) -> (srgb: TextureFormat)
    ensures
        srgb == srgb_form(*format),
{
    format.add_srgb_suffix()
}

/// What the surface's textures are used for.
#[derive(Clone, Copy, Debug, PartialEq, Eq, Structural)]
pub enum SurfaceUsage {
    /// Rendered into as a colour attachment.
    RenderAttachment,
}

/// How the surface's alpha is composited with the desktop.
#[derive(Clone, Copy, Debug, PartialEq, Eq, Structural)]
pub enum SurfaceAlphaMode {
    /// The first mode the surface supports, chosen by the backend.
    Auto,
}

/// How frames are presented.
#[derive(Clone, Copy, Debug, PartialEq, Eq, Structural)]
pub enum SurfacePresentMode {
    /// Synchronised with the display, with the best mode the backend has.
    AutoVsync,
}

/// The surface settings that the viewer decides: what its textures are for,
/// the surface's own format, the view formats it allows, its size, how alpha
/// is composited, how frames are presented and how many frames may queue.
pub struct SurfaceSettings {
    pub usage: SurfaceUsage,
    pub format: TextureFormat,
    pub view_formats: Vec<TextureFormat>,
    pub alpha_mode: SurfaceAlphaMode,
    pub width: u32,
    pub height: u32,
    pub desired_maximum_frame_latency: u32,
    pub present_mode: SurfacePresentMode,
}

/// The format of the texture view each frame renders through: the sRGB form
/// of the surface format, so that the image is gamma correct.
pub fn render_view_format(surface_format: &TextureFormat) -> (format: TextureFormat)
    ensures
        format == srgb_form(*surface_format),
{
    add_srgb_suffix(surface_format)
}

/// The settings the surface is configured with for a window of the given
/// size: rendered into, its own format, the sRGB view that frames use,
/// automatic alpha, vsync presentation and at most two queued frames.
pub fn configure_surface(surface_format: &TextureFormat, width: u32, height: u32) -> (settings: SurfaceSettings)
    ensures
        settings.usage == SurfaceUsage::RenderAttachment,
        settings.format == *surface_format,
        settings.view_formats@ == seq![srgb_form(*surface_format)],
        settings.width == width,
        settings.height == height,
        settings.desired_maximum_frame_latency == 2,
        settings.alpha_mode == SurfaceAlphaMode::Auto,
        settings.present_mode == SurfacePresentMode::AutoVsync,
{
    let mut view_formats: Vec<TextureFormat> = Vec::new();
    view_formats.push(render_view_format(surface_format));
    SurfaceSettings {
        usage: SurfaceUsage::RenderAttachment,
        format: *surface_format,
        view_formats,
        alpha_mode: SurfaceAlphaMode::Auto,
        width,
        height,
        desired_maximum_frame_latency: 2,
        present_mode: SurfacePresentMode::AutoVsync,
    }
}

/// Every frame renders through a view format that the surface was
/// configured to allow, whatever the window's size.
pub proof fn lemma_frame_view_is_allowed(surface_format: TextureFormat, settings: SurfaceSettings)
    requires
        settings.view_formats@ == seq![srgb_form(surface_format)],
    ensures
        settings.view_formats@.contains(srgb_form(surface_format)),
{
    assert(settings.view_formats@[0] == srgb_form(surface_format));
}

/// Taking the sRGB form twice gives the same format as taking it once: a
/// format that is already sRGB is left as it is.
pub proof fn lemma_srgb_form_idempotent(format: TextureFormat)
    ensures
        srgb_form(srgb_form(format)) == srgb_form(format),
{
}

} // verus!
