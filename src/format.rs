use vstd::prelude::*;

use crate::renderer::SurfaceConfig;

verus! {

#[verifier::external_type_specification]
#[verifier::external_body]
pub struct ExTextureFormat(wgpu::TextureFormat);

/// The sRGB variant of a texture format, or the format itself where it has none.
pub uninterp spec fn srgb_variant(format: wgpu::TextureFormat) -> wgpu::TextureFormat;

/// Relies on wgpu::TextureFormat::add_srgb_suffix, a function of the format alone.
#[verifier::external_body]
fn add_srgb_suffix(format: wgpu::TextureFormat) -> (r: wgpu::TextureFormat)
    ensures
        r == srgb_variant(format),
{
    format.add_srgb_suffix()
}

/// The view format that frames are drawn through: the sRGB variant of the
/// configured format.
pub fn view_format(config: &SurfaceConfig<wgpu::TextureFormat>) -> (r: wgpu::TextureFormat)
    ensures
        r == srgb_variant(config.format),
{
    add_srgb_suffix(config.format)
}

/// The view formats the surface is configured with: exactly the one view
/// format that frames are drawn through.
pub fn view_formats(config: &SurfaceConfig<wgpu::TextureFormat>) -> (r: Vec<wgpu::TextureFormat>)
    ensures
        r@ == seq![srgb_variant(config.format)],
{
    let mut r: Vec<wgpu::TextureFormat> = Vec::new();
    r.push(view_format(config));
    r
}

} // verus!
