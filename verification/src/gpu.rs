//! Queries of the graphics device that the renderer bases its choices on.
use vstd::prelude::*;

verus! {

#[verifier::external_type_specification]
#[verifier::external_body]
pub struct ExDevice(wgpu::Device);

#[verifier::external_type_specification]
#[verifier::external_body]
pub struct ExTextureFormat(wgpu::TextureFormat);

/// The graphics API behind a device.
#[derive(Clone, Copy, Debug, PartialEq, Eq, Structural)]
pub enum GraphicsBackend {
    Noop,
    Vulkan,
    Metal,
    Dx12,
    Gl,
    BrowserWebGpu,
}

/// Samples per pixel wherever multisampling works.
pub const MSAA_SAMPLES: u32 = 4;

/// The backend of the adapter that `device` was created from, as
/// `wgpu::Device::adapter_info` reports it. Nothing is stated of it: it
/// depends on the machine.
#[verifier::external_body]
fn adapter_backend(device: &wgpu::Device) -> (backend: GraphicsBackend) {
    match device.adapter_info().backend {
        wgpu::Backend::Noop => GraphicsBackend::Noop,
        wgpu::Backend::Vulkan => GraphicsBackend::Vulkan,
        wgpu::Backend::Metal => GraphicsBackend::Metal,
        wgpu::Backend::Dx12 => GraphicsBackend::Dx12,
        wgpu::Backend::Gl => GraphicsBackend::Gl,
        wgpu::Backend::BrowserWebGpu => GraphicsBackend::BrowserWebGpu,
    }
}

/// The largest edge of a 2D texture on `device`, from
/// `wgpu::Device::limits`. Nothing is stated of it: it is the limit the
/// device was created with.
#[verifier::external_body]
fn max_texture_dimension_2d(device: &wgpu::Device) -> (edge: u32) {
    device.limits().max_texture_dimension_2d
}

/// Whether a texture format stores colour in sRGB, as
/// `wgpu::TextureFormat::is_srgb` classifies formats: a function of the
/// format alone.
pub uninterp spec fn texture_format_is_srgb(format: wgpu::TextureFormat) -> bool;

/// Whether `format` stores colour in sRGB, by `wgpu::TextureFormat::is_srgb`,
/// which compares the format with itself stripped of its sRGB suffix. The
/// contract claims only that the answer is the named classification of the
/// format.
#[verifier::external_body]
fn is_srgb(format: &wgpu::TextureFormat) -> (srgb: bool)
    ensures
        srgb == texture_format_is_srgb(*format),
{
    format.is_srgb()
}

/// Samples per pixel on `backend`: GL does not get multisampling.
pub open spec fn spec_msaa_samples(backend: GraphicsBackend) -> u32 {
    if backend == GraphicsBackend::Gl { 1 } else { MSAA_SAMPLES }
}

/// Samples per pixel on `backend`.
pub fn msaa_samples(backend: GraphicsBackend) -> (samples: u32)
    ensures
        samples == spec_msaa_samples(backend),
{
    match backend {
        GraphicsBackend::Gl => 1,
        _ => MSAA_SAMPLES,
    }
}

/// Only GL goes without multisampling: every other backend, the real ones
/// and the stub alike, renders with four samples per pixel.
pub proof fn lemma_only_gl_skips_multisampling(backend: GraphicsBackend)
    ensures
        spec_msaa_samples(backend) == 1 <==> backend == GraphicsBackend::Gl,
        backend != GraphicsBackend::Gl ==> spec_msaa_samples(backend) == 4,
        spec_msaa_samples(GraphicsBackend::Vulkan) == 4,
        spec_msaa_samples(GraphicsBackend::Metal) == 4,
        spec_msaa_samples(GraphicsBackend::Dx12) == 4,
        spec_msaa_samples(GraphicsBackend::BrowserWebGpu) == 4,
{
}

/// Samples per pixel on `device`: one on GL, four on every other backend.
pub fn get_msaa_samples(device: &wgpu::Device) -> (samples: u32)
    ensures
        samples == 1 || samples == MSAA_SAMPLES,
{
    let backend = adapter_backend(device);
    msaa_samples(backend)
}

/// The largest surface that a device whose largest 2D texture has edge
/// `edge` can present: a square of that edge.
pub fn square_view(edge: u32) -> (dims: (u32, u32))
    ensures
        dims == (edge, edge),
{
    (edge, edge)
}

/// The largest surface that `device` can present: a square as large as its
/// largest 2D texture (see [`square_view`]).
pub fn max_view_dimensions(device: &wgpu::Device) -> (dims: (u32, u32))
    ensures
        dims.0 == dims.1,
{
    let edge = max_texture_dimension_2d(device);
    square_view(edge)
}

/// Edge that WebGL2 guarantees for a viewport.
pub const WEBGL_MIN_VIEWPORT_DIMENSION: u32 = 2048;

/// The largest surface that a WebGL2 canvas can present, from the
/// `MAX_VIEWPORT_DIMS` pair that the context reported, if it reported one:
/// the reported width and height, reinterpreted as unsigned, or else the
/// guaranteed minimum in both directions.
pub fn webgl_view_dimensions(reported: Option<(i32, i32)>) -> (dims: (u32, u32))
    ensures
        dims == (match reported {
            Some((w, h)) => (w as u32, h as u32),
            None => (WEBGL_MIN_VIEWPORT_DIMENSION, WEBGL_MIN_VIEWPORT_DIMENSION),
        }),
{
    match reported {
        Some((w, h)) => (w as u32, h as u32),
        None => (WEBGL_MIN_VIEWPORT_DIMENSION, WEBGL_MIN_VIEWPORT_DIMENSION),
    }
}

/// The index of the format to configure the surface with, given for each
/// offered format whether it is sRGB: the first sRGB format, or else the
/// first format of all.
pub fn preferred_format_index(srgb: &Vec<bool>) -> (index: usize)
    requires
        srgb.len() > 0,
    ensures
        index < srgb.len(),
        srgb@[index as int] ==> forall|j: int| 0 <= j < index ==> !srgb@[j],
        !srgb@[index as int] ==> index == 0 && forall|j: int| 0 <= j < srgb.len() ==> !srgb@[j],
{
    let mut i: usize = 0;
    while i < srgb.len()
        invariant
            i <= srgb.len(),
            forall|j: int| 0 <= j < i ==> !srgb@[j],
        decreases srgb.len() - i,
    {
        if srgb[i] {
            return i;
        }
        i = i + 1;
    }
    0
}

/// Whether `i` is the index of the format to configure a surface with,
/// out of `formats`: the first sRGB format, or else the first format.
pub open spec fn is_preferred_format(formats: Seq<wgpu::TextureFormat>, i: int) -> bool {
    &&& 0 <= i < formats.len()
    &&& texture_format_is_srgb(formats[i]) ==> forall|j: int|
        0 <= j < i ==> !texture_format_is_srgb(#[trigger] formats[j])
    &&& !texture_format_is_srgb(formats[i]) ==> i == 0 && forall|j: int|
        0 <= j < formats.len() ==> !texture_format_is_srgb(#[trigger] formats[j])
}

/// The format to configure the surface with, out of the formats it offers:
/// the first sRGB one, or else the first one. The surface offers at least one
/// format.
pub fn choose_surface_format(formats: &Vec<wgpu::TextureFormat>) -> (format: wgpu::TextureFormat)
    requires
        formats.len() > 0,
    ensures
        exists|i: int| is_preferred_format(formats@, i) && format == formats@[i],
{
    let mut srgb: Vec<bool> = Vec::new();
    let mut i: usize = 0;
    while i < formats.len()
        invariant
            i <= formats.len(),
            srgb.len() == i,
            forall|j: int| 0 <= j < i ==> srgb@[j] == texture_format_is_srgb(formats@[j]),
        decreases formats.len() - i,
    {
        srgb.push(is_srgb(&formats[i]));
        i = i + 1;
    }
    let index = preferred_format_index(&srgb);
    assert forall|j: int| 0 <= j < formats.len() implies srgb@[j] == texture_format_is_srgb(
        #[trigger] formats@[j],
    ) by {}
    assert(is_preferred_format(formats@, index as int));
    formats[index]
}

} // verus!
