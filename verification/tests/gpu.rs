use nbody::gpu::{
    choose_surface_format, get_msaa_samples, max_view_dimensions, msaa_samples,
    preferred_format_index, square_view, webgl_view_dimensions, GraphicsBackend, MSAA_SAMPLES,
};

use wgpu::TextureFormat::{Bgra8Unorm, Bgra8UnormSrgb, Rgba16Float, Rgba8UnormSrgb};

#[test]
fn only_gl_goes_without_multisampling() {
    assert_eq!(msaa_samples(GraphicsBackend::Gl), 1);
    for b in [
        GraphicsBackend::Noop,
        GraphicsBackend::Vulkan,
        GraphicsBackend::Metal,
        GraphicsBackend::Dx12,
        GraphicsBackend::BrowserWebGpu,
    ] {
        assert_eq!(msaa_samples(b), MSAA_SAMPLES);
    }
    assert_eq!(MSAA_SAMPLES, 4);
}

#[test]
fn first_srgb_format_is_preferred() {
    assert_eq!(preferred_format_index(&vec![false, true, true]), 1);
    assert_eq!(preferred_format_index(&vec![true, false]), 0);
    assert_eq!(preferred_format_index(&vec![false, false, false]), 0);
}

#[test]
fn surface_format_choice() {
    assert_eq!(choose_surface_format(&vec![Bgra8Unorm, Rgba8UnormSrgb, Bgra8UnormSrgb]), Rgba8UnormSrgb);
    assert_eq!(choose_surface_format(&vec![Rgba16Float, Bgra8Unorm]), Rgba16Float);
    assert_eq!(choose_surface_format(&vec![Bgra8UnormSrgb]), Bgra8UnormSrgb);
}

fn noop_device() -> wgpu::Device {
    let mut desc = wgpu::InstanceDescriptor::new_without_display_handle();
    desc.backends = wgpu::Backends::NOOP;
    desc.backend_options.noop = wgpu::NoopBackendOptions::enabled();
    let instance = wgpu::Instance::new(desc);
    let adapter = pollster::block_on(instance.request_adapter(&wgpu::RequestAdapterOptions::default()))
        .expect("noop adapter");
    let (device, _queue) = pollster::block_on(adapter.request_device(&wgpu::DeviceDescriptor::default()))
        .expect("noop device");
    device
}

#[test]
fn noop_device_multisamples() {
    let device = noop_device();
    assert_eq!(get_msaa_samples(&device), MSAA_SAMPLES);
}

#[test]
fn view_dimensions_follow_texture_limit() {
    let device = noop_device();
    let edge = device.limits().max_texture_dimension_2d;
    assert_eq!(max_view_dimensions(&device), (edge, edge));
}

#[test]
fn webgl_dimensions_fall_back_to_guaranteed_minimum() {
    assert_eq!(webgl_view_dimensions(None), (2048, 2048));
    assert_eq!(webgl_view_dimensions(Some((4096, 3072))), (4096, 3072));
    assert_eq!(webgl_view_dimensions(Some((-1, 16))), (u32::MAX, 16));
}

#[test]
fn native_view_is_a_square_of_the_texture_edge() {
    assert_eq!(square_view(8192), (8192, 8192));
    assert_eq!(square_view(0), (0, 0));
}
