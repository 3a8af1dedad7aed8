use wgpu::TextureFormat;
use wgpu_solar::surface::{preferred_format, Recovery, SurfaceFault};

#[test]
fn stale_surfaces_are_configured_again() {
    assert_eq!(SurfaceFault::Lost.recovery(), Recovery::Reconfigure);
    assert_eq!(SurfaceFault::Outdated.recovery(), Recovery::Reconfigure);
}

#[test]
fn a_timeout_skips_the_frame() {
    assert_eq!(SurfaceFault::Timeout.recovery(), Recovery::SkipFrame);
}

#[test]
fn out_of_memory_is_fatal() {
    assert_eq!(SurfaceFault::OutOfMemory.recovery(), Recovery::Fatal);
}

#[test]
fn the_first_srgb_format_is_preferred() {
    let formats = vec![
        TextureFormat::Bgra8Unorm,
        TextureFormat::Rgba8Unorm,
        TextureFormat::Bgra8UnormSrgb,
        TextureFormat::Rgba8UnormSrgb,
    ];
    assert_eq!(preferred_format(&formats), 2);
}

#[test]
fn an_srgb_format_in_front_is_taken() {
    let formats = vec![TextureFormat::Rgba8UnormSrgb, TextureFormat::Bgra8UnormSrgb];
    assert_eq!(preferred_format(&formats), 0);
}

#[test]
fn without_an_srgb_format_the_first_is_taken() {
    let formats =
        vec![TextureFormat::Rgba16Float, TextureFormat::Bgra8Unorm, TextureFormat::Rgb10a2Unorm];
    assert_eq!(preferred_format(&formats), 0);
    assert_eq!(preferred_format(&vec![TextureFormat::Bgra8Unorm]), 0);
}

#[test]
fn an_srgb_format_at_the_end_is_found() {
    let formats = vec![
        TextureFormat::Rgba16Float,
        TextureFormat::Bgra8Unorm,
        TextureFormat::Bc7RgbaUnorm,
        TextureFormat::Bc7RgbaUnormSrgb,
    ];
    assert_eq!(preferred_format(&formats), 3);
    assert_eq!(preferred_format(&vec![TextureFormat::Bgra8UnormSrgb]), 0);
}
