use telera::surface::{surface_config, choose_surface_format, surface_format_index, SurfaceExtent};

#[test]
fn first_srgb_index() {
    assert_eq!(surface_format_index(&vec![false, true, true]), 1);
    assert_eq!(surface_format_index(&vec![false, false]), 0);
    assert_eq!(surface_format_index(&vec![true]), 0);
}

#[test]
fn chooses_srgb_format() {
    let formats = vec![wgpu::TextureFormat::Bgra8Unorm, wgpu::TextureFormat::Bgra8UnormSrgb];
    assert_eq!(choose_surface_format(&formats), wgpu::TextureFormat::Bgra8UnormSrgb);
    let formats = vec![wgpu::TextureFormat::Rgba16Float, wgpu::TextureFormat::Bgra8Unorm];
    assert_eq!(choose_surface_format(&formats), wgpu::TextureFormat::Rgba16Float);
}

#[test]
fn extent_follows_window() {
    let mut e = SurfaceExtent::new(800, 600);
    assert_eq!((e.size, e.width, e.height), ((800, 600), 800, 600));
    assert!(!e.resize(0, 600));
    assert_eq!((e.size, e.width, e.height), ((800, 600), 800, 600));
    assert!(e.resize(1024, 768));
    assert_eq!((e.size, e.width, e.height), ((1024, 768), 1024, 768));
    assert!(!e.resize(3_000_000_000, 768));
    assert_eq!((e.size, e.width, e.height), ((1024, 768), 1024, 768));
}

#[test]
fn extent_of_minimized_window() {
    let e = SurfaceExtent::new(0, 0);
    assert_eq!((e.size, e.width, e.height), ((0, 0), 0, 0));
}

#[test]
fn first_of_several_srgb_formats() {
    let formats = vec![
        wgpu::TextureFormat::Rgba16Float,
        wgpu::TextureFormat::Rgba8UnormSrgb,
        wgpu::TextureFormat::Bgra8UnormSrgb,
    ];
    assert_eq!(choose_surface_format(&formats), wgpu::TextureFormat::Rgba8UnormSrgb);
}

#[test]
fn configuration_choices() {
    let e = SurfaceExtent::new(640, 480);
    let c = surface_config(&e, wgpu::TextureFormat::Bgra8UnormSrgb);
    assert_eq!(c.format, wgpu::TextureFormat::Bgra8UnormSrgb);
    assert_eq!((c.width, c.height), (640, 480));
    assert_eq!((c.present_mode_index, c.alpha_mode_index), (0, 0));
    assert_eq!(c.desired_maximum_frame_latency, 2);
    assert!(c.render_attachment_only);
    assert_eq!(c.view_formats, 0);
}
