use telera::icon::{icon_from_pixels, icon_from_result, load_icon};

fn png(width: u32, height: u32) -> Vec<u8> {
    let img = image::RgbaImage::from_pixel(width, height, image::Rgba([10, 20, 30, 255]));
    let mut out = std::io::Cursor::new(Vec::new());
    img.write_to(&mut out, image::ImageFormat::Png).unwrap();
    out.into_inner()
}

#[test]
fn decodes_png_icon() {
    assert!(load_icon(&png(4, 3)).is_some());
}

#[test]
fn garbage_gives_no_icon() {
    assert!(load_icon(&[1, 2, 3, 4, 5]).is_none());
    assert!(load_icon(&[]).is_none());
}

#[test]
fn pixel_count_must_match() {
    assert!(icon_from_pixels(vec![0; 16], 2, 2).is_some());
    assert!(icon_from_pixels(vec![0; 15], 2, 2).is_none());
    assert!(icon_from_pixels(vec![0; 20], 2, 2).is_none());
    assert!(icon_from_pixels(vec![], 100_000, 100_000).is_none());
}

#[test]
fn wide_icon_decodes() {
    assert!(load_icon(&png(7, 2)).is_some());
    assert!(load_icon(&png(1, 1)).is_some());
}

#[test]
fn result_is_handed_on() {
    assert!(icon_from_result(winit::window::Icon::from_rgba(vec![0; 4], 1, 1)).is_some());
    assert!(icon_from_result(winit::window::Icon::from_rgba(vec![0; 3], 1, 1)).is_none());
}
