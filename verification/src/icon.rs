//! The window icon, decoded from an embedded image.

use vstd::prelude::*;

verus! {

#[verifier::external_type_specification]
#[verifier::external_body]
pub struct ExIcon(winit::window::Icon);

#[verifier::external_type_specification]
#[verifier::external_body]
pub struct ExBadIcon(winit::window::BadIcon);

/// What `image` makes of encoded image bytes when it decodes them (guessing
/// the format from the first bytes, within its default limits) and converts
/// the result to 8-bit RGBA: the pixel bytes, the width and the height, or
/// nothing when decoding fails.
pub uninterp spec fn decoded_rgba8(encoded: Seq<u8>) -> Option<(Seq<u8>, u32, u32)>;

/// Whether `icon` is the window icon made from these RGBA pixels with this
/// width and height.
pub uninterp spec fn icon_made_from(icon: winit::window::Icon, rgba: Seq<u8>, width: u32, height: u32) -> bool;

/// Decodes an encoded image and converts it to 8-bit RGBA: calls
/// `image::load_from_memory`, then `image::DynamicImage::into_rgba8`, and
/// takes the resulting buffer apart into its pixel bytes, width and height.
/// The contract names the outcome, which depends on the bytes alone, and
/// claims what `image`'s `ImageBuffer` keeps of every buffer: it holds at
/// least four bytes for each of the `width * height` pixels.
#[verifier::external_body]
fn decode_rgba8(encoded: &[u8]) -> (pixels: Option<(Vec<u8>, u32, u32)>)
    ensures
        pixels matches Some((p, w, h)) ==> decoded_rgba8(encoded@) == Some((p@, w, h))
            && 4 * (w * h) <= p.len(),
        pixels is None ==> decoded_rgba8(encoded@) is None,
{
    match image::load_from_memory(encoded) {
        Ok(decoded) => {
            let rgba = decoded.into_rgba8();
            let (width, height) = rgba.dimensions();
            Some((rgba.into_raw(), width, height))
        },
        Err(_) => None,
    }
}

/// Makes a window icon from 32-bit RGBA pixels: calls
/// `winit::window::Icon::from_rgba`. The contract claims the check that
/// function makes: an icon comes back only when the bytes are whole pixels
/// and there are `width * height` of them, and the icon is the one made from
/// exactly these pixels and dimensions. On some platforms the system can still
/// refuse a well-formed icon, so success is not claimed.
#[verifier::external_body]
fn icon_from_rgba(rgba: Vec<u8>, width: u32, height: u32) -> (icon: Result<winit::window::Icon, winit::window::BadIcon>)
    requires
        width * height <= u32::MAX,
    ensures
        icon is Ok ==> rgba.len() % 4 == 0 && rgba.len() / 4 == width * height,
        icon matches Ok(i) ==> icon_made_from(i, rgba@, width, height),
{
    winit::window::Icon::from_rgba(rgba, width, height)
}

/// Makes a window icon from decoded RGBA pixels. Pixel counts beyond what a
/// 32-bit count holds give no icon; the decoder's allocation limit keeps
/// real images far below that.
pub fn icon_from_pixels(rgba: Vec<u8>, width: u32, height: u32) -> (icon: Option<winit::window::Icon>)
    ensures
        icon is Some ==> rgba.len() == 4 * (width * height),
        icon matches Some(i) ==> icon_made_from(i, rgba@, width, height),
        width * height > u32::MAX ==> icon is None,
{
    assert((width as u64) * (height as u64) <= u64::MAX) by (nonlinear_arith)
        requires
            width <= u32::MAX,
            height <= u32::MAX,
    ;
    let count: u64 = (width as u64) * (height as u64);
    if count > u32::MAX as u64 {
        return None;
    }
    let n = rgba.len();
    let made = icon_from_rgba(rgba, width, height);
    if made.is_ok() {
        assert(n == 4 * (n / 4)) by (nonlinear_arith)
            requires
                n % 4 == 0,
        ;
    }
    icon_from_result(made)
}

/// The icon the windowing library made, or none when it refused.
pub fn icon_from_result(made: Result<winit::window::Icon, winit::window::BadIcon>) -> (icon: Option<winit::window::Icon>)
    ensures
        match made {
            Ok(i) => icon == Some(i),
            Err(_) => icon is None,
        },
{
    match made {
        Ok(icon) => Some(icon),
        Err(_) => None,
    }
}

/// Loads the window icon from an encoded image: decodes it to RGBA and hands
/// the pixels to the windowing library. Bytes that do not decode give no
/// icon; an icon that comes back is made from exactly the decoded pixels and
/// dimensions. Whether the windowing system accepts well-formed pixels is
/// its own to decide.
pub fn load_icon(encoded: &[u8]) -> (icon: Option<winit::window::Icon>)
    ensures
        decoded_rgba8(encoded@) is None ==> icon is None,
        icon matches Some(i) ==> (decoded_rgba8(encoded@) matches Some((p, w, h))
            && p.len() == 4 * (w * h) && icon_made_from(i, p, w, h)),
        (decoded_rgba8(encoded@) matches Some((p, w, h)) && w * h > u32::MAX) ==> icon is None,
{
    match decode_rgba8(encoded) {
        Some((rgba, width, height)) => icon_from_pixels(rgba, width, height),
        None => None,
    }
}

} // verus!
