//! The drawing surface: which pixel format it uses and how its size follows
//! the window.

use vstd::prelude::*;

verus! {

#[verifier::external_type_specification]
#[verifier::external_body]
pub struct ExTextureFormat(wgpu::TextureFormat);

/// Frames that the surface may queue ahead of the display.
pub const DESIRED_MAXIMUM_FRAME_LATENCY: u32 = 2;

/// Whether a texture format stores colours in sRGB encoding, as `wgpu`
/// reports it; the answer depends on the format alone.
pub uninterp spec fn format_srgb(format: wgpu::TextureFormat) -> bool;

/// Tells whether a texture format stores colours in sRGB encoding: calls
/// `wgpu::TextureFormat::is_srgb`. The contract names the answer.
#[verifier::external_body]
fn format_is_srgb(format: &wgpu::TextureFormat) -> (b: bool)
    ensures
        b == format_srgb(*format),
{
    format.is_srgb()
}

/// Picks among the formats a surface supports, given which of them are sRGB:
/// the first sRGB one, or else the first of all.
pub fn surface_format_index(srgb: &Vec<bool>) -> (index: usize)
    requires
        srgb.len() > 0,
    ensures
        index < srgb.len(),
        srgb@.contains(true) ==> srgb[index as int] && forall|j: int| 0 <= j < index ==> !srgb[j],
        !srgb@.contains(true) ==> index == 0,
{
    let mut i: usize = 0;
    while i < srgb.len()
        invariant
            i <= srgb.len(),
            forall|j: int| 0 <= j < i ==> !srgb[j],
        decreases srgb.len() - i,
    {
        if srgb[i] {
            return i;
        }
        i = i + 1;
    }
    proof {
        if srgb@.contains(true) {
            let k = choose|k: int| 0 <= k < srgb.len() && srgb[k] == true;
            assert(!srgb[k]);
        }
    }
    0
}

/// Picks the surface format from those the surface supports: the first sRGB
/// one, or else the first of all.
pub fn choose_surface_format(formats: &Vec<wgpu::TextureFormat>) -> (format: wgpu::TextureFormat)
    requires
        formats.len() > 0,
    ensures
        exists|k: int|
            0 <= k < formats.len() && format == formats[k]
                && (forall|j: int| 0 <= j < k ==> !format_srgb(#[trigger] formats[j]))
                && (format_srgb(formats[k]) || (k == 0
                    && forall|j: int| 0 <= j < formats.len() ==> !format_srgb(#[trigger] formats[j]))),
{
    let mut srgb: Vec<bool> = Vec::new();
    let mut i: usize = 0;
    while i < formats.len()
        invariant
            i <= formats.len(),
            srgb.len() == i,
            forall|j: int| 0 <= j < i ==> srgb[j] == format_srgb(#[trigger] formats[j]),
        decreases formats.len() - i,
    {
        srgb.push(format_is_srgb(&formats[i]));
        i = i + 1;
    }
    let k = surface_format_index(&srgb);
    proof {
        if !srgb@.contains(true) {
            assert forall|j: int| 0 <= j < formats.len() implies !format_srgb(#[trigger] formats[j]) by {
                if format_srgb(formats[j]) {
                    assert(srgb@[j] == true);
                }
            }
        } else {
            assert forall|j: int| 0 <= j < k implies !format_srgb(#[trigger] formats[j]) by {
                assert(!srgb[j]);
            }
        }
    }
    formats[k]
}

/// How the surface is configured.
#[derive(Clone, Copy, Debug)]
pub struct SurfaceConfigDesc {
    pub format: wgpu::TextureFormat,
    pub width: u32,
    pub height: u32,
    /// Index of the presentation mode among those the surface supports.
    pub present_mode_index: usize,
    /// Index of the alpha mode among those the surface supports.
    pub alpha_mode_index: usize,
    pub desired_maximum_frame_latency: u32,
    /// The surface's textures are used only as render targets.
    pub render_attachment_only: bool,
    /// Number of other formats views of the surface may take.
    pub view_formats: usize,
}

/// The configuration of a surface of the given extent and format: the first
/// presentation and alpha modes the surface supports, two frames of latency,
/// render targets only, and no other view formats.
pub open spec fn surface_config_spec(extent: SurfaceExtent, format: wgpu::TextureFormat) -> SurfaceConfigDesc {
    SurfaceConfigDesc {
        format,
        width: extent.width,
        height: extent.height,
        present_mode_index: 0,
        alpha_mode_index: 0,
        desired_maximum_frame_latency: DESIRED_MAXIMUM_FRAME_LATENCY,
        render_attachment_only: true,
        view_formats: 0,
    }
}

/// The configuration of a surface of the given extent and format.
pub fn surface_config(extent: &SurfaceExtent, format: wgpu::TextureFormat) -> (c: SurfaceConfigDesc)
    ensures
        c == surface_config_spec(*extent, format),
{
    SurfaceConfigDesc {
        format,
        width: extent.width,
        height: extent.height,
        present_mode_index: 0,
        alpha_mode_index: 0,
        desired_maximum_frame_latency: DESIRED_MAXIMUM_FRAME_LATENCY,
        render_attachment_only: true,
        view_formats: 0,
    }
}

/// The size the surface is configured with, beside the window size it was
/// last given.
#[derive(Clone, Copy, Debug)]
pub struct SurfaceExtent {
    /// The last accepted window size, as signed pixel counts.
    pub size: (i32, i32),
    /// Width the surface is configured with.
    pub width: u32,
    /// Height the surface is configured with.
    pub height: u32,
}

/// A window dimension is usable when it is positive as a signed pixel count.
pub open spec fn usable_dimension(d: u32) -> bool {
    0 < d <= i32::MAX
}

/// The extent for a window of the given inner size.
pub open spec fn extent_for(inner_width: u32, inner_height: u32) -> SurfaceExtent {
    SurfaceExtent {
        size: (inner_width as i32, inner_height as i32),
        width: inner_width,
        height: inner_height,
    }
}

/// The extent after the window reports a new inner size: taken when both
/// dimensions are usable, ignored otherwise.
pub open spec fn resized(e: SurfaceExtent, inner_width: u32, inner_height: u32) -> SurfaceExtent {
    if usable_dimension(inner_width) && usable_dimension(inner_height) {
        extent_for(inner_width, inner_height)
    } else {
        e
    }
}

proof fn lemma_dimension_cast(d: u32)
    ensures
        (d as i32 > 0) == usable_dimension(d),
        (d as i32) as u32 == d,
        usable_dimension(d) ==> d as i32 == d,
{
    assert((d as i32 > 0) == (0 < d && d <= 0x7fff_ffffu32)) by (bit_vector);
    assert((d as i32) as u32 == d) by (bit_vector);
    assert((0 < d && d <= 0x7fff_ffffu32) ==> d as i32 == d) by (bit_vector);
}

/// Every extent made for a window agrees with itself, and following the
/// window keeps that so.
pub proof fn law_extent_stays_consistent(e: SurfaceExtent, inner_width: u32, inner_height: u32)
    ensures
        extent_for(inner_width, inner_height).wf(),
        e.wf() ==> resized(e, inner_width, inner_height).wf(),
{
    lemma_dimension_cast(inner_width);
    lemma_dimension_cast(inner_height);
}

/// Reporting the same window size twice changes nothing the second time.
pub proof fn law_resize_idempotent(e: SurfaceExtent, inner_width: u32, inner_height: u32)
    ensures
        resized(resized(e, inner_width, inner_height), inner_width, inner_height)
            == resized(e, inner_width, inner_height),
{
}

/// A minimized window (a dimension of zero) never changes the surface, and
/// a usable size makes the surface exactly as large as the window.
pub proof fn law_resize_follows_window(e: SurfaceExtent, inner_width: u32, inner_height: u32)
    ensures
        inner_width == 0 || inner_height == 0 ==> resized(e, inner_width, inner_height) == e,
        usable_dimension(inner_width) && usable_dimension(inner_height) ==> {
            let r = resized(e, inner_width, inner_height);
            r.width == inner_width && r.height == inner_height
        },
{
}

impl SurfaceExtent {
    /// The configured size agrees with the recorded window size.
    pub open spec fn wf(self) -> bool {
        &&& self.width == self.size.0 as u32
        &&& self.height == self.size.1 as u32
    }

    /// The extent of a surface created for a window of the given inner size.
    pub fn new(inner_width: u32, inner_height: u32) -> (e: Self)
        ensures
            e == extent_for(inner_width, inner_height),
            e.wf(),
    {
        proof {
            lemma_dimension_cast(inner_width);
            lemma_dimension_cast(inner_height);
        }
        let size: (i32, i32) = (inner_width as i32, inner_height as i32);
        SurfaceExtent { size, width: size.0 as u32, height: size.1 as u32 }
    }

    /// Follows the window to a new inner size. A size with a dimension that
    /// is zero (a minimized window) or too large for a signed pixel count
    /// leaves the surface as it is; any other is taken as the new size.
    /// Returns whether the surface must be configured again.
    pub fn resize(&mut self, inner_width: u32, inner_height: u32) -> (reconfigure: bool)
        requires
            old(self).wf(),
        ensures
            *final(self) == resized(*old(self), inner_width, inner_height),
            final(self).wf(),
            reconfigure == (usable_dimension(inner_width) && usable_dimension(inner_height)),
    {
        proof {
            lemma_dimension_cast(inner_width);
            lemma_dimension_cast(inner_height);
        }
        let new_size: (i32, i32) = (inner_width as i32, inner_height as i32);
        if new_size.0 > 0 && new_size.1 > 0 {
            self.size = new_size;
            self.width = new_size.0 as u32;
            self.height = new_size.1 as u32;
            true
        } else {
            false
        }
    }
}

} // verus!
