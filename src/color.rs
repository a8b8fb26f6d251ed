use vstd::prelude::*;

verus! {

/// A colour in sRGB with premultiplied alpha, one byte per channel.
#[derive(Clone, Copy, Debug, PartialEq, Eq, Structural)]
pub struct Rgba {
    pub r: u8,
    pub g: u8,
    pub b: u8,
    pub a: u8,
}

impl Rgba {
    /// An opaque colour.
    pub fn rgb(r: u8, g: u8, b: u8) -> (c: Rgba)
        ensures
            c == (Rgba { r, g, b, a: 255 }),
    {
        Rgba { r, g, b, a: 255 }
    }
}

/// What egui's premultiplication gives for one channel `value` under a
/// translucent `alpha`: it goes through linear space and a lookup table.
pub uninterp spec fn premultiplied_channel(value: u8, alpha: u8) -> u8;

/// A channel made ten percent brighter, saturating at full intensity.
pub open spec fn lighter(c: u8) -> u8 {
    if c * 11 / 10 >= 255 {
        255
    } else {
        (c * 11 / 10) as u8
    }
}

/// The alpha of the seek preview: half transparent.
pub const PREVIEW_ALPHA: u8 = 128;

/// The colour of the seek preview for a given accent: each channel of the
/// accent made brighter, then drawn at half transparency.
pub open spec fn seek_color_of(accent: Rgba) -> Rgba {
    Rgba {
        r: premultiplied_channel(lighter(accent.r), PREVIEW_ALPHA),
        g: premultiplied_channel(lighter(accent.g), PREVIEW_ALPHA),
        b: premultiplied_channel(lighter(accent.b), PREVIEW_ALPHA),
        a: PREVIEW_ALPHA,
    }
}

/// Relies on egui's `Color32::from_rgba_unmultiplied`: alpha 0 gives the
/// transparent colour, alpha 255 keeps the channels, any other alpha maps
/// each channel through a table indexed by that channel and the alpha alone.
#[verifier::external_body]
fn from_unmultiplied(r: u8, g: u8, b: u8, a: u8) -> (c: Rgba)
    ensures
        a == 0 ==> c == (Rgba { r: 0, g: 0, b: 0, a: 0 }),
        a == 255 ==> c == (Rgba { r, g, b, a: 255 }),
        0 < a < 255 ==> c == (Rgba {
            r: premultiplied_channel(r, a),
            g: premultiplied_channel(g, a),
            b: premultiplied_channel(b, a),
            a,
        }),
{
    let [r, g, b, a] = egui::Color32::from_rgba_unmultiplied(r, g, b, a).to_array();
    Rgba { r, g, b, a }
}

/// One channel made ten percent brighter, saturating at 255.
pub fn lighten_channel(c: u8) -> (r: u8)
    ensures
        r == lighter(c),
{
    let scaled: u16 = c as u16 * 11 / 10;
    if scaled >= 255 {
        255
    } else {
        scaled as u8
    }
}

/// The colour in which a seek in progress is previewed.
pub fn seek_color(accent: Rgba) -> (c: Rgba)
    ensures
        c == seek_color_of(accent),
{
    from_unmultiplied(
        lighten_channel(accent.r),
        lighten_channel(accent.g),
        lighten_channel(accent.b),
        PREVIEW_ALPHA,
    )
}

} // verus!
