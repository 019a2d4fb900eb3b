//! Colours and the pixel that the LED is given for a colour at a brightness.

use vstd::prelude::*;

verus! {

/// An 8-bit red, green and blue colour.
#[derive(Clone, Copy, Debug, PartialEq, Eq, Structural)]
pub struct Colour {
    pub r: u8,
    pub g: u8,
    pub b: u8,
}

impl Colour {
    /// All channels off.
    pub open spec fn spec_black() -> Colour {
        Colour { r: 0, g: 0, b: 0 }
    }

    /// All channels full.
    pub open spec fn spec_white() -> Colour {
        Colour { r: 255, g: 255, b: 255 }
    }

    /// All channels off.
    pub fn black() -> (c: Colour)
        ensures
            c == Colour::spec_black(),
    {
        Colour { r: 0, g: 0, b: 0 }
    }
}

/// The gamma-corrected value of one channel: the lookup table that
/// `smart_leds::gamma` applies to each channel of a pixel.
pub uninterp spec fn gamma8(level: u8) -> u8;

/// One channel scaled to a brightness, as `smart_leds::brightness` computes
/// it: the channel times `level + 1`, divided by 256.
pub open spec fn dim_channel(channel: u8, level: u8) -> u8 {
    ((channel as int) * (level as int + 1) / 256) as u8
}

/// A colour with each channel gamma-corrected.
pub open spec fn gamma_corrected(c: Colour) -> Colour {
    Colour { r: gamma8(c.r), g: gamma8(c.g), b: gamma8(c.b) }
}

/// A colour with each channel scaled to a brightness.
pub open spec fn dimmed(c: Colour, level: u8) -> Colour {
    Colour { r: dim_channel(c.r, level), g: dim_channel(c.g, level), b: dim_channel(c.b, level) }
}

/// The pixel sent to the LED for `colour` at brightness `level`:
/// gamma correction first, then the brightness reduction.
pub open spec fn spec_render(colour: Colour, level: u8) -> Colour {
    dimmed(gamma_corrected(colour), level)
}

/// Calls `smart_leds::gamma` on a one-pixel iterator and takes its first item.
/// The contract claims that the item is there and that each channel went
/// through the same table, which maps 0 to 0 and 255 to 255.
#[verifier::external_body]
fn gamma_pixel(colour: Colour) -> (out: Option<Colour>)
    ensures
        out == Some((Colour { r: gamma8(colour.r), g: gamma8(colour.g), b: gamma8(colour.b) })),
        colour.r == 0 ==> out.unwrap().r == 0,
        colour.g == 0 ==> out.unwrap().g == 0,
        colour.b == 0 ==> out.unwrap().b == 0,
        colour.r == 255 ==> out.unwrap().r == 255,
        colour.g == 255 ==> out.unwrap().g == 255,
        colour.b == 255 ==> out.unwrap().b == 255,
{
    let pixel = smart_leds::RGB8 { r: colour.r, g: colour.g, b: colour.b };
    smart_leds::gamma(core::iter::once(pixel)).next().map(|p| Colour { r: p.r, g: p.g, b: p.b })
}

/// Calls `smart_leds::brightness` on a one-pixel iterator and takes its first
/// item. The contract claims that the item is there and that each channel is
/// `channel * (level + 1) / 256`, as the crate's source computes it in `u16`.
#[verifier::external_body]
fn brightness_pixel(colour: Colour, level: u8) -> (out: Option<Colour>)
    ensures
        out == Some(dimmed(colour, level)),
{
    let pixel = smart_leds::RGB8 { r: colour.r, g: colour.g, b: colour.b };
    smart_leds::brightness(core::iter::once(pixel), level).next().map(
        |p| Colour { r: p.r, g: p.g, b: p.b },
    )
}

/// The pixel that the LED is given for `colour` at brightness `level`.
/// Black stays black at every brightness, and white at full brightness is
/// white.
pub fn render(colour: Colour, level: u8) -> (pixel: Colour)
    ensures
        pixel == spec_render(colour, level),
        colour == Colour::spec_black() ==> pixel == Colour::spec_black(),
        colour == Colour::spec_white() && level == 255 ==> pixel == Colour::spec_white(),
{
    let corrected = gamma_pixel(colour).unwrap();
    brightness_pixel(corrected, level).unwrap()
}

} // verus!
