use vstd::prelude::*;

verus! {

/// A colour with its red, green and blue channels premultiplied by alpha,
/// as the rasteriser fills shapes with it.
#[derive(Clone, Copy, Debug, PartialEq, Eq, Structural)]
pub struct Color {
    pub r: u8,
    pub g: u8,
    pub b: u8,
    pub a: u8,
}

/// `c * alpha / 255`, rounded to nearest, in the integer form of the
/// rasteriser (`t = alpha * c + 128; (t + t / 256) / 256`).
pub open spec fn premultiplied_channel(alpha: u8, c: u8) -> int {
    let t = alpha * c + 128;
    (t + t / 256) / 256
}

/// The colour that premultiplying `(a, r, g, b)` by its alpha gives.
pub open spec fn premultiplied(a: u8, r: u8, g: u8, b: u8) -> Color {
    Color {
        r: premultiplied_channel(a, r) as u8,
        g: premultiplied_channel(a, g) as u8,
        b: premultiplied_channel(a, b) as u8,
        a: a,
    }
}

/// Calls `raqote::SolidSource::from_unpremultiplied_argb`, which keeps the
/// alpha and sets each colour channel to `muldiv255(a, c)` of `sw_composite`,
/// i.e. `t = a * c + 128; (t + (t >> 8)) >> 8`, truncated to a byte; the
/// contract claims exactly that, channel by channel.
#[verifier::external_body]
fn solid_source(a: u8, r: u8, g: u8, b: u8) -> (c: Color)
    ensures
        c == premultiplied(a, r, g, b),
{
    let s = raqote::SolidSource::from_unpremultiplied_argb(a, r, g, b);
    Color { r: s.r, g: s.g, b: s.b, a: s.a }
}

/// Premultiplying never gives a channel above alpha.
pub proof fn premultiplied_channel_bounded(alpha: u8, c: u8)
    ensures
        0 <= premultiplied_channel(alpha, c) <= alpha,
{
    assert({
        let t = alpha * c + 128;
        0 <= (t + t / 256) / 256 <= alpha
    }) by (bit_vector);
}

/// An opaque colour is left as it is by premultiplying.
pub proof fn premultiplied_opaque(c: u8)
    ensures
        premultiplied_channel(255, c) == c,
{
    assert({
        let t = 255 * c + 128;
        (t + t / 256) / 256 == c
    }) by (bit_vector);
}

/// A fully transparent colour premultiplies to black.
pub proof fn premultiplied_transparent(c: u8)
    ensures
        premultiplied_channel(0, c) == 0,
{
}

/// Premultiplying an opaque colour changes none of its channels.
pub proof fn premultiplied_opaque_color(r: u8, g: u8, b: u8)
    ensures
        premultiplied(255, r, g, b) == (Color { r, g, b, a: 255 }),
{
    premultiplied_opaque(r);
    premultiplied_opaque(g);
    premultiplied_opaque(b);
}

impl Color {
    /// The premultiplied colour of an unpremultiplied `(a, r, g, b)`.
    pub fn from_unpremultiplied_argb(a: u8, r: u8, g: u8, b: u8) -> (c: Color)
        ensures
            c == premultiplied(a, r, g, b),
            c.r <= a && c.g <= a && c.b <= a,
    {
        proof {
            premultiplied_channel_bounded(a, r);
            premultiplied_channel_bounded(a, g);
            premultiplied_channel_bounded(a, b);
        }
        solid_source(a, r, g, b)
    }

    /// An opaque colour, which premultiplying leaves unchanged.
    fn opaque(r: u8, g: u8, b: u8) -> (c: Color)
        ensures
            c == (Color { r, g, b, a: 255 }),
    {
        proof {
            premultiplied_opaque_color(r, g, b);
        }
        Color::from_unpremultiplied_argb(0xff, r, g, b)
    }

    /// The road and the parking spaces: opaque white.
    pub fn road() -> (c: Color)
        ensures
            c == (Color { r: 255, g: 255, b: 255, a: 255 }),
    {
        Color::opaque(0xff, 0xff, 0xff)
    }

    /// The background each scene is cleared to: opaque black.
    pub fn background() -> (c: Color)
        ensures
            c == (Color { r: 0, g: 0, b: 0, a: 255 }),
    {
        Color::opaque(0x00, 0x00, 0x00)
    }

    /// The car's body and mirrors: opaque light blue.
    pub fn car_body() -> (c: Color)
        ensures
            c == (Color { r: 24, g: 174, b: 219, a: 255 }),
    {
        Color::opaque(24, 174, 219)
    }

    /// The car's wheels: opaque black.
    pub fn wheel() -> (c: Color)
        ensures
            c == (Color { r: 0, g: 0, b: 0, a: 255 }),
    {
        Color::opaque(0, 0, 0)
    }

    /// The outline of a menu button: opaque green.
    pub fn button() -> (c: Color)
        ensures
            c == (Color { r: 102, g: 252, b: 3, a: 255 }),
    {
        Color::opaque(102, 252, 3)
    }

    /// The text of a menu button: opaque blue, given already premultiplied.
    pub fn label() -> (c: Color)
        ensures
            c == (Color { r: 0, g: 0, b: 255, a: 255 }),
    {
        Color { r: 0, g: 0, b: 0xff, a: 0xff }
    }
}

} // verus!
