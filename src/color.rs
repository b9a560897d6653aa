//! Channel order of a pixel on the wire, and the 24-bit words that hold it.
use vstd::prelude::*;

verus! {

/// Order in which a string expects the three channels of a pixel.
#[derive(Debug, Clone, Copy, PartialEq, Eq, Structural)]
pub enum ColorOrder {
    /// The order the WS2811 datasheet documents.
    Ws2811Rgb,
    Ws2811Rbg,
    /// The order most LED strips are wired in.
    Ws2811Grb,
    Ws2811Gbr,
    Ws2811Brg,
    Ws2811Bgr,
}

/// Three channel bytes, first to last.
pub type Channels = (u8, u8, u8);

/// The channels `(red, green, blue)` rearranged into the order they go on the wire.
pub open spec fn wire_channels(order: ColorOrder, c: Channels) -> Channels {
    let (r, g, b) = c;
    match order {
        ColorOrder::Ws2811Rgb => (r, g, b),
        ColorOrder::Ws2811Rbg => (r, b, g),
        ColorOrder::Ws2811Grb => (g, r, b),
        ColorOrder::Ws2811Gbr => (g, b, r),
        ColorOrder::Ws2811Brg => (b, r, g),
        ColorOrder::Ws2811Bgr => (b, g, r),
    }
}

/// The channels in wire order put back as `(red, green, blue)`.
pub open spec fn rgb_channels(order: ColorOrder, w: Channels) -> Channels {
    let (x, y, z) = w;
    match order {
        ColorOrder::Ws2811Rgb => (x, y, z),
        ColorOrder::Ws2811Rbg => (x, z, y),
        ColorOrder::Ws2811Grb => (y, x, z),
        ColorOrder::Ws2811Gbr => (z, x, y),
        ColorOrder::Ws2811Brg => (y, z, x),
        ColorOrder::Ws2811Bgr => (z, y, x),
    }
}

/// A 24-bit word holding three channel bytes, the first in the high byte.
pub open spec fn packed(c: Channels) -> int {
    c.0 as int * 65536 + c.1 as int * 256 + c.2 as int
}

/// The three low bytes of a word, high byte first.
pub open spec fn bytes_of(w: u32) -> Channels {
    (((w / 65536) % 256) as u8, ((w / 256) % 256) as u8, (w % 256) as u8)
}

/// The word stored for a pixel of the given color.
pub open spec fn wire_word(order: ColorOrder, red: u8, green: u8, blue: u8) -> u32 {
    packed(wire_channels(order, (red, green, blue))) as u32
}

/// The 24-bit `0xRRGGBB` value of the color held in a stored word.
pub open spec fn rgb_value(order: ColorOrder, w: u32) -> int {
    packed(rgb_channels(order, bytes_of(w)))
}

/// Putting the channels in wire order and taking them back out are inverse
/// permutations, in both directions.
pub proof fn lemma_wire_order_inverse(order: ColorOrder, c: Channels)
    ensures
        rgb_channels(order, wire_channels(order, c)) == c,
        wire_channels(order, rgb_channels(order, c)) == c,
{
}

/// A packed word gives back its three bytes.
pub proof fn lemma_bytes_of_packed(c: Channels)
    ensures
        0 <= packed(c) < 0x100_0000,
        bytes_of(packed(c) as u32) == c,
{
    let (x, y, z) = c;
    let a = x as int;
    let b = y as int;
    let d = z as int;
    let w = a * 65536 + b * 256 + d;
    assert(w / 65536 == a) by (nonlinear_arith)
        requires 0 <= a < 256, 0 <= b < 256, 0 <= d < 256, w == a * 65536 + b * 256 + d;
    assert(w / 256 == a * 256 + b) by (nonlinear_arith)
        requires 0 <= a < 256, 0 <= b < 256, 0 <= d < 256, w == a * 65536 + b * 256 + d;
    assert((a * 256 + b) % 256 == b) by (nonlinear_arith)
        requires 0 <= a < 256, 0 <= b < 256;
    assert(w % 256 == d) by (nonlinear_arith)
        requires 0 <= a < 256, 0 <= b < 256, 0 <= d < 256, w == a * 65536 + b * 256 + d;
}

/// A color written in a given order reads back as the same color: the stored
/// word decodes to `(red, green, blue)`, and its value is `0xRRGGBB`.
pub proof fn lemma_color_round_trip(order: ColorOrder, red: u8, green: u8, blue: u8)
    ensures
        rgb_channels(order, bytes_of(wire_word(order, red, green, blue))) == (red, green, blue),
        rgb_value(order, wire_word(order, red, green, blue)) == packed((red, green, blue)),
{
    lemma_bytes_of_packed(wire_channels(order, (red, green, blue)));
    lemma_wire_order_inverse(order, (red, green, blue));
}

/// Packs three channel bytes into a word, the first in the high byte.
pub fn pack_channels(c: Channels) -> (w: u32)
    ensures
        w as int == packed(c),
        w < 0x100_0000,
{
    (c.0 as u32) * 65536 + (c.1 as u32) * 256 + (c.2 as u32)
}

/// The three low bytes of a word, high byte first.
pub fn unpack_channels(w: u32) -> (c: Channels)
    ensures
        c == bytes_of(w),
{
    (((w / 65536) % 256) as u8, ((w / 256) % 256) as u8, (w % 256) as u8)
}

/// Rearranges `(red, green, blue)` into wire order.
pub fn to_wire_order(order: ColorOrder, c: Channels) -> (w: Channels)
    ensures
        w == wire_channels(order, c),
{
    let (r, g, b) = c;
    match order {
        ColorOrder::Ws2811Rgb => (r, g, b),
        ColorOrder::Ws2811Rbg => (r, b, g),
        ColorOrder::Ws2811Grb => (g, r, b),
        ColorOrder::Ws2811Gbr => (g, b, r),
        ColorOrder::Ws2811Brg => (b, r, g),
        ColorOrder::Ws2811Bgr => (b, g, r),
    }
}

/// Puts channels in wire order back as `(red, green, blue)`.
pub fn from_wire_order(order: ColorOrder, w: Channels) -> (c: Channels)
    ensures
        c == rgb_channels(order, w),
{
    let (x, y, z) = w;
    match order {
        ColorOrder::Ws2811Rgb => (x, y, z),
        ColorOrder::Ws2811Rbg => (x, z, y),
        ColorOrder::Ws2811Grb => (y, x, z),
        ColorOrder::Ws2811Gbr => (z, x, y),
        ColorOrder::Ws2811Brg => (y, z, x),
        ColorOrder::Ws2811Bgr => (z, y, x),
    }
}

/// The word to store for a pixel of color `(red, green, blue)`.
pub fn encode_color(order: ColorOrder, red: u8, green: u8, blue: u8) -> (w: u32)
    ensures
        w == wire_word(order, red, green, blue),
        w < 0x100_0000,
{
    pack_channels(to_wire_order(order, (red, green, blue)))
}

/// The color `(red, green, blue)` held in a stored word.
pub fn decode_color(order: ColorOrder, word: u32) -> (c: Channels)
    ensures
        c == rgb_channels(order, bytes_of(word)),
        packed(c) == rgb_value(order, word),
{
    from_wire_order(order, unpack_channels(word))
}

} // verus!
