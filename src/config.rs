//! The configuration byte handed to the transmission engine.
use vstd::prelude::*;
use crate::color::ColorOrder;

verus! {

/// Bit rate and chip type of the strings.
#[derive(Debug, Clone, Copy, PartialEq, Eq, Structural)]
pub enum TypeRate {
    /// Nearly all WS2811 run at 800 kHz.
    Ws2811r800kHz,
    /// Slower WS2811 pixels, such as Flora pixels.
    Ws2811r400kHz,
    /// Close to 800 kHz, with a longer reset delay between frames.
    Ws2813r800kHz,
}

pub const WS2811_RGB: u8 = 0x00;
pub const WS2811_RBG: u8 = 0x01;
pub const WS2811_GRB: u8 = 0x02;
pub const WS2811_GBR: u8 = 0x03;
pub const WS2811_BRG: u8 = 0x04;
pub const WS2811_BGR: u8 = 0x05;

pub const WS2811_800KHZ: u8 = 0x00;
pub const WS2811_400KHZ: u8 = 0x10;
pub const WS2813_800KHZ: u8 = 0x20;

/// Bits of the configuration byte that select the color order.
pub const ORDER_MASK: u8 = 0x0F;
/// Bits of the configuration byte that select the timing.
pub const RATE_MASK: u8 = 0xF0;

/// The engine's selector for a color order; it lies in the low four bits.
pub open spec fn order_code(order: ColorOrder) -> u8 {
    match order {
        ColorOrder::Ws2811Rgb => WS2811_RGB,
        ColorOrder::Ws2811Rbg => WS2811_RBG,
        ColorOrder::Ws2811Grb => WS2811_GRB,
        ColorOrder::Ws2811Gbr => WS2811_GBR,
        ColorOrder::Ws2811Brg => WS2811_BRG,
        ColorOrder::Ws2811Bgr => WS2811_BGR,
    }
}

/// The engine's selector for a timing; it lies in the high four bits.
pub open spec fn rate_code(rate: TypeRate) -> u8 {
    match rate {
        TypeRate::Ws2811r800kHz => WS2811_800KHZ,
        TypeRate::Ws2811r400kHz => WS2811_400KHZ,
        TypeRate::Ws2813r800kHz => WS2813_800KHZ,
    }
}

/// The bitwise union of the two selectors.
pub open spec fn config_byte(order: ColorOrder, rate: TypeRate) -> u8 {
    order_code(order) | rate_code(rate)
}

/// The color order selected by a configuration byte, if any.
pub open spec fn order_of_code(code: u8) -> Option<ColorOrder> {
    if code == WS2811_RGB {
        Some(ColorOrder::Ws2811Rgb)
    } else if code == WS2811_RBG {
        Some(ColorOrder::Ws2811Rbg)
    } else if code == WS2811_GRB {
        Some(ColorOrder::Ws2811Grb)
    } else if code == WS2811_GBR {
        Some(ColorOrder::Ws2811Gbr)
    } else if code == WS2811_BRG {
        Some(ColorOrder::Ws2811Brg)
    } else if code == WS2811_BGR {
        Some(ColorOrder::Ws2811Bgr)
    } else {
        None
    }
}

/// The timing selected by a configuration byte, if any.
pub open spec fn rate_of_code(code: u8) -> Option<TypeRate> {
    if code == WS2811_800KHZ {
        Some(TypeRate::Ws2811r800kHz)
    } else if code == WS2811_400KHZ {
        Some(TypeRate::Ws2811r400kHz)
    } else if code == WS2813_800KHZ {
        Some(TypeRate::Ws2813r800kHz)
    } else {
        None
    }
}

/// The two selectors occupy disjoint bits: masking the combined byte gives
/// each one back, so the order and the timing are recovered from it.
pub proof fn lemma_config_fields_disjoint(order: ColorOrder, rate: TypeRate)
    ensures
        config_byte(order, rate) & ORDER_MASK == order_code(order),
        config_byte(order, rate) & RATE_MASK == rate_code(rate),
        config_byte(order, rate) == order_code(order) + rate_code(rate),
        order_of_code(config_byte(order, rate) & ORDER_MASK) == Some(order),
        rate_of_code(config_byte(order, rate) & RATE_MASK) == Some(rate),
{
    let o = order_code(order);
    let t = rate_code(rate);
    assert(o <= 5 && (t == 0 || t == 16 || t == 32));
    assert((o | t) & 0x0F == o && (o | t) & 0xF0 == t && o | t == o + t) by (bit_vector)
        requires o <= 5 && (t == 0 || t == 16 || t == 32);
}

/// Distinct pairs of order and timing give distinct configuration bytes.
pub proof fn lemma_config_injective(o1: ColorOrder, r1: TypeRate, o2: ColorOrder, r2: TypeRate)
    ensures
        config_byte(o1, r1) == config_byte(o2, r2) ==> o1 == o2 && r1 == r2,
{
    lemma_config_fields_disjoint(o1, r1);
    lemma_config_fields_disjoint(o2, r2);
}

/// The configuration byte for a color order and a timing.
pub fn pack_config(order: ColorOrder, rate: TypeRate) -> (r: u8)
    ensures
        r == config_byte(order, rate),
{
    let color: u8 = match order {
        ColorOrder::Ws2811Rgb => WS2811_RGB,
        ColorOrder::Ws2811Rbg => WS2811_RBG,
        ColorOrder::Ws2811Grb => WS2811_GRB,
        ColorOrder::Ws2811Gbr => WS2811_GBR,
        ColorOrder::Ws2811Brg => WS2811_BRG,
        ColorOrder::Ws2811Bgr => WS2811_BGR,
    };
    let timing: u8 = match rate {
        TypeRate::Ws2811r800kHz => WS2811_800KHZ,
        TypeRate::Ws2811r400kHz => WS2811_400KHZ,
        TypeRate::Ws2813r800kHz => WS2813_800KHZ,
    };
    color | timing
}

} // verus!
