use octows2811::color::{decode_color, encode_color, from_wire_order, pack_channels, to_wire_order, unpack_channels};
use octows2811::config::pack_config;
use octows2811::{ColorOrder, TypeRate};

const ORDERS: [ColorOrder; 6] = [
    ColorOrder::Ws2811Rgb,
    ColorOrder::Ws2811Rbg,
    ColorOrder::Ws2811Grb,
    ColorOrder::Ws2811Gbr,
    ColorOrder::Ws2811Brg,
    ColorOrder::Ws2811Bgr,
];

#[test]
fn wire_words_for_each_order() {
    let (r, g, b) = (0x11u8, 0x22u8, 0x33u8);
    assert_eq!(encode_color(ColorOrder::Ws2811Rgb, r, g, b), 0x112233);
    assert_eq!(encode_color(ColorOrder::Ws2811Rbg, r, g, b), 0x113322);
    assert_eq!(encode_color(ColorOrder::Ws2811Grb, r, g, b), 0x221133);
    assert_eq!(encode_color(ColorOrder::Ws2811Gbr, r, g, b), 0x223311);
    assert_eq!(encode_color(ColorOrder::Ws2811Brg, r, g, b), 0x331122);
    assert_eq!(encode_color(ColorOrder::Ws2811Bgr, r, g, b), 0x332211);
}

#[test]
fn encoding_and_decoding_are_inverse() {
    for order in ORDERS {
        for &(r, g, b) in &[(0u8, 0u8, 0u8), (255, 0, 0), (0, 255, 0), (0, 0, 255), (1, 2, 3), (255, 255, 255), (200, 17, 99)] {
            assert_eq!(decode_color(order, encode_color(order, r, g, b)), (r, g, b));
            assert_eq!(from_wire_order(order, to_wire_order(order, (r, g, b))), (r, g, b));
            assert_eq!(to_wire_order(order, from_wire_order(order, (r, g, b))), (r, g, b));
        }
    }
}

#[test]
fn decoding_ignores_the_high_byte() {
    assert_eq!(decode_color(ColorOrder::Ws2811Rgb, 0xFF12_3456), (0x12, 0x34, 0x56));
    assert_eq!(decode_color(ColorOrder::Ws2811Bgr, 0x0012_3456), (0x56, 0x34, 0x12));
}

#[test]
fn packing_channels() {
    assert_eq!(pack_channels((0xFF, 0, 0)), 0xFF0000);
    assert_eq!(pack_channels((0xFF, 0xFF, 0xFF)), 0xFF_FFFF);
    assert_eq!(unpack_channels(0x00AB_CDEF), (0xAB, 0xCD, 0xEF));
}

#[test]
fn config_bytes() {
    assert_eq!(pack_config(ColorOrder::Ws2811Rgb, TypeRate::Ws2811r800kHz), 0x00);
    assert_eq!(pack_config(ColorOrder::Ws2811Grb, TypeRate::Ws2811r800kHz), 0x02);
    assert_eq!(pack_config(ColorOrder::Ws2811Grb, TypeRate::Ws2811r400kHz), 0x12);
    assert_eq!(pack_config(ColorOrder::Ws2811Bgr, TypeRate::Ws2813r800kHz), 0x25);
}

#[test]
fn config_fields_are_disjoint() {
    let rates = [TypeRate::Ws2811r800kHz, TypeRate::Ws2811r400kHz, TypeRate::Ws2813r800kHz];
    let mut seen: Vec<u8> = Vec::new();
    for order in ORDERS {
        for rate in rates {
            let c = pack_config(order, rate);
            assert_eq!(c & 0x0F, pack_config(order, TypeRate::Ws2811r800kHz));
            assert_eq!(c & 0xF0, pack_config(ColorOrder::Ws2811Rgb, rate));
            assert!(!seen.contains(&c));
            seen.push(c);
        }
    }
}
