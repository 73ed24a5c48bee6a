use matplotrs::color::{black, white, red, gray, Color};
use matplotrs::color_lut::ColorLUT;
use matplotrs::fx::{FX_HALF, FX_ONE};

// Helper-free byte expectations: channels are micro-units, bytes are
// channel * 255 / 1_000_000 truncated and clamped.

#[test]
fn black_and_white_values() {
    assert_eq!(black(), Color(0, 0, 0, FX_ONE));
    assert_eq!(white(), Color(FX_ONE, FX_ONE, FX_ONE, FX_ONE));
}

#[test]
fn named_color_channels() {
    // Scarlet Red - Regular - #CC0000: 204 * 1_000_000 / 255 = 800_000.
    assert_eq!(red(), Color(800_000, 0, 0, FX_ONE));
    // Aluminium - Regular - #D3D7CF.
    let g = gray();
    assert_eq!(g.0, 211 * 1_000_000 / 255);
    assert_eq!(g.1, 215 * 1_000_000 / 255);
    assert_eq!(g.2, 207 * 1_000_000 / 255);
}

#[test]
fn bytes_rgb_scales_and_clamps() {
    assert_eq!(Color(FX_HALF, 0, FX_ONE, FX_ONE).bytes_rgb(), [127, 0, 255]);
    // Out-of-range channels clamp instead of wrapping.
    assert_eq!(Color(-FX_ONE, 2 * FX_ONE, FX_ONE, FX_ONE).bytes_rgb(), [0, 255, 255]);
}

#[test]
fn channel_accessors() {
    let mut c = Color::rgb(1, 2, 3);
    assert_eq!(c.red(), 1);
    assert_eq!(c.green(), 2);
    assert_eq!(c.blue(), 3);
    assert_eq!(c.3, FX_ONE);
    c.set_red(9);
    c.set_green(8);
    c.set_blue(7);
    assert_eq!(c, Color(9, 8, 7, FX_ONE));
}

#[test]
fn lut_midpoint_is_mid_gray() {
    let lut = ColorLUT::linear(vec![(0, black()), (FX_ONE, white())]);
    assert_eq!(lut.color_at(FX_HALF), Color(FX_HALF, FX_HALF, FX_HALF, FX_ONE));
}

#[test]
fn lut_ends_are_exact() {
    let lut = ColorLUT::linear(vec![(0, black()), (FX_ONE, white())]);
    assert_eq!(lut.color_at(0), Color(0, 0, 0, FX_ONE));
    assert_eq!(lut.color_at(FX_ONE), Color(FX_ONE, FX_ONE, FX_ONE, FX_ONE));
}

#[test]
fn lut_below_all_stops_is_black() {
    let lut = ColorLUT::linear(vec![(FX_HALF, white()), (FX_ONE, red())]);
    assert_eq!(lut.color_at(0), Color(0, 0, 0, FX_ONE));
}

#[test]
fn lut_degenerate_is_black() {
    let lut = ColorLUT::linear(vec![(0, white())]);
    assert_eq!(lut.color_at(FX_HALF), Color(0, 0, 0, FX_ONE));
    let empty = ColorLUT::linear(vec![]);
    assert_eq!(empty.color_at(0), Color(0, 0, 0, FX_ONE));
}

#[test]
fn grayscale_inverts() {
    let c = Color::grayscale(FX_ONE);
    assert_eq!(c, Color(0, 0, 0, FX_ONE));
    let d = Color::grayscale(0);
    assert_eq!(d, Color(FX_ONE, FX_ONE, FX_ONE, FX_ONE));
}
