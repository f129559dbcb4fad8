use gpu_record::color::{norm_channel_bits, NormalizedColor};
use gpu_record::resources::Color;
use gpu_record::targets::ColorTargetInfo;

#[test]
fn norm_bits_matches_float_division_for_every_channel_value() {
    for c in 0..=255u32 {
        let expected = ((c as f32) / 255.0).to_bits();
        assert_eq!(norm_channel_bits(c as u8), expected, "channel value {}", c);
    }
}

#[test]
fn norm_bits_endpoints_are_exact() {
    assert_eq!(norm_channel_bits(0), 0.0f32.to_bits());
    assert_eq!(norm_channel_bits(255), 1.0f32.to_bits());
    assert_eq!(f32::from_bits(norm_channel_bits(0)), 0.0);
    assert_eq!(f32::from_bits(norm_channel_bits(255)), 1.0);
}

#[test]
fn clear_color_is_stored_normalized() {
    let color = Color { r: 255, g: 0, b: 128, a: 64 };
    let info = ColorTargetInfo::default().with_clear_color(color);
    let expected = NormalizedColor {
        r_bits: (255.0f32 / 255.0).to_bits(),
        g_bits: (0.0f32 / 255.0).to_bits(),
        b_bits: (128.0f32 / 255.0).to_bits(),
        a_bits: (64.0f32 / 255.0).to_bits(),
    };
    assert_eq!(info.clear_color, expected);
}
