use tether_artnet_controller::colour::{animate_colour, default_rgb, linear_interpolate_u8, Colour, PROGRESS_MAX};

#[test]
fn lerp_at_no_progress_is_the_start_colour() {
    let start = Colour { r: 10, g: 200, b: 0, a: 255 };
    let end = Colour { r: 250, g: 20, b: 255, a: 0 };
    assert_eq!(animate_colour(&start, &end, 0), start);
}

#[test]
fn lerp_at_full_progress_is_the_end_colour() {
    let start = Colour { r: 10, g: 200, b: 0, a: 255 };
    let end = Colour { r: 250, g: 20, b: 255, a: 0 };
    assert_eq!(animate_colour(&start, &end, PROGRESS_MAX), end);
}

#[test]
fn lerp_ends_hold_for_every_pair_of_bytes() {
    for a in 0..=255u8 {
        for b in [0u8, 1, 127, 128, 254, 255] {
            assert_eq!(linear_interpolate_u8(a, b, 0), a);
            assert_eq!(linear_interpolate_u8(a, b, 65535), b);
        }
    }
}

#[test]
fn lerp_rounds_to_the_nearest_byte() {
    assert_eq!(linear_interpolate_u8(0, 255, 32768), 128);
    assert_eq!(linear_interpolate_u8(0, 255, 32767), 127);
    assert_eq!(linear_interpolate_u8(255, 0, 32768), 127);
    assert_eq!(linear_interpolate_u8(0, 100, 16384), 25);
    assert_eq!(linear_interpolate_u8(100, 0, 16384), 75);
    assert_eq!(linear_interpolate_u8(0, 1, 32767), 0);
    assert_eq!(linear_interpolate_u8(0, 1, 32768), 1);
    assert_eq!(linear_interpolate_u8(7, 7, 40000), 7);
}

#[test]
fn lerp_stays_between_its_ends() {
    let mut t: u32 = 0;
    while t <= 65535 {
        let up = linear_interpolate_u8(20, 200, t as u16);
        let down = linear_interpolate_u8(200, 20, t as u16);
        assert!((20..=200).contains(&up));
        assert!((20..=200).contains(&down));
        t += 257;
    }
}

#[test]
fn lerp_is_component_wise() {
    let start = Colour { r: 0, g: 255, b: 100, a: 50 };
    let end = Colour { r: 255, g: 0, b: 100, a: 150 };
    let mid = animate_colour(&start, &end, 32768);
    assert_eq!(mid, Colour { r: 128, g: 127, b: 100, a: 100 });
}

#[test]
fn white_mix_is_the_inverse_of_alpha() {
    for alpha in 0..=255u8 {
        let c = Colour { r: 1, g: 2, b: 3, a: alpha };
        assert_eq!(c.white_mix(), 255 - alpha);
    }
}

#[test]
fn cmy_is_the_inverse_of_rgb() {
    for v in 0..=255u8 {
        let c = Colour { r: v, g: 255 - v, b: v / 2, a: 9 };
        assert_eq!(c.to_cmy(), (255 - v, v, 255 - v / 2));
    }
}

#[test]
fn opaque_keeps_rgb_and_drops_alpha() {
    let c = Colour { r: 12, g: 34, b: 56, a: 78 };
    assert_eq!(c.to_opaque(), Colour { r: 12, g: 34, b: 56, a: 255 });
    assert_eq!(c.with_alpha(0), Colour { r: 12, g: 34, b: 56, a: 0 });
}

#[test]
fn default_colour_is_light_yellow() {
    assert_eq!(default_rgb(), Colour { r: 255, g: 255, b: 224, a: 255 });
}
