use tether_artnet_controller::artnet::{
    encode_frame, random, scale_to_byte, write_channel, write_fixture, write_fixtures, write_macro, zero,
    ArtNetError, ArtNetInterface, ArtNetMode, Endpoint,
};
use tether_artnet_controller::colour::Colour;
use tether_artnet_controller::fixture::{
    target_channel, ChannelList, ChannelWithResolution, ColourMacro, ControlMode, FixtureConfig, FixtureInstance,
    FixtureMacro, GroupedCMYChannels, GroupedRGBLChannels, GroupedRGBWChannels, HiResRGBChannels, ValueMacro,
};

fn control(label: &str, channels: Vec<ChannelWithResolution>, value: u16) -> FixtureMacro {
    FixtureMacro::Control(ValueMacro {
        label: label.to_string(),
        channels,
        current_value: value,
        animation: None,
        midi_knob_index: None,
    })
}

fn colour(label: &str, channels: ChannelList, value: Colour) -> FixtureMacro {
    FixtureMacro::Colour(ColourMacro { label: label.to_string(), channels, current_value: value, animation: None })
}

fn fixture(label: &str, start_channel: u16, macros: Vec<FixtureMacro>) -> FixtureInstance {
    FixtureInstance {
        label: label.to_string(),
        config_name: "test".to_string(),
        start_channel,
        mode_index: 0,
        config: FixtureConfig {
            name: "test".to_string(),
            reference: String::new(),
            modes: Vec::new(),
            active_mode: ControlMode { name: "mode".to_string(), mappings: Vec::new(), macros },
        },
    }
}

fn universe(fill: u8) -> Vec<u8> {
    vec![fill; 512]
}

#[test]
fn first_channel_of_first_fixture_is_index_zero() {
    assert_eq!(target_channel(1, 1), Some(0));
}

#[test]
fn channel_offsets_are_both_one_indexed() {
    assert_eq!(target_channel(1, 10), Some(9));
    assert_eq!(target_channel(3, 10), Some(11));
    assert_eq!(target_channel(512, 1), Some(511));
    assert_eq!(target_channel(1, 512), Some(511));
    assert_eq!(target_channel(256, 257), Some(511));
}

#[test]
fn channels_outside_the_universe_have_no_index() {
    assert_eq!(target_channel(0, 1), None);
    assert_eq!(target_channel(1, 0), None);
    assert_eq!(target_channel(513, 1), None);
    assert_eq!(target_channel(2, 512), None);
    assert_eq!(target_channel(65535, 65535), None);
}

#[test]
fn zero_gives_a_universe_of_zeroes() {
    let mut channels = vec![7u8; 3];
    zero(&mut channels);
    assert_eq!(channels, universe(0));
}

#[test]
fn random_keeps_the_length() {
    let mut channels = universe(0);
    random(&mut channels);
    assert_eq!(channels.len(), 512);
    let mut short = vec![0u8; 5];
    random(&mut short);
    assert_eq!(short.len(), 5);
}

#[test]
fn random_bytes_vary() {
    let mut a = universe(0);
    let mut b = universe(0);
    random(&mut a);
    random(&mut b);
    assert_ne!(a, b);
}

#[test]
fn write_channel_skips_what_is_outside() {
    let mut channels = universe(0);
    write_channel(&mut channels, 5, 1, 99);
    write_channel(&mut channels, 600, 1, 98);
    write_channel(&mut channels, 0, 1, 97);
    let mut want = universe(0);
    want[4] = 99;
    assert_eq!(channels, want);
}

#[test]
fn eight_bit_macro_writes_its_value() {
    let mut channels = universe(0);
    let m = control("dimmer", vec![ChannelWithResolution::LoRes(1), ChannelWithResolution::LoRes(4)], 128);
    write_macro(&mut channels, &m, 3);
    let mut want = universe(0);
    want[2] = 128;
    want[5] = 128;
    assert_eq!(channels, want);
}

#[test]
fn eight_bit_macro_never_sends_more_than_full() {
    assert_eq!(scale_to_byte(255, false), 255);
    assert_eq!(scale_to_byte(256, false), 255);
    assert_eq!(scale_to_byte(65535, false), 255);
    assert_eq!(scale_to_byte(0, false), 0);
}

#[test]
fn sixteen_bit_value_scales_down_rounding_towards_zero() {
    assert_eq!(scale_to_byte(0, true), 0);
    assert_eq!(scale_to_byte(256, true), 0);
    assert_eq!(scale_to_byte(257, true), 1);
    assert_eq!(scale_to_byte(0x1234, true), 18);
    assert_eq!(scale_to_byte(32768, true), 127);
    assert_eq!(scale_to_byte(65534, true), 254);
    assert_eq!(scale_to_byte(65535, true), 255);
}

#[test]
fn sixteen_bit_macro_splits_big_endian() {
    let mut channels = universe(9);
    let m = control(
        "pan",
        vec![ChannelWithResolution::HiRes((1, 2)), ChannelWithResolution::LoRes(3)],
        0x1234,
    );
    write_macro(&mut channels, &m, 1);
    let mut want = universe(9);
    want[0] = 0x12;
    want[1] = 0x34;
    want[2] = 18;
    assert_eq!(channels, want);
}

#[test]
fn sixteen_bit_macro_with_one_channel_outside_writes_the_other() {
    let mut channels = universe(0);
    let m = control("pan", vec![ChannelWithResolution::HiRes((512, 513))], 0xABCD);
    write_macro(&mut channels, &m, 1);
    let mut want = universe(0);
    want[511] = 0xAB;
    assert_eq!(channels, want);
}

#[test]
fn additive_colour_sends_rgb_and_inverse_alpha() {
    let mut channels = universe(0);
    let groups = GroupedRGBWChannels { red: vec![1, 5], green: vec![2], blue: vec![3], white: vec![4] };
    let m = colour("colour", ChannelList::AdditiveRGBW8(groups), Colour { r: 10, g: 20, b: 30, a: 200 });
    write_macro(&mut channels, &m, 1);
    let mut want = universe(0);
    want[0] = 10;
    want[1] = 20;
    want[2] = 30;
    want[3] = 55;
    want[4] = 10;
    assert_eq!(channels, want);
}

#[test]
fn additive_white_is_the_inverse_of_alpha_for_every_alpha() {
    for alpha in 0..=255u8 {
        let mut channels = universe(0);
        let groups = GroupedRGBWChannels { red: vec![], green: vec![], blue: vec![], white: vec![1] };
        let m = colour("c", ChannelList::AdditiveRGBW8(groups), Colour { r: 1, g: 2, b: 3, a: alpha });
        write_macro(&mut channels, &m, 1);
        assert_eq!(channels[0], 255 - alpha);
    }
}

#[test]
fn lime_takes_the_inverse_of_alpha_too() {
    let mut channels = universe(0);
    let groups = GroupedRGBLChannels { red: vec![1], green: vec![2], blue: vec![3], lime: vec![4] };
    let m = colour("colour", ChannelList::AdditiveRGBL8(groups), Colour { r: 255, g: 0, b: 7, a: 0 });
    write_macro(&mut channels, &m, 101);
    assert_eq!(&channels[100..104], &[255, 0, 7, 255]);
}

#[test]
fn subtractive_colour_sends_inverse_rgb() {
    let mut channels = universe(0);
    let groups = GroupedCMYChannels { cyan: vec![1], magenta: vec![2], yellow: vec![3] };
    let m = colour("colour", ChannelList::Subtractive(groups), Colour { r: 255, g: 100, b: 0, a: 17 });
    write_macro(&mut channels, &m, 1);
    assert_eq!(&channels[0..4], &[0, 155, 255, 0]);
}

#[test]
fn sixteen_bit_colour_group_writes_nothing() {
    let mut channels = universe(3);
    let groups = HiResRGBChannels { red: (1, 2), green: (3, 4), blue: (5, 6) };
    let m = colour("colour", ChannelList::AdditiveRGB16(groups), Colour { r: 255, g: 100, b: 0, a: 17 });
    write_macro(&mut channels, &m, 1);
    assert_eq!(channels, universe(3));
}

#[test]
fn unmapped_channels_keep_their_bytes() {
    let mut channels = universe(77);
    let f = fixture("a", 10, vec![control("dimmer", vec![ChannelWithResolution::LoRes(1)], 5)]);
    write_fixture(&mut channels, &f);
    let mut want = universe(77);
    want[9] = 5;
    assert_eq!(channels, want);
}

#[test]
fn later_macro_wins_within_a_fixture() {
    let mut channels = universe(0);
    let f = fixture(
        "a",
        1,
        vec![
            control("one", vec![ChannelWithResolution::LoRes(1)], 11),
            control("two", vec![ChannelWithResolution::LoRes(1)], 22),
        ],
    );
    write_fixture(&mut channels, &f);
    assert_eq!(channels[0], 22);
}

#[test]
fn later_fixture_wins_an_overlapping_channel() {
    let a = fixture("a", 1, vec![control("dimmer", vec![ChannelWithResolution::LoRes(3)], 11)]);
    let b = fixture("b", 2, vec![control("dimmer", vec![ChannelWithResolution::LoRes(2)], 22)]);
    let mut channels = universe(0);
    write_fixtures(&mut channels, &vec![a.clone(), b.clone()]);
    assert_eq!(channels[2], 22);
    let mut reversed = universe(0);
    write_fixtures(&mut reversed, &vec![b, a]);
    assert_eq!(reversed[2], 11);
}

#[test]
fn frame_carries_the_universe_in_order() {
    let mut channels = universe(0);
    for (i, c) in channels.iter_mut().enumerate() {
        *c = (i % 251) as u8;
    }
    let frame = encode_frame(1, &channels).unwrap();
    let mut want = vec![65u8, 114, 116, 45, 78, 101, 116, 0, 0, 80, 0, 14, 0, 0, 1, 0, 2, 0];
    want.extend_from_slice(&channels);
    assert_eq!(frame, want);
    assert_eq!(frame.len(), 530);
}

#[test]
fn frame_names_its_universe() {
    let frame = encode_frame(7, &universe(0)).unwrap();
    assert_eq!(&frame[14..16], &[7, 0]);
    let frame = encode_frame(0, &universe(0)).unwrap();
    assert_eq!(&frame[14..16], &[0, 0]);
    let frame = encode_frame(255, &universe(0)).unwrap();
    assert_eq!(&frame[14..16], &[255, 0]);
}

#[test]
fn frame_of_odd_length_is_padded() {
    let frame = encode_frame(1, &vec![9, 8, 7]).unwrap();
    assert_eq!(frame, vec![65, 114, 116, 45, 78, 101, 116, 0, 0, 80, 0, 14, 0, 0, 1, 0, 0, 4, 9, 8, 7, 0]);
    let frame = encode_frame(1, &vec![255]).unwrap();
    assert_eq!(frame, vec![65, 114, 116, 45, 78, 101, 116, 0, 0, 80, 0, 14, 0, 0, 1, 0, 0, 2, 255, 0]);
}

#[test]
fn frame_cannot_carry_nothing_or_too_much() {
    assert_eq!(encode_frame(1, &Vec::new()), None);
    assert_eq!(encode_frame(1, &vec![0u8; 513]), None);
    assert!(encode_frame(1, &vec![0u8; 512]).is_some());
    assert!(encode_frame(1, &vec![0u8; 1]).is_some());
}

#[test]
fn zero_frequency_is_turned_down() {
    assert_eq!(ArtNetInterface::new(ArtNetMode::Broadcast, 0, 1).err(), Some(ArtNetError::ZeroFrequency));
}

#[test]
fn interval_is_a_period_rounded_up() {
    assert_eq!(ArtNetInterface::new(ArtNetMode::Broadcast, 44, 1).unwrap().interval(), 23);
    assert_eq!(ArtNetInterface::new(ArtNetMode::Broadcast, 1, 1).unwrap().interval(), 1000);
    assert_eq!(ArtNetInterface::new(ArtNetMode::Broadcast, 1000, 1).unwrap().interval(), 1);
    assert_eq!(ArtNetInterface::new(ArtNetMode::Broadcast, 3, 1).unwrap().interval(), 334);
    assert_eq!(ArtNetInterface::new(ArtNetMode::Broadcast, 5000, 1).unwrap().interval(), 1);
    assert_eq!(ArtNetInterface::new(ArtNetMode::Broadcast, u64::MAX, 1).unwrap().interval(), 1);
}

#[test]
fn new_interface_starts_at_zeroes() {
    let a = ArtNetInterface::new(ArtNetMode::Broadcast, 44, 1).unwrap();
    assert_eq!(a.get_state(), &universe(0));
    assert!(matches!(a.mode_in_use(), ArtNetMode::Broadcast));
}

#[test]
fn interface_keeps_its_mode() {
    let mode = ArtNetMode::Unicast(
        Endpoint { ip: "10.0.0.1".to_string(), port: 6453 },
        Endpoint { ip: "10.0.0.2".to_string(), port: 6454 },
    );
    let a = ArtNetInterface::new(mode, 44, 1).unwrap();
    match a.mode_in_use() {
        ArtNetMode::Unicast(s, d) => {
            assert_eq!(s.ip, "10.0.0.1");
            assert_eq!(s.port, 6453);
            assert_eq!(d.ip, "10.0.0.2");
            assert_eq!(d.port, 6454);
        },
        ArtNetMode::Broadcast => panic!("mode was lost"),
    }
}

#[test]
fn first_frame_is_due_at_once() {
    let mut a = ArtNetInterface::new(ArtNetMode::Broadcast, 44, 3).unwrap();
    let channels = universe(5);
    let frame = a.update(&channels, &Vec::new(), false, 0).unwrap();
    assert_eq!(frame, encode_frame(3, &channels).unwrap());
    assert_eq!(a.get_state(), &channels);
}

#[test]
fn frames_wait_for_the_interval_after_a_send() {
    let mut a = ArtNetInterface::new(ArtNetMode::Broadcast, 10, 1).unwrap();
    let first = universe(1);
    let second = universe(2);
    assert!(a.update(&first, &Vec::new(), false, 1000).is_some());
    a.mark_sent(1000);
    assert!(a.update(&second, &Vec::new(), false, 1000).is_none());
    assert!(a.update(&second, &Vec::new(), false, 1099).is_none());
    assert_eq!(a.get_state(), &first);
    assert!(a.update(&second, &Vec::new(), false, 1100).is_some());
    assert_eq!(a.get_state(), &second);
}

#[test]
fn interval_counts_from_the_last_send() {
    let mut a = ArtNetInterface::new(ArtNetMode::Broadcast, 10, 1).unwrap();
    let channels = universe(1);
    a.mark_sent(1000);
    assert!(a.update(&channels, &Vec::new(), false, 1150).is_some());
    a.mark_sent(1150);
    assert!(a.update(&channels, &Vec::new(), false, 1200).is_none());
    assert!(a.update(&channels, &Vec::new(), false, 1250).is_some());
}

#[test]
fn a_clock_behind_the_last_send_sends_nothing() {
    let mut a = ArtNetInterface::new(ArtNetMode::Broadcast, 10, 1).unwrap();
    a.mark_sent(5000);
    assert!(a.update(&universe(0), &Vec::new(), false, 10).is_none());
}

#[test]
fn an_unconfirmed_frame_is_due_again() {
    let mut a = ArtNetInterface::new(ArtNetMode::Broadcast, 10, 1).unwrap();
    assert!(a.update(&universe(0), &Vec::new(), false, 0).is_some());
    assert!(a.update(&universe(0), &Vec::new(), false, 1).is_some());
}

#[test]
fn update_applies_macros_only_when_asked() {
    let fixtures = vec![fixture("a", 1, vec![control("dimmer", vec![ChannelWithResolution::LoRes(2)], 200)])];
    let mut a = ArtNetInterface::new(ArtNetMode::Broadcast, 44, 1).unwrap();
    a.update(&universe(1), &fixtures, false, 0);
    assert_eq!(a.get_state(), &universe(1));
    a.update(&universe(1), &fixtures, true, 0);
    let mut want = universe(1);
    want[1] = 200;
    assert_eq!(a.get_state(), &want);
}

#[test]
fn flush_builds_a_frame_whatever_the_time() {
    let mut a = ArtNetInterface::new(ArtNetMode::Broadcast, 1, 9).unwrap();
    a.mark_sent(1_000_000);
    let channels = universe(4);
    assert_eq!(a.flush(&channels), encode_frame(9, &channels).unwrap());
    assert_eq!(a.get_state(), &channels);
}
