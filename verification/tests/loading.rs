use tether_artnet_controller::artnet::{ArtNetError, ArtNetInterface, ArtNetMode, Endpoint};
use tether_artnet_controller::colour::Colour;
use tether_artnet_controller::fixture::{
    ChannelList, ChannelWithResolution, ColourMacro, ControlMode, FixtureConfig, FixtureInstance, FixtureMacro,
    GroupedCMYChannels, GroupedRGBWChannels, HiResRGBChannels, Mapping, RangeDescription, ValueMacro,
};
use tether_artnet_controller::loading::{
    assign_knobs, check_macro, check_mode, configure, find_config, load_configs, sort_macros, ConfigIssue,
    ConfigProblem,
};
use tether_artnet_controller::project::{choose_mode, get_artnet_interface, ArtNetConfigMode, MidiConfig, Project};
use tether_artnet_controller::scene::Scene;
use tether_artnet_controller::settings::{Cli, DEFAULT_ARTNET_HERTZ};
use tether_artnet_controller::sorting::sort_by_label;
use tether_artnet_controller::animation::Animation;
use tether_artnet_controller::model::Model;
use tether_artnet_controller::tether_interface::{RemoteControlMessage, TetherControlChangePayload, TetherMidiMessage};

fn control(label: &str, channels: Vec<ChannelWithResolution>) -> FixtureMacro {
    FixtureMacro::Control(ValueMacro {
        label: label.to_string(),
        channels,
        current_value: 0,
        animation: None,
        midi_knob_index: None,
    })
}

fn colour(label: &str, channels: ChannelList) -> FixtureMacro {
    FixtureMacro::Colour(ColourMacro::new(label.to_string(), channels))
}

fn rgbw(base: u16) -> ChannelList {
    ChannelList::AdditiveRGBW8(GroupedRGBWChannels {
        red: vec![base],
        green: vec![base + 1],
        blue: vec![base + 2],
        white: vec![base + 3],
    })
}

fn mapping(channel: u16, home: Option<u8>) -> Mapping {
    Mapping {
        channel,
        label: format!("ch{}", channel),
        notes: Some("note".to_string()),
        home,
        ranges: Some(vec![RangeDescription { range: [0, 255], label: "all".to_string(), notes: None }]),
    }
}

fn mode(name: &str, mappings: Vec<Mapping>, macros: Vec<FixtureMacro>) -> ControlMode {
    ControlMode { name: name.to_string(), mappings, macros }
}

fn config(name: &str, modes: Vec<ControlMode>) -> FixtureConfig {
    FixtureConfig { name: name.to_string(), reference: format!("{} manual", name), modes, active_mode: ControlMode::default() }
}

fn catalog() -> Vec<FixtureConfig> {
    vec![
        config(
            "Par",
            vec![
                mode(
                    "4ch",
                    vec![mapping(1, Some(255)), mapping(2, None)],
                    vec![
                        control("zoom", vec![ChannelWithResolution::LoRes(1)]),
                        colour("colour", rgbw(2)),
                        control("Dimmer", vec![ChannelWithResolution::HiRes((1, 2))]),
                    ],
                ),
                mode("wide", vec![mapping(510, None)], Vec::new()),
            ],
        ),
        config(
            "Beam",
            vec![mode(
                "16bit",
                Vec::new(),
                vec![colour(
                    "colour",
                    ChannelList::AdditiveRGB16(HiResRGBChannels { red: (1, 2), green: (3, 4), blue: (5, 6) }),
                )],
            )],
        ),
        config("par", vec![mode("shadowed", Vec::new(), Vec::new())]),
    ]
}

fn placed(label: &str, config_name: &str, start_channel: u16, mode_index: usize) -> FixtureInstance {
    FixtureInstance {
        label: label.to_string(),
        config_name: config_name.to_string(),
        start_channel,
        mode_index,
        config: FixtureConfig::default(),
    }
}

fn labels(f: &FixtureInstance) -> Vec<String> {
    f.config.active_mode.macros.iter().map(|m| m.label().clone()).collect()
}

fn knobs(f: &FixtureInstance) -> Vec<Option<usize>> {
    f.config
        .active_mode
        .macros
        .iter()
        .map(|m| match m {
            FixtureMacro::Control(v) => v.midi_knob_index,
            FixtureMacro::Colour(_) => None,
        })
        .collect()
}

#[test]
fn configurations_are_found_without_regard_to_case() {
    let catalog = catalog();
    assert_eq!(find_config(&catalog, "PAR"), Some(0));
    assert_eq!(find_config(&catalog, "par"), Some(0));
    assert_eq!(find_config(&catalog, "beam"), Some(1));
    assert_eq!(find_config(&catalog, "spot"), None);
    assert_eq!(find_config(&Vec::new(), "par"), None);
}

#[test]
fn configure_copies_the_configuration_and_its_mode() {
    let mut f = placed("a", "par", 1, 0);
    assert_eq!(configure(&mut f, &catalog()), None);
    assert_eq!(f.config.name, "Par");
    assert_eq!(f.config.reference, "Par manual");
    assert_eq!(f.config.modes.len(), 2);
    assert_eq!(f.config.active_mode.name, "4ch");
    assert_eq!(f.config.active_mode.mappings.len(), 2);
    assert_eq!(f.config.active_mode.mappings[0].home, Some(255));
    assert_eq!(f.config.active_mode.mappings[0].notes.as_deref(), Some("note"));
    assert_eq!(f.config.active_mode.mappings[0].ranges.as_ref().unwrap()[0].range, [0, 255]);
    assert_eq!(labels(&f), vec!["zoom", "colour", "Dimmer"]);
    assert_eq!((f.label.as_str(), f.config_name.as_str(), f.start_channel, f.mode_index), ("a", "par", 1, 0));
}

#[test]
fn unknown_fixture_is_left_empty() {
    let mut f = placed("a", "spot", 1, 0);
    f.config = catalog().remove(0);
    assert_eq!(configure(&mut f, &catalog()), Some(ConfigProblem::UnknownFixture));
    assert!(f.config.name.is_empty() && f.config.modes.is_empty());
    assert!(f.config.active_mode.macros.is_empty() && f.config.active_mode.mappings.is_empty());
}

#[test]
fn mode_index_beyond_the_modes_leaves_no_active_mode() {
    let mut f = placed("a", "Par", 1, 2);
    assert_eq!(configure(&mut f, &catalog()), Some(ConfigProblem::ModeIndexOutOfRange));
    assert_eq!(f.config.name, "Par");
    assert!(f.config.active_mode.macros.is_empty() && f.config.active_mode.mappings.is_empty());
}

#[test]
fn channels_outside_the_universe_leave_no_active_mode() {
    let mut f = placed("a", "Par", 509, 0);
    assert_eq!(configure(&mut f, &catalog()), Some(ConfigProblem::ChannelOutOfRange));
    assert!(f.config.active_mode.macros.is_empty());
    let mut f = placed("a", "Par", 508, 0);
    assert_eq!(configure(&mut f, &catalog()), None);
    let mut f = placed("a", "Par", 0, 0);
    assert_eq!(configure(&mut f, &catalog()), Some(ConfigProblem::ChannelOutOfRange));
    let mut f = placed("a", "Par", 3, 1);
    assert_eq!(configure(&mut f, &catalog()), None);
    let mut f = placed("a", "Par", 4, 1);
    assert_eq!(configure(&mut f, &catalog()), Some(ConfigProblem::ChannelOutOfRange));
}

#[test]
fn sixteen_bit_colour_is_turned_down() {
    let mut f = placed("a", "beam", 1, 0);
    assert_eq!(configure(&mut f, &catalog()), Some(ConfigProblem::UnsupportedChannelGroup));
    assert!(f.config.active_mode.macros.is_empty());
}

#[test]
fn macros_are_checked_one_by_one() {
    assert_eq!(check_macro(&control("a", vec![ChannelWithResolution::HiRes((1, 513))]), 1), Some(ConfigProblem::ChannelOutOfRange));
    assert_eq!(check_macro(&control("a", vec![ChannelWithResolution::HiRes((0, 1))]), 1), Some(ConfigProblem::ChannelOutOfRange));
    assert_eq!(check_macro(&control("a", vec![ChannelWithResolution::HiRes((511, 512))]), 1), None);
    assert_eq!(check_macro(&control("a", Vec::new()), 0), None);
    assert_eq!(check_macro(&colour("c", rgbw(509)), 1), None);
    assert_eq!(check_macro(&colour("c", rgbw(510)), 1), Some(ConfigProblem::ChannelOutOfRange));
    let cmy = ChannelList::Subtractive(GroupedCMYChannels { cyan: vec![1], magenta: vec![2], yellow: vec![600] });
    assert_eq!(check_macro(&colour("c", cmy), 1), Some(ConfigProblem::ChannelOutOfRange));
}

#[test]
fn first_problem_of_a_mode_is_reported() {
    let sixteen = ChannelList::AdditiveRGB16(HiResRGBChannels { red: (1, 2), green: (3, 4), blue: (5, 6) });
    let m = mode("m", Vec::new(), vec![colour("a", sixteen), control("b", vec![ChannelWithResolution::LoRes(600)])]);
    assert_eq!(check_mode(&m, 1), Some(ConfigProblem::UnsupportedChannelGroup));
    let sixteen = ChannelList::AdditiveRGB16(HiResRGBChannels { red: (1, 2), green: (3, 4), blue: (5, 6) });
    let m = mode("m", Vec::new(), vec![control("b", vec![ChannelWithResolution::LoRes(600)]), colour("a", sixteen)]);
    assert_eq!(check_mode(&m, 1), Some(ConfigProblem::ChannelOutOfRange));
    let sixteen = ChannelList::AdditiveRGB16(HiResRGBChannels { red: (1, 2), green: (3, 4), blue: (5, 6) });
    let m = mode("m", vec![mapping(513, None)], vec![colour("a", sixteen)]);
    assert_eq!(check_mode(&m, 1), Some(ConfigProblem::ChannelOutOfRange));
    assert_eq!(check_mode(&ControlMode::default(), 0), None);
}

#[test]
fn issues_name_the_fixtures_in_load_order() {
    let mut fixtures = vec![
        placed("d", "Par", 1, 0),
        placed("c", "nothing", 1, 0),
        placed("b", "Par", 1, 9),
        placed("a", "Beam", 1, 0),
    ];
    let issues = load_configs(&mut fixtures, &catalog());
    assert_eq!(
        issues,
        vec![
            ConfigIssue { fixture: 1, problem: ConfigProblem::UnknownFixture },
            ConfigIssue { fixture: 2, problem: ConfigProblem::ModeIndexOutOfRange },
            ConfigIssue { fixture: 3, problem: ConfigProblem::UnsupportedChannelGroup },
        ]
    );
    assert_eq!(fixtures[0].label, "d");
}

#[test]
fn knobs_are_numbered_across_fixtures() {
    let mut fixtures = vec![placed("b", "Par", 1, 0), placed("x", "nothing", 1, 0), placed("a", "Par", 20, 0)];
    load_configs(&mut fixtures, &catalog());
    assign_knobs(&mut fixtures);
    assert_eq!(knobs(&fixtures[0]), vec![Some(0), None, Some(1)]);
    assert_eq!(knobs(&fixtures[1]), Vec::<Option<usize>>::new());
    assert_eq!(knobs(&fixtures[2]), vec![Some(2), None, Some(3)]);
}

#[test]
fn macros_are_sorted_by_label() {
    let mut fixtures = vec![placed("b", "Par", 1, 0)];
    load_configs(&mut fixtures, &catalog());
    sort_macros(&mut fixtures);
    assert_eq!(labels(&fixtures[0]), vec!["Dimmer", "colour", "zoom"]);
}

#[test]
fn resolve_brings_a_project_into_use() {
    let mut project = Project::new();
    project.fixtures = vec![placed("b", "Par", 1, 0), placed("x", "nothing", 1, 0), placed("a", "Par", 20, 0)];
    project.scenes = vec![
        Scene::capture("two".to_string(), &vec![placed("z", "", 1, 0), placed("y", "", 1, 0)]),
        Scene::capture("One".to_string(), &Vec::new()),
    ];
    let issues = project.resolve(&catalog());
    assert_eq!(issues, vec![ConfigIssue { fixture: 1, problem: ConfigProblem::UnknownFixture }]);
    let order: Vec<&str> = project.fixtures.iter().map(|f| f.label.as_str()).collect();
    assert_eq!(order, vec!["a", "b", "x"]);
    assert_eq!(labels(&project.fixtures[0]), vec!["Dimmer", "colour", "zoom"]);
    assert_eq!(knobs(&project.fixtures[0]), vec![Some(3), None, Some(2)]);
    assert_eq!(knobs(&project.fixtures[1]), vec![Some(1), None, Some(0)]);
    let scenes: Vec<&str> = project.scenes.iter().map(|s| s.label.as_str()).collect();
    assert_eq!(scenes, vec!["One", "two"]);
    let keys: Vec<&String> = project.scenes[1].state.keys().collect();
    assert_eq!(keys, vec!["y", "z"]);
    assert_eq!(project.midi_config.controller_start, 48);
}

#[test]
fn sort_keeps_equal_labels_in_order() {
    let mut fixtures = vec![
        placed("b", "first", 1, 0),
        placed("a", "second", 1, 0),
        placed("b", "third", 1, 0),
        placed("B", "fourth", 1, 0),
        placed("", "fifth", 1, 0),
        placed("ab", "sixth", 1, 0),
        placed("a", "seventh", 1, 0),
    ];
    sort_by_label(&mut fixtures);
    let order: Vec<(&str, &str)> = fixtures.iter().map(|f| (f.label.as_str(), f.config_name.as_str())).collect();
    assert_eq!(
        order,
        vec![
            ("", "fifth"),
            ("B", "fourth"),
            ("a", "second"),
            ("a", "seventh"),
            ("ab", "sixth"),
            ("b", "first"),
            ("b", "third"),
        ]
    );
    let mut none: Vec<FixtureInstance> = Vec::new();
    sort_by_label(&mut none);
    assert!(none.is_empty());
}

#[test]
fn sort_agrees_with_the_order_of_strings() {
    let words = ["zeta", "Alpha", "alpha", "é", "z", "", "10", "9", "a b", "a", "ab", "~", "Z", "日本", "a"];
    let mut fixtures: Vec<FixtureInstance> = words.iter().map(|w| placed(w, "", 1, 0)).collect();
    sort_by_label(&mut fixtures);
    let mut want: Vec<&str> = words.to_vec();
    want.sort();
    let got: Vec<&str> = fixtures.iter().map(|f| f.label.as_str()).collect();
    assert_eq!(got, want);
}

#[test]
fn save_order_is_sorted_and_leaves_the_project() {
    let mut project = Project::new();
    project.fixtures = vec![placed("b", "Par", 1, 0), placed("a", "Par", 20, 0)];
    project.resolve(&catalog());
    project.fixtures.reverse();
    let saved = project.fixtures_in_save_order();
    let order: Vec<&str> = saved.iter().map(|f| f.label.as_str()).collect();
    assert_eq!(order, vec!["a", "b"]);
    assert_eq!(project.fixtures[0].label, "b");
    assert_eq!(labels(&saved[0]), labels(&project.fixtures[1]));
}

#[test]
fn copies_drop_animations_and_keep_values() {
    let mut v = ValueMacro {
        label: "dimmer".to_string(),
        channels: vec![ChannelWithResolution::HiRes((1, 2))],
        current_value: 300,
        animation: Some(Animation::new(10, 0, 1, 0)),
        midi_knob_index: Some(4),
    };
    let copy = v.clone();
    assert!(copy.animation.is_none());
    assert_eq!((copy.label.as_str(), copy.current_value, copy.midi_knob_index), ("dimmer", 300, Some(4)));
    assert!(copy.is_hi_res());
    v.channels = vec![ChannelWithResolution::LoRes(1)];
    assert!(!v.is_hi_res());
    let c = ColourMacro {
        label: "colour".to_string(),
        channels: rgbw(1),
        current_value: Colour { r: 1, g: 2, b: 3, a: 4 },
        animation: Some((Animation::new(10, 0, 65535, 0), Colour { r: 0, g: 0, b: 0, a: 0 }, Colour { r: 9, g: 9, b: 9, a: 9 })),
    };
    let copy = FixtureMacro::Colour(c).clone();
    match copy {
        FixtureMacro::Colour(c) => {
            assert!(c.animation.is_none());
            assert_eq!(c.current_value, Colour { r: 1, g: 2, b: 3, a: 4 });
            assert_eq!(c.label, "colour");
        },
        FixtureMacro::Control(_) => panic!("not a colour macro"),
    }
}

#[test]
fn new_colour_macro_is_light_yellow() {
    let c = ColourMacro::new("c".to_string(), rgbw(1));
    assert_eq!(c.current_value, Colour { r: 255, g: 255, b: 224, a: 255 });
    assert!(c.animation.is_none());
}

#[test]
fn new_instance_is_named_after_its_configuration() {
    let f = FixtureInstance::from(&catalog()[0]);
    assert_eq!(f.label, "My Par");
    assert_eq!(f.config_name, "Par");
    assert_eq!((f.start_channel, f.mode_index), (0, 0));
    assert_eq!(f.config.modes[0].macros.len(), 3);
    assert_eq!(f.config.modes[1].mappings[0].channel, 510);
}

#[test]
fn defaults_are_as_documented() {
    let midi = MidiConfig::default();
    assert_eq!((midi.controller_start, midi.note_start), (48, 49));
    let cli = Cli::default();
    assert_eq!(cli.project_path, "./example.project.json");
    assert_eq!(cli.log_level, "info");
    assert_eq!(cli.artnet_universe, 1);
    assert_eq!(cli.artnet_update_frequency, DEFAULT_ARTNET_HERTZ);
    assert_eq!(DEFAULT_ARTNET_HERTZ, 44);
    assert!(!cli.headless_mode && !cli.artnet_broadcast && !cli.auto_zero && !cli.auto_random);
    let project = Project::default();
    assert!(project.fixtures.is_empty() && project.scenes.is_empty() && project.artnet_config.is_none());
}

fn plan(mode: Option<ArtNetMode>) -> String {
    match mode {
        None => "none".to_string(),
        Some(ArtNetMode::Broadcast) => "broadcast".to_string(),
        Some(ArtNetMode::Unicast(s, d)) => format!("{}:{} -> {}:{}", s.ip, s.port, d.ip, d.port),
    }
}

#[test]
fn broadcast_on_the_command_line_decides() {
    let mut cli = Cli::default();
    cli.artnet_broadcast = true;
    cli.unicast_src = Some("1.1.1.1".to_string());
    cli.unicast_dst = Some("2.2.2.2".to_string());
    let mut project = Project::new();
    project.artnet_config = Some(ArtNetConfigMode::Unicast("3.3.3.3".to_string(), "4.4.4.4".to_string()));
    assert_eq!(plan(choose_mode(&cli, &project)), "broadcast");
}

#[test]
fn addresses_on_the_command_line_come_before_the_project() {
    let mut cli = Cli::default();
    cli.unicast_src = Some("1.1.1.1".to_string());
    cli.unicast_dst = Some("2.2.2.2".to_string());
    let mut project = Project::new();
    project.artnet_config = Some(ArtNetConfigMode::Broadcast);
    assert_eq!(plan(choose_mode(&cli, &project)), "1.1.1.1:6453 -> 2.2.2.2:6454");
    cli.unicast_dst = None;
    assert_eq!(plan(choose_mode(&cli, &project)), "broadcast");
}

#[test]
fn project_settings_are_used_without_overrides() {
    let cli = Cli::default();
    let mut project = Project::new();
    assert_eq!(plan(choose_mode(&cli, &project)), "none");
    project.artnet_config = Some(ArtNetConfigMode::Unicast("3.3.3.3".to_string(), "4.4.4.4".to_string()));
    assert_eq!(plan(choose_mode(&cli, &project)), "3.3.3.3:6453 -> 4.4.4.4:6454");
}

#[test]
fn interface_needs_settings_and_a_frequency() {
    let mut cli = Cli::default();
    let project = Project::new();
    assert_eq!(get_artnet_interface(&cli, &project).err(), Some(ArtNetError::NoSettings));
    cli.artnet_broadcast = true;
    cli.artnet_update_frequency = 0;
    assert_eq!(get_artnet_interface(&cli, &project).err(), Some(ArtNetError::ZeroFrequency));
    cli.artnet_update_frequency = 50;
    assert_eq!(get_artnet_interface(&cli, &project).unwrap().interval(), 20);
}

#[test]
fn config_mode_describes_an_interface() {
    let broadcast = ArtNetInterface::new(ArtNetMode::Broadcast, 1, 1).unwrap();
    assert!(matches!(ArtNetConfigMode::from(&broadcast), ArtNetConfigMode::Broadcast));
    let unicast = ArtNetInterface::new(
        ArtNetMode::Unicast(Endpoint { ip: "a".to_string(), port: 1 }, Endpoint { ip: "b".to_string(), port: 2 }),
        1,
        1,
    )
    .unwrap();
    match ArtNetConfigMode::from(&unicast) {
        ArtNetConfigMode::Unicast(s, d) => assert_eq!((s.as_str(), d.as_str()), ("a", "b")),
        ArtNetConfigMode::Broadcast => panic!("not a unicast"),
    }
}

#[test]
fn controller_change_reaches_the_first_macro_in_alphabetical_order() {
    let mut project = Project::new();
    project.fixtures = vec![placed("a", "Par", 1, 0)];
    project.resolve(&catalog());
    let mut m = Model::new(Cli::default(), project, None, catalog());
    let change = TetherControlChangePayload { channel: 0, controller: 48, value: 64 };
    assert!(m.handle_message(RemoteControlMessage::Midi(TetherMidiMessage::ControlChange(change)), 0));
    match &m.project.fixtures[0].config.active_mode.macros[0] {
        FixtureMacro::Control(v) => {
            assert_eq!(v.label, "Dimmer");
            assert_eq!(v.current_value, 128);
        },
        FixtureMacro::Colour(_) => panic!("not a control macro"),
    }
    match &m.project.fixtures[0].config.active_mode.macros[2] {
        FixtureMacro::Control(v) => assert_eq!((v.label.as_str(), v.current_value), ("zoom", 0)),
        FixtureMacro::Colour(_) => panic!("not a control macro"),
    }
}
