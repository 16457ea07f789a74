use tether_artnet_controller::artnet::{encode_frame, ArtNetMode};
use tether_artnet_controller::fixture::{
    ChannelWithResolution, ControlMode, FixtureConfig, FixtureInstance, FixtureMacro, Mapping, RangeDescription,
    ValueMacro,
};
use tether_artnet_controller::model::{assigned_channels, find_scene, home_channels, BehaviourOnExit, Model, TetherStatus};
use tether_artnet_controller::project::{ArtNetConfigMode, Project};
use tether_artnet_controller::scene::{Scene, SceneValue};
use tether_artnet_controller::settings::Cli;
use tether_artnet_controller::tether_interface::{RemoteControlMessage, RemoteMacroMessage, RemoteMacroValue};
use tether_artnet_controller::ui::{connection_status, current_range, ViewMode};

fn control(label: &str, channel: u16, value: u16) -> FixtureMacro {
    FixtureMacro::Control(ValueMacro {
        label: label.to_string(),
        channels: vec![ChannelWithResolution::LoRes(channel)],
        current_value: value,
        animation: None,
        midi_knob_index: None,
    })
}

fn mapping(channel: u16, home: Option<u8>) -> Mapping {
    Mapping { channel, label: format!("ch{}", channel), notes: None, home, ranges: None }
}

fn fixture(label: &str, start_channel: u16, mappings: Vec<Mapping>, macros: Vec<FixtureMacro>) -> FixtureInstance {
    FixtureInstance {
        label: label.to_string(),
        config_name: "test".to_string(),
        start_channel,
        mode_index: 0,
        config: FixtureConfig {
            name: "test".to_string(),
            reference: String::new(),
            modes: Vec::new(),
            active_mode: ControlMode { name: "mode".to_string(), mappings, macros },
        },
    }
}

fn stage() -> Vec<FixtureInstance> {
    vec![
        fixture(
            "Spot",
            1,
            vec![mapping(1, Some(10)), mapping(2, None), mapping(3, Some(30))],
            vec![control("dimmer", 1, 100)],
        ),
        fixture("Wash", 3, vec![mapping(1, Some(77)), mapping(600, Some(1))], vec![control("dimmer", 2, 200)]),
    ]
}

fn broadcast() -> Cli {
    let mut cli = Cli::default();
    cli.artnet_broadcast = true;
    cli.artnet_update_frequency = 10;
    cli.artnet_universe = 4;
    cli
}

fn model(cli: Cli) -> Model {
    let mut project = Project::new();
    project.fixtures = stage();
    Model::new(cli, project, Some("show.json".to_string()), Vec::new())
}

fn control_value(m: &Model, f: usize, i: usize) -> u16 {
    match &m.project.fixtures[f].config.active_mode.macros[i] {
        FixtureMacro::Control(v) => v.current_value,
        FixtureMacro::Colour(_) => panic!("not a control macro"),
    }
}

fn home() -> Vec<u8> {
    let mut want = vec![0u8; 512];
    want[0] = 10;
    want[2] = 77;
    want
}

#[test]
fn home_values_come_from_the_mappings() {
    assert_eq!(home_channels(&stage()), home());
    assert_eq!(home_channels(&Vec::new()), vec![0u8; 512]);
}

#[test]
fn later_mapping_wins_a_shared_channel() {
    let mut fixtures = stage();
    fixtures.reverse();
    let mut want = home();
    want[2] = 30;
    assert_eq!(home_channels(&fixtures), want);
}

#[test]
fn assigned_channels_are_those_with_a_mapping() {
    let assigned = assigned_channels(&stage());
    assert_eq!(assigned.len(), 512);
    for (i, a) in assigned.iter().enumerate() {
        assert_eq!(*a, i < 3, "channel {}", i);
    }
}

#[test]
fn new_model_starts_at_home() {
    let m = model(broadcast());
    assert_eq!(m.channels_state, home());
    assert_eq!(m.channels_assigned.len(), 512);
    assert!(m.channels_assigned[2] && !m.channels_assigned[3]);
    assert!(!m.apply_macros);
    assert_eq!(m.selected_macro_group_index, 0);
    assert_eq!(m.view_mode, ViewMode::Scenes);
    assert_eq!(m.exit_mode, BehaviourOnExit::Home);
    assert!(m.save_on_exit);
    assert!(!m.show_confirm_exit && !m.allowed_to_close && !m.adding_new_fixture);
    assert!(m.new_fixture_to_add.is_none());
    assert!(matches!(m.tether_status, TetherStatus::NotConnected));
    assert!(matches!(m.artnet_edit_mode, ArtNetConfigMode::Broadcast));
    assert_eq!(m.current_project_path.as_deref(), Some("show.json"));
    let artnet = m.artnet.as_ref().unwrap();
    assert!(matches!(artnet.mode_in_use(), ArtNetMode::Broadcast));
    assert_eq!(artnet.interval(), 100);
}

#[test]
fn new_model_without_settings_has_no_interface() {
    let m = model(Cli::default());
    assert!(m.artnet.is_none());
    let mut cli = broadcast();
    cli.artnet_update_frequency = 0;
    assert!(model(cli).artnet.is_none());
}

#[test]
fn tick_sends_the_universe_as_it_is_without_macros() {
    let mut m = model(broadcast());
    let outcome = m.update(false, 0);
    assert_eq!(outcome.frame, encode_frame(4, &home()));
    assert!(outcome.work_done);
    assert_eq!(outcome.pause_ms, 0);
    assert_eq!(m.channels_state, home());
    assert_eq!(m.channels_state.len(), 512);
}

#[test]
fn tick_with_macros_writes_them_over_the_universe() {
    let mut m = model(broadcast());
    m.apply_macros = true;
    m.channels_state[100] = 42;
    let outcome = m.update(false, 0);
    let mut want = home();
    want[0] = 100;
    want[3] = 200;
    want[100] = 42;
    assert_eq!(outcome.frame, encode_frame(4, &want));
    assert_eq!(m.channels_state, want);
    assert_eq!(m.channels_state.len(), 512);
}

#[test]
fn unowned_channels_keep_their_bytes_from_tick_to_tick() {
    let mut m = model(broadcast());
    m.apply_macros = true;
    m.channels_state[100] = 42;
    let mut now = 0;
    for _ in 0..5 {
        let outcome = m.update(false, now);
        assert!(outcome.frame.is_some());
        m.frame_sent(now);
        assert_eq!(m.channels_state[100], 42);
        assert_eq!(m.channels_state[2], 77);
        assert_eq!(m.channels_state.len(), 512);
        now += 100;
    }
}

#[test]
fn tick_is_rate_limited_after_a_send() {
    let mut m = model(broadcast());
    assert!(m.update(false, 1000).frame.is_some());
    m.frame_sent(1000);
    let outcome = m.update(false, 1050);
    assert!(outcome.frame.is_none());
    assert!(!outcome.work_done);
    assert_eq!(outcome.pause_ms, 1);
    assert!(m.update(false, 1100).frame.is_some());
    assert!(m.update(true, 1050).work_done);
}

#[test]
fn tick_without_an_interface_still_animates() {
    let mut m = model(Cli::default());
    m.handle_message(
        RemoteControlMessage::MacroAnimation(RemoteMacroMessage {
            fixture_labels: None,
            macro_label: "dimmer".to_string(),
            value: RemoteMacroValue::ControlValue(0),
            ms: Some(10),
        }),
        0,
    );
    let outcome = m.update(true, 10);
    assert!(outcome.frame.is_none());
    assert!(outcome.work_done);
    assert_eq!(control_value(&m, 0, 0), 0);
    assert_eq!(control_value(&m, 1, 0), 0);
    assert_eq!(m.channels_state, home());
}

#[test]
fn animated_value_reaches_the_wire_one_tick_later() {
    let mut m = model(broadcast());
    m.handle_message(
        RemoteControlMessage::MacroAnimation(RemoteMacroMessage {
            fixture_labels: Some(vec!["spot".to_string()]),
            macro_label: "dimmer".to_string(),
            value: RemoteMacroValue::ControlValue(255),
            ms: Some(1000),
        }),
        0,
    );
    m.update(true, 1000);
    assert_eq!(control_value(&m, 0, 0), 255);
    assert_eq!(m.channels_state[0], 100);
    m.update(false, 1001);
    assert_eq!(m.channels_state[0], 255);
}

#[test]
fn auto_zero_sends_zeroes() {
    let mut cli = broadcast();
    cli.auto_zero = true;
    let mut m = model(cli);
    let outcome = m.update(false, 0);
    assert_eq!(outcome.frame, encode_frame(4, &vec![0u8; 512]));
    assert_eq!(outcome.pause_ms, 1000);
    assert_eq!(m.channels_state, vec![0u8; 512]);
}

#[test]
fn auto_random_sends_a_whole_universe() {
    let mut cli = broadcast();
    cli.auto_random = true;
    cli.auto_zero = true;
    let mut m = model(cli);
    let outcome = m.update(false, 0);
    assert_eq!(outcome.frame, encode_frame(4, &m.channels_state));
    assert_eq!(m.channels_state.len(), 512);
    assert_ne!(m.channels_state, vec![0u8; 512]);
    assert_eq!(outcome.pause_ms, 1000);
    m.frame_sent(0);
    assert_eq!(m.update(false, 1).pause_ms, 1001);
}

#[test]
fn quitting_goes_home() {
    let mut m = model(broadcast());
    m.apply_macros = true;
    m.channels_state = vec![9u8; 512];
    m.update(false, 0);
    m.frame_sent(0);
    let plan = m.reset_before_quit();
    assert_eq!(plan.frame, encode_frame(4, &home()));
    assert_eq!(plan.save_to.as_deref(), Some("show.json"));
    assert_eq!(plan.pause_ms, 500);
    assert_eq!(m.channels_state, home());
    assert!(!m.apply_macros);
}

#[test]
fn quitting_goes_to_zero() {
    let mut m = model(broadcast());
    m.exit_mode = BehaviourOnExit::Zero;
    m.save_on_exit = false;
    let plan = m.reset_before_quit();
    assert_eq!(plan.frame, encode_frame(4, &vec![0u8; 512]));
    assert_eq!(plan.save_to, None);
    assert_eq!(m.channels_state, vec![0u8; 512]);
}

#[test]
fn quitting_may_do_nothing() {
    let mut m = model(broadcast());
    m.exit_mode = BehaviourOnExit::DoNothing;
    m.apply_macros = true;
    m.current_project_path = None;
    m.channels_state = vec![9u8; 512];
    let plan = m.reset_before_quit();
    assert_eq!(plan.frame, None);
    assert_eq!(plan.save_to, None);
    assert_eq!(m.channels_state, vec![9u8; 512]);
    assert!(m.apply_macros);
}

#[test]
fn quitting_without_an_interface_sends_nothing() {
    let mut m = model(Cli::default());
    let plan = m.reset_before_quit();
    assert_eq!(plan.frame, None);
    assert_eq!(m.channels_state, home());
}

#[test]
fn setting_a_channel_by_hand_stops_the_macros() {
    let mut m = model(broadcast());
    m.apply_macros = true;
    m.set_channel(0, 33);
    assert!(!m.apply_macros);
    assert_eq!(m.channels_state[0], 33);
    assert_eq!(m.update(false, 0).frame.unwrap()[18], 33);
    m.apply_macros = true;
    m.set_channel(512, 1);
    assert!(m.apply_macros);
    assert_eq!(m.channels_state.len(), 512);
}

#[test]
fn buttons_for_all_channels_stop_the_macros() {
    let mut m = model(broadcast());
    m.apply_macros = true;
    m.all_zero();
    assert_eq!((m.channels_state.clone(), m.apply_macros), (vec![0u8; 512], false));
    m.apply_macros = true;
    m.all_home();
    assert_eq!((m.channels_state.clone(), m.apply_macros), (home(), false));
    m.apply_macros = true;
    m.all_random();
    assert_eq!((m.channels_state.len(), m.apply_macros), (512, false));
}

#[test]
fn scenes_are_added_saved_and_deleted() {
    let mut m = model(broadcast());
    m.add_scene("one".to_string());
    m.add_scene("two".to_string());
    assert_eq!(m.project.scenes.len(), 2);
    assert_eq!(m.project.scenes[1].label, "two");
    assert_eq!(m.project.scenes[0].state["Wash"]["dimmer"], SceneValue::ControlValue(200));
    match &mut m.project.fixtures[1].config.active_mode.macros[0] {
        FixtureMacro::Control(v) => v.current_value = 1,
        FixtureMacro::Colour(_) => panic!("not a control macro"),
    }
    m.update_scene(1);
    assert_eq!(m.project.scenes[1].state["Wash"]["dimmer"], SceneValue::ControlValue(1));
    assert_eq!(m.project.scenes[0].state["Wash"]["dimmer"], SceneValue::ControlValue(200));
    assert!(!m.project.scenes[1].is_editing && m.project.scenes[0].is_editing);
    m.update_scene(2);
    m.delete_scene(5);
    assert_eq!(m.project.scenes.len(), 2);
    m.delete_scene(0);
    assert_eq!(m.project.scenes.len(), 1);
    assert_eq!(m.project.scenes[0].label, "two");
}

#[test]
fn going_to_a_scene_marks_it_alone() {
    let mut m = model(broadcast());
    m.add_scene("one".to_string());
    m.add_scene("two".to_string());
    m.project.scenes[0].last_active = true;
    m.go_to_scene(1, None, 0);
    assert!(m.apply_macros);
    assert!(!m.project.scenes[0].last_active && !m.project.scenes[0].is_editing);
    assert!(m.project.scenes[1].last_active && m.project.scenes[1].is_editing);
    m.apply_macros = false;
    m.go_to_scene(7, None, 0);
    assert!(!m.apply_macros);
    assert!(!m.project.scenes[1].last_active && !m.project.scenes[1].is_editing);
}

#[test]
fn editing_one_scene_closes_the_others() {
    let mut m = model(broadcast());
    m.add_scene("one".to_string());
    m.add_scene("two".to_string());
    m.add_scene("three".to_string());
    assert_eq!(m.begin_editing(0), Some(2));
    assert!(m.project.scenes[0].is_editing && !m.project.scenes[1].is_editing && !m.project.scenes[2].is_editing);
    assert_eq!(m.begin_editing(9), Some(0));
    assert_eq!(m.begin_editing(1), None);
}

#[test]
fn editing_a_macro_opens_the_active_scene() {
    let mut m = model(broadcast());
    m.add_scene("one".to_string());
    m.add_scene("two".to_string());
    m.add_scene("three".to_string());
    for s in m.project.scenes.iter_mut() {
        s.is_editing = false;
    }
    m.macros_edited();
    assert!(m.apply_macros);
    assert!(m.project.scenes.iter().all(|s| !s.is_editing));
    m.project.scenes[1].last_active = true;
    m.project.scenes[2].last_active = true;
    m.macros_edited();
    assert!(!m.project.scenes[0].is_editing && m.project.scenes[1].is_editing && !m.project.scenes[2].is_editing);
}

#[test]
fn find_scene_takes_the_first_match() {
    let scenes = vec![
        Scene::capture("a".to_string(), &Vec::new()),
        Scene::capture("B".to_string(), &Vec::new()),
        Scene::capture("b".to_string(), &Vec::new()),
    ];
    assert_eq!(find_scene(&scenes, "b"), Some(1));
    assert_eq!(find_scene(&scenes, "A"), Some(0));
    assert_eq!(find_scene(&scenes, "c"), None);
    assert_eq!(find_scene(&Vec::new(), "a"), None);
}

#[test]
fn fixtures_are_added_first_and_removed() {
    let mut m = model(broadcast());
    m.known_fixtures = vec![FixtureConfig {
        name: "Par".to_string(),
        reference: "ref".to_string(),
        modes: vec![ControlMode { name: "m".to_string(), mappings: vec![mapping(1, None)], macros: Vec::new() }],
        active_mode: ControlMode::default(),
    }];
    m.begin_adding_fixture();
    assert!(m.adding_new_fixture);
    m.select_new_fixture(3);
    assert!(m.new_fixture_to_add.is_none());
    m.select_new_fixture(0);
    {
        let f = m.new_fixture_to_add.as_ref().unwrap();
        assert_eq!((f.label.as_str(), f.config_name.as_str(), f.start_channel, f.mode_index), ("My Par", "Par", 0, 0));
        assert_eq!(f.config.modes.len(), 1);
        assert_eq!(f.config.reference, "ref");
    }
    m.finish_adding_fixture(true);
    assert!(!m.adding_new_fixture && m.new_fixture_to_add.is_none());
    assert_eq!(m.project.fixtures.len(), 3);
    assert_eq!(m.project.fixtures[0].label, "My Par");
    m.select_new_fixture(0);
    m.finish_adding_fixture(false);
    assert_eq!(m.project.fixtures.len(), 3);
    m.remove_fixture(3);
    assert_eq!(m.project.fixtures.len(), 3);
    m.remove_fixture(0);
    assert_eq!(m.project.fixtures[0].label, "Spot");
}

#[test]
fn window_closes_after_the_question() {
    let mut m = model(broadcast());
    assert!(!m.request_close());
    assert!(m.show_confirm_exit);
    m.answer_exit(false);
    assert!(!m.show_confirm_exit && !m.allowed_to_close);
    assert!(!m.request_close());
    m.answer_exit(true);
    assert!(m.request_close());
    assert!(!m.show_confirm_exit);
}

#[test]
fn artnet_connects_as_edited() {
    let mut m = model(Cli::default());
    m.artnet_edit_mode = ArtNetConfigMode::Unicast("10.0.0.1".to_string(), "10.0.0.9".to_string());
    assert!(m.connect_artnet());
    match m.artnet.as_ref().unwrap().mode_in_use() {
        ArtNetMode::Unicast(s, d) => {
            assert_eq!((s.ip.as_str(), s.port, d.ip.as_str(), d.port), ("10.0.0.1", 6453, "10.0.0.9", 6454))
        },
        ArtNetMode::Broadcast => panic!("not a unicast"),
    }
    match m.project.artnet_config.as_ref().unwrap() {
        ArtNetConfigMode::Unicast(s, d) => assert_eq!((s.as_str(), d.as_str()), ("10.0.0.1", "10.0.0.9")),
        ArtNetConfigMode::Broadcast => panic!("not a unicast"),
    }
    m.disconnect_artnet();
    assert!(m.artnet.is_none());
    m.settings.artnet_update_frequency = 0;
    assert!(!m.connect_artnet());
    assert!(m.artnet.is_none());
}

#[test]
fn new_project_is_empty() {
    let mut m = model(broadcast());
    m.new_project();
    assert!(m.project.fixtures.is_empty() && m.project.scenes.is_empty());
    assert!(m.current_project_path.is_none());
    let mut project = Project::new();
    project.artnet_config = Some(ArtNetConfigMode::Broadcast);
    let mut plain = model(Cli::default());
    plain.project_loaded(project, "other.json".to_string());
    assert_eq!(plain.current_project_path.as_deref(), Some("other.json"));
    assert!(plain.artnet.is_some());
}

#[test]
fn connection_status_names_the_error() {
    assert!(matches!(connection_status(Ok(())), TetherStatus::Connected));
    match connection_status(Err("no broker".to_string())) {
        TetherStatus::Errored(text) => assert_eq!(text, "Error: no broker"),
        _ => panic!("not an error"),
    }
}

#[test]
fn current_range_is_the_first_that_holds_the_value() {
    let ranges = vec![
        RangeDescription { range: [0, 9], label: "off".to_string(), notes: None },
        RangeDescription { range: [10, 200], label: "on".to_string(), notes: None },
        RangeDescription { range: [150, 255], label: "strobe".to_string(), notes: Some("fast".to_string()) },
    ];
    assert_eq!(current_range(&ranges, 0), Some(0));
    assert_eq!(current_range(&ranges, 9), Some(0));
    assert_eq!(current_range(&ranges, 10), Some(1));
    assert_eq!(current_range(&ranges, 180), Some(1));
    assert_eq!(current_range(&ranges, 201), Some(2));
    assert_eq!(current_range(&ranges[..1].to_vec(), 10), None);
    assert!(ranges[2].contains(255) && !ranges[2].contains(149));
}
