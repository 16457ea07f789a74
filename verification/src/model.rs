//! The engine's state, and what events and ticks do to it.

use crate::artnet::{
    apply_writes, art_dmx_frame, fixtures_writes, random, write_channel, write_to, zero, zeroes, ArtNetInterface,
};
use crate::fixture::{channel_index, target_channel, FixtureConfig, FixtureInstance, Mapping};
use crate::project::{get_artnet_interface, ArtNetConfigMode, Project};
use crate::router::{
    animate_fixtures, controller_change, controller_hits, fixtures_animated, fixtures_changed, knob_hits_any,
    knob_turned, macros_after_controller, macros_after_knob, macros_after_message, message_hits_any, recall_scene,
    set_macros,
};
use crate::scene::{captured_onto, macros_after_scene, Scene};
use crate::settings::Cli;
use crate::tether_interface::{RemoteControlMessage, RemoteMacroMessage, RemoteSceneMessage, TetherMidiMessage};
use crate::text::{eq_ignore_ascii_case, labels_match};
use crate::ui::ViewMode;
use vstd::prelude::*;

verus! {

/// What the engine sends as its last frame when it is told to quit.
#[derive(Clone, Copy, Debug, PartialEq, Eq, Structural)]
pub enum BehaviourOnExit {
    DoNothing,
    Home,
    Zero,
}

/// Whether remote-control messages are coming in.
#[derive(Debug)]
pub enum TetherStatus {
    NotConnected,
    Connected,
    Errored(String),
}

/// The state of the engine.
#[derive(Debug)]
pub struct Model {
    pub settings: Cli,
    /// The bytes of the universe, one per channel.
    pub channels_state: Vec<u8>,
    /// For each channel, whether a fixture's active mode maps it.
    pub channels_assigned: Vec<bool>,
    pub tether_status: TetherStatus,
    /// The Art-Net interface in use, if one is set up.
    pub artnet: Option<ArtNetInterface>,
    /// The Art-Net settings as they are being edited, not yet in use.
    pub artnet_edit_mode: ArtNetConfigMode,
    pub project: Project,
    /// Where the project was loaded from; none for a new project.
    pub current_project_path: Option<String>,
    pub adding_new_fixture: bool,
    pub new_fixture_to_add: Option<FixtureInstance>,
    pub known_fixtures: Vec<FixtureConfig>,
    /// Whether macros write their values into each frame. Off while channels are
    /// set by hand.
    pub apply_macros: bool,
    /// The place of the fixture whose macros controller changes go to.
    pub selected_macro_group_index: usize,
    pub view_mode: ViewMode,
    pub exit_mode: BehaviourOnExit,
    pub save_on_exit: bool,
    pub show_confirm_exit: bool,
    pub allowed_to_close: bool,
}

/// The writes that bring the mapped channels of a fixture to their home values.
pub open spec fn mapping_writes(mappings: Seq<Mapping>, start_channel: u16) -> Seq<(int, u8)>
    decreases mappings.len(),
{
    if mappings.len() == 0 {
        Seq::empty()
    } else {
        mapping_writes(mappings.drop_last(), start_channel) + match mappings.last().home {
            Some(value) => write_to(mappings.last().channel, start_channel, value),
            None => Seq::empty(),
        }
    }
}

/// The writes that bring the mapped channels of every fixture to their home values.
pub open spec fn home_writes(fixtures: Seq<FixtureInstance>) -> Seq<(int, u8)>
    decreases fixtures.len(),
{
    if fixtures.len() == 0 {
        Seq::empty()
    } else {
        home_writes(fixtures.drop_last()) + mapping_writes(
            fixtures.last().config.active_mode.mappings@,
            fixtures.last().start_channel,
        )
    }
}

/// The universe with every channel that has a home value at that value, and all
/// others at zero.
pub open spec fn home_values(fixtures: Seq<FixtureInstance>) -> Seq<u8> {
    apply_writes(zeroes(), home_writes(fixtures))
}

/// The macro group that a note selects: the note's distance from the first note.
/// A note below the first selects nothing.
pub open spec fn group_after_note(group: usize, note: u8, note_start: u8) -> usize {
    if note >= note_start {
        (note - note_start) as usize
    } else {
        group
    }
}

/// `i` is the place of the first scene whose label matches `label` up to ASCII case.
pub open spec fn is_first_scene(scenes: Seq<Scene>, label: Seq<char>, i: int) -> bool {
    &&& 0 <= i < scenes.len()
    &&& labels_match(scenes[i].label@, label)
    &&& forall|k: int| 0 <= k < i ==> !labels_match((#[trigger] scenes[k]).label@, label)
}

/// The place of the first scene whose label matches `label`, if any does.
pub open spec fn first_scene_named(scenes: Seq<Scene>, label: Seq<char>) -> Option<int> {
    if exists|i: int| is_first_scene(scenes, label, i) {
        Some(choose|i: int| is_first_scene(scenes, label, i))
    } else {
        None
    }
}

/// Finds the first scene whose label matches `label` up to ASCII case.
pub fn find_scene(scenes: &Vec<Scene>, label: &str) -> (found: Option<usize>)
    ensures
        found is Some <==> first_scene_named(scenes@, label@) is Some,
        found matches Some(i) ==> first_scene_named(scenes@, label@) == Some(i as int) && i < scenes.len(),
{
    let n = scenes.len();
    let mut i: usize = 0;
    while i < n
        invariant
            n == scenes.len(),
            i <= n,
            forall|k: int| 0 <= k < i ==> !labels_match((#[trigger] scenes[k]).label@, label@),
        decreases n - i,
    {
        if eq_ignore_ascii_case(scenes[i].label.as_str(), label) {
            proof {
                assert(is_first_scene(scenes@, label@, i as int));
                let c = choose|c: int| is_first_scene(scenes@, label@, c);
                assert(is_first_scene(scenes@, label@, c));
                if c < i {
                    assert(!labels_match(scenes@[c].label@, label@));
                }
                if i < c {
                    assert(!labels_match(scenes@[i as int].label@, label@));
                }
            }
            return Some(i);
        }
        i += 1;
    }
    proof {
        if exists|c: int| is_first_scene(scenes@, label@, c) {
            let c = choose|c: int| is_first_scene(scenes@, label@, c);
            assert(!labels_match(scenes@[c].label@, label@));
        }
    }
    None
}

fn write_home_values(channels: &mut Vec<u8>, fixture: &FixtureInstance)
    requires
        old(channels).len() == 512,
    ensures
        final(channels).len() == 512,
        final(channels)@ == apply_writes(
            old(channels)@,
            mapping_writes(fixture.config.active_mode.mappings@, fixture.start_channel),
        ),
{
    let mappings = &fixture.config.active_mode.mappings;
    let n = mappings.len();
    let mut j: usize = 0;
    assert(mappings@.take(0) =~= Seq::<Mapping>::empty());
    while j < n
        invariant
            n == mappings.len(),
            j <= n,
            channels.len() == 512,
            channels@ == apply_writes(old(channels)@, mapping_writes(mappings@.take(j as int), fixture.start_channel)),
        decreases n - j,
    {
        let ghost before = channels@;
        match mappings[j].home {
            Some(value) => {
                write_channel(channels, mappings[j].channel, fixture.start_channel, value);
            },
            None => {
                assert(apply_writes(before, Seq::<(int, u8)>::empty()) == before);
            },
        }
        proof {
            let prefix = mappings@.take(j as int + 1);
            assert(prefix.drop_last() =~= mappings@.take(j as int));
            assert(prefix.last() == mappings@[j as int]);
            crate::artnet::lemma_apply_writes_concat(
                old(channels)@,
                mapping_writes(mappings@.take(j as int), fixture.start_channel),
                match mappings@[j as int].home {
                    Some(value) => write_to(mappings@[j as int].channel, fixture.start_channel, value),
                    None => Seq::empty(),
                },
            );
        }
        j += 1;
    }
    assert(mappings@.take(n as int) =~= mappings@);
}

/// The universe with every mapped channel at its home value and all others at zero.
pub fn home_channels(fixtures: &Vec<FixtureInstance>) -> (channels: Vec<u8>)
    ensures
        channels@ == home_values(fixtures@),
        channels.len() == 512,
{
    let mut channels: Vec<u8> = Vec::new();
    zero(&mut channels);
    let n = fixtures.len();
    let mut i: usize = 0;
    assert(fixtures@.take(0) =~= Seq::<FixtureInstance>::empty());
    while i < n
        invariant
            n == fixtures.len(),
            i <= n,
            channels.len() == 512,
            channels@ == apply_writes(zeroes(), home_writes(fixtures@.take(i as int))),
        decreases n - i,
    {
        write_home_values(&mut channels, &fixtures[i]);
        proof {
            let prefix = fixtures@.take(i as int + 1);
            assert(prefix.drop_last() =~= fixtures@.take(i as int));
            assert(prefix.last() == fixtures@[i as int]);
            crate::artnet::lemma_apply_writes_concat(
                zeroes(),
                home_writes(fixtures@.take(i as int)),
                mapping_writes(fixtures@[i as int].config.active_mode.mappings@, fixtures@[i as int].start_channel),
            );
        }
        i += 1;
    }
    assert(fixtures@.take(n as int) =~= fixtures@);
    channels
}

impl Model {
    /// The universe and the record of mapped channels have one entry per channel.
    pub open spec fn wf(self) -> bool {
        &&& self.channels_state@.len() == 512
        &&& self.channels_assigned@.len() == 512
        &&& self.artnet matches Some(a) ==> a.wf()
    }

    /// `post` is `pre` but for its fixtures.
    pub open spec fn only_fixtures_changed(pre: Model, post: Model) -> bool {
        post == (Model { project: Project { fixtures: post.project.fixtures, ..pre.project }, ..pre })
    }

    /// What a message of a MIDI-style controller does. A note selects the macro
    /// group; a controller change goes to the macros of the selected fixture; a knob
    /// goes to the control macros that it is assigned to.
    pub open spec fn midi_handled(pre: Model, m: TetherMidiMessage, post: Model) -> bool {
        match m {
            TetherMidiMessage::NoteOn(n) => post == (Model {
                selected_macro_group_index: group_after_note(
                    pre.selected_macro_group_index,
                    n.note,
                    pre.project.midi_config.note_start,
                ),
                ..pre
            }),
            TetherMidiMessage::ControlChange(cc) => {
                &&& Model::only_fixtures_changed(pre, post)
                &&& fixtures_changed(
                    pre.project.fixtures@,
                    post.project.fixtures@,
                    |i: int, f: FixtureInstance|
                        if i == pre.selected_macro_group_index {
                            macros_after_controller(
                                f.macros(),
                                cc.controller,
                                pre.project.midi_config.controller_start,
                                cc.value,
                            )
                        } else {
                            f.macros()
                        },
                )
            },
            TetherMidiMessage::Knob(k) => {
                &&& Model::only_fixtures_changed(pre, post)
                &&& fixtures_changed(
                    pre.project.fixtures@,
                    post.project.fixtures@,
                    |i: int, f: FixtureInstance| macros_after_knob(f.macros(), k.index, k.position),
                )
            },
        }
    }

    /// What a message that sets a macro does.
    pub open spec fn macro_message_handled(pre: Model, msg: RemoteMacroMessage, now: u64, post: Model) -> bool {
        &&& Model::only_fixtures_changed(pre, post)
        &&& fixtures_changed(
            pre.project.fixtures@,
            post.project.fixtures@,
            |i: int, f: FixtureInstance| macros_after_message(f.macros(), f.label@, msg, now),
        )
    }

    /// What recalling the scene at a place does: the fixtures take the scene's
    /// values and macros are applied from then on. A place beyond the scenes changes
    /// nothing.
    pub open spec fn scene_applied(
        pre: Model,
        scene_index: int,
        ms: Option<u64>,
        filter: Option<Vec<String>>,
        now: u64,
        post: Model,
    ) -> bool {
        if 0 <= scene_index < pre.project.scenes@.len() {
            &&& post == (Model {
                project: Project { fixtures: post.project.fixtures, ..pre.project },
                apply_macros: true,
                ..pre
            })
            &&& fixtures_changed(
                pre.project.fixtures@,
                post.project.fixtures@,
                |i: int, f: FixtureInstance|
                    macros_after_scene(f.macros(), f.label@, pre.project.scenes@[scene_index].entries(), filter, ms, now),
            )
        } else {
            post == pre
        }
    }

    /// What a message that triggers a scene does: the first scene that the message
    /// names is marked as the last active one and recalled. A label that no scene
    /// has changes nothing.
    pub open spec fn scene_message_handled(pre: Model, msg: RemoteSceneMessage, now: u64, post: Model) -> bool {
        match first_scene_named(pre.project.scenes@, msg.scene_label@) {
            Some(s) => {
                &&& post == (Model {
                    project: Project {
                        fixtures: post.project.fixtures,
                        scenes: post.project.scenes,
                        ..pre.project
                    },
                    apply_macros: true,
                    ..pre
                })
                &&& post.project.scenes@ == pre.project.scenes@.update(
                    s,
                    Scene { last_active: true, ..pre.project.scenes@[s] },
                )
                &&& fixtures_changed(
                    pre.project.fixtures@,
                    post.project.fixtures@,
                    |i: int, f: FixtureInstance|
                        macros_after_scene(
                            f.macros(),
                            f.label@,
                            pre.project.scenes@[s].entries(),
                            msg.fixture_labels,
                            msg.ms,
                            now,
                        ),
                )
            },
            None => post == pre,
        }
    }

    /// Whether a message of a MIDI-style controller reaches anything: a note at or
    /// above the first note, a controller change that has a macro at its place, a
    /// knob that a macro is assigned to.
    pub open spec fn midi_routes(pre: Model, m: TetherMidiMessage) -> bool {
        match m {
            TetherMidiMessage::NoteOn(n) => n.note >= pre.project.midi_config.note_start,
            TetherMidiMessage::ControlChange(cc) => controller_hits(
                pre.project.fixtures@,
                pre.selected_macro_group_index,
                cc.controller,
                pre.project.midi_config.controller_start,
                cc.value,
            ),
            TetherMidiMessage::Knob(k) => knob_hits_any(pre.project.fixtures@, k.index),
        }
    }

    /// Handles a message of a MIDI-style controller, and says whether it reached
    /// anything.
    pub fn handle_midi_message(&mut self, m: TetherMidiMessage) -> (routed: bool)
        ensures
            Model::midi_handled(*old(self), m, *final(self)),
            routed == Model::midi_routes(*old(self), m),
    {
        match m {
            TetherMidiMessage::NoteOn(n) => {
                let start = self.project.midi_config.note_start;
                if n.note >= start {
                    self.selected_macro_group_index = (n.note - start) as usize;
                    true
                } else {
                    false
                }
            },
            TetherMidiMessage::ControlChange(cc) => {
                controller_change(
                    &mut self.project.fixtures,
                    self.selected_macro_group_index,
                    cc.controller,
                    self.project.midi_config.controller_start,
                    cc.value,
                )
            },
            TetherMidiMessage::Knob(k) => knob_turned(&mut self.project.fixtures, k.index, k.position),
        }
    }

    /// Handles a message that sets a macro, and says whether it reached a macro.
    pub fn handle_macro_message(&mut self, msg: RemoteMacroMessage, now: u64) -> (routed: bool)
        ensures
            Model::macro_message_handled(*old(self), msg, now, *final(self)),
            routed == message_hits_any(old(self).project.fixtures@, msg),
    {
        set_macros(&mut self.project.fixtures, &msg, now)
    }

    /// Recalls the scene at a place: at once, or over `animation_ms` milliseconds;
    /// for the fixtures that the filter holds, or for all without a filter.
    pub fn apply_scene(
        &mut self,
        scene_index: usize,
        animation_ms: Option<u64>,
        fixture_filters: Option<Vec<String>>,
        now: u64,
    )
        ensures
            Model::scene_applied(*old(self), scene_index as int, animation_ms, fixture_filters, now, *final(self)),
    {
        if scene_index < self.project.scenes.len() {
            recall_scene(
                &mut self.project.fixtures,
                &self.project.scenes[scene_index].state,
                &fixture_filters,
                animation_ms,
                now,
            );
            self.apply_macros = true;
        }
    }

    /// Handles a message that triggers a scene, and says whether a scene has the
    /// label.
    pub fn handle_scene_message(&mut self, msg: RemoteSceneMessage, now: u64) -> (routed: bool)
        ensures
            Model::scene_message_handled(*old(self), msg, now, *final(self)),
            routed == first_scene_named(old(self).project.scenes@, msg.scene_label@) is Some,
    {
        match find_scene(&self.project.scenes, msg.scene_label.as_str()) {
            Some(index) => {
                self.project.scenes[index].last_active = true;
                assert(self.project.scenes@ =~= old(self).project.scenes@.update(
                    index as int,
                    Scene { last_active: true, ..old(self).project.scenes@[index as int] },
                ));
                self.apply_scene(index, msg.ms, msg.fixture_labels, now);
                true
            },
            None => false,
        }
    }

    /// Advances every animation to `now`: each animated macro takes its animation's
    /// current sample, and finished animations are dropped.
    pub fn animate_macros(&mut self, now: u64)
        ensures
            Model::only_fixtures_changed(*old(self), *final(self)),
            fixtures_animated(old(self).project.fixtures@, final(self).project.fixtures@, now),
    {
        animate_fixtures(&mut self.project.fixtures, now);
    }

    /// Sets the universe to the home values of the fixtures: every mapped channel
    /// with a home value is at that value, and every other channel at zero.
    pub fn apply_home_values(&mut self)
        ensures
            *final(self) == (Model { channels_state: final(self).channels_state, ..*old(self) }),
            final(self).channels_state@ == home_values(old(self).project.fixtures@),
            final(self).channels_state@.len() == 512,
    {
        self.channels_state = home_channels(&self.project.fixtures);
    }

    /// Whether a message reaches anything. One that does not is dropped.
    pub open spec fn routes(pre: Model, msg: RemoteControlMessage) -> bool {
        match msg {
            RemoteControlMessage::Midi(m) => Model::midi_routes(pre, m),
            RemoteControlMessage::MacroAnimation(m) => message_hits_any(pre.project.fixtures@, m),
            RemoteControlMessage::SceneAnimation(m) => first_scene_named(pre.project.scenes@, m.scene_label@) is Some,
        }
    }

    /// What one message does: it is handled by its kind, and if it reaches anything,
    /// macros are applied from then on. A message that reaches nothing changes
    /// nothing.
    pub open spec fn handled(pre: Model, msg: RemoteControlMessage, now: u64, post: Model) -> bool {
        let routed = Model { apply_macros: pre.apply_macros || Model::routes(pre, msg), ..pre };
        match msg {
            RemoteControlMessage::Midi(m) => Model::midi_handled(routed, m, post),
            RemoteControlMessage::MacroAnimation(m) => Model::macro_message_handled(routed, m, now, post),
            RemoteControlMessage::SceneAnimation(m) => Model::scene_message_handled(routed, m, now, post),
        }
    }

    /// Handles one message that came in, and says whether it reached anything.
    pub fn handle_message(&mut self, msg: RemoteControlMessage, now: u64) -> (routed: bool)
        ensures
            Model::handled(*old(self), msg, now, *final(self)),
            routed == Model::routes(*old(self), msg),
    {
        let routed = match msg {
            RemoteControlMessage::Midi(m) => self.handle_midi_message(m),
            RemoteControlMessage::MacroAnimation(m) => self.handle_macro_message(m, now),
            RemoteControlMessage::SceneAnimation(m) => self.handle_scene_message(m, now),
        };
        if routed {
            self.apply_macros = true;
        }
        routed
    }

    /// A message that reaches nothing leaves the engine as it was: no macro has
    /// another value or animation, no scene is marked, the selected macro group
    /// stays, and macros are applied or not as before.
    pub proof fn lemma_dropped_message(pre: Model, msg: RemoteControlMessage, now: u64, post: Model)
        requires
            Model::handled(pre, msg, now, post),
            !Model::routes(pre, msg),
        ensures
            Model::only_fixtures_changed(pre, post),
            fixtures_changed(pre.project.fixtures@, post.project.fixtures@, |i: int, f: FixtureInstance| f.macros()),
    {
        match msg {
            RemoteControlMessage::Midi(TetherMidiMessage::NoteOn(_)) => {},
            RemoteControlMessage::Midi(TetherMidiMessage::ControlChange(cc)) => {},
            RemoteControlMessage::Midi(TetherMidiMessage::Knob(k)) => {
                assert forall|i: int| 0 <= i < pre.project.fixtures@.len() implies FixtureInstance::with_macros(
                    pre.project.fixtures@[i],
                    #[trigger] post.project.fixtures@[i],
                    pre.project.fixtures@[i].macros(),
                ) by {
                    let f = pre.project.fixtures@[i];
                    assert(!crate::router::knob_hits(f, k.index));
                    assert forall|j: int| 0 <= j < f.macros().len() implies crate::router::macro_after_knob(
                        f.macros()[j],
                        k.index,
                        k.position,
                    ) == f.macros()[j] by {
                        assert(!crate::router::knob_drives(f.macros()[j], k.index));
                    }
                    assert(macros_after_knob(f.macros(), k.index, k.position) =~= f.macros());
                }
            },
            RemoteControlMessage::MacroAnimation(m) => {
                assert forall|i: int| 0 <= i < pre.project.fixtures@.len() implies FixtureInstance::with_macros(
                    pre.project.fixtures@[i],
                    #[trigger] post.project.fixtures@[i],
                    pre.project.fixtures@[i].macros(),
                ) by {
                    let f = pre.project.fixtures@[i];
                    assert(!crate::router::message_hits(f, m));
                    assert(macros_after_message(f.macros(), f.label@, m, now) =~= f.macros());
                }
            },
            RemoteControlMessage::SceneAnimation(_) => {},
        }
    }

    /// The universe as a tick takes it up: any bytes when random bytes are asked
    /// for, zeroes when zeroes are asked for, else as the tick found it.
    pub open spec fn tick_input(pre: Model, input: Seq<u8>) -> bool {
        if pre.settings.auto_random {
            input.len() == 512
        } else if pre.settings.auto_zero {
            input == zeroes()
        } else {
            input == pre.channels_state@
        }
    }

    /// What a tick at `now` does, given the universe as the tick takes it up.
    ///
    /// The interface, if there is one and a frame is due, builds a frame from the
    /// universe, over which the macros have written if macros are applied. Then, if
    /// macros are applied, the animations advance and the universe becomes what the
    /// interface last built; so the macros write over the bytes of the frame before,
    /// and a channel that no macro owns keeps its byte from tick to tick.
    pub open spec fn ticked(pre: Model, received: bool, now: u64, input: Seq<u8>, post: Model, outcome: TickOutcome) -> bool {
        let due = pre.artnet matches Some(a) && a.due(now);
        let built = if pre.apply_macros {
            apply_writes(input, fixtures_writes(pre.project.fixtures@))
        } else {
            input
        };
        &&& post == (Model {
            channels_state: post.channels_state,
            artnet: post.artnet,
            project: Project { fixtures: post.project.fixtures, ..pre.project },
            ..pre
        })
        &&& match pre.artnet {
            Some(a) => post.artnet matches Some(b) && {
                &&& b.wf()
                &&& b.update_interval() == a.update_interval()
                &&& b.last_sent() == a.last_sent()
                &&& b.mode() == a.mode()
                &&& b.universe() == a.universe()
                &&& b.state() == if due { built } else { a.state() }
                &&& outcome.frame matches Some(bytes) ==> bytes@ == art_dmx_frame(a.universe(), built)
            },
            None => post.artnet is None,
        }
        &&& outcome.frame is Some <==> due
        &&& if pre.apply_macros {
            &&& fixtures_animated(pre.project.fixtures@, post.project.fixtures@, now)
            &&& post.channels_state@ == match post.artnet {
                Some(b) => b.state(),
                None => input,
            }
        } else {
            &&& post.project.fixtures == pre.project.fixtures
            &&& post.channels_state@ == input
        }
        &&& outcome.work_done == (received || due || pre.apply_macros)
        &&& outcome.pause_ms == (if pre.settings.auto_random || pre.settings.auto_zero { 1000int } else { 0int }) + (
        if outcome.work_done { 0int } else { 1int })
    }

    /// One tick of the engine at `now`, after the messages that came in have been
    /// handled; `received` says whether any did. The outcome holds the frame to
    /// send, if one is due, and how long to pause before the next tick.
    pub fn update(&mut self, received: bool, now: u64) -> (outcome: TickOutcome)
        requires
            old(self).wf(),
        ensures
            final(self).wf(),
            exists|input: Seq<u8>| #[trigger]
                Model::tick_input(*old(self), input) && Model::ticked(
                    *old(self),
                    received,
                    now,
                    input,
                    *final(self),
                    outcome,
                ),
    {
        let mut work_done = received;
        if self.settings.auto_random {
            random(&mut self.channels_state);
        } else if self.settings.auto_zero {
            zero(&mut self.channels_state);
        }
        let ghost input = self.channels_state@;
        assert(Model::tick_input(*old(self), input));
        let mut frame: Option<Vec<u8>> = None;
        match &mut self.artnet {
            Some(artnet) => {
                frame = artnet.update(&self.channels_state, &self.project.fixtures, self.apply_macros, now);
                if frame.is_some() {
                    work_done = true;
                }
            },
            None => {},
        }
        if self.apply_macros {
            work_done = true;
            self.animate_macros(now);
            match &self.artnet {
                Some(artnet) => {
                    let state = artnet.get_state().clone();
                    assert(state@ =~= artnet.state());
                    self.channels_state = state;
                },
                None => {},
            }
        }
        let mut pause_ms: u64 = 0;
        if self.settings.auto_random || self.settings.auto_zero {
            pause_ms = 1000;
        }
        if !work_done {
            pause_ms = pause_ms + 1;
        }
        let outcome = TickOutcome { frame, work_done, pause_ms };
        assert(Model::ticked(*old(self), received, now, input, *self, outcome));
        outcome
    }

    /// After a tick the universe has 512 channels, whatever the tick did.
    pub proof fn lemma_tick_keeps_length(
        pre: Model,
        received: bool,
        now: u64,
        input: Seq<u8>,
        post: Model,
        outcome: TickOutcome,
    )
        requires
            pre.wf(),
            Model::tick_input(pre, input),
            Model::ticked(pre, received, now, input, post, outcome),
        ensures
            post.channels_state@.len() == 512,
            post.channels_assigned@.len() == 512,
    {
        assert(zeroes().len() == 512);
        if let Some(b) = post.artnet {
            b.lemma_state_len();
        }
    }

    /// A channel that no macro writes to keeps its byte over a tick. This holds
    /// where the universe is not regenerated on every tick, and where the interface,
    /// if there is one, either builds a frame in this tick or last built the
    /// universe as it is.
    pub proof fn lemma_tick_keeps_unowned_channels(
        pre: Model,
        received: bool,
        now: u64,
        input: Seq<u8>,
        post: Model,
        outcome: TickOutcome,
        channel: int,
    )
        requires
            pre.wf(),
            !pre.settings.auto_random,
            !pre.settings.auto_zero,
            Model::tick_input(pre, input),
            Model::ticked(pre, received, now, input, post, outcome),
            0 <= channel < 512,
            forall|j: int|
                0 <= j < fixtures_writes(pre.project.fixtures@).len() ==> (#[trigger] fixtures_writes(
                    pre.project.fixtures@,
                )[j]).0 != channel,
            pre.artnet matches Some(a) ==> a.due(now) || a.state() == pre.channels_state@,
        ensures
            post.channels_state@[channel] == pre.channels_state@[channel],
    {
        crate::artnet::lemma_fixtures_writes_in_universe(pre.project.fixtures@);
        crate::artnet::lemma_last_write_wins(input, fixtures_writes(pre.project.fixtures@), channel);
    }

    /// Records that the frame of the last tick went out at `now`.
    pub fn frame_sent(&mut self, now: u64)
        ensures
            *final(self) == (Model { artnet: final(self).artnet, ..*old(self) }),
            match old(self).artnet {
                Some(a) => final(self).artnet matches Some(b) && {
                    &&& b.last_sent() == Some(now)
                    &&& b.state() == a.state()
                    &&& b.update_interval() == a.update_interval()
                    &&& b.mode() == a.mode()
                    &&& b.universe() == a.universe()
                    &&& b.wf()
                },
                None => final(self).artnet is None,
            },
    {
        match &mut self.artnet {
            Some(artnet) => artnet.mark_sent(now),
            None => {},
        }
    }

    /// The universe that the engine leaves behind when it quits.
    pub open spec fn exit_channels(pre: Model) -> Seq<u8> {
        match pre.exit_mode {
            BehaviourOnExit::DoNothing => pre.channels_state@,
            BehaviourOnExit::Home => home_values(pre.project.fixtures@),
            BehaviourOnExit::Zero => zeroes(),
        }
    }

    /// Prepares the engine to quit. The project is to be saved if saving on exit is
    /// on and the project has a path. Unless the exit behaviour is to do nothing,
    /// macros are no longer applied, the universe goes to its home values or to
    /// zero, and, if there is an interface, a last frame carries it, due or not.
    pub fn reset_before_quit(&mut self) -> (plan: QuitPlan)
        requires
            old(self).wf(),
        ensures
            final(self).wf(),
            *final(self) == (Model {
                channels_state: final(self).channels_state,
                artnet: final(self).artnet,
                apply_macros: final(self).apply_macros,
                ..*old(self)
            }),
            final(self).channels_state@ == Model::exit_channels(*old(self)),
            final(self).apply_macros == (old(self).apply_macros && old(self).exit_mode == BehaviourOnExit::DoNothing),
            match plan.save_to {
                Some(path) => old(self).save_on_exit && (old(self).current_project_path matches Some(p) && p@ == path@),
                None => !old(self).save_on_exit || old(self).current_project_path is None,
            },
            plan.frame is Some <==> old(self).artnet is Some && old(self).exit_mode != BehaviourOnExit::DoNothing,
            match old(self).artnet {
                Some(a) => final(self).artnet matches Some(b) && {
                    &&& b.update_interval() == a.update_interval()
                    &&& b.last_sent() == a.last_sent()
                    &&& b.mode() == a.mode()
                    &&& b.universe() == a.universe()
                    &&& b.state() == if old(self).exit_mode == BehaviourOnExit::DoNothing {
                        a.state()
                    } else {
                        Model::exit_channels(*old(self))
                    }
                    &&& plan.frame matches Some(bytes) ==> bytes@ == art_dmx_frame(
                        a.universe(),
                        Model::exit_channels(*old(self)),
                    )
                },
                None => final(self).artnet is None,
            },
            plan.pause_ms == 500,
    {
        let save_to = if self.save_on_exit {
            match &self.current_project_path {
                Some(path) => Some(path.clone()),
                None => None,
            }
        } else {
            None
        };
        let mut frame: Option<Vec<u8>> = None;
        match self.exit_mode {
            BehaviourOnExit::DoNothing => {},
            BehaviourOnExit::Home => {
                self.apply_macros = false;
                self.apply_home_values();
            },
            BehaviourOnExit::Zero => {
                self.apply_macros = false;
                zero(&mut self.channels_state);
            },
        }
        if self.exit_mode != BehaviourOnExit::DoNothing {
            match &mut self.artnet {
                Some(artnet) => {
                    frame = Some(artnet.flush(&self.channels_state));
                },
                None => {},
            }
        }
        QuitPlan { save_to, frame, pause_ms: 500 }
    }
}

/// What a tick asks of its caller.
#[derive(Debug)]
pub struct TickOutcome {
    /// The frame to send, if one is due.
    pub frame: Option<Vec<u8>>,
    /// Whether the tick had anything to do.
    pub work_done: bool,
    /// How many milliseconds to pause before the next tick.
    pub pause_ms: u64,
}

/// What quitting asks of its caller.
#[derive(Debug)]
pub struct QuitPlan {
    /// Where to save the project, if it is to be saved.
    pub save_to: Option<String>,
    /// The last frame to send, if there is one.
    pub frame: Option<Vec<u8>>,
    /// How many milliseconds to wait before the process ends.
    pub pause_ms: u64,
}

/// One of the first `upto` mappings of the fixture's active mode addresses channel
/// `c` of the universe.
pub open spec fn fixture_maps(f: FixtureInstance, upto: int, c: int) -> bool {
    exists|j: int|
        0 <= j < upto && channel_index((#[trigger] f.config.active_mode.mappings@[j]).channel, f.start_channel)
            == Some(c)
}

/// A mapping of the active mode of one of the fixtures addresses channel `c` of the
/// universe.
pub open spec fn channel_mapped(fixtures: Seq<FixtureInstance>, c: int) -> bool {
    exists|i: int|
        0 <= i < fixtures.len() && fixture_maps(
            #[trigger] fixtures[i],
            fixtures[i].config.active_mode.mappings@.len() as int,
            c,
        )
}

proof fn lemma_fixture_maps_step(f: FixtureInstance, j: int, c: int)
    requires
        0 <= j < f.config.active_mode.mappings@.len(),
    ensures
        fixture_maps(f, j + 1, c) == (fixture_maps(f, j, c) || channel_index(
            f.config.active_mode.mappings@[j].channel,
            f.start_channel,
        ) == Some(c)),
{
    let m = f.config.active_mode.mappings@;
    if fixture_maps(f, j + 1, c) {
        let w = choose|w: int| 0 <= w < j + 1 && channel_index((#[trigger] m[w]).channel, f.start_channel) == Some(c);
        if w < j {
            assert(fixture_maps(f, j, c));
        }
    }
    if fixture_maps(f, j, c) {
        let w = choose|w: int| 0 <= w < j && channel_index((#[trigger] m[w]).channel, f.start_channel) == Some(c);
        assert(0 <= w < j + 1 && channel_index(m[w].channel, f.start_channel) == Some(c));
    }
    if channel_index(m[j].channel, f.start_channel) == Some(c) {
        assert(0 <= j < j + 1 && channel_index(m[j].channel, f.start_channel) == Some(c));
    }
}

proof fn lemma_channel_mapped_step(fixtures: Seq<FixtureInstance>, i: int, c: int)
    requires
        0 <= i < fixtures.len(),
    ensures
        channel_mapped(fixtures.take(i + 1), c) == (channel_mapped(fixtures.take(i), c) || fixture_maps(
            fixtures[i],
            fixtures[i].config.active_mode.mappings@.len() as int,
            c,
        )),
{
    let a = fixtures.take(i);
    let b = fixtures.take(i + 1);
    if channel_mapped(b, c) {
        let w = choose|w: int|
            0 <= w < b.len() && fixture_maps(#[trigger] b[w], b[w].config.active_mode.mappings@.len() as int, c);
        assert(b[w] == fixtures[w]);
        if w < i {
            assert(a[w] == fixtures[w]);
            assert(channel_mapped(a, c));
        }
    }
    if channel_mapped(a, c) {
        let w = choose|w: int|
            0 <= w < a.len() && fixture_maps(#[trigger] a[w], a[w].config.active_mode.mappings@.len() as int, c);
        assert(b[w] == a[w]);
        assert(channel_mapped(b, c));
    }
    if fixture_maps(fixtures[i], fixtures[i].config.active_mode.mappings@.len() as int, c) {
        assert(b[i] == fixtures[i]);
        assert(channel_mapped(b, c));
    }
}

/// For each channel of the universe, whether a mapping of a fixture's active mode
/// addresses it.
pub fn assigned_channels(fixtures: &Vec<FixtureInstance>) -> (assigned: Vec<bool>)
    ensures
        assigned.len() == 512,
        forall|c: int| 0 <= c < 512 ==> assigned[c] == channel_mapped(fixtures@, c),
{
    let mut assigned: Vec<bool> = Vec::new();
    let mut c: usize = 0;
    while c < 512
        invariant
            c <= 512,
            assigned.len() == c,
            forall|k: int| 0 <= k < c ==> !assigned[k],
        decreases 512 - c,
    {
        assigned.push(false);
        c += 1;
    }
    let n = fixtures.len();
    let mut i: usize = 0;
    assert forall|k: int| 0 <= k < 512 implies assigned[k] == channel_mapped(fixtures@.take(0), k) by {
        assert(fixtures@.take(0).len() == 0);
    }
    while i < n
        invariant
            n == fixtures.len(),
            i <= n,
            assigned.len() == 512,
            forall|k: int| 0 <= k < 512 ==> assigned[k] == channel_mapped(fixtures@.take(i as int), k),
        decreases n - i,
    {
        let f = &fixtures[i];
        let mappings = &f.config.active_mode.mappings;
        let m = mappings.len();
        let mut j: usize = 0;
        while j < m
            invariant
                m == mappings.len(),
                mappings == &f.config.active_mode.mappings,
                *f == fixtures@[i as int],
                j <= m,
                assigned.len() == 512,
                forall|k: int|
                    0 <= k < 512 ==> assigned[k] == (channel_mapped(fixtures@.take(i as int), k) || fixture_maps(
                        *f,
                        j as int,
                        k,
                    )),
            decreases m - j,
        {
            let ghost before = assigned@;
            match target_channel(mappings[j].channel, f.start_channel) {
                Some(index) => {
                    assigned[index] = true;
                },
                None => {},
            }
            proof {
                assert forall|k: int| 0 <= k < 512 implies assigned[k] == (channel_mapped(
                    fixtures@.take(i as int),
                    k,
                ) || fixture_maps(*f, j as int + 1, k)) by {
                    lemma_fixture_maps_step(*f, j as int, k);
                }
            }
            j += 1;
        }
        proof {
            assert forall|k: int| 0 <= k < 512 implies assigned[k] == channel_mapped(
                fixtures@.take(i as int + 1),
                k,
            ) by {
                lemma_channel_mapped_step(fixtures@, i as int, k);
            }
        }
        i += 1;
    }
    assert(fixtures@.take(n as int) =~= fixtures@);
    assigned
}

/// A scene after another scene has been recalled by hand, or itself: the recalled
/// scene is the last active one, and every other scene is neither that nor open for
/// editing.
pub open spec fn scene_after_go(s: Scene, recalled: bool) -> Scene {
    if recalled {
        Scene { last_active: true, ..s }
    } else {
        Scene { last_active: false, is_editing: false, ..s }
    }
}

impl Model {
    /// The engine as it starts: with the settings, a project and the fixture
    /// configurations that are known. The Art-Net interface is the one that the
    /// settings and the project ask for, if they ask for one; the universe is at the
    /// home values of the project's fixtures; macros are not applied yet.
    pub fn new(cli: Cli, project: Project, current_project_path: Option<String>, known_fixtures: Vec<FixtureConfig>) -> (model: Model)
        ensures
            model.wf(),
            model.settings == cli,
            model.project == project,
            model.current_project_path == current_project_path,
            model.known_fixtures == known_fixtures,
            model.channels_state@ == home_values(project.fixtures@),
            forall|c: int| 0 <= c < 512 ==> model.channels_assigned[c] == channel_mapped(project.fixtures@, c),
            model.tether_status is NotConnected,
            model.artnet is Some <==> crate::project::planned_mode(cli, project) is Some
                && cli.artnet_update_frequency > 0,
            model.artnet matches Some(a) ==> {
                &&& crate::project::planned_mode(cli, project) == Some(crate::project::plan_of(a.mode()))
                &&& a.universe() == cli.artnet_universe
                &&& a.update_interval() == crate::artnet::interval_ms(cli.artnet_update_frequency)
                &&& a.last_sent() is None
            },
            model.artnet_edit_mode is Broadcast,
            !model.adding_new_fixture,
            model.new_fixture_to_add is None,
            !model.apply_macros,
            model.selected_macro_group_index == 0,
            model.view_mode == ViewMode::Scenes,
            model.exit_mode == BehaviourOnExit::Home,
            model.save_on_exit,
            !model.show_confirm_exit,
            !model.allowed_to_close,
    {
        let artnet = match get_artnet_interface(&cli, &project) {
            Ok(a) => Some(a),
            Err(_) => None,
        };
        let channels_assigned = assigned_channels(&project.fixtures);
        let channels_state = home_channels(&project.fixtures);
        Model {
            settings: cli,
            channels_state,
            channels_assigned,
            tether_status: TetherStatus::NotConnected,
            artnet,
            artnet_edit_mode: ArtNetConfigMode::Broadcast,
            project,
            current_project_path,
            adding_new_fixture: false,
            new_fixture_to_add: None,
            known_fixtures,
            apply_macros: false,
            selected_macro_group_index: 0,
            view_mode: ViewMode::Scenes,
            exit_mode: BehaviourOnExit::Home,
            save_on_exit: true,
            show_confirm_exit: false,
            allowed_to_close: false,
        }
    }

    /// `post` is `pre` but for its scenes.
    pub open spec fn only_scenes_changed(pre: Model, post: Model) -> bool {
        post == (Model { project: Project { scenes: post.project.scenes, ..pre.project }, ..pre })
    }

    /// Adds a scene that holds the current value of every macro of every fixture.
    /// The new scene comes last and is open for editing.
    pub fn add_scene(&mut self, label: String)
        ensures
            Model::only_scenes_changed(*old(self), *final(self)),
            final(self).project.scenes@.len() == old(self).project.scenes@.len() + 1,
            final(self).project.scenes@.drop_last() == old(self).project.scenes@,
            ({
                let s = final(self).project.scenes@.last();
                &&& s.label == label
                &&& s.entries() == captured_onto(Seq::empty(), old(self).project.fixtures@)
                &&& s.is_editing
                &&& !s.last_active
                &&& s.next_transition == 0
            }),
    {
        let scene = Scene::capture(label, &self.project.fixtures);
        self.project.scenes.push(scene);
        assert(self.project.scenes@.drop_last() =~= old(self).project.scenes@);
    }

    /// Saves the current value of every macro of every fixture into the scene at a
    /// place, over what it held for those fixtures, and closes it for editing. A
    /// place beyond the scenes changes nothing.
    pub fn update_scene(&mut self, scene_index: usize)
        ensures
            scene_index >= old(self).project.scenes@.len() ==> *final(self) == *old(self),
            scene_index < old(self).project.scenes@.len() ==> {
                &&& Model::only_scenes_changed(*old(self), *final(self))
                &&& final(self).project.scenes@.len() == old(self).project.scenes@.len()
                &&& forall|i: int|
                    0 <= i < old(self).project.scenes@.len() && i != scene_index ==> final(self).project.scenes@[i]
                        == old(self).project.scenes@[i]
                &&& ({
                    let s = final(self).project.scenes@[scene_index as int];
                    let o = old(self).project.scenes@[scene_index as int];
                    &&& s.entries() == captured_onto(o.entries(), old(self).project.fixtures@)
                    &&& !s.is_editing
                    &&& s.label == o.label
                    &&& s.last_active == o.last_active
                    &&& s.next_transition == o.next_transition
                })
            },
    {
        if scene_index < self.project.scenes.len() {
            self.project.scenes[scene_index].recapture(&self.project.fixtures);
        }
    }

    /// Recalls the scene at a place by hand, for all fixtures: at once, or over `ms`
    /// milliseconds. That scene becomes the last active one; every other scene is
    /// no longer that, nor open for editing. A place beyond the scenes recalls
    /// nothing, and no scene is then the last active one.
    pub fn go_to_scene(&mut self, scene_index: usize, ms: Option<u64>, now: u64)
        ensures
            *final(self) == (Model {
                project: Project {
                    fixtures: final(self).project.fixtures,
                    scenes: final(self).project.scenes,
                    ..old(self).project
                },
                apply_macros: final(self).apply_macros,
                ..*old(self)
            }),
            final(self).apply_macros == (old(self).apply_macros || scene_index < old(self).project.scenes@.len()),
            final(self).project.scenes@ == Seq::new(
                old(self).project.scenes@.len(),
                |i: int| scene_after_go(old(self).project.scenes@[i], i == scene_index),
            ),
            scene_index >= old(self).project.scenes@.len() ==> final(self).project.fixtures == old(
                self,
            ).project.fixtures,
            scene_index < old(self).project.scenes@.len() ==> fixtures_changed(
                old(self).project.fixtures@,
                final(self).project.fixtures@,
                |i: int, f: FixtureInstance|
                    macros_after_scene(
                        f.macros(),
                        f.label@,
                        old(self).project.scenes@[scene_index as int].entries(),
                        None,
                        ms,
                        now,
                    ),
            ),
    {
        self.apply_scene(scene_index, ms, None, now);
        let ghost mid = *self;
        let n = self.project.scenes.len();
        let mut i: usize = 0;
        while i < n
            invariant
                n == self.project.scenes.len(),
                n == mid.project.scenes.len(),
                i <= n,
                Model::only_scenes_changed(mid, *self),
                forall|k: int|
                    0 <= k < i ==> self.project.scenes@[k] == scene_after_go(mid.project.scenes@[k], k == scene_index),
                forall|k: int| i <= k < n ==> self.project.scenes@[k] == mid.project.scenes@[k],
            decreases n - i,
        {
            let scene = &mut self.project.scenes[i];
            if i == scene_index {
                scene.last_active = true;
            } else {
                scene.last_active = false;
                scene.is_editing = false;
            }
            i += 1;
        }
        assert(self.project.scenes@ =~= Seq::new(
            old(self).project.scenes@.len(),
            |i: int| scene_after_go(old(self).project.scenes@[i], i == scene_index),
        ));
    }

    /// Opens the scene at a place for editing and closes every other scene. Gives
    /// the place of the scene that was open for editing before, the last if there
    /// were several: its values are to be saved.
    pub fn begin_editing(&mut self, scene_index: usize) -> (to_save: Option<usize>)
        ensures
            Model::only_scenes_changed(*old(self), *final(self)),
            final(self).project.scenes@ == Seq::new(
                old(self).project.scenes@.len(),
                |i: int| Scene { is_editing: i == scene_index, ..old(self).project.scenes@[i] },
            ),
            match to_save {
                Some(i) => i < old(self).project.scenes@.len() && old(self).project.scenes@[i as int].is_editing
                    && forall|k: int|
                    i < k < old(self).project.scenes@.len() ==> !(#[trigger] old(self).project.scenes@[k]).is_editing,
                None => forall|k: int|
                    0 <= k < old(self).project.scenes@.len() ==> !(#[trigger] old(self).project.scenes@[k]).is_editing,
            },
    {
        let mut to_save: Option<usize> = None;
        let n = self.project.scenes.len();
        let mut i: usize = 0;
        while i < n
            invariant
                n == self.project.scenes.len(),
                n == old(self).project.scenes.len(),
                i <= n,
                Model::only_scenes_changed(*old(self), *self),
                forall|k: int|
                    0 <= k < i ==> self.project.scenes@[k] == (Scene {
                        is_editing: k == scene_index,
                        ..old(self).project.scenes@[k]
                    }),
                forall|k: int| i <= k < n ==> self.project.scenes@[k] == old(self).project.scenes@[k],
                match to_save {
                    Some(s) => s < i && old(self).project.scenes@[s as int].is_editing && forall|k: int|
                        s < k < i ==> !(#[trigger] old(self).project.scenes@[k]).is_editing,
                    None => forall|k: int| 0 <= k < i ==> !(#[trigger] old(self).project.scenes@[k]).is_editing,
                },
            decreases n - i,
        {
            let scene = &mut self.project.scenes[i];
            if scene.is_editing {
                to_save = Some(i);
            }
            scene.is_editing = i == scene_index;
            i += 1;
        }
        assert(self.project.scenes@ =~= Seq::new(
            old(self).project.scenes@.len(),
            |i: int| Scene { is_editing: i == scene_index, ..old(self).project.scenes@[i] },
        ));
        to_save
    }

    /// `i` is the place of the first scene that is the last active one.
    pub open spec fn is_first_active(scenes: Seq<Scene>, i: int) -> bool {
        &&& 0 <= i < scenes.len()
        &&& scenes[i].last_active
        &&& forall|k: int| 0 <= k < i ==> !(#[trigger] scenes[k]).last_active
    }

    /// Takes note that a macro was set by hand: macros are applied from then on, and
    /// the first scene that is marked as the last active one is opened for editing.
    pub fn macros_edited(&mut self)
        ensures
            *final(self) == (Model {
                project: Project { scenes: final(self).project.scenes, ..old(self).project },
                apply_macros: true,
                ..*old(self)
            }),
            final(self).project.scenes@.len() == old(self).project.scenes@.len(),
            forall|i: int|
                0 <= i < old(self).project.scenes@.len() ==> #[trigger] final(self).project.scenes@[i] == if Model::is_first_active(
                    old(self).project.scenes@,
                    i,
                ) {
                    Scene { is_editing: true, ..old(self).project.scenes@[i] }
                } else {
                    old(self).project.scenes@[i]
                },
    {
        self.apply_macros = true;
        let n = self.project.scenes.len();
        let mut i: usize = 0;
        while i < n
            invariant
                n == self.project.scenes.len(),
                i <= n,
                *self == (Model { apply_macros: true, ..*old(self) }),
                forall|k: int| 0 <= k < i ==> !(#[trigger] self.project.scenes@[k]).last_active,
            decreases n - i,
        {
            if self.project.scenes[i].last_active {
                self.project.scenes[i].is_editing = true;
                assert(Model::is_first_active(old(self).project.scenes@, i as int));
                return ;
            }
            i += 1;
        }
    }

    /// Removes the scene at a place. A place beyond the scenes changes nothing.
    pub fn delete_scene(&mut self, scene_index: usize)
        ensures
            scene_index >= old(self).project.scenes@.len() ==> *final(self) == *old(self),
            scene_index < old(self).project.scenes@.len() ==> {
                &&& Model::only_scenes_changed(*old(self), *final(self))
                &&& final(self).project.scenes@ == old(self).project.scenes@.remove(scene_index as int)
            },
    {
        if scene_index < self.project.scenes.len() {
            self.project.scenes.remove(scene_index);
        }
    }

    /// Sets one channel of the universe by hand. Macros are no longer applied, so
    /// that the byte stands until a macro is used again. A channel beyond the
    /// universe changes nothing.
    pub fn set_channel(&mut self, channel: usize, value: u8)
        requires
            old(self).wf(),
        ensures
            final(self).wf(),
            channel >= 512 ==> *final(self) == *old(self),
            channel < 512 ==> {
                &&& *final(self) == (Model {
                    channels_state: final(self).channels_state,
                    apply_macros: false,
                    ..*old(self)
                })
                &&& final(self).channels_state@ == old(self).channels_state@.update(channel as int, value)
            },
    {
        if channel < 512 {
            self.channels_state[channel] = value;
            self.apply_macros = false;
        }
    }

    /// Sends every fixture home by hand: macros are no longer applied.
    pub fn all_home(&mut self)
        ensures
            *final(self) == (Model { channels_state: final(self).channels_state, apply_macros: false, ..*old(self) }),
            final(self).channels_state@ == home_values(old(self).project.fixtures@),
    {
        self.apply_macros = false;
        self.apply_home_values();
    }

    /// Sets every channel to zero by hand: macros are no longer applied.
    pub fn all_zero(&mut self)
        ensures
            *final(self) == (Model { channels_state: final(self).channels_state, apply_macros: false, ..*old(self) }),
            final(self).channels_state@ == zeroes(),
    {
        self.apply_macros = false;
        zero(&mut self.channels_state);
    }

    /// Sets every channel to a random byte by hand: macros are no longer applied.
    pub fn all_random(&mut self)
        ensures
            *final(self) == (Model { channels_state: final(self).channels_state, apply_macros: false, ..*old(self) }),
            final(self).channels_state@.len() == old(self).channels_state@.len(),
    {
        self.apply_macros = false;
        random(&mut self.channels_state);
    }
}

} // verus!
