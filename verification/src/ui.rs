//! What the control panel decides: which view shows, how fixtures come and go, how
//! the Art-Net interface is connected, and how the window closes.

use crate::artnet::{ArtNetInterface, ArtNetMode, Endpoint};
use crate::fixture::{FixtureInstance, RangeDescription};
use crate::model::{Model, TetherStatus};
use crate::project::{
    get_artnet_interface, plan_of, plan_of_config, planned_mode, ArtNetConfigMode, Project, ARTNET_PORT,
    UNICAST_SOURCE_PORT,
};
use vstd::prelude::*;

verus! {

/// The two views of the control panel.
#[derive(Clone, Copy, Debug, PartialEq, Eq, Structural)]
pub enum ViewMode {
    Scenes,
    Setup,
}

/// `i` is the place of the first range that holds `value`.
pub open spec fn is_first_range(ranges: Seq<RangeDescription>, value: u8, i: int) -> bool {
    &&& 0 <= i < ranges.len()
    &&& ranges[i].range[0] <= value <= ranges[i].range[1]
    &&& forall|k: int| 0 <= k < i ==> !((#[trigger] ranges[k]).range[0] <= value <= ranges[k].range[1])
}

/// Finds the first of a channel's ranges that holds the channel's value.
pub fn current_range(ranges: &Vec<RangeDescription>, value: u8) -> (found: Option<usize>)
    ensures
        match found {
            Some(i) => is_first_range(ranges@, value, i as int),
            None => forall|k: int|
                0 <= k < ranges.len() ==> !((#[trigger] ranges[k]).range[0] <= value <= ranges[k].range[1]),
        },
{
    let n = ranges.len();
    let mut i: usize = 0;
    while i < n
        invariant
            n == ranges.len(),
            i <= n,
            forall|k: int| 0 <= k < i ==> !((#[trigger] ranges[k]).range[0] <= value <= ranges[k].range[1]),
        decreases n - i,
    {
        if ranges[i].contains(value) {
            return Some(i);
        }
        i += 1;
    }
    None
}

/// The status after an attempt to connect: connected, or the error after the word
/// "Error: ".
pub fn connection_status(outcome: Result<(), String>) -> (status: TetherStatus)
    ensures
        match outcome {
            Ok(_) => status is Connected,
            Err(e) => status matches TetherStatus::Errored(text) && text@ == "Error: "@ + e@,
        },
{
    match outcome {
        Ok(_) => TetherStatus::Connected,
        Err(e) => {
            let mut text = String::from_str("Error: ");
            text.append(e.as_str());
            TetherStatus::Errored(text)
        },
    }
}

impl Model {
    /// Starts over with an empty project that has no path.
    pub fn new_project(&mut self)
        ensures
            *final(self) == (Model { project: final(self).project, current_project_path: None, ..*old(self) }),
            final(self).project.fixtures@.len() == 0,
            final(self).project.scenes@.len() == 0,
            final(self).project.artnet_config is None,
            final(self).project.midi_config.controller_start == 48,
            final(self).project.midi_config.note_start == 49,
    {
        self.project = Project::new();
        self.current_project_path = None;
    }

    /// Takes up a project that was loaded from a path, and sets up the Art-Net
    /// interface that the settings and the project ask for, if they ask for one.
    pub fn project_loaded(&mut self, project: Project, path: String)
        ensures
            *final(self) == (Model {
                project,
                current_project_path: Some(path),
                artnet: final(self).artnet,
                ..*old(self)
            }),
            final(self).artnet is Some <==> planned_mode(old(self).settings, project) is Some && old(
                self,
            ).settings.artnet_update_frequency > 0,
            final(self).artnet matches Some(a) ==> {
                &&& a.wf()
                &&& planned_mode(old(self).settings, project) == Some(plan_of(a.mode()))
                &&& a.universe() == old(self).settings.artnet_universe
                &&& a.last_sent() is None
            },
    {
        self.artnet = match get_artnet_interface(&self.settings, &project) {
            Ok(a) => Some(a),
            Err(_) => None,
        };
        self.project = project;
        self.current_project_path = Some(path);
    }

    /// Sets up the Art-Net interface as the settings being edited describe it, and
    /// notes the mode in the project. Says whether an interface was set up: none is
    /// when the update frequency is zero, and then nothing changes.
    pub fn connect_artnet(&mut self) -> (connected: bool)
        ensures
            connected == (old(self).settings.artnet_update_frequency > 0),
            !connected ==> *final(self) == *old(self),
            connected ==> {
                &&& *final(self) == (Model {
                    artnet: final(self).artnet,
                    project: Project { artnet_config: final(self).project.artnet_config, ..old(self).project },
                    ..*old(self)
                })
                &&& final(self).artnet matches Some(a) && {
                    &&& a.wf()
                    &&& plan_of(a.mode()) == plan_of_config(old(self).artnet_edit_mode)
                    &&& a.universe() == old(self).settings.artnet_universe
                    &&& a.last_sent() is None
                }
                &&& final(self).project.artnet_config matches Some(c) && plan_of_config(c) == plan_of_config(
                    old(self).artnet_edit_mode,
                )
            },
    {
        let mode = match &self.artnet_edit_mode {
            ArtNetConfigMode::Broadcast => ArtNetMode::Broadcast,
            ArtNetConfigMode::Unicast(source, destination) => ArtNetMode::Unicast(
                Endpoint { ip: source.clone(), port: UNICAST_SOURCE_PORT },
                Endpoint { ip: destination.clone(), port: ARTNET_PORT },
            ),
        };
        match ArtNetInterface::new(mode, self.settings.artnet_update_frequency, self.settings.artnet_universe) {
            Ok(interface) => {
                self.project.artnet_config = Some(ArtNetConfigMode::from(&interface));
                self.artnet = Some(interface);
                true
            },
            Err(_) => false,
        }
    }

    /// Drops the Art-Net interface, so that its settings can be edited.
    pub fn disconnect_artnet(&mut self)
        ensures
            *final(self) == (Model { artnet: None, ..*old(self) }),
    {
        self.artnet = None;
    }

    /// Starts adding a fixture.
    pub fn begin_adding_fixture(&mut self)
        ensures
            *final(self) == (Model { adding_new_fixture: true, ..*old(self) }),
    {
        self.adding_new_fixture = true;
    }

    /// Picks the known configuration at a place for the fixture that is being added:
    /// a new instance of it. A place beyond the known configurations changes nothing.
    pub fn select_new_fixture(&mut self, known_index: usize)
        ensures
            known_index >= old(self).known_fixtures@.len() ==> *final(self) == *old(self),
            known_index < old(self).known_fixtures@.len() ==> {
                &&& *final(self) == (Model { new_fixture_to_add: final(self).new_fixture_to_add, ..*old(self) })
                &&& final(self).new_fixture_to_add matches Some(f) && {
                    &&& f.label@ == "My "@ + old(self).known_fixtures@[known_index as int].name@
                    &&& f.config_name@ == old(self).known_fixtures@[known_index as int].name@
                    &&& f.start_channel == 0
                    &&& f.mode_index == 0
                    &&& f.config.same(old(self).known_fixtures@[known_index as int])
                }
            },
    {
        if known_index < self.known_fixtures.len() {
            self.new_fixture_to_add = Some(FixtureInstance::from(&self.known_fixtures[known_index]));
        }
    }

    /// Ends adding a fixture. If the fixture is to be kept and one was picked, it
    /// becomes the first fixture of the project.
    pub fn finish_adding_fixture(&mut self, keep: bool)
        ensures
            *final(self) == (Model {
                project: Project { fixtures: final(self).project.fixtures, ..old(self).project },
                adding_new_fixture: false,
                new_fixture_to_add: None,
                ..*old(self)
            }),
            final(self).project.fixtures@ == match old(self).new_fixture_to_add {
                Some(f) => if keep {
                    old(self).project.fixtures@.insert(0, f)
                } else {
                    old(self).project.fixtures@
                },
                None => old(self).project.fixtures@,
            },
    {
        match self.new_fixture_to_add.take() {
            Some(fixture) => {
                if keep {
                    self.project.fixtures.insert(0, fixture);
                }
            },
            None => {},
        }
        self.adding_new_fixture = false;
    }

    /// Removes the fixture at a place. A place beyond the fixtures changes nothing.
    pub fn remove_fixture(&mut self, index: usize)
        ensures
            index >= old(self).project.fixtures@.len() ==> *final(self) == *old(self),
            index < old(self).project.fixtures@.len() ==> {
                &&& Model::only_fixtures_changed(*old(self), *final(self))
                &&& final(self).project.fixtures@ == old(self).project.fixtures@.remove(index as int)
            },
    {
        if index < self.project.fixtures.len() {
            self.project.fixtures.remove(index);
        }
    }

    /// Takes a request to close the window, and says whether the window may close.
    /// Unless closing was allowed before, the request opens the question whether to
    /// quit.
    pub fn request_close(&mut self) -> (may_close: bool)
        ensures
            may_close == old(self).allowed_to_close,
            *final(self) == (Model {
                show_confirm_exit: old(self).show_confirm_exit || !old(self).allowed_to_close,
                ..*old(self)
            }),
    {
        if self.allowed_to_close {
            true
        } else {
            self.show_confirm_exit = true;
            false
        }
    }

    /// Takes the answer to the question whether to quit.
    pub fn answer_exit(&mut self, quit: bool)
        ensures
            *final(self) == (Model { show_confirm_exit: false, allowed_to_close: quit, ..*old(self) }),
    {
        self.show_confirm_exit = false;
        self.allowed_to_close = quit;
    }
}

} // verus!
