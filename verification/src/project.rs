//! A project: the fixtures in the universe, the scenes saved for them, and how the
//! project reaches them.

use crate::artnet::{ArtNetError, ArtNetInterface, ArtNetMode, Endpoint};
use crate::fixture::{FixtureConfig, FixtureInstance};
use crate::loading::{
    all_configured, assign_knobs, controls_in, issues_of, knobbed, load_configs, sort_macros, ConfigIssue,
};
use crate::router::fixtures_changed;
use crate::scene::{keys_normalised, Scene};
use crate::sorting::{sort_by_label, sorted_by_label};
use crate::settings::Cli;
use vstd::prelude::*;

verus! {

/// The port that unicast frames are sent from.
pub const UNICAST_SOURCE_PORT: u16 = 6453;

/// The port that Art-Net nodes listen on.
pub const ARTNET_PORT: u16 = 6454;

/// Which notes and controllers of a MIDI-style controller come first.
#[derive(Clone, Copy, Debug)]
pub struct MidiConfig {
    /// The controller that counts as the first, for the first macro.
    pub controller_start: u8,
    /// The note that counts as the first, for the first fixture.
    pub note_start: u8,
}

impl Default for MidiConfig {
    fn default() -> (c: Self)
        ensures
            c.controller_start == 48,
            c.note_start == 49,
    {
        MidiConfig { controller_start: 48, note_start: 49 }
    }
}

/// How a project reaches its fixtures: the addresses of a unicast are the
/// interface to send from, then the destination.
#[derive(Debug)]
pub enum ArtNetConfigMode {
    Broadcast,
    Unicast(String, String),
}

/// A way of reaching fixtures, addresses as plain text.
pub enum ModePlan {
    Broadcast,
    Unicast { source: Seq<char>, source_port: u16, destination: Seq<char>, destination_port: u16 },
}

/// The plan that an Art-Net mode stands for.
pub open spec fn plan_of(mode: ArtNetMode) -> ModePlan {
    match mode {
        ArtNetMode::Broadcast => ModePlan::Broadcast,
        ArtNetMode::Unicast(s, d) => ModePlan::Unicast {
            source: s.ip@,
            source_port: s.port,
            destination: d.ip@,
            destination_port: d.port,
        },
    }
}

/// A unicast between two addresses on the usual ports.
pub open spec fn unicast_plan(source: Seq<char>, destination: Seq<char>) -> ModePlan {
    ModePlan::Unicast { source, source_port: 6453, destination, destination_port: 6454 }
}

/// The plan that a project's setting stands for.
pub open spec fn plan_of_config(mode: ArtNetConfigMode) -> ModePlan {
    match mode {
        ArtNetConfigMode::Broadcast => ModePlan::Broadcast,
        ArtNetConfigMode::Unicast(s, d) => unicast_plan(s@, d@),
    }
}

impl ArtNetConfigMode {
    /// The setting that describes the mode an interface runs in: for a unicast, its
    /// two addresses.
    pub fn from(value: &ArtNetInterface) -> (mode: ArtNetConfigMode)
        ensures
            match value.mode() {
                ArtNetMode::Broadcast => mode is Broadcast,
                ArtNetMode::Unicast(s, d) => mode matches ArtNetConfigMode::Unicast(a, b) && a@ == s.ip@ && b@
                    == d.ip@,
            },
    {
        match value.mode_in_use() {
            ArtNetMode::Broadcast => ArtNetConfigMode::Broadcast,
            ArtNetMode::Unicast(s, d) => ArtNetConfigMode::Unicast(s.ip.clone(), d.ip.clone()),
        }
    }
}

/// A project.
#[derive(Debug)]
pub struct Project {
    pub fixtures: Vec<FixtureInstance>,
    pub scenes: Vec<Scene>,
    pub midi_config: MidiConfig,
    pub artnet_config: Option<ArtNetConfigMode>,
}

impl Project {
    /// A project without fixtures, scenes or Art-Net settings.
    pub fn new() -> (p: Project)
        ensures
            p.fixtures@.len() == 0,
            p.scenes@.len() == 0,
            p.midi_config.controller_start == 48,
            p.midi_config.note_start == 49,
            p.artnet_config is None,
    {
        Project { fixtures: Vec::new(), scenes: Vec::new(), midi_config: MidiConfig::default(), artnet_config: None }
    }
}

/// The fixtures of a project on their way into use: matched with their
/// configurations (`configured`), then with their knobs numbered (`numbered`),
/// then with their macros in alphabetical order (`ordered`).
pub open spec fn prepared(
    loaded: Seq<FixtureInstance>,
    configured: Seq<FixtureInstance>,
    numbered: Seq<FixtureInstance>,
    ordered: Seq<FixtureInstance>,
    catalog: Seq<FixtureConfig>,
) -> bool {
    &&& all_configured(loaded, configured, catalog)
    &&& fixtures_changed(
        configured,
        numbered,
        |i: int, f: FixtureInstance| knobbed(f.macros(), controls_in(configured.take(i))),
    )
    &&& fixtures_changed(numbered, ordered, |i: int, f: FixtureInstance| sorted_by_label(f.macros()))
}

/// Each scene of `post` is the scene of `pre` at its place with its keys sorted.
pub open spec fn scenes_normalised(pre: Seq<Scene>, post: Seq<Scene>) -> bool {
    &&& post.len() == pre.len()
    &&& forall|i: int|
        0 <= i < pre.len() ==> {
            &&& #[trigger] post[i] == (Scene { state: post[i].state, ..pre[i] })
            &&& keys_normalised(pre[i].entries(), post[i].entries())
        }
}

impl Project {
    /// A project after it has been brought into use. Its fixtures are matched with
    /// their configurations; the control macros are numbered for the knobs, fixture
    /// by fixture in the order in which the project listed them; the macros of each
    /// fixture, the fixtures, the scenes and the keys of each scene are in
    /// alphabetical order.
    pub open spec fn resolved(pre: Project, catalog: Seq<FixtureConfig>, post: Project) -> bool {
        &&& post == (Project { fixtures: post.fixtures, scenes: post.scenes, ..pre })
        &&& exists|a: Seq<FixtureInstance>, b: Seq<FixtureInstance>, c: Seq<FixtureInstance>| #[trigger]
            prepared(pre.fixtures@, a, b, c, catalog) && post.fixtures@ == sorted_by_label(c)
        &&& exists|s: Seq<Scene>| #[trigger] scenes_normalised(pre.scenes@, s) && post.scenes@ == sorted_by_label(s)
    }

    /// Brings a project, as it was read, into use with the fixture configurations
    /// that are known, and lists the fixtures that cannot be used and why.
    pub fn resolve(&mut self, catalog: &Vec<FixtureConfig>) -> (issues: Vec<ConfigIssue>)
        ensures
            Project::resolved(*old(self), catalog@, *final(self)),
            issues@ == issues_of(old(self).fixtures@, catalog@),
    {
        let issues = load_configs(&mut self.fixtures, catalog);
        let ghost a = self.fixtures@;
        assign_knobs(&mut self.fixtures);
        let ghost b = self.fixtures@;
        sort_macros(&mut self.fixtures);
        let ghost c = self.fixtures@;
        sort_by_label(&mut self.fixtures);
        assert(prepared(old(self).fixtures@, a, b, c, catalog@));
        let n = self.scenes.len();
        let mut i: usize = 0;
        while i < n
            invariant
                n == self.scenes.len(),
                n == old(self).scenes.len(),
                i <= n,
                *self == (Project { fixtures: self.fixtures, scenes: self.scenes, ..*old(self) }),
                self.fixtures@ == sorted_by_label(c),
                forall|k: int|
                    0 <= k < i ==> {
                        &&& #[trigger] self.scenes[k] == (Scene { state: self.scenes[k].state, ..old(self).scenes[k] })
                        &&& keys_normalised(old(self).scenes[k].entries(), self.scenes[k].entries())
                    },
                forall|k: int| i <= k < n ==> self.scenes[k] == old(self).scenes[k],
            decreases n - i,
        {
            self.scenes[i].sort_keys();
            i += 1;
        }
        let ghost s = self.scenes@;
        assert(scenes_normalised(old(self).scenes@, s));
        sort_by_label(&mut self.scenes);
        issues
    }
}

/// Each fixture of `copies` is a copy of the fixture of `fixtures` at its place.
pub open spec fn copies_of(fixtures: Seq<FixtureInstance>, copies: Seq<FixtureInstance>) -> bool {
    &&& copies.len() == fixtures.len()
    &&& forall|i: int| 0 <= i < fixtures.len() ==> (#[trigger] copies[i]).same(fixtures[i])
}

impl Project {
    /// Copies of the fixtures in the order in which a project is saved: the
    /// alphabetical order of their labels.
    pub fn fixtures_in_save_order(&self) -> (out: Vec<FixtureInstance>)
        ensures
            exists|copies: Seq<FixtureInstance>| #[trigger]
                copies_of(self.fixtures@, copies) && out@ == sorted_by_label(copies),
    {
        let mut out: Vec<FixtureInstance> = Vec::new();
        let n = self.fixtures.len();
        let mut i: usize = 0;
        while i < n
            invariant
                n == self.fixtures.len(),
                i <= n,
                out.len() == i,
                forall|k: int| 0 <= k < i ==> (#[trigger] out[k]).same(self.fixtures[k]),
            decreases n - i,
        {
            out.push(self.fixtures[i].clone());
            i += 1;
        }
        let ghost copies = out@;
        assert(copies_of(self.fixtures@, copies));
        sort_by_label(&mut out);
        out
    }
}

impl Default for Project {
    fn default() -> (p: Self)
        ensures
            p.fixtures@.len() == 0,
            p.scenes@.len() == 0,
            p.artnet_config is None,
    {
        Project::new()
    }
}

/// How the fixtures are to be reached. A broadcast asked for on the command line
/// decides; else two addresses given on the command line decide; else the project's
/// setting decides; with none of these there is no plan.
pub open spec fn planned_mode(cli: Cli, project: Project) -> Option<ModePlan> {
    if cli.artnet_broadcast {
        Some(ModePlan::Broadcast)
    } else if cli.unicast_src is Some && cli.unicast_dst is Some {
        Some(unicast_plan(cli.unicast_src->0@, cli.unicast_dst->0@))
    } else {
        match project.artnet_config {
            Some(mode) => Some(plan_of_config(mode)),
            None => None,
        }
    }
}

fn unicast(source: &String, destination: &String) -> (mode: ArtNetMode)
    ensures
        plan_of(mode) == unicast_plan(source@, destination@),
{
    ArtNetMode::Unicast(
        Endpoint { ip: source.clone(), port: UNICAST_SOURCE_PORT },
        Endpoint { ip: destination.clone(), port: ARTNET_PORT },
    )
}

/// Decides how the fixtures are to be reached.
pub fn choose_mode(cli: &Cli, project: &Project) -> (mode: Option<ArtNetMode>)
    ensures
        mode is Some <==> planned_mode(*cli, *project) is Some,
        mode matches Some(m) ==> planned_mode(*cli, *project) == Some(plan_of(m)),
{
    if cli.artnet_broadcast {
        return Some(ArtNetMode::Broadcast);
    }
    if let Some(source) = &cli.unicast_src {
        if let Some(destination) = &cli.unicast_dst {
            return Some(unicast(source, destination));
        }
    }
    match &project.artnet_config {
        Some(ArtNetConfigMode::Broadcast) => Some(ArtNetMode::Broadcast),
        Some(ArtNetConfigMode::Unicast(source, destination)) => Some(unicast(source, destination)),
        None => None,
    }
}

/// Sets up the Art-Net interface that the settings and the project ask for. With no
/// plan there is no interface and the user connects by hand; a frequency of zero is
/// turned down.
pub fn get_artnet_interface(cli: &Cli, project: &Project) -> (made: Result<ArtNetInterface, ArtNetError>)
    ensures
        made is Ok <==> planned_mode(*cli, *project) is Some && cli.artnet_update_frequency > 0,
        planned_mode(*cli, *project) is None ==> made == Err::<ArtNetInterface, ArtNetError>(ArtNetError::NoSettings),
        planned_mode(*cli, *project) is Some && cli.artnet_update_frequency == 0 ==> made == Err::<
            ArtNetInterface,
            ArtNetError,
        >(ArtNetError::ZeroFrequency),
        made matches Ok(a) ==> {
            &&& a.wf()
            &&& planned_mode(*cli, *project) == Some(plan_of(a.mode()))
            &&& a.universe() == cli.artnet_universe
            &&& a.update_interval() == crate::artnet::interval_ms(cli.artnet_update_frequency)
            &&& a.last_sent() is None
            &&& a.state() == crate::artnet::zeroes()
        },
{
    match choose_mode(cli, project) {
        Some(mode) => ArtNetInterface::new(mode, cli.artnet_update_frequency, cli.artnet_universe),
        None => Err(ArtNetError::NoSettings),
    }
}

} // verus!
