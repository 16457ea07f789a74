//! Bringing the fixtures of a project into use: matching each with its
//! configuration, checking that it fits the universe, numbering the knobs, and
//! putting fixtures and macros in alphabetical order.

use crate::fixture::{
    all_at_rest, channel_index, same_modes, target_channel, ChannelList, ChannelWithResolution, ControlMode,
    FixtureConfig, FixtureInstance, FixtureMacro, Mapping, ValueMacro,
};
use crate::router::fixtures_changed;
use crate::sorting::{sort_by_label, sorted_by_label, Labelled};
use crate::text::{eq_ignore_ascii_case, labels_match};
use vstd::prelude::*;

verus! {

impl Labelled for FixtureInstance {
    open spec fn label_seq(&self) -> Seq<char> {
        self.label@
    }

    fn label_text(&self) -> (label: &str) {
        self.label.as_str()
    }
}

impl Labelled for FixtureMacro {
    open spec fn label_seq(&self) -> Seq<char> {
        self.label_view()
    }

    fn label_text(&self) -> (label: &str) {
        self.label().as_str()
    }
}

/// Why a fixture of a project cannot be used.
#[derive(Clone, Copy, Debug, PartialEq, Eq, Structural)]
pub enum ConfigProblem {
    /// No known configuration has the name that the fixture asks for.
    UnknownFixture,
    /// The configuration has no mode at the place that the fixture asks for.
    ModeIndexOutOfRange,
    /// A channel of the mode, counted from the fixture's start channel, falls
    /// outside the universe.
    ChannelOutOfRange,
    /// A colour macro of the mode drives 16-bit colour channels, which the engine
    /// does not write.
    UnsupportedChannelGroup,
}

/// A problem with the fixture at a place of the project's list, in the order in
/// which the project was loaded.
#[derive(Clone, Copy, Debug, PartialEq, Eq, Structural)]
pub struct ConfigIssue {
    pub fixture: usize,
    pub problem: ConfigProblem,
}

/// Every channel of the list lies in the universe.
pub open spec fn group_in_universe(channels: Seq<u16>, start_channel: u16) -> bool {
    forall|i: int| 0 <= i < channels.len() ==> channel_index(#[trigger] channels[i], start_channel) is Some
}

/// Both channels of a 16-bit reference, or the one of an 8-bit reference, lie in
/// the universe.
pub open spec fn reference_in_universe(c: ChannelWithResolution, start_channel: u16) -> bool {
    match c {
        ChannelWithResolution::LoRes(channel) => channel_index(channel, start_channel) is Some,
        ChannelWithResolution::HiRes((coarse, fine)) => channel_index(coarse, start_channel) is Some
            && channel_index(fine, start_channel) is Some,
    }
}

/// Every channel reference of the list lies in the universe.
pub open spec fn references_in_universe(channels: Seq<ChannelWithResolution>, start_channel: u16) -> bool {
    forall|i: int| 0 <= i < channels.len() ==> reference_in_universe(#[trigger] channels[i], start_channel)
}

/// Every mapped channel lies in the universe.
pub open spec fn mappings_in_universe(mappings: Seq<Mapping>, start_channel: u16) -> bool {
    forall|i: int| 0 <= i < mappings.len() ==> channel_index((#[trigger] mappings[i]).channel, start_channel) is Some
}

/// What is wrong with a macro of a fixture that starts at `start_channel`, if
/// anything.
pub open spec fn macro_problem(m: FixtureMacro, start_channel: u16) -> Option<ConfigProblem> {
    let fits = match m {
        FixtureMacro::Control(v) => references_in_universe(v.channels@, start_channel),
        FixtureMacro::Colour(c) => match c.channels {
            ChannelList::AdditiveRGBW8(g) => group_in_universe(g.red@, start_channel) && group_in_universe(
                g.green@,
                start_channel,
            ) && group_in_universe(g.blue@, start_channel) && group_in_universe(g.white@, start_channel),
            ChannelList::AdditiveRGBL8(g) => group_in_universe(g.red@, start_channel) && group_in_universe(
                g.green@,
                start_channel,
            ) && group_in_universe(g.blue@, start_channel) && group_in_universe(g.lime@, start_channel),
            ChannelList::AdditiveRGB16(_) => true,
            ChannelList::Subtractive(g) => group_in_universe(g.cyan@, start_channel) && group_in_universe(
                g.magenta@,
                start_channel,
            ) && group_in_universe(g.yellow@, start_channel),
        },
    };
    if m matches FixtureMacro::Colour(c) && c.channels is AdditiveRGB16 {
        Some(ConfigProblem::UnsupportedChannelGroup)
    } else if fits {
        None
    } else {
        Some(ConfigProblem::ChannelOutOfRange)
    }
}

/// The problem of the first macro of the list that has one.
pub open spec fn macros_problem(macros: Seq<FixtureMacro>, start_channel: u16) -> Option<ConfigProblem>
    decreases macros.len(),
{
    if macros.len() == 0 {
        None
    } else {
        match macros_problem(macros.drop_last(), start_channel) {
            Some(p) => Some(p),
            None => macro_problem(macros.last(), start_channel),
        }
    }
}

/// What is wrong with a mode for a fixture that starts at `start_channel`: a mapped
/// channel outside the universe, else the problem of the first macro that has one.
pub open spec fn mode_problem(mode: ControlMode, start_channel: u16) -> Option<ConfigProblem> {
    if !mappings_in_universe(mode.mappings@, start_channel) {
        Some(ConfigProblem::ChannelOutOfRange)
    } else {
        macros_problem(mode.macros@, start_channel)
    }
}

fn check_group(channels: &Vec<u16>, start_channel: u16) -> (fits: bool)
    ensures
        fits == group_in_universe(channels@, start_channel),
{
    let n = channels.len();
    let mut i: usize = 0;
    while i < n
        invariant
            n == channels.len(),
            i <= n,
            forall|k: int| 0 <= k < i ==> channel_index(#[trigger] channels[k], start_channel) is Some,
        decreases n - i,
    {
        if target_channel(channels[i], start_channel).is_none() {
            assert(channel_index(channels@[i as int], start_channel) is None);
            return false;
        }
        i += 1;
    }
    true
}

fn check_references(channels: &Vec<ChannelWithResolution>, start_channel: u16) -> (fits: bool)
    ensures
        fits == references_in_universe(channels@, start_channel),
{
    let n = channels.len();
    let mut i: usize = 0;
    while i < n
        invariant
            n == channels.len(),
            i <= n,
            forall|k: int| 0 <= k < i ==> reference_in_universe(#[trigger] channels[k], start_channel),
        decreases n - i,
    {
        let fits = match channels[i] {
            ChannelWithResolution::LoRes(channel) => target_channel(channel, start_channel).is_some(),
            ChannelWithResolution::HiRes((coarse, fine)) => target_channel(coarse, start_channel).is_some()
                && target_channel(fine, start_channel).is_some(),
        };
        if !fits {
            assert(!reference_in_universe(channels@[i as int], start_channel));
            return false;
        }
        i += 1;
    }
    true
}

fn check_mappings(mappings: &Vec<Mapping>, start_channel: u16) -> (fits: bool)
    ensures
        fits == mappings_in_universe(mappings@, start_channel),
{
    let n = mappings.len();
    let mut i: usize = 0;
    while i < n
        invariant
            n == mappings.len(),
            i <= n,
            forall|k: int| 0 <= k < i ==> channel_index((#[trigger] mappings[k]).channel, start_channel) is Some,
        decreases n - i,
    {
        if target_channel(mappings[i].channel, start_channel).is_none() {
            assert(channel_index(mappings@[i as int].channel, start_channel) is None);
            return false;
        }
        i += 1;
    }
    true
}

/// Checks one macro of a fixture that starts at `start_channel`.
pub fn check_macro(m: &FixtureMacro, start_channel: u16) -> (problem: Option<ConfigProblem>)
    ensures
        problem == macro_problem(*m, start_channel),
{
    let fits = match m {
        FixtureMacro::Control(v) => check_references(&v.channels, start_channel),
        FixtureMacro::Colour(c) => match &c.channels {
            ChannelList::AdditiveRGBW8(g) => check_group(&g.red, start_channel) && check_group(&g.green, start_channel)
                && check_group(&g.blue, start_channel) && check_group(&g.white, start_channel),
            ChannelList::AdditiveRGBL8(g) => check_group(&g.red, start_channel) && check_group(&g.green, start_channel)
                && check_group(&g.blue, start_channel) && check_group(&g.lime, start_channel),
            ChannelList::AdditiveRGB16(_) => {
                return Some(ConfigProblem::UnsupportedChannelGroup);
            },
            ChannelList::Subtractive(g) => check_group(&g.cyan, start_channel) && check_group(
                &g.magenta,
                start_channel,
            ) && check_group(&g.yellow, start_channel),
        },
    };
    if fits {
        None
    } else {
        Some(ConfigProblem::ChannelOutOfRange)
    }
}

proof fn lemma_problem_stays(macros: Seq<FixtureMacro>, start_channel: u16, i: int)
    requires
        0 <= i <= macros.len(),
        macros_problem(macros.take(i), start_channel) is Some,
    ensures
        macros_problem(macros, start_channel) == macros_problem(macros.take(i), start_channel),
    decreases macros.len() - i,
{
    if i < macros.len() {
        let next = macros.take(i + 1);
        assert(next.drop_last() =~= macros.take(i));
        lemma_problem_stays(macros, start_channel, i + 1);
    } else {
        assert(macros.take(i) =~= macros);
    }
}

/// Checks a mode for a fixture that starts at `start_channel`.
pub fn check_mode(mode: &ControlMode, start_channel: u16) -> (problem: Option<ConfigProblem>)
    ensures
        problem == mode_problem(*mode, start_channel),
{
    if !check_mappings(&mode.mappings, start_channel) {
        return Some(ConfigProblem::ChannelOutOfRange);
    }
    let n = mode.macros.len();
    let mut i: usize = 0;
    assert(mode.macros@.take(0) =~= Seq::<FixtureMacro>::empty());
    while i < n
        invariant
            n == mode.macros.len(),
            i <= n,
            mappings_in_universe(mode.mappings@, start_channel),
            macros_problem(mode.macros@.take(i as int), start_channel) is None,
        decreases n - i,
    {
        let found = check_macro(&mode.macros[i], start_channel);
        proof {
            let next = mode.macros@.take(i as int + 1);
            assert(next.drop_last() =~= mode.macros@.take(i as int));
            assert(next.last() == mode.macros@[i as int]);
            assert(macros_problem(next, start_channel) == found);
        }
        if found.is_some() {
            proof {
                lemma_problem_stays(mode.macros@, start_channel, i as int + 1);
            }
            return found;
        }
        i += 1;
    }
    assert(mode.macros@.take(n as int) =~= mode.macros@);
    None
}

/// `i` is the place of the first configuration whose name matches `name` up to
/// ASCII case.
pub open spec fn is_first_config(catalog: Seq<FixtureConfig>, name: Seq<char>, i: int) -> bool {
    &&& 0 <= i < catalog.len()
    &&& labels_match(catalog[i].name@, name)
    &&& forall|k: int| 0 <= k < i ==> !labels_match((#[trigger] catalog[k]).name@, name)
}

/// The place of the first configuration whose name matches `name`, if any does.
pub open spec fn first_config_named(catalog: Seq<FixtureConfig>, name: Seq<char>) -> Option<int> {
    if exists|i: int| is_first_config(catalog, name, i) {
        Some(choose|i: int| is_first_config(catalog, name, i))
    } else {
        None
    }
}

/// Finds the first configuration whose name matches `name` up to ASCII case.
pub fn find_config(catalog: &Vec<FixtureConfig>, name: &str) -> (found: Option<usize>)
    ensures
        found is Some <==> first_config_named(catalog@, name@) is Some,
        found matches Some(i) ==> first_config_named(catalog@, name@) == Some(i as int) && i < catalog.len(),
{
    let n = catalog.len();
    let mut i: usize = 0;
    while i < n
        invariant
            n == catalog.len(),
            i <= n,
            forall|k: int| 0 <= k < i ==> !labels_match((#[trigger] catalog[k]).name@, name@),
        decreases n - i,
    {
        if eq_ignore_ascii_case(catalog[i].name.as_str(), name) {
            proof {
                assert(is_first_config(catalog@, name@, i as int));
                let c = choose|c: int| is_first_config(catalog@, name@, c);
                assert(is_first_config(catalog@, name@, c));
                if c < i {
                    assert(!labels_match(catalog@[c].name@, name@));
                }
                if i < c {
                    assert(!labels_match(catalog@[i as int].name@, name@));
                }
            }
            return Some(i);
        }
        i += 1;
    }
    proof {
        if exists|c: int| is_first_config(catalog@, name@, c) {
            let c = choose|c: int| is_first_config(catalog@, name@, c);
            assert(!labels_match(catalog@[c].name@, name@));
        }
    }
    None
}

/// What is wrong with a fixture, given the configurations that are known.
pub open spec fn config_problem(f: FixtureInstance, catalog: Seq<FixtureConfig>) -> Option<ConfigProblem> {
    match first_config_named(catalog, f.config_name@) {
        None => Some(ConfigProblem::UnknownFixture),
        Some(c) => if f.mode_index >= catalog[c].modes@.len() {
            Some(ConfigProblem::ModeIndexOutOfRange)
        } else {
            mode_problem(catalog[c].modes@[f.mode_index as int], f.start_channel)
        },
    }
}

/// A fixture after it has been matched with its configuration. It holds a copy of
/// the first configuration that has the name it asks for, and, as its active mode,
/// a copy of the mode it asks for, with every macro at rest. A fixture with a
/// problem has an empty active mode, so that it maps no channel and has no macro;
/// one whose configuration is not known has an empty configuration.
pub open spec fn configured(pre: FixtureInstance, post: FixtureInstance, catalog: Seq<FixtureConfig>) -> bool {
    &&& post == (FixtureInstance { config: post.config, ..pre })
    &&& match first_config_named(catalog, pre.config_name@) {
        None => post.config.is_empty(),
        Some(c) => {
            &&& post.config.name@ == catalog[c].name@
            &&& post.config.reference@ == catalog[c].reference@
            &&& same_modes(post.config.modes@, catalog[c].modes@)
            &&& if config_problem(pre, catalog) is None {
                &&& post.config.active_mode.same(catalog[c].modes@[pre.mode_index as int])
                &&& all_at_rest(post.macros())
            } else {
                post.config.active_mode.is_empty()
            }
        },
    }
}

/// Matches a fixture with its configuration.
pub fn configure(fixture: &mut FixtureInstance, catalog: &Vec<FixtureConfig>) -> (problem: Option<ConfigProblem>)
    ensures
        configured(*old(fixture), *final(fixture), catalog@),
        problem == config_problem(*old(fixture), catalog@),
{
    match find_config(catalog, fixture.config_name.as_str()) {
        None => {
            fixture.config = FixtureConfig::default();
            Some(ConfigProblem::UnknownFixture)
        },
        Some(c) => {
            let known = &catalog[c];
            let mut config = known.clone();
            let problem = if fixture.mode_index >= known.modes.len() {
                Some(ConfigProblem::ModeIndexOutOfRange)
            } else {
                check_mode(&known.modes[fixture.mode_index], fixture.start_channel)
            };
            if problem.is_none() {
                config.active_mode = known.modes[fixture.mode_index].clone();
            } else {
                config.active_mode = ControlMode::default();
            }
            fixture.config = config;
            problem
        },
    }
}

/// The issues of a list of fixtures, in the order of the list.
pub open spec fn issues_of(fixtures: Seq<FixtureInstance>, catalog: Seq<FixtureConfig>) -> Seq<ConfigIssue>
    decreases fixtures.len(),
{
    if fixtures.len() == 0 {
        Seq::empty()
    } else {
        issues_of(fixtures.drop_last(), catalog) + match config_problem(fixtures.last(), catalog) {
            Some(problem) => seq![ConfigIssue { fixture: (fixtures.len() - 1) as usize, problem }],
            None => Seq::empty(),
        }
    }
}

/// Every fixture of `post` is the fixture of `pre` at its place, matched with its
/// configuration.
pub open spec fn all_configured(pre: Seq<FixtureInstance>, post: Seq<FixtureInstance>, catalog: Seq<FixtureConfig>) -> bool {
    &&& post.len() == pre.len()
    &&& forall|i: int| 0 <= i < pre.len() ==> configured(pre[i], #[trigger] post[i], catalog)
}

/// Matches every fixture with its configuration, and lists what is wrong with those
/// that cannot be used.
pub fn load_configs(fixtures: &mut Vec<FixtureInstance>, catalog: &Vec<FixtureConfig>) -> (issues: Vec<ConfigIssue>)
    ensures
        all_configured(old(fixtures)@, final(fixtures)@, catalog@),
        issues@ == issues_of(old(fixtures)@, catalog@),
{
    let mut issues: Vec<ConfigIssue> = Vec::new();
    let n = fixtures.len();
    let mut i: usize = 0;
    assert(old(fixtures)@.take(0) =~= Seq::<FixtureInstance>::empty());
    while i < n
        invariant
            n == fixtures.len(),
            n == old(fixtures).len(),
            i <= n,
            forall|k: int| 0 <= k < i ==> configured(old(fixtures)[k], #[trigger] fixtures[k], catalog@),
            forall|k: int| i <= k < n ==> fixtures[k] == old(fixtures)[k],
            issues@ == issues_of(old(fixtures)@.take(i as int), catalog@),
        decreases n - i,
    {
        let problem = configure(&mut fixtures[i], catalog);
        let ghost held = issues@;
        match problem {
            Some(p) => {
                issues.push(ConfigIssue { fixture: i, problem: p });
                assert(issues@ =~= held + seq![ConfigIssue { fixture: i, problem: p }]);
            },
            None => {
                assert(issues@ =~= held + Seq::<ConfigIssue>::empty());
            },
        }
        proof {
            let next = old(fixtures)@.take(i as int + 1);
            assert(next.drop_last() =~= old(fixtures)@.take(i as int));
            assert(next.last() == old(fixtures)@[i as int]);
        }
        i += 1;
    }
    assert(old(fixtures)@.take(n as int) =~= old(fixtures)@);
    issues
}

/// How many of the first `k` macros are control macros.
pub open spec fn controls_before(macros: Seq<FixtureMacro>, k: int) -> int
    decreases k,
{
    if k <= 0 {
        0
    } else {
        controls_before(macros, k - 1) + if macros[k - 1] is Control { 1int } else { 0int }
    }
}

/// How many control macros the fixtures have between them.
pub open spec fn controls_in(fixtures: Seq<FixtureInstance>) -> int
    decreases fixtures.len(),
{
    if fixtures.len() == 0 {
        0
    } else {
        controls_in(fixtures.drop_last()) + controls_before(fixtures.last().macros(), fixtures.last().macros().len() as int)
    }
}

/// The knob with number `n`; numbers beyond the machine's range all give the last.
pub open spec fn knob_at(n: int) -> usize {
    if n <= usize::MAX {
        n as usize
    } else {
        usize::MAX
    }
}

/// A macro that has been given knob number `n`: a control macro is assigned to that
/// knob, a colour macro to none.
pub open spec fn with_knob(m: FixtureMacro, n: int) -> FixtureMacro {
    match m {
        FixtureMacro::Control(v) => FixtureMacro::Control(ValueMacro { midi_knob_index: Some(knob_at(n)), ..v }),
        FixtureMacro::Colour(_) => m,
    }
}

/// The macros of a fixture after its control macros have been numbered in order,
/// from `first` on.
pub open spec fn knobbed(macros: Seq<FixtureMacro>, first: int) -> Seq<FixtureMacro> {
    Seq::new(macros.len(), |k: int| with_knob(macros[k], first + controls_before(macros, k)))
}

proof fn lemma_controls_nonnegative(macros: Seq<FixtureMacro>, k: int)
    ensures
        controls_before(macros, k) >= 0,
    decreases k,
{
    if k > 0 {
        lemma_controls_nonnegative(macros, k - 1);
    }
}

proof fn lemma_controls_in_nonnegative(fixtures: Seq<FixtureInstance>)
    ensures
        controls_in(fixtures) >= 0,
    decreases fixtures.len(),
{
    if fixtures.len() > 0 {
        lemma_controls_in_nonnegative(fixtures.drop_last());
        lemma_controls_nonnegative(fixtures.last().macros(), fixtures.last().macros().len() as int);
    }
}

fn number_knobs(fixture: &mut FixtureInstance, next: usize, Ghost(first): Ghost<int>) -> (after: usize)
    requires
        first >= 0,
        next == knob_at(first),
    ensures
        FixtureInstance::with_macros(*old(fixture), *final(fixture), knobbed(old(fixture).macros(), first)),
        after == knob_at(first + controls_before(old(fixture).macros(), old(fixture).macros().len() as int)),
{
    let n = fixture.config.active_mode.macros.len();
    let mut next = next;
    let mut k: usize = 0;
    while k < n
        invariant
            k <= n,
            first >= 0,
            FixtureInstance::with_macros(*old(fixture), *fixture, fixture.macros()),
            fixture.macros().len() == n,
            old(fixture).macros().len() == n,
            next == knob_at(first + controls_before(old(fixture).macros(), k as int)),
            forall|j: int|
                0 <= j < k ==> fixture.macros()[j] == with_knob(
                    old(fixture).macros()[j],
                    first + controls_before(old(fixture).macros(), j),
                ),
            forall|j: int| k <= j < n ==> fixture.macros()[j] == old(fixture).macros()[j],
        decreases n - k,
    {
        proof {
            lemma_controls_nonnegative(old(fixture).macros(), k as int);
        }
        match &mut fixture.config.active_mode.macros[k] {
            FixtureMacro::Control(v) => {
                v.midi_knob_index = Some(next);
                if next < usize::MAX {
                    next = next + 1;
                }
            },
            FixtureMacro::Colour(_) => {},
        }
        k += 1;
    }
    assert(fixture.macros() =~= knobbed(old(fixture).macros(), first));
    next
}

/// Numbers the control macros of all fixtures, fixture by fixture in the order of
/// the list: each is assigned to the knob with its number, counted from zero.
pub fn assign_knobs(fixtures: &mut Vec<FixtureInstance>)
    ensures
        fixtures_changed(
            old(fixtures)@,
            final(fixtures)@,
            |i: int, f: FixtureInstance| knobbed(f.macros(), controls_in(old(fixtures)@.take(i))),
        ),
{
    let n = fixtures.len();
    let mut next: usize = 0;
    let mut i: usize = 0;
    assert(old(fixtures)@.take(0) =~= Seq::<FixtureInstance>::empty());
    while i < n
        invariant
            n == fixtures.len(),
            n == old(fixtures).len(),
            i <= n,
            next == knob_at(controls_in(old(fixtures)@.take(i as int))),
            forall|k: int|
                0 <= k < i ==> FixtureInstance::with_macros(
                    old(fixtures)[k],
                    #[trigger] fixtures[k],
                    knobbed(old(fixtures)[k].macros(), controls_in(old(fixtures)@.take(k))),
                ),
            forall|k: int| i <= k < n ==> fixtures[k] == old(fixtures)[k],
        decreases n - i,
    {
        proof {
            lemma_controls_in_nonnegative(old(fixtures)@.take(i as int));
            let grown = old(fixtures)@.take(i as int + 1);
            assert(grown.drop_last() =~= old(fixtures)@.take(i as int));
            assert(grown.last() == old(fixtures)@[i as int]);
        }
        next = number_knobs(&mut fixtures[i], next, Ghost(controls_in(old(fixtures)@.take(i as int))));
        i += 1;
    }
}

/// Puts the macros of each fixture in the alphabetical order of their labels.
pub fn sort_macros(fixtures: &mut Vec<FixtureInstance>)
    ensures
        fixtures_changed(
            old(fixtures)@,
            final(fixtures)@,
            |i: int, f: FixtureInstance| sorted_by_label(f.macros()),
        ),
{
    let n = fixtures.len();
    let mut i: usize = 0;
    while i < n
        invariant
            n == fixtures.len(),
            n == old(fixtures).len(),
            i <= n,
            forall|k: int|
                0 <= k < i ==> FixtureInstance::with_macros(
                    old(fixtures)[k],
                    #[trigger] fixtures[k],
                    sorted_by_label(old(fixtures)[k].macros()),
                ),
            forall|k: int| i <= k < n ==> fixtures[k] == old(fixtures)[k],
        decreases n - i,
    {
        let fixture = &mut fixtures[i];
        sort_by_label(&mut fixture.config.active_mode.macros);
        i += 1;
    }
}

} // verus!
